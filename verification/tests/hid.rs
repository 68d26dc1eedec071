use rc_usb_controller::hid::{
    ControlInResponse, ControlOutResponse, ControlRequest, DescriptorWrite, HIDClass, Recipient,
    RequestType, EMPTY_REPORT, GET_DESCRIPTOR, GET_REPORT, HID_DESCR, HID_DESCRIPTOR_TYPE,
    MAX_PACKET_SIZE, POLL_INTERVAL, REPORT_DESCR, REPORT_DESCRIPTOR_TYPE, USB_CLASS_HID,
    USB_INTERFACE_GAMEPAD, USB_PRODUCT_ID, USB_SUBCLASS_NONE, USB_VENDOR_ID,
};
use rc_usb_controller::types::{JoystickState, REPORT_SIZE};

fn data_of(response: ControlInResponse) -> &'static [u8] {
    match response {
        ControlInResponse::Accept(data) => data,
        other => panic!("not accepted: {:?}", other),
    }
}

fn request(
    request_type: RequestType,
    recipient: Recipient,
    request: u8,
    value: u16,
    index: u16,
) -> ControlRequest {
    ControlRequest { request_type, recipient, request, value, index }
}

fn get_descriptor(descriptor_type: u8, index: u16) -> ControlRequest {
    request(
        RequestType::Standard,
        Recipient::Interface,
        GET_DESCRIPTOR,
        (descriptor_type as u16) << 8,
        index,
    )
}

const ALL_TYPES: [RequestType; 4] =
    [RequestType::Standard, RequestType::Class, RequestType::Vendor, RequestType::Reserved];

const ALL_RECIPIENTS: [Recipient; 5] = [
    Recipient::Device,
    Recipient::Interface,
    Recipient::Endpoint,
    Recipient::Other,
    Recipient::Reserved,
];

#[test]
fn constants_of_the_device() {
    assert_eq!(USB_VENDOR_ID, 0x16c0);
    assert_eq!(USB_PRODUCT_ID, 0x27dc);
    assert_eq!(USB_CLASS_HID, 0x03);
    assert_eq!(USB_SUBCLASS_NONE, 0x00);
    assert_eq!(USB_INTERFACE_GAMEPAD, 0x05);
    assert_eq!(HID_DESCRIPTOR_TYPE, 0x21);
    assert_eq!(REPORT_DESCRIPTOR_TYPE, 0x22);
    assert_eq!(GET_DESCRIPTOR, 6);
    assert_eq!(GET_REPORT, 1);
    assert_eq!(MAX_PACKET_SIZE, 13);
    assert_eq!(POLL_INTERVAL, 1);
}

#[test]
fn report_descriptor_bytes() {
    let expected: [u8; 72] = [
        0x05, 0x01, 0x09, 0x04, 0xA1, 0x01, 0x09, 0x01, 0xA1, 0x00, 0x05, 0x01, 0x09, 0x30, 0x09,
        0x31, 0x09, 0x32, 0x09, 0x33, 0x16, 0x0C, 0xFE, 0x26, 0xF4, 0x01, 0x75, 0x10, 0x95, 0x04,
        0x81, 0x02, 0xC0, 0x09, 0x36, 0x09, 0x37, 0x16, 0x0C, 0xFE, 0x26, 0xF4, 0x01, 0x75, 0x10,
        0x95, 0x02, 0x81, 0x02, 0x05, 0x09, 0x19, 0x01, 0x29, 0x06, 0x15, 0x00, 0x25, 0x01, 0x75,
        0x01, 0x95, 0x06, 0x81, 0x02, 0x95, 0x01, 0x75, 0x02, 0x81, 0x03, 0xC0,
    ];
    assert_eq!(REPORT_DESCR, expected);
}

#[test]
fn report_descriptor_declares_a_report_of_thirteen_bytes() {
    // sum of REPORT_SIZE x REPORT_COUNT over the INPUT items
    let mut bits = 0u32;
    let (mut size, mut count) = (0u32, 0u32);
    let mut i = 0;
    while i < REPORT_DESCR.len() {
        let prefix = REPORT_DESCR[i];
        let length = match prefix & 0x03 {
            3 => 4,
            n => n as usize,
        };
        let value = if length > 0 { REPORT_DESCR[i + 1] as u32 } else { 0 };
        match prefix & 0xfc {
            0x74 => size = value,
            0x94 => count = value,
            0x80 => bits += size * count,
            _ => {}
        }
        i += 1 + length;
    }
    assert_eq!(i, REPORT_DESCR.len());
    assert_eq!(bits, 13 * 8);
}

#[test]
fn hid_descriptor_is_nine_bytes_with_the_report_descriptor_length() {
    let descriptor = HID_DESCR;
    assert_eq!(descriptor, [0x09, 0x21, 0x01, 0x01, 0x00, 0x01, 0x22, 72, 0]);
    assert_eq!(descriptor.len(), 9);
    assert_eq!(descriptor[0] as usize, descriptor.len());
    assert_eq!(
        descriptor[7] as usize + 256 * descriptor[8] as usize,
        REPORT_DESCR.len()
    );
}

#[test]
fn get_descriptor_hid() {
    let mut class = HIDClass::new(0);
    let response = class.control_in(&get_descriptor(0x21, 0));
    assert_eq!(
        response,
        ControlInResponse::Accept(&[0x09, 0x21, 0x01, 0x01, 0x00, 0x01, 0x22, 72, 0])
    );
    let data = data_of(response);
    assert_eq!(data.len(), 9);
    assert_eq!(data[7] as usize + 256 * data[8] as usize, REPORT_DESCR.len());
}

#[test]
fn get_descriptor_report() {
    let mut class = HIDClass::new(0);
    let response = class.control_in(&get_descriptor(0x22, 0));
    assert_eq!(response, ControlInResponse::Accept(&REPORT_DESCR));
    assert_eq!(data_of(response).len(), 72);
}

#[test]
fn get_descriptor_goes_by_the_high_byte_of_the_value() {
    let mut class = HIDClass::new(0);
    let mut req = get_descriptor(0x22, 0);
    req.value = 0x22ff;
    assert_eq!(class.control_in(&req), ControlInResponse::Accept(&REPORT_DESCR));
    req.value = 0x0022;
    assert_eq!(class.control_in(&req), ControlInResponse::Ignore);
    req.value = 0x2122;
    assert_eq!(class.control_in(&req), ControlInResponse::Accept(&HID_DESCR));
}

#[test]
fn get_descriptor_is_answered_whatever_its_index() {
    let mut class = HIDClass::new(1);
    assert_eq!(
        class.control_in(&get_descriptor(0x22, 7)),
        ControlInResponse::Accept(&REPORT_DESCR)
    );
    assert_eq!(
        class.control_in(&get_descriptor(0x21, 7)),
        ControlInResponse::Accept(&HID_DESCR)
    );
}

#[test]
fn get_descriptor_of_another_type_is_ignored() {
    let mut class = HIDClass::new(0);
    for descriptor_type in [0x00u8, 0x01, 0x02, 0x20, 0x23, 0xff] {
        assert_eq!(
            class.control_in(&get_descriptor(descriptor_type, 0)),
            ControlInResponse::Ignore
        );
    }
}

#[test]
fn other_standard_requests_are_ignored() {
    let mut class = HIDClass::new(0);
    for recipient in ALL_RECIPIENTS {
        for code in 0..=255u8 {
            if recipient == Recipient::Interface && code == GET_DESCRIPTOR {
                continue;
            }
            let req = request(RequestType::Standard, recipient, code, 0x2200, 0);
            assert_eq!(class.control_in(&req), ControlInResponse::Ignore);
        }
    }
}

#[test]
fn get_report_is_a_report_of_zeros() {
    let mut class = HIDClass::new(3);
    let req = request(RequestType::Class, Recipient::Interface, GET_REPORT, 0x0100, 3);
    let response = class.control_in(&req);
    assert_eq!(response, ControlInResponse::Accept(&[0u8; 13]));
    assert_eq!(response, ControlInResponse::Accept(&EMPTY_REPORT));
    assert_eq!(data_of(response).len(), REPORT_SIZE);
    assert_eq!(data_of(response), JoystickState::from_ppm_time().as_u8_slice());
}

#[test]
fn other_class_requests_to_the_interface_are_rejected() {
    let mut class = HIDClass::new(3);
    for code in 0..=255u8 {
        if code == GET_REPORT {
            continue;
        }
        let req = request(RequestType::Class, Recipient::Interface, code, 0, 3);
        assert_eq!(class.control_in(&req), ControlInResponse::Reject);
    }
}

#[test]
fn class_request_to_another_interface_changes_nothing() {
    let mut class = HIDClass::new(3);
    let before = class;
    for index in [0u16, 1, 2, 4, 0x0103, 0xffff] {
        for code in [0u8, GET_REPORT, 9, 10, 255] {
            let req = request(RequestType::Class, Recipient::Interface, code, 0, index);
            assert_eq!(class.control_in(&req), ControlInResponse::Ignore);
            assert_eq!(class.control_out(&req), ControlOutResponse::Ignore);
            assert_eq!(class, before);
        }
    }
    // and the function still answers for its own interface
    let req = request(RequestType::Class, Recipient::Interface, GET_REPORT, 0, 3);
    assert_eq!(class.control_in(&req), ControlInResponse::Accept(&[0u8; 13]));
}

#[test]
fn requests_to_others_than_an_interface_are_ignored() {
    let mut class = HIDClass::new(0);
    for request_type in [RequestType::Class, RequestType::Vendor, RequestType::Reserved] {
        for recipient in ALL_RECIPIENTS {
            if request_type == RequestType::Class && recipient == Recipient::Interface {
                continue;
            }
            let req = request(request_type, recipient, GET_REPORT, 0, 0);
            assert_eq!(class.control_in(&req), ControlInResponse::Ignore);
            assert_eq!(class.control_out(&req), ControlOutResponse::Ignore);
        }
    }
}

#[test]
fn control_out_rejects_what_is_meant_for_the_interface() {
    let mut class = HIDClass::new(2);
    let before = class;
    for code in [0u8, 1, 9, 10, 11, 255] {
        let req = request(RequestType::Class, Recipient::Interface, code, 0x1234, 2);
        assert_eq!(class.control_out(&req), ControlOutResponse::Reject);
        assert_eq!(class, before);
    }
}

#[test]
fn control_out_ignores_everything_else() {
    let mut class = HIDClass::new(2);
    for request_type in ALL_TYPES {
        for recipient in ALL_RECIPIENTS {
            for index in [0u16, 2, 3] {
                let mine = request_type == RequestType::Class
                    && recipient == Recipient::Interface
                    && index == 2;
                let req = request(request_type, recipient, 9, 0, index);
                let expected =
                    if mine { ControlOutResponse::Reject } else { ControlOutResponse::Ignore };
                assert_eq!(class.control_out(&req), expected);
            }
        }
    }
}

#[test]
fn descriptor_type_and_index_are_the_bytes_of_the_value() {
    let mut req = get_descriptor(0, 0);
    for (value, expected) in
        [(0x0000u16, (0u8, 0u8)), (0x2100, (0x21, 0)), (0x2203, (0x22, 3)), (0xffff, (0xff, 0xff)), (0x00ff, (0, 0xff))]
    {
        req.value = value;
        assert_eq!(req.descriptor_type_index(), expected);
    }
}

#[test]
fn configuration_descriptors() {
    let class = HIDClass::new(5);
    let writes = class.get_configuration_descriptors();
    assert_eq!(
        writes,
        [
            DescriptorWrite::Interface { number: 5, class: 0x03, sub_class: 0x00, protocol: 0x05 },
            DescriptorWrite::Class {
                descriptor_type: 0x21,
                body: [0x01, 0x01, 0x00, 0x01, 0x22, 72, 0],
            },
            DescriptorWrite::Endpoint,
        ]
    );
}

#[test]
fn hid_descriptor_is_the_class_descriptor_with_its_header() {
    let class = HIDClass::new(0);
    let writes = class.get_configuration_descriptors();
    match writes[1] {
        DescriptorWrite::Class { descriptor_type, body } => {
            let mut whole = vec![body.len() as u8 + 2, descriptor_type];
            whole.extend_from_slice(&body);
            assert_eq!(whole, HID_DESCR.to_vec());
        }
        _ => panic!("the second entry is the class descriptor"),
    }
}

//! The HID function of the device: its descriptors and its answers to
//! control requests.

use crate::types::{lemma_neutral_wire_is_zero, zero_report, JoystickState, REPORT_SIZE};
use vstd::prelude::*;

verus! {

/// Vendor id of the device, of a range that is free for such use.
pub const USB_VENDOR_ID: u16 = 0x16c0;

/// Product id of the device: a joystick of that range.
pub const USB_PRODUCT_ID: u16 = 0x27dc;

/// Interface class of a human interface device.
pub const USB_CLASS_HID: u8 = 0x03;

/// Interface subclass: none.
pub const USB_SUBCLASS_NONE: u8 = 0x00;

/// Interface protocol: gamepad.
pub const USB_INTERFACE_GAMEPAD: u8 = 0x05;

/// Descriptor type of the HID descriptor.
pub const HID_DESCRIPTOR_TYPE: u8 = 0x21;

/// Descriptor type of the report descriptor.
pub const REPORT_DESCRIPTOR_TYPE: u8 = 0x22;

/// Standard request code GET_DESCRIPTOR.
pub const GET_DESCRIPTOR: u8 = 6;

/// Class request code GET_REPORT.
pub const GET_REPORT: u8 = 0x01;

/// Largest packet of the report endpoint, in bytes: one report.
pub const MAX_PACKET_SIZE: u16 = 13;

/// Polling interval of the report endpoint, in milliseconds.
pub const POLL_INTERVAL: u8 = 1;

/// The report descriptor. It is what tells the host how a report is laid
/// out.
pub const REPORT_DESCR: [u8; 72] = [
    0x05, 0x01,  // USAGE_PAGE (Generic Desktop)
    0x09, 0x04,  // USAGE (Joystick)
    0xA1, 0x01,  // COLLECTION (Application)
    // Axes
    0x09, 0x01,  //     USAGE (Pointer)
    0xA1, 0x00,  //     COLLECTION (Physical)
    0x05, 0x01,  //       USAGE_PAGE (Generic Desktop)
    0x09, 0x30,  //       USAGE (X)
    0x09, 0x31,  //       USAGE (Y)
    0x09, 0x32,  //       USAGE (Z)
    0x09, 0x33,  //       USAGE (Rx)
    0x16, 0x0C, 0xFE,  // LOGICAL_MINIMUM (-500)
    0x26, 0xF4, 0x01,  // LOGICAL_MAXIMUM (+500)
    0x75, 0x10,  //       REPORT_SIZE (16)
    0x95, 0x04,  //       REPORT_COUNT (4)
    0x81, 0x02,  //       INPUT (Data,Var,Abs)
    0xC0,  //     END_COLLECTION
    // Dials
    0x09, 0x36,  //     USAGE (Slider)
    0x09, 0x37,  //     USAGE (Dial)
    0x16, 0x0C, 0xFE,  // LOGICAL_MINIMUM (-500)
    0x26, 0xF4, 0x01,  // LOGICAL_MAXIMUM (+500)
    0x75, 0x10,  //     REPORT_SIZE (16)
    0x95, 0x02,  //     REPORT_COUNT (2)
    0x81, 0x02,  //     INPUT (Data,Var,Abs)
    // Buttons
    0x05, 0x09,  //    USAGE_PAGE (Button)
    0x19, 0x01,  //    USAGE_MINIMUM (Button 1)
    0x29, 0x06,  //    USAGE_MAXIMUM (Button 6)
    0x15, 0x00,  //    LOGICAL_MINIMUM (0)
    0x25, 0x01,  //    LOGICAL_MAXIMUM (1)
    0x75, 0x01,  //    REPORT_SIZE (1)
    0x95, 0x06,  //    REPORT_COUNT (6)
    0x81, 0x02,  //    INPUT (Data,Var,Abs)
    // Padding
    0x95, 0x01,  //    REPORT_COUNT (1)
    0x75, 0x02,  //    REPORT_SIZE (2)
    0x81, 0x03,  //    INPUT (Cnst,Var,Abs)
    0xC0,  // END_COLLECTION
];

/// The HID descriptor: its own length and type, HID version 1.01, no
/// country code, and one subordinate descriptor, a report descriptor, with
/// its length, low byte first.
pub const HID_DESCR: [u8; 9] = [
    0x09,  // bLength
    0x21,  // bDescriptorType (HID)
    0x01, 0x01,  // bcdHID
    0x00,  // bCountryCode
    0x01,  // bNumDescriptors
    0x22,  // bDescriptorType (Report)
    72, 0,  // wDescriptorLength
];

/// The report that answers GET_REPORT: all zero.
pub const EMPTY_REPORT: [u8; 13] = [0, 0, 0, 0, 0, 0, 0, 0, 0, 0, 0, 0, 0];

/// Type of a control request.
#[derive(Copy, Clone, Debug, PartialEq, Eq, Structural)]
pub enum RequestType {
    /// A standard request of USB.
    Standard,
    /// A request to a class.
    Class,
    /// A request of the vendor.
    Vendor,
    /// Reserved.
    Reserved,
}

/// Whom a control request is for.
#[derive(Copy, Clone, Debug, PartialEq, Eq, Structural)]
pub enum Recipient {
    /// The whole device.
    Device,
    /// An interface; the request's index names it.
    Interface,
    /// An endpoint; the request's index names it.
    Endpoint,
    /// None of these.
    Other,
    /// Reserved.
    Reserved,
}

/// What this function reads of a control request.
#[derive(Copy, Clone, Debug, PartialEq, Eq)]
pub struct ControlRequest {
    /// Type of the request.
    pub request_type: RequestType,
    /// Whom the request is for.
    pub recipient: Recipient,
    /// Request code.
    pub request: u8,
    /// Request value.
    pub value: u16,
    /// Request index.
    pub index: u16,
}

/// Answer to a control request from the host to the device.
#[derive(Copy, Clone, Debug, PartialEq, Eq, Structural)]
pub enum ControlOutResponse {
    /// Not for this function: left unanswered for others.
    Ignore,
    /// Rejected: the host sees a stall.
    Reject,
}

/// Answer to a control request from the device to the host.
#[derive(Copy, Clone, Debug, PartialEq, Eq)]
pub enum ControlInResponse {
    /// Not for this function: left unanswered for others.
    Ignore,
    /// Rejected: the host sees a stall.
    Reject,
    /// Accepted, with the bytes to send.
    Accept(&'static [u8]),
}

/// A `ControlInResponse` as a plain value.
pub enum ControlInReply {
    /// Not for this function.
    Ignore,
    /// Rejected.
    Reject,
    /// Accepted, with the bytes to send.
    Accept(Seq<u8>),
}

impl View for ControlInResponse {
    type V = ControlInReply;

    open spec fn view(&self) -> ControlInReply {
        match self {
            ControlInResponse::Ignore => ControlInReply::Ignore,
            ControlInResponse::Reject => ControlInReply::Reject,
            ControlInResponse::Accept(data) => ControlInReply::Accept(data@),
        }
    }
}

/// One entry of the configuration descriptor that this function
/// contributes.
#[derive(Copy, Clone, Debug, PartialEq, Eq)]
pub enum DescriptorWrite {
    /// The interface descriptor.
    Interface { number: u8, class: u8, sub_class: u8, protocol: u8 },
    /// A class descriptor: its type and its body, the bytes after length
    /// and type.
    Class { descriptor_type: u8, body: [u8; 7] },
    /// The descriptor of the report endpoint.
    Endpoint,
}

/// Body of the HID descriptor: HID version 1.01, no country code, one
/// subordinate descriptor, which is a report descriptor of `length` bytes.
pub open spec fn hid_descriptor_body(length: int) -> Seq<u8> {
    seq![
        0x01u8,
        0x01u8,
        0x00u8,
        0x01u8,
        REPORT_DESCRIPTOR_TYPE,
        (length % 256) as u8,
        (length / 256) as u8,
    ]
}

/// The HID descriptor: its own length, its type, and its body for the
/// report descriptor of this device.
pub open spec fn hid_descriptor_bytes() -> Seq<u8> {
    seq![9u8, HID_DESCRIPTOR_TYPE] + hid_descriptor_body(REPORT_DESCR@.len() as int)
}

/// Type of the descriptor that a GET_DESCRIPTOR request with `value` asks
/// for: the high byte.
pub open spec fn descriptor_type_of(value: u16) -> u8 {
    (value / 256) as u8
}

/// Index of the descriptor that a GET_DESCRIPTOR request with `value` asks
/// for: the low byte.
pub open spec fn descriptor_index_of(value: u16) -> u8 {
    (value % 256) as u8
}

/// Whether `req` is a class request to the interface `interface`.
pub open spec fn addressed_to(req: ControlRequest, interface: u8) -> bool {
    &&& req.request_type == RequestType::Class
    &&& req.recipient == Recipient::Interface
    &&& req.index == interface
}

/// The answer to a control request from the host to the device: a class
/// request to this interface is rejected, anything else is not for this
/// function.
pub open spec fn control_out_reply(req: ControlRequest, interface: u8) -> ControlOutResponse {
    if addressed_to(req, interface) {
        ControlOutResponse::Reject
    } else {
        ControlOutResponse::Ignore
    }
}

/// The answer to a control request from the device to the host.
///
/// A standard GET_DESCRIPTOR to an interface is answered with the HID
/// descriptor or the report descriptor, by the type asked for; no other
/// standard request is for this function. Of the class requests to this
/// interface GET_REPORT is answered with a report of zeros and every other
/// is rejected. Anything else is not for this function.
pub open spec fn control_in_reply(req: ControlRequest, interface: u8) -> ControlInReply {
    if req.request_type == RequestType::Standard {
        if req.recipient == Recipient::Interface && req.request == GET_DESCRIPTOR
            && descriptor_type_of(req.value) == HID_DESCRIPTOR_TYPE {
            ControlInReply::Accept(hid_descriptor_bytes())
        } else if req.recipient == Recipient::Interface && req.request == GET_DESCRIPTOR
            && descriptor_type_of(req.value) == REPORT_DESCRIPTOR_TYPE {
            ControlInReply::Accept(REPORT_DESCR@)
        } else {
            ControlInReply::Ignore
        }
    } else if addressed_to(req, interface) {
        if req.request == GET_REPORT {
            ControlInReply::Accept(zero_report())
        } else {
            ControlInReply::Reject
        }
    } else {
        ControlInReply::Ignore
    }
}

impl ControlRequest {
    /// Type and index of the descriptor that a GET_DESCRIPTOR request asks
    /// for: the high and the low byte of its value.
    pub fn descriptor_type_index(&self) -> (type_index: (u8, u8))
        ensures
            type_index.0 == descriptor_type_of(self.value),
            type_index.1 == descriptor_index_of(self.value),
    {
        let value: u16 = self.value;
        assert(value >> 8 == value / 256) by (bit_vector);
        assert(value & 0xff == value % 256) by (bit_vector);
        ((value >> 8) as u8, (value & 0xff) as u8)
    }
}

/// The low and the high byte of the report descriptor's length.
fn report_descriptor_length() -> (length: (u8, u8))
    ensures
        length.0 == (REPORT_DESCR@.len() % 256) as u8,
        length.1 == (REPORT_DESCR@.len() / 256) as u8,
{
    let descr_len: usize = REPORT_DESCR.len();
    ((descr_len % 256) as u8, (descr_len / 256) as u8)
}

/// The HID function: one interface with one interrupt endpoint for the
/// reports.
#[derive(Copy, Clone, Debug, PartialEq, Eq)]
pub struct HIDClass {
    report_if: u8,
}

impl HIDClass {
    /// Number of the interface of this function.
    pub closed spec fn interface(&self) -> u8 {
        self.report_if
    }

    /// The function on the interface with the number `report_if`, which
    /// stays its number from then on.
    pub fn new(report_if: u8) -> (class: HIDClass)
        ensures
            class.interface() == report_if,
    {
        HIDClass { report_if }
    }

    /// What this function contributes to the configuration descriptor, in
    /// the order in which it is written: the interface, the HID descriptor
    /// and the report endpoint.
    pub fn get_configuration_descriptors(&self) -> (writes: [DescriptorWrite; 3])
        ensures
            writes[0] == (DescriptorWrite::Interface {
                number: self.interface(),
                class: USB_CLASS_HID,
                sub_class: USB_SUBCLASS_NONE,
                protocol: USB_INTERFACE_GAMEPAD,
            }),
            writes[1] matches DescriptorWrite::Class { descriptor_type, body }
                && descriptor_type == HID_DESCRIPTOR_TYPE && body@ == hid_descriptor_body(
                REPORT_DESCR@.len() as int,
            ),
            writes[2] == DescriptorWrite::Endpoint,
    {
        let length = report_descriptor_length();
        let body: [u8; 7] = [
            0x01,  // bcdHID
            0x01,  // bcdHID
            0x00,  // bCountryCode
            0x01,  // bNumDescriptors
            REPORT_DESCRIPTOR_TYPE,  // bDescriptorType
            length.0,  // wDescriptorLength
            length.1,  // wDescriptorLength
        ];
        assert(body@ =~= hid_descriptor_body(REPORT_DESCR@.len() as int));
        [
            DescriptorWrite::Interface {
                number: self.report_if,
                class: USB_CLASS_HID,
                sub_class: USB_SUBCLASS_NONE,
                protocol: USB_INTERFACE_GAMEPAD,
            },
            DescriptorWrite::Class { descriptor_type: HID_DESCRIPTOR_TYPE, body },
            DescriptorWrite::Endpoint,
        ]
    }

    /// Answers a control request from the host to the device. This function
    /// takes none: one meant for it is rejected. No request changes the
    /// function.
    pub fn control_out(&mut self, req: &ControlRequest) -> (response: ControlOutResponse)
        ensures
            response == control_out_reply(*req, old(self).interface()),
            *final(self) == *old(self),
    {
        // If the request is meant for this function
        if !(req.request_type == RequestType::Class && req.recipient == Recipient::Interface
            && req.index == self.report_if as u16) {
            // Ignore it, we don't take any requests
            return ControlOutResponse::Ignore;
        }
        ControlOutResponse::Reject
    }

    /// Answers a control request from the device to the host. No request
    /// changes the function.
    pub fn control_in(&mut self, req: &ControlRequest) -> (response: ControlInResponse)
        ensures
            response@ == control_in_reply(*req, old(self).interface()),
            *final(self) == *old(self),
    {
        if req.request_type == RequestType::Standard {
            if req.recipient == Recipient::Interface && req.request == GET_DESCRIPTOR {
                let (dtype, _index) = req.descriptor_type_index();
                if dtype == HID_DESCRIPTOR_TYPE {
                    // HID descriptor
                    proof {
                        lemma_hid_descriptor_gives_report_length();
                    }
                    return ControlInResponse::Accept(&HID_DESCR);
                } else if dtype == REPORT_DESCRIPTOR_TYPE {
                    // Report descriptor
                    return ControlInResponse::Accept(&REPORT_DESCR);
                }
            } else {
                return ControlInResponse::Ignore;
            }
        }
        // If the request is meant for this function

        if !(req.request_type == RequestType::Class && req.recipient == Recipient::Interface
            && req.index == self.report_if as u16) {
            // Ignore it, it is for someone else
            return ControlInResponse::Ignore;
        }
        if req.request == GET_REPORT {
            // The host asks for a report: send an empty one
            assert(EMPTY_REPORT@ =~= zero_report());
            ControlInResponse::Accept(&EMPTY_REPORT)
        } else {
            ControlInResponse::Reject
        }
    }
}

/// Number of data bytes of the item of a report descriptor that starts with
/// the byte `prefix`: its low two bits, where three stands for four bytes.
pub open spec fn item_data_length(prefix: u8) -> int {
    if prefix % 4 == 3 {
        4
    } else {
        prefix as int % 4
    }
}

/// The fields of the input report that the report descriptor `descr`
/// declares from the item at `at` on, where REPORT_SIZE is `size` and
/// REPORT_COUNT is `count` so far. Each INPUT item declares a run of fields:
/// how many bits each has, as REPORT_SIZE says, and how many there are, as
/// REPORT_COUNT says. The two are read from the first data byte of their
/// items.
pub open spec fn declared_fields(descr: Seq<u8>, at: int, size: int, count: int) -> Seq<(int, int)>
    decreases descr.len() - at,
{
    if at < 0 || at >= descr.len() {
        seq![]
    } else {
        let prefix = descr[at];
        let next = at + 1 + item_data_length(prefix);
        let item = prefix as int / 4;
        if next > descr.len() {
            seq![]
        } else if item == 0x75int / 4 && next > at + 1 {
            declared_fields(descr, next, descr[at + 1] as int, count)
        } else if item == 0x95int / 4 && next > at + 1 {
            declared_fields(descr, next, size, descr[at + 1] as int)
        } else if item == 0x81int / 4 {
            seq![(size, count)] + declared_fields(descr, next, size, count)
        } else {
            declared_fields(descr, next, size, count)
        }
    }
}

/// The fields that a report has on the wire, as runs of fields of one
/// width: four axes and two dials of sixteen bits, six buttons of one bit,
/// and two bits that are reserved.
pub open spec fn report_fields() -> Seq<(int, int)> {
    seq![(16int, 4int), (16int, 2int), (1int, 6int), (2int, 1int)]
}

/// `REPORT_DESCR` declares the report as it is on the wire: the fields of
/// `report_fields`, in their order, which make `REPORT_SIZE` bytes.
pub proof fn lemma_report_descriptor_declares_report()
    ensures
        declared_fields(REPORT_DESCR@, 0, 0, 0) == report_fields(),
        16 * 4 + 16 * 2 + 1 * 6 + 2 * 1 == 8 * REPORT_SIZE,
{
    // from the padding back to the start, one group of items at a time
    let descr = REPORT_DESCR@;
    assert(declared_fields(descr, 65, 1, 6) =~= seq![(2int, 1int)]) by {
        reveal_with_fuel(declared_fields, 6);
    }
    assert(declared_fields(descr, 49, 16, 2) =~= seq![(1int, 6int), (2int, 1int)]) by {
        reveal_with_fuel(declared_fields, 9);
    }
    assert(declared_fields(descr, 33, 16, 4) =~= seq![(16int, 2int), (1int, 6int), (2int, 1int)])
        by {
        reveal_with_fuel(declared_fields, 8);
    }
    assert(declared_fields(descr, 20, 0, 0) =~= report_fields()) by {
        reveal_with_fuel(declared_fields, 7);
    }
    assert(declared_fields(descr, 0, 0, 0) =~= report_fields()) by {
        reveal_with_fuel(declared_fields, 11);
    }
}

/// `HID_DESCR` is the HID descriptor of this device: it is nine bytes long
/// and says so, its body is the one that the configuration descriptor
/// holds, and the length that it gives for the report descriptor, low byte
/// first, is the length of `REPORT_DESCR`.
pub proof fn lemma_hid_descriptor_gives_report_length()
    ensures
        HID_DESCR@ == hid_descriptor_bytes(),
        HID_DESCR@.len() == 9,
        HID_DESCR@[0] == HID_DESCR@.len(),
        HID_DESCR@[1] == HID_DESCRIPTOR_TYPE,
        HID_DESCR@.skip(2) == hid_descriptor_body(REPORT_DESCR@.len() as int),
        HID_DESCR@[7] + 256 * HID_DESCR@[8] == REPORT_DESCR@.len(),
{
    assert(HID_DESCR@ =~= hid_descriptor_bytes());
    assert(HID_DESCR@.skip(2) =~= hid_descriptor_body(REPORT_DESCR@.len() as int));
}

/// A standard GET_DESCRIPTOR to an interface gets the HID descriptor for
/// the type `HID_DESCRIPTOR_TYPE` and the bytes of `REPORT_DESCR`, as they
/// are, for the type `REPORT_DESCRIPTOR_TYPE`, whatever its index and the
/// low byte of its value.
pub proof fn lemma_get_descriptor(req: ControlRequest, interface: u8)
    requires
        req.request_type == RequestType::Standard,
        req.recipient == Recipient::Interface,
        req.request == GET_DESCRIPTOR,
    ensures
        descriptor_type_of(req.value) == HID_DESCRIPTOR_TYPE ==> control_in_reply(req, interface)
            == ControlInReply::Accept(hid_descriptor_bytes()),
        descriptor_type_of(req.value) == REPORT_DESCRIPTOR_TYPE ==> control_in_reply(
            req,
            interface,
        ) == ControlInReply::Accept(REPORT_DESCR@),
{
}

/// A class request to this interface is answered: GET_REPORT with a report
/// of `REPORT_SIZE` zero bytes, which is the neutral report on the wire,
/// every other with a rejection, in both directions.
pub proof fn lemma_class_request_to_this_interface(req: ControlRequest, interface: u8)
    requires
        addressed_to(req, interface),
    ensures
        req.request == GET_REPORT ==> control_in_reply(req, interface) == ControlInReply::Accept(
            zero_report(),
        ),
        req.request != GET_REPORT ==> control_in_reply(req, interface) == ControlInReply::Reject,
        control_out_reply(req, interface) == ControlOutResponse::Reject,
        EMPTY_REPORT@ == zero_report(),
        zero_report().len() == REPORT_SIZE,
        forall|i: int| 0 <= i < REPORT_SIZE ==> zero_report()[i] == 0,
        zero_report() == JoystickState::neutral().wire(),
{
    lemma_neutral_wire_is_zero();
    assert(EMPTY_REPORT@ =~= zero_report());
}

/// A class request that is not to this interface, be it to another
/// interface or to no interface at all, is left unanswered in both
/// directions.
pub proof fn lemma_class_request_to_another(req: ControlRequest, interface: u8)
    requires
        req.request_type == RequestType::Class,
        req.recipient != Recipient::Interface || req.index != interface,
    ensures
        control_in_reply(req, interface) == ControlInReply::Ignore,
        control_out_reply(req, interface) == ControlOutResponse::Ignore,
{
}

/// One report fills one packet of the report endpoint.
pub proof fn lemma_report_fills_packet()
    ensures
        MAX_PACKET_SIZE == REPORT_SIZE,
{
}

} // verus!

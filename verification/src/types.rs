//! The joystick report and its layout on the wire.

use vstd::prelude::*;

verus! {

/// Number of bytes of a report on the wire.
pub const REPORT_SIZE: usize = 13;

/// One report of the joystick: four stick axes, two dials and the buttons,
/// in the order of the wire.
#[derive(Copy, Clone, Debug, PartialEq, Eq)]
pub struct JoystickState {
    /// Left stick, horizontal.
    pub left_x: i16,
    /// Left stick, vertical.
    pub left_y: i16,
    /// Right stick, horizontal.
    pub right_x: i16,
    /// Right stick, vertical.
    pub right_y: i16,
    /// First dial.
    pub dial_1: i16,
    /// Second dial.
    pub dial_2: i16,
    /// Buttons 1 to 6 in bits 0 to 5; bits 6 and 7 are reserved.
    pub buttons: u8,
}

/// The two bytes of a signed 16-bit value in two's complement, low byte
/// first.
pub open spec fn le_bytes(x: i16) -> Seq<u8> {
    let unsigned: int = if x >= 0 {
        x as int
    } else {
        x + 0x1_0000
    };
    seq![(unsigned % 256) as u8, (unsigned / 256) as u8]
}

/// A report of `REPORT_SIZE` zero bytes.
pub open spec fn zero_report() -> Seq<u8> {
    Seq::new(REPORT_SIZE as nat, |i: int| 0u8)
}

fn i16_le(x: i16) -> (bytes: (u8, u8))
    ensures
        seq![bytes.0, bytes.1] == le_bytes(x),
{
    let unsigned: u16 = x as u16;
    let low: u8 = (unsigned & 0xff) as u8;
    let high: u8 = (unsigned >> 8) as u8;
    assert(unsigned & 0xff == unsigned % 256) by (bit_vector);
    assert(unsigned >> 8 == unsigned / 256) by (bit_vector);
    assert(unsigned as int == if x >= 0 {
        x as int
    } else {
        x as int + 0x1_0000
    }) by (bit_vector)
        requires
            unsigned == x as u16,
    ;
    assert(seq![low, high] =~= le_bytes(x));
    (low, high)
}

impl JoystickState {
    /// The report with every axis and dial at zero and no button pressed.
    pub open spec fn neutral() -> JoystickState {
        JoystickState {
            left_x: 0,
            left_y: 0,
            right_x: 0,
            right_y: 0,
            dial_1: 0,
            dial_2: 0,
            buttons: 0,
        }
    }

    /// The report on the wire: the six 16-bit fields in their order, each
    /// low byte first, then the button byte.
    pub open spec fn wire(self) -> Seq<u8> {
        le_bytes(self.left_x) + le_bytes(self.left_y) + le_bytes(self.right_x) + le_bytes(
            self.right_y,
        ) + le_bytes(self.dial_1) + le_bytes(self.dial_2) + seq![self.buttons]
    }

    /// The neutral report: every axis and dial at zero, no button pressed.
    pub fn from_ppm_time() -> (report: Self)
        ensures
            report == Self::neutral(),
    {
        let buttons: u8 = 0;

        JoystickState {
            left_x: 0,
            left_y: 0,
            right_x: 0,
            right_y: 0,
            dial_1: 0,
            dial_2: 0,
            buttons,
        }
    }

    /// The bytes of this report as they go over the wire.
    pub fn as_u8_slice(&self) -> (bytes: [u8; 13])
        ensures
            bytes@ == self.wire(),
    {
        let left_x = i16_le(self.left_x);
        let left_y = i16_le(self.left_y);
        let right_x = i16_le(self.right_x);
        let right_y = i16_le(self.right_y);
        let dial_1 = i16_le(self.dial_1);
        let dial_2 = i16_le(self.dial_2);
        let bytes: [u8; 13] = [
            left_x.0,
            left_x.1,
            left_y.0,
            left_y.1,
            right_x.0,
            right_x.1,
            right_y.0,
            right_y.1,
            dial_1.0,
            dial_1.1,
            dial_2.0,
            dial_2.1,
            self.buttons,
        ];
        proof {
            assert(seq![left_x.0, left_x.1] == le_bytes(self.left_x));
            assert(seq![left_y.0, left_y.1] == le_bytes(self.left_y));
            assert(seq![right_x.0, right_x.1] == le_bytes(self.right_x));
            assert(seq![right_y.0, right_y.1] == le_bytes(self.right_y));
            assert(seq![dial_1.0, dial_1.1] == le_bytes(self.dial_1));
            assert(seq![dial_2.0, dial_2.1] == le_bytes(self.dial_2));
            assert(bytes@ =~= seq![left_x.0, left_x.1] + seq![left_y.0, left_y.1] + seq![
                right_x.0,
                right_x.1,
            ] + seq![right_y.0, right_y.1] + seq![dial_1.0, dial_1.1] + seq![dial_2.0, dial_2.1]
                + seq![self.buttons]);
        }
        bytes
    }
}

/// Every report takes `REPORT_SIZE` bytes on the wire.
pub proof fn lemma_wire_length(report: JoystickState)
    ensures
        report.wire().len() == REPORT_SIZE,
{
}

/// The neutral report is all zero on the wire.
pub proof fn lemma_neutral_wire_is_zero()
    ensures
        JoystickState::neutral().wire() == zero_report(),
{
    assert(le_bytes(0i16) =~= seq![0u8, 0u8]);
    assert(JoystickState::neutral().wire() =~= zero_report());
}

/// Two reports with the same bytes on the wire are the same report.
pub proof fn lemma_wire_is_injective(a: JoystickState, b: JoystickState)
    requires
        a.wire() == b.wire(),
    ensures
        a == b,
{
    let (wa, wb) = (a.wire(), b.wire());
    assert(le_bytes(a.left_x) =~= seq![wa[0], wa[1]]);
    assert(le_bytes(b.left_x) =~= seq![wb[0], wb[1]]);
    assert(le_bytes(a.left_y) =~= seq![wa[2], wa[3]]);
    assert(le_bytes(b.left_y) =~= seq![wb[2], wb[3]]);
    assert(le_bytes(a.right_x) =~= seq![wa[4], wa[5]]);
    assert(le_bytes(b.right_x) =~= seq![wb[4], wb[5]]);
    assert(le_bytes(a.right_y) =~= seq![wa[6], wa[7]]);
    assert(le_bytes(b.right_y) =~= seq![wb[6], wb[7]]);
    assert(le_bytes(a.dial_1) =~= seq![wa[8], wa[9]]);
    assert(le_bytes(b.dial_1) =~= seq![wb[8], wb[9]]);
    assert(le_bytes(a.dial_2) =~= seq![wa[10], wa[11]]);
    assert(le_bytes(b.dial_2) =~= seq![wb[10], wb[11]]);
    assert(a.buttons == wa[12]);
    assert(b.buttons == wb[12]);
    lemma_le_bytes_is_injective(a.left_x, b.left_x);
    lemma_le_bytes_is_injective(a.left_y, b.left_y);
    lemma_le_bytes_is_injective(a.right_x, b.right_x);
    lemma_le_bytes_is_injective(a.right_y, b.right_y);
    lemma_le_bytes_is_injective(a.dial_1, b.dial_1);
    lemma_le_bytes_is_injective(a.dial_2, b.dial_2);
}

proof fn lemma_le_bytes_is_injective(x: i16, y: i16)
    requires
        le_bytes(x) == le_bytes(y),
    ensures
        x == y,
{
    let (bx, by) = (le_bytes(x), le_bytes(y));
    assert(bx[0] == by[0] && bx[1] == by[1]);
}

} // verus!

//! Stick and switch inputs of the transmitter.

use vstd::prelude::*;

verus! {

/// The inputs of a FlySky FS-i6 transmitter: six analog channels and the
/// switches A to D.
#[allow(dead_code)]
pub struct FlySkyFsi6 {
    analog_channels: [u16; 6],
    sa: TwoWay,
    sb: TwoWay,
    sc: ThreeWay,
    sd: TwoWay,
}

/// Position of a two-way switch.
#[derive(Debug, Clone, Copy, PartialEq, Eq)]
pub enum TwoWay {
    Low,
    High,
}

/// Position of a three-way switch.
#[derive(Debug, Clone, Copy, PartialEq, Eq)]
pub enum ThreeWay {
    Low,
    Mid,
    High,
}

/// What the two pins of a three-way switch stand for: the first alone is
/// `Low`, the second alone is `High`, neither is `Mid`, and both together
/// are no position of the switch but an error.
pub open spec fn three_way_of(first: bool, second: bool) -> Result<ThreeWay, &'static str> {
    if first && second {
        Err("Both bools are true, invalid state")
    } else if first {
        Ok(ThreeWay::Low)
    } else if second {
        Ok(ThreeWay::High)
    } else {
        Ok(ThreeWay::Mid)
    }
}

impl vstd::std_specs::convert::TryFromSpecImpl<&[bool; 2]> for ThreeWay {
    open spec fn obeys_try_from_spec() -> bool {
        true
    }

    open spec fn try_from_spec(value: &[bool; 2]) -> Result<Self, &'static str> {
        three_way_of(value[0], value[1])
    }
}

impl TryFrom<&[bool; 2]> for ThreeWay {
    type Error = &'static str;

    /// Decodes the two pins of a three-way switch. Both pins active is no
    /// position of the switch and is reported as an error, never resolved
    /// to a position.
    fn try_from(value: &[bool; 2]) -> (decoded: Result<Self, Self::Error>)
        ensures
            decoded == three_way_of(value[0], value[1]),
            decoded is Err <==> value[0] && value[1],
    {
        if value[0] && value[1] {
            Err("Both bools are true, invalid state")
        } else if value[0] {
            Ok(ThreeWay::Low)
        } else if value[1] {
            Ok(ThreeWay::High)
        } else {
            Ok(ThreeWay::Mid)
        }
    }
}

/// Upper end of the range that a calibrated input is scaled to. The range
/// starts at zero.
pub const RESOLUTION: u16 = 1000;

/// Calibration of one analog input.
///
/// An input starts without calibration. From the first sample on it learns
/// the range of the samples it is shown, and scales around the middle of
/// that range, until its centre is set: from then on the range is fixed and
/// the centre is the one set.
#[derive(Debug, Clone, Copy, PartialEq, Eq)]
pub enum LinearInput {
    /// No sample was seen yet.
    NoCalibration,
    /// The range of the samples seen so far.
    OngoingCalibration { start: u16, end: u16 },
    /// A fixed range and the centre that was set.
    Calibrated { start: u16, mid: u16, end: u16 },
}

/// `input` limited to the range from `min` to `max`.
pub open spec fn clamped(input: int, min: int, max: int) -> int {
    if input < min {
        min
    } else if input > max {
        max
    } else {
        input
    }
}

/// The sample `v` scaled from the range `start` to `end` with the centre
/// `mid` to the range 0 to `RESOLUTION`.
///
/// The sample is limited to the range. On the centre it gives half of
/// `RESOLUTION`. Below the centre it is scaled from `start..mid` to the
/// lower half, above it from `mid..end` to the upper half, in whole
/// numbers; one thousandth of the span is added before the division, which
/// makes up for what the division cuts off.
pub open spec fn scaled(start: int, mid: int, end: int, v: int) -> int {
    let half = RESOLUTION as int / 2;
    let limited = clamped(v, start, end);
    if limited < mid {
        let span = mid - start;
        (limited - start + span / (RESOLUTION as int)) * half / span
    } else if limited > mid {
        let span = end - mid;
        (limited - mid + span / (RESOLUTION as int)) * half / span + half
    } else {
        half
    }
}

/// Calls `num::clamp` on three `u16` values. The result is `input` where it
/// lies between `min` and `max`, else the nearer of the two. `num::clamp`
/// may panic where `min` is above `max`, so that is left out.
#[verifier::external_body]
fn clamp(input: u16, min: u16, max: u16) -> (limited: u16)
    requires
        min <= max,
    ensures
        limited == clamped(input as int, min as int, max as int),
{
    num::clamp(input, min, max)
}

impl Default for LinearInput {
    fn default() -> (input: Self)
        ensures
            input == LinearInput::NoCalibration,
    {
        Self::NoCalibration
    }
}

impl LinearInput {
    /// The range of a calibration does not end before it starts. Every
    /// calibration that starts at `NoCalibration` and goes on by the methods
    /// of this type is of this kind.
    pub open spec fn wf(self) -> bool {
        match self {
            LinearInput::NoCalibration => true,
            LinearInput::OngoingCalibration { start, end } => start <= end,
            LinearInput::Calibrated { start, mid: _, end } => start <= end,
        }
    }

    /// The sample `v` lies in the range of this calibration, if it has one.
    pub open spec fn covers(self, v: u16) -> bool {
        match self {
            LinearInput::NoCalibration => true,
            LinearInput::OngoingCalibration { start, end } => start <= v <= end,
            LinearInput::Calibrated { start, mid: _, end } => start <= v <= end,
        }
    }

    /// The centre of a fixed calibration lies in its range.
    pub open spec fn centred(self) -> bool {
        self matches LinearInput::Calibrated { start, mid, end } ==> start <= mid <= end
    }

    /// The calibration after the centre was set to `v`.
    pub open spec fn with_center(self, v: u16) -> LinearInput {
        match self {
            LinearInput::NoCalibration => LinearInput::NoCalibration,
            LinearInput::OngoingCalibration { start, end } => LinearInput::Calibrated {
                start,
                mid: v,
                end,
            },
            LinearInput::Calibrated { start, mid: _, end } => LinearInput::Calibrated {
                start,
                mid: v,
                end,
            },
        }
    }

    /// The calibration after the sample `v` was seen: the first sample
    /// starts a range, a later one widens the range where it lies outside,
    /// and a fixed calibration stays as it is.
    pub open spec fn observed(self, v: u16) -> LinearInput {
        match self {
            LinearInput::NoCalibration => LinearInput::OngoingCalibration { start: v, end: v },
            LinearInput::OngoingCalibration { start, end } => if v < start {
                LinearInput::OngoingCalibration { start: v, end }
            } else if v > end {
                LinearInput::OngoingCalibration { start, end: v }
            } else {
                self
            },
            LinearInput::Calibrated { .. } => self,
        }
    }

    /// What this calibration makes of the sample `v`: without a calibration
    /// the middle of the output range; with a range that is still learned,
    /// `v` scaled around the middle of that range; with a fixed one, `v`
    /// scaled around the centre that was set.
    pub open spec fn output(self, v: u16) -> int {
        match self {
            LinearInput::NoCalibration => RESOLUTION as int / 2,
            LinearInput::OngoingCalibration { start, end } => scaled(
                start as int,
                (start + end) / 2,
                end as int,
                v as int,
            ),
            LinearInput::Calibrated { start, mid, end } => scaled(
                start as int,
                mid as int,
                end as int,
                v as int,
            ),
        }
    }

    /// Whether this calibration is as `wf` says.
    pub fn is_wf(&self) -> (ok: bool)
        ensures
            ok == self.wf(),
    {
        match *self {
            Self::NoCalibration => true,
            Self::OngoingCalibration { start, end } => start <= end,
            Self::Calibrated { start, mid: _, end } => start <= end,
        }
    }

    /// Forgets the calibration.
    pub fn reset_calibration(&mut self)
        ensures
            *final(self) == LinearInput::NoCalibration,
    {
        *self = Self::NoCalibration;
    }

    /// Commits the calibration with `v` as its centre: a range that was
    /// learned becomes fixed, a fixed one gets the new centre. Without a
    /// sample seen there is no range to fix, and nothing changes.
    pub fn set_center(&mut self, v: u16)
        ensures
            *final(self) == old(self).with_center(v),
            *old(self) is NoCalibration ==> *final(self) == *old(self),
            old(self).wf() ==> final(self).wf(),
            old(self).covers(v) ==> final(self).centred(),
    {
        match *self {
            Self::OngoingCalibration { start, end } => {
                *self = Self::Calibrated { start, end, mid: v }
            },
            Self::Calibrated { start, mid: _, end } => {
                *self = Self::Calibrated { start, end, mid: v }
            },
            _ => {},
        }
    }

    /// Takes the sample `v` through the calibration and returns it scaled
    /// to the range 0 to `RESOLUTION`.
    ///
    /// The sample is seen first: without a calibration it starts the range,
    /// and while the range is learned it widens it. Then it is scaled, as
    /// `output` says for the calibration that results.
    pub fn get(&mut self, v: u16) -> (out: u16)
        requires
            old(self).wf(),
        ensures
            *final(self) == old(self).observed(v),
            final(self).wf(),
            out == final(self).output(v),
            out <= RESOLUTION,
            *old(self) is NoCalibration ==> out == RESOLUTION / 2,
    {
        // take the sample into the range if the range is still learned
        match *self {
            Self::NoCalibration => {
                *self = Self::OngoingCalibration { start: v, end: v };
            },
            Self::OngoingCalibration { start, end } => {
                if v < start {
                    *self = Self::OngoingCalibration { start: v, end };
                } else if v > end {
                    *self = Self::OngoingCalibration { start, end: v };
                }
            },
            _ => {},
        }

        let half_resolution: u16 = RESOLUTION / 2;

        // determine start, mid and end
        let (start, mid, end) = match *self {
            Self::NoCalibration => {
                return half_resolution;
            },
            Self::OngoingCalibration { start, end } => {
                let sum: u32 = start as u32 + end as u32;
                (start, (sum / 2) as u16, end)
            },
            Self::Calibrated { start, mid, end } => (start, mid, end),
        };

        // limit v to the allowed range
        let v: u16 = clamp(v, start, end);

        // check in which half of the resolution we are
        let (start, end, offset) = if v < mid {
            (start, mid, 0)
        } else if v > mid {
            (mid, end, half_resolution)
        } else {
            return half_resolution;
        };

        let span: u16 = end - start;

        // make up for what the division cuts off
        let raised: u32 = (v - start) as u32 + (span / RESOLUTION) as u32;

        proof {
            lemma_half_in_range((v - start) as int, span as int);
        }
        (raised * half_resolution as u32 / span as u32) as u16 + offset
    }
}

/// A sample within a span of the range is scaled to a value within half
/// of the output range.
proof fn lemma_half_in_range(x: int, span: int)
    requires
        0 < span,
        0 <= x <= span,
    ensures
        0 <= (x + span / (RESOLUTION as int)) * (RESOLUTION as int / 2) / span <= RESOLUTION as int
            / 2,
{
    let n = (x + span / 1000) * 500;
    assert(0 <= n < 501 * span);
    assert(0 <= n / span <= 500) by (nonlinear_arith)
        requires
            0 < span,
            0 <= n < 501 * span,
    ;
}

/// A quotient does not fall when its dividend grows.
proof fn lemma_quotient_is_monotonic(a: int, b: int, span: int)
    requires
        0 < span,
        a <= b,
    ensures
        a / span <= b / span,
{
    vstd::arithmetic::div_mod::lemma_div_is_ordered(a, b, span);
}

/// Scaling keeps the order of the samples: over one range and centre, a
/// sample that is not below another is not scaled below it.
pub proof fn lemma_scaled_is_monotonic(start: int, mid: int, end: int, a: int, b: int)
    requires
        start <= end,
        a <= b,
    ensures
        scaled(start, mid, end, a) <= scaled(start, mid, end, b),
{
    let la = clamped(a, start, end);
    let lb = clamped(b, start, end);
    assert(la <= lb);
    if la < mid {
        let span = mid - start;
        lemma_half_in_range(la - start, span);
        if lb < mid {
            lemma_quotient_is_monotonic(
                (la - start + span / 1000) * 500,
                (lb - start + span / 1000) * 500,
                span,
            );
        } else if lb > mid {
            lemma_half_in_range(lb - mid, end - mid);
        }
    } else if la > mid {
        let span = end - mid;
        lemma_quotient_is_monotonic(
            (la - mid + span / 1000) * 500,
            (lb - mid + span / 1000) * 500,
            span,
        );
    } else {
        if lb > mid {
            lemma_half_in_range(lb - mid, end - mid);
        }
    }
}

/// Every sample is scaled into the output range.
pub proof fn lemma_scaled_in_range(start: int, mid: int, end: int, v: int)
    requires
        start <= end,
    ensures
        0 <= scaled(start, mid, end, v) <= RESOLUTION,
{
    let limited = clamped(v, start, end);
    if limited < mid {
        lemma_half_in_range(limited - start, mid - start);
    } else if limited > mid {
        lemma_half_in_range(limited - mid, end - mid);
    }
}

/// Scaling is proportional: what is added before the division raises the
/// result by one at most over the plain proportion of the sample in its
/// half of the range, and never lowers it.
pub proof fn lemma_scaled_is_proportional(start: int, mid: int, end: int, v: int)
    requires
        start <= end,
    ensures
        ({
            let half = RESOLUTION as int / 2;
            let limited = clamped(v, start, end);
            &&& limited < mid ==> {
                let plain = (limited - start) * half / (mid - start);
                plain <= scaled(start, mid, end, v) <= plain + 1
            }
            &&& limited > mid ==> {
                let plain = (limited - mid) * half / (end - mid) + half;
                plain <= scaled(start, mid, end, v) <= plain + 1
            }
        }),
{
    let limited = clamped(v, start, end);
    if limited < mid {
        lemma_raised_quotient((limited - start) * 500, (mid - start) / 1000 * 500, mid - start);
    } else if limited > mid {
        lemma_raised_quotient((limited - mid) * 500, (end - mid) / 1000 * 500, end - mid);
    }
}

/// A dividend raised by less than the divisor gives the same quotient or
/// the next.
proof fn lemma_raised_quotient(n: int, raise: int, span: int)
    requires
        0 < span,
        0 <= raise < span,
    ensures
        n / span <= (n + raise) / span <= n / span + 1,
{
    lemma_quotient_is_monotonic(n, n + raise, span);
    lemma_quotient_is_monotonic(n + raise, n + span, span);
    assert((n + span) / span == n / span + 1) by (nonlinear_arith)
        requires
            0 < span,
    ;
}

/// The ends of a range are scaled to the ends of the output range, and so
/// is every sample beyond them: the start to zero where the centre lies
/// above it, the end to `RESOLUTION` where the centre lies below it.
pub proof fn lemma_scaled_at_the_ends(start: int, mid: int, end: int, v: int)
    requires
        start <= end,
    ensures
        v <= start < mid ==> scaled(start, mid, end, v) == 0,
        v >= end > mid ==> scaled(start, mid, end, v) == RESOLUTION,
        v == mid && start <= mid <= end ==> scaled(start, mid, end, v) == RESOLUTION / 2,
{
    if v <= start < mid {
        let span = mid - start;
        let n = (span / 1000) * 500;
        assert(n / span == 0) by (nonlinear_arith)
            requires
                0 < span,
                0 <= n < span,
        ;
    }
    if v >= end > mid {
        let span = end - mid;
        let n = (span + span / 1000) * 500;
        assert(n / span == 500) by (nonlinear_arith)
            requires
                0 < span,
                500 * span <= n < 501 * span,
        ;
    }
}

/// A half of the range without a span gives the middle of the output
/// range: where the centre is the start of the range, every sample up to
/// the centre does, and where it is the end, every sample from the centre
/// on.
pub proof fn lemma_scaled_on_an_empty_half(start: int, mid: int, end: int, v: int)
    requires
        start <= end,
    ensures
        start == mid && v <= mid ==> scaled(start, mid, end, v) == RESOLUTION / 2,
        mid == end && v >= mid ==> scaled(start, mid, end, v) == RESOLUTION / 2,
{
}

/// Once the calibration is fixed, `get` leaves it as it is, and its result
/// does not fall when the sample grows.
pub proof fn lemma_calibrated_output_is_monotonic(input: LinearInput, a: u16, b: u16)
    requires
        input is Calibrated,
        input.wf(),
        a <= b,
    ensures
        input.observed(a) == input,
        input.observed(b) == input,
        input.output(a) <= input.output(b),
{
    match input {
        LinearInput::Calibrated { start, mid, end } => {
            lemma_scaled_is_monotonic(start as int, mid as int, end as int, a as int, b as int);
        },
        _ => {},
    }
}

/// While the range is learned it only widens: after a sample was seen the
/// range holds what it held before and the sample, and a sample beyond one
/// of its ends is that end from then on.
pub proof fn lemma_range_only_widens(input: LinearInput, v: u16)
    requires
        input.wf(),
        input is OngoingCalibration,
    ensures
        input.observed(v) is OngoingCalibration,
        input.observed(v).wf(),
        input.observed(v).covers(v),
        forall|w: u16| input.covers(w) ==> input.observed(v).covers(w),
        input matches LinearInput::OngoingCalibration { start, end } ==> {
            &&& v < start ==> input.observed(v) == (LinearInput::OngoingCalibration {
                start: v,
                end,
            })
            &&& v > end ==> input.observed(v) == (LinearInput::OngoingCalibration {
                start,
                end: v,
            })
            &&& start <= v <= end ==> input.observed(v) == input
        },
{
}

} // verus!

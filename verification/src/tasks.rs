//! The steps of the tasks of the device, on the state that they share.
//!
//! The scheduler that runs the tasks, and the peripherals that they drive,
//! are not part of this crate. Each task hands what it has read from the
//! hardware to its step here, which decides and computes, and then does
//! with the hardware what the step says.

use crate::acquisition::{Acquisition, Buffer, ANALOG_PINS, INITIAL_SAMPLE};
use crate::inputs::{lemma_scaled_at_the_ends, LinearInput, RESOLUTION};
use crate::types::{JoystickState, REPORT_SIZE};
use vstd::prelude::*;

verus! {

/// Number of digital input pins that are read in each cycle.
pub const DIGITAL_PINS: usize = 10;

/// The button byte of a report for the digital inputs `pins`: the first six
/// pins are the buttons, button 1 in bit 0 up to button 6 in bit 5, each
/// set where its pin is active. Bits 6 and 7 stay clear.
pub open spec fn button_bits(pins: Seq<bool>) -> int {
    (if pins[0] { 1int } else { 0 })
    + (if pins[1] { 2int } else { 0 })
    + (if pins[2] { 4int } else { 0 })
    + (if pins[3] { 8int } else { 0 })
    + (if pins[4] { 16int } else { 0 })
    + (if pins[5] { 32int } else { 0 })
}

/// The calibration of a channel after a cycle in which `sample` was read:
/// where the calibration is to be committed, `sample` is set as the centre
/// first; then `sample` is seen.
pub open spec fn cycled(input: LinearInput, sample: u16, commit: bool) -> LinearInput {
    if commit {
        input.with_center(sample).observed(sample)
    } else {
        input.observed(sample)
    }
}

/// The report for the scaled values `axes` of the analog channels, in the
/// order of the report's fields, and the digital inputs `pins`.
pub open spec fn report_of(axes: Seq<int>, pins: Seq<bool>) -> JoystickState {
    JoystickState {
        left_x: axes[0] as i16,
        left_y: axes[1] as i16,
        right_x: axes[2] as i16,
        right_y: axes[3] as i16,
        dial_1: axes[4] as i16,
        dial_2: axes[5] as i16,
        buttons: button_bits(pins) as u8,
    }
}

/// The value of a button's bit: `weight` where its pin is active.
fn bit(pin: bool, weight: u8) -> (value: u8)
    ensures
        value == if pin { weight } else { 0 },
{
    if pin {
        weight
    } else {
        0
    }
}

/// The button byte for the digital inputs `pins`.
fn pack_buttons(pins: &[bool; DIGITAL_PINS]) -> (buttons: u8)
    ensures
        buttons == button_bits(pins@),
        buttons < 64,
{
    bit(pins[0], 1) + bit(pins[1], 2) + bit(pins[2], 4) + bit(pins[3], 8) + bit(pins[4], 16) + bit(
        pins[5],
        32,
    )
}

/// The state that the tasks share: the acquisition of the samples, the
/// calibration of each analog channel, and the newest report.
#[derive(Copy, Clone, Debug, PartialEq, Eq)]
pub struct Controller {
    /// Who holds which sample buffer, and the newest samples.
    pub acquisition: Acquisition,
    /// The calibration of each analog channel.
    pub linear_inputs: [LinearInput; ANALOG_PINS],
    /// The newest report. Each cycle of `read_analog` puts its report in
    /// the place of the one before.
    pub report: JoystickState,
}

impl Controller {
    /// The buffers are held as `Acquisition::wf` says, and every
    /// calibration is as `LinearInput::wf` says.
    pub open spec fn wf(&self) -> bool {
        &&& self.acquisition.wf()
        &&& forall|i: int| 0 <= i < ANALOG_PINS ==> (#[trigger] self.linear_inputs@[i]).wf()
    }

    /// What each channel makes of its newest sample, by its calibration.
    pub open spec fn axes(&self) -> Seq<int> {
        Seq::new(
            ANALOG_PINS as nat,
            |i: int| self.linear_inputs@[i].output(self.acquisition.samples()[i]),
        )
    }

    /// The state at start: no scan is complete, no channel is calibrated,
    /// and the newest report is the neutral one.
    pub fn new() -> (controller: Controller)
        ensures
            controller.wf(),
            controller.acquisition.filling() == Buffer::First,
            controller.acquisition.spare() == Buffer::Second,
            forall|i: int|
                0 <= i < ANALOG_PINS ==> #[trigger] controller.linear_inputs@[i]
                    == LinearInput::NoCalibration,
            controller.acquisition.samples() == Seq::new(
                ANALOG_PINS as nat,
                |i: int| INITIAL_SAMPLE,
            ),
            controller.report == JoystickState::neutral(),
    {
        Controller {
            acquisition: Acquisition::new(),
            linear_inputs: [LinearInput::NoCalibration;ANALOG_PINS],
            report: JoystickState::from_ppm_time(),
        }
    }

    /// Whether this state is as `wf` says.
    pub fn is_wf(&self) -> (ok: bool)
        ensures
            ok == self.wf(),
    {
        if !self.acquisition.is_wf() {
            return false;
        }
        let mut i: usize = 0;
        while i < ANALOG_PINS
            invariant
                i <= ANALOG_PINS,
                forall|k: int| 0 <= k < i ==> (#[trigger] self.linear_inputs@[k]).wf(),
            decreases ANALOG_PINS - i,
        {
            if !self.linear_inputs[i].is_wf() {
                return false;
            }
            i += 1;
        }
        true
    }

    /// Step of the task that runs when a scan is complete, with the samples
    /// `filled` of the scan: see `Acquisition::next_transfer`. Returns the
    /// buffer to hand to the peripheral.
    pub fn dma(&mut self, filled: &[u16; ANALOG_PINS]) -> (next: Buffer)
        requires
            old(self).wf(),
        ensures
            final(self).wf(),
            final(self).acquisition == old(self).acquisition.completed(*filled),
            final(self).acquisition.samples() == filled@,
            next == final(self).acquisition.filling(),
            next == old(self).acquisition.spare(),
            final(self).linear_inputs == old(self).linear_inputs,
            final(self).report == old(self).report,
    {
        self.acquisition.next_transfer(filled)
    }

    /// Step of the task that makes the reports, with what it has read of
    /// the pins: whether the calibration is to be committed, and the
    /// digital inputs.
    ///
    /// Each channel takes its newest sample through its calibration, after
    /// setting it as the centre where the calibration is to be committed.
    /// The scaled values and the buttons make the report, which is returned
    /// and kept as the newest one.
    pub fn read_analog(
        &mut self,
        commit_calibration: bool,
        digital_inputs: &[bool; DIGITAL_PINS],
    ) -> (report: JoystickState)
        requires
            old(self).wf(),
        ensures
            final(self).wf(),
            final(self).acquisition == old(self).acquisition,
            forall|i: int|
                0 <= i < ANALOG_PINS ==> #[trigger] final(self).linear_inputs@[i] == cycled(
                    old(self).linear_inputs@[i],
                    old(self).acquisition.samples()[i],
                    commit_calibration,
                ),
            report == report_of(final(self).axes(), digital_inputs@),
            final(self).report == report,
            0 <= report.left_x <= RESOLUTION,
            0 <= report.left_y <= RESOLUTION,
            0 <= report.right_x <= RESOLUTION,
            0 <= report.right_y <= RESOLUTION,
            0 <= report.dial_1 <= RESOLUTION,
            0 <= report.dial_2 <= RESOLUTION,
            report.buttons < 64,
    {
        let samples = self.acquisition.analog_inputs();

        // analog
        let mut axes = [0u16;ANALOG_PINS];
        let mut i: usize = 0;
        while i < ANALOG_PINS
            invariant
                i <= ANALOG_PINS,
                samples@ == old(self).acquisition.samples(),
                self.acquisition == old(self).acquisition,
                self.report == old(self).report,
                old(self).wf(),
                forall|k: int|
                    i <= k < ANALOG_PINS ==> self.linear_inputs@[k] == old(self).linear_inputs@[k],
                forall|k: int|
                    0 <= k < i ==> self.linear_inputs@[k] == cycled(
                        old(self).linear_inputs@[k],
                        samples@[k],
                        commit_calibration,
                    ),
                forall|k: int| 0 <= k < ANALOG_PINS ==> (#[trigger] self.linear_inputs@[k]).wf(),
                forall|k: int|
                    0 <= k < i ==> axes@[k] == (#[trigger] self.linear_inputs@[k]).output(samples@[k]),
                forall|k: int| 0 <= k < i ==> #[trigger] axes@[k] <= RESOLUTION,
            decreases ANALOG_PINS - i,
        {
            let mut linear_input = self.linear_inputs[i];
            if commit_calibration {
                linear_input.set_center(samples[i]);
            }
            axes[i] = linear_input.get(samples[i]);
            self.linear_inputs[i] = linear_input;
            i += 1;
        }

        // digital
        let buttons = pack_buttons(digital_inputs);

        let report = JoystickState {
            left_x: axes[0] as i16,
            left_y: axes[1] as i16,
            right_x: axes[2] as i16,
            right_y: axes[3] as i16,
            dial_1: axes[4] as i16,
            dial_2: axes[5] as i16,
            buttons,
        };
        self.report = report;
        proof {
            let made = self.axes();
            assert(made[0] == axes@[0]);
            assert(made[1] == axes@[1]);
            assert(made[2] == axes@[2]);
            assert(made[3] == axes@[3]);
            assert(made[4] == axes@[4]);
            assert(made[5] == axes@[5]);
        }
        report
    }

    /// Step of the task that sends the reports: the bytes of the newest
    /// report, to hand to the report endpoint.
    pub fn usb_report(&self) -> (bytes: [u8; REPORT_SIZE])
        ensures
            bytes@ == self.report.wire(),
    {
        self.report.as_u8_slice()
    }
}

/// A channel that has seen the ends `low` and `high` of its range, and
/// whose calibration is then committed in a cycle with the sample `centre`
/// between them, has the range and the centre fixed. From then on it makes
/// the middle of the output range of `centre`, zero of `low` and
/// `RESOLUTION` of `high`, where the centre is apart from them.
pub proof fn lemma_committed_channel(low: u16, high: u16, centre: u16)
    requires
        low <= centre <= high,
    ensures
        ({
            let learned = cycled(cycled(LinearInput::NoCalibration, low, false), high, false);
            let committed = cycled(learned, centre, true);
            &&& learned == (LinearInput::OngoingCalibration { start: low, end: high })
            &&& committed == (LinearInput::Calibrated { start: low, mid: centre, end: high })
            &&& forall|v: u16| cycled(committed, v, false) == committed
            &&& committed.output(centre) == RESOLUTION / 2
            &&& low < centre ==> committed.output(low) == 0
            &&& centre < high ==> committed.output(high) == RESOLUTION
        }),
{
    lemma_scaled_at_the_ends(low as int, centre as int, high as int, low as int);
    lemma_scaled_at_the_ends(low as int, centre as int, high as int, high as int);
}

} // verus!

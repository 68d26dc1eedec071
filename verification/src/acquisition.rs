//! The acquisition of the analog samples: two buffers that change hands
//! between the sampling peripheral and the consumer of the samples.

use vstd::prelude::*;

verus! {

/// Number of analog channels that one scan samples.
pub const ANALOG_PINS: usize = 6;

/// What the published samples hold before the first scan is complete.
pub const INITIAL_SAMPLE: u16 = 1500;

/// One of the two sample buffers.
#[derive(Copy, Clone, Debug, PartialEq, Eq, Structural)]
pub enum Buffer {
    First,
    Second,
}

impl Buffer {
    /// The buffer that this one is not.
    pub open spec fn spec_other(self) -> Buffer {
        match self {
            Buffer::First => Buffer::Second,
            Buffer::Second => Buffer::First,
        }
    }

    /// The buffer that this one is not.
    #[verifier::when_used_as_spec(spec_other)]
    pub fn other(self) -> (other: Buffer)
        ensures
            other == self.spec_other(),
    {
        match self {
            Buffer::First => Buffer::Second,
            Buffer::Second => Buffer::First,
        }
    }
}

/// Who holds which buffer, and the samples of the newest complete scan.
///
/// The peripheral fills one buffer while the consumer holds the other. When
/// a scan is complete the two change hands, so that sampling goes on into
/// the free buffer while the samples of the full one are published.
#[derive(Copy, Clone, Debug, PartialEq, Eq)]
pub struct Acquisition {
    filling: Buffer,
    spare: Buffer,
    analog_inputs: [u16; ANALOG_PINS],
}

impl Acquisition {
    /// The buffer that the peripheral holds and fills.
    pub closed spec fn spec_filling(&self) -> Buffer {
        self.filling
    }

    /// The buffer that the consumer holds.
    pub closed spec fn spec_spare(&self) -> Buffer {
        self.spare
    }

    /// The samples of the newest complete scan, one for each channel.
    pub closed spec fn samples(&self) -> Seq<u16> {
        self.analog_inputs@
    }

    /// No buffer is held by the peripheral and the consumer at once.
    pub open spec fn wf(&self) -> bool {
        self.filling() != self.spare()
    }

    /// The acquisition after a scan with the samples `filled` was completed:
    /// the buffers have changed hands and the samples are published.
    pub closed spec fn completed(self, filled: [u16; ANALOG_PINS]) -> Acquisition {
        Acquisition { filling: self.spare, spare: self.filling, analog_inputs: filled }
    }

    /// The acquisition after the scans of `scans` were completed one after
    /// the other.
    pub open spec fn after(self, scans: Seq<[u16; ANALOG_PINS]>) -> Acquisition
        decreases scans.len(),
    {
        if scans.len() == 0 {
            self
        } else {
            self.after(scans.drop_last()).completed(scans.last())
        }
    }

    /// The state at start: the peripheral fills the first buffer, the
    /// consumer holds the second, and no scan is complete yet.
    pub fn new() -> (acquisition: Acquisition)
        ensures
            acquisition.wf(),
            acquisition.filling() == Buffer::First,
            acquisition.spare() == Buffer::Second,
            acquisition.samples() == Seq::new(ANALOG_PINS as nat, |i: int| INITIAL_SAMPLE),
    {
        let acquisition = Acquisition {
            filling: Buffer::First,
            spare: Buffer::Second,
            analog_inputs: [INITIAL_SAMPLE;ANALOG_PINS],
        };
        assert(acquisition.analog_inputs@ =~= Seq::new(ANALOG_PINS as nat, |i: int| INITIAL_SAMPLE));
        acquisition
    }

    /// The buffer that the peripheral holds and fills.
    #[verifier::when_used_as_spec(spec_filling)]
    pub fn filling(&self) -> (buffer: Buffer)
        ensures
            buffer == self.spec_filling(),
    {
        self.filling
    }

    /// The buffer that the consumer holds.
    #[verifier::when_used_as_spec(spec_spare)]
    pub fn spare(&self) -> (buffer: Buffer)
        ensures
            buffer == self.spec_spare(),
    {
        self.spare
    }

    /// Whether the buffers are held as `wf` says.
    pub fn is_wf(&self) -> (ok: bool)
        ensures
            ok == self.wf(),
    {
        self.filling != self.spare
    }

    /// The samples of the newest complete scan.
    pub fn analog_inputs(&self) -> (samples: [u16; ANALOG_PINS])
        ensures
            samples@ == self.samples(),
    {
        self.analog_inputs
    }

    /// Completes a scan whose samples are `filled`: the consumer's buffer
    /// goes to the peripheral, which goes on sampling into it, the full
    /// buffer goes to the consumer, and its samples are published in place
    /// of the ones before. Returns the buffer that the peripheral now
    /// fills.
    pub fn next_transfer(&mut self, filled: &[u16; ANALOG_PINS]) -> (next: Buffer)
        requires
            old(self).wf(),
        ensures
            *final(self) == old(self).completed(*filled),
            final(self).wf(),
            final(self).filling() == old(self).spare(),
            final(self).spare() == old(self).filling(),
            final(self).samples() == filled@,
            next == final(self).filling(),
    {
        let next = self.spare;
        self.spare = self.filling;
        self.filling = next;
        self.analog_inputs = *filled;
        next
    }
}

/// Completing a scan makes the buffers change hands and publishes the
/// samples of the scan.
pub proof fn lemma_completed(acquisition: Acquisition, filled: [u16; ANALOG_PINS])
    ensures
        acquisition.completed(filled).filling() == acquisition.spare(),
        acquisition.completed(filled).spare() == acquisition.filling(),
        acquisition.completed(filled).samples() == filled@,
        acquisition.wf() ==> acquisition.completed(filled).wf(),
{
}

/// However many scans are completed, the peripheral and the consumer never
/// hold the same buffer, and the samples published are those of the newest
/// scan.
pub proof fn lemma_buffers_stay_apart(acquisition: Acquisition, scans: Seq<[u16; ANALOG_PINS]>)
    requires
        acquisition.wf(),
    ensures
        acquisition.after(scans).wf(),
        acquisition.after(scans).filling() == acquisition.after(scans).spare().other(),
        scans.len() > 0 ==> acquisition.after(scans).samples() == scans.last()@,
        scans.len() == 0 ==> acquisition.after(scans) == acquisition,
    decreases scans.len(),
{
    if scans.len() > 0 {
        lemma_buffers_stay_apart(acquisition, scans.drop_last());
        lemma_completed(acquisition.after(scans.drop_last()), scans.last());
    }
}

} // verus!

use vstd::prelude::*;

use crate::fingerprint::Fingerprint;

verus! {

/// What an envelope stands for: the fingerprint of its payload type and the payload's words.
pub type EnvelopeView = (Fingerprint, Seq<u64>);

/// What the transport's slot holds: nothing, or one pending envelope.
pub type SlotState = Option<EnvelopeView>;

/// A type-fingerprinted payload on its way through the transport.
pub struct Envelope {
    pub fingerprint: Fingerprint,
    pub payload: Vec<u64>,
}

impl View for Envelope {
    type V = EnvelopeView;

    open spec fn view(&self) -> EnvelopeView {
        (self.fingerprint, self.payload@)
    }
}

/// The single-slot hand-off that all channels share.
///
/// The slot holds at most one pending envelope, whatever its type: a deposit replaces what
/// was there, and a take empties it. A deposit may also ask to wake the event loop; that
/// request stays pending until the loop collects it.
pub struct Transport {
    slot: Option<Envelope>,
    wake: bool,
}

impl View for Transport {
    type V = SlotState;

    closed spec fn view(&self) -> SlotState {
        match self.slot {
            Some(e) => Some(e@),
            None => None,
        }
    }
}

impl Transport {
    /// Whether a wake of the event loop has been asked for and not yet collected.
    pub closed spec fn wake_pending(&self) -> bool {
        self.wake
    }

    /// A transport with an empty slot and no pending wake.
    pub fn new() -> (t: Transport)
        ensures
            t@ is None,
            !t.wake_pending(),
    {
        Transport { slot: None, wake: false }
    }

    /// Installs `envelope` in the slot, dropping any envelope that was pending, and asks
    /// for a wake of the event loop when `wake` is set.
    pub fn deposit(&mut self, envelope: Envelope, wake: bool)
        ensures
            final(self)@ == Some(envelope@),
            final(self).wake_pending() == (old(self).wake_pending() || wake),
    {
        self.slot = Some(envelope);
        self.wake = self.wake || wake;
    }

    /// Removes and returns the pending envelope, if any.
    pub fn take(&mut self) -> (r: Option<Envelope>)
        ensures
            match r {
                Some(e) => old(self)@ == Some(e@),
                None => old(self)@ is None,
            },
            final(self)@ is None,
            final(self).wake_pending() == old(self).wake_pending(),
    {
        self.slot.take()
    }

    /// Collects the pending wake request: returns whether one was pending and clears it.
    pub fn take_wake(&mut self) -> (r: bool)
        ensures
            r == old(self).wake_pending(),
            !final(self).wake_pending(),
            final(self)@ == old(self)@,
    {
        let r = self.wake;
        self.wake = false;
        r
    }

    /// Whether an envelope is pending.
    pub fn is_occupied(&self) -> (r: bool)
        ensures
            r == self@ is Some,
    {
        self.slot.is_some()
    }
}

} // verus!

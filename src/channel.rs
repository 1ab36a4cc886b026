use vstd::prelude::*;

use crate::fingerprint::{fingerprint_of, Fingerprint};
use crate::payload::Payload;
use crate::transport::{Envelope, SlotState, Transport};

verus! {

/// The slot after a value of type `T` is sent: its envelope replaces whatever was pending.
pub open spec fn slot_after_send<T: Payload>(slot: SlotState, value: T) -> SlotState {
    Some((fingerprint_of::<T>(), value.to_words()))
}

/// The slot after a receive of any type: empty, whatever was pending.
pub open spec fn slot_after_recv(slot: SlotState) -> SlotState {
    None
}

/// What a receive of type `T` yields from `slot`: nothing from an empty slot, the decoded
/// payload of an envelope whose fingerprint is that of `T`, and nothing from any other
/// envelope.
pub open spec fn recv_result<T: Payload>(slot: SlotState) -> Option<T> {
    match slot {
        Some((f, words)) => if f == fingerprint_of::<T>() {
            T::from_words(words)
        } else {
            None
        },
        None => None,
    }
}

/// The sending half of a channel for values of type `T`.
///
/// It carries only the fingerprint of `T`; every sender for `T` deposits into the one
/// transport slot that all channels share.
#[derive(Debug, Copy)]
pub struct Sender<T: Payload> {
    data: std::marker::PhantomData<T>,
    fingerprint: Fingerprint,
}

impl<T: Payload> View for Sender<T> {
    type V = Fingerprint;

    closed spec fn view(&self) -> Fingerprint {
        self.fingerprint
    }
}

impl<T: Payload> Clone for Sender<T> {
    fn clone(&self) -> (r: Self)
        ensures
            r == *self,
    {
        *self
    }
}

impl<T: Payload> Sender<T> {
    #[verifier::type_invariant]
    spec fn inv(self) -> bool {
        self.fingerprint == fingerprint_of::<T>()
    }

    /// The fingerprint that this sender stamps on its envelopes.
    pub fn fingerprint(&self) -> (r: Fingerprint)
        ensures
            r == self@,
            r == fingerprint_of::<T>(),
    {
        proof {
            use_type_invariant(self);
        }
        self.fingerprint
    }

    /// Sends `val`: wraps it in an envelope stamped with the fingerprint of `T`, installs
    /// the envelope in the transport's slot (dropping whatever was pending) and asks for a
    /// wake of the event loop.
    pub fn send(&self, transport: &mut Transport, val: T)
        ensures
            final(transport)@ == slot_after_send(old(transport)@, val),
            final(transport).wake_pending(),
    {
        proof {
            use_type_invariant(self);
        }
        let envelope = Envelope { fingerprint: self.fingerprint, payload: val.encode() };
        transport.deposit(envelope, true);
    }
}

/// The receiving half of a channel for values of type `T`.
///
/// It takes whatever envelope is pending in the shared slot and keeps the payload only when
/// the envelope carries the fingerprint of `T`.
#[derive(Debug, Copy)]
pub struct Receiver<T: Payload> {
    data: std::marker::PhantomData<T>,
    fingerprint: Fingerprint,
}

impl<T: Payload> View for Receiver<T> {
    type V = Fingerprint;

    closed spec fn view(&self) -> Fingerprint {
        self.fingerprint
    }
}

impl<T: Payload> Clone for Receiver<T> {
    fn clone(&self) -> (r: Self)
        ensures
            r == *self,
    {
        *self
    }
}

impl<T: Payload> Receiver<T> {
    #[verifier::type_invariant]
    spec fn inv(self) -> bool {
        self.fingerprint == fingerprint_of::<T>()
    }

    /// The fingerprint that this receiver accepts.
    pub fn fingerprint(&self) -> (r: Fingerprint)
        ensures
            r == self@,
            r == fingerprint_of::<T>(),
    {
        proof {
            use_type_invariant(self);
        }
        self.fingerprint
    }

    /// Receives without blocking: takes the pending envelope out of the slot, if any, and
    /// returns its payload when its fingerprint is that of `T`. An envelope of another type
    /// is consumed and dropped.
    pub fn recv(&self, transport: &mut Transport) -> (r: Option<T>)
        ensures
            r == recv_result::<T>(old(transport)@),
            final(transport)@ == slot_after_recv(old(transport)@),
            final(transport).wake_pending() == old(transport).wake_pending(),
    {
        proof {
            use_type_invariant(self);
        }
        match transport.take() {
            Some(envelope) => {
                if envelope.fingerprint == self.fingerprint {
                    T::decode(&envelope.payload)
                } else {
                    None
                }
            },
            None => None,
        }
    }
}

/// Creates a sender and a receiver for values of type `T`, both carrying the fingerprint
/// of `T`.
pub fn channel<T: Payload>() -> (r: (Sender<T>, Receiver<T>))
    ensures
        r.0@ == fingerprint_of::<T>(),
        r.1@ == fingerprint_of::<T>(),
{
    let fingerprint = Fingerprint::of::<T>();
    let s = Sender { data: std::marker::PhantomData, fingerprint };
    let r = Receiver { data: std::marker::PhantomData, fingerprint };
    (s, r)
}

/// A receive of one type never yields a value sent as another type whose fingerprint
/// differs: it gets nothing, and the envelope it consumed cannot be received afterwards,
/// as either type.
pub proof fn lemma_mismatched_envelope_is_lost<T1: Payload, T2: Payload>(slot: SlotState, value: T1)
    requires
        fingerprint_of::<T1>() != fingerprint_of::<T2>(),
    ensures
        recv_result::<T2>(slot_after_send(slot, value)) is None,
        recv_result::<T1>(slot_after_recv(slot_after_send(slot, value))) is None,
        recv_result::<T2>(slot_after_recv(slot_after_send(slot, value))) is None,
{
}

/// A value sent as type `T` and then received as `T`, with nothing in between, comes back
/// unchanged.
pub proof fn lemma_send_then_recv<T: Payload>(slot: SlotState, value: T)
    ensures
        recv_result::<T>(slot_after_send(slot, value)) == Some(value),
{
    T::lemma_round_trip(value);
}

/// A receive that follows a successful receive, with nothing sent in between, yields
/// nothing: each envelope is consumed once.
pub proof fn lemma_single_consumption<T: Payload>(slot: SlotState)
    requires
        recv_result::<T>(slot) is Some,
    ensures
        recv_result::<T>(slot_after_recv(slot)) is None,
{
}

/// Of two values sent one after the other with no receive in between, a receive yields
/// only the second; the first cannot be received afterwards either.
pub proof fn lemma_last_write_wins<T: Payload>(slot: SlotState, first: T, second: T)
    ensures
        recv_result::<T>(slot_after_send(slot_after_send(slot, first), second)) == Some(second),
        recv_result::<T>(slot_after_recv(slot_after_send(slot_after_send(slot, first), second)))
            is None,
{
    T::lemma_round_trip(second);
}

/// Two channels made for the same type carry equal fingerprints, so a value sent through
/// one is received through the other: the slot is shared, not owned by a pair.
pub proof fn lemma_channels_share_slot<T: Payload>(
    a: (Sender<T>, Receiver<T>),
    b: (Sender<T>, Receiver<T>),
    slot: SlotState,
    value: T,
)
    requires
        a.0@ == fingerprint_of::<T>(),
        a.1@ == fingerprint_of::<T>(),
        b.0@ == fingerprint_of::<T>(),
        b.1@ == fingerprint_of::<T>(),
    ensures
        a.0@ == b.0@,
        a.1@ == b.1@,
        a.0@ == b.1@,
        b.0@ == a.1@,
        recv_result::<T>(slot_after_send(slot, value)) == Some(value),
{
    T::lemma_round_trip(value);
}

} // verus!

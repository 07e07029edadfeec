//! The decisions of the receiving side: it takes datagrams from the OSC
//! source, hands each non-empty one to the packet filter, and after each
//! one, or after a failed receive, looks for a shutdown signal.

use vstd::prelude::*;
use crate::filter::{
    FilterRules, FilterSpec, Forwarding, Outcome, Routing, filter_outcome, forwarded_bytes, debug_matches,
    opt_bytes,
};
use crate::osc::{MAX_DATAGRAM_LEN, osc_decode};

verus! {

/// What the receiving side waits for next.
#[derive(PartialEq, Eq, Structural, Clone, Copy, Debug)]
pub enum ReceiverPhase {
    /// A datagram from the source.
    Receiving,
    /// A look at the control channel.
    CheckingControl,
    /// Nothing; it has shut down.
    Finished,
}

/// What happened on the receiving side.
#[derive(PartialEq, Eq, Structural, Clone, Copy, Debug)]
pub enum ReceiverEvent {
    /// A datagram of the given length arrived.
    Datagram(usize),
    /// Receiving failed (or timed out).
    ReceiveFailed,
    /// A control message arrived; `true` asks for shutdown.
    Control(bool),
    /// No control message was there.
    NoControl,
}

/// One step: the next phase, and whether the received datagram goes to
/// the filter.
pub open spec fn receiver_transition(phase: ReceiverPhase, event: ReceiverEvent) -> (ReceiverPhase, bool) {
    match (phase, event) {
        (ReceiverPhase::Receiving, ReceiverEvent::Datagram(len)) =>
            if len == 0 {
                (ReceiverPhase::Receiving, false)
            } else {
                (ReceiverPhase::CheckingControl, true)
            },
        (ReceiverPhase::Receiving, ReceiverEvent::ReceiveFailed) => (ReceiverPhase::CheckingControl, false),
        (ReceiverPhase::CheckingControl, ReceiverEvent::Control(true)) => (ReceiverPhase::Finished, false),
        (ReceiverPhase::CheckingControl, ReceiverEvent::Control(false)) => (ReceiverPhase::Receiving, false),
        (ReceiverPhase::CheckingControl, ReceiverEvent::NoControl) => (ReceiverPhase::Receiving, false),
        _ => (phase, false),
    }
}

/// The receive buffer `buf` once a datagram of length `len` stands at its
/// start and the rest is cleared: the datagram followed by zeros up to the
/// buffer's length.
pub open spec fn received_buffer(buf: Seq<u8>, len: nat) -> Seq<u8> {
    buf.subrange(0, len as int) + Seq::new((buf.len() - len) as nat, |i: int| 0u8)
}

/// The receiving side: its packet filter and its phase.
pub struct Receiver {
    rules: FilterRules,
    phase: ReceiverPhase,
}

impl Receiver {
    /// The filter of the receiving side.
    pub closed spec fn spec_filter(&self) -> FilterSpec {
        self.rules@
    }

    /// The phase of the receiving side.
    pub closed spec fn spec_phase(&self) -> ReceiverPhase {
        self.phase
    }

    /// A receiving side that waits for its first datagram.
    pub fn new(rules: FilterRules) -> (res: Receiver)
        ensures
            res.spec_filter() == rules@,
            res.spec_phase() == ReceiverPhase::Receiving,
    {
        Receiver { rules, phase: ReceiverPhase::Receiving }
    }

    /// The phase of the receiving side.
    pub fn phase(&self) -> (res: ReceiverPhase)
        ensures
            res == self.spec_phase(),
    {
        self.phase
    }

    /// Takes the receiving side through `event`. For a datagram of length
    /// `len`, `buf` is the receive buffer with the datagram at its start:
    /// the rest of the buffer is cleared to zeros, and when the datagram goes
    /// to the filter, the result says what becomes of the cleared buffer.
    /// Other events leave `buf` as it is.
    pub fn step(&mut self, event: ReceiverEvent, buf: &mut Vec<u8>, debugging: bool) -> (res: Option<Routing>)
        requires
            old(buf)@.len() <= MAX_DATAGRAM_LEN,
            event matches ReceiverEvent::Datagram(len) ==> len <= old(buf)@.len(),
        ensures
            final(self).spec_filter() == old(self).spec_filter(),
            final(self).spec_phase() == receiver_transition(old(self).spec_phase(), event).0,
            res is Some <==> receiver_transition(old(self).spec_phase(), event).1,
            res is Some ==> (event matches ReceiverEvent::Datagram(len)
                && final(buf)@ == received_buffer(old(buf)@, len as nat)),
            res is None ==> final(buf)@ == old(buf)@,
            res matches Some(r) ==> {
                &&& opt_bytes(r.forward) == forwarded_bytes(
                    filter_outcome(old(self).spec_filter(), osc_decode(final(buf)@)),
                    final(buf)@,
                )
                &&& debug_matches(
                    r.debug,
                    filter_outcome(old(self).spec_filter(), osc_decode(final(buf)@)),
                    final(buf)@,
                    debugging,
                )
            },
    {
        match (self.phase, event) {
            (ReceiverPhase::Receiving, ReceiverEvent::Datagram(len)) => {
                if len == 0 {
                    None
                } else {
                    let ghost received = buf@;
                    let mut i: usize = len;
                    while i < buf.len()
                        invariant
                            len <= i <= buf@.len(),
                            buf@.len() == received.len(),
                            forall|k: int| 0 <= k < len ==> #[trigger] buf@[k] == received[k],
                            forall|k: int| len <= k < i ==> #[trigger] buf@[k] == 0u8,
                        decreases buf@.len() - i,
                    {
                        buf.set(i, 0u8);
                        i = i + 1;
                    }
                    assert(buf@ =~= received_buffer(received, len as nat));
                    self.phase = ReceiverPhase::CheckingControl;
                    Some(self.rules.route_datagram(buf.as_slice(), debugging))
                }
            },
            (ReceiverPhase::Receiving, ReceiverEvent::ReceiveFailed) => {
                self.phase = ReceiverPhase::CheckingControl;
                None
            },
            (ReceiverPhase::CheckingControl, ReceiverEvent::Control(true)) => {
                self.phase = ReceiverPhase::Finished;
                None
            },
            (ReceiverPhase::CheckingControl, ReceiverEvent::Control(false)) => {
                self.phase = ReceiverPhase::Receiving;
                None
            },
            (ReceiverPhase::CheckingControl, ReceiverEvent::NoControl) => {
                self.phase = ReceiverPhase::Receiving;
                None
            },
            _ => None,
        }
    }
}

/// A received datagram that is passed on raw goes out as its own bytes
/// followed by zeros up to the buffer's length, whatever the buffer held
/// before.
pub proof fn law_raw_relay_is_zero_padded(f: FilterSpec, buf: Seq<u8>, len: nat)
    requires
        len <= buf.len(),
        filter_outcome(f, osc_decode(received_buffer(buf, len))) == Outcome::Pass(Forwarding::Raw),
    ensures
        forwarded_bytes(filter_outcome(f, osc_decode(received_buffer(buf, len))), received_buffer(buf, len))
            == Some(buf.subrange(0, len as int) + Seq::new((buf.len() - len) as nat, |i: int| 0u8)),
        received_buffer(buf, len).len() == buf.len(),
        forall|i: int| len <= i < buf.len() ==> #[trigger] received_buffer(buf, len)[i] == 0u8,
        forall|i: int| 0 <= i < len ==> #[trigger] received_buffer(buf, len)[i] == buf[i],
{
}

/// Every non-empty datagram goes to the filter, and no empty one does.
pub proof fn law_nonempty_datagrams_are_filtered(len: usize)
    ensures
        receiver_transition(ReceiverPhase::Receiving, ReceiverEvent::Datagram(len)).1 <==> len > 0,
{
}

/// An empty datagram is skipped without a look at the control channel.
pub proof fn law_empty_datagram_skips_control()
    ensures
        receiver_transition(ReceiverPhase::Receiving, ReceiverEvent::Datagram(0))
            == (ReceiverPhase::Receiving, false),
{
}

/// The receiving side shuts down exactly on a shutdown signal.
pub proof fn law_receiver_stops_on_signal(phase: ReceiverPhase, event: ReceiverEvent)
    requires
        phase != ReceiverPhase::Finished,
    ensures
        receiver_transition(phase, event).0 == ReceiverPhase::Finished
            <==> (phase == ReceiverPhase::CheckingControl && event == ReceiverEvent::Control(true)),
{
}

/// A receiving side that has shut down stays so and filters nothing.
pub proof fn law_finished_receiver_is_idle(event: ReceiverEvent)
    ensures
        receiver_transition(ReceiverPhase::Finished, event) == (ReceiverPhase::Finished, false),
{
}


/// Every non-empty datagram received is filtered and followed by a look
/// for a shutdown signal, whatever its length.
pub proof fn law_datagram_then_control(len: usize)
    requires
        len > 0,
    ensures
        receiver_transition(ReceiverPhase::Receiving, ReceiverEvent::Datagram(len))
            == (ReceiverPhase::CheckingControl, true),
{
}

/// A failed receive is followed by a look for a shutdown signal, and a look
/// that finds none goes back to receiving; neither filters anything.
pub proof fn law_control_checks_return_to_receiving(signal: bool)
    ensures
        receiver_transition(ReceiverPhase::Receiving, ReceiverEvent::ReceiveFailed)
            == (ReceiverPhase::CheckingControl, false),
        receiver_transition(ReceiverPhase::CheckingControl, ReceiverEvent::NoControl)
            == (ReceiverPhase::Receiving, false),
        receiver_transition(ReceiverPhase::CheckingControl, ReceiverEvent::Control(signal))
            == (if signal { (ReceiverPhase::Finished, false) } else { (ReceiverPhase::Receiving, false) }),
{
}

/// Only a received datagram is ever filtered.
pub proof fn law_only_datagrams_are_filtered(phase: ReceiverPhase, event: ReceiverEvent)
    ensures
        receiver_transition(phase, event).1 ==> phase == ReceiverPhase::Receiving
            && (event matches ReceiverEvent::Datagram(len) && len > 0),
{
}


/// An event that a phase does not wait for changes nothing and filters
/// nothing.
pub proof fn law_foreign_receiver_events_change_nothing(phase: ReceiverPhase, event: ReceiverEvent)
    requires
        phase == ReceiverPhase::Receiving ==> !(event is Datagram || event is ReceiveFailed),
        phase == ReceiverPhase::CheckingControl ==> !(event is Control || event is NoControl),
    ensures
        receiver_transition(phase, event) == (phase, false),
{
}

} // verus!

//! The decisions of one application route: it binds a socket, then in turn
//! looks for a shutdown signal, takes the next buffer from the router and
//! sends it to its application, reporting its status on the way.

use vstd::prelude::*;
use crate::status::{Failure, RouteStatus, StatusReport};

verus! {

/// Where a route stands: what it waits for next.
#[derive(PartialEq, Eq, Structural, Clone, Copy, Debug)]
pub enum RoutePhase {
    /// Binding the socket it sends from.
    Binding,
    /// Looking for a shutdown signal.
    AwaitingControl,
    /// Taking the next buffer from the router.
    AwaitingBuffer,
    /// Sending the buffer to its application.
    AwaitingSend,
    /// Done; it acts no more.
    Finished,
}

/// What happened to a route.
#[derive(PartialEq, Eq, Structural, Clone, Copy, Debug)]
pub enum RouteEvent {
    Bound,
    BindFailed,
    /// A control message arrived; `true` asks the route to shut down.
    Control(bool),
    /// No control message was there.
    NoControl,
    /// A buffer arrived from the router.
    Received,
    /// No buffer was there yet.
    Empty,
    /// The route fell behind and buffers were lost.
    Lagged,
    /// The router's buffer channel is gone.
    Closed,
    /// The buffer went out to the application.
    Sent,
    SendFailed,
}

/// One step of a route: the next phase, the status to report if any, and
/// whether the sent buffer is to be shown to the debug view.
#[derive(PartialEq, Eq, Structural, Clone, Copy, Debug)]
pub struct RouteStep {
    pub next: RoutePhase,
    pub report: Option<RouteStatus>,
    pub emit_debug: bool,
}

/// The route's transition table. An event that does not belong to the
/// phase changes nothing.
pub open spec fn route_transition(phase: RoutePhase, event: RouteEvent, debugging: bool) -> RouteStep {
    match (phase, event) {
        (RoutePhase::Binding, RouteEvent::Bound) =>
            RouteStep { next: RoutePhase::AwaitingControl, report: Some(RouteStatus::Running), emit_debug: false },
        (RoutePhase::Binding, RouteEvent::BindFailed) =>
            RouteStep { next: RoutePhase::Finished, report: Some(RouteStatus::Failed(Failure::AppBind)), emit_debug: false },
        (RoutePhase::AwaitingControl, RouteEvent::Control(true)) =>
            RouteStep { next: RoutePhase::Finished, report: Some(RouteStatus::Stopped), emit_debug: false },
        (RoutePhase::AwaitingControl, RouteEvent::Control(false)) =>
            RouteStep { next: RoutePhase::AwaitingBuffer, report: None, emit_debug: false },
        (RoutePhase::AwaitingControl, RouteEvent::NoControl) =>
            RouteStep { next: RoutePhase::AwaitingBuffer, report: None, emit_debug: false },
        (RoutePhase::AwaitingBuffer, RouteEvent::Received) =>
            RouteStep { next: RoutePhase::AwaitingSend, report: None, emit_debug: false },
        (RoutePhase::AwaitingBuffer, RouteEvent::Empty) =>
            RouteStep { next: RoutePhase::AwaitingControl, report: None, emit_debug: false },
        (RoutePhase::AwaitingBuffer, RouteEvent::Lagged) =>
            RouteStep { next: RoutePhase::AwaitingControl, report: None, emit_debug: false },
        (RoutePhase::AwaitingBuffer, RouteEvent::Closed) =>
            RouteStep { next: RoutePhase::Finished, report: Some(RouteStatus::Stopped), emit_debug: false },
        (RoutePhase::AwaitingSend, RouteEvent::Sent) =>
            RouteStep { next: RoutePhase::AwaitingControl, report: None, emit_debug: debugging },
        (RoutePhase::AwaitingSend, RouteEvent::SendFailed) =>
            RouteStep { next: RoutePhase::AwaitingControl, report: Some(RouteStatus::Failed(Failure::AppSend)), emit_debug: false },
        _ => RouteStep { next: phase, report: None, emit_debug: false },
    }
}

/// The status reports of a run of events from `phase`, in order.
pub open spec fn route_reports(phase: RoutePhase, events: Seq<RouteEvent>, debugging: bool) -> Seq<RouteStatus>
    decreases events.len(),
{
    if events.len() == 0 {
        Seq::empty()
    } else {
        let step = route_transition(phase, events[0], debugging);
        let rest = route_reports(step.next, events.drop_first(), debugging);
        match step.report {
            Some(s) => seq![s] + rest,
            None => rest,
        }
    }
}

/// The phase a run of events from `phase` ends in.
pub open spec fn route_final_phase(phase: RoutePhase, events: Seq<RouteEvent>, debugging: bool) -> RoutePhase
    decreases events.len(),
{
    if events.len() == 0 {
        phase
    } else {
        route_final_phase(route_transition(phase, events[0], debugging).next, events.drop_first(), debugging)
    }
}

/// What a route must do after a step.
pub struct RouteOutput {
    /// The report to send to the route's owner, if any.
    pub report: Option<StatusReport>,
    /// Whether to show the sent buffer to the debug view.
    pub emit_debug: bool,
}

/// One application route: its index, whether a debug view listens, and
/// its phase.
pub struct AppRoute {
    pub index: i64,
    pub debugging: bool,
    pub phase: RoutePhase,
}

impl AppRoute {
    /// A route about to bind its socket.
    pub fn new(index: i64, debugging: bool) -> (res: AppRoute)
        ensures
            res.index == index,
            res.debugging == debugging,
            res.phase == RoutePhase::Binding,
    {
        AppRoute { index, debugging, phase: RoutePhase::Binding }
    }

    /// Whether the route has finished.
    pub fn is_finished(&self) -> (res: bool)
        ensures
            res == (self.phase == RoutePhase::Finished),
    {
        match self.phase {
            RoutePhase::Finished => true,
            _ => false,
        }
    }

    /// Takes the route through `event`.
    pub fn step(&mut self, event: RouteEvent) -> (res: RouteOutput)
        ensures
            final(self).index == old(self).index,
            final(self).debugging == old(self).debugging,
            final(self).phase == route_transition(old(self).phase, event, old(self).debugging).next,
            res.emit_debug == route_transition(old(self).phase, event, old(self).debugging).emit_debug,
            match route_transition(old(self).phase, event, old(self).debugging).report {
                Some(s) => res.report == Some(StatusReport { index: old(self).index, status: s }),
                None => res.report is None,
            },
    {
        let (next, report, emit_debug) = match (self.phase, event) {
            (RoutePhase::Binding, RouteEvent::Bound) => (RoutePhase::AwaitingControl, Some(RouteStatus::Running), false),
            (RoutePhase::Binding, RouteEvent::BindFailed) => (RoutePhase::Finished, Some(RouteStatus::Failed(Failure::AppBind)), false),
            (RoutePhase::AwaitingControl, RouteEvent::Control(true)) => (RoutePhase::Finished, Some(RouteStatus::Stopped), false),
            (RoutePhase::AwaitingControl, RouteEvent::Control(false)) => (RoutePhase::AwaitingBuffer, None, false),
            (RoutePhase::AwaitingControl, RouteEvent::NoControl) => (RoutePhase::AwaitingBuffer, None, false),
            (RoutePhase::AwaitingBuffer, RouteEvent::Received) => (RoutePhase::AwaitingSend, None, false),
            (RoutePhase::AwaitingBuffer, RouteEvent::Empty) => (RoutePhase::AwaitingControl, None, false),
            (RoutePhase::AwaitingBuffer, RouteEvent::Lagged) => (RoutePhase::AwaitingControl, None, false),
            (RoutePhase::AwaitingBuffer, RouteEvent::Closed) => (RoutePhase::Finished, Some(RouteStatus::Stopped), false),
            (RoutePhase::AwaitingSend, RouteEvent::Sent) => (RoutePhase::AwaitingControl, None, self.debugging),
            (RoutePhase::AwaitingSend, RouteEvent::SendFailed) => (RoutePhase::AwaitingControl, Some(RouteStatus::Failed(Failure::AppSend)), false),
            _ => (self.phase, None, false),
        };
        self.phase = next;
        let report = match report {
            Some(status) => Some(StatusReport { index: self.index, status }),
            None => None,
        };
        RouteOutput { report, emit_debug }
    }
}

/// A finished route stays finished and reports nothing more.
pub proof fn law_finished_route_is_silent(event: RouteEvent, debugging: bool)
    ensures
        route_transition(RoutePhase::Finished, event, debugging)
            == (RouteStep { next: RoutePhase::Finished, report: None, emit_debug: false }),
{
}

/// A route that finishes says why: every step into `Finished` reports
/// `Stopped` or a failure.
pub proof fn law_finishing_is_reported(phase: RoutePhase, event: RouteEvent, debugging: bool)
    requires
        phase != RoutePhase::Finished,
        route_transition(phase, event, debugging).next == RoutePhase::Finished,
    ensures
        route_transition(phase, event, debugging).report is Some,
        route_transition(phase, event, debugging).report != Some(RouteStatus::Running),
{
}

/// A route reports `Stopped` exactly on a shutdown signal or when the
/// router's buffer channel is gone, and then finishes.
pub proof fn law_stopped_on_signal_or_close(phase: RoutePhase, event: RouteEvent, debugging: bool)
    ensures
        route_transition(phase, event, debugging).report == Some(RouteStatus::Stopped) <==> (
            (phase == RoutePhase::AwaitingControl && event == RouteEvent::Control(true))
            || (phase == RoutePhase::AwaitingBuffer && event == RouteEvent::Closed)),
        route_transition(phase, event, debugging).report == Some(RouteStatus::Stopped)
            ==> route_transition(phase, event, debugging).next == RoutePhase::Finished,
{
}

/// `Running` is reported exactly when the socket is bound.
pub proof fn law_running_on_bind(phase: RoutePhase, event: RouteEvent, debugging: bool)
    ensures
        route_transition(phase, event, debugging).report == Some(RouteStatus::Running)
            <==> (phase == RoutePhase::Binding && event == RouteEvent::Bound),
{
}

/// A failed send is reported and the route carries on.
pub proof fn law_send_failure_is_not_fatal(debugging: bool)
    ensures
        route_transition(RoutePhase::AwaitingSend, RouteEvent::SendFailed, debugging)
            == (RouteStep {
                next: RoutePhase::AwaitingControl,
                report: Some(RouteStatus::Failed(Failure::AppSend)),
                emit_debug: false,
            }),
{
}

/// The debug view sees a buffer exactly when it was sent and a debug view
/// listens.
pub proof fn law_debug_only_after_send(phase: RoutePhase, event: RouteEvent, debugging: bool)
    ensures
        route_transition(phase, event, debugging).emit_debug
            <==> (phase == RoutePhase::AwaitingSend && event == RouteEvent::Sent && debugging),
{
}

/// Whatever happens after a route has finished, it reports nothing and
/// stays finished.
pub proof fn law_nothing_after_finish(events: Seq<RouteEvent>, debugging: bool)
    ensures
        route_reports(RoutePhase::Finished, events, debugging) == Seq::<RouteStatus>::empty(),
        route_final_phase(RoutePhase::Finished, events, debugging) == RoutePhase::Finished,
    decreases events.len(),
{
    if events.len() > 0 {
        law_nothing_after_finish(events.drop_first(), debugging);
    }
}

proof fn lemma_no_running_after_bind(phase: RoutePhase, events: Seq<RouteEvent>, debugging: bool)
    requires
        phase != RoutePhase::Binding,
    ensures
        !route_reports(phase, events, debugging).contains(RouteStatus::Running),
    decreases events.len(),
{
    if events.len() > 0 {
        let step = route_transition(phase, events[0], debugging);
        lemma_no_running_after_bind(step.next, events.drop_first(), debugging);
        let rest = route_reports(step.next, events.drop_first(), debugging);
        if let Some(s) = step.report {
            assert(s != RouteStatus::Running);
            assert forall|i: int| 0 <= i < (seq![s] + rest).len() implies (seq![s] + rest)[i] != RouteStatus::Running by {
                if i > 0 {
                    assert((seq![s] + rest)[i] == rest[i - 1]);
                }
            }
        }
    }
}

/// Over any run of events, a route reports `Running` at most once, and
/// then as its first report.
pub proof fn law_running_reported_at_most_once(events: Seq<RouteEvent>, debugging: bool)
    ensures
        forall|i: int|
            0 <= i < route_reports(RoutePhase::Binding, events, debugging).len()
            && #[trigger] route_reports(RoutePhase::Binding, events, debugging)[i] == RouteStatus::Running
            ==> i == 0,
    decreases events.len(),
{
    if events.len() > 0 {
        let step = route_transition(RoutePhase::Binding, events[0], debugging);
        let rest = route_reports(step.next, events.drop_first(), debugging);
        if step.next == RoutePhase::Binding {
            law_running_reported_at_most_once(events.drop_first(), debugging);
        } else {
            lemma_no_running_after_bind(step.next, events.drop_first(), debugging);
            if let Some(s) = step.report {
                assert forall|i: int|
                    0 < i < (seq![s] + rest).len() implies (seq![s] + rest)[i] != RouteStatus::Running by {
                    assert((seq![s] + rest)[i] == rest[i - 1]);
                }
            }
        }
    }
}


/// Over any run of events, `Stopped` is reported at most once, and then as
/// the last report, after which the route has finished.
pub proof fn law_stopped_is_last(phase: RoutePhase, events: Seq<RouteEvent>, debugging: bool)
    ensures
        forall|i: int|
            0 <= i < route_reports(phase, events, debugging).len()
            && #[trigger] route_reports(phase, events, debugging)[i] == RouteStatus::Stopped
            ==> i == route_reports(phase, events, debugging).len() - 1,
        route_reports(phase, events, debugging).contains(RouteStatus::Stopped)
            ==> route_final_phase(phase, events, debugging) == RoutePhase::Finished,
    decreases events.len(),
{
    if events.len() > 0 {
        let step = route_transition(phase, events[0], debugging);
        let tail = events.drop_first();
        let rest = route_reports(step.next, tail, debugging);
        let all = route_reports(phase, events, debugging);
        law_stopped_is_last(step.next, tail, debugging);
        if step.report == Some(RouteStatus::Stopped) {
            law_nothing_after_finish(tail, debugging);
            assert(all =~= seq![RouteStatus::Stopped]);
        } else if let Some(s) = step.report {
            assert(all == seq![s] + rest);
            assert forall|i: int| 0 <= i < all.len() && #[trigger] all[i] == RouteStatus::Stopped
                implies i == all.len() - 1 by {
                if i > 0 {
                    assert(all[i] == rest[i - 1]);
                }
            }
            if all.contains(RouteStatus::Stopped) {
                let k = choose|k: int| 0 <= k < all.len() && all[k] == RouteStatus::Stopped;
                assert(k > 0);
                assert(rest[k - 1] == RouteStatus::Stopped);
            }
        }
    }
}

/// A route that ends says why in its last report: `Stopped`, or the failure
/// to bind its socket.
pub proof fn law_ending_is_last_report(phase: RoutePhase, events: Seq<RouteEvent>, debugging: bool)
    requires
        phase != RoutePhase::Finished,
        route_final_phase(phase, events, debugging) == RoutePhase::Finished,
    ensures
        route_reports(phase, events, debugging).len() > 0,
        route_reports(phase, events, debugging).last() == RouteStatus::Stopped
            || route_reports(phase, events, debugging).last() == RouteStatus::Failed(Failure::AppBind),
    decreases events.len(),
{
    let step = route_transition(phase, events[0], debugging);
    let tail = events.drop_first();
    let rest = route_reports(step.next, tail, debugging);
    let all = route_reports(phase, events, debugging);
    if step.next == RoutePhase::Finished {
        law_nothing_after_finish(tail, debugging);
        assert(all =~= seq![step.report.unwrap()]);
    } else {
        law_ending_is_last_report(step.next, tail, debugging);
        if let Some(s) = step.report {
            assert(all == seq![s] + rest);
            assert(all.last() == rest.last());
        }
    }
}


/// Once a route is bound and until it finishes, it reports only `Stopped`
/// and failed sends; and over any run of events it reports `Stopped`
/// exactly when it finishes.
pub proof fn law_bound_route_reports(phase: RoutePhase, events: Seq<RouteEvent>, debugging: bool)
    requires
        phase != RoutePhase::Binding,
        phase != RoutePhase::Finished,
    ensures
        forall|i: int|
            0 <= i < route_reports(phase, events, debugging).len() ==> {
                ||| #[trigger] route_reports(phase, events, debugging)[i] == RouteStatus::Stopped
                ||| route_reports(phase, events, debugging)[i] == RouteStatus::Failed(Failure::AppSend)
            },
        route_reports(phase, events, debugging).contains(RouteStatus::Stopped)
            <==> route_final_phase(phase, events, debugging) == RoutePhase::Finished,
    decreases events.len(),
{
    if events.len() > 0 {
        let step = route_transition(phase, events[0], debugging);
        let tail = events.drop_first();
        let rest = route_reports(step.next, tail, debugging);
        let all = route_reports(phase, events, debugging);
        if step.next == RoutePhase::Finished {
            law_nothing_after_finish(tail, debugging);
            assert(step.report == Some(RouteStatus::Stopped));
            assert(all =~= seq![RouteStatus::Stopped]);
            assert(all[0] == RouteStatus::Stopped);
        } else {
            law_bound_route_reports(step.next, tail, debugging);
            match step.report {
                Some(s) => {
                    assert(s == RouteStatus::Failed(Failure::AppSend));
                    assert(all == seq![s] + rest);
                    assert forall|i: int| 0 <= i < all.len() implies {
                        ||| #[trigger] all[i] == RouteStatus::Stopped
                        ||| all[i] == RouteStatus::Failed(Failure::AppSend)
                    } by {
                        if i > 0 {
                            assert(all[i] == rest[i - 1]);
                        }
                    }
                    if rest.contains(RouteStatus::Stopped) {
                        let k = choose|k: int| 0 <= k < rest.len() && rest[k] == RouteStatus::Stopped;
                        assert(all[k + 1] == RouteStatus::Stopped);
                    }
                    if all.contains(RouteStatus::Stopped) {
                        let k = choose|k: int| 0 <= k < all.len() && all[k] == RouteStatus::Stopped;
                        assert(k > 0);
                        assert(rest[k - 1] == RouteStatus::Stopped);
                    }
                },
                None => {},
            }
        }
    }
}


/// A bound route that finds no shutdown signal goes on to take a buffer.
pub proof fn law_no_signal_takes_buffer(signal: bool, debugging: bool)
    ensures
        route_transition(RoutePhase::AwaitingControl, RouteEvent::NoControl, debugging)
            == (RouteStep { next: RoutePhase::AwaitingBuffer, report: None, emit_debug: false }),
        !signal ==> route_transition(RoutePhase::AwaitingControl, RouteEvent::Control(signal), debugging)
            == (RouteStep { next: RoutePhase::AwaitingBuffer, report: None, emit_debug: false }),
{
}

/// When no buffer is waiting, or buffers were lost, the route goes back to
/// look for a shutdown signal, silently, whether or not a debug view
/// listens.
pub proof fn law_idle_route_looks_for_shutdown(debugging: bool)
    ensures
        route_transition(RoutePhase::AwaitingBuffer, RouteEvent::Empty, debugging)
            == (RouteStep { next: RoutePhase::AwaitingControl, report: None, emit_debug: false }),
        route_transition(RoutePhase::AwaitingBuffer, RouteEvent::Lagged, debugging)
            == (RouteStep { next: RoutePhase::AwaitingControl, report: None, emit_debug: false }),
{
}

/// A received buffer is sent next; once sent, the route looks for a
/// shutdown signal again.
pub proof fn law_received_buffer_is_sent(debugging: bool)
    ensures
        route_transition(RoutePhase::AwaitingBuffer, RouteEvent::Received, debugging)
            == (RouteStep { next: RoutePhase::AwaitingSend, report: None, emit_debug: false }),
        route_transition(RoutePhase::AwaitingSend, RouteEvent::Sent, debugging)
            == (RouteStep { next: RoutePhase::AwaitingControl, report: None, emit_debug: debugging }),
{
}

/// Binding decides between running and giving up with the bind failure.
pub proof fn law_bind_outcomes(debugging: bool)
    ensures
        route_transition(RoutePhase::Binding, RouteEvent::Bound, debugging)
            == (RouteStep { next: RoutePhase::AwaitingControl, report: Some(RouteStatus::Running), emit_debug: false }),
        route_transition(RoutePhase::Binding, RouteEvent::BindFailed, debugging)
            == (RouteStep {
                next: RoutePhase::Finished,
                report: Some(RouteStatus::Failed(Failure::AppBind)),
                emit_debug: false,
            }),
{
}

/// Over any run of events, a route that never meets a shutdown signal,
/// the end of the buffer channel or a failed bind never finishes.
pub proof fn law_route_ends_only_for_a_reason(phase: RoutePhase, events: Seq<RouteEvent>, debugging: bool)
    requires
        phase != RoutePhase::Finished,
        forall|i: int| 0 <= i < events.len() ==> {
            &&& #[trigger] events[i] != RouteEvent::Control(true)
            &&& events[i] != RouteEvent::Closed
            &&& events[i] != RouteEvent::BindFailed
        },
    ensures
        route_final_phase(phase, events, debugging) != RoutePhase::Finished,
    decreases events.len(),
{
    if events.len() > 0 {
        let step = route_transition(phase, events[0], debugging);
        assert(events[0] != RouteEvent::Control(true));
        assert(step.next != RoutePhase::Finished);
        let tail = events.drop_first();
        assert forall|i: int| 0 <= i < tail.len() implies {
            &&& #[trigger] tail[i] != RouteEvent::Control(true)
            &&& tail[i] != RouteEvent::Closed
            &&& tail[i] != RouteEvent::BindFailed
        } by {
            assert(tail[i] == events[i + 1]);
        }
        law_route_ends_only_for_a_reason(step.next, tail, debugging);
    }
}


/// An event that a phase does not wait for changes nothing and asks for
/// nothing.
pub proof fn law_foreign_events_change_nothing(phase: RoutePhase, event: RouteEvent, debugging: bool)
    requires
        phase == RoutePhase::Binding ==> !(event is Bound || event is BindFailed),
        phase == RoutePhase::AwaitingControl ==> !(event is Control || event is NoControl),
        phase == RoutePhase::AwaitingBuffer ==> !(event is Received || event is Empty || event is Lagged || event is Closed),
        phase == RoutePhase::AwaitingSend ==> !(event is Sent || event is SendFailed),
    ensures
        route_transition(phase, event, debugging) == (RouteStep { next: phase, report: None, emit_debug: false }),
{
}

} // verus!

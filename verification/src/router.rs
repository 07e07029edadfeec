//! The router's own decisions: what it does on a message from its owner.

use vstd::prelude::*;

verus! {

/// A message to the router from its owner.
pub enum RouterMsg {
    /// Shut down the receiving side, every route and the router.
    ShutdownAll,
}

/// One step of shutting the router down.
#[derive(PartialEq, Eq, Structural, Clone, Copy, Debug)]
pub enum ShutdownStep {
    /// Signal the receiving side to stop.
    StopReceiver,
    /// Signal the route of the given position to stop.
    StopRoute(usize),
    /// Abort the asynchronous task of the route of the given position.
    AbortTask(usize),
    /// Shut the asynchronous runtime down in the background.
    StopRuntime,
}

/// The shutdown steps for `route_count` routes: the receiving side first,
/// then each route in order; in asynchronous mode each route's task is
/// then aborted in order and the runtime stopped last.
pub open spec fn shutdown_plan(route_count: nat, async_mode: bool) -> Seq<ShutdownStep> {
    seq![ShutdownStep::StopReceiver]
        + Seq::new(route_count, |i: int| ShutdownStep::StopRoute(i as usize))
        + if async_mode {
            Seq::new(route_count, |i: int| ShutdownStep::AbortTask(i as usize)) + seq![ShutdownStep::StopRuntime]
        } else {
            Seq::empty()
        }
}

/// The steps the router takes on `msg`, with `route_count` routes running,
/// in asynchronous mode or not. After them the router itself returns.
pub fn handle_router_msg(msg: &RouterMsg, route_count: usize, async_mode: bool) -> (res: Vec<ShutdownStep>)
    ensures
        res@ == shutdown_plan(route_count as nat, async_mode),
{
    match msg {
        RouterMsg::ShutdownAll => {
            let mut steps: Vec<ShutdownStep> = Vec::new();
            steps.push(ShutdownStep::StopReceiver);
            let mut i: usize = 0;
            while i < route_count
                invariant
                    i <= route_count,
                    steps@ == seq![ShutdownStep::StopReceiver]
                        + Seq::new(i as nat, |k: int| ShutdownStep::StopRoute(k as usize)),
                decreases route_count - i,
            {
                steps.push(ShutdownStep::StopRoute(i));
                i = i + 1;
                assert(steps@ =~= seq![ShutdownStep::StopReceiver]
                    + Seq::new(i as nat, |k: int| ShutdownStep::StopRoute(k as usize)));
            }
            let ghost stops = steps@;
            if async_mode {
                let mut j: usize = 0;
                while j < route_count
                    invariant
                        j <= route_count,
                        steps@ == stops + Seq::new(j as nat, |k: int| ShutdownStep::AbortTask(k as usize)),
                    decreases route_count - j,
                {
                    steps.push(ShutdownStep::AbortTask(j));
                    j = j + 1;
                    assert(steps@ =~= stops + Seq::new(j as nat, |k: int| ShutdownStep::AbortTask(k as usize)));
                }
                steps.push(ShutdownStep::StopRuntime);
                assert(steps@ =~= shutdown_plan(route_count as nat, async_mode));
            } else {
                assert(steps@ =~= shutdown_plan(route_count as nat, async_mode));
            }
            steps
        },
    }
}

/// The receiving side is always told to stop first.
pub proof fn law_receiver_stops_first(route_count: nat, async_mode: bool)
    ensures
        shutdown_plan(route_count, async_mode)[0] == ShutdownStep::StopReceiver,
{
}

/// Every route is told to stop exactly once, before any task is aborted.
pub proof fn law_every_route_stopped_once(route_count: nat, async_mode: bool, r: nat)
    requires
        r < route_count,
        route_count <= usize::MAX,
    ensures
        shutdown_plan(route_count, async_mode)[r as int + 1] == ShutdownStep::StopRoute(r as usize),
        forall|i: int|
            0 <= i < shutdown_plan(route_count, async_mode).len()
            && #[trigger] shutdown_plan(route_count, async_mode)[i] == ShutdownStep::StopRoute(r as usize)
            ==> i == r + 1,
{
    let p = shutdown_plan(route_count, async_mode);
    assert forall|i: int|
        0 <= i < p.len() && #[trigger] p[i] == ShutdownStep::StopRoute(r as usize) implies i == r + 1 by {
        if 1 <= i < route_count + 1 {
            assert(p[i] == ShutdownStep::StopRoute((i - 1) as usize));
            assert(((i - 1) as usize) as int == i - 1);
        }
    }
}

/// In asynchronous mode the runtime is stopped last, after every task was
/// aborted; otherwise no task or runtime step is taken.
pub proof fn law_runtime_stops_last(route_count: nat, async_mode: bool)
    ensures
        async_mode ==> shutdown_plan(route_count, async_mode).len() == 2 * route_count + 2
            && shutdown_plan(route_count, async_mode).last() == ShutdownStep::StopRuntime,
        !async_mode ==> shutdown_plan(route_count, async_mode).len() == route_count + 1,
        forall|i: int|
            0 <= i < shutdown_plan(route_count, async_mode).len()
            && (#[trigger] shutdown_plan(route_count, async_mode)[i] is AbortTask
                || shutdown_plan(route_count, async_mode)[i] is StopRuntime)
            ==> async_mode && i > route_count,
{
}


/// In asynchronous mode the task of every route is aborted exactly once,
/// in the order of the routes, right after all routes were told to stop.
pub proof fn law_every_task_aborted_once(route_count: nat, r: nat)
    requires
        r < route_count,
        route_count <= usize::MAX,
    ensures
        shutdown_plan(route_count, true)[route_count as int + 1 + r] == ShutdownStep::AbortTask(r as usize),
        forall|i: int|
            0 <= i < shutdown_plan(route_count, true).len()
            && #[trigger] shutdown_plan(route_count, true)[i] == ShutdownStep::AbortTask(r as usize)
            ==> i == route_count + 1 + r,
{
    let p = shutdown_plan(route_count, true);
    assert(p[route_count as int + 1 + r] == ShutdownStep::AbortTask(r as usize));
    assert forall|i: int|
        0 <= i < p.len() && #[trigger] p[i] == ShutdownStep::AbortTask(r as usize) implies i == route_count + 1 + r by {
        if route_count + 1 <= i < 2 * route_count + 1 {
            assert(p[i] == ShutdownStep::AbortTask((i - route_count - 1) as usize));
            assert(((i - route_count - 1) as usize) as int == i - route_count - 1);
        }
    }
}

} // verus!

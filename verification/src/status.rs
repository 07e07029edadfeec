//! The status reports that routes and the router send to their owner.

use vstd::prelude::*;

verus! {

/// Why a route or the router gave up.
#[derive(PartialEq, Eq, Structural, Clone, Copy, Debug)]
pub enum Failure {
    /// The router could not bind its listening socket.
    RouterBind,
    /// A route could not bind the socket it sends from.
    AppBind,
    /// A route could not send a buffer to its application.
    AppSend,
}

/// The error code that a failure is reported under.
pub open spec fn failure_code(f: Failure) -> int {
    match f {
        Failure::RouterBind => -1,
        Failure::AppBind => -2,
        Failure::AppSend => -3,
    }
}

impl Failure {
    /// The error code of the failure: -1, -2 and -3 in the order of the
    /// variants.
    pub fn code(&self) -> (res: i64)
        ensures
            res == failure_code(*self),
    {
        match self {
            Failure::RouterBind => -1,
            Failure::AppBind => -2,
            Failure::AppSend => -3,
        }
    }
}

/// The state a route reports.
#[derive(PartialEq, Eq, Structural, Clone, Copy, Debug)]
pub enum RouteStatus {
    Running,
    Stopped,
    Failed(Failure),
}

/// A status report: the index of the route it concerns (-1 for the router
/// itself) and the status.
#[derive(PartialEq, Eq, Structural, Clone, Copy, Debug)]
pub struct StatusReport {
    pub index: i64,
    pub status: RouteStatus,
}

impl StatusReport {
    /// The report of a router that could not bind its listening socket.
    pub fn router_bind_failed() -> (res: StatusReport)
        ensures
            res.index == -1,
            res.status == RouteStatus::Failed(Failure::RouterBind),
    {
        StatusReport { index: -1, status: RouteStatus::Failed(Failure::RouterBind) }
    }
}


/// The error codes of the failures: -1 for the router's bind, -2 for a
/// route's bind, -3 for a failed send; all distinct.
pub proof fn law_failure_codes()
    ensures
        failure_code(Failure::RouterBind) == -1,
        failure_code(Failure::AppBind) == -2,
        failure_code(Failure::AppSend) == -3,
        forall|a: Failure, b: Failure| failure_code(a) == failure_code(b) ==> a == b,
{
}

} // verus!

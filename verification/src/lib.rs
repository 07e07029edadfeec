//! Packet routing between an OSC source and a set of OSC applications.
//!
//! The library holds the decisions of the router: which datagrams the
//! packet filter lets through and in what form, how an application route
//! and the receiving side react to each event, and in which order the
//! router shuts its workers down. Sockets, channels and threads are the
//! caller's.

pub mod osc;
pub mod filter;
pub mod status;
pub mod route;
pub mod receiver;
pub mod router;

pub use osc::OscDatagram;
pub use filter::{PacketFilter, FilterRules, Routing, IncomingDebug, Verdict};
pub use status::{Failure, RouteStatus, StatusReport};
pub use route::{AppRoute, RouteEvent, RouteOutput, RoutePhase};
pub use receiver::{Receiver, ReceiverEvent, ReceiverPhase};
pub use router::{RouterMsg, ShutdownStep, handle_router_msg};

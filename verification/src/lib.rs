//! A verified core for a client of a remote interactive-execution service:
//! message shapes, the result-aggregation policy and the event-driven
//! execution state machine, with the transport left to the caller.

pub mod client;

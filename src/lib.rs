//! Supervision of an external interpreter process whose output is relayed
//! to a front end as named events.
//!
//! The library holds the decisions: whether a resolved script can be
//! launched and in which directory, which argument vector the child gets, which event each
//! line or termination becomes, and when a stream stops being relayed.
//! Spawning the child, reading its pipes and delivering events are left to
//! the host program.
pub mod events;
pub mod launch;
pub mod session;

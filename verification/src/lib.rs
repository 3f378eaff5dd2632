//! Core logic of a UDP transport server's dispatch loop: stateless address
//! validation tokens, a connection table keyed by opaque connection
//! identifiers, packet demultiplexing decisions, bounded send bursts, and
//! reactor bookkeeping.

pub mod burst;
pub mod bytes;
pub mod conn;
pub mod dispatch;
pub mod reactor;
pub mod seed;
pub mod session;
pub mod table;
pub mod token;

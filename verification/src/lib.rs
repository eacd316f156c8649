//! Bridge engine between a link-layer network interface and TCP clients.
//!
//! The library holds the verified core: the length-prefixed frame codec,
//! the bounded fan-out channel that distributes ingress frames to every
//! subscriber, the per-client session state machines, and the serialized
//! egress path. The surrounding process (interface discovery, sockets,
//! task scheduling) drives these components from outside.

pub mod codec;
pub mod egress;
pub mod fanout;
pub mod interface;
pub mod session;

pub use codec::MAX_FRAME_SIZE;

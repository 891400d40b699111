//! Zcash node components: wire serialization helpers, an in-memory block
//! store, and the decision logic of the inbound peer-request service.

pub mod block;
pub mod bytes;
pub mod inbound;
pub mod serialization;
pub mod state;

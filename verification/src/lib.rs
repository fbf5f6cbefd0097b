//! Cooperative-cancellation primitives: a monotonic stop flag shared between
//! owning sources and read-only tokens, a FIFO queue whose blocking receive
//! can be woken early by a stop request, and the proofs that queued items are
//! delivered in order and never discarded by cancellation.

pub mod channel;
pub mod stop_source;
pub mod wait;

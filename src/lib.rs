//! Receive-side datagram dispatch: bounded two-half queues behind routing
//! identifiers, the handles that feed and drain them, and the buffers that decode
//! received bytes and route them.

pub mod buffer;
pub mod descriptor;
pub mod dispatch;
pub mod handle;
pub mod probe;
pub mod ring_deque;
pub mod stream;
pub mod varint;

//! A typed request/response RPC layer over a single raw bidirectional
//! message channel between two isolated execution contexts.
//!
//! The channel itself carries only opaque structured values and offers no
//! correlation, no backpressure and no call semantics; this crate supplies
//! the wire envelope, the correlation-id protocol that lets many concurrent
//! calls share the one channel, the typed encode/decode contract for the
//! values that cross it (including ownership transfer of binary buffers),
//! and the startup handshake between the two sides.

pub mod arguments;
pub mod callee;
pub mod caller;
pub mod codec;
pub mod envelope;
pub mod value;

pub use arguments::Arguments;
pub use callee::Message;
pub use callee::OperationTable;
pub use callee::SpawnedWorker;
pub use caller::IdAllocator;
pub use caller::PendingCall;
pub use caller::PendingLoad;
pub use caller::Worker;
pub use caller::WorkerCall;
pub use codec::MessageReturn;
pub use codec::MessageSend;
pub use envelope::Envelope;
pub use envelope::Shape;
pub use value::ChannelValue;
pub use value::TransferList;

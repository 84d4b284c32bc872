//! Capture sessions on top of a video-capture engine: pixel-format tags,
//! capture formats, device descriptors, best-fit format negotiation and
//! the life cycle of an open capture channel.
//!
//! The engine itself is reached by the caller; every function here works on
//! the plain values the engine hands out and says what to hand back to it.

pub mod engine;

pub mod format;
pub use format::Format;

pub mod device;
pub use device::Device;

pub mod matching;

pub mod stream;
pub use stream::Stream;

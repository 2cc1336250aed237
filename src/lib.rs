//! Wire format, message stream and shared-buffer geometry of an inter-VM
//! GUI protocol.
//!
//! - [`castable`]: fixed-layout values and their byte images;
//! - [`protocol`]: message kinds, length limits and message bodies;
//! - [`transport`]: the byte channel the stream runs on;
//! - [`stream`]: the framed, backpressured message stream and its handshake;
//! - [`connection`]: typed endpoints on the stream;
//! - [`event`]: agent-side decoding of daemon messages;
//! - [`dimensions`]: framebuffer geometry and the window-dump message.
pub mod castable;
pub mod protocol;
pub mod transport;
pub mod stream;
pub mod connection;
pub mod dimensions;
pub mod event;

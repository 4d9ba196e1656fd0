//! Serial connections with a small, closed set of line settings.
//!
//! * `line` holds the settings and their native values, with the laws that
//!   make the mapping between the two safe to rely on.
//! * `connection` opens a terminal device, configures it, and reads and
//!   writes bytes; `tty` says how the failures of the terminal layer are
//!   named, and `sys` holds the calls into that layer.
//! * `dcb` is the device control block, with its native form, and
//!   `handshake` is the order of native calls for a host that configures a
//!   device through that block.
//! * `led` builds the frames that a strip of LEDs behind a serial port
//!   expects.

pub mod connection;
pub mod dcb;
pub mod error;
pub mod handshake;
pub mod led;
pub mod line;
pub mod tty;
mod sys;

pub use connection::Connection;
pub use error::Error;
pub use line::{BaudRate, ByteSize, Parity, Setting, StopBits};

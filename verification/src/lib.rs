//! Encode items that implement formatting traits like `Debug` and `Display`.
//!
//! An encoder turns one item into one line of text and appends that line to a
//! caller-owned `bytes::BytesMut`: the item's rendering in UTF-8, then a single
//! line feed. This might be useful for debugging streams. Note that there is
//! no corresponding decoder.
//!
//! A buffer that lacks room for a line is grown before the line is written,
//! so encoding fails only where rendering the item does, or where a buffer
//! without room is already too large to be grown.
//!
//! To encode an item that implements `Debug`:
//!
//! ```
//! use bytes::BytesMut;
//! use tokio_fmt_encoder::DebugEncoder;
//!
//! let mut buffer = BytesMut::default();
//! let mut encoder: DebugEncoder<Option<usize>> = Default::default();
//! encoder.encode(Some(10), &mut buffer).unwrap();
//! assert_eq!(&buffer[..], b"Some(10)\n");
//! ```
//!
//! To encode an item that implements `Display`:
//!
//! ```
//! use bytes::BytesMut;
//! use tokio_fmt_encoder::DisplayEncoder;
//!
//! let mut buffer = BytesMut::default();
//! let mut encoder: DisplayEncoder<String> = Default::default();
//! encoder.encode(String::from("hello"), &mut buffer).unwrap();
//! assert_eq!(&buffer[..], b"hello\n");
//! ```

pub mod buffer;
pub mod encoder;
pub mod error;
pub mod line;
mod render;

pub use encoder::{DebugEncoder, DisplayEncoder};
pub use error::Error;

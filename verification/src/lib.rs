//! Decoder for the GF ("generic font") raster font byte format.
//!
//! A GF file is a stream of one-byte opcodes, each followed by its operands:
//! paint commands that alternate between white and black runs on the current
//! scanline, row movements, character delimiters, out-of-band annotations,
//! a header carrying the font title and a trailer carrying font-wide metrics.
//! `gfreader` drives the whole decode; its contract ties the result to a
//! specification-level interpreter over the raw byte sequence.

pub mod context;
pub mod decode;
pub mod errors;
pub mod font;
pub mod reader;

pub use crate::decode::gfreader;
pub use crate::errors::GfError;
pub use crate::font::BlackLine;
pub use crate::font::CharData;
pub use crate::font::FontData;
pub use crate::font::Special;
pub use crate::reader::ByteReader;

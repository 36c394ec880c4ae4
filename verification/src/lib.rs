//! Parser for PostScript fonts: the compact font format and the number
//! encoding of type-2 char strings.
//!
//! The decoders work on a [`Tape`], a byte source with a reading position.
//! Every decoder comes with a specification function of the same shape, which
//! says for a sequence of bytes and a position what is decoded and where the
//! reading position ends up, or which error is reported.

pub mod compact1;
pub mod error;
pub mod parsing;
pub mod tape;
pub mod text;
pub mod type2;

pub use crate::error::Error;
pub use crate::tape::Tape;

//! The compact font format.

use vstd::prelude::*;

pub mod char_set;
pub mod decimal;
pub mod encoding;
pub mod font_set;
pub mod header;
pub mod index;
pub mod number;
pub mod offset;
pub mod operation;
pub mod operator;
pub mod predefined;

pub use self::char_set::CharSet;
pub use self::encoding::Encoding;
pub use self::font_set::{FontSet, Record};
pub use self::header::Header;
pub use self::number::Number;
pub use self::offset::{Offset, OffsetSize};
pub use self::operation::{Operation, Operations};
pub use self::operator::Operator;

verus! {

/// A glyph identifier.
pub type GlyphID = u16;

/// A string identifier.
pub type StringID = u16;

} // verus!

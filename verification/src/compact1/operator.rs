//! The operators of the dictionaries.

use vstd::prelude::*;

verus! {

/// An operator of a dictionary.
#[derive(Clone, Copy, Debug, PartialEq, Eq, Structural, Hash)]
pub enum Operator {
    /// Version.
    Version,
    /// Notice.
    Notice,
    /// Full name.
    FullName,
    /// Family name.
    FamilyName,
    /// Weight.
    Weight,
    /// Bounding box.
    FontBBox,
    /// Alignment zones.
    BlueValues,
    /// Further alignment zones.
    OtherBlues,
    /// Alignment zones of the family.
    FamilyBlues,
    /// Further alignment zones of the family.
    FamilyOtherBlues,
    /// Dominant horizontal stem width.
    StdHW,
    /// Dominant vertical stem width.
    StdVW,
    /// Unique identifier.
    UniqueID,
    /// Extended unique identifier.
    XUID,
    /// Offset of the char set, or the number of a predefined one.
    CharSet,
    /// Offset of the encoding, or the number of a predefined one.
    Encoding,
    /// Offset of the char strings.
    CharStrings,
    /// Size and offset of the private dictionary.
    Private,
    /// Offset of the local subroutines, from the private dictionary.
    Subrs,
    /// Default glyph width.
    DefaultWidthX,
    /// Nominal glyph width.
    NominalWidthX,
    /// Copyright.
    Copyright,
    /// Whether the font is monospaced.
    IsFixedPitch,
    /// Italic angle.
    ItalicAngle,
    /// Underline position.
    UnderlinePosition,
    /// Underline thickness.
    UnderlineThickness,
    /// Paint type.
    PaintType,
    /// Format of the char strings.
    CharStringType,
    /// Font matrix.
    FontMatrix,
    /// Stroke width.
    StrokeWidth,
    /// Point size at which overshoot suppression ends.
    BlueScale,
    /// Overshoot below which suppression applies.
    BlueShift,
    /// Extension of the alignment zones.
    BlueFuzz,
    /// Horizontal stem widths.
    StemSnapH,
    /// Vertical stem widths.
    StemSnapV,
    /// Whether bold is forced.
    ForceBold,
    /// Language group.
    LanguageGroup,
    /// Expansion factor.
    ExpansionFactor,
    /// Initial random seed.
    InitialRandomSeed,
    /// Index of the base font of a synthetic font.
    SyntheticBase,
    /// Embedded PostScript code.
    PostScript,
    /// Name of the base font of a multiple master.
    BaseFontName,
    /// Blend of the base font of a multiple master.
    BaseFontBlend,
    /// Registry, ordering and supplement of a font keyed by character identifiers.
    ROS,
    /// Version of such a font.
    CIDFontVersion,
    /// Revision of such a font.
    CIDFontRevision,
    /// Type of such a font.
    CIDFontType,
    /// Number of character identifiers.
    CIDCount,
    /// Base of the unique identifiers.
    UIDBase,
    /// Offset of the font dictionaries.
    FDArray,
    /// Offset of the font-dictionary selection.
    FDSelect,
    /// Name of a font dictionary.
    FontName,
}

/// The code under which two-byte operators start: the escape byte, 12, as the
/// high byte.
pub const ESCAPE: u16 = 3072;

impl Operator {
    /// The operator with the code, if there is one. A one-byte operator has
    /// its byte as the code; a two-byte operator has the escape byte as the
    /// high byte and its second byte as the low byte.
    pub open spec fn of(code: u16) -> Option<Operator> {
        match code {
            0 => Some(Operator::Version),
            1 => Some(Operator::Notice),
            2 => Some(Operator::FullName),
            3 => Some(Operator::FamilyName),
            4 => Some(Operator::Weight),
            5 => Some(Operator::FontBBox),
            6 => Some(Operator::BlueValues),
            7 => Some(Operator::OtherBlues),
            8 => Some(Operator::FamilyBlues),
            9 => Some(Operator::FamilyOtherBlues),
            10 => Some(Operator::StdHW),
            11 => Some(Operator::StdVW),
            13 => Some(Operator::UniqueID),
            14 => Some(Operator::XUID),
            15 => Some(Operator::CharSet),
            16 => Some(Operator::Encoding),
            17 => Some(Operator::CharStrings),
            18 => Some(Operator::Private),
            19 => Some(Operator::Subrs),
            20 => Some(Operator::DefaultWidthX),
            21 => Some(Operator::NominalWidthX),
            3072 => Some(Operator::Copyright),
            3073 => Some(Operator::IsFixedPitch),
            3074 => Some(Operator::ItalicAngle),
            3075 => Some(Operator::UnderlinePosition),
            3076 => Some(Operator::UnderlineThickness),
            3077 => Some(Operator::PaintType),
            3078 => Some(Operator::CharStringType),
            3079 => Some(Operator::FontMatrix),
            3080 => Some(Operator::StrokeWidth),
            3081 => Some(Operator::BlueScale),
            3082 => Some(Operator::BlueShift),
            3083 => Some(Operator::BlueFuzz),
            3084 => Some(Operator::StemSnapH),
            3085 => Some(Operator::StemSnapV),
            3086 => Some(Operator::ForceBold),
            3089 => Some(Operator::LanguageGroup),
            3090 => Some(Operator::ExpansionFactor),
            3091 => Some(Operator::InitialRandomSeed),
            3092 => Some(Operator::SyntheticBase),
            3093 => Some(Operator::PostScript),
            3094 => Some(Operator::BaseFontName),
            3095 => Some(Operator::BaseFontBlend),
            3102 => Some(Operator::ROS),
            3103 => Some(Operator::CIDFontVersion),
            3104 => Some(Operator::CIDFontRevision),
            3105 => Some(Operator::CIDFontType),
            3106 => Some(Operator::CIDCount),
            3107 => Some(Operator::UIDBase),
            3108 => Some(Operator::FDArray),
            3109 => Some(Operator::FDSelect),
            3110 => Some(Operator::FontName),
            _ => None,
        }
    }

    /// The code of the operator.
    pub open spec fn code_of(self) -> u16 {
        match self {
            Operator::Version => 0,
            Operator::Notice => 1,
            Operator::FullName => 2,
            Operator::FamilyName => 3,
            Operator::Weight => 4,
            Operator::FontBBox => 5,
            Operator::BlueValues => 6,
            Operator::OtherBlues => 7,
            Operator::FamilyBlues => 8,
            Operator::FamilyOtherBlues => 9,
            Operator::StdHW => 10,
            Operator::StdVW => 11,
            Operator::UniqueID => 13,
            Operator::XUID => 14,
            Operator::CharSet => 15,
            Operator::Encoding => 16,
            Operator::CharStrings => 17,
            Operator::Private => 18,
            Operator::Subrs => 19,
            Operator::DefaultWidthX => 20,
            Operator::NominalWidthX => 21,
            Operator::Copyright => 3072,
            Operator::IsFixedPitch => 3073,
            Operator::ItalicAngle => 3074,
            Operator::UnderlinePosition => 3075,
            Operator::UnderlineThickness => 3076,
            Operator::PaintType => 3077,
            Operator::CharStringType => 3078,
            Operator::FontMatrix => 3079,
            Operator::StrokeWidth => 3080,
            Operator::BlueScale => 3081,
            Operator::BlueShift => 3082,
            Operator::BlueFuzz => 3083,
            Operator::StemSnapH => 3084,
            Operator::StemSnapV => 3085,
            Operator::ForceBold => 3086,
            Operator::LanguageGroup => 3089,
            Operator::ExpansionFactor => 3090,
            Operator::InitialRandomSeed => 3091,
            Operator::SyntheticBase => 3092,
            Operator::PostScript => 3093,
            Operator::BaseFontName => 3094,
            Operator::BaseFontBlend => 3095,
            Operator::ROS => 3102,
            Operator::CIDFontVersion => 3103,
            Operator::CIDFontRevision => 3104,
            Operator::CIDFontType => 3105,
            Operator::CIDCount => 3106,
            Operator::UIDBase => 3107,
            Operator::FDArray => 3108,
            Operator::FDSelect => 3109,
            Operator::FontName => 3110,
        }
    }

    /// Return the operator with the code, if there is one.
    pub fn get(code: u16) -> (operator: Option<Operator>)
        ensures
            operator == Operator::of(code),
    {
        match code {
            0 => Some(Operator::Version),
            1 => Some(Operator::Notice),
            2 => Some(Operator::FullName),
            3 => Some(Operator::FamilyName),
            4 => Some(Operator::Weight),
            5 => Some(Operator::FontBBox),
            6 => Some(Operator::BlueValues),
            7 => Some(Operator::OtherBlues),
            8 => Some(Operator::FamilyBlues),
            9 => Some(Operator::FamilyOtherBlues),
            10 => Some(Operator::StdHW),
            11 => Some(Operator::StdVW),
            13 => Some(Operator::UniqueID),
            14 => Some(Operator::XUID),
            15 => Some(Operator::CharSet),
            16 => Some(Operator::Encoding),
            17 => Some(Operator::CharStrings),
            18 => Some(Operator::Private),
            19 => Some(Operator::Subrs),
            20 => Some(Operator::DefaultWidthX),
            21 => Some(Operator::NominalWidthX),
            3072 => Some(Operator::Copyright),
            3073 => Some(Operator::IsFixedPitch),
            3074 => Some(Operator::ItalicAngle),
            3075 => Some(Operator::UnderlinePosition),
            3076 => Some(Operator::UnderlineThickness),
            3077 => Some(Operator::PaintType),
            3078 => Some(Operator::CharStringType),
            3079 => Some(Operator::FontMatrix),
            3080 => Some(Operator::StrokeWidth),
            3081 => Some(Operator::BlueScale),
            3082 => Some(Operator::BlueShift),
            3083 => Some(Operator::BlueFuzz),
            3084 => Some(Operator::StemSnapH),
            3085 => Some(Operator::StemSnapV),
            3086 => Some(Operator::ForceBold),
            3089 => Some(Operator::LanguageGroup),
            3090 => Some(Operator::ExpansionFactor),
            3091 => Some(Operator::InitialRandomSeed),
            3092 => Some(Operator::SyntheticBase),
            3093 => Some(Operator::PostScript),
            3094 => Some(Operator::BaseFontName),
            3095 => Some(Operator::BaseFontBlend),
            3102 => Some(Operator::ROS),
            3103 => Some(Operator::CIDFontVersion),
            3104 => Some(Operator::CIDFontRevision),
            3105 => Some(Operator::CIDFontType),
            3106 => Some(Operator::CIDCount),
            3107 => Some(Operator::UIDBase),
            3108 => Some(Operator::FDArray),
            3109 => Some(Operator::FDSelect),
            3110 => Some(Operator::FontName),
            _ => None,
        }
    }

    /// Return the code of the operator.
    pub fn code(self) -> (code: u16)
        ensures
            code == self.code_of(),
    {
        match self {
            Operator::Version => 0,
            Operator::Notice => 1,
            Operator::FullName => 2,
            Operator::FamilyName => 3,
            Operator::Weight => 4,
            Operator::FontBBox => 5,
            Operator::BlueValues => 6,
            Operator::OtherBlues => 7,
            Operator::FamilyBlues => 8,
            Operator::FamilyOtherBlues => 9,
            Operator::StdHW => 10,
            Operator::StdVW => 11,
            Operator::UniqueID => 13,
            Operator::XUID => 14,
            Operator::CharSet => 15,
            Operator::Encoding => 16,
            Operator::CharStrings => 17,
            Operator::Private => 18,
            Operator::Subrs => 19,
            Operator::DefaultWidthX => 20,
            Operator::NominalWidthX => 21,
            Operator::Copyright => 3072,
            Operator::IsFixedPitch => 3073,
            Operator::ItalicAngle => 3074,
            Operator::UnderlinePosition => 3075,
            Operator::UnderlineThickness => 3076,
            Operator::PaintType => 3077,
            Operator::CharStringType => 3078,
            Operator::FontMatrix => 3079,
            Operator::StrokeWidth => 3080,
            Operator::BlueScale => 3081,
            Operator::BlueShift => 3082,
            Operator::BlueFuzz => 3083,
            Operator::StemSnapH => 3084,
            Operator::StemSnapV => 3085,
            Operator::ForceBold => 3086,
            Operator::LanguageGroup => 3089,
            Operator::ExpansionFactor => 3090,
            Operator::InitialRandomSeed => 3091,
            Operator::SyntheticBase => 3092,
            Operator::PostScript => 3093,
            Operator::BaseFontName => 3094,
            Operator::BaseFontBlend => 3095,
            Operator::ROS => 3102,
            Operator::CIDFontVersion => 3103,
            Operator::CIDFontRevision => 3104,
            Operator::CIDFontType => 3105,
            Operator::CIDCount => 3106,
            Operator::UIDBase => 3107,
            Operator::FDArray => 3108,
            Operator::FDSelect => 3109,
            Operator::FontName => 3110,
        }
    }

    /// Each operator is the one that is found under its code.
    pub proof fn lemma_code_round_trip(self)
        ensures
            Operator::of(self.code_of()) == Some(self),
    {
    }
}

} // verus!

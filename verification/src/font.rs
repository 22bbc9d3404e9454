//! Fonts: the typed descriptor, the native logical-font record, and the
//! lossless conversion between them.

use vstd::prelude::*;
use crate::utf16::spec_encode;
use crate::utf16::spec_encode_char;
use crate::utf16::spec_valid;
use crate::utf16::spec_decode;
use crate::utf16::encode_utf16_str;
use crate::utf16::decode_utf16_string;
use crate::utf16::lemma_utf16_roundtrip;

verus! {

/// Font weight.
#[derive(Clone, Copy, Debug, PartialEq, Eq, Structural, Hash)]
pub enum Weight {
    /// No preference.
    Dontcare,
    /// Thin.
    Thin,
    /// Extra light.
    Extralight,
    /// Light.
    Light,
    /// Normal.
    Normal,
    /// Medium.
    Medium,
    /// Semi bold.
    Semibold,
    /// Bold.
    Bold,
    /// Extra bold.
    Extrabold,
    /// Black.
    Black,
}

impl Weight {
    /// The native code of the weight.
    pub open spec fn spec_code(self) -> i32 {
        match self {
            Weight::Dontcare => 0,
            Weight::Thin => 100,
            Weight::Extralight => 200,
            Weight::Light => 300,
            Weight::Normal => 400,
            Weight::Medium => 500,
            Weight::Semibold => 600,
            Weight::Bold => 700,
            Weight::Extrabold => 800,
            Weight::Black => 900,
        }
    }

    /// The value a native code decodes to.
    pub open spec fn spec_from_code(value: i32) -> Option<Weight> {
        if value == 0 {
            Some(Weight::Dontcare)
        } else if value == 100 {
            Some(Weight::Thin)
        } else if value == 200 {
            Some(Weight::Extralight)
        } else if value == 300 {
            Some(Weight::Light)
        } else if value == 400 {
            Some(Weight::Normal)
        } else if value == 500 {
            Some(Weight::Medium)
        } else if value == 600 {
            Some(Weight::Semibold)
        } else if value == 700 {
            Some(Weight::Bold)
        } else if value == 800 {
            Some(Weight::Extrabold)
        } else if value == 900 {
            Some(Weight::Black)
        } else {
            None
        }
    }

    /// The native code of the weight.
    pub fn code(self) -> (r: i32)
        ensures
            r == self.spec_code(),
    {
        match self {
            Weight::Dontcare => 0,
            Weight::Thin => 100,
            Weight::Extralight => 200,
            Weight::Light => 300,
            Weight::Normal => 400,
            Weight::Medium => 500,
            Weight::Semibold => 600,
            Weight::Bold => 700,
            Weight::Extrabold => 800,
            Weight::Black => 900,
        }
    }

    /// Decode a native code.
    pub fn from_code(value: i32) -> (r: Option<Weight>)
        ensures
            r == Weight::spec_from_code(value),
    {
        if value == 0 {
            Some(Weight::Dontcare)
        } else if value == 100 {
            Some(Weight::Thin)
        } else if value == 200 {
            Some(Weight::Extralight)
        } else if value == 300 {
            Some(Weight::Light)
        } else if value == 400 {
            Some(Weight::Normal)
        } else if value == 500 {
            Some(Weight::Medium)
        } else if value == 600 {
            Some(Weight::Semibold)
        } else if value == 700 {
            Some(Weight::Bold)
        } else if value == 800 {
            Some(Weight::Extrabold)
        } else if value == 900 {
            Some(Weight::Black)
        } else {
            None
        }
    }
}

impl Default for Weight {
    fn default() -> (r: Self)
        ensures
            r == Weight::Normal,
    {
        Weight::Normal
    }
}

/// Decoding the code of any value yields the value again.
pub proof fn lemma_weight_code_roundtrip(x: Weight)
    ensures
        Weight::spec_from_code(x.spec_code()) == Some(x),
        x.spec_code() <= 900,
{
}
/// Character set of a font.
#[derive(Clone, Copy, Debug, PartialEq, Eq, Structural, Hash)]
pub enum CharSet {
    /// ANSI.
    Ansi,
    /// Baltic.
    Baltic,
    /// Traditional Chinese, Big5.
    ChineseBig5,
    /// The system default.
    Default,
    /// Eastern European.
    EastEurope,
    /// Simplified Chinese, GB 2312.
    GB2312,
    /// Greek.
    Greek,
    /// Korean, Hangul.
    Hangul,
    /// Macintosh.
    Mac,
    /// OEM-dependent.
    OEM,
    /// Cyrillic.
    Russian,
    /// Japanese, Shift-JIS.
    ShiftJis,
    /// Symbol.
    Symbol,
    /// Turkish.
    Turkish,
}

impl CharSet {
    /// The native code of the character set.
    pub open spec fn spec_code(self) -> u32 {
        match self {
            CharSet::Ansi => 0,
            CharSet::Baltic => 186,
            CharSet::ChineseBig5 => 136,
            CharSet::Default => 1,
            CharSet::EastEurope => 238,
            CharSet::GB2312 => 134,
            CharSet::Greek => 161,
            CharSet::Hangul => 129,
            CharSet::Mac => 77,
            CharSet::OEM => 255,
            CharSet::Russian => 204,
            CharSet::ShiftJis => 128,
            CharSet::Symbol => 2,
            CharSet::Turkish => 162,
        }
    }

    /// The value a native code decodes to.
    pub open spec fn spec_from_code(value: u32) -> Option<CharSet> {
        if value == 0 {
            Some(CharSet::Ansi)
        } else if value == 186 {
            Some(CharSet::Baltic)
        } else if value == 136 {
            Some(CharSet::ChineseBig5)
        } else if value == 1 {
            Some(CharSet::Default)
        } else if value == 238 {
            Some(CharSet::EastEurope)
        } else if value == 134 {
            Some(CharSet::GB2312)
        } else if value == 161 {
            Some(CharSet::Greek)
        } else if value == 129 {
            Some(CharSet::Hangul)
        } else if value == 77 {
            Some(CharSet::Mac)
        } else if value == 255 {
            Some(CharSet::OEM)
        } else if value == 204 {
            Some(CharSet::Russian)
        } else if value == 128 {
            Some(CharSet::ShiftJis)
        } else if value == 2 {
            Some(CharSet::Symbol)
        } else if value == 162 {
            Some(CharSet::Turkish)
        } else {
            None
        }
    }

    /// The native code of the character set.
    pub fn code(self) -> (r: u32)
        ensures
            r == self.spec_code(),
    {
        match self {
            CharSet::Ansi => 0,
            CharSet::Baltic => 186,
            CharSet::ChineseBig5 => 136,
            CharSet::Default => 1,
            CharSet::EastEurope => 238,
            CharSet::GB2312 => 134,
            CharSet::Greek => 161,
            CharSet::Hangul => 129,
            CharSet::Mac => 77,
            CharSet::OEM => 255,
            CharSet::Russian => 204,
            CharSet::ShiftJis => 128,
            CharSet::Symbol => 2,
            CharSet::Turkish => 162,
        }
    }

    /// Decode a native code.
    pub fn from_code(value: u32) -> (r: Option<CharSet>)
        ensures
            r == CharSet::spec_from_code(value),
    {
        if value == 0 {
            Some(CharSet::Ansi)
        } else if value == 186 {
            Some(CharSet::Baltic)
        } else if value == 136 {
            Some(CharSet::ChineseBig5)
        } else if value == 1 {
            Some(CharSet::Default)
        } else if value == 238 {
            Some(CharSet::EastEurope)
        } else if value == 134 {
            Some(CharSet::GB2312)
        } else if value == 161 {
            Some(CharSet::Greek)
        } else if value == 129 {
            Some(CharSet::Hangul)
        } else if value == 77 {
            Some(CharSet::Mac)
        } else if value == 255 {
            Some(CharSet::OEM)
        } else if value == 204 {
            Some(CharSet::Russian)
        } else if value == 128 {
            Some(CharSet::ShiftJis)
        } else if value == 2 {
            Some(CharSet::Symbol)
        } else if value == 162 {
            Some(CharSet::Turkish)
        } else {
            None
        }
    }
}

impl Default for CharSet {
    fn default() -> (r: Self)
        ensures
            r == CharSet::Default,
    {
        CharSet::Default
    }
}

/// Decoding the code of any value yields the value again.
pub proof fn lemma_charset_code_roundtrip(x: CharSet)
    ensures
        CharSet::spec_from_code(x.spec_code()) == Some(x),
        x.spec_code() <= 255,
{
}
/// Output precision of a font.
#[derive(Clone, Copy, Debug, PartialEq, Eq, Structural, Hash)]
pub enum OutPrecision {
    /// The default precision.
    Default,
    /// Device precision.
    Device,
    /// Outline precision.
    Outline,
    /// Raster precision.
    Raster,
    /// String precision.
    String,
    /// Stroke precision.
    Stroke,
    /// TrueType fonts only.
    TureTypeOnly,
    /// TrueType precision.
    TureType,
}

impl OutPrecision {
    /// The native code of the precision.
    pub open spec fn spec_code(self) -> u32 {
        match self {
            OutPrecision::Default => 0,
            OutPrecision::Device => 5,
            OutPrecision::Outline => 8,
            OutPrecision::Raster => 6,
            OutPrecision::String => 1,
            OutPrecision::Stroke => 3,
            OutPrecision::TureTypeOnly => 7,
            OutPrecision::TureType => 4,
        }
    }

    /// The value a native code decodes to.
    pub open spec fn spec_from_code(value: u32) -> Option<OutPrecision> {
        if value == 0 {
            Some(OutPrecision::Default)
        } else if value == 5 {
            Some(OutPrecision::Device)
        } else if value == 8 {
            Some(OutPrecision::Outline)
        } else if value == 6 {
            Some(OutPrecision::Raster)
        } else if value == 1 {
            Some(OutPrecision::String)
        } else if value == 3 {
            Some(OutPrecision::Stroke)
        } else if value == 7 {
            Some(OutPrecision::TureTypeOnly)
        } else if value == 4 {
            Some(OutPrecision::TureType)
        } else {
            None
        }
    }

    /// The native code of the precision.
    pub fn code(self) -> (r: u32)
        ensures
            r == self.spec_code(),
    {
        match self {
            OutPrecision::Default => 0,
            OutPrecision::Device => 5,
            OutPrecision::Outline => 8,
            OutPrecision::Raster => 6,
            OutPrecision::String => 1,
            OutPrecision::Stroke => 3,
            OutPrecision::TureTypeOnly => 7,
            OutPrecision::TureType => 4,
        }
    }

    /// Decode a native code.
    pub fn from_code(value: u32) -> (r: Option<OutPrecision>)
        ensures
            r == OutPrecision::spec_from_code(value),
    {
        if value == 0 {
            Some(OutPrecision::Default)
        } else if value == 5 {
            Some(OutPrecision::Device)
        } else if value == 8 {
            Some(OutPrecision::Outline)
        } else if value == 6 {
            Some(OutPrecision::Raster)
        } else if value == 1 {
            Some(OutPrecision::String)
        } else if value == 3 {
            Some(OutPrecision::Stroke)
        } else if value == 7 {
            Some(OutPrecision::TureTypeOnly)
        } else if value == 4 {
            Some(OutPrecision::TureType)
        } else {
            None
        }
    }
}

impl Default for OutPrecision {
    fn default() -> (r: Self)
        ensures
            r == OutPrecision::Default,
    {
        OutPrecision::Default
    }
}

/// Decoding the code of any value yields the value again.
pub proof fn lemma_outprecision_code_roundtrip(x: OutPrecision)
    ensures
        OutPrecision::spec_from_code(x.spec_code()) == Some(x),
        x.spec_code() <= 8,
{
}
/// Clipping precision of a font.
#[derive(Clone, Copy, Debug, PartialEq, Eq, Structural, Hash)]
pub enum ClipPrecision {
    /// The default clipping precision.
    DefaultPrecis,
    /// Stroke clipping.
    StrokePrecis,
    /// Embedded fonts must be used.
    Embedded,
    /// Left-handed angle rotation.
    LhAngles,
}

impl ClipPrecision {
    /// The native code of the clipping precision.
    pub open spec fn spec_code(self) -> u32 {
        match self {
            ClipPrecision::DefaultPrecis => 0,
            ClipPrecision::StrokePrecis => 2,
            ClipPrecision::Embedded => 128,
            ClipPrecision::LhAngles => 16,
        }
    }

    /// The value a native code decodes to.
    pub open spec fn spec_from_code(value: u32) -> Option<ClipPrecision> {
        if value == 0 {
            Some(ClipPrecision::DefaultPrecis)
        } else if value == 2 {
            Some(ClipPrecision::StrokePrecis)
        } else if value == 128 {
            Some(ClipPrecision::Embedded)
        } else if value == 16 {
            Some(ClipPrecision::LhAngles)
        } else {
            None
        }
    }

    /// The native code of the clipping precision.
    pub fn code(self) -> (r: u32)
        ensures
            r == self.spec_code(),
    {
        match self {
            ClipPrecision::DefaultPrecis => 0,
            ClipPrecision::StrokePrecis => 2,
            ClipPrecision::Embedded => 128,
            ClipPrecision::LhAngles => 16,
        }
    }

    /// Decode a native code.
    pub fn from_code(value: u32) -> (r: Option<ClipPrecision>)
        ensures
            r == ClipPrecision::spec_from_code(value),
    {
        if value == 0 {
            Some(ClipPrecision::DefaultPrecis)
        } else if value == 2 {
            Some(ClipPrecision::StrokePrecis)
        } else if value == 128 {
            Some(ClipPrecision::Embedded)
        } else if value == 16 {
            Some(ClipPrecision::LhAngles)
        } else {
            None
        }
    }
}

impl Default for ClipPrecision {
    fn default() -> (r: Self)
        ensures
            r == ClipPrecision::DefaultPrecis,
    {
        ClipPrecision::DefaultPrecis
    }
}

/// Decoding the code of any value yields the value again.
pub proof fn lemma_clipprecision_code_roundtrip(x: ClipPrecision)
    ensures
        ClipPrecision::spec_from_code(x.spec_code()) == Some(x),
        x.spec_code() <= 128,
{
}
/// Output quality of a font.
#[derive(Clone, Copy, Debug, PartialEq, Eq, Structural, Hash)]
pub enum Quality {
    /// Antialiased rendering.
    Antialiased,
    /// The default quality.
    Default,
    /// Draft quality.
    Draft,
    /// No antialiasing.
    NonAntialiased,
    /// Character quality over performance.
    Proof,
}

impl Quality {
    /// The native code of the quality.
    pub open spec fn spec_code(self) -> u32 {
        match self {
            Quality::Antialiased => 4,
            Quality::Default => 0,
            Quality::Draft => 1,
            Quality::NonAntialiased => 3,
            Quality::Proof => 2,
        }
    }

    /// The value a native code decodes to.
    pub open spec fn spec_from_code(value: u32) -> Option<Quality> {
        if value == 4 {
            Some(Quality::Antialiased)
        } else if value == 0 {
            Some(Quality::Default)
        } else if value == 1 {
            Some(Quality::Draft)
        } else if value == 3 {
            Some(Quality::NonAntialiased)
        } else if value == 2 {
            Some(Quality::Proof)
        } else {
            None
        }
    }

    /// The native code of the quality.
    pub fn code(self) -> (r: u32)
        ensures
            r == self.spec_code(),
    {
        match self {
            Quality::Antialiased => 4,
            Quality::Default => 0,
            Quality::Draft => 1,
            Quality::NonAntialiased => 3,
            Quality::Proof => 2,
        }
    }

    /// Decode a native code.
    pub fn from_code(value: u32) -> (r: Option<Quality>)
        ensures
            r == Quality::spec_from_code(value),
    {
        if value == 4 {
            Some(Quality::Antialiased)
        } else if value == 0 {
            Some(Quality::Default)
        } else if value == 1 {
            Some(Quality::Draft)
        } else if value == 3 {
            Some(Quality::NonAntialiased)
        } else if value == 2 {
            Some(Quality::Proof)
        } else {
            None
        }
    }
}

impl Default for Quality {
    fn default() -> (r: Self)
        ensures
            r == Quality::Default,
    {
        Quality::Default
    }
}

/// Decoding the code of any value yields the value again.
pub proof fn lemma_quality_code_roundtrip(x: Quality)
    ensures
        Quality::spec_from_code(x.spec_code()) == Some(x),
        x.spec_code() <= 4,
{
}
/// Pitch of a font.
#[derive(Clone, Copy, Debug, PartialEq, Eq, Structural, Hash)]
pub enum Pitch {
    /// The default pitch.
    Default,
    /// Fixed pitch.
    Fixed,
    /// Variable pitch.
    Variable,
}

impl Pitch {
    /// The native code of the pitch.
    pub open spec fn spec_code(self) -> u32 {
        match self {
            Pitch::Default => 0,
            Pitch::Fixed => 1,
            Pitch::Variable => 2,
        }
    }

    /// The value a native code decodes to.
    pub open spec fn spec_from_code(value: u32) -> Option<Pitch> {
        if value == 0 {
            Some(Pitch::Default)
        } else if value == 1 {
            Some(Pitch::Fixed)
        } else if value == 2 {
            Some(Pitch::Variable)
        } else {
            None
        }
    }

    /// The native code of the pitch.
    pub fn code(self) -> (r: u32)
        ensures
            r == self.spec_code(),
    {
        match self {
            Pitch::Default => 0,
            Pitch::Fixed => 1,
            Pitch::Variable => 2,
        }
    }

    /// Decode a native code.
    pub fn from_code(value: u32) -> (r: Option<Pitch>)
        ensures
            r == Pitch::spec_from_code(value),
    {
        if value == 0 {
            Some(Pitch::Default)
        } else if value == 1 {
            Some(Pitch::Fixed)
        } else if value == 2 {
            Some(Pitch::Variable)
        } else {
            None
        }
    }
}

impl Default for Pitch {
    fn default() -> (r: Self)
        ensures
            r == Pitch::Default,
    {
        Pitch::Default
    }
}

/// Decoding the code of any value yields the value again.
pub proof fn lemma_pitch_code_roundtrip(x: Pitch)
    ensures
        Pitch::spec_from_code(x.spec_code()) == Some(x),
        x.spec_code() <= 2,
{
}
/// Family of a font.
#[derive(Clone, Copy, Debug, PartialEq, Eq, Structural, Hash)]
pub enum FontFamily {
    /// Novelty fonts.
    Decorative,
    /// No preference.
    Dontcare,
    /// Fixed stroke width.
    Modern,
    /// Variable stroke width, serifed.
    Roman,
    /// Handwriting-like.
    Script,
    /// Variable stroke width, sans serif.
    Swiss,
}

impl FontFamily {
    /// The native code of the family.
    pub open spec fn spec_code(self) -> u32 {
        match self {
            FontFamily::Decorative => 80,
            FontFamily::Dontcare => 0,
            FontFamily::Modern => 48,
            FontFamily::Roman => 16,
            FontFamily::Script => 64,
            FontFamily::Swiss => 32,
        }
    }

    /// The value a native code decodes to.
    pub open spec fn spec_from_code(value: u32) -> Option<FontFamily> {
        if value == 80 {
            Some(FontFamily::Decorative)
        } else if value == 0 {
            Some(FontFamily::Dontcare)
        } else if value == 48 {
            Some(FontFamily::Modern)
        } else if value == 16 {
            Some(FontFamily::Roman)
        } else if value == 64 {
            Some(FontFamily::Script)
        } else if value == 32 {
            Some(FontFamily::Swiss)
        } else {
            None
        }
    }

    /// The native code of the family.
    pub fn code(self) -> (r: u32)
        ensures
            r == self.spec_code(),
    {
        match self {
            FontFamily::Decorative => 80,
            FontFamily::Dontcare => 0,
            FontFamily::Modern => 48,
            FontFamily::Roman => 16,
            FontFamily::Script => 64,
            FontFamily::Swiss => 32,
        }
    }

    /// Decode a native code.
    pub fn from_code(value: u32) -> (r: Option<FontFamily>)
        ensures
            r == FontFamily::spec_from_code(value),
    {
        if value == 80 {
            Some(FontFamily::Decorative)
        } else if value == 0 {
            Some(FontFamily::Dontcare)
        } else if value == 48 {
            Some(FontFamily::Modern)
        } else if value == 16 {
            Some(FontFamily::Roman)
        } else if value == 64 {
            Some(FontFamily::Script)
        } else if value == 32 {
            Some(FontFamily::Swiss)
        } else {
            None
        }
    }
}

/// Decoding the code of any value yields the value again.
pub proof fn lemma_fontfamily_code_roundtrip(x: FontFamily)
    ensures
        FontFamily::spec_from_code(x.spec_code()) == Some(x),
        x.spec_code() <= 80,
{
}
/// The pitch and family of a font, packed into one native mask byte:
/// pitch in the low two bits, family in bits 4 to 7.
#[derive(Clone, Copy, Debug, PartialEq, Eq, Structural, Hash)]
pub struct PitchAndFamily {
    /// The pitch.
    pub pitch: Pitch,
    /// The family.
    pub family: FontFamily,
}

impl PitchAndFamily {
    /// The native mask: the pitch code combined with the family code.
    pub open spec fn spec_mask(self) -> u32 {
        self.pitch.spec_code() | self.family.spec_code()
    }

    /// The pitch and family a native mask decodes to; bits outside the two
    /// fields are ignored.
    pub open spec fn spec_from_mask(m: u32) -> Option<PitchAndFamily> {
        if Pitch::spec_from_code(m & 3) is Some && FontFamily::spec_from_code(m & 0xF0) is Some {
            Some(
                PitchAndFamily {
                    pitch: Pitch::spec_from_code(m & 3)->0,
                    family: FontFamily::spec_from_code(m & 0xF0)->0,
                },
            )
        } else {
            None
        }
    }

    /// Combine a pitch and a family.
    pub fn new(pitch: Pitch, family: FontFamily) -> (r: PitchAndFamily)
        ensures
            r == (PitchAndFamily { pitch, family }),
    {
        PitchAndFamily { pitch, family }
    }

    /// The native mask: the pitch code combined with the family code.
    pub fn mask(self) -> (r: u32)
        ensures
            r == self.spec_mask(),
    {
        self.pitch.code() | self.family.code()
    }

    /// Decode a native mask.
    pub fn from_mask(m: u32) -> (r: Option<PitchAndFamily>)
        ensures
            r == PitchAndFamily::spec_from_mask(m),
    {
        match (Pitch::from_code(m & 3), FontFamily::from_code(m & 0xF0)) {
            (Some(pitch), Some(family)) => Some(PitchAndFamily { pitch, family }),
            _ => None,
        }
    }
}

impl Default for PitchAndFamily {
    fn default() -> (r: Self)
        ensures
            r == (PitchAndFamily { pitch: Pitch::Default, family: FontFamily::Dontcare }),
    {
        PitchAndFamily { pitch: Pitch::Default, family: FontFamily::Dontcare }
    }
}

/// Decoding the mask of any pitch-and-family value yields the value again,
/// and the mask fits in the record's byte.
pub proof fn lemma_pitchandfamily_mask_roundtrip(x: PitchAndFamily)
    ensures
        PitchAndFamily::spec_from_mask(x.spec_mask()) == Some(x),
        x.spec_mask() <= 0xF3,
{
    let p = x.pitch.spec_code();
    let f = x.family.spec_code();
    lemma_pitch_code_roundtrip(x.pitch);
    lemma_fontfamily_code_roundtrip(x.family);
    assert(p <= 2 && f <= 80 && f & 0xF0 == f ==> ((p | f) & 3 == p && (p | f) & 0xF0 == f && (p
        | f) <= 0xF3)) by (bit_vector);
    assert(f & 0xF0 == f) by {
        match x.family {
            FontFamily::Decorative => {
                assert(80u32 & 0xF0 == 80u32) by (bit_vector);
            },
            FontFamily::Dontcare => {
                assert(0u32 & 0xF0 == 0u32) by (bit_vector);
            },
            FontFamily::Modern => {
                assert(48u32 & 0xF0 == 48u32) by (bit_vector);
            },
            FontFamily::Roman => {
                assert(16u32 & 0xF0 == 16u32) by (bit_vector);
            },
            FontFamily::Script => {
                assert(64u32 & 0xF0 == 64u32) by (bit_vector);
            },
            FontFamily::Swiss => {
                assert(32u32 & 0xF0 == 32u32) by (bit_vector);
            },
        }
    };
}
/// A font descriptor with typed fields.
#[derive(Clone, Debug)]
pub struct Font {
    /// Character height.
    pub height: i32,
    /// Average character width.
    pub width: i32,
    /// Escapement angle, in tenths of a degree.
    pub escapement: i32,
    /// Orientation angle, in tenths of a degree.
    pub orientation: i32,
    /// Weight.
    pub weight: Weight,
    /// Italic.
    pub italic: bool,
    /// Underlined.
    pub underline: bool,
    /// Struck out.
    pub strikeout: bool,
    /// Character set.
    pub charset: CharSet,
    /// Output precision.
    pub outprecision: OutPrecision,
    /// Clipping precision.
    pub clipprecision: ClipPrecision,
    /// Output quality.
    pub quality: Quality,
    /// Pitch and family.
    pub pitchandfamily: PitchAndFamily,
    /// Face name.
    pub facename: String,
}

impl Default for Font {
    fn default() -> (r: Self)
        ensures
            r.height == 0 && r.width == 0 && r.escapement == 0 && r.orientation == 0,
            r.weight == Weight::Normal && !r.italic && !r.underline && !r.strikeout,
            r.charset == CharSet::Default && r.outprecision == OutPrecision::Default,
            r.clipprecision == ClipPrecision::DefaultPrecis && r.quality == Quality::Default,
            r.pitchandfamily == (PitchAndFamily {
                pitch: Pitch::Default,
                family: FontFamily::Dontcare,
            }),
            r.facename@ == Seq::<char>::empty(),
    {
        Font {
            height: 0,
            width: 0,
            escapement: 0,
            orientation: 0,
            weight: Weight::default(),
            italic: false,
            underline: false,
            strikeout: false,
            charset: CharSet::default(),
            outprecision: OutPrecision::default(),
            clipprecision: ClipPrecision::default(),
            quality: Quality::default(),
            pitchandfamily: PitchAndFamily::default(),
            facename: String::new(),
        }
    }
}

/// The native logical-font record, with every field a plain value.  The
/// face-name buffer always holds exactly 32 UTF-16 code units, NUL padded.
#[derive(Clone, Debug)]
pub struct FontRecord {
    /// Character height.
    pub height: i32,
    /// Average character width.
    pub width: i32,
    /// Escapement angle, in tenths of a degree.
    pub escapement: i32,
    /// Orientation angle, in tenths of a degree.
    pub orientation: i32,
    /// Weight code.
    pub weight: i32,
    /// Nonzero when italic.
    pub italic: u8,
    /// Nonzero when underlined.
    pub underline: u8,
    /// Nonzero when struck out.
    pub strikeout: u8,
    /// Character-set code.
    pub charset: u8,
    /// Output-precision code.
    pub out_precision: u8,
    /// Clipping-precision code.
    pub clip_precision: u8,
    /// Quality code.
    pub quality: u8,
    /// Pitch-and-family mask.
    pub pitch_and_family: u8,
    /// Face name as a fixed NUL-padded buffer of UTF-16 code units.
    pub face_name: Vec<u16>,
}

impl FontRecord {
    /// Well-formedness: the face-name buffer holds exactly 32 code units.
    pub open spec fn wf(&self) -> bool {
        self.face_name@.len() == 32
    }
}

/// The fixed 32-unit face-name buffer for a name: its UTF-16 code units,
/// truncated to the first 31, padded with NULs.
pub open spec fn spec_face_buffer(s: Seq<char>) -> Seq<u16> {
    let u = spec_encode(s);
    let t = if u.len() <= 31 {
        u
    } else {
        u.take(31)
    };
    t + Seq::new((32 - t.len()) as nat, |i: int| 0u16)
}

/// The prefix of a code-unit sequence before its first NUL (the whole
/// sequence if it has none).
pub open spec fn spec_before_nul(u: Seq<u16>) -> Seq<u16>
    decreases u.len(),
{
    if u.len() == 0 {
        u
    } else if u[0] == 0 {
        Seq::empty()
    } else {
        seq![u[0]] + spec_before_nul(u.drop_first())
    }
}

/// The prefix before the first NUL is the first `i` units, whenever the
/// first `i` units are nonzero and unit `i`, if present, is zero.
pub proof fn lemma_before_nul_take(u: Seq<u16>, i: int)
    requires
        0 <= i <= u.len(),
        forall|j: int| 0 <= j < i ==> u[j] != 0,
        i < u.len() ==> u[i] == 0,
    ensures
        spec_before_nul(u) == u.take(i),
    decreases i,
{
    if u.len() == 0 {
        assert(u.take(0) =~= u);
    } else if i == 0 {
        assert(u.take(0) =~= Seq::<u16>::empty());
    } else {
        lemma_before_nul_take(u.drop_first(), i - 1);
        assert(spec_before_nul(u) == seq![u[0]] + u.drop_first().take(i - 1));
        assert(u.take(i) =~= seq![u[0]] + u.drop_first().take(i - 1));
    }
}

/// Whether every enumerated component of a record decodes, and the stored
/// face name is well-formed UTF-16: exactly then the record converts back
/// to a font.
pub open spec fn spec_record_decodes(r: FontRecord) -> bool {
    &&& spec_valid(spec_before_nul(r.face_name@))
    &&& Weight::spec_from_code(r.weight) is Some
    &&& CharSet::spec_from_code(r.charset as u32) is Some
    &&& OutPrecision::spec_from_code(r.out_precision as u32) is Some
    &&& ClipPrecision::spec_from_code(r.clip_precision as u32) is Some
    &&& Quality::spec_from_code(r.quality as u32) is Some
    &&& PitchAndFamily::spec_from_mask(r.pitch_and_family as u32) is Some
}

impl Font {
    /// Convert the font to the native logical-font record.  The face name is
    /// encoded to UTF-16, truncated to 31 code units, and NUL padded.
    pub fn to_record(&self) -> (r: FontRecord)
        ensures
            r.wf(),
            r.height == self.height,
            r.width == self.width,
            r.escapement == self.escapement,
            r.orientation == self.orientation,
            r.weight == self.weight.spec_code(),
            r.italic == (if self.italic { 1u8 } else { 0u8 }),
            r.underline == (if self.underline { 1u8 } else { 0u8 }),
            r.strikeout == (if self.strikeout { 1u8 } else { 0u8 }),
            r.charset as u32 == self.charset.spec_code(),
            r.out_precision as u32 == self.outprecision.spec_code(),
            r.clip_precision as u32 == self.clipprecision.spec_code(),
            r.quality as u32 == self.quality.spec_code(),
            r.pitch_and_family as u32 == self.pitchandfamily.spec_mask(),
            r.face_name@ == spec_face_buffer(self.facename@),
    {
        proof {
            lemma_charset_code_roundtrip(self.charset);
            lemma_outprecision_code_roundtrip(self.outprecision);
            lemma_clipprecision_code_roundtrip(self.clipprecision);
            lemma_quality_code_roundtrip(self.quality);
            lemma_pitchandfamily_mask_roundtrip(self.pitchandfamily);
        }
        let mut units = encode_utf16_str(self.facename.as_str());
        let ghost full = units@;
        if units.len() > 31 {
            units.truncate(31);
            proof {
                assert(units@ =~= if full.len() <= 31 {
                    full
                } else {
                    full.take(31)
                });
            }
        }
        let ghost t = units@;
        while units.len() < 32
            invariant
                t.len() <= 31,
                t.len() <= units@.len() <= 32,
                units@ == t + Seq::new((units@.len() - t.len()) as nat, |i: int| 0u16),
            decreases 32 - units@.len(),
        {
            units.push(0);
            proof {
                assert(units@ =~= t + Seq::new((units@.len() - t.len()) as nat, |i: int| 0u16));
            }
        }
        proof {
            assert(units@ =~= spec_face_buffer(self.facename@));
        }
        FontRecord {
            height: self.height,
            width: self.width,
            escapement: self.escapement,
            orientation: self.orientation,
            weight: self.weight.code(),
            italic: if self.italic { 1 } else { 0 },
            underline: if self.underline { 1 } else { 0 },
            strikeout: if self.strikeout { 1 } else { 0 },
            charset: self.charset.code() as u8,
            out_precision: self.outprecision.code() as u8,
            clip_precision: self.clipprecision.code() as u8,
            quality: self.quality.code() as u8,
            pitch_and_family: self.pitchandfamily.mask() as u8,
            face_name: units,
        }
    }

    /// Convert a native logical-font record back to a font.  Succeeds
    /// exactly when every enumerated component decodes and the stored face
    /// name, up to its first NUL, is well-formed UTF-16.
    pub fn from_record(r: &FontRecord) -> (f: Option<Font>)
        ensures
            f is Some <==> spec_record_decodes(*r),
            f is Some ==> f->0.height == r.height,
            f is Some ==> f->0.width == r.width,
            f is Some ==> f->0.escapement == r.escapement,
            f is Some ==> f->0.orientation == r.orientation,
            f is Some ==> Some(f->0.weight) == Weight::spec_from_code(r.weight),
            f is Some ==> f->0.italic == (r.italic != 0),
            f is Some ==> f->0.underline == (r.underline != 0),
            f is Some ==> f->0.strikeout == (r.strikeout != 0),
            f is Some ==> Some(f->0.charset) == CharSet::spec_from_code(r.charset as u32),
            f is Some ==> Some(f->0.outprecision) == OutPrecision::spec_from_code(
                r.out_precision as u32,
            ),
            f is Some ==> Some(f->0.clipprecision) == ClipPrecision::spec_from_code(
                r.clip_precision as u32,
            ),
            f is Some ==> Some(f->0.quality) == Quality::spec_from_code(r.quality as u32),
            f is Some ==> Some(f->0.pitchandfamily) == PitchAndFamily::spec_from_mask(
                r.pitch_and_family as u32,
            ),
            f is Some ==> f->0.facename@ == spec_decode(spec_before_nul(r.face_name@)),
    {
        let mut name_units: Vec<u16> = Vec::new();
        let mut i: usize = 0;
        let n = r.face_name.len();
        while i < n
            invariant
                i <= n,
                n == r.face_name@.len(),
                name_units@ == r.face_name@.take(i as int),
                forall|j: int| 0 <= j < i ==> r.face_name@[j] != 0,
            ensures
                i <= n,
                name_units@ == r.face_name@.take(i as int),
                forall|j: int| 0 <= j < i ==> r.face_name@[j] != 0,
                i < n ==> r.face_name@[i as int] == 0,
            decreases n - i,
        {
            let u = r.face_name[i];
            if u == 0 {
                break ;
            }
            name_units.push(u);
            proof {
                assert(name_units@ =~= r.face_name@.take(i + 1));
            }
            i += 1;
        }
        proof {
            lemma_before_nul_take(r.face_name@, i as int);
        }
        let facename = match decode_utf16_string(name_units.as_slice()) {
            Some(s) => s,
            None => {
                return None;
            },
        };
        let weight = match Weight::from_code(r.weight) {
            Some(w) => w,
            None => {
                return None;
            },
        };
        let charset = match CharSet::from_code(r.charset as u32) {
            Some(c) => c,
            None => {
                return None;
            },
        };
        let outprecision = match OutPrecision::from_code(r.out_precision as u32) {
            Some(o) => o,
            None => {
                return None;
            },
        };
        let clipprecision = match ClipPrecision::from_code(r.clip_precision as u32) {
            Some(c) => c,
            None => {
                return None;
            },
        };
        let quality = match Quality::from_code(r.quality as u32) {
            Some(q) => q,
            None => {
                return None;
            },
        };
        let pitchandfamily = match PitchAndFamily::from_mask(r.pitch_and_family as u32) {
            Some(p) => p,
            None => {
                return None;
            },
        };
        Some(
            Font {
                height: r.height,
                width: r.width,
                escapement: r.escapement,
                orientation: r.orientation,
                weight,
                italic: r.italic != 0,
                underline: r.underline != 0,
                strikeout: r.strikeout != 0,
                charset,
                outprecision,
                clipprecision,
                quality,
                pitchandfamily,
                facename,
            },
        )
    }
}

/// No character of the name is NUL, so no unit of its encoding is zero.
pub proof fn lemma_encode_no_nul(s: Seq<char>)
    requires
        forall|i: int| 0 <= i < s.len() ==> s[i] as u32 != 0,
    ensures
        forall|j: int| 0 <= j < spec_encode(s).len() ==> spec_encode(s)[j] != 0,
    decreases s.len(),
{
    if s.len() > 0 {
        assert(forall|i: int| 0 <= i < s.drop_first().len() ==> s.drop_first()[i] as u32 != 0);
        lemma_encode_no_nul(s.drop_first());
        vstd::utf8::char_is_scalar(s[0]);
        let v = s[0] as u32;
        let head = spec_encode_char(s[0]);
        if v < 0x10000 {
            assert(head[0] == v as u16);
            assert(v < 0x10000 && v != 0 ==> v as u16 != 0) by (bit_vector);
        } else {
            let w = (v - 0x10000) as u32;
            assert(w / 0x400 <= 0x3FF && w % 0x400 <= 0x3FF) by (nonlinear_arith)
                requires
                    w <= 0xFFFFF,
            ;
            assert(head[0] == (0xD800 + w / 0x400) as u16);
            assert(head[1] == (0xDC00 + w % 0x400) as u16);
        }
        assert(forall|j: int|
            0 <= j < spec_encode(s).len() ==> spec_encode(s)[j] == (if j < head.len() {
                head[j]
            } else {
                spec_encode(s.drop_first())[j - head.len()]
            }));
    }
}

/// Font round trip: the face-name pipeline of [`Font::to_record`] followed
/// by [`Font::from_record`] restores the name, whenever the name encodes to
/// at most 31 UTF-16 code units and contains no NUL character; together with
/// the code round trips of the enumerated components, a converted record
/// always decodes back to the original font.
pub proof fn lemma_font_record_roundtrip(
    w: Weight,
    cs: CharSet,
    op: OutPrecision,
    cp: ClipPrecision,
    q: Quality,
    pf: PitchAndFamily,
    name: Seq<char>,
)
    requires
        spec_encode(name).len() <= 31,
        forall|i: int| 0 <= i < name.len() ==> name[i] as u32 != 0,
    ensures
        Weight::spec_from_code(w.spec_code()) == Some(w),
        CharSet::spec_from_code(cs.spec_code()) == Some(cs),
        OutPrecision::spec_from_code(op.spec_code()) == Some(op),
        ClipPrecision::spec_from_code(cp.spec_code()) == Some(cp),
        Quality::spec_from_code(q.spec_code()) == Some(q),
        PitchAndFamily::spec_from_mask(pf.spec_mask()) == Some(pf),
        spec_valid(spec_before_nul(spec_face_buffer(name))),
        spec_decode(spec_before_nul(spec_face_buffer(name))) == name,
{
    lemma_weight_code_roundtrip(w);
    lemma_charset_code_roundtrip(cs);
    lemma_outprecision_code_roundtrip(op);
    lemma_clipprecision_code_roundtrip(cp);
    lemma_quality_code_roundtrip(q);
    lemma_pitchandfamily_mask_roundtrip(pf);
    let u = spec_encode(name);
    let buf = spec_face_buffer(name);
    lemma_encode_no_nul(name);
    assert(buf.len() == 32 && buf[u.len() as int] == 0);
    assert(forall|j: int| 0 <= j < u.len() ==> buf[j] == u[j] && buf[j] != 0);
    lemma_before_nul_take(buf, u.len() as int);
    assert(buf.take(u.len() as int) =~= u);
    lemma_utf16_roundtrip(name);
}

} // verus!

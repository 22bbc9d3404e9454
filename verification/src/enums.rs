//! Drawing-style enumerations and their native integer codes.

use vstd::prelude::*;

verus! {

/// Fill pattern selection.
#[derive(Clone, Copy, Debug, PartialEq, Eq, Structural, Hash)]
pub enum FillPattern {
    /// No fill.
    Empty,
    /// Solid fill.
    Solid,
    /// Horizontal lines.
    Line,
    /// Light slashes.
    LtSlash,
    /// Slashes.
    Slash,
    /// Backslashes.
    BkSlash,
    /// Light backslashes.
    LtBkSlash,
    /// Hatch.
    Hatch,
    /// Cross hatch.
    XHatch,
    /// Interleaved lines.
    Interleave,
    /// Widely spaced dots.
    WideDot,
    /// Closely spaced dots.
    CloseDot,
    /// A caller-defined pattern.
    UserDefined,
}

impl FillPattern {
    /// The native code of the pattern.
    pub open spec fn spec_code(self) -> i32 {
        match self {
            FillPattern::Empty => 0,
            FillPattern::Solid => 1,
            FillPattern::Line => 2,
            FillPattern::LtSlash => 3,
            FillPattern::Slash => 4,
            FillPattern::BkSlash => 5,
            FillPattern::LtBkSlash => 6,
            FillPattern::Hatch => 7,
            FillPattern::XHatch => 8,
            FillPattern::Interleave => 9,
            FillPattern::WideDot => 10,
            FillPattern::CloseDot => 11,
            FillPattern::UserDefined => 12,
        }
    }

    /// The native code of the pattern.
    pub fn code(self) -> (r: i32)
        ensures
            r == self.spec_code(),
    {
        match self {
            FillPattern::Empty => 0,
            FillPattern::Solid => 1,
            FillPattern::Line => 2,
            FillPattern::LtSlash => 3,
            FillPattern::Slash => 4,
            FillPattern::BkSlash => 5,
            FillPattern::LtBkSlash => 6,
            FillPattern::Hatch => 7,
            FillPattern::XHatch => 8,
            FillPattern::Interleave => 9,
            FillPattern::WideDot => 10,
            FillPattern::CloseDot => 11,
            FillPattern::UserDefined => 12,
        }
    }
}

/// Line style selection.  A caller-defined style carries its 16-bit pattern.
#[derive(Clone, Copy, Debug, PartialEq, Eq, Structural, Hash)]
pub enum LineStyle {
    /// Solid line.
    Solid,
    /// Center line.
    Center,
    /// Dotted line.
    Dotted,
    /// Dashed line.
    Dashed,
    /// No line.
    Null,
    /// A caller-defined bit pattern.
    UserDef(u16),
}

impl LineStyle {
    /// The native code of the style.
    pub open spec fn spec_code(self) -> i32 {
        match self {
            LineStyle::Solid => 0,
            LineStyle::Center => 1,
            LineStyle::Dotted => 2,
            LineStyle::Dashed => 3,
            LineStyle::Null => 5,
            LineStyle::UserDef(_) => 7,
        }
    }

    /// The style a native code decodes to: a caller-defined code decodes with
    /// an empty pattern, and an unknown code to `None`.
    pub open spec fn spec_from_code(value: i32) -> Option<LineStyle> {
        if value == 0 {
            Some(LineStyle::Solid)
        } else if value == 1 {
            Some(LineStyle::Center)
        } else if value == 2 {
            Some(LineStyle::Dotted)
        } else if value == 3 {
            Some(LineStyle::Dashed)
        } else if value == 5 {
            Some(LineStyle::Null)
        } else if value == 7 {
            Some(LineStyle::UserDef(0))
        } else {
            None
        }
    }

    /// The native code of the style.
    pub fn code(self) -> (r: i32)
        ensures
            r == self.spec_code(),
    {
        match self {
            LineStyle::Solid => 0,
            LineStyle::Center => 1,
            LineStyle::Dotted => 2,
            LineStyle::Dashed => 3,
            LineStyle::Null => 5,
            LineStyle::UserDef(_) => 7,
        }
    }

    /// The style a native style record decodes to: the caller-defined code
    /// carries the stored bit pattern, every other code decodes as
    /// [`LineStyle::spec_from_code`].
    pub open spec fn spec_decode(value: i32, pattern: u16) -> Option<LineStyle> {
        if value == 7 {
            Some(LineStyle::UserDef(pattern))
        } else {
            Self::spec_from_code(value)
        }
    }

    /// Decode a native style record: the style code together with the
    /// caller-defined bit pattern.
    pub fn decode(value: i32, pattern: u16) -> (r: Option<LineStyle>)
        ensures
            r == Self::spec_decode(value, pattern),
    {
        if value == 7 {
            Some(LineStyle::UserDef(pattern))
        } else {
            Self::from_code(value)
        }
    }

    /// Decode a native code.
    pub fn from_code(value: i32) -> (r: Option<LineStyle>)
        ensures
            r == Self::spec_from_code(value),
    {
        if value == 0 {
            Some(LineStyle::Solid)
        } else if value == 1 {
            Some(LineStyle::Center)
        } else if value == 2 {
            Some(LineStyle::Dotted)
        } else if value == 3 {
            Some(LineStyle::Dashed)
        } else if value == 5 {
            Some(LineStyle::Null)
        } else if value == 7 {
            Some(LineStyle::UserDef(0))
        } else {
            None
        }
    }
}

/// Line cap style.
#[derive(Clone, Copy, Debug, PartialEq, Eq, Structural, Hash)]
pub enum LineCap {
    /// Flat cap.
    Flat,
    /// Square cap.
    Square,
    /// Round cap.
    Round,
}

impl LineCap {
    /// The native code of the cap.
    pub open spec fn spec_code(self) -> i32 {
        match self {
            LineCap::Flat => 0,
            LineCap::Square => 1,
            LineCap::Round => 2,
        }
    }

    /// The cap a native code decodes to.
    pub open spec fn spec_from_code(value: i32) -> Option<LineCap> {
        if value == 0 {
            Some(LineCap::Flat)
        } else if value == 1 {
            Some(LineCap::Square)
        } else if value == 2 {
            Some(LineCap::Round)
        } else {
            None
        }
    }

    /// The native code of the cap.
    pub fn code(self) -> (r: i32)
        ensures
            r == self.spec_code(),
    {
        match self {
            LineCap::Flat => 0,
            LineCap::Square => 1,
            LineCap::Round => 2,
        }
    }

    /// Decode a native code.
    pub fn from_code(value: i32) -> (r: Option<LineCap>)
        ensures
            r == Self::spec_from_code(value),
    {
        if value == 0 {
            Some(LineCap::Flat)
        } else if value == 1 {
            Some(LineCap::Square)
        } else if value == 2 {
            Some(LineCap::Round)
        } else {
            None
        }
    }
}

/// Line join style.
#[derive(Clone, Copy, Debug, PartialEq, Eq, Structural, Hash)]
pub enum LineJoin {
    /// Miter join.
    Miter,
    /// Round join.
    Round,
    /// Bevel join.
    Bevel,
}

impl LineJoin {
    /// The native code of the join.
    pub open spec fn spec_code(self) -> i32 {
        match self {
            LineJoin::Miter => 0,
            LineJoin::Bevel => 1,
            LineJoin::Round => 2,
        }
    }

    /// The join a native code decodes to.
    pub open spec fn spec_from_code(value: i32) -> Option<LineJoin> {
        if value == 0 {
            Some(LineJoin::Miter)
        } else if value == 1 {
            Some(LineJoin::Bevel)
        } else if value == 2 {
            Some(LineJoin::Round)
        } else {
            None
        }
    }

    /// The native code of the join.
    pub fn code(self) -> (r: i32)
        ensures
            r == self.spec_code(),
    {
        match self {
            LineJoin::Miter => 0,
            LineJoin::Bevel => 1,
            LineJoin::Round => 2,
        }
    }

    /// Decode a native code.
    pub fn from_code(value: i32) -> (r: Option<LineJoin>)
        ensures
            r == Self::spec_from_code(value),
    {
        if value == 0 {
            Some(LineJoin::Miter)
        } else if value == 1 {
            Some(LineJoin::Bevel)
        } else if value == 2 {
            Some(LineJoin::Round)
        } else {
            None
        }
    }
}

/// Horizontal text alignment.
#[derive(Clone, Copy, Debug, PartialEq, Eq, Structural, Hash)]
pub enum TextHAlign {
    /// Align to the left edge.
    Left,
    /// Center horizontally.
    Center,
    /// Align to the right edge.
    Right,
}

impl TextHAlign {
    /// The native code of the alignment.
    pub open spec fn spec_code(self) -> i32 {
        match self {
            TextHAlign::Left => 0,
            TextHAlign::Center => 1,
            TextHAlign::Right => 2,
        }
    }

    /// The native code of the alignment.
    pub fn code(self) -> (r: i32)
        ensures
            r == self.spec_code(),
    {
        match self {
            TextHAlign::Left => 0,
            TextHAlign::Center => 1,
            TextHAlign::Right => 2,
        }
    }
}

/// Vertical text alignment.
#[derive(Clone, Copy, Debug, PartialEq, Eq, Structural, Hash)]
pub enum TextVAlign {
    /// Align to the top edge.
    Top,
    /// Center vertically.
    Center,
    /// Align to the bottom edge.
    Bottom,
}

impl TextVAlign {
    /// The native code of the alignment.
    pub open spec fn spec_code(self) -> i32 {
        match self {
            TextVAlign::Top => 0,
            TextVAlign::Center => 1,
            TextVAlign::Bottom => 2,
        }
    }

    /// The native code of the alignment.
    pub fn code(self) -> (r: i32)
        ensures
            r == self.spec_code(),
    {
        match self {
            TextVAlign::Top => 0,
            TextVAlign::Center => 1,
            TextVAlign::Bottom => 2,
        }
    }
}

/// How a source image's alpha channel is interpreted when blending.
#[derive(Clone, Copy, Debug, PartialEq, Eq, Structural, Hash)]
pub enum AlphaType {
    /// Straight (non-premultiplied) alpha.
    Straight,
    /// Premultiplied alpha.
    PreMultiplied,
}

impl AlphaType {
    /// The native code of the alpha interpretation.
    pub open spec fn spec_code(self) -> i32 {
        match self {
            AlphaType::Straight => 0,
            AlphaType::PreMultiplied => 1,
        }
    }

    /// The native code of the alpha interpretation.
    pub fn code(self) -> (r: i32)
        ensures
            r == self.spec_code(),
    {
        match self {
            AlphaType::Straight => 0,
            AlphaType::PreMultiplied => 1,
        }
    }
}

/// Background fill mode for text and patterned drawing.
#[derive(Clone, Copy, Debug, PartialEq, Eq, Structural, Hash)]
pub enum BkMode {
    /// The background is left as it is.
    Transparent,
    /// The background is filled with the background color.
    Opaque,
}

impl BkMode {
    /// The native code of the mode.
    pub open spec fn spec_code(self) -> i32 {
        match self {
            BkMode::Transparent => 1,
            BkMode::Opaque => 2,
        }
    }

    /// The native code of the mode.
    pub fn code(self) -> (r: i32)
        ensures
            r == self.spec_code(),
    {
        match self {
            BkMode::Transparent => 1,
            BkMode::Opaque => 2,
        }
    }
}

/// Path fill mode.
#[derive(Clone, Copy, Debug, PartialEq, Eq, Structural, Hash)]
pub enum PathFillMode {
    /// Default fill mode.
    Default,
    /// Winding fill mode.
    Winding,
    /// Alternate fill mode.
    Alternate,
}

impl PathFillMode {
    /// The native code of the fill mode.
    pub open spec fn spec_code(self) -> i32 {
        match self {
            PathFillMode::Default => 0,
            PathFillMode::Alternate => 1,
            PathFillMode::Winding => 2,
        }
    }

    /// The native code of the fill mode.
    pub fn code(self) -> (r: i32)
        ensures
            r == self.spec_code(),
    {
        match self {
            PathFillMode::Default => 0,
            PathFillMode::Alternate => 1,
            PathFillMode::Winding => 2,
        }
    }
}

} // verus!

//! Safe, verified value layer of a 2D graphics/windowing binding.
//!
//! The native engine itself (drawing, rasterization, windowing) lives behind
//! foreign calls that an unverified shell makes; this crate holds everything
//! that can be stated and proved over plain values: color packing, font
//! record conversion, UTF-16 marshalling, key decoding, raster-op derivation,
//! error-code mapping, the initialization guard, and pixel-buffer logic.

pub mod color;
pub mod env;
pub mod enums;
pub mod error;
pub mod font;
pub mod geom;
pub mod msg;
pub mod pixels;
pub mod rop;
pub mod key;
pub mod utf16;

pub use color::ARGB;
pub use color::Color;
pub use color::IntoARGB;
pub use enums::AlphaType;
pub use enums::BkMode;
pub use enums::FillPattern;
pub use enums::LineCap;
pub use enums::LineJoin;
pub use enums::LineStyle;
pub use enums::PathFillMode;
pub use enums::TextHAlign;
pub use enums::TextVAlign;
pub use env::Init;
pub use env::InitGuard;
pub use env::XEGEError;
pub use error::ImageError;
pub use font::CharSet;
pub use font::ClipPrecision;
pub use font::Font;
pub use font::FontFamily;
pub use font::FontRecord;
pub use font::OutPrecision;
pub use font::Pitch;
pub use font::PitchAndFamily;
pub use font::Quality;
pub use font::Weight;
pub use geom::Line;
pub use geom::PixelPoint;
pub use geom::Point;
pub use geom::Rect;
pub use key::Key;
pub use msg::KeyFlags;
pub use msg::KeyMsg;
pub use msg::MouseMsg;
pub use pixels::PixelBuffer;

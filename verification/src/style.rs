//! The computed style values that painting reads, already resolved: colours
//! as four bytes, lengths in app units, keywords as enums.

use vstd::prelude::*;

verus! {

/// A colour of four bytes.
#[derive(Clone, Copy, Debug, PartialEq, Eq, Structural)]
pub struct Rgba {
    pub red: u8,
    pub green: u8,
    pub blue: u8,
    pub alpha: u8,
}

impl Rgba {
    /// Opaque white.
    pub fn white() -> (c: Rgba)
        ensures
            c == (Rgba { red: 255, green: 255, blue: 255, alpha: 255 }),
    {
        Rgba { red: 255, green: 255, blue: 255, alpha: 255 }
    }

    /// Opaque black.
    pub fn black() -> (c: Rgba)
        ensures
            c == (Rgba { red: 0, green: 0, blue: 0, alpha: 255 }),
    {
        Rgba { red: 0, green: 0, blue: 0, alpha: 255 }
    }
}

/// A colour value: a colour of its own, or the element's text colour.
#[derive(Clone, Copy, Debug, PartialEq, Eq, Structural)]
pub enum Color {
    Numeric(Rgba),
    CurrentColor,
}

impl Color {
    /// The colour that the value stands for where the text colour is `current`.
    pub open spec fn resolved(self, current: Rgba) -> Rgba {
        match self {
            Color::Numeric(c) => c,
            Color::CurrentColor => current,
        }
    }

    /// Resolves the value against the text colour.
    pub fn to_rgba(self, current: Rgba) -> (c: Rgba)
        ensures
            c == self.resolved(current),
    {
        match self {
            Color::Numeric(c) => c,
            Color::CurrentColor => current,
        }
    }
}

/// The style of a side of a border. `NoStyle` is the keyword `none`.
#[derive(Clone, Copy, Debug, PartialEq, Eq, Structural)]
pub enum ComputedBorderStyle {
    NoStyle,
    Solid,
    Double,
    Dotted,
    Dashed,
    Hidden,
    Groove,
    Ridge,
    Inset,
    Outset,
}

/// The style of an outline.
#[derive(Clone, Copy, Debug, PartialEq, Eq, Structural)]
pub enum OutlineStyle {
    Auto,
    BorderStyle(ComputedBorderStyle),
}

impl OutlineStyle {
    /// The border style that an outline is painted in: `auto` paints as a
    /// solid line.
    pub open spec fn painted_as(self) -> ComputedBorderStyle {
        match self {
            OutlineStyle::Auto => ComputedBorderStyle::Solid,
            OutlineStyle::BorderStyle(s) => s,
        }
    }

    /// The border style that an outline is painted in.
    pub fn border_style(self) -> (s: ComputedBorderStyle)
        ensures
            s == self.painted_as(),
    {
        match self {
            OutlineStyle::Auto => ComputedBorderStyle::Solid,
            OutlineStyle::BorderStyle(s) => s,
        }
    }
}

/// How a decoration line is drawn by the rasterizer.
#[derive(Clone, Copy, Debug, PartialEq, Eq, Structural)]
pub enum DecorationLineStyle {
    Solid,
    Dotted,
    Dashed,
    Wavy,
}

/// The computed `text-decoration-style`. `MozNone` suppresses the line.
#[derive(Clone, Copy, Debug, PartialEq, Eq, Structural)]
pub enum TextDecorationStyle {
    Solid,
    Double,
    Dotted,
    Dashed,
    Wavy,
    MozNone,
}

impl TextDecorationStyle {
    /// The line style that the decoration is drawn in; what the rasterizer
    /// has no line for is drawn solid.
    pub open spec fn line(self) -> DecorationLineStyle {
        match self {
            TextDecorationStyle::Dotted => DecorationLineStyle::Dotted,
            TextDecorationStyle::Dashed => DecorationLineStyle::Dashed,
            TextDecorationStyle::Wavy => DecorationLineStyle::Wavy,
            _ => DecorationLineStyle::Solid,
        }
    }

    /// The line style that the decoration is drawn in.
    pub fn line_style(self) -> (l: DecorationLineStyle)
        ensures
            l == self.line(),
    {
        match self {
            TextDecorationStyle::Dotted => DecorationLineStyle::Dotted,
            TextDecorationStyle::Dashed => DecorationLineStyle::Dashed,
            TextDecorationStyle::Wavy => DecorationLineStyle::Wavy,
            _ => DecorationLineStyle::Solid,
        }
    }
}

/// Which decoration lines a text has.
#[derive(Clone, Copy, Debug, PartialEq, Eq, Structural)]
pub struct TextDecorationLine {
    pub underline: bool,
    pub overline: bool,
    pub line_through: bool,
}

/// The computed `image-rendering`.
#[derive(Clone, Copy, Debug, PartialEq, Eq, Structural)]
pub enum ComputedImageRendering {
    Auto,
    CrispEdges,
    Pixelated,
}

/// The computed `visibility`.
#[derive(Clone, Copy, Debug, PartialEq, Eq, Structural)]
pub enum Visibility {
    Visible,
    Hidden,
    Collapse,
}

/// The computed `pointer-events`. `NoEvents` is the keyword `none`.
#[derive(Clone, Copy, Debug, PartialEq, Eq, Structural)]
pub enum PointerEvents {
    Auto,
    NoEvents,
}

/// The box that a background layer is clipped to.
#[derive(Clone, Copy, Debug, PartialEq, Eq, Structural)]
pub enum BackgroundClip {
    BorderBox,
    PaddingBox,
    ContentBox,
}

} // verus!

//! The device that a document is shown on: what media queries are evaluated
//! against, and what lengths in viewport and root-font units resolve to.

use crate::geometry::{AuSideOffsets, AuSize};
use crate::painting::DevicePixelRatio;
use crate::style::Rgba;
use mime::{FromStrError, Mime};
use vstd::prelude::*;
use vstd::string::*;

verus! {

/// The kind of medium.
#[derive(Clone, Copy, Debug, PartialEq, Eq, Structural)]
pub enum MediaType {
    Screen,
    Print,
}

/// How far the document asks for the quirks of old browsers.
#[derive(Clone, Copy, Debug, PartialEq, Eq, Structural)]
pub enum QuirksMode {
    Quirks,
    LimitedQuirks,
    NoQuirks,
}

/// The size of the `medium` font, 16 CSS pixels, in app units.
pub const FONT_MEDIUM_AU: i32 = 960;

/// The device that a document is shown on.
pub struct Device {
    media_type: MediaType,
    viewport_size: AuSize,
    device_pixel_ratio: DevicePixelRatio,
    quirks_mode: QuirksMode,
    root_font_size: i32,
    used_root_font_size: bool,
    used_viewport_units: bool,
}

/// What a device is, as a plain value.
pub struct DeviceView {
    pub media_type: MediaType,
    pub viewport_size: AuSize,
    pub device_pixel_ratio: DevicePixelRatio,
    pub quirks_mode: QuirksMode,
    /// The font size of the root element, in app units.
    pub root_font_size: i32,
    /// Whether a style has asked for the root font size.
    pub used_root_font_size: bool,
    /// Whether a style has asked for the viewport size to resolve a unit.
    pub used_viewport_units: bool,
}

impl View for Device {
    type V = DeviceView;

    closed spec fn view(&self) -> DeviceView {
        DeviceView {
            media_type: self.media_type,
            viewport_size: self.viewport_size,
            device_pixel_ratio: self.device_pixel_ratio,
            quirks_mode: self.quirks_mode,
            root_font_size: self.root_font_size,
            used_root_font_size: self.used_root_font_size,
            used_viewport_units: self.used_viewport_units,
        }
    }
}

/// The image types that the device can show and that `mime` has a constant
/// for.
#[derive(Clone, Copy, Debug, PartialEq, Eq, Structural)]
pub enum KnownImage {
    Bmp,
    Gif,
    Png,
    Jpeg,
}

/// What parsing a text as a media type gives.
pub uninterp spec fn mime_parsed(text: Seq<char>) -> Result<Mime, FromStrError>;

/// Whether a media type is equal to the constant that `mime` has for a
/// known image type.
pub uninterp spec fn mime_is_known_image(a: Mime, kind: KnownImage) -> bool;

/// Whether a media type is equal to a text.
pub uninterp spec fn mime_equal_text(a: Mime, text: Seq<char>) -> bool;

/// `<Mime as FromStr>::from_str` by way of `str::parse`: the parsed media
/// type, or why the text is none. The result depends on the text alone.
#[verifier::external_body]
pub(crate) fn parse_mime(text: &str) -> (parsed: Result<Mime, FromStrError>)
    ensures
        parsed == mime_parsed(text@),
{
    text.parse::<Mime>()
}

/// `<Mime as PartialEq>::eq` against one of the constants `mime::IMAGE_BMP`,
/// `mime::IMAGE_GIF`, `mime::IMAGE_PNG` and `mime::IMAGE_JPEG`. The
/// constants are plain ASCII without parameters, so the comparison returns
/// for every media type. The result depends on the media type and the kind
/// alone.
#[verifier::external_body]
fn mime_eq_known(a: &Mime, kind: KnownImage) -> (same: bool)
    ensures
        same == mime_is_known_image(*a, kind),
{
    match kind {
        KnownImage::Bmp => *a == mime::IMAGE_BMP,
        KnownImage::Gif => *a == mime::IMAGE_GIF,
        KnownImage::Png => *a == mime::IMAGE_PNG,
        KnownImage::Jpeg => *a == mime::IMAGE_JPEG,
    }
}

/// Whether every character of a text is an ASCII character.
pub open spec fn is_ascii_text(text: Seq<char>) -> bool {
    forall|i: int| 0 <= i < text.len() ==> (#[trigger] text[i] as u32) < 128
}

/// `<Mime as PartialEq<&str>>::eq`. The comparison cuts the text at byte
/// positions of the media type, so the text must be ASCII. The result
/// depends on the media type and the text alone.
#[verifier::external_body]
fn mime_eq_text(a: &Mime, text: &str) -> (same: bool)
    requires
        is_ascii_text(text@),
    ensures
        same == mime_equal_text(*a, text@),
{
    *a == text
}

/// Whether a media type is one of the image types that the device can show.
pub open spec fn is_supported_image(m: Mime) -> bool {
    ||| mime_is_known_image(m, KnownImage::Bmp)
    ||| mime_is_known_image(m, KnownImage::Gif)
    ||| mime_is_known_image(m, KnownImage::Png)
    ||| mime_is_known_image(m, KnownImage::Jpeg)
    ||| mime_equal_text(m, "image/x-icon"@)
    ||| mime_equal_text(m, "image/webp"@)
}

/// Whether what parsing gave is an image type that the device can show:
/// never for a text that is no media type.
pub fn supports(parsed: &Result<Mime, FromStrError>) -> (r: bool)
    ensures
        r == match *parsed {
            Ok(m) => is_supported_image(m),
            Err(_) => false,
        },
{
    proof {
        reveal_strlit("image/x-icon");
        reveal_strlit("image/webp");
    }
    match parsed {
        Ok(m) => {
            mime_eq_known(m, KnownImage::Bmp) || mime_eq_known(m, KnownImage::Gif)
                || mime_eq_known(m, KnownImage::Png) || mime_eq_known(m, KnownImage::Jpeg)
                || mime_eq_text(m, "image/x-icon") || mime_eq_text(m, "image/webp")
        },
        Err(_) => false,
    }
}

/// A relation of a media query: the value against the bound.
#[derive(Clone, Copy, Debug, PartialEq, Eq, Structural)]
pub enum Operator {
    Equal,
    GreaterThan,
    GreaterThanEqual,
    LessThan,
    LessThanEqual,
}

/// The range of a `min-` or `max-` media feature.
#[derive(Clone, Copy, Debug, PartialEq, Eq, Structural)]
pub enum Range {
    Min,
    Max,
}

/// How a media feature's value is compared.
#[derive(Clone, Copy, Debug, PartialEq, Eq, Structural)]
pub enum RangeOrOperator {
    Range(Range),
    Operator(Operator),
}

/// Whether a device value meets a query. Without a query value the feature
/// holds if the device value is not zero; without a range or operator the
/// two must be equal; `min-` asks for at least, `max-` for at most.
pub open spec fn meets(range_or_operator: Option<RangeOrOperator>, query: Option<i32>, value: i32) -> bool {
    match query {
        None => value != 0,
        Some(q) => match range_or_operator {
            None => value == q,
            Some(RangeOrOperator::Range(Range::Min)) => value >= q,
            Some(RangeOrOperator::Range(Range::Max)) => value <= q,
            Some(RangeOrOperator::Operator(Operator::Equal)) => value == q,
            Some(RangeOrOperator::Operator(Operator::GreaterThan)) => value > q,
            Some(RangeOrOperator::Operator(Operator::GreaterThanEqual)) => value >= q,
            Some(RangeOrOperator::Operator(Operator::LessThan)) => value < q,
            Some(RangeOrOperator::Operator(Operator::LessThanEqual)) => value <= q,
        },
    }
}

/// Compares a device value with the value of a query.
pub fn evaluate(range_or_operator: Option<RangeOrOperator>, query: Option<i32>, value: i32) -> (r:
    bool)
    ensures
        r == meets(range_or_operator, query, value),
{
    let q = match query {
        Some(q) => q,
        None => {
            return value != 0;
        },
    };
    match range_or_operator {
        None => value == q,
        Some(RangeOrOperator::Range(Range::Min)) => value >= q,
        Some(RangeOrOperator::Range(Range::Max)) => value <= q,
        Some(RangeOrOperator::Operator(Operator::Equal)) => value == q,
        Some(RangeOrOperator::Operator(Operator::GreaterThan)) => value > q,
        Some(RangeOrOperator::Operator(Operator::GreaterThanEqual)) => value >= q,
        Some(RangeOrOperator::Operator(Operator::LessThan)) => value < q,
        Some(RangeOrOperator::Operator(Operator::LessThanEqual)) => value <= q,
    }
}

/// The `width` media feature: the width of the viewport, in app units,
/// against the width that the query names.
pub fn eval_width(device: &Device, value: Option<i32>, range_or_operator: Option<RangeOrOperator>) -> (r:
    bool)
    ensures
        r == meets(range_or_operator, value, device@.viewport_size.width),
{
    evaluate(range_or_operator, value, device.au_viewport_size().width)
}

/// The scan of a television.
#[derive(Clone, Copy, Debug, PartialEq, Eq, Structural)]
pub enum Scan {
    Progressive,
    Interlace,
}

/// The `scan` media feature never matches: no device is a television.
pub fn eval_scan(device: &Device, scan: Option<Scan>) -> (r: bool)
    ensures
        !r,
{
    false
}

impl Device {
    /// A device of the given kind, with a root font of medium size that no
    /// style has asked for yet.
    pub fn new(
        media_type: MediaType,
        quirks_mode: QuirksMode,
        viewport_size: AuSize,
        device_pixel_ratio: DevicePixelRatio,
    ) -> (device: Device)
        ensures
            device@ == (DeviceView {
                media_type,
                viewport_size,
                device_pixel_ratio,
                quirks_mode,
                root_font_size: FONT_MEDIUM_AU,
                used_root_font_size: false,
                used_viewport_units: false,
            }),
    {
        Device {
            media_type,
            viewport_size,
            device_pixel_ratio,
            quirks_mode,
            root_font_size: FONT_MEDIUM_AU,
            used_root_font_size: false,
            used_viewport_units: false,
        }
    }

    /// The font size of the root element, which `rem` stands for. The device
    /// remembers that it was asked.
    pub fn root_font_size(&mut self) -> (size: i32)
        ensures
            size == old(self)@.root_font_size,
            final(self)@ == (DeviceView { used_root_font_size: true, ..old(self)@ }),
    {
        self.used_root_font_size = true;
        self.root_font_size
    }

    /// Sets the font size of the root element.
    pub fn set_root_font_size(&mut self, size: i32)
        ensures
            final(self)@ == (DeviceView { root_font_size: size, ..old(self)@ }),
    {
        self.root_font_size = size;
    }

    /// The quirks mode of the document.
    pub fn quirks_mode(&self) -> (mode: QuirksMode)
        ensures
            mode == self@.quirks_mode,
    {
        self.quirks_mode
    }

    /// Takes the body's text colour for the quirk that lets tables inherit
    /// it. The device does not implement the quirk: nothing changes.
    pub fn set_body_text_color(&mut self, color: Rgba)
        ensures
            final(self)@ == old(self)@,
    {
    }

    /// Whether an animation of the given name may be referenced from style:
    /// always, for want of a way to know better.
    pub fn animation_name_may_be_referenced(&self, name: &str) -> (r: bool)
        ensures
            r,
    {
        true
    }

    /// Whether a style has asked for the root font size.
    pub fn used_root_font_size(&self) -> (used: bool)
        ensures
            used == self@.used_root_font_size,
    {
        self.used_root_font_size
    }

    /// The size of the viewport, in app units.
    pub fn au_viewport_size(&self) -> (size: AuSize)
        ensures
            size == self@.viewport_size,
    {
        self.viewport_size
    }

    /// The size of the viewport, to resolve a viewport unit. The device
    /// remembers that it was asked.
    pub fn au_viewport_size_for_viewport_unit_resolution(&mut self) -> (size: AuSize)
        ensures
            size == old(self)@.viewport_size,
            final(self)@ == (DeviceView { used_viewport_units: true, ..old(self)@ }),
    {
        self.used_viewport_units = true;
        self.au_viewport_size()
    }

    /// Whether a style has asked for the viewport size to resolve a unit.
    pub fn used_viewport_units(&self) -> (used: bool)
        ensures
            used == self@.used_viewport_units,
    {
        self.used_viewport_units
    }

    /// The ratio of device pixels to CSS pixels.
    pub fn device_pixel_ratio(&self) -> (ratio: DevicePixelRatio)
        ensures
            ratio == self@.device_pixel_ratio,
    {
        self.device_pixel_ratio
    }

    /// Takes the size that a viewport rule of the style sheets asks for.
    pub fn account_for_viewport_rule(&mut self, size: AuSize)
        ensures
            final(self)@ == (DeviceView { viewport_size: size, ..old(self)@ }),
    {
        self.viewport_size = size;
    }

    /// The kind of medium.
    pub fn media_type(&self) -> (kind: MediaType)
        ensures
            kind == self@.media_type,
    {
        self.media_type
    }

    /// Whether the colours of the document are used: always.
    pub fn use_document_colors(&self) -> (r: bool)
        ensures
            r,
    {
        true
    }

    /// The background colour of a document that names none: white.
    pub fn default_background_color(&self) -> (c: Rgba)
        ensures
            c == (Rgba { red: 255, green: 255, blue: 255, alpha: 255 }),
    {
        Rgba::white()
    }

    /// The text colour of a document that names none: black.
    pub fn default_color(&self) -> (c: Rgba)
        ensures
            c == (Rgba { red: 0, green: 0, blue: 0, alpha: 255 }),
    {
        Rgba::black()
    }

    /// The insets of the area that is safe from the device's notches: none.
    pub fn safe_area_insets(&self) -> (insets: AuSideOffsets)
        ensures
            insets == (AuSideOffsets { top: 0, right: 0, bottom: 0, left: 0 }),
    {
        AuSideOffsets::new_all_same(0)
    }

    /// Whether the device can show content of the media type that the text
    /// names: the text must parse as a media type, and the type must be one
    /// of the image types BMP, GIF, PNG, JPEG, icon and WebP.
    pub fn is_supported_mime_type(&self, mime_type: &str) -> (r: bool)
        ensures
            r == match mime_parsed(mime_type@) {
                Ok(m) => is_supported_image(m),
                Err(_) => false,
            },
    {
        let parsed = parse_mime(mime_type);
        supports(&parsed)
    }
}

} // verus!

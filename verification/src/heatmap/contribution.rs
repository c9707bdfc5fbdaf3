use vstd::prelude::*;

use colored::Colorize;

use crate::args::ColorValues;
use crate::dom::attr_value;
use crate::errors::{ErrorKind, HeatmapError, error_for, error_of_kind, valid_error};
use crate::text::{contains_seq, parse_usize, parse_usize_spec};

verus! {

/// One day's recorded activity, decoded from a scraped heatmap node.
///
/// The wrapped level is the node's `data-level` attribute read verbatim: it
/// is not clamped at decode time, only at render time, where every level of
/// four or more shades alike.
#[derive(Clone, Copy, Debug, PartialEq, Eq, Structural)]
pub struct Contribution {
    /// The day's activity level, exactly as published by the source page.
    pub heat_level: usize,
}

/// What decoding a day node's `data-level` attribute yields: the parsed
/// level, or the exact failure owed for an absent or unparsable attribute.
pub open spec fn level_step(attr: Option<String>) -> Result<usize, ErrorKind> {
    match attr {
        Option::None => Result::Err(ErrorKind::MissingLevelAttr),
        Option::Some(s) => match parse_usize_spec(s@) {
            Option::None => Result::Err(ErrorKind::UnparsableLevelAttr),
            Option::Some(level) => Result::Ok(level),
        },
    }
}

/// The intensity byte rendered for an activity level: a monotonic step
/// function that saturates at every level of four or more.
pub open spec fn intensity_spec(level: usize) -> u8 {
    if level == 0 {
        0
    } else if level == 1 {
        64
    } else if level == 2 {
        127
    } else if level == 3 {
        191
    } else {
        255
    }
}

/// A higher activity level never renders dimmer, and every level of four or
/// more renders at the same full intensity.
pub proof fn lemma_intensity_monotone(a: usize, b: usize)
    requires
        a <= b,
    ensures
        intensity_spec(a) <= intensity_spec(b),
        4 <= a ==> intensity_spec(a) == 255,
{
}

impl Contribution {
    /// Decodes an already-read `data-level` attribute value, exactly as
    /// [`level_step`] states.
    pub fn level_from_attr(attr: &Option<String>) -> (r: Result<usize, HeatmapError>)
        ensures
            match level_step(*attr) {
                Result::Ok(level) => r == Ok::<usize, HeatmapError>(level),
                Result::Err(kind) => r matches Err(e) && error_of_kind(kind, e),
            },
    {
        match attr {
            None => Err(error_for(ErrorKind::MissingLevelAttr)),
            Some(s) => match parse_usize(s.as_str()) {
                Some(level) => Ok(level),
                None => Err(error_for(ErrorKind::UnparsableLevelAttr)),
            },
        }
    }

    /// Reads and decodes the `data-level` attribute of one queried element.
    /// The attribute value itself comes from the scraped document, so the
    /// contract pins only the failure taxonomy; [`Self::level_from_attr`]
    /// states the decoding exactly.
    pub fn parse_heat_level(el: &scraper::ElementRef<'_>) -> (r: Result<usize, HeatmapError>)
        ensures
            r matches Err(e) ==> valid_error(e),
    {
        let attr = attr_value(el, "data-level");
        let r = Self::level_from_attr(&attr);
        proof {
            match level_step(attr) {
                Result::Ok(_) => {},
                Result::Err(kind) => {
                    assert(r matches Err(e) && error_of_kind(kind, e));
                },
            }
        }
        r
    }

    /// Decodes one queried element into a `Contribution`.
    pub fn from_el(el: &scraper::ElementRef<'_>) -> (r: Result<Self, HeatmapError>)
        ensures
            r matches Err(e) ==> valid_error(e),
    {
        match Self::parse_heat_level(el) {
            Ok(heat_level) => Ok(Contribution { heat_level }),
            Err(e) => Err(e),
        }
    }

    /// The intensity byte this contribution renders at, exactly as
    /// [`intensity_spec`] states.
    pub fn intensity(&self) -> (b: u8)
        ensures
            b == intensity_spec(self.heat_level),
    {
        match self.heat_level {
            0 => 0,
            1 => 64,
            2 => 127,
            3 => 191,
            _ => 255,
        }
    }

    /// Renders this contribution as one two-character cell — a filled block
    /// character and a trailing space — painted on the channel the hue
    /// selects at this contribution's intensity. The paint depends on the
    /// process's color configuration, so the contract pins what holds of
    /// every outcome: the cell text occurs in the result. The channel fed
    /// to the painter is [`rgb_spec`] of the hue and [`intensity_spec`] of
    /// the level.
    pub fn render(&self, color: &ColorValues) -> (cell: String)
        ensures
            contains_seq(cell@, "\u{25A0} "@),
    {
        let intensity = self.intensity();
        let channels = cell_channels(color, intensity);
        proof {
            reveal_strlit("\u{25A0} ");
            assert forall|i: int| 0 <= i < "\u{25A0} "@.len() implies "\u{25A0} "@[i]
                != '\u{1b}' by {
                assert("\u{25A0} "@.len() == 2);
            }
        }
        paint_text("\u{25A0} ", channels.0, channels.1, channels.2)
    }
}

/// The three color channels of a rendered cell: the channel the hue selects
/// carries the intensity, the other two stay zero.
pub open spec fn rgb_spec(color: ColorValues, intensity: u8) -> (u8, u8, u8) {
    match color {
        ColorValues::Red => (intensity, 0u8, 0u8),
        ColorValues::Green => (0u8, intensity, 0u8),
        ColorValues::Blue => (0u8, 0u8, intensity),
    }
}

/// Combines a hue and an intensity into the three color channels of a
/// cell, exactly as [`rgb_spec`] states.
pub fn cell_channels(color: &ColorValues, intensity: u8) -> (channels: (u8, u8, u8))
    ensures
        channels == rgb_spec(*color, intensity),
{
    match color {
        ColorValues::Red => (intensity, 0u8, 0u8),
        ColorValues::Green => (0u8, intensity, 0u8),
        ColorValues::Blue => (0u8, 0u8, intensity),
    }
}

/// Relies on colored's Colorize::color and its Display rendering: the
/// painted text is the given text either verbatim or wrapped in the color
/// escape prefix and reset suffix, depending on the process's color
/// configuration — either way the text occurs in the result, as long as the
/// text itself holds no escape character (colored rewrites inner reset
/// sequences).
#[verifier::external_body]
fn paint_text(s: &str, r: u8, g: u8, b: u8) -> (out: String)
    requires
        forall|i: int| 0 <= i < s@.len() ==> s@[i] != '\u{1b}',
    ensures
        contains_seq(out@, s@),
{
    s.color(colored::Color::TrueColor { r, g, b }).to_string()
}

} // verus!

//! RGB colors and the ways to write one down: by name and in hexadecimal.

use vstd::prelude::*;
use crate::error::BlinkStickError;
use crate::hex::hex_color;
use crate::palette::{palette_color, palette_lookup};
use crate::text::{lowercase, str_eq};

verus! {

/// A color as three independent channels.
#[derive(Clone, Copy, Debug, PartialEq, Eq, Structural)]
pub struct RgbColor {
    pub r: u8,
    pub g: u8,
    pub b: u8,
}

/// What a color name stands for.
#[derive(Clone, Copy, Debug, PartialEq, Eq, Structural)]
pub enum NamedColor {
    /// A color of the table.
    Fixed(RgbColor),
    /// A color drawn afresh each time the name is used.
    Random,
}

/// What the lowercase name `lower` stands for, if it is a color name at all.
pub open spec fn named_color(lower: Seq<char>) -> Option<NamedColor> {
    if lower == "random"@ {
        Some(NamedColor::Random)
    } else {
        match palette_color(lower) {
            Some(color) => Some(NamedColor::Fixed(color)),
            None => None,
        }
    }
}

/// Looks up a name that is already in lower case.
pub fn lookup_name(lower: &str) -> (named: Option<NamedColor>)
    ensures
        named == named_color(lower@),
{
    if str_eq(lower, "random") {
        Some(NamedColor::Random)
    } else {
        match palette_lookup(lower) {
            Some(color) => Some(NamedColor::Fixed(color)),
            None => None,
        }
    }
}

/// Calls `rand::random` for one byte, which samples the thread's generator.
/// Any byte may come back.
#[verifier::external_body]
fn random_byte() -> u8 {
    rand::random::<u8>()
}

impl RgbColor {
    /// The color with the given channels.
    pub fn new(r: u8, g: u8, b: u8) -> (color: Self)
        ensures
            color == (RgbColor { r, g, b }),
    {
        Self { r, g, b }
    }

    /// A color whose three channels are sampled one after the other.
    pub fn random() -> Self {
        let r = random_byte();
        let g = random_byte();
        let b = random_byte();
        Self { r, g, b }
    }

    /// The color that `name` stands for, whatever the case of its letters.
    /// A name of the table gives its color, the name `random` gives some
    /// color, and any other text gives nothing.
    pub fn from_name(name: &str) -> (color: Option<Self>)
        ensures
            (match named_color(lowercase(name@)) {
                Some(NamedColor::Fixed(fixed)) => color == Some(fixed),
                Some(NamedColor::Random) => color is Some,
                None => color is None,
            }),
    {
        let lower = name.to_lowercase();
        match lookup_name(lower.as_str()) {
            Some(NamedColor::Fixed(fixed)) => Some(fixed),
            Some(NamedColor::Random) => Some(Self::random()),
            None => None,
        }
    }
}

/// What a text stands for as a color: it is read as a name, then as
/// hexadecimal notation.
pub open spec fn resolved_color(token: Seq<char>) -> Option<NamedColor> {
    match named_color(lowercase(token)) {
        Some(named) => Some(named),
        None => match hex_color(token) {
            Some(color) => Some(NamedColor::Fixed(color)),
            None => None,
        },
    }
}

/// The color that `token` stands for. It is tried as a name first, then as
/// hexadecimal notation, then as the word `random`; a text that is none of
/// these is a failure.
pub fn parse_color(token: &str) -> (color: Result<RgbColor, BlinkStickError>)
    ensures
        (match resolved_color(token@) {
            Some(NamedColor::Fixed(fixed)) => color == Ok::<RgbColor, BlinkStickError>(fixed),
            Some(NamedColor::Random) => color is Ok,
            None => color == Err::<RgbColor, BlinkStickError>(BlinkStickError::InvalidColor),
        }),
{
    if let Some(color) = RgbColor::from_name(token) {
        return Ok(color);
    }
    if let Some(color) = RgbColor::from_hex(token) {
        return Ok(color);
    }
    if str_eq(token.to_lowercase().as_str(), "random") {
        return Ok(RgbColor::random());
    }
    Err(BlinkStickError::InvalidColor)
}

/// Two names with the same lowercase form stand for the same: the case of
/// the letters of a name does not matter.
pub proof fn lemma_name_ignores_case(a: Seq<char>, b: Seq<char>)
    requires
        lowercase(a) == lowercase(b),
    ensures
        named_color(lowercase(a)) == named_color(lowercase(b)),
{
}

} // verus!

//! The feature reports that set and read LED colors, and their layout on
//! the wire.

use vstd::prelude::*;
use vstd::slice::slice_to_vec;
use crate::color::RgbColor;

verus! {

/// The report that holds the color of the first LED.
pub const REPORT_SINGLE: u8 = 1;

/// The report that sets the color of one LED by its index.
pub const REPORT_INDEXED: u8 = 2;

/// The report that sets the colors of the LEDs of one channel.
pub const REPORT_MULTI: u8 = 3;

/// The most LEDs that one report can set: their count has to fit one byte.
pub const MAX_LEDS: usize = 255;

/// The three bytes of a color in the order in which every report carries
/// them: red, green, blue.
pub open spec fn wire_channels(color: RgbColor) -> Seq<u8> {
    seq![color.r, color.g, color.b]
}

/// The bytes of a run of colors, three for each, one color after the other.
pub open spec fn led_bytes(leds: Seq<RgbColor>) -> Seq<u8> {
    Seq::new(3 * leds.len(), |i: int| wire_channels(leds[i / 3])[i % 3])
}

/// The bytes of the report that sets the first LED.
pub open spec fn single_payload(color: RgbColor) -> Seq<u8> {
    seq![REPORT_SINGLE] + wire_channels(color)
}

/// The bytes of the report that sets the LED at `index`.
pub open spec fn indexed_payload(index: u8, color: RgbColor) -> Seq<u8> {
    seq![REPORT_INDEXED, index] + wire_channels(color)
}

/// The bytes of the report that sets the LEDs of `channel`.
pub open spec fn multi_payload(channel: u8, leds: Seq<RgbColor>) -> Seq<u8>
    recommends
        leds.len() <= MAX_LEDS,
{
    seq![REPORT_MULTI, channel, 0u8, leds.len() as u8] + led_bytes(leds)
}

/// The color that a report of the first LED holds.
pub open spec fn single_color(bytes: Seq<u8>) -> RgbColor
    recommends
        bytes.len() == 4,
{
    RgbColor { r: bytes[1], g: bytes[2], b: bytes[3] }
}

/// Reading a report of the first LED is the inverse of writing it: it gives
/// the color that was written, and writing the color of a report of the
/// first LED gives the report.
pub proof fn lemma_single_round_trip(color: RgbColor, bytes: Seq<u8>)
    ensures
        single_color(single_payload(color)) == color,
        bytes.len() == 4 && bytes[0] == REPORT_SINGLE ==> single_payload(single_color(bytes))
            == bytes,
{
}

/// The length of each report: four bytes for the first LED, five for an LED
/// by its index, and four and three for each LED for a channel.
pub proof fn lemma_payload_lengths(index: u8, channel: u8, color: RgbColor, leds: Seq<RgbColor>)
    ensures
        single_payload(color).len() == 4,
        indexed_payload(index, color).len() == 5,
        multi_payload(channel, leds).len() == 4 + 3 * leds.len(),
{
}

/// A feature report, one variant for each layout.
#[derive(Debug, PartialEq, Eq)]
pub enum FeatureReport {
    /// Sets the first LED.
    Single { color: RgbColor },
    /// Sets the LED at `index`, which is not the first.
    Indexed { index: u8, color: RgbColor },
    /// Sets the LEDs of `channel`, from the first on.
    Multi { channel: u8, leds: Vec<RgbColor> },
}

impl FeatureReport {
    /// Whether the report can be laid out: an indexed report does not
    /// address the first LED, and the LEDs of a channel can be counted in
    /// one byte.
    pub open spec fn valid(&self) -> bool {
        match self {
            FeatureReport::Single { .. } => true,
            FeatureReport::Indexed { index, .. } => *index != 0,
            FeatureReport::Multi { leds, .. } => leds@.len() <= MAX_LEDS,
        }
    }

    /// The report id, which is the first byte on the wire.
    pub open spec fn report_id(&self) -> u8 {
        match self {
            FeatureReport::Single { .. } => REPORT_SINGLE,
            FeatureReport::Indexed { .. } => REPORT_INDEXED,
            FeatureReport::Multi { .. } => REPORT_MULTI,
        }
    }

    /// How many bytes the report takes on the wire: four for the first LED,
    /// five for an LED by its index, and four and three for each LED for a
    /// channel.
    pub open spec fn wire_len(&self) -> nat {
        match self {
            FeatureReport::Single { .. } => 4,
            FeatureReport::Indexed { .. } => 5,
            FeatureReport::Multi { leds, .. } => 4 + 3 * leds@.len(),
        }
    }

    /// The bytes of the report on the wire.
    pub open spec fn payload(&self) -> Seq<u8> {
        match self {
            FeatureReport::Single { color } => single_payload(*color),
            FeatureReport::Indexed { index, color } => indexed_payload(*index, *color),
            FeatureReport::Multi { channel, leds } => multi_payload(*channel, leds@),
        }
    }

    /// Whether the report sets the LEDs of `channel` to `leds`.
    pub open spec fn is_multi(&self, channel: u8, leds: Seq<RgbColor>) -> bool {
        match self {
            FeatureReport::Multi { channel: c, leds: l } => *c == channel && l@ == leds,
            _ => false,
        }
    }

    /// The report that sets the LED at `index`: the first LED has a report
    /// of its own.
    pub open spec fn for_index_spec(index: u8, color: RgbColor) -> FeatureReport {
        if index == 0 {
            FeatureReport::Single { color }
        } else {
            FeatureReport::Indexed { index, color }
        }
    }

    /// The report that sets the LED at `index`.
    pub fn for_index(index: u8, color: RgbColor) -> (report: Self)
        ensures
            report == Self::for_index_spec(index, color),
            report.valid(),
    {
        if index == 0 {
            FeatureReport::Single { color }
        } else {
            FeatureReport::Indexed { index, color }
        }
    }

    /// The report that sets the LEDs of `channel` from the first on: none
    /// where there is nothing to set, and the report of the first LED where
    /// there is one color.
    pub fn for_leds(channel: u8, leds: &[RgbColor]) -> (report: Option<Self>)
        requires
            leds@.len() <= MAX_LEDS,
        ensures
            leds@.len() == 0 ==> report is None,
            leds@.len() == 1 ==> report == Some(Self::for_index_spec(0, leds@[0])),
            leds@.len() >= 2 ==> report is Some && report->0.is_multi(channel, leds@),
            report matches Some(r) ==> r.valid(),
    {
        if leds.len() == 0 {
            None
        } else if leds.len() == 1 {
            Some(FeatureReport::Single { color: leds[0] })
        } else {
            Some(FeatureReport::Multi { channel, leds: slice_to_vec(leds) })
        }
    }

    /// Lays the report out as the bytes that go on the wire.
    pub fn encode(&self) -> (bytes: Vec<u8>)
        requires
            self.valid(),
        ensures
            bytes@ == self.payload(),
            bytes@.len() == self.wire_len(),
            bytes@[0] == self.report_id(),
    {
        match self {
            FeatureReport::Single { color } => vec![REPORT_SINGLE, color.r, color.g, color.b],
            FeatureReport::Indexed { index, color } => vec![
                REPORT_INDEXED,
                *index,
                color.r,
                color.g,
                color.b,
            ],
            FeatureReport::Multi { channel, leds } => {
                let count = leds.len();
                let mut bytes = vec![REPORT_MULTI, *channel, 0u8, count as u8];
                let ghost header = bytes@;
                let mut i: usize = 0;
                while i < count
                    invariant
                        i <= count,
                        count == leds@.len(),
                        header.len() == 4,
                        bytes@ == header + led_bytes(leds@.take(i as int)),
                    decreases count - i,
                {
                    let color = leds[i];
                    bytes.push(color.r);
                    bytes.push(color.g);
                    bytes.push(color.b);
                    proof {
                        let before = leds@.take(i as int);
                        let after = leds@.take(i + 1);
                        assert(led_bytes(after) =~= led_bytes(before) + wire_channels(
                            leds@[i as int],
                        ));
                    }
                    i += 1;
                }
                bytes
            },
        }
    }

    /// Reads the color out of the four bytes of a report of the first LED.
    pub fn decode_color(bytes: &[u8; 4]) -> (color: RgbColor)
        ensures
            color == single_color(bytes@),
    {
        RgbColor { r: bytes[1], g: bytes[2], b: bytes[3] }
    }
}

} // verus!

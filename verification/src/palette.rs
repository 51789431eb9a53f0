//! The table of named colors.

use vstd::prelude::*;
use crate::color::RgbColor;
use crate::text::str_eq;

verus! {

/// The color that the table of named colors gives for `name`, which is matched
/// as it stands: the names of the table are in lower case.
pub open spec fn palette_color(name: Seq<char>) -> Option<RgbColor> {
    if name == "aliceblue"@ {
        Some(RgbColor { r: 240, g: 248, b: 255 })
    } else if name == "antiquewhite"@ {
        Some(RgbColor { r: 250, g: 235, b: 215 })
    } else if name == "aqua"@ || name == "cyan"@ {
        Some(RgbColor { r: 0, g: 255, b: 255 })
    } else if name == "aquamarine"@ {
        Some(RgbColor { r: 127, g: 255, b: 212 })
    } else if name == "azure"@ {
        Some(RgbColor { r: 240, g: 255, b: 255 })
    } else if name == "beige"@ {
        Some(RgbColor { r: 245, g: 245, b: 220 })
    } else if name == "bisque"@ {
        Some(RgbColor { r: 255, g: 228, b: 196 })
    } else if name == "black"@ || name == "off"@ {
        Some(RgbColor { r: 0, g: 0, b: 0 })
    } else if name == "blanchedalmond"@ {
        Some(RgbColor { r: 255, g: 235, b: 205 })
    } else if name == "blue"@ {
        Some(RgbColor { r: 0, g: 0, b: 255 })
    } else if name == "blueviolet"@ {
        Some(RgbColor { r: 138, g: 43, b: 226 })
    } else if name == "brown"@ {
        Some(RgbColor { r: 165, g: 42, b: 42 })
    } else if name == "burlywood"@ {
        Some(RgbColor { r: 222, g: 184, b: 135 })
    } else if name == "cadetblue"@ {
        Some(RgbColor { r: 95, g: 158, b: 160 })
    } else if name == "chartreuse"@ {
        Some(RgbColor { r: 127, g: 255, b: 0 })
    } else if name == "chocolate"@ {
        Some(RgbColor { r: 210, g: 105, b: 30 })
    } else if name == "coral"@ {
        Some(RgbColor { r: 255, g: 127, b: 80 })
    } else if name == "cornflowerblue"@ {
        Some(RgbColor { r: 100, g: 149, b: 237 })
    } else if name == "cornsilk"@ {
        Some(RgbColor { r: 255, g: 248, b: 220 })
    } else if name == "crimson"@ {
        Some(RgbColor { r: 220, g: 20, b: 60 })
    } else if name == "darkblue"@ {
        Some(RgbColor { r: 0, g: 0, b: 139 })
    } else if name == "darkcyan"@ {
        Some(RgbColor { r: 0, g: 139, b: 139 })
    } else if name == "darkgoldenrod"@ {
        Some(RgbColor { r: 184, g: 134, b: 11 })
    } else if name == "darkgray"@ || name == "darkgrey"@ {
        Some(RgbColor { r: 169, g: 169, b: 169 })
    } else if name == "darkgreen"@ {
        Some(RgbColor { r: 0, g: 100, b: 0 })
    } else if name == "darkkhaki"@ {
        Some(RgbColor { r: 189, g: 183, b: 107 })
    } else if name == "darkmagenta"@ {
        Some(RgbColor { r: 139, g: 0, b: 139 })
    } else if name == "darkolivegreen"@ {
        Some(RgbColor { r: 85, g: 107, b: 47 })
    } else if name == "darkorange"@ {
        Some(RgbColor { r: 255, g: 140, b: 0 })
    } else if name == "darkorchid"@ {
        Some(RgbColor { r: 153, g: 50, b: 204 })
    } else if name == "darkred"@ {
        Some(RgbColor { r: 139, g: 0, b: 0 })
    } else if name == "darksalmon"@ {
        Some(RgbColor { r: 233, g: 150, b: 122 })
    } else if name == "darkseagreen"@ {
        Some(RgbColor { r: 143, g: 188, b: 143 })
    } else if name == "darkslateblue"@ {
        Some(RgbColor { r: 72, g: 61, b: 139 })
    } else if name == "darkslategray"@ || name == "darkslategrey"@ {
        Some(RgbColor { r: 47, g: 79, b: 79 })
    } else if name == "darkturquoise"@ {
        Some(RgbColor { r: 0, g: 206, b: 209 })
    } else if name == "darkviolet"@ {
        Some(RgbColor { r: 148, g: 0, b: 211 })
    } else if name == "deeppink"@ {
        Some(RgbColor { r: 255, g: 20, b: 147 })
    } else if name == "deepskyblue"@ {
        Some(RgbColor { r: 0, g: 191, b: 255 })
    } else if name == "dimgray"@ || name == "dimgrey"@ {
        Some(RgbColor { r: 105, g: 105, b: 105 })
    } else if name == "dodgerblue"@ {
        Some(RgbColor { r: 30, g: 144, b: 255 })
    } else if name == "firebrick"@ {
        Some(RgbColor { r: 178, g: 34, b: 34 })
    } else if name == "floralwhite"@ {
        Some(RgbColor { r: 255, g: 250, b: 240 })
    } else if name == "forestgreen"@ {
        Some(RgbColor { r: 34, g: 139, b: 34 })
    } else if name == "fuchsia"@ || name == "magenta"@ {
        Some(RgbColor { r: 255, g: 0, b: 255 })
    } else if name == "gainsboro"@ {
        Some(RgbColor { r: 220, g: 220, b: 220 })
    } else if name == "ghostwhite"@ {
        Some(RgbColor { r: 248, g: 248, b: 255 })
    } else if name == "gold"@ {
        Some(RgbColor { r: 255, g: 215, b: 0 })
    } else if name == "goldenrod"@ {
        Some(RgbColor { r: 218, g: 165, b: 32 })
    } else if name == "gray"@ || name == "grey"@ {
        Some(RgbColor { r: 128, g: 128, b: 128 })
    } else if name == "green"@ {
        Some(RgbColor { r: 0, g: 128, b: 0 })
    } else if name == "greenyellow"@ {
        Some(RgbColor { r: 173, g: 255, b: 47 })
    } else if name == "honeydew"@ {
        Some(RgbColor { r: 240, g: 255, b: 240 })
    } else if name == "hotpink"@ {
        Some(RgbColor { r: 255, g: 105, b: 180 })
    } else if name == "indianred"@ {
        Some(RgbColor { r: 205, g: 92, b: 92 })
    } else if name == "indigo"@ {
        Some(RgbColor { r: 75, g: 0, b: 130 })
    } else if name == "ivory"@ {
        Some(RgbColor { r: 255, g: 255, b: 240 })
    } else if name == "khaki"@ {
        Some(RgbColor { r: 240, g: 230, b: 140 })
    } else if name == "lavender"@ {
        Some(RgbColor { r: 230, g: 230, b: 250 })
    } else if name == "lavenderblush"@ {
        Some(RgbColor { r: 255, g: 240, b: 245 })
    } else if name == "lawngreen"@ {
        Some(RgbColor { r: 124, g: 252, b: 0 })
    } else if name == "lemonchiffon"@ {
        Some(RgbColor { r: 255, g: 250, b: 205 })
    } else if name == "lightblue"@ {
        Some(RgbColor { r: 173, g: 216, b: 230 })
    } else if name == "lightcoral"@ {
        Some(RgbColor { r: 240, g: 128, b: 128 })
    } else if name == "lightcyan"@ {
        Some(RgbColor { r: 224, g: 255, b: 255 })
    } else if name == "lightgoldenrodyellow"@ {
        Some(RgbColor { r: 250, g: 250, b: 210 })
    } else if name == "lightgray"@ || name == "lightgrey"@ {
        Some(RgbColor { r: 211, g: 211, b: 211 })
    } else if name == "lightgreen"@ {
        Some(RgbColor { r: 144, g: 238, b: 144 })
    } else if name == "lightpink"@ {
        Some(RgbColor { r: 255, g: 182, b: 193 })
    } else if name == "lightsalmon"@ {
        Some(RgbColor { r: 255, g: 160, b: 122 })
    } else if name == "lightseagreen"@ {
        Some(RgbColor { r: 32, g: 178, b: 170 })
    } else if name == "lightskyblue"@ {
        Some(RgbColor { r: 135, g: 206, b: 250 })
    } else if name == "lightslategray"@ || name == "lightslategrey"@ {
        Some(RgbColor { r: 119, g: 136, b: 153 })
    } else if name == "lightsteelblue"@ {
        Some(RgbColor { r: 176, g: 196, b: 222 })
    } else if name == "lightyellow"@ {
        Some(RgbColor { r: 255, g: 255, b: 224 })
    } else if name == "lime"@ {
        Some(RgbColor { r: 0, g: 255, b: 0 })
    } else if name == "limegreen"@ {
        Some(RgbColor { r: 50, g: 205, b: 50 })
    } else if name == "linen"@ {
        Some(RgbColor { r: 250, g: 240, b: 230 })
    } else if name == "maroon"@ {
        Some(RgbColor { r: 128, g: 0, b: 0 })
    } else if name == "mediumaquamarine"@ {
        Some(RgbColor { r: 102, g: 205, b: 170 })
    } else if name == "mediumblue"@ {
        Some(RgbColor { r: 0, g: 0, b: 205 })
    } else if name == "mediumorchid"@ {
        Some(RgbColor { r: 186, g: 85, b: 211 })
    } else if name == "mediumpurple"@ {
        Some(RgbColor { r: 147, g: 112, b: 216 })
    } else if name == "mediumseagreen"@ {
        Some(RgbColor { r: 60, g: 179, b: 113 })
    } else if name == "mediumslateblue"@ {
        Some(RgbColor { r: 123, g: 104, b: 238 })
    } else if name == "mediumspringgreen"@ {
        Some(RgbColor { r: 0, g: 250, b: 154 })
    } else if name == "mediumturquoise"@ {
        Some(RgbColor { r: 72, g: 209, b: 204 })
    } else if name == "mediumvioletred"@ {
        Some(RgbColor { r: 199, g: 21, b: 133 })
    } else if name == "midnightblue"@ {
        Some(RgbColor { r: 25, g: 25, b: 112 })
    } else if name == "mintcream"@ {
        Some(RgbColor { r: 245, g: 255, b: 250 })
    } else if name == "mistyrose"@ {
        Some(RgbColor { r: 255, g: 228, b: 225 })
    } else if name == "moccasin"@ {
        Some(RgbColor { r: 255, g: 228, b: 181 })
    } else if name == "navajowhite"@ {
        Some(RgbColor { r: 255, g: 222, b: 173 })
    } else if name == "navy"@ {
        Some(RgbColor { r: 0, g: 0, b: 128 })
    } else if name == "oldlace"@ {
        Some(RgbColor { r: 253, g: 245, b: 230 })
    } else if name == "olive"@ {
        Some(RgbColor { r: 128, g: 128, b: 0 })
    } else if name == "olivedrab"@ {
        Some(RgbColor { r: 107, g: 142, b: 35 })
    } else if name == "orange"@ {
        Some(RgbColor { r: 255, g: 165, b: 0 })
    } else if name == "orangered"@ {
        Some(RgbColor { r: 255, g: 69, b: 0 })
    } else if name == "orchid"@ {
        Some(RgbColor { r: 218, g: 112, b: 214 })
    } else if name == "palegoldenrod"@ {
        Some(RgbColor { r: 238, g: 232, b: 170 })
    } else if name == "palegreen"@ {
        Some(RgbColor { r: 152, g: 251, b: 152 })
    } else if name == "paleturquoise"@ {
        Some(RgbColor { r: 175, g: 238, b: 238 })
    } else if name == "palevioletred"@ {
        Some(RgbColor { r: 216, g: 112, b: 147 })
    } else if name == "papayawhip"@ {
        Some(RgbColor { r: 255, g: 239, b: 213 })
    } else if name == "peachpuff"@ {
        Some(RgbColor { r: 255, g: 218, b: 185 })
    } else if name == "peru"@ {
        Some(RgbColor { r: 205, g: 133, b: 63 })
    } else if name == "pink"@ {
        Some(RgbColor { r: 255, g: 192, b: 203 })
    } else if name == "plum"@ {
        Some(RgbColor { r: 221, g: 160, b: 221 })
    } else if name == "powderblue"@ {
        Some(RgbColor { r: 176, g: 224, b: 230 })
    } else if name == "purple"@ {
        Some(RgbColor { r: 128, g: 0, b: 128 })
    } else if name == "red"@ {
        Some(RgbColor { r: 255, g: 0, b: 0 })
    } else if name == "rosybrown"@ {
        Some(RgbColor { r: 188, g: 143, b: 143 })
    } else if name == "royalblue"@ {
        Some(RgbColor { r: 65, g: 105, b: 225 })
    } else if name == "saddlebrown"@ {
        Some(RgbColor { r: 139, g: 69, b: 19 })
    } else if name == "salmon"@ {
        Some(RgbColor { r: 250, g: 128, b: 114 })
    } else if name == "sandybrown"@ {
        Some(RgbColor { r: 244, g: 164, b: 96 })
    } else if name == "seagreen"@ {
        Some(RgbColor { r: 46, g: 139, b: 87 })
    } else if name == "seashell"@ {
        Some(RgbColor { r: 255, g: 245, b: 238 })
    } else if name == "sienna"@ {
        Some(RgbColor { r: 160, g: 82, b: 45 })
    } else if name == "silver"@ {
        Some(RgbColor { r: 192, g: 192, b: 192 })
    } else if name == "skyblue"@ {
        Some(RgbColor { r: 135, g: 206, b: 235 })
    } else if name == "slateblue"@ {
        Some(RgbColor { r: 106, g: 90, b: 205 })
    } else if name == "slategray"@ || name == "slategrey"@ {
        Some(RgbColor { r: 112, g: 128, b: 144 })
    } else if name == "snow"@ {
        Some(RgbColor { r: 255, g: 250, b: 250 })
    } else if name == "springgreen"@ {
        Some(RgbColor { r: 0, g: 255, b: 127 })
    } else if name == "steelblue"@ {
        Some(RgbColor { r: 70, g: 130, b: 180 })
    } else if name == "tan"@ {
        Some(RgbColor { r: 210, g: 180, b: 140 })
    } else if name == "teal"@ {
        Some(RgbColor { r: 0, g: 128, b: 128 })
    } else if name == "thistle"@ {
        Some(RgbColor { r: 216, g: 191, b: 216 })
    } else if name == "tomato"@ {
        Some(RgbColor { r: 255, g: 99, b: 71 })
    } else if name == "turquoise"@ {
        Some(RgbColor { r: 64, g: 224, b: 208 })
    } else if name == "violet"@ {
        Some(RgbColor { r: 238, g: 130, b: 238 })
    } else if name == "wheat"@ {
        Some(RgbColor { r: 245, g: 222, b: 179 })
    } else if name == "white"@ {
        Some(RgbColor { r: 255, g: 255, b: 255 })
    } else if name == "whitesmoke"@ {
        Some(RgbColor { r: 245, g: 245, b: 245 })
    } else if name == "yellow"@ {
        Some(RgbColor { r: 255, g: 255, b: 0 })
    } else if name == "yellowgreen"@ {
        Some(RgbColor { r: 154, g: 205, b: 50 })
    } else {
        None
    }
}

/// Looks `name` up in the table of named colors.
pub fn palette_lookup(name: &str) -> (color: Option<RgbColor>)
    ensures
        color == palette_color(name@),
{
    if str_eq(name, "aliceblue") {
        Some(RgbColor::new(240, 248, 255))
    } else if str_eq(name, "antiquewhite") {
        Some(RgbColor::new(250, 235, 215))
    } else if str_eq(name, "aqua") || str_eq(name, "cyan") {
        Some(RgbColor::new(0, 255, 255))
    } else if str_eq(name, "aquamarine") {
        Some(RgbColor::new(127, 255, 212))
    } else if str_eq(name, "azure") {
        Some(RgbColor::new(240, 255, 255))
    } else if str_eq(name, "beige") {
        Some(RgbColor::new(245, 245, 220))
    } else if str_eq(name, "bisque") {
        Some(RgbColor::new(255, 228, 196))
    } else if str_eq(name, "black") || str_eq(name, "off") {
        Some(RgbColor::new(0, 0, 0))
    } else if str_eq(name, "blanchedalmond") {
        Some(RgbColor::new(255, 235, 205))
    } else if str_eq(name, "blue") {
        Some(RgbColor::new(0, 0, 255))
    } else if str_eq(name, "blueviolet") {
        Some(RgbColor::new(138, 43, 226))
    } else if str_eq(name, "brown") {
        Some(RgbColor::new(165, 42, 42))
    } else if str_eq(name, "burlywood") {
        Some(RgbColor::new(222, 184, 135))
    } else if str_eq(name, "cadetblue") {
        Some(RgbColor::new(95, 158, 160))
    } else if str_eq(name, "chartreuse") {
        Some(RgbColor::new(127, 255, 0))
    } else if str_eq(name, "chocolate") {
        Some(RgbColor::new(210, 105, 30))
    } else if str_eq(name, "coral") {
        Some(RgbColor::new(255, 127, 80))
    } else if str_eq(name, "cornflowerblue") {
        Some(RgbColor::new(100, 149, 237))
    } else if str_eq(name, "cornsilk") {
        Some(RgbColor::new(255, 248, 220))
    } else if str_eq(name, "crimson") {
        Some(RgbColor::new(220, 20, 60))
    } else if str_eq(name, "darkblue") {
        Some(RgbColor::new(0, 0, 139))
    } else if str_eq(name, "darkcyan") {
        Some(RgbColor::new(0, 139, 139))
    } else if str_eq(name, "darkgoldenrod") {
        Some(RgbColor::new(184, 134, 11))
    } else if str_eq(name, "darkgray") || str_eq(name, "darkgrey") {
        Some(RgbColor::new(169, 169, 169))
    } else if str_eq(name, "darkgreen") {
        Some(RgbColor::new(0, 100, 0))
    } else if str_eq(name, "darkkhaki") {
        Some(RgbColor::new(189, 183, 107))
    } else if str_eq(name, "darkmagenta") {
        Some(RgbColor::new(139, 0, 139))
    } else if str_eq(name, "darkolivegreen") {
        Some(RgbColor::new(85, 107, 47))
    } else if str_eq(name, "darkorange") {
        Some(RgbColor::new(255, 140, 0))
    } else if str_eq(name, "darkorchid") {
        Some(RgbColor::new(153, 50, 204))
    } else if str_eq(name, "darkred") {
        Some(RgbColor::new(139, 0, 0))
    } else if str_eq(name, "darksalmon") {
        Some(RgbColor::new(233, 150, 122))
    } else if str_eq(name, "darkseagreen") {
        Some(RgbColor::new(143, 188, 143))
    } else if str_eq(name, "darkslateblue") {
        Some(RgbColor::new(72, 61, 139))
    } else if str_eq(name, "darkslategray") || str_eq(name, "darkslategrey") {
        Some(RgbColor::new(47, 79, 79))
    } else if str_eq(name, "darkturquoise") {
        Some(RgbColor::new(0, 206, 209))
    } else if str_eq(name, "darkviolet") {
        Some(RgbColor::new(148, 0, 211))
    } else if str_eq(name, "deeppink") {
        Some(RgbColor::new(255, 20, 147))
    } else if str_eq(name, "deepskyblue") {
        Some(RgbColor::new(0, 191, 255))
    } else if str_eq(name, "dimgray") || str_eq(name, "dimgrey") {
        Some(RgbColor::new(105, 105, 105))
    } else if str_eq(name, "dodgerblue") {
        Some(RgbColor::new(30, 144, 255))
    } else if str_eq(name, "firebrick") {
        Some(RgbColor::new(178, 34, 34))
    } else if str_eq(name, "floralwhite") {
        Some(RgbColor::new(255, 250, 240))
    } else if str_eq(name, "forestgreen") {
        Some(RgbColor::new(34, 139, 34))
    } else if str_eq(name, "fuchsia") || str_eq(name, "magenta") {
        Some(RgbColor::new(255, 0, 255))
    } else if str_eq(name, "gainsboro") {
        Some(RgbColor::new(220, 220, 220))
    } else if str_eq(name, "ghostwhite") {
        Some(RgbColor::new(248, 248, 255))
    } else if str_eq(name, "gold") {
        Some(RgbColor::new(255, 215, 0))
    } else if str_eq(name, "goldenrod") {
        Some(RgbColor::new(218, 165, 32))
    } else if str_eq(name, "gray") || str_eq(name, "grey") {
        Some(RgbColor::new(128, 128, 128))
    } else if str_eq(name, "green") {
        Some(RgbColor::new(0, 128, 0))
    } else if str_eq(name, "greenyellow") {
        Some(RgbColor::new(173, 255, 47))
    } else if str_eq(name, "honeydew") {
        Some(RgbColor::new(240, 255, 240))
    } else if str_eq(name, "hotpink") {
        Some(RgbColor::new(255, 105, 180))
    } else if str_eq(name, "indianred") {
        Some(RgbColor::new(205, 92, 92))
    } else if str_eq(name, "indigo") {
        Some(RgbColor::new(75, 0, 130))
    } else if str_eq(name, "ivory") {
        Some(RgbColor::new(255, 255, 240))
    } else if str_eq(name, "khaki") {
        Some(RgbColor::new(240, 230, 140))
    } else if str_eq(name, "lavender") {
        Some(RgbColor::new(230, 230, 250))
    } else if str_eq(name, "lavenderblush") {
        Some(RgbColor::new(255, 240, 245))
    } else if str_eq(name, "lawngreen") {
        Some(RgbColor::new(124, 252, 0))
    } else if str_eq(name, "lemonchiffon") {
        Some(RgbColor::new(255, 250, 205))
    } else if str_eq(name, "lightblue") {
        Some(RgbColor::new(173, 216, 230))
    } else if str_eq(name, "lightcoral") {
        Some(RgbColor::new(240, 128, 128))
    } else if str_eq(name, "lightcyan") {
        Some(RgbColor::new(224, 255, 255))
    } else if str_eq(name, "lightgoldenrodyellow") {
        Some(RgbColor::new(250, 250, 210))
    } else if str_eq(name, "lightgray") || str_eq(name, "lightgrey") {
        Some(RgbColor::new(211, 211, 211))
    } else if str_eq(name, "lightgreen") {
        Some(RgbColor::new(144, 238, 144))
    } else if str_eq(name, "lightpink") {
        Some(RgbColor::new(255, 182, 193))
    } else if str_eq(name, "lightsalmon") {
        Some(RgbColor::new(255, 160, 122))
    } else if str_eq(name, "lightseagreen") {
        Some(RgbColor::new(32, 178, 170))
    } else if str_eq(name, "lightskyblue") {
        Some(RgbColor::new(135, 206, 250))
    } else if str_eq(name, "lightslategray") || str_eq(name, "lightslategrey") {
        Some(RgbColor::new(119, 136, 153))
    } else if str_eq(name, "lightsteelblue") {
        Some(RgbColor::new(176, 196, 222))
    } else if str_eq(name, "lightyellow") {
        Some(RgbColor::new(255, 255, 224))
    } else if str_eq(name, "lime") {
        Some(RgbColor::new(0, 255, 0))
    } else if str_eq(name, "limegreen") {
        Some(RgbColor::new(50, 205, 50))
    } else if str_eq(name, "linen") {
        Some(RgbColor::new(250, 240, 230))
    } else if str_eq(name, "maroon") {
        Some(RgbColor::new(128, 0, 0))
    } else if str_eq(name, "mediumaquamarine") {
        Some(RgbColor::new(102, 205, 170))
    } else if str_eq(name, "mediumblue") {
        Some(RgbColor::new(0, 0, 205))
    } else if str_eq(name, "mediumorchid") {
        Some(RgbColor::new(186, 85, 211))
    } else if str_eq(name, "mediumpurple") {
        Some(RgbColor::new(147, 112, 216))
    } else if str_eq(name, "mediumseagreen") {
        Some(RgbColor::new(60, 179, 113))
    } else if str_eq(name, "mediumslateblue") {
        Some(RgbColor::new(123, 104, 238))
    } else if str_eq(name, "mediumspringgreen") {
        Some(RgbColor::new(0, 250, 154))
    } else if str_eq(name, "mediumturquoise") {
        Some(RgbColor::new(72, 209, 204))
    } else if str_eq(name, "mediumvioletred") {
        Some(RgbColor::new(199, 21, 133))
    } else if str_eq(name, "midnightblue") {
        Some(RgbColor::new(25, 25, 112))
    } else if str_eq(name, "mintcream") {
        Some(RgbColor::new(245, 255, 250))
    } else if str_eq(name, "mistyrose") {
        Some(RgbColor::new(255, 228, 225))
    } else if str_eq(name, "moccasin") {
        Some(RgbColor::new(255, 228, 181))
    } else if str_eq(name, "navajowhite") {
        Some(RgbColor::new(255, 222, 173))
    } else if str_eq(name, "navy") {
        Some(RgbColor::new(0, 0, 128))
    } else if str_eq(name, "oldlace") {
        Some(RgbColor::new(253, 245, 230))
    } else if str_eq(name, "olive") {
        Some(RgbColor::new(128, 128, 0))
    } else if str_eq(name, "olivedrab") {
        Some(RgbColor::new(107, 142, 35))
    } else if str_eq(name, "orange") {
        Some(RgbColor::new(255, 165, 0))
    } else if str_eq(name, "orangered") {
        Some(RgbColor::new(255, 69, 0))
    } else if str_eq(name, "orchid") {
        Some(RgbColor::new(218, 112, 214))
    } else if str_eq(name, "palegoldenrod") {
        Some(RgbColor::new(238, 232, 170))
    } else if str_eq(name, "palegreen") {
        Some(RgbColor::new(152, 251, 152))
    } else if str_eq(name, "paleturquoise") {
        Some(RgbColor::new(175, 238, 238))
    } else if str_eq(name, "palevioletred") {
        Some(RgbColor::new(216, 112, 147))
    } else if str_eq(name, "papayawhip") {
        Some(RgbColor::new(255, 239, 213))
    } else if str_eq(name, "peachpuff") {
        Some(RgbColor::new(255, 218, 185))
    } else if str_eq(name, "peru") {
        Some(RgbColor::new(205, 133, 63))
    } else if str_eq(name, "pink") {
        Some(RgbColor::new(255, 192, 203))
    } else if str_eq(name, "plum") {
        Some(RgbColor::new(221, 160, 221))
    } else if str_eq(name, "powderblue") {
        Some(RgbColor::new(176, 224, 230))
    } else if str_eq(name, "purple") {
        Some(RgbColor::new(128, 0, 128))
    } else if str_eq(name, "red") {
        Some(RgbColor::new(255, 0, 0))
    } else if str_eq(name, "rosybrown") {
        Some(RgbColor::new(188, 143, 143))
    } else if str_eq(name, "royalblue") {
        Some(RgbColor::new(65, 105, 225))
    } else if str_eq(name, "saddlebrown") {
        Some(RgbColor::new(139, 69, 19))
    } else if str_eq(name, "salmon") {
        Some(RgbColor::new(250, 128, 114))
    } else if str_eq(name, "sandybrown") {
        Some(RgbColor::new(244, 164, 96))
    } else if str_eq(name, "seagreen") {
        Some(RgbColor::new(46, 139, 87))
    } else if str_eq(name, "seashell") {
        Some(RgbColor::new(255, 245, 238))
    } else if str_eq(name, "sienna") {
        Some(RgbColor::new(160, 82, 45))
    } else if str_eq(name, "silver") {
        Some(RgbColor::new(192, 192, 192))
    } else if str_eq(name, "skyblue") {
        Some(RgbColor::new(135, 206, 235))
    } else if str_eq(name, "slateblue") {
        Some(RgbColor::new(106, 90, 205))
    } else if str_eq(name, "slategray") || str_eq(name, "slategrey") {
        Some(RgbColor::new(112, 128, 144))
    } else if str_eq(name, "snow") {
        Some(RgbColor::new(255, 250, 250))
    } else if str_eq(name, "springgreen") {
        Some(RgbColor::new(0, 255, 127))
    } else if str_eq(name, "steelblue") {
        Some(RgbColor::new(70, 130, 180))
    } else if str_eq(name, "tan") {
        Some(RgbColor::new(210, 180, 140))
    } else if str_eq(name, "teal") {
        Some(RgbColor::new(0, 128, 128))
    } else if str_eq(name, "thistle") {
        Some(RgbColor::new(216, 191, 216))
    } else if str_eq(name, "tomato") {
        Some(RgbColor::new(255, 99, 71))
    } else if str_eq(name, "turquoise") {
        Some(RgbColor::new(64, 224, 208))
    } else if str_eq(name, "violet") {
        Some(RgbColor::new(238, 130, 238))
    } else if str_eq(name, "wheat") {
        Some(RgbColor::new(245, 222, 179))
    } else if str_eq(name, "white") {
        Some(RgbColor::new(255, 255, 255))
    } else if str_eq(name, "whitesmoke") {
        Some(RgbColor::new(245, 245, 245))
    } else if str_eq(name, "yellow") {
        Some(RgbColor::new(255, 255, 0))
    } else if str_eq(name, "yellowgreen") {
        Some(RgbColor::new(154, 205, 50))
    } else {
        None
    }
}

} // verus!

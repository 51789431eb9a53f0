//! The color names as they are shown to a user, and their layout in
//! columns.

use vstd::prelude::*;
use vstd::string::StrSliceExecFns;
use vstd::string::StringExecFns;
use vstd::utf8::encode_utf8;
use crate::color::named_color;

verus! {

/// How many color names are shown.
pub const LISTED_NAMES: usize = 148;

/// The color name that is shown at `position`: the names of the table in
/// the order of the alphabet, without `off`, and `random` after them.
pub open spec fn listed_name(position: int) -> Seq<char> {
    if position == 0 {
        "aliceblue"@
    } else if position == 1 {
        "antiquewhite"@
    } else if position == 2 {
        "aqua"@
    } else if position == 3 {
        "aquamarine"@
    } else if position == 4 {
        "azure"@
    } else if position == 5 {
        "beige"@
    } else if position == 6 {
        "bisque"@
    } else if position == 7 {
        "black"@
    } else if position == 8 {
        "blanchedalmond"@
    } else if position == 9 {
        "blue"@
    } else if position == 10 {
        "blueviolet"@
    } else if position == 11 {
        "brown"@
    } else if position == 12 {
        "burlywood"@
    } else if position == 13 {
        "cadetblue"@
    } else if position == 14 {
        "chartreuse"@
    } else if position == 15 {
        "chocolate"@
    } else if position == 16 {
        "coral"@
    } else if position == 17 {
        "cornflowerblue"@
    } else if position == 18 {
        "cornsilk"@
    } else if position == 19 {
        "crimson"@
    } else if position == 20 {
        "cyan"@
    } else if position == 21 {
        "darkblue"@
    } else if position == 22 {
        "darkcyan"@
    } else if position == 23 {
        "darkgoldenrod"@
    } else if position == 24 {
        "darkgray"@
    } else if position == 25 {
        "darkgreen"@
    } else if position == 26 {
        "darkgrey"@
    } else if position == 27 {
        "darkkhaki"@
    } else if position == 28 {
        "darkmagenta"@
    } else if position == 29 {
        "darkolivegreen"@
    } else if position == 30 {
        "darkorange"@
    } else if position == 31 {
        "darkorchid"@
    } else if position == 32 {
        "darkred"@
    } else if position == 33 {
        "darksalmon"@
    } else if position == 34 {
        "darkseagreen"@
    } else if position == 35 {
        "darkslateblue"@
    } else if position == 36 {
        "darkslategray"@
    } else if position == 37 {
        "darkslategrey"@
    } else if position == 38 {
        "darkturquoise"@
    } else if position == 39 {
        "darkviolet"@
    } else if position == 40 {
        "deeppink"@
    } else if position == 41 {
        "deepskyblue"@
    } else if position == 42 {
        "dimgray"@
    } else if position == 43 {
        "dimgrey"@
    } else if position == 44 {
        "dodgerblue"@
    } else if position == 45 {
        "firebrick"@
    } else if position == 46 {
        "floralwhite"@
    } else if position == 47 {
        "forestgreen"@
    } else if position == 48 {
        "fuchsia"@
    } else if position == 49 {
        "gainsboro"@
    } else if position == 50 {
        "ghostwhite"@
    } else if position == 51 {
        "gold"@
    } else if position == 52 {
        "goldenrod"@
    } else if position == 53 {
        "gray"@
    } else if position == 54 {
        "green"@
    } else if position == 55 {
        "greenyellow"@
    } else if position == 56 {
        "grey"@
    } else if position == 57 {
        "honeydew"@
    } else if position == 58 {
        "hotpink"@
    } else if position == 59 {
        "indianred"@
    } else if position == 60 {
        "indigo"@
    } else if position == 61 {
        "ivory"@
    } else if position == 62 {
        "khaki"@
    } else if position == 63 {
        "lavender"@
    } else if position == 64 {
        "lavenderblush"@
    } else if position == 65 {
        "lawngreen"@
    } else if position == 66 {
        "lemonchiffon"@
    } else if position == 67 {
        "lightblue"@
    } else if position == 68 {
        "lightcoral"@
    } else if position == 69 {
        "lightcyan"@
    } else if position == 70 {
        "lightgoldenrodyellow"@
    } else if position == 71 {
        "lightgray"@
    } else if position == 72 {
        "lightgreen"@
    } else if position == 73 {
        "lightgrey"@
    } else if position == 74 {
        "lightpink"@
    } else if position == 75 {
        "lightsalmon"@
    } else if position == 76 {
        "lightseagreen"@
    } else if position == 77 {
        "lightskyblue"@
    } else if position == 78 {
        "lightslategray"@
    } else if position == 79 {
        "lightslategrey"@
    } else if position == 80 {
        "lightsteelblue"@
    } else if position == 81 {
        "lightyellow"@
    } else if position == 82 {
        "lime"@
    } else if position == 83 {
        "limegreen"@
    } else if position == 84 {
        "linen"@
    } else if position == 85 {
        "magenta"@
    } else if position == 86 {
        "maroon"@
    } else if position == 87 {
        "mediumaquamarine"@
    } else if position == 88 {
        "mediumblue"@
    } else if position == 89 {
        "mediumorchid"@
    } else if position == 90 {
        "mediumpurple"@
    } else if position == 91 {
        "mediumseagreen"@
    } else if position == 92 {
        "mediumslateblue"@
    } else if position == 93 {
        "mediumspringgreen"@
    } else if position == 94 {
        "mediumturquoise"@
    } else if position == 95 {
        "mediumvioletred"@
    } else if position == 96 {
        "midnightblue"@
    } else if position == 97 {
        "mintcream"@
    } else if position == 98 {
        "mistyrose"@
    } else if position == 99 {
        "moccasin"@
    } else if position == 100 {
        "navajowhite"@
    } else if position == 101 {
        "navy"@
    } else if position == 102 {
        "oldlace"@
    } else if position == 103 {
        "olive"@
    } else if position == 104 {
        "olivedrab"@
    } else if position == 105 {
        "orange"@
    } else if position == 106 {
        "orangered"@
    } else if position == 107 {
        "orchid"@
    } else if position == 108 {
        "palegoldenrod"@
    } else if position == 109 {
        "palegreen"@
    } else if position == 110 {
        "paleturquoise"@
    } else if position == 111 {
        "palevioletred"@
    } else if position == 112 {
        "papayawhip"@
    } else if position == 113 {
        "peachpuff"@
    } else if position == 114 {
        "peru"@
    } else if position == 115 {
        "pink"@
    } else if position == 116 {
        "plum"@
    } else if position == 117 {
        "powderblue"@
    } else if position == 118 {
        "purple"@
    } else if position == 119 {
        "red"@
    } else if position == 120 {
        "rosybrown"@
    } else if position == 121 {
        "royalblue"@
    } else if position == 122 {
        "saddlebrown"@
    } else if position == 123 {
        "salmon"@
    } else if position == 124 {
        "sandybrown"@
    } else if position == 125 {
        "seagreen"@
    } else if position == 126 {
        "seashell"@
    } else if position == 127 {
        "sienna"@
    } else if position == 128 {
        "silver"@
    } else if position == 129 {
        "skyblue"@
    } else if position == 130 {
        "slateblue"@
    } else if position == 131 {
        "slategray"@
    } else if position == 132 {
        "slategrey"@
    } else if position == 133 {
        "snow"@
    } else if position == 134 {
        "springgreen"@
    } else if position == 135 {
        "steelblue"@
    } else if position == 136 {
        "tan"@
    } else if position == 137 {
        "teal"@
    } else if position == 138 {
        "thistle"@
    } else if position == 139 {
        "tomato"@
    } else if position == 140 {
        "turquoise"@
    } else if position == 141 {
        "violet"@
    } else if position == 142 {
        "wheat"@
    } else if position == 143 {
        "white"@
    } else if position == 144 {
        "whitesmoke"@
    } else if position == 145 {
        "yellow"@
    } else if position == 146 {
        "yellowgreen"@
    } else {
        "random"@
    }
}

/// The color name that is shown at `position`.
fn color_name(position: usize) -> (name: &'static str)
    requires
        position < LISTED_NAMES,
    ensures
        name@ == listed_name(position as int),
{
    if position == 0 {
        "aliceblue"
    } else if position == 1 {
        "antiquewhite"
    } else if position == 2 {
        "aqua"
    } else if position == 3 {
        "aquamarine"
    } else if position == 4 {
        "azure"
    } else if position == 5 {
        "beige"
    } else if position == 6 {
        "bisque"
    } else if position == 7 {
        "black"
    } else if position == 8 {
        "blanchedalmond"
    } else if position == 9 {
        "blue"
    } else if position == 10 {
        "blueviolet"
    } else if position == 11 {
        "brown"
    } else if position == 12 {
        "burlywood"
    } else if position == 13 {
        "cadetblue"
    } else if position == 14 {
        "chartreuse"
    } else if position == 15 {
        "chocolate"
    } else if position == 16 {
        "coral"
    } else if position == 17 {
        "cornflowerblue"
    } else if position == 18 {
        "cornsilk"
    } else if position == 19 {
        "crimson"
    } else if position == 20 {
        "cyan"
    } else if position == 21 {
        "darkblue"
    } else if position == 22 {
        "darkcyan"
    } else if position == 23 {
        "darkgoldenrod"
    } else if position == 24 {
        "darkgray"
    } else if position == 25 {
        "darkgreen"
    } else if position == 26 {
        "darkgrey"
    } else if position == 27 {
        "darkkhaki"
    } else if position == 28 {
        "darkmagenta"
    } else if position == 29 {
        "darkolivegreen"
    } else if position == 30 {
        "darkorange"
    } else if position == 31 {
        "darkorchid"
    } else if position == 32 {
        "darkred"
    } else if position == 33 {
        "darksalmon"
    } else if position == 34 {
        "darkseagreen"
    } else if position == 35 {
        "darkslateblue"
    } else if position == 36 {
        "darkslategray"
    } else if position == 37 {
        "darkslategrey"
    } else if position == 38 {
        "darkturquoise"
    } else if position == 39 {
        "darkviolet"
    } else if position == 40 {
        "deeppink"
    } else if position == 41 {
        "deepskyblue"
    } else if position == 42 {
        "dimgray"
    } else if position == 43 {
        "dimgrey"
    } else if position == 44 {
        "dodgerblue"
    } else if position == 45 {
        "firebrick"
    } else if position == 46 {
        "floralwhite"
    } else if position == 47 {
        "forestgreen"
    } else if position == 48 {
        "fuchsia"
    } else if position == 49 {
        "gainsboro"
    } else if position == 50 {
        "ghostwhite"
    } else if position == 51 {
        "gold"
    } else if position == 52 {
        "goldenrod"
    } else if position == 53 {
        "gray"
    } else if position == 54 {
        "green"
    } else if position == 55 {
        "greenyellow"
    } else if position == 56 {
        "grey"
    } else if position == 57 {
        "honeydew"
    } else if position == 58 {
        "hotpink"
    } else if position == 59 {
        "indianred"
    } else if position == 60 {
        "indigo"
    } else if position == 61 {
        "ivory"
    } else if position == 62 {
        "khaki"
    } else if position == 63 {
        "lavender"
    } else if position == 64 {
        "lavenderblush"
    } else if position == 65 {
        "lawngreen"
    } else if position == 66 {
        "lemonchiffon"
    } else if position == 67 {
        "lightblue"
    } else if position == 68 {
        "lightcoral"
    } else if position == 69 {
        "lightcyan"
    } else if position == 70 {
        "lightgoldenrodyellow"
    } else if position == 71 {
        "lightgray"
    } else if position == 72 {
        "lightgreen"
    } else if position == 73 {
        "lightgrey"
    } else if position == 74 {
        "lightpink"
    } else if position == 75 {
        "lightsalmon"
    } else if position == 76 {
        "lightseagreen"
    } else if position == 77 {
        "lightskyblue"
    } else if position == 78 {
        "lightslategray"
    } else if position == 79 {
        "lightslategrey"
    } else if position == 80 {
        "lightsteelblue"
    } else if position == 81 {
        "lightyellow"
    } else if position == 82 {
        "lime"
    } else if position == 83 {
        "limegreen"
    } else if position == 84 {
        "linen"
    } else if position == 85 {
        "magenta"
    } else if position == 86 {
        "maroon"
    } else if position == 87 {
        "mediumaquamarine"
    } else if position == 88 {
        "mediumblue"
    } else if position == 89 {
        "mediumorchid"
    } else if position == 90 {
        "mediumpurple"
    } else if position == 91 {
        "mediumseagreen"
    } else if position == 92 {
        "mediumslateblue"
    } else if position == 93 {
        "mediumspringgreen"
    } else if position == 94 {
        "mediumturquoise"
    } else if position == 95 {
        "mediumvioletred"
    } else if position == 96 {
        "midnightblue"
    } else if position == 97 {
        "mintcream"
    } else if position == 98 {
        "mistyrose"
    } else if position == 99 {
        "moccasin"
    } else if position == 100 {
        "navajowhite"
    } else if position == 101 {
        "navy"
    } else if position == 102 {
        "oldlace"
    } else if position == 103 {
        "olive"
    } else if position == 104 {
        "olivedrab"
    } else if position == 105 {
        "orange"
    } else if position == 106 {
        "orangered"
    } else if position == 107 {
        "orchid"
    } else if position == 108 {
        "palegoldenrod"
    } else if position == 109 {
        "palegreen"
    } else if position == 110 {
        "paleturquoise"
    } else if position == 111 {
        "palevioletred"
    } else if position == 112 {
        "papayawhip"
    } else if position == 113 {
        "peachpuff"
    } else if position == 114 {
        "peru"
    } else if position == 115 {
        "pink"
    } else if position == 116 {
        "plum"
    } else if position == 117 {
        "powderblue"
    } else if position == 118 {
        "purple"
    } else if position == 119 {
        "red"
    } else if position == 120 {
        "rosybrown"
    } else if position == 121 {
        "royalblue"
    } else if position == 122 {
        "saddlebrown"
    } else if position == 123 {
        "salmon"
    } else if position == 124 {
        "sandybrown"
    } else if position == 125 {
        "seagreen"
    } else if position == 126 {
        "seashell"
    } else if position == 127 {
        "sienna"
    } else if position == 128 {
        "silver"
    } else if position == 129 {
        "skyblue"
    } else if position == 130 {
        "slateblue"
    } else if position == 131 {
        "slategray"
    } else if position == 132 {
        "slategrey"
    } else if position == 133 {
        "snow"
    } else if position == 134 {
        "springgreen"
    } else if position == 135 {
        "steelblue"
    } else if position == 136 {
        "tan"
    } else if position == 137 {
        "teal"
    } else if position == 138 {
        "thistle"
    } else if position == 139 {
        "tomato"
    } else if position == 140 {
        "turquoise"
    } else if position == 141 {
        "violet"
    } else if position == 142 {
        "wheat"
    } else if position == 143 {
        "white"
    } else if position == 144 {
        "whitesmoke"
    } else if position == 145 {
        "yellow"
    } else if position == 146 {
        "yellowgreen"
    } else {
        "random"
    }
}

/// Every name that is shown is a color name.
pub proof fn lemma_listed_names_are_names(position: int)
    requires
        0 <= position < LISTED_NAMES,
    ensures
        named_color(listed_name(position)) is Some,
{
}

/// Every color name but `off` is shown.
pub proof fn lemma_names_are_listed(name: Seq<char>)
    requires
        named_color(name) is Some,
        name != "off"@,
    ensures
        exists|position: int|
            0 <= position < LISTED_NAMES && #[trigger] listed_name(position) == name,
{
    if name == "aliceblue"@ {
        assert(listed_name(0) == name);
    } else if name == "antiquewhite"@ {
        assert(listed_name(1) == name);
    } else if name == "aqua"@ {
        assert(listed_name(2) == name);
    } else if name == "aquamarine"@ {
        assert(listed_name(3) == name);
    } else if name == "azure"@ {
        assert(listed_name(4) == name);
    } else if name == "beige"@ {
        assert(listed_name(5) == name);
    } else if name == "bisque"@ {
        assert(listed_name(6) == name);
    } else if name == "black"@ {
        assert(listed_name(7) == name);
    } else if name == "blanchedalmond"@ {
        assert(listed_name(8) == name);
    } else if name == "blue"@ {
        assert(listed_name(9) == name);
    } else if name == "blueviolet"@ {
        assert(listed_name(10) == name);
    } else if name == "brown"@ {
        assert(listed_name(11) == name);
    } else if name == "burlywood"@ {
        assert(listed_name(12) == name);
    } else if name == "cadetblue"@ {
        assert(listed_name(13) == name);
    } else if name == "chartreuse"@ {
        assert(listed_name(14) == name);
    } else if name == "chocolate"@ {
        assert(listed_name(15) == name);
    } else if name == "coral"@ {
        assert(listed_name(16) == name);
    } else if name == "cornflowerblue"@ {
        assert(listed_name(17) == name);
    } else if name == "cornsilk"@ {
        assert(listed_name(18) == name);
    } else if name == "crimson"@ {
        assert(listed_name(19) == name);
    } else if name == "cyan"@ {
        assert(listed_name(20) == name);
    } else if name == "darkblue"@ {
        assert(listed_name(21) == name);
    } else if name == "darkcyan"@ {
        assert(listed_name(22) == name);
    } else if name == "darkgoldenrod"@ {
        assert(listed_name(23) == name);
    } else if name == "darkgray"@ {
        assert(listed_name(24) == name);
    } else if name == "darkgreen"@ {
        assert(listed_name(25) == name);
    } else if name == "darkgrey"@ {
        assert(listed_name(26) == name);
    } else if name == "darkkhaki"@ {
        assert(listed_name(27) == name);
    } else if name == "darkmagenta"@ {
        assert(listed_name(28) == name);
    } else if name == "darkolivegreen"@ {
        assert(listed_name(29) == name);
    } else if name == "darkorange"@ {
        assert(listed_name(30) == name);
    } else if name == "darkorchid"@ {
        assert(listed_name(31) == name);
    } else if name == "darkred"@ {
        assert(listed_name(32) == name);
    } else if name == "darksalmon"@ {
        assert(listed_name(33) == name);
    } else if name == "darkseagreen"@ {
        assert(listed_name(34) == name);
    } else if name == "darkslateblue"@ {
        assert(listed_name(35) == name);
    } else if name == "darkslategray"@ {
        assert(listed_name(36) == name);
    } else if name == "darkslategrey"@ {
        assert(listed_name(37) == name);
    } else if name == "darkturquoise"@ {
        assert(listed_name(38) == name);
    } else if name == "darkviolet"@ {
        assert(listed_name(39) == name);
    } else if name == "deeppink"@ {
        assert(listed_name(40) == name);
    } else if name == "deepskyblue"@ {
        assert(listed_name(41) == name);
    } else if name == "dimgray"@ {
        assert(listed_name(42) == name);
    } else if name == "dimgrey"@ {
        assert(listed_name(43) == name);
    } else if name == "dodgerblue"@ {
        assert(listed_name(44) == name);
    } else if name == "firebrick"@ {
        assert(listed_name(45) == name);
    } else if name == "floralwhite"@ {
        assert(listed_name(46) == name);
    } else if name == "forestgreen"@ {
        assert(listed_name(47) == name);
    } else if name == "fuchsia"@ {
        assert(listed_name(48) == name);
    } else if name == "gainsboro"@ {
        assert(listed_name(49) == name);
    } else if name == "ghostwhite"@ {
        assert(listed_name(50) == name);
    } else if name == "gold"@ {
        assert(listed_name(51) == name);
    } else if name == "goldenrod"@ {
        assert(listed_name(52) == name);
    } else if name == "gray"@ {
        assert(listed_name(53) == name);
    } else if name == "green"@ {
        assert(listed_name(54) == name);
    } else if name == "greenyellow"@ {
        assert(listed_name(55) == name);
    } else if name == "grey"@ {
        assert(listed_name(56) == name);
    } else if name == "honeydew"@ {
        assert(listed_name(57) == name);
    } else if name == "hotpink"@ {
        assert(listed_name(58) == name);
    } else if name == "indianred"@ {
        assert(listed_name(59) == name);
    } else if name == "indigo"@ {
        assert(listed_name(60) == name);
    } else if name == "ivory"@ {
        assert(listed_name(61) == name);
    } else if name == "khaki"@ {
        assert(listed_name(62) == name);
    } else if name == "lavender"@ {
        assert(listed_name(63) == name);
    } else if name == "lavenderblush"@ {
        assert(listed_name(64) == name);
    } else if name == "lawngreen"@ {
        assert(listed_name(65) == name);
    } else if name == "lemonchiffon"@ {
        assert(listed_name(66) == name);
    } else if name == "lightblue"@ {
        assert(listed_name(67) == name);
    } else if name == "lightcoral"@ {
        assert(listed_name(68) == name);
    } else if name == "lightcyan"@ {
        assert(listed_name(69) == name);
    } else if name == "lightgoldenrodyellow"@ {
        assert(listed_name(70) == name);
    } else if name == "lightgray"@ {
        assert(listed_name(71) == name);
    } else if name == "lightgreen"@ {
        assert(listed_name(72) == name);
    } else if name == "lightgrey"@ {
        assert(listed_name(73) == name);
    } else if name == "lightpink"@ {
        assert(listed_name(74) == name);
    } else if name == "lightsalmon"@ {
        assert(listed_name(75) == name);
    } else if name == "lightseagreen"@ {
        assert(listed_name(76) == name);
    } else if name == "lightskyblue"@ {
        assert(listed_name(77) == name);
    } else if name == "lightslategray"@ {
        assert(listed_name(78) == name);
    } else if name == "lightslategrey"@ {
        assert(listed_name(79) == name);
    } else if name == "lightsteelblue"@ {
        assert(listed_name(80) == name);
    } else if name == "lightyellow"@ {
        assert(listed_name(81) == name);
    } else if name == "lime"@ {
        assert(listed_name(82) == name);
    } else if name == "limegreen"@ {
        assert(listed_name(83) == name);
    } else if name == "linen"@ {
        assert(listed_name(84) == name);
    } else if name == "magenta"@ {
        assert(listed_name(85) == name);
    } else if name == "maroon"@ {
        assert(listed_name(86) == name);
    } else if name == "mediumaquamarine"@ {
        assert(listed_name(87) == name);
    } else if name == "mediumblue"@ {
        assert(listed_name(88) == name);
    } else if name == "mediumorchid"@ {
        assert(listed_name(89) == name);
    } else if name == "mediumpurple"@ {
        assert(listed_name(90) == name);
    } else if name == "mediumseagreen"@ {
        assert(listed_name(91) == name);
    } else if name == "mediumslateblue"@ {
        assert(listed_name(92) == name);
    } else if name == "mediumspringgreen"@ {
        assert(listed_name(93) == name);
    } else if name == "mediumturquoise"@ {
        assert(listed_name(94) == name);
    } else if name == "mediumvioletred"@ {
        assert(listed_name(95) == name);
    } else if name == "midnightblue"@ {
        assert(listed_name(96) == name);
    } else if name == "mintcream"@ {
        assert(listed_name(97) == name);
    } else if name == "mistyrose"@ {
        assert(listed_name(98) == name);
    } else if name == "moccasin"@ {
        assert(listed_name(99) == name);
    } else if name == "navajowhite"@ {
        assert(listed_name(100) == name);
    } else if name == "navy"@ {
        assert(listed_name(101) == name);
    } else if name == "oldlace"@ {
        assert(listed_name(102) == name);
    } else if name == "olive"@ {
        assert(listed_name(103) == name);
    } else if name == "olivedrab"@ {
        assert(listed_name(104) == name);
    } else if name == "orange"@ {
        assert(listed_name(105) == name);
    } else if name == "orangered"@ {
        assert(listed_name(106) == name);
    } else if name == "orchid"@ {
        assert(listed_name(107) == name);
    } else if name == "palegoldenrod"@ {
        assert(listed_name(108) == name);
    } else if name == "palegreen"@ {
        assert(listed_name(109) == name);
    } else if name == "paleturquoise"@ {
        assert(listed_name(110) == name);
    } else if name == "palevioletred"@ {
        assert(listed_name(111) == name);
    } else if name == "papayawhip"@ {
        assert(listed_name(112) == name);
    } else if name == "peachpuff"@ {
        assert(listed_name(113) == name);
    } else if name == "peru"@ {
        assert(listed_name(114) == name);
    } else if name == "pink"@ {
        assert(listed_name(115) == name);
    } else if name == "plum"@ {
        assert(listed_name(116) == name);
    } else if name == "powderblue"@ {
        assert(listed_name(117) == name);
    } else if name == "purple"@ {
        assert(listed_name(118) == name);
    } else if name == "red"@ {
        assert(listed_name(119) == name);
    } else if name == "rosybrown"@ {
        assert(listed_name(120) == name);
    } else if name == "royalblue"@ {
        assert(listed_name(121) == name);
    } else if name == "saddlebrown"@ {
        assert(listed_name(122) == name);
    } else if name == "salmon"@ {
        assert(listed_name(123) == name);
    } else if name == "sandybrown"@ {
        assert(listed_name(124) == name);
    } else if name == "seagreen"@ {
        assert(listed_name(125) == name);
    } else if name == "seashell"@ {
        assert(listed_name(126) == name);
    } else if name == "sienna"@ {
        assert(listed_name(127) == name);
    } else if name == "silver"@ {
        assert(listed_name(128) == name);
    } else if name == "skyblue"@ {
        assert(listed_name(129) == name);
    } else if name == "slateblue"@ {
        assert(listed_name(130) == name);
    } else if name == "slategray"@ {
        assert(listed_name(131) == name);
    } else if name == "slategrey"@ {
        assert(listed_name(132) == name);
    } else if name == "snow"@ {
        assert(listed_name(133) == name);
    } else if name == "springgreen"@ {
        assert(listed_name(134) == name);
    } else if name == "steelblue"@ {
        assert(listed_name(135) == name);
    } else if name == "tan"@ {
        assert(listed_name(136) == name);
    } else if name == "teal"@ {
        assert(listed_name(137) == name);
    } else if name == "thistle"@ {
        assert(listed_name(138) == name);
    } else if name == "tomato"@ {
        assert(listed_name(139) == name);
    } else if name == "turquoise"@ {
        assert(listed_name(140) == name);
    } else if name == "violet"@ {
        assert(listed_name(141) == name);
    } else if name == "wheat"@ {
        assert(listed_name(142) == name);
    } else if name == "white"@ {
        assert(listed_name(143) == name);
    } else if name == "whitesmoke"@ {
        assert(listed_name(144) == name);
    } else if name == "yellow"@ {
        assert(listed_name(145) == name);
    } else if name == "yellowgreen"@ {
        assert(listed_name(146) == name);
    } else if name == "random"@ {
        assert(listed_name(147) == name);
    }
}

/// The color names in the order in which they are shown.
pub fn color_names() -> (names: Vec<&'static str>)
    ensures
        names@.len() == LISTED_NAMES,
        forall|i: int| 0 <= i < LISTED_NAMES ==> (#[trigger] names@[i])@ == listed_name(i),
{
    let mut names: Vec<&'static str> = Vec::new();
    let mut position: usize = 0;
    while position < LISTED_NAMES
        invariant
            position <= LISTED_NAMES,
            names@.len() == position,
            forall|i: int| 0 <= i < position ==> (#[trigger] names@[i])@ == listed_name(i),
        decreases LISTED_NAMES - position,
    {
        names.push(color_name(position));
        position += 1;
    }
    names
}

/// The characters of each of `names`.
pub open spec fn texts(names: Seq<&str>) -> Seq<Seq<char>> {
    names.map_values(|name: &str| name@)
}

/// How many bytes `text` takes in UTF-8.
pub open spec fn byte_len(text: Seq<char>) -> nat {
    encode_utf8(text).len()
}

/// The most bytes that one of `names` takes, and 0 for no names.
pub open spec fn most_bytes(names: Seq<Seq<char>>) -> nat
    decreases names.len(),
{
    if names.len() == 0 {
        0
    } else {
        let before = most_bytes(names.drop_last());
        if byte_len(names.last()) > before {
            byte_len(names.last())
        } else {
            before
        }
    }
}

/// The width of a column: two more than the most bytes that one of the
/// names takes, and 12 where there is no name.
pub open spec fn column_width(names: Seq<Seq<char>>) -> nat {
    if names.len() == 0 {
        12
    } else {
        most_bytes(names) + 2
    }
}

/// How many columns fit side by side in `terminal_width`: at least one.
pub open spec fn column_count(names: Seq<Seq<char>>, terminal_width: nat) -> nat {
    if terminal_width / column_width(names) < 1 {
        1
    } else {
        terminal_width / column_width(names)
    }
}

/// How many rows the columns take, which are filled one after the other.
pub open spec fn row_count(names: Seq<Seq<char>>, terminal_width: nat) -> nat {
    let columns = column_count(names, terminal_width);
    (names.len() + columns - 1) as nat / columns
}

/// `text` with blanks behind it up to `width` characters.
pub open spec fn padded(text: Seq<char>, width: nat) -> Seq<char> {
    if text.len() < width {
        text + Seq::new((width - text.len()) as nat, |i: int| ' ')
    } else {
        text
    }
}

/// What stands in row `row` of column `column`: the columns are filled from
/// top to bottom, the first column first, and the last may end early.
pub open spec fn cell(names: Seq<Seq<char>>, terminal_width: nat, row: nat, column: nat) -> Seq<
    char,
> {
    let position = column * row_count(names, terminal_width) + row;
    if position < names.len() {
        padded(names[position as int], column_width(names))
    } else {
        Seq::empty()
    }
}

/// Row `row` as far as its first `columns` columns.
pub open spec fn line_start(
    names: Seq<Seq<char>>,
    terminal_width: nat,
    row: nat,
    columns: nat,
) -> Seq<char>
    decreases columns,
{
    if columns == 0 {
        Seq::empty()
    } else {
        line_start(names, terminal_width, row, (columns - 1) as nat) + cell(
            names,
            terminal_width,
            row,
            (columns - 1) as nat,
        )
    }
}

/// Row `row` of the names laid out in columns.
pub open spec fn line(names: Seq<Seq<char>>, terminal_width: nat, row: nat) -> Seq<char> {
    line_start(names, terminal_width, row, column_count(names, terminal_width))
}

/// The most bytes that one of `names` takes.
fn longest(names: &[&str]) -> (most: usize)
    ensures
        most == most_bytes(texts(names@)),
{
    let mut most: usize = 0;
    let mut i: usize = 0;
    while i < names.len()
        invariant
            i <= names@.len(),
            most == most_bytes(texts(names@).take(i as int)),
        decreases names@.len() - i,
    {
        proof {
            assert(texts(names@).take(i + 1).drop_last() =~= texts(names@).take(i as int));
        }
        let length = names[i].as_bytes().len();
        if length > most {
            most = length;
        }
        i += 1;
    }
    assert(texts(names@).take(i as int) =~= texts(names@));
    most
}

/// Appends `name` to `text`, with blanks behind it up to `width` characters.
fn append_padded(text: &mut String, name: &str, width: u128)
    ensures
        final(text)@ == old(text)@ + padded(name@, width as nat),
{
    text.append(name);
    let length = name.unicode_len();
    let ghost start = text@;
    let mut written: u128 = length as u128;
    while written < width
        invariant
            length == name@.len(),
            length <= written,
            written <= width || written == length,
            text@ == start + Seq::new((written - length) as nat, |i: int| ' '),
        decreases width - written,
    {
        proof {
            reveal_strlit(" ");
        }
        text.append(" ");
        written += 1;
    }
}

/// The names laid out in columns of one width, as many as fit side by side
/// in `terminal_width`, filled from top to bottom: the rows from the top.
pub fn columns(names: &[&str], terminal_width: usize) -> (lines: Vec<String>)
    ensures
        lines@.len() == row_count(texts(names@), terminal_width as nat),
        forall|row: int|
            0 <= row < lines@.len() ==> (#[trigger] lines@[row])@ == line(
                texts(names@),
                terminal_width as nat,
                row as nat,
            ),
{
    let ghost all = texts(names@);
    let count: u128 = names.len() as u128;
    let width: u128 = if names.len() == 0 {
        12
    } else {
        longest(names) as u128 + 2
    };
    let fitting: u128 = terminal_width as u128 / width;
    let per_row: u128 = if fitting < 1 {
        1
    } else {
        fitting
    };
    let rows: u128 = (count + per_row - 1) / per_row;
    assert(rows <= count) by (nonlinear_arith)
        requires
            rows == (count + per_row - 1) / (per_row as int),
            per_row >= 1,
    ;
    let mut lines: Vec<String> = Vec::new();
    let mut row: u128 = 0;
    while row < rows
        invariant
            row <= rows,
            rows <= count,
            count == names@.len(),
            all == texts(names@),
            width == column_width(all),
            per_row == column_count(all, terminal_width as nat),
            rows == row_count(all, terminal_width as nat),
            per_row <= usize::MAX,
            count <= usize::MAX,
            lines@.len() == row,
            forall|r: int|
                0 <= r < row ==> (#[trigger] lines@[r])@ == line(
                    all,
                    terminal_width as nat,
                    r as nat,
                ),
        decreases rows - row,
    {
        let mut text = String::new();
        let mut column: u128 = 0;
        while column < per_row
            invariant
                column <= per_row,
                row < rows,
                rows <= count,
                count == names@.len(),
                all == texts(names@),
                width == column_width(all),
                per_row == column_count(all, terminal_width as nat),
                rows == row_count(all, terminal_width as nat),
                per_row <= usize::MAX,
                count <= usize::MAX,
                text@ == line_start(all, terminal_width as nat, row as nat, column as nat),
            decreases per_row - column,
        {
            assert(column * rows <= usize::MAX * usize::MAX) by (nonlinear_arith)
                requires
                    column <= usize::MAX,
                    rows <= usize::MAX,
            ;
            let position: u128 = column * rows + row;
            if position < count {
                append_padded(&mut text, names[position as usize], width);
            }
            column += 1;
        }
        lines.push(text);
        row += 1;
    }
    lines
}

} // verus!

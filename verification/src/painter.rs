//! Paint-side data: colors, rectangles and the display list.
//!
//! Colors are sRGB bytes. Geometry is whole logical pixels. The display
//! list is the flat, ordered sequence of paint commands layout emits for a
//! renderer to execute.

use vstd::prelude::*;

use crate::px::dim_ok;
use crate::text::{chars_eq, chars_of, spec_is_digit};

verus! {

/// An sRGB color with alpha, one byte per channel.
#[derive(Debug, Clone, Copy, PartialEq, Eq, Structural)]
pub struct Color {
    pub r: u8,
    pub g: u8,
    pub b: u8,
    pub a: u8,
}

impl Color {
    /// An opaque color from three channels.
    pub fn rgb(r: u8, g: u8, b: u8) -> (c: Color)
        ensures
            c == (Color { r, g, b, a: 255u8 }),
    {
        Color { r, g, b, a: 255 }
    }

    /// A color from four channels.
    pub fn rgba(r: u8, g: u8, b: u8, a: u8) -> (c: Color)
        ensures
            c == (Color { r, g, b, a }),
    {
        Color { r, g, b, a }
    }

    pub fn black() -> (c: Color)
        ensures
            c == (Color { r: 0u8, g: 0u8, b: 0u8, a: 255u8 }),
    {
        Color { r: 0, g: 0, b: 0, a: 255 }
    }

    pub fn white() -> (c: Color)
        ensures
            c == (Color { r: 255u8, g: 255u8, b: 255u8, a: 255u8 }),
    {
        Color { r: 255, g: 255, b: 255, a: 255 }
    }

    pub fn transparent() -> (c: Color)
        ensures
            c == (Color { r: 0u8, g: 0u8, b: 0u8, a: 0u8 }),
    {
        Color { r: 0, g: 0, b: 0, a: 0 }
    }

    /// Parse `#rgb`, `#rrggbb` or `#rrggbbaa`, with or without the hash.
    pub fn from_hex(hex: &str) -> (r: Option<Color>)
        ensures
            r == spec_from_hex(hex@),
    {
        let raw = chars_of(hex);
        let mut i: usize = 0;
        proof {
            assert(raw@.skip(0) =~= raw@);
        }
        while i < raw.len() && raw[i] == '#'
            invariant
                i <= raw@.len(),
                spec_strip_hashes(raw@) == spec_strip_hashes(raw@.skip(i as int)),
            decreases raw@.len() - i,
        {
            proof {
                assert(raw@.skip(i as int).drop_first() =~= raw@.skip(i + 1));
            }
            i = i + 1;
        }
        let rest = crate::selector::slice_chars_pub(&raw, i, raw.len());
        proof {
            assert(raw@.skip(i as int) =~= raw@.subrange(i as int, raw@.len() as int));
            if rest@.len() > 0 {
                assert(spec_strip_hashes(rest@) == rest@);
            } else {
                assert(spec_strip_hashes(rest@) =~= rest@);
            }
        }
        if rest.len() == 3 {
            let r0 = hex_val(rest[0]);
            let g0 = hex_val(rest[1]);
            let b0 = hex_val(rest[2]);
            match (r0, g0, b0) {
                (Some(rv), Some(gv), Some(bv)) => Some(
                    Color { r: rv * 17, g: gv * 17, b: bv * 17, a: 255 },
                ),
                _ => None,
            }
        } else if rest.len() == 6 {
            let r0 = hex_byte(rest[0], rest[1]);
            let g0 = hex_byte(rest[2], rest[3]);
            let b0 = hex_byte(rest[4], rest[5]);
            match (r0, g0, b0) {
                (Some(rv), Some(gv), Some(bv)) => Some(Color { r: rv, g: gv, b: bv, a: 255 }),
                _ => None,
            }
        } else if rest.len() == 8 {
            let r0 = hex_byte(rest[0], rest[1]);
            let g0 = hex_byte(rest[2], rest[3]);
            let b0 = hex_byte(rest[4], rest[5]);
            let a0 = hex_byte(rest[6], rest[7]);
            match (r0, g0, b0, a0) {
                (Some(rv), Some(gv), Some(bv), Some(av)) => Some(
                    Color { r: rv, g: gv, b: bv, a: av },
                ),
                _ => None,
            }
        } else {
            None
        }
    }
}

/// Value of one hexadecimal digit.
pub open spec fn spec_hex_val(c: char) -> Option<u8> {
    if spec_is_digit(c) {
        Some((c as int - '0' as int) as u8)
    } else if 'a' <= c <= 'f' {
        Some((c as int - 'a' as int + 10) as u8)
    } else if 'A' <= c <= 'F' {
        Some((c as int - 'A' as int + 10) as u8)
    } else {
        None
    }
}

fn hex_val(c: char) -> (r: Option<u8>)
    ensures
        r == spec_hex_val(c),
{
    if '0' <= c && c <= '9' {
        Some(((c as u32) - ('0' as u32)) as u8)
    } else if 'a' <= c && c <= 'f' {
        Some((((c as u32) - ('a' as u32)) + 10) as u8)
    } else if 'A' <= c && c <= 'F' {
        Some((((c as u32) - ('A' as u32)) + 10) as u8)
    } else {
        None
    }
}

/// The byte two hexadecimal digits denote.
pub open spec fn spec_hex_byte(hi: char, lo: char) -> Option<u8> {
    match (spec_hex_val(hi), spec_hex_val(lo)) {
        (Some(h), Some(l)) => Some((h * 16 + l) as u8),
        _ => None,
    }
}

fn hex_byte(hi: char, lo: char) -> (r: Option<u8>)
    ensures
        r == spec_hex_byte(hi, lo),
{
    match (hex_val(hi), hex_val(lo)) {
        (Some(h), Some(l)) => Some(h * 16 + l),
        _ => None,
    }
}

/// The text with every leading `#` removed.
pub open spec fn spec_strip_hashes(s: Seq<char>) -> Seq<char>
    decreases s.len(),
{
    if s.len() > 0 && s[0] == '#' {
        spec_strip_hashes(s.drop_first())
    } else {
        s
    }
}

/// What hex color text denotes: three, six or eight hex digits after the
/// hashes, short form repeating each digit.
pub open spec fn spec_from_hex(s: Seq<char>) -> Option<Color> {
    let t = spec_strip_hashes(s);
    if t.len() == 3 {
        match (spec_hex_val(t[0]), spec_hex_val(t[1]), spec_hex_val(t[2])) {
            (Some(r), Some(g), Some(b)) => Some(
                Color { r: (r * 17) as u8, g: (g * 17) as u8, b: (b * 17) as u8, a: 255 },
            ),
            _ => None,
        }
    } else if t.len() == 6 {
        match (spec_hex_byte(t[0], t[1]), spec_hex_byte(t[2], t[3]), spec_hex_byte(t[4], t[5])) {
            (Some(r), Some(g), Some(b)) => Some(Color { r, g, b, a: 255 }),
            _ => None,
        }
    } else if t.len() == 8 {
        match (spec_hex_byte(t[0], t[1]), spec_hex_byte(t[2], t[3]), spec_hex_byte(t[4], t[5]),
        spec_hex_byte(t[6], t[7])) {
            (Some(r), Some(g), Some(b), Some(a)) => Some(Color { r, g, b, a }),
            _ => None,
        }
    } else {
        None
    }
}

/// The color a CSS keyword names, over the lower-cased keyword text.
pub open spec fn spec_named_color(s: Seq<char>) -> Option<Color> {
    if false {
        None
    } else if s == "black"@ {
        Some(Color { r: 0, g: 0, b: 0, a: 255 })
    } else if s == "white"@ {
        Some(Color { r: 255, g: 255, b: 255, a: 255 })
    } else if s == "red"@ {
        Some(Color { r: 255, g: 0, b: 0, a: 255 })
    } else if s == "green"@ {
        Some(Color { r: 0, g: 128, b: 0, a: 255 })
    } else if s == "blue"@ {
        Some(Color { r: 0, g: 0, b: 255, a: 255 })
    } else if s == "yellow"@ {
        Some(Color { r: 255, g: 255, b: 0, a: 255 })
    } else if s == "cyan"@ {
        Some(Color { r: 0, g: 255, b: 255, a: 255 })
    } else if s == "aqua"@ {
        Some(Color { r: 0, g: 255, b: 255, a: 255 })
    } else if s == "magenta"@ {
        Some(Color { r: 255, g: 0, b: 255, a: 255 })
    } else if s == "fuchsia"@ {
        Some(Color { r: 255, g: 0, b: 255, a: 255 })
    } else if s == "transparent"@ {
        Some(Color { r: 0, g: 0, b: 0, a: 0 })
    } else if s == "gray"@ {
        Some(Color { r: 128, g: 128, b: 128, a: 255 })
    } else if s == "grey"@ {
        Some(Color { r: 128, g: 128, b: 128, a: 255 })
    } else if s == "darkgray"@ {
        Some(Color { r: 169, g: 169, b: 169, a: 255 })
    } else if s == "darkgrey"@ {
        Some(Color { r: 169, g: 169, b: 169, a: 255 })
    } else if s == "lightgray"@ {
        Some(Color { r: 211, g: 211, b: 211, a: 255 })
    } else if s == "lightgrey"@ {
        Some(Color { r: 211, g: 211, b: 211, a: 255 })
    } else if s == "dimgray"@ {
        Some(Color { r: 105, g: 105, b: 105, a: 255 })
    } else if s == "dimgrey"@ {
        Some(Color { r: 105, g: 105, b: 105, a: 255 })
    } else if s == "silver"@ {
        Some(Color { r: 192, g: 192, b: 192, a: 255 })
    } else if s == "gainsboro"@ {
        Some(Color { r: 220, g: 220, b: 220, a: 255 })
    } else if s == "whitesmoke"@ {
        Some(Color { r: 245, g: 245, b: 245, a: 255 })
    } else if s == "maroon"@ {
        Some(Color { r: 128, g: 0, b: 0, a: 255 })
    } else if s == "darkred"@ {
        Some(Color { r: 139, g: 0, b: 0, a: 255 })
    } else if s == "firebrick"@ {
        Some(Color { r: 178, g: 34, b: 34, a: 255 })
    } else if s == "crimson"@ {
        Some(Color { r: 220, g: 20, b: 60, a: 255 })
    } else if s == "indianred"@ {
        Some(Color { r: 205, g: 92, b: 92, a: 255 })
    } else if s == "lightcoral"@ {
        Some(Color { r: 240, g: 128, b: 128, a: 255 })
    } else if s == "salmon"@ {
        Some(Color { r: 250, g: 128, b: 114, a: 255 })
    } else if s == "lightsalmon"@ {
        Some(Color { r: 255, g: 160, b: 122, a: 255 })
    } else if s == "coral"@ {
        Some(Color { r: 255, g: 127, b: 80, a: 255 })
    } else if s == "tomato"@ {
        Some(Color { r: 255, g: 99, b: 71, a: 255 })
    } else if s == "orangered"@ {
        Some(Color { r: 255, g: 69, b: 0, a: 255 })
    } else if s == "pink"@ {
        Some(Color { r: 255, g: 192, b: 203, a: 255 })
    } else if s == "lightpink"@ {
        Some(Color { r: 255, g: 182, b: 193, a: 255 })
    } else if s == "hotpink"@ {
        Some(Color { r: 255, g: 105, b: 180, a: 255 })
    } else if s == "deeppink"@ {
        Some(Color { r: 255, g: 20, b: 147, a: 255 })
    } else if s == "mediumvioletred"@ {
        Some(Color { r: 199, g: 21, b: 133, a: 255 })
    } else if s == "palevioletred"@ {
        Some(Color { r: 219, g: 112, b: 147, a: 255 })
    } else if s == "orange"@ {
        Some(Color { r: 255, g: 165, b: 0, a: 255 })
    } else if s == "darkorange"@ {
        Some(Color { r: 255, g: 140, b: 0, a: 255 })
    } else if s == "gold"@ {
        Some(Color { r: 255, g: 215, b: 0, a: 255 })
    } else if s == "lightyellow"@ {
        Some(Color { r: 255, g: 255, b: 224, a: 255 })
    } else if s == "lemonchiffon"@ {
        Some(Color { r: 255, g: 250, b: 205, a: 255 })
    } else if s == "papayawhip"@ {
        Some(Color { r: 255, g: 239, b: 213, a: 255 })
    } else if s == "moccasin"@ {
        Some(Color { r: 255, g: 228, b: 181, a: 255 })
    } else if s == "peachpuff"@ {
        Some(Color { r: 255, g: 218, b: 185, a: 255 })
    } else if s == "palegoldenrod"@ {
        Some(Color { r: 238, g: 232, b: 170, a: 255 })
    } else if s == "khaki"@ {
        Some(Color { r: 240, g: 230, b: 140, a: 255 })
    } else if s == "darkkhaki"@ {
        Some(Color { r: 189, g: 183, b: 107, a: 255 })
    } else if s == "purple"@ {
        Some(Color { r: 128, g: 0, b: 128, a: 255 })
    } else if s == "indigo"@ {
        Some(Color { r: 75, g: 0, b: 130, a: 255 })
    } else if s == "darkmagenta"@ {
        Some(Color { r: 139, g: 0, b: 139, a: 255 })
    } else if s == "darkviolet"@ {
        Some(Color { r: 148, g: 0, b: 211, a: 255 })
    } else if s == "darkorchid"@ {
        Some(Color { r: 153, g: 50, b: 204, a: 255 })
    } else if s == "mediumorchid"@ {
        Some(Color { r: 186, g: 85, b: 211, a: 255 })
    } else if s == "orchid"@ {
        Some(Color { r: 218, g: 112, b: 214, a: 255 })
    } else if s == "violet"@ {
        Some(Color { r: 238, g: 130, b: 238, a: 255 })
    } else if s == "plum"@ {
        Some(Color { r: 221, g: 160, b: 221, a: 255 })
    } else if s == "lavender"@ {
        Some(Color { r: 230, g: 230, b: 250, a: 255 })
    } else if s == "thistle"@ {
        Some(Color { r: 216, g: 191, b: 216, a: 255 })
    } else if s == "blueviolet"@ {
        Some(Color { r: 138, g: 43, b: 226, a: 255 })
    } else if s == "mediumpurple"@ {
        Some(Color { r: 147, g: 112, b: 219, a: 255 })
    } else if s == "mediumslateblue"@ {
        Some(Color { r: 123, g: 104, b: 238, a: 255 })
    } else if s == "slateblue"@ {
        Some(Color { r: 106, g: 90, b: 205, a: 255 })
    } else if s == "darkslateblue"@ {
        Some(Color { r: 72, g: 61, b: 139, a: 255 })
    } else if s == "rebeccapurple"@ {
        Some(Color { r: 102, g: 51, b: 153, a: 255 })
    } else if s == "navy"@ {
        Some(Color { r: 0, g: 0, b: 128, a: 255 })
    } else if s == "darkblue"@ {
        Some(Color { r: 0, g: 0, b: 139, a: 255 })
    } else if s == "mediumblue"@ {
        Some(Color { r: 0, g: 0, b: 205, a: 255 })
    } else if s == "royalblue"@ {
        Some(Color { r: 65, g: 105, b: 225, a: 255 })
    } else if s == "cornflowerblue"@ {
        Some(Color { r: 100, g: 149, b: 237, a: 255 })
    } else if s == "lightsteelblue"@ {
        Some(Color { r: 176, g: 196, b: 222, a: 255 })
    } else if s == "steelblue"@ {
        Some(Color { r: 70, g: 130, b: 180, a: 255 })
    } else if s == "dodgerblue"@ {
        Some(Color { r: 30, g: 144, b: 255, a: 255 })
    } else if s == "deepskyblue"@ {
        Some(Color { r: 0, g: 191, b: 255, a: 255 })
    } else if s == "skyblue"@ {
        Some(Color { r: 135, g: 206, b: 235, a: 255 })
    } else if s == "lightskyblue"@ {
        Some(Color { r: 135, g: 206, b: 250, a: 255 })
    } else if s == "lightblue"@ {
        Some(Color { r: 173, g: 216, b: 230, a: 255 })
    } else if s == "powderblue"@ {
        Some(Color { r: 176, g: 224, b: 230, a: 255 })
    } else if s == "midnightblue"@ {
        Some(Color { r: 25, g: 25, b: 112, a: 255 })
    } else if s == "cadetblue"@ {
        Some(Color { r: 95, g: 158, b: 160, a: 255 })
    } else if s == "slategray"@ {
        Some(Color { r: 112, g: 128, b: 144, a: 255 })
    } else if s == "slategrey"@ {
        Some(Color { r: 112, g: 128, b: 144, a: 255 })
    } else if s == "lightslategray"@ {
        Some(Color { r: 119, g: 136, b: 153, a: 255 })
    } else if s == "lightslategrey"@ {
        Some(Color { r: 119, g: 136, b: 153, a: 255 })
    } else if s == "aliceblue"@ {
        Some(Color { r: 240, g: 248, b: 255, a: 255 })
    } else if s == "azure"@ {
        Some(Color { r: 240, g: 255, b: 255, a: 255 })
    } else if s == "lime"@ {
        Some(Color { r: 0, g: 255, b: 0, a: 255 })
    } else if s == "limegreen"@ {
        Some(Color { r: 50, g: 205, b: 50, a: 255 })
    } else if s == "forestgreen"@ {
        Some(Color { r: 34, g: 139, b: 34, a: 255 })
    } else if s == "darkgreen"@ {
        Some(Color { r: 0, g: 100, b: 0, a: 255 })
    } else if s == "seagreen"@ {
        Some(Color { r: 46, g: 139, b: 87, a: 255 })
    } else if s == "mediumseagreen"@ {
        Some(Color { r: 60, g: 179, b: 113, a: 255 })
    } else if s == "springgreen"@ {
        Some(Color { r: 0, g: 255, b: 127, a: 255 })
    } else if s == "mediumspringgreen"@ {
        Some(Color { r: 0, g: 250, b: 154, a: 255 })
    } else if s == "lightgreen"@ {
        Some(Color { r: 144, g: 238, b: 144, a: 255 })
    } else if s == "palegreen"@ {
        Some(Color { r: 152, g: 251, b: 152, a: 255 })
    } else if s == "darkseagreen"@ {
        Some(Color { r: 143, g: 188, b: 143, a: 255 })
    } else if s == "greenyellow"@ {
        Some(Color { r: 173, g: 255, b: 47, a: 255 })
    } else if s == "chartreuse"@ {
        Some(Color { r: 127, g: 255, b: 0, a: 255 })
    } else if s == "lawngreen"@ {
        Some(Color { r: 124, g: 252, b: 0, a: 255 })
    } else if s == "yellowgreen"@ {
        Some(Color { r: 154, g: 205, b: 50, a: 255 })
    } else if s == "olivedrab"@ {
        Some(Color { r: 107, g: 142, b: 35, a: 255 })
    } else if s == "olive"@ {
        Some(Color { r: 128, g: 128, b: 0, a: 255 })
    } else if s == "darkolivegreen"@ {
        Some(Color { r: 85, g: 107, b: 47, a: 255 })
    } else if s == "mediumaquamarine"@ {
        Some(Color { r: 102, g: 205, b: 170, a: 255 })
    } else if s == "honeydew"@ {
        Some(Color { r: 240, g: 255, b: 240, a: 255 })
    } else if s == "mintcream"@ {
        Some(Color { r: 245, g: 255, b: 250, a: 255 })
    } else if s == "teal"@ {
        Some(Color { r: 0, g: 128, b: 128, a: 255 })
    } else if s == "darkcyan"@ {
        Some(Color { r: 0, g: 139, b: 139, a: 255 })
    } else if s == "lightcyan"@ {
        Some(Color { r: 224, g: 255, b: 255, a: 255 })
    } else if s == "aquamarine"@ {
        Some(Color { r: 127, g: 255, b: 212, a: 255 })
    } else if s == "turquoise"@ {
        Some(Color { r: 64, g: 224, b: 208, a: 255 })
    } else if s == "mediumturquoise"@ {
        Some(Color { r: 72, g: 209, b: 204, a: 255 })
    } else if s == "darkturquoise"@ {
        Some(Color { r: 0, g: 206, b: 209, a: 255 })
    } else if s == "paleturquoise"@ {
        Some(Color { r: 175, g: 238, b: 238, a: 255 })
    } else if s == "brown"@ {
        Some(Color { r: 165, g: 42, b: 42, a: 255 })
    } else if s == "saddlebrown"@ {
        Some(Color { r: 139, g: 69, b: 19, a: 255 })
    } else if s == "sienna"@ {
        Some(Color { r: 160, g: 82, b: 45, a: 255 })
    } else if s == "chocolate"@ {
        Some(Color { r: 210, g: 105, b: 30, a: 255 })
    } else if s == "peru"@ {
        Some(Color { r: 205, g: 133, b: 63, a: 255 })
    } else if s == "sandybrown"@ {
        Some(Color { r: 244, g: 164, b: 96, a: 255 })
    } else if s == "burlywood"@ {
        Some(Color { r: 222, g: 184, b: 135, a: 255 })
    } else if s == "tan"@ {
        Some(Color { r: 210, g: 180, b: 140, a: 255 })
    } else if s == "rosybrown"@ {
        Some(Color { r: 188, g: 143, b: 143, a: 255 })
    } else if s == "goldenrod"@ {
        Some(Color { r: 218, g: 165, b: 32, a: 255 })
    } else if s == "darkgoldenrod"@ {
        Some(Color { r: 184, g: 134, b: 11, a: 255 })
    } else if s == "navajowhite"@ {
        Some(Color { r: 255, g: 222, b: 173, a: 255 })
    } else if s == "wheat"@ {
        Some(Color { r: 245, g: 222, b: 179, a: 255 })
    } else if s == "blanchedalmond"@ {
        Some(Color { r: 255, g: 235, b: 205, a: 255 })
    } else if s == "bisque"@ {
        Some(Color { r: 255, g: 228, b: 196, a: 255 })
    } else if s == "cornsilk"@ {
        Some(Color { r: 255, g: 248, b: 220, a: 255 })
    } else if s == "beige"@ {
        Some(Color { r: 245, g: 245, b: 220, a: 255 })
    } else if s == "antiquewhite"@ {
        Some(Color { r: 250, g: 235, b: 215, a: 255 })
    } else if s == "linen"@ {
        Some(Color { r: 250, g: 240, b: 230, a: 255 })
    } else if s == "floralwhite"@ {
        Some(Color { r: 255, g: 250, b: 240, a: 255 })
    } else if s == "oldlace"@ {
        Some(Color { r: 253, g: 245, b: 230, a: 255 })
    } else if s == "ivory"@ {
        Some(Color { r: 255, g: 255, b: 240, a: 255 })
    } else if s == "seashell"@ {
        Some(Color { r: 255, g: 245, b: 238, a: 255 })
    } else if s == "snow"@ {
        Some(Color { r: 255, g: 250, b: 250, a: 255 })
    } else if s == "mistyrose"@ {
        Some(Color { r: 255, g: 228, b: 225, a: 255 })
    } else if s == "lavenderblush"@ {
        Some(Color { r: 255, g: 240, b: 245, a: 255 })
    } else if s == "ghostwhite"@ {
        Some(Color { r: 248, g: 248, b: 255, a: 255 })
    } else {
        None
    }
}

/// Look a lower-cased keyword up in the named-color table.
pub fn named_color(s: &Vec<char>) -> (r: Option<Color>)
    ensures
        r == spec_named_color(s@),
{
    let lit = chars_of("black");
    if chars_eq(s, &lit) {
        return Some(Color { r: 0, g: 0, b: 0, a: 255 });
    }
    let lit = chars_of("white");
    if chars_eq(s, &lit) {
        return Some(Color { r: 255, g: 255, b: 255, a: 255 });
    }
    let lit = chars_of("red");
    if chars_eq(s, &lit) {
        return Some(Color { r: 255, g: 0, b: 0, a: 255 });
    }
    let lit = chars_of("green");
    if chars_eq(s, &lit) {
        return Some(Color { r: 0, g: 128, b: 0, a: 255 });
    }
    let lit = chars_of("blue");
    if chars_eq(s, &lit) {
        return Some(Color { r: 0, g: 0, b: 255, a: 255 });
    }
    let lit = chars_of("yellow");
    if chars_eq(s, &lit) {
        return Some(Color { r: 255, g: 255, b: 0, a: 255 });
    }
    let lit = chars_of("cyan");
    if chars_eq(s, &lit) {
        return Some(Color { r: 0, g: 255, b: 255, a: 255 });
    }
    let lit = chars_of("aqua");
    if chars_eq(s, &lit) {
        return Some(Color { r: 0, g: 255, b: 255, a: 255 });
    }
    let lit = chars_of("magenta");
    if chars_eq(s, &lit) {
        return Some(Color { r: 255, g: 0, b: 255, a: 255 });
    }
    let lit = chars_of("fuchsia");
    if chars_eq(s, &lit) {
        return Some(Color { r: 255, g: 0, b: 255, a: 255 });
    }
    let lit = chars_of("transparent");
    if chars_eq(s, &lit) {
        return Some(Color { r: 0, g: 0, b: 0, a: 0 });
    }
    let lit = chars_of("gray");
    if chars_eq(s, &lit) {
        return Some(Color { r: 128, g: 128, b: 128, a: 255 });
    }
    let lit = chars_of("grey");
    if chars_eq(s, &lit) {
        return Some(Color { r: 128, g: 128, b: 128, a: 255 });
    }
    let lit = chars_of("darkgray");
    if chars_eq(s, &lit) {
        return Some(Color { r: 169, g: 169, b: 169, a: 255 });
    }
    let lit = chars_of("darkgrey");
    if chars_eq(s, &lit) {
        return Some(Color { r: 169, g: 169, b: 169, a: 255 });
    }
    let lit = chars_of("lightgray");
    if chars_eq(s, &lit) {
        return Some(Color { r: 211, g: 211, b: 211, a: 255 });
    }
    let lit = chars_of("lightgrey");
    if chars_eq(s, &lit) {
        return Some(Color { r: 211, g: 211, b: 211, a: 255 });
    }
    let lit = chars_of("dimgray");
    if chars_eq(s, &lit) {
        return Some(Color { r: 105, g: 105, b: 105, a: 255 });
    }
    let lit = chars_of("dimgrey");
    if chars_eq(s, &lit) {
        return Some(Color { r: 105, g: 105, b: 105, a: 255 });
    }
    let lit = chars_of("silver");
    if chars_eq(s, &lit) {
        return Some(Color { r: 192, g: 192, b: 192, a: 255 });
    }
    let lit = chars_of("gainsboro");
    if chars_eq(s, &lit) {
        return Some(Color { r: 220, g: 220, b: 220, a: 255 });
    }
    let lit = chars_of("whitesmoke");
    if chars_eq(s, &lit) {
        return Some(Color { r: 245, g: 245, b: 245, a: 255 });
    }
    let lit = chars_of("maroon");
    if chars_eq(s, &lit) {
        return Some(Color { r: 128, g: 0, b: 0, a: 255 });
    }
    let lit = chars_of("darkred");
    if chars_eq(s, &lit) {
        return Some(Color { r: 139, g: 0, b: 0, a: 255 });
    }
    let lit = chars_of("firebrick");
    if chars_eq(s, &lit) {
        return Some(Color { r: 178, g: 34, b: 34, a: 255 });
    }
    let lit = chars_of("crimson");
    if chars_eq(s, &lit) {
        return Some(Color { r: 220, g: 20, b: 60, a: 255 });
    }
    let lit = chars_of("indianred");
    if chars_eq(s, &lit) {
        return Some(Color { r: 205, g: 92, b: 92, a: 255 });
    }
    let lit = chars_of("lightcoral");
    if chars_eq(s, &lit) {
        return Some(Color { r: 240, g: 128, b: 128, a: 255 });
    }
    let lit = chars_of("salmon");
    if chars_eq(s, &lit) {
        return Some(Color { r: 250, g: 128, b: 114, a: 255 });
    }
    let lit = chars_of("lightsalmon");
    if chars_eq(s, &lit) {
        return Some(Color { r: 255, g: 160, b: 122, a: 255 });
    }
    let lit = chars_of("coral");
    if chars_eq(s, &lit) {
        return Some(Color { r: 255, g: 127, b: 80, a: 255 });
    }
    let lit = chars_of("tomato");
    if chars_eq(s, &lit) {
        return Some(Color { r: 255, g: 99, b: 71, a: 255 });
    }
    let lit = chars_of("orangered");
    if chars_eq(s, &lit) {
        return Some(Color { r: 255, g: 69, b: 0, a: 255 });
    }
    let lit = chars_of("pink");
    if chars_eq(s, &lit) {
        return Some(Color { r: 255, g: 192, b: 203, a: 255 });
    }
    let lit = chars_of("lightpink");
    if chars_eq(s, &lit) {
        return Some(Color { r: 255, g: 182, b: 193, a: 255 });
    }
    let lit = chars_of("hotpink");
    if chars_eq(s, &lit) {
        return Some(Color { r: 255, g: 105, b: 180, a: 255 });
    }
    let lit = chars_of("deeppink");
    if chars_eq(s, &lit) {
        return Some(Color { r: 255, g: 20, b: 147, a: 255 });
    }
    let lit = chars_of("mediumvioletred");
    if chars_eq(s, &lit) {
        return Some(Color { r: 199, g: 21, b: 133, a: 255 });
    }
    let lit = chars_of("palevioletred");
    if chars_eq(s, &lit) {
        return Some(Color { r: 219, g: 112, b: 147, a: 255 });
    }
    let lit = chars_of("orange");
    if chars_eq(s, &lit) {
        return Some(Color { r: 255, g: 165, b: 0, a: 255 });
    }
    let lit = chars_of("darkorange");
    if chars_eq(s, &lit) {
        return Some(Color { r: 255, g: 140, b: 0, a: 255 });
    }
    let lit = chars_of("gold");
    if chars_eq(s, &lit) {
        return Some(Color { r: 255, g: 215, b: 0, a: 255 });
    }
    let lit = chars_of("lightyellow");
    if chars_eq(s, &lit) {
        return Some(Color { r: 255, g: 255, b: 224, a: 255 });
    }
    let lit = chars_of("lemonchiffon");
    if chars_eq(s, &lit) {
        return Some(Color { r: 255, g: 250, b: 205, a: 255 });
    }
    let lit = chars_of("papayawhip");
    if chars_eq(s, &lit) {
        return Some(Color { r: 255, g: 239, b: 213, a: 255 });
    }
    let lit = chars_of("moccasin");
    if chars_eq(s, &lit) {
        return Some(Color { r: 255, g: 228, b: 181, a: 255 });
    }
    let lit = chars_of("peachpuff");
    if chars_eq(s, &lit) {
        return Some(Color { r: 255, g: 218, b: 185, a: 255 });
    }
    let lit = chars_of("palegoldenrod");
    if chars_eq(s, &lit) {
        return Some(Color { r: 238, g: 232, b: 170, a: 255 });
    }
    let lit = chars_of("khaki");
    if chars_eq(s, &lit) {
        return Some(Color { r: 240, g: 230, b: 140, a: 255 });
    }
    let lit = chars_of("darkkhaki");
    if chars_eq(s, &lit) {
        return Some(Color { r: 189, g: 183, b: 107, a: 255 });
    }
    let lit = chars_of("purple");
    if chars_eq(s, &lit) {
        return Some(Color { r: 128, g: 0, b: 128, a: 255 });
    }
    let lit = chars_of("indigo");
    if chars_eq(s, &lit) {
        return Some(Color { r: 75, g: 0, b: 130, a: 255 });
    }
    let lit = chars_of("darkmagenta");
    if chars_eq(s, &lit) {
        return Some(Color { r: 139, g: 0, b: 139, a: 255 });
    }
    let lit = chars_of("darkviolet");
    if chars_eq(s, &lit) {
        return Some(Color { r: 148, g: 0, b: 211, a: 255 });
    }
    let lit = chars_of("darkorchid");
    if chars_eq(s, &lit) {
        return Some(Color { r: 153, g: 50, b: 204, a: 255 });
    }
    let lit = chars_of("mediumorchid");
    if chars_eq(s, &lit) {
        return Some(Color { r: 186, g: 85, b: 211, a: 255 });
    }
    let lit = chars_of("orchid");
    if chars_eq(s, &lit) {
        return Some(Color { r: 218, g: 112, b: 214, a: 255 });
    }
    let lit = chars_of("violet");
    if chars_eq(s, &lit) {
        return Some(Color { r: 238, g: 130, b: 238, a: 255 });
    }
    let lit = chars_of("plum");
    if chars_eq(s, &lit) {
        return Some(Color { r: 221, g: 160, b: 221, a: 255 });
    }
    let lit = chars_of("lavender");
    if chars_eq(s, &lit) {
        return Some(Color { r: 230, g: 230, b: 250, a: 255 });
    }
    let lit = chars_of("thistle");
    if chars_eq(s, &lit) {
        return Some(Color { r: 216, g: 191, b: 216, a: 255 });
    }
    let lit = chars_of("blueviolet");
    if chars_eq(s, &lit) {
        return Some(Color { r: 138, g: 43, b: 226, a: 255 });
    }
    let lit = chars_of("mediumpurple");
    if chars_eq(s, &lit) {
        return Some(Color { r: 147, g: 112, b: 219, a: 255 });
    }
    let lit = chars_of("mediumslateblue");
    if chars_eq(s, &lit) {
        return Some(Color { r: 123, g: 104, b: 238, a: 255 });
    }
    let lit = chars_of("slateblue");
    if chars_eq(s, &lit) {
        return Some(Color { r: 106, g: 90, b: 205, a: 255 });
    }
    let lit = chars_of("darkslateblue");
    if chars_eq(s, &lit) {
        return Some(Color { r: 72, g: 61, b: 139, a: 255 });
    }
    let lit = chars_of("rebeccapurple");
    if chars_eq(s, &lit) {
        return Some(Color { r: 102, g: 51, b: 153, a: 255 });
    }
    let lit = chars_of("navy");
    if chars_eq(s, &lit) {
        return Some(Color { r: 0, g: 0, b: 128, a: 255 });
    }
    let lit = chars_of("darkblue");
    if chars_eq(s, &lit) {
        return Some(Color { r: 0, g: 0, b: 139, a: 255 });
    }
    let lit = chars_of("mediumblue");
    if chars_eq(s, &lit) {
        return Some(Color { r: 0, g: 0, b: 205, a: 255 });
    }
    let lit = chars_of("royalblue");
    if chars_eq(s, &lit) {
        return Some(Color { r: 65, g: 105, b: 225, a: 255 });
    }
    let lit = chars_of("cornflowerblue");
    if chars_eq(s, &lit) {
        return Some(Color { r: 100, g: 149, b: 237, a: 255 });
    }
    let lit = chars_of("lightsteelblue");
    if chars_eq(s, &lit) {
        return Some(Color { r: 176, g: 196, b: 222, a: 255 });
    }
    let lit = chars_of("steelblue");
    if chars_eq(s, &lit) {
        return Some(Color { r: 70, g: 130, b: 180, a: 255 });
    }
    let lit = chars_of("dodgerblue");
    if chars_eq(s, &lit) {
        return Some(Color { r: 30, g: 144, b: 255, a: 255 });
    }
    let lit = chars_of("deepskyblue");
    if chars_eq(s, &lit) {
        return Some(Color { r: 0, g: 191, b: 255, a: 255 });
    }
    let lit = chars_of("skyblue");
    if chars_eq(s, &lit) {
        return Some(Color { r: 135, g: 206, b: 235, a: 255 });
    }
    let lit = chars_of("lightskyblue");
    if chars_eq(s, &lit) {
        return Some(Color { r: 135, g: 206, b: 250, a: 255 });
    }
    let lit = chars_of("lightblue");
    if chars_eq(s, &lit) {
        return Some(Color { r: 173, g: 216, b: 230, a: 255 });
    }
    let lit = chars_of("powderblue");
    if chars_eq(s, &lit) {
        return Some(Color { r: 176, g: 224, b: 230, a: 255 });
    }
    let lit = chars_of("midnightblue");
    if chars_eq(s, &lit) {
        return Some(Color { r: 25, g: 25, b: 112, a: 255 });
    }
    let lit = chars_of("cadetblue");
    if chars_eq(s, &lit) {
        return Some(Color { r: 95, g: 158, b: 160, a: 255 });
    }
    let lit = chars_of("slategray");
    if chars_eq(s, &lit) {
        return Some(Color { r: 112, g: 128, b: 144, a: 255 });
    }
    let lit = chars_of("slategrey");
    if chars_eq(s, &lit) {
        return Some(Color { r: 112, g: 128, b: 144, a: 255 });
    }
    let lit = chars_of("lightslategray");
    if chars_eq(s, &lit) {
        return Some(Color { r: 119, g: 136, b: 153, a: 255 });
    }
    let lit = chars_of("lightslategrey");
    if chars_eq(s, &lit) {
        return Some(Color { r: 119, g: 136, b: 153, a: 255 });
    }
    let lit = chars_of("aliceblue");
    if chars_eq(s, &lit) {
        return Some(Color { r: 240, g: 248, b: 255, a: 255 });
    }
    let lit = chars_of("azure");
    if chars_eq(s, &lit) {
        return Some(Color { r: 240, g: 255, b: 255, a: 255 });
    }
    let lit = chars_of("lime");
    if chars_eq(s, &lit) {
        return Some(Color { r: 0, g: 255, b: 0, a: 255 });
    }
    let lit = chars_of("limegreen");
    if chars_eq(s, &lit) {
        return Some(Color { r: 50, g: 205, b: 50, a: 255 });
    }
    let lit = chars_of("forestgreen");
    if chars_eq(s, &lit) {
        return Some(Color { r: 34, g: 139, b: 34, a: 255 });
    }
    let lit = chars_of("darkgreen");
    if chars_eq(s, &lit) {
        return Some(Color { r: 0, g: 100, b: 0, a: 255 });
    }
    let lit = chars_of("seagreen");
    if chars_eq(s, &lit) {
        return Some(Color { r: 46, g: 139, b: 87, a: 255 });
    }
    let lit = chars_of("mediumseagreen");
    if chars_eq(s, &lit) {
        return Some(Color { r: 60, g: 179, b: 113, a: 255 });
    }
    let lit = chars_of("springgreen");
    if chars_eq(s, &lit) {
        return Some(Color { r: 0, g: 255, b: 127, a: 255 });
    }
    let lit = chars_of("mediumspringgreen");
    if chars_eq(s, &lit) {
        return Some(Color { r: 0, g: 250, b: 154, a: 255 });
    }
    let lit = chars_of("lightgreen");
    if chars_eq(s, &lit) {
        return Some(Color { r: 144, g: 238, b: 144, a: 255 });
    }
    let lit = chars_of("palegreen");
    if chars_eq(s, &lit) {
        return Some(Color { r: 152, g: 251, b: 152, a: 255 });
    }
    let lit = chars_of("darkseagreen");
    if chars_eq(s, &lit) {
        return Some(Color { r: 143, g: 188, b: 143, a: 255 });
    }
    let lit = chars_of("greenyellow");
    if chars_eq(s, &lit) {
        return Some(Color { r: 173, g: 255, b: 47, a: 255 });
    }
    let lit = chars_of("chartreuse");
    if chars_eq(s, &lit) {
        return Some(Color { r: 127, g: 255, b: 0, a: 255 });
    }
    let lit = chars_of("lawngreen");
    if chars_eq(s, &lit) {
        return Some(Color { r: 124, g: 252, b: 0, a: 255 });
    }
    let lit = chars_of("yellowgreen");
    if chars_eq(s, &lit) {
        return Some(Color { r: 154, g: 205, b: 50, a: 255 });
    }
    let lit = chars_of("olivedrab");
    if chars_eq(s, &lit) {
        return Some(Color { r: 107, g: 142, b: 35, a: 255 });
    }
    let lit = chars_of("olive");
    if chars_eq(s, &lit) {
        return Some(Color { r: 128, g: 128, b: 0, a: 255 });
    }
    let lit = chars_of("darkolivegreen");
    if chars_eq(s, &lit) {
        return Some(Color { r: 85, g: 107, b: 47, a: 255 });
    }
    let lit = chars_of("mediumaquamarine");
    if chars_eq(s, &lit) {
        return Some(Color { r: 102, g: 205, b: 170, a: 255 });
    }
    let lit = chars_of("honeydew");
    if chars_eq(s, &lit) {
        return Some(Color { r: 240, g: 255, b: 240, a: 255 });
    }
    let lit = chars_of("mintcream");
    if chars_eq(s, &lit) {
        return Some(Color { r: 245, g: 255, b: 250, a: 255 });
    }
    let lit = chars_of("teal");
    if chars_eq(s, &lit) {
        return Some(Color { r: 0, g: 128, b: 128, a: 255 });
    }
    let lit = chars_of("darkcyan");
    if chars_eq(s, &lit) {
        return Some(Color { r: 0, g: 139, b: 139, a: 255 });
    }
    let lit = chars_of("lightcyan");
    if chars_eq(s, &lit) {
        return Some(Color { r: 224, g: 255, b: 255, a: 255 });
    }
    let lit = chars_of("aquamarine");
    if chars_eq(s, &lit) {
        return Some(Color { r: 127, g: 255, b: 212, a: 255 });
    }
    let lit = chars_of("turquoise");
    if chars_eq(s, &lit) {
        return Some(Color { r: 64, g: 224, b: 208, a: 255 });
    }
    let lit = chars_of("mediumturquoise");
    if chars_eq(s, &lit) {
        return Some(Color { r: 72, g: 209, b: 204, a: 255 });
    }
    let lit = chars_of("darkturquoise");
    if chars_eq(s, &lit) {
        return Some(Color { r: 0, g: 206, b: 209, a: 255 });
    }
    let lit = chars_of("paleturquoise");
    if chars_eq(s, &lit) {
        return Some(Color { r: 175, g: 238, b: 238, a: 255 });
    }
    let lit = chars_of("brown");
    if chars_eq(s, &lit) {
        return Some(Color { r: 165, g: 42, b: 42, a: 255 });
    }
    let lit = chars_of("saddlebrown");
    if chars_eq(s, &lit) {
        return Some(Color { r: 139, g: 69, b: 19, a: 255 });
    }
    let lit = chars_of("sienna");
    if chars_eq(s, &lit) {
        return Some(Color { r: 160, g: 82, b: 45, a: 255 });
    }
    let lit = chars_of("chocolate");
    if chars_eq(s, &lit) {
        return Some(Color { r: 210, g: 105, b: 30, a: 255 });
    }
    let lit = chars_of("peru");
    if chars_eq(s, &lit) {
        return Some(Color { r: 205, g: 133, b: 63, a: 255 });
    }
    let lit = chars_of("sandybrown");
    if chars_eq(s, &lit) {
        return Some(Color { r: 244, g: 164, b: 96, a: 255 });
    }
    let lit = chars_of("burlywood");
    if chars_eq(s, &lit) {
        return Some(Color { r: 222, g: 184, b: 135, a: 255 });
    }
    let lit = chars_of("tan");
    if chars_eq(s, &lit) {
        return Some(Color { r: 210, g: 180, b: 140, a: 255 });
    }
    let lit = chars_of("rosybrown");
    if chars_eq(s, &lit) {
        return Some(Color { r: 188, g: 143, b: 143, a: 255 });
    }
    let lit = chars_of("goldenrod");
    if chars_eq(s, &lit) {
        return Some(Color { r: 218, g: 165, b: 32, a: 255 });
    }
    let lit = chars_of("darkgoldenrod");
    if chars_eq(s, &lit) {
        return Some(Color { r: 184, g: 134, b: 11, a: 255 });
    }
    let lit = chars_of("navajowhite");
    if chars_eq(s, &lit) {
        return Some(Color { r: 255, g: 222, b: 173, a: 255 });
    }
    let lit = chars_of("wheat");
    if chars_eq(s, &lit) {
        return Some(Color { r: 245, g: 222, b: 179, a: 255 });
    }
    let lit = chars_of("blanchedalmond");
    if chars_eq(s, &lit) {
        return Some(Color { r: 255, g: 235, b: 205, a: 255 });
    }
    let lit = chars_of("bisque");
    if chars_eq(s, &lit) {
        return Some(Color { r: 255, g: 228, b: 196, a: 255 });
    }
    let lit = chars_of("cornsilk");
    if chars_eq(s, &lit) {
        return Some(Color { r: 255, g: 248, b: 220, a: 255 });
    }
    let lit = chars_of("beige");
    if chars_eq(s, &lit) {
        return Some(Color { r: 245, g: 245, b: 220, a: 255 });
    }
    let lit = chars_of("antiquewhite");
    if chars_eq(s, &lit) {
        return Some(Color { r: 250, g: 235, b: 215, a: 255 });
    }
    let lit = chars_of("linen");
    if chars_eq(s, &lit) {
        return Some(Color { r: 250, g: 240, b: 230, a: 255 });
    }
    let lit = chars_of("floralwhite");
    if chars_eq(s, &lit) {
        return Some(Color { r: 255, g: 250, b: 240, a: 255 });
    }
    let lit = chars_of("oldlace");
    if chars_eq(s, &lit) {
        return Some(Color { r: 253, g: 245, b: 230, a: 255 });
    }
    let lit = chars_of("ivory");
    if chars_eq(s, &lit) {
        return Some(Color { r: 255, g: 255, b: 240, a: 255 });
    }
    let lit = chars_of("seashell");
    if chars_eq(s, &lit) {
        return Some(Color { r: 255, g: 245, b: 238, a: 255 });
    }
    let lit = chars_of("snow");
    if chars_eq(s, &lit) {
        return Some(Color { r: 255, g: 250, b: 250, a: 255 });
    }
    let lit = chars_of("mistyrose");
    if chars_eq(s, &lit) {
        return Some(Color { r: 255, g: 228, b: 225, a: 255 });
    }
    let lit = chars_of("lavenderblush");
    if chars_eq(s, &lit) {
        return Some(Color { r: 255, g: 240, b: 245, a: 255 });
    }
    let lit = chars_of("ghostwhite");
    if chars_eq(s, &lit) {
        return Some(Color { r: 248, g: 248, b: 255, a: 255 });
    }
    None
}

/// An axis-aligned rectangle in logical pixels.
#[derive(Debug, Clone, Copy, PartialEq, Eq, Structural)]
pub struct Rect {
    pub x: i64,
    pub y: i64,
    pub width: i64,
    pub height: i64,
}

/// All four rectangle fields inside the stored-geometry range.
pub open spec fn rect_ok(r: Rect) -> bool {
    dim_ok(r.x as int) && dim_ok(r.y as int) && dim_ok(r.width as int) && dim_ok(r.height as int)
}

impl Rect {
    pub fn new(x: i64, y: i64, width: i64, height: i64) -> (r: Rect)
        ensures
            r == (Rect { x, y, width, height }),
    {
        Rect { x, y, width, height }
    }

    /// Whether the point lies inside (left and top edges inclusive).
    pub fn contains(&self, px: i64, py: i64) -> (r: bool)
        requires
            rect_ok(*self),
        ensures
            r == (px >= self.x && px < self.x + self.width && py >= self.y && py < self.y
                + self.height),
    {
        px >= self.x && px < self.x + self.width && py >= self.y && py < self.y + self.height
    }

    pub fn right(&self) -> (r: i64)
        requires
            rect_ok(*self),
        ensures
            r == self.x + self.width,
    {
        self.x + self.width
    }

    pub fn bottom(&self) -> (r: i64)
        requires
            rect_ok(*self),
        ensures
            r == self.y + self.height,
    {
        self.y + self.height
    }
}

/// One primitive paint command, in absolute logical-pixel coordinates.
/// Opacity is a percentage, 0 to 100.
#[derive(Debug, Clone)]
pub enum DisplayCommand {
    SolidRect { rect: Rect, color: Color, border_radius: i64, opacity: i64 },
    Border { rect: Rect, color: Color, width: i64, border_radius: i64 },
    Text { text: String, x: i64, y: i64, color: Color, font_size: i64, opacity: i64 },
    Image { rect: Rect, texture_id: usize, opacity: i64 },
    BoxShadow {
        rect: Rect,
        color: Color,
        offset_x: i64,
        offset_y: i64,
        blur_radius: i64,
        spread_radius: i64,
        border_radius: i64,
    },
}

/// The ordered list of paint commands a frame consists of.
#[derive(Debug)]
pub struct DisplayList {
    pub commands: Vec<DisplayCommand>,
}

impl DisplayList {
    pub fn new() -> (r: DisplayList)
        ensures
            r.commands@.len() == 0,
    {
        DisplayList { commands: Vec::new() }
    }

    pub fn push_rect(&mut self, rect: Rect, color: Color)
        ensures
            final(self).commands@ == old(self).commands@.push(
                DisplayCommand::SolidRect { rect, color, border_radius: 0i64, opacity: 100i64 },
            ),
    {
        self.commands.push(DisplayCommand::SolidRect { rect, color, border_radius: 0, opacity: 100 });
    }

    pub fn push_rect_with_radius(&mut self, rect: Rect, color: Color, border_radius: i64, opacity: i64)
        ensures
            final(self).commands@ == old(self).commands@.push(
                DisplayCommand::SolidRect { rect, color, border_radius, opacity },
            ),
    {
        self.commands.push(DisplayCommand::SolidRect { rect, color, border_radius, opacity });
    }

    pub fn push_border(&mut self, rect: Rect, color: Color, width: i64)
        ensures
            final(self).commands@ == old(self).commands@.push(
                DisplayCommand::Border { rect, color, width, border_radius: 0i64 },
            ),
    {
        self.commands.push(DisplayCommand::Border { rect, color, width, border_radius: 0 });
    }

    pub fn push_border_with_radius(&mut self, rect: Rect, color: Color, width: i64, border_radius: i64)
        ensures
            final(self).commands@ == old(self).commands@.push(
                DisplayCommand::Border { rect, color, width, border_radius },
            ),
    {
        self.commands.push(DisplayCommand::Border { rect, color, width, border_radius });
    }

    pub fn push_text(&mut self, text: String, x: i64, y: i64, color: Color, font_size: i64)
        ensures
            final(self).commands@ == old(self).commands@.push(
                DisplayCommand::Text { text, x, y, color, font_size, opacity: 100i64 },
            ),
    {
        self.commands.push(DisplayCommand::Text { text, x, y, color, font_size, opacity: 100 });
    }

    pub fn push_text_with_opacity(
        &mut self,
        text: String,
        x: i64,
        y: i64,
        color: Color,
        font_size: i64,
        opacity: i64,
    )
        ensures
            final(self).commands@ == old(self).commands@.push(
                DisplayCommand::Text { text, x, y, color, font_size, opacity },
            ),
    {
        self.commands.push(DisplayCommand::Text { text, x, y, color, font_size, opacity });
    }

    pub fn push_image(&mut self, rect: Rect, texture_id: usize)
        ensures
            final(self).commands@ == old(self).commands@.push(
                DisplayCommand::Image { rect, texture_id, opacity: 100i64 },
            ),
    {
        self.commands.push(DisplayCommand::Image { rect, texture_id, opacity: 100 });
    }

    pub fn push_image_with_opacity(&mut self, rect: Rect, texture_id: usize, opacity: i64)
        ensures
            final(self).commands@ == old(self).commands@.push(
                DisplayCommand::Image { rect, texture_id, opacity },
            ),
    {
        self.commands.push(DisplayCommand::Image { rect, texture_id, opacity });
    }

    pub fn push_box_shadow(
        &mut self,
        rect: Rect,
        color: Color,
        offset_x: i64,
        offset_y: i64,
        blur_radius: i64,
        spread_radius: i64,
        border_radius: i64,
    )
        ensures
            final(self).commands@ == old(self).commands@.push(
                DisplayCommand::BoxShadow {
                    rect,
                    color,
                    offset_x,
                    offset_y,
                    blur_radius,
                    spread_radius,
                    border_radius,
                },
            ),
    {
        self.commands.push(
            DisplayCommand::BoxShadow {
                rect,
                color,
                offset_x,
                offset_y,
                blur_radius,
                spread_radius,
                border_radius,
            },
        );
    }

    pub fn len(&self) -> (r: usize)
        ensures
            r == self.commands@.len(),
    {
        self.commands.len()
    }
}

} // verus!

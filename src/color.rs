use vstd::prelude::*;

verus! {

/// A color with red, green, blue and alpha components.
#[derive(Clone, Copy, Debug, PartialEq, Eq, Structural)]
pub struct Rgba {
    pub r: u8,
    pub g: u8,
    pub b: u8,
    pub a: u8,
}

/// The value of a hexadecimal digit, either case.
pub open spec fn hex_value(c: char) -> Option<u8> {
    if '0' <= c && c <= '9' {
        Some((c as u32 - '0' as u32) as u8)
    } else if 'a' <= c && c <= 'f' {
        Some((c as u32 - 'a' as u32 + 10) as u8)
    } else if 'A' <= c && c <= 'F' {
        Some((c as u32 - 'A' as u32 + 10) as u8)
    } else {
        None
    }
}

/// The byte written by two hexadecimal digits.
pub open spec fn hex_pair(hi: char, lo: char) -> u8 {
    (hex_value(hi)->0 * 16 + hex_value(lo)->0) as u8
}

/// A color written `#rgb` (each digit taken as the component itself),
/// `#rrggbb` (alpha 255) or `#rrggbbaa`.
pub open spec fn color_of_text(s: Seq<char>) -> Option<Rgba> {
    let d = s.drop_first();
    if s.len() == 0 || s[0] != '#' || exists|i: int| 0 <= i < d.len() && (#[trigger] hex_value(d[i])).is_none() {
        None
    } else if d.len() == 3 {
        Some(Rgba { r: hex_value(d[0])->0, g: hex_value(d[1])->0, b: hex_value(d[2])->0, a: 255 })
    } else if d.len() == 6 {
        Some(Rgba { r: hex_pair(d[0], d[1]), g: hex_pair(d[2], d[3]), b: hex_pair(d[4], d[5]), a: 255 })
    } else if d.len() == 8 {
        Some(
            Rgba {
                r: hex_pair(d[0], d[1]),
                g: hex_pair(d[2], d[3]),
                b: hex_pair(d[4], d[5]),
                a: hex_pair(d[6], d[7]),
            },
        )
    } else {
        None
    }
}

pub open spec fn opaque_rgb(r: u8, g: u8, b: u8) -> Rgba {
    Rgba { r, g, b, a: 255 }
}

/// Overlay for added lines on a light background: `#d0ffd0`.
pub fn light_plus() -> (c: Rgba)
    ensures
        c == opaque_rgb(0xd0, 0xff, 0xd0),
{
    Rgba { r: 0xd0, g: 0xff, b: 0xd0, a: 255 }
}

/// Overlay for removed lines on a light background: `#ffd0d0`.
pub fn light_minus() -> (c: Rgba)
    ensures
        c == opaque_rgb(0xff, 0xd0, 0xd0),
{
    Rgba { r: 0xff, g: 0xd0, b: 0xd0, a: 255 }
}

/// Overlay for added lines on a dark background: `#013B01`.
pub fn dark_plus() -> (c: Rgba)
    ensures
        c == opaque_rgb(0x01, 0x3b, 0x01),
{
    Rgba { r: 0x01, g: 0x3b, b: 0x01, a: 255 }
}

/// Overlay for removed lines on a dark background: `#3f0001`.
pub fn dark_minus() -> (c: Rgba)
    ensures
        c == opaque_rgb(0x3f, 0x00, 0x01),
{
    Rgba { r: 0x3f, g: 0x00, b: 0x01, a: 255 }
}

} // verus!

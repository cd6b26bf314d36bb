//! The colors of series.

use vstd::prelude::*;

use crate::text;

verus! {

/// A color.
#[derive(Debug, Clone, Copy, PartialEq, Eq, Structural)]
pub struct Rgb {
    /// How red it is.
    pub red: u8,
    /// How green it is.
    pub green: u8,
    /// How blue it is.
    pub blue: u8,
}

/// How many colors there are before they come again.
pub const PALETTE_SIZE: usize = 8;

/// The color of the series at `idx`.
pub open spec fn palette(idx: nat) -> Rgb {
    let i = idx % (PALETTE_SIZE as nat);
    if i == 0 {
        Rgb { red: 31, green: 119, blue: 180 }
    } else if i == 1 {
        Rgb { red: 255, green: 127, blue: 14 }
    } else if i == 2 {
        Rgb { red: 44, green: 160, blue: 44 }
    } else if i == 3 {
        Rgb { red: 214, green: 39, blue: 40 }
    } else if i == 4 {
        Rgb { red: 148, green: 103, blue: 189 }
    } else if i == 5 {
        Rgb { red: 140, green: 86, blue: 75 }
    } else if i == 6 {
        Rgb { red: 227, green: 119, blue: 194 }
    } else {
        Rgb { red: 127, green: 127, blue: 127 }
    }
}

/// The color of the series at `idx`, where the caller gives none.
pub fn series_color(idx: usize) -> (r: Rgb)
    ensures
        r == palette(idx as nat),
{
    let i: usize = idx % PALETTE_SIZE;
    if i == 0 {
        Rgb { red: 31, green: 119, blue: 180 }
    } else if i == 1 {
        Rgb { red: 255, green: 127, blue: 14 }
    } else if i == 2 {
        Rgb { red: 44, green: 160, blue: 44 }
    } else if i == 3 {
        Rgb { red: 214, green: 39, blue: 40 }
    } else if i == 4 {
        Rgb { red: 148, green: 103, blue: 189 }
    } else if i == 5 {
        Rgb { red: 140, green: 86, blue: 75 }
    } else if i == 6 {
        Rgb { red: 227, green: 119, blue: 194 }
    } else {
        Rgb { red: 127, green: 127, blue: 127 }
    }
}

/// Two series have the same color only where a whole palette lies between them.
pub proof fn law_neighbors_differ(a: nat, b: nat)
    ensures
        palette(a) == palette(b) <==> a % (PALETTE_SIZE as nat) == b % (PALETTE_SIZE as nat),
{
}

/// The color that the caller gives a series: the last one, where there are several.
pub open spec fn mapped(colors: Seq<(String, Rgb)>, name: Seq<char>) -> Option<Rgb>
    decreases colors.len(),
{
    if colors.len() == 0 {
        None
    } else if colors.last().0@ == name {
        Some(colors.last().1)
    } else {
        mapped(colors.drop_last(), name)
    }
}

/// The color of a series: the caller's, else that of its place.
pub fn series_color_for(series_name: &str, idx: usize, color_map: &Vec<(String, Rgb)>) -> (r: Rgb)
    ensures
        r == (match mapped(color_map@, series_name@) {
            Some(c) => c,
            None => palette(idx as nat),
        }),
{
    let mut i: usize = color_map.len();
    assert(color_map@.take(i as int) =~= color_map@);
    while i > 0
        invariant
            i <= color_map@.len(),
            mapped(color_map@, series_name@) == mapped(
                color_map@.take(i as int),
                series_name@,
            ),
        decreases i,
    {
        proof {
            assert(color_map@.take(i as int).drop_last() =~= color_map@.take(i - 1));
        }
        if text::same_text(color_map[i - 1].0.as_str(), series_name) {
            return color_map[i - 1].1;
        }
        i = i - 1;
    }
    series_color(idx)
}

/// The value of a hexadecimal digit.
pub open spec fn hex_digit(c: char) -> Option<u8> {
    if '0' <= c && c <= '9' {
        Some((c as int - '0' as int) as u8)
    } else if 'a' <= c && c <= 'f' {
        Some((c as int - 'a' as int + 10) as u8)
    } else if 'A' <= c && c <= 'F' {
        Some((c as int - 'A' as int + 10) as u8)
    } else {
        None
    }
}

/// The value of two hexadecimal digits.
pub open spec fn hex_byte(a: char, b: char) -> Option<u8> {
    match (hex_digit(a), hex_digit(b)) {
        (Some(x), Some(y)) => Some((16 * x + y) as u8),
        _ => None,
    }
}

/// The color that a text writes: six hexadecimal digits, with a `#` before them or
/// without.
pub open spec fn hex_color(s: Seq<char>) -> Option<Rgb> {
    let t = if s.len() > 0 && s[0] == '#' {
        s.skip(1)
    } else {
        s
    };
    if t.len() != 6 {
        None
    } else {
        match (hex_byte(t[0], t[1]), hex_byte(t[2], t[3]), hex_byte(t[4], t[5])) {
            (Some(red), Some(green), Some(blue)) => Some(Rgb { red, green, blue }),
            _ => None,
        }
    }
}

fn digit_value(c: char) -> (r: Option<u8>)
    ensures
        r == hex_digit(c),
{
    let n: u32 = text::code_point(c);
    if '0' <= c && c <= '9' {
        Some((n - 48) as u8)
    } else if 'a' <= c && c <= 'f' {
        Some((n - 97 + 10) as u8)
    } else if 'A' <= c && c <= 'F' {
        Some((n - 65 + 10) as u8)
    } else {
        None
    }
}

fn byte_value(a: char, b: char) -> (r: Option<u8>)
    ensures
        r == hex_byte(a, b),
{
    match (digit_value(a), digit_value(b)) {
        (Some(x), Some(y)) => Some(16 * x + y),
        _ => None,
    }
}

/// The color that a text writes.
pub fn parse_hex_color(s: &str) -> (r: Option<Rgb>)
    ensures
        r == hex_color(s@),
{
    let chars = text::chars_of(s);
    let from: usize = if chars.len() > 0 && chars[0] == '#' {
        1
    } else {
        0
    };
    let ghost t = if s@.len() > 0 && s@[0] == '#' {
        s@.skip(1)
    } else {
        s@
    };
    assert(t.len() == chars@.len() - from);
    if chars.len() - from != 6 {
        return None;
    }
    assert(forall|i: int| 0 <= i < 6 ==> t[i] == #[trigger] chars@[from + i]);
    assert(t[0] == chars@[from as int] && t[1] == chars@[from + 1] && t[2] == chars@[from + 2]
        && t[3] == chars@[from + 3] && t[4] == chars@[from + 4] && t[5] == chars@[from + 5]);
    let red = byte_value(chars[from], chars[from + 1]);
    let green = byte_value(chars[from + 2], chars[from + 3]);
    let blue = byte_value(chars[from + 4], chars[from + 5]);
    match (red, green, blue) {
        (Some(red), Some(green), Some(blue)) => Some(Rgb { red, green, blue }),
        _ => None,
    }
}

/// The eight colors of the palette, in their order; behind the last the first comes again.
pub proof fn law_palette(idx: nat)
    ensures
        palette(0) == (Rgb { red: 31, green: 119, blue: 180 }),
        palette(1) == (Rgb { red: 255, green: 127, blue: 14 }),
        palette(2) == (Rgb { red: 44, green: 160, blue: 44 }),
        palette(3) == (Rgb { red: 214, green: 39, blue: 40 }),
        palette(4) == (Rgb { red: 148, green: 103, blue: 189 }),
        palette(5) == (Rgb { red: 140, green: 86, blue: 75 }),
        palette(6) == (Rgb { red: 227, green: 119, blue: 194 }),
        palette(7) == (Rgb { red: 127, green: 127, blue: 127 }),
        palette(idx + 8) == palette(idx),
{
}

/// Of several colors given for one name the last counts; a name without one has none.
pub proof fn law_mapped_colors(colors: Seq<(String, Rgb)>, name: Seq<char>, i: int)
    ensures
        0 <= i < colors.len() && colors[i].0@ == name && (forall|j: int|
            i < j < colors.len() ==> (#[trigger] colors[j]).0@ != name) ==> mapped(colors, name)
            == Some(colors[i].1),
        (forall|j: int| 0 <= j < colors.len() ==> (#[trigger] colors[j]).0@ != name) ==> mapped(
            colors,
            name,
        ) is None,
    decreases colors.len(),
{
    if colors.len() > 0 {
        let t = colors.drop_last();
        law_mapped_colors(t, name, i);
        if colors.last().0@ != name {
            assert(forall|j: int| 0 <= j < t.len() ==> t[j] == colors[j]);
            if 0 <= i < colors.len() && colors[i].0@ == name {
                assert(t[i] == colors[i]);
            }
        } else {
            assert(colors[colors.len() - 1].0@ == name);
        }
    }
}

/// A hexadecimal digit is one of ten digits or of six letters in either case.
pub proof fn law_hex_digits(c: char)
    ensures
        48 <= c as int <= 57 ==> hex_digit(c) == Some((c as int - 48) as u8),
        97 <= c as int <= 102 ==> hex_digit(c) == Some((c as int - 87) as u8),
        65 <= c as int <= 70 ==> hex_digit(c) == Some((c as int - 55) as u8),
        hex_digit(c) is Some <==> 48 <= c as int <= 57 || 97 <= c as int <= 102 || 65 <= c as int
            <= 70,
{
}

/// A color is read from six hexadecimal digits, two for each of red, green and blue, with or
/// without a number sign before them; anything else is no color.
pub proof fn law_hex_colors(s: Seq<char>)
    ensures
        s.len() == 6 && s[0] != '#' && (forall|i: int|
            0 <= i < 6 ==> hex_digit(#[trigger] s[i]) is Some) ==> hex_color(s) == Some(
            Rgb {
                red: (16 * hex_digit(s[0])->0 + hex_digit(s[1])->0) as u8,
                green: (16 * hex_digit(s[2])->0 + hex_digit(s[3])->0) as u8,
                blue: (16 * hex_digit(s[4])->0 + hex_digit(s[5])->0) as u8,
            },
        ),
        s.len() == 6 && (exists|i: int| 0 <= i < 6 && hex_digit(#[trigger] s[i]) is None)
            ==> hex_color(s) is None,
        s.len() == 6 && s[0] != '#' ==> hex_color(seq!['#'] + s) == hex_color(s),
        s.len() != 6 && s.len() != 7 ==> hex_color(s) is None,
        s.len() == 7 && s[0] != '#' ==> hex_color(s) is None,
{
    assert((seq!['#'] + s).skip(1) =~= s);
    assert(s.len() == 6 ==> hex_digit('#') is None);
}

} // verus!

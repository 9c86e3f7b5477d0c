use crate::number_base_converter::{format_radix, parse_radix, parsed_u64, radix_digits};
use crate::text::string_from_chars;
use vstd::prelude::*;

verus! {

/// A colour as red, green and blue components.
#[derive(Debug, Clone, Copy, PartialEq, Eq, Structural)]
pub struct Color {
    pub r: u8,
    pub g: u8,
    pub b: u8,
}

/// `s` without its leading `#` characters.
pub open spec fn strip_hashes(s: Seq<char>) -> Seq<char>
    decreases s.len(),
{
    if s.len() > 0 && s[0] == '#' {
        strip_hashes(s.skip(1))
    } else {
        s
    }
}

/// A white-space character in Unicode's sense.
pub open spec fn is_white_space(c: char) -> bool {
    ||| '\t' <= c <= '\r'
    ||| c == ' '
    ||| c == '\u{85}'
    ||| c == '\u{a0}'
    ||| c == '\u{1680}'
    ||| '\u{2000}' <= c <= '\u{200a}'
    ||| c == '\u{2028}'
    ||| c == '\u{2029}'
    ||| c == '\u{202f}'
    ||| c == '\u{205f}'
    ||| c == '\u{3000}'
}

/// `s` without leading white space.
pub open spec fn trim_start(s: Seq<char>) -> Seq<char>
    decreases s.len(),
{
    if s.len() > 0 && is_white_space(s[0]) {
        trim_start(s.skip(1))
    } else {
        s
    }
}

/// `s` without trailing white space.
pub open spec fn trim_end(s: Seq<char>) -> Seq<char>
    decreases s.len(),
{
    if s.len() > 0 && is_white_space(s.last()) {
        trim_end(s.drop_last())
    } else {
        s
    }
}

/// `s` without leading or trailing white space.
pub open spec fn trim(s: Seq<char>) -> Seq<char> {
    trim_end(trim_start(s))
}

/// The pieces of `s` between commas, in order; a text without commas is one piece.
pub open spec fn split_commas(s: Seq<char>) -> Seq<Seq<char>>
    decreases s.len(),
{
    if s.len() == 0 {
        seq![Seq::empty()]
    } else {
        let rest = split_commas(s.drop_last());
        if s.last() == ',' {
            rest.push(Seq::empty())
        } else {
            rest.update(rest.len() - 1, rest.last().push(s.last()))
        }
    }
}

/// The colour a six-digit hexadecimal code gives, after any leading `#`s.
pub open spec fn hex_color(s: Seq<char>) -> Option<Color> {
    let t = strip_hashes(s);
    if t.len() == 6 {
        match parsed_u64(t, 16) {
            Some(v) => Some(
                Color {
                    r: ((v / 0x10000) % 0x100) as u8,
                    g: ((v / 0x100) % 0x100) as u8,
                    b: (v % 0x100) as u8,
                },
            ),
            None => None,
        }
    } else {
        None
    }
}

/// A component 0-255 written in decimal, white space around it allowed.
pub open spec fn component(s: Seq<char>) -> Option<u8> {
    match parsed_u64(trim(s), 10) {
        Some(v) => if v <= 255 {
            Some(v as u8)
        } else {
            None
        },
        None => None,
    }
}

/// The colour that three comma-separated decimal components give.
pub open spec fn rgb_color(s: Seq<char>) -> Option<Color> {
    let parts = split_commas(s);
    if parts.len() == 3 {
        match (component(parts[0]), component(parts[1]), component(parts[2])) {
            (Some(r), Some(g), Some(b)) => Some(Color { r, g, b }),
            _ => None,
        }
    } else {
        None
    }
}

/// `v` in decimal.
pub open spec fn decimal(v: u8) -> Seq<char> {
    radix_digits(v as nat, 10)
}

/// `v` as two uppercase hexadecimal digits.
pub open spec fn hex_pair(v: u8) -> Seq<char> {
    if v < 16 {
        seq!['0'] + radix_digits(v as nat, 16)
    } else {
        radix_digits(v as nat, 16)
    }
}

/// A colour's components as `r, g, b`.
pub open spec fn rgb_text(c: Color) -> Seq<char> {
    decimal(c.r) + seq![',', ' '] + decimal(c.g) + seq![',', ' '] + decimal(c.b)
}

/// A colour as `#RRGGBB`.
pub open spec fn hex_text(c: Color) -> Seq<char> {
    seq!['#'] + hex_pair(c.r) + hex_pair(c.g) + hex_pair(c.b)
}

/// Reads a hexadecimal colour code such as `#1E90FF`: leading `#`s are
/// dropped and six hexadecimal digits must remain.
pub fn parse_hex(input: &str) -> (r: Option<Color>)
    ensures
        r == hex_color(input@),
{
    let n = input.unicode_len();
    let mut start: usize = 0;
    assert(input@.skip(0) =~= input@);
    while start < n && input.get_char(start) == '#'
        invariant
            start <= n,
            n == input@.len(),
            strip_hashes(input@) == strip_hashes(input@.skip(start as int)),
        decreases n - start,
    {
        assert(input@.skip(start as int).skip(1) =~= input@.skip(start + 1));
        start += 1;
    }
    let rest = input.substring_char(start, n);
    assert(rest@ =~= input@.skip(start as int));
    assert(strip_hashes(input@) == rest@);
    if n - start != 6 {
        return None;
    }
    match parse_radix(rest, 16) {
        Some(v) => Some(
            Color {
                r: ((v / 0x10000) % 0x100) as u8,
                g: ((v / 0x100) % 0x100) as u8,
                b: (v % 0x100) as u8,
            },
        ),
        None => None,
    }
}


/// Reads a colour written as three decimal components 0-255 separated by
/// commas, such as `30, 144, 255`.
pub fn parse_rgb(input: &str) -> (r: Option<Color>)
    ensures
        r == rgb_color(input@),
{
    let n = input.unicode_len();
    let ghost s = input@;
    let mut comps: Vec<u8> = Vec::new();
    let mut start: usize = 0;
    let mut i: usize = 0;
    let ghost mut done: Seq<Seq<char>> = Seq::empty();
    assert(s.take(0) =~= Seq::<char>::empty());
    assert(split_commas(s.take(0)) =~= done.push(s.subrange(0, 0)));
    while i < n
        invariant
            s == input@,
            n == s.len(),
            start <= i <= n,
            split_commas(s.take(i as int)) == done.push(s.subrange(start as int, i as int)),
            done.len() == comps@.len(),
            comps@.len() <= 2,
            forall|k: int| 0 <= k < done.len() ==> component(done[k]) == Some(comps@[k]),
        decreases n - i,
    {
        let c = input.get_char(i);
        assert(s.take(i + 1).drop_last() =~= s.take(i as int));
        assert(s.take(i + 1).last() == c);
        if c == ',' {
            assert(split_commas(s.take(i + 1)) == split_commas(s.take(i as int)).push(
                Seq::<char>::empty(),
            ));
            if comps.len() == 2 {
                proof {
                    lemma_split_grows(s, i + 1, s.len() as int);
                    assert(s.take(s.len() as int) =~= s);
                }
                return None;
            }
            let piece = input.substring_char(start, i);
            match parse_component(piece) {
                Some(v) => {
                    comps.push(v);
                },
                None => {
                    proof {
                        lemma_split_grows(s, i + 1, s.len() as int);
                        assert(s.take(s.len() as int) =~= s);
                        assert(split_commas(s.take(i + 1))[done.len() as int] == piece@);
                    }
                    return None;
                },
            }
            proof {
                done = done.push(piece@);
                assert(s.subrange(i + 1, i + 1) =~= Seq::<char>::empty());
                assert(split_commas(s.take(i + 1)) =~= done.push(s.subrange(i + 1, i + 1)));
            }
            start = i + 1;
        } else {
            assert(s.subrange(start as int, i as int).push(c) =~= s.subrange(start as int, i + 1));
            assert(split_commas(s.take(i + 1)) =~= done.push(s.subrange(start as int, i + 1)));
        }
        i += 1;
    }
    assert(s.take(n as int) =~= s);
    if comps.len() != 2 {
        return None;
    }
    let last = input.substring_char(start, n);
    match parse_component(last) {
        Some(b) => Some(Color { r: comps[0], g: comps[1], b }),
        None => None,
    }
}

/// Splitting a longer prefix keeps the finished pieces and never has fewer.
proof fn lemma_split_grows(s: Seq<char>, j: int, k: int)
    requires
        0 <= j <= k <= s.len(),
    ensures
        split_commas(s.take(j)).len() <= split_commas(s.take(k)).len(),
        forall|m: int|
            0 <= m < split_commas(s.take(j)).len() - 1 ==> split_commas(s.take(k))[m]
                == split_commas(s.take(j))[m],
    decreases k - j,
{
    if j < k {
        lemma_split_grows(s, j, k - 1);
        assert(s.take(k).drop_last() =~= s.take(k - 1));
        lemma_split_nonempty(s.take(k - 1));
    }
}

/// Splitting always gives at least one piece.
proof fn lemma_split_nonempty(s: Seq<char>)
    ensures
        split_commas(s).len() >= 1,
    decreases s.len(),
{
    if s.len() > 0 {
        lemma_split_nonempty(s.drop_last());
    }
}

/// Reads one decimal component 0-255, white space around it allowed.
fn parse_component(s: &str) -> (r: Option<u8>)
    ensures
        r == component(s@),
{
    let t = trim_str(s);
    match parse_radix(t, 10) {
        Some(v) => if v <= 255 {
            Some(v as u8)
        } else {
            None
        },
        None => None,
    }
}

/// `s` without leading or trailing white space.
fn trim_str(s: &str) -> (r: &str)
    ensures
        r@ == trim(s@),
{
    let n = s.unicode_len();
    let mut a: usize = 0;
    assert(s@.skip(0) =~= s@);
    while a < n && is_white_space_char(s.get_char(a))
        invariant
            a <= n,
            n == s@.len(),
            trim_start(s@) == trim_start(s@.skip(a as int)),
        decreases n - a,
    {
        assert(s@.skip(a as int).skip(1) =~= s@.skip(a + 1));
        a += 1;
    }
    assert(trim_start(s@) == s@.skip(a as int));
    let mut b: usize = n;
    assert(s@.skip(a as int) =~= s@.subrange(a as int, n as int));
    while b > a && is_white_space_char(s.get_char(b - 1))
        invariant
            a <= b <= n,
            n == s@.len(),
            trim(s@) == trim_end(s@.subrange(a as int, b as int)),
        decreases b,
    {
        assert(s@.subrange(a as int, b as int).drop_last() =~= s@.subrange(a as int, b - 1));
        b -= 1;
    }
    let r = s.substring_char(a, b);
    assert(trim_end(r@) == r@);
    r
}

/// Whether `c` is white space, as `is_white_space` defines it.
fn is_white_space_char(c: char) -> (r: bool)
    ensures
        r == is_white_space(c),
{
    ('\t' <= c && c <= '\r') || c == ' ' || c == '\u{85}' || c == '\u{a0}' || c == '\u{1680}'
        || ('\u{2000}' <= c && c <= '\u{200a}') || c == '\u{2028}' || c == '\u{2029}' || c
        == '\u{202f}' || c == '\u{205f}' || c == '\u{3000}'
}


/// The colour `input` names: a hexadecimal code first, then decimal
/// components; failing both, `float_reading`, which is what reading `input`
/// as CMYK or HSL percentages gave.
pub open spec fn color_of(input: Seq<char>, float_reading: Option<Color>) -> Option<Color> {
    match hex_color(input) {
        Some(c) => Some(c),
        None => match rgb_color(input) {
            Some(c) => Some(c),
            None => float_reading,
        },
    }
}

/// Reads a colour from `input`: a hexadecimal code, else three decimal
/// components, else `float_reading` (the CMYK or HSL reading of `input`,
/// which takes floating-point arithmetic and is made by the caller).
pub fn parse_color(input: &str, float_reading: Option<Color>) -> (r: Option<Color>)
    ensures
        r == color_of(input@, float_reading),
{
    match parse_hex(input) {
        Some(c) => Some(c),
        None => match parse_rgb(input) {
            Some(c) => Some(c),
            None => float_reading,
        },
    }
}

/// A colour's components as `r, g, b` in decimal.
pub fn convert_to_rgb(color: &Color) -> (r: String)
    ensures
        r@ == rgb_text(*color),
{
    let sep = ", ";
    proof {
        reveal_strlit(", ");
    }
    let mut out = format_radix(color.r as u64, 10);
    out.append(sep);
    out.append(format_radix(color.g as u64, 10).as_str());
    out.append(sep);
    out.append(format_radix(color.b as u64, 10).as_str());
    assert(out@ =~= rgb_text(*color));
    out
}

/// A colour as `#RRGGBB` in uppercase hexadecimal.
pub fn convert_to_hex(color: &Color) -> (r: String)
    ensures
        r@ == hex_text(*color),
{
    let mut out = String::from_str("#");
    proof {
        reveal_strlit("#");
    }
    out.append(hex_pair_of(color.r).as_str());
    out.append(hex_pair_of(color.g).as_str());
    out.append(hex_pair_of(color.b).as_str());
    assert(out@ =~= hex_text(*color));
    out
}

/// `v` as two uppercase hexadecimal digits.
fn hex_pair_of(v: u8) -> (r: String)
    ensures
        r@ == hex_pair(v),
{
    let digits = format_radix(v as u64, 16);
    if v < 16 {
        let mut out = String::from_str("0");
        proof {
            reveal_strlit("0");
        }
        out.append(digits.as_str());
        assert(out@ =~= hex_pair(v));
        out
    } else {
        digits
    }
}

/// Converts a colour code between CMYK, RGB, HEX and HSL notations.
pub struct ColorConverter {
    /// The colour code as typed.
    pub input: String,
    /// The colour in CMYK percentages.
    pub cmyk: String,
    /// The colour as decimal components.
    pub rgb: String,
    /// The colour as a hexadecimal code.
    pub hex: String,
    /// The colour in HSL notation.
    pub hsl: String,
    /// A status line about the last export, for display.
    pub tools_export_message: Option<String>,
}

/// The text a conversion shows when `input` names no colour.
pub open spec fn invalid_color_text() -> Seq<char> {
    "Invalid color format"@
}

impl ColorConverter {
    /// Creates a converter with empty input and outputs.
    pub fn new() -> (r: Self)
        ensures
            r.input@.len() == 0,
            r.cmyk@.len() == 0,
            r.rgb@.len() == 0,
            r.hex@.len() == 0,
            r.hsl@.len() == 0,
            r.tools_export_message.is_none(),
    {
        ColorConverter {
            input: String::new(),
            cmyk: String::new(),
            rgb: String::new(),
            hex: String::new(),
            hsl: String::new(),
            tools_export_message: None,
        }
    }

    /// Stores in `rgb` the decimal components of the colour `input` names,
    /// or "Invalid color format"; `float_reading` is as for `parse_color`.
    pub fn convert_to_rgb(&mut self, float_reading: Option<Color>)
        ensures
            *final(self) == (ColorConverter { rgb: final(self).rgb, ..*old(self) }),
            final(self).rgb@ == match color_of(old(self).input@, float_reading) {
                Some(c) => rgb_text(c),
                None => invalid_color_text(),
            },
    {
        self.rgb = match parse_color(self.input.as_str(), float_reading) {
            Some(c) => convert_to_rgb(&c),
            None => String::from_str("Invalid color format"),
        };
    }

    /// Stores in `hex` the hexadecimal code of the colour `input` names, or
    /// "Invalid color format"; `float_reading` is as for `parse_color`.
    pub fn convert_to_hex(&mut self, float_reading: Option<Color>)
        ensures
            *final(self) == (ColorConverter { hex: final(self).hex, ..*old(self) }),
            final(self).hex@ == match color_of(old(self).input@, float_reading) {
                Some(c) => hex_text(c),
                None => invalid_color_text(),
            },
    {
        self.hex = match parse_color(self.input.as_str(), float_reading) {
            Some(c) => convert_to_hex(&c),
            None => String::from_str("Invalid color format"),
        };
    }
}

} // verus!

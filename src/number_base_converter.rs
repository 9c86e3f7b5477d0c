use crate::text::string_from_chars;
use vstd::prelude::*;

verus! {

/// The value of `c` as a digit: `0`-`9`, then `a`-`z` or `A`-`Z` from 10 on;
/// 36 for any other character, which is a digit in no radix.
pub open spec fn digit_value(c: char) -> nat {
    if '0' <= c <= '9' {
        (c as int - '0' as int) as nat
    } else if 'a' <= c <= 'z' {
        (c as int - 'a' as int + 10) as nat
    } else if 'A' <= c <= 'Z' {
        (c as int - 'A' as int + 10) as nat
    } else {
        36
    }
}

/// The number that the digits `s` spell in base `radix`, most significant first.
pub open spec fn digits_value(s: Seq<char>, radix: nat) -> nat
    decreases s.len(),
{
    if s.len() == 0 {
        0
    } else {
        digits_value(s.drop_last(), radix) * radix + digit_value(s.last())
    }
}

/// The digits of `s` once one leading `+` is dropped.
pub open spec fn unsigned_digits(s: Seq<char>) -> Seq<char> {
    if s.len() > 0 && s[0] == '+' {
        s.skip(1)
    } else {
        s
    }
}

/// What reading `s` as an unsigned 64-bit number in base `radix` gives: an
/// optional `+`, then at least one digit of the radix, with a value that fits.
pub open spec fn parsed_u64(s: Seq<char>, radix: nat) -> Option<u64> {
    let d = unsigned_digits(s);
    if d.len() > 0 && (forall|i: int| 0 <= i < d.len() ==> digit_value(#[trigger] d[i]) < radix)
        && digits_value(d, radix) <= u64::MAX {
        Some(digits_value(d, radix) as u64)
    } else {
        None
    }
}

/// The character for digit `d`: `0`-`9`, then uppercase letters.
pub open spec fn digit_char(d: nat) -> char {
    if d < 10 {
        ('0' as int + d) as char
    } else {
        ('A' as int + d - 10) as char
    }
}

/// `n` written in base `radix` without leading zeros, uppercase letters for
/// digits from 10 on; zero is written `0`.
pub open spec fn radix_digits(n: nat, radix: nat) -> Seq<char>
    decreases n
    via radix_digits_decreases
{
    if n < radix || radix < 2 {
        seq![digit_char(n)]
    } else {
        radix_digits(n / radix, radix) + seq![digit_char(n % radix)]
    }
}

#[via_fn]
proof fn radix_digits_decreases(n: nat, radix: nat) {
    if !(n < radix || radix < 2) {
        assert(n / radix < n) by (nonlinear_arith)
            requires
                n >= radix >= 2,
        ;
    }
}

/// The text a conversion from base `from` to base `to` shows for `input`:
/// the number in the new base, or `invalid` when the input is no number.
pub open spec fn conversion_text(input: Seq<char>, from: nat, to: nat, invalid: Seq<char>) -> Seq<
    char,
> {
    match parsed_u64(input, from) {
        Some(v) => radix_digits(v as nat, to),
        None => invalid,
    }
}

/// Converts numbers between binary, decimal and hexadecimal.
pub struct NumberBaseConverter {
    /// The number to convert, as typed.
    pub input: String,
    /// The base `input` is written in.
    pub base_from: u32,
    /// The base to convert to.
    pub base_to: u32,
    /// The conversion from `base_from` to `base_to`.
    pub result: String,
    /// `input` read as binary, in decimal.
    pub binary_to_decimal: String,
    /// `input` read as binary, in hexadecimal.
    pub binary_to_hexadecimal: String,
    /// `input` read as decimal, in binary.
    pub decimal_to_binary: String,
    /// `input` read as decimal, in hexadecimal.
    pub decimal_to_hexadecimal: String,
    /// `input` read as hexadecimal, in binary.
    pub hexadecimal_to_binary: String,
    /// `input` read as hexadecimal, in decimal.
    pub hexadecimal_to_decimal: String,
    /// A status line about the last export, for display.
    pub tools_export_message: Option<String>,
}

/// The text `convert` stores in `result` for `input` and a pair of bases.
pub open spec fn converted_text(input: Seq<char>, from: u32, to: u32) -> Seq<char> {
    if from == 2 && to == 10 {
        conversion_text(input, 2, 10, "Invalid binary number"@)
    } else if from == 2 && to == 16 {
        conversion_text(input, 2, 16, "Invalid binary number"@)
    } else if from == 10 && to == 2 {
        conversion_text(input, 10, 2, "Invalid decimal number"@)
    } else if from == 10 && to == 16 {
        conversion_text(input, 10, 16, "Invalid decimal number"@)
    } else if from == 16 && to == 2 {
        conversion_text(input, 16, 2, "Invalid hexadecimal number"@)
    } else if from == 16 && to == 10 {
        conversion_text(input, 16, 10, "Invalid hexadecimal number"@)
    } else {
        "Unsupported conversion"@
    }
}

impl NumberBaseConverter {
    /// Creates a converter with empty input, from decimal to binary.
    pub fn new() -> (r: Self)
        ensures
            r.input@.len() == 0,
            r.base_from == 10,
            r.base_to == 2,
            r.result@.len() == 0,
            r.binary_to_decimal@.len() == 0,
            r.binary_to_hexadecimal@.len() == 0,
            r.decimal_to_binary@.len() == 0,
            r.decimal_to_hexadecimal@.len() == 0,
            r.hexadecimal_to_binary@.len() == 0,
            r.hexadecimal_to_decimal@.len() == 0,
            r.tools_export_message.is_none(),
    {
        NumberBaseConverter {
            input: String::new(),
            base_from: 10,
            base_to: 2,
            result: String::new(),
            binary_to_decimal: String::new(),
            binary_to_hexadecimal: String::new(),
            decimal_to_binary: String::new(),
            decimal_to_hexadecimal: String::new(),
            hexadecimal_to_binary: String::new(),
            hexadecimal_to_decimal: String::new(),
            tools_export_message: None,
        }
    }

    /// Converts `input` from `base_from` to `base_to` into `result`, and
    /// fills the six fixed conversions between bases 2, 10 and 16. A pair of
    /// bases other than those six gives "Unsupported conversion".
    pub fn convert(&mut self)
        ensures
            final(self).input == old(self).input,
            final(self).base_from == old(self).base_from,
            final(self).base_to == old(self).base_to,
            final(self).tools_export_message == old(self).tools_export_message,
            final(self).result@ == converted_text(old(self).input@, old(self).base_from, old(self).base_to),
            final(self).binary_to_decimal@ == converted_text(old(self).input@, 2, 10),
            final(self).binary_to_hexadecimal@ == converted_text(old(self).input@, 2, 16),
            final(self).decimal_to_binary@ == converted_text(old(self).input@, 10, 2),
            final(self).decimal_to_hexadecimal@ == converted_text(old(self).input@, 10, 16),
            final(self).hexadecimal_to_binary@ == converted_text(old(self).input@, 16, 2),
            final(self).hexadecimal_to_decimal@ == converted_text(old(self).input@, 16, 10),
    {
        self.result = if self.base_from == 2 && self.base_to == 10 {
            self.binary_to_decimal()
        } else if self.base_from == 2 && self.base_to == 16 {
            self.binary_to_hexadecimal()
        } else if self.base_from == 10 && self.base_to == 2 {
            self.decimal_to_binary()
        } else if self.base_from == 10 && self.base_to == 16 {
            self.decimal_to_hexadecimal()
        } else if self.base_from == 16 && self.base_to == 2 {
            self.hexadecimal_to_binary()
        } else if self.base_from == 16 && self.base_to == 10 {
            self.hexadecimal_to_decimal()
        } else {
            String::from_str("Unsupported conversion")
        };
        self.binary_to_decimal = self.binary_to_decimal();
        self.binary_to_hexadecimal = self.binary_to_hexadecimal();
        self.decimal_to_binary = self.decimal_to_binary();
        self.decimal_to_hexadecimal = self.decimal_to_hexadecimal();
        self.hexadecimal_to_binary = self.hexadecimal_to_binary();
        self.hexadecimal_to_decimal = self.hexadecimal_to_decimal();
    }

    /// `input` read as binary, written in decimal.
    pub fn binary_to_decimal(&self) -> (r: String)
        ensures
            r@ == converted_text(self.input@, 2, 10),
    {
        convert_text(self.input.as_str(), 2, 10, "Invalid binary number")
    }

    /// `input` read as binary, written in hexadecimal.
    pub fn binary_to_hexadecimal(&self) -> (r: String)
        ensures
            r@ == converted_text(self.input@, 2, 16),
    {
        convert_text(self.input.as_str(), 2, 16, "Invalid binary number")
    }

    /// `input` read as decimal, written in binary.
    pub fn decimal_to_binary(&self) -> (r: String)
        ensures
            r@ == converted_text(self.input@, 10, 2),
    {
        convert_text(self.input.as_str(), 10, 2, "Invalid decimal number")
    }

    /// `input` read as decimal, written in hexadecimal.
    pub fn decimal_to_hexadecimal(&self) -> (r: String)
        ensures
            r@ == converted_text(self.input@, 10, 16),
    {
        convert_text(self.input.as_str(), 10, 16, "Invalid decimal number")
    }

    /// `input` read as hexadecimal, written in binary.
    pub fn hexadecimal_to_binary(&self) -> (r: String)
        ensures
            r@ == converted_text(self.input@, 16, 2),
    {
        convert_text(self.input.as_str(), 16, 2, "Invalid hexadecimal number")
    }

    /// `input` read as hexadecimal, written in decimal.
    pub fn hexadecimal_to_decimal(&self) -> (r: String)
        ensures
            r@ == converted_text(self.input@, 16, 10),
    {
        convert_text(self.input.as_str(), 16, 10, "Invalid hexadecimal number")
    }
}

/// `input` read in base `from` and written in base `to`, or `invalid` when
/// it is no number of that base.
pub fn convert_text(input: &str, from: u32, to: u64, invalid: &str) -> (r: String)
    requires
        2 <= from <= 36,
        2 <= to <= 36,
    ensures
        r@ == conversion_text(input@, from as nat, to as nat, invalid@),
{
    match parse_radix(input, from) {
        Some(v) => format_radix(v, to),
        None => String::from_str(invalid),
    }
}

/// Reads `s` as an unsigned 64-bit number in base `radix`: an optional `+`
/// followed by digits of the radix, letters in either case.
pub fn parse_radix(s: &str, radix: u32) -> (r: Option<u64>)
    requires
        2 <= radix <= 36,
    ensures
        r == parsed_u64(s@, radix as nat),
{
    let n = s.unicode_len();
    let start: usize = if n > 0 && s.get_char(0) == '+' { 1 } else { 0 };
    let ghost d = unsigned_digits(s@);
    assert(d =~= s@.subrange(start as int, n as int));
    if start == n {
        return None;
    }
    let mut acc: u64 = 0;
    let mut i: usize = start;
    while i < n
        invariant
            start <= i <= n,
            n == s@.len(),
            2 <= radix <= 36,
            d == s@.subrange(start as int, n as int),
            d == unsigned_digits(s@),
            acc as nat == digits_value(s@.subrange(start as int, i as int), radix as nat),
            forall|j: int| start <= j < i ==> digit_value(#[trigger] s@[j]) < radix,
        decreases n - i,
    {
        let c = s.get_char(i);
        let dv = digit_of(c);
        if dv >= radix {
            assert(d[i - start] == c);
            return None;
        }
        assert(acc as u128 * radix as u128 + dv as u128 <= u128::MAX) by (nonlinear_arith)
            requires
                acc <= u64::MAX,
                radix <= 36,
                dv < 36,
        ;
        let next: u128 = acc as u128 * radix as u128 + dv as u128;
        assert(s@.subrange(start as int, i + 1).drop_last() =~= s@.subrange(start as int, i as int));
        if next > u64::MAX as u128 {
            proof {
                if forall|k: int| 0 <= k < d.len() ==> digit_value(#[trigger] d[k]) < radix {
                    lemma_prefix_value_bound(d, (i + 1 - start) as int, radix as nat);
                    assert(d.take(i + 1 - start) =~= s@.subrange(start as int, i + 1));
                }
            }
            return None;
        }
        acc = next as u64;
        i += 1;
    }
    assert(s@.subrange(start as int, i as int) =~= d);
    Some(acc)
}

/// A prefix of valid digits spells no more than the whole.
proof fn lemma_prefix_value_bound(d: Seq<char>, k: int, radix: nat)
    requires
        0 <= k <= d.len(),
        radix >= 2,
        forall|i: int| 0 <= i < d.len() ==> digit_value(#[trigger] d[i]) < radix,
    ensures
        digits_value(d.take(k), radix) <= digits_value(d, radix),
    decreases d.len() - k,
{
    if k < d.len() {
        lemma_prefix_value_bound(d, k + 1, radix);
        assert(d.take(k + 1).drop_last() =~= d.take(k));
        let v = digits_value(d.take(k), radix);
        assert(v <= v * radix) by (nonlinear_arith)
            requires
                radix >= 2,
        ;
    } else {
        assert(d.take(k) =~= d);
    }
}

/// The digit value of `c`, as `digit_value` defines it.
fn digit_of(c: char) -> (r: u32)
    ensures
        r as nat == digit_value(c),
{
    let code = c as u32;
    if '0' <= c && c <= '9' {
        code - 48
    } else if 'a' <= c && c <= 'z' {
        code - 97 + 10
    } else if 'A' <= c && c <= 'Z' {
        code - 65 + 10
    } else {
        36
    }
}

/// Writes `n` in base `radix`, uppercase letters for digits from 10 on.
pub fn format_radix(n: u64, radix: u64) -> (r: String)
    requires
        2 <= radix <= 36,
    ensures
        r@ == radix_digits(n as nat, radix as nat),
{
    let mut m: u64 = n;
    let mut out: Vec<char> = Vec::new();
    while m >= radix
        invariant
            2 <= radix <= 36,
            radix_digits(n as nat, radix as nat) == radix_digits(m as nat, radix as nat) + out@,
        decreases m,
    {
        let c = digit_char_of((m % radix) as u32);
        out.insert(0, c);
        assert(radix_digits(n as nat, radix as nat) =~= radix_digits(
            (m / radix) as nat,
            radix as nat,
        ) + out@);
        m = m / radix;
    }
    let c = digit_char_of(m as u32);
    out.insert(0, c);
    assert(radix_digits(n as nat, radix as nat) =~= out@);
    string_from_chars(&out)
}

/// The character for digit `d`, as `digit_char` defines it.
fn digit_char_of(d: u32) -> (r: char)
    requires
        d < 36,
    ensures
        r == digit_char(d as nat),
{
    if d < 10 {
        ((d + 48) as u8) as char
    } else {
        ((d - 10 + 65) as u8) as char
    }
}

} // verus!

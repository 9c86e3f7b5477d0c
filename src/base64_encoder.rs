use base64::Engine;
use vstd::prelude::*;
use vstd::utf8::{decode_utf8, encode_utf8, valid_utf8};

verus! {

/// The standard base64 encoding, with padding, of the UTF-8 encoding of `s`.
pub uninterp spec fn base64_text(s: Seq<char>) -> Seq<char>;

/// The bytes that the standard padded base64 text `s` decodes to, or `None`
/// when `s` is not such a text.
pub uninterp spec fn base64_bytes(s: Seq<char>) -> Option<Seq<u8>>;

/// The text of the bytes `b` read as UTF-8, each invalid sequence replaced by
/// U+FFFD.
pub uninterp spec fn utf8_lossy(b: Seq<u8>) -> Seq<char>;

/// A character of the standard base64 alphabet, or the padding `=`.
pub open spec fn is_base64_char(c: char) -> bool {
    ||| 'A' <= c <= 'Z'
    ||| 'a' <= c <= 'z'
    ||| '0' <= c <= '9'
    ||| c == '+'
    ||| c == '/'
    ||| c == '='
}

/// Encodes text to base64 and decodes base64 back to text.
pub struct Base64Encoder {
    /// The text to encode, or the base64 to decode.
    pub input: String,
    /// `input` encoded.
    pub encoded: String,
    /// `input` decoded.
    pub decoded: String,
    /// A status line about the last export, for display.
    pub tools_export_message: Option<String>,
}

/// The text `decode` stores for the input `s`.
pub open spec fn decoded_text(s: Seq<char>) -> Seq<char> {
    match base64_bytes(s) {
        Some(b) => utf8_lossy(b),
        None => "provided input is not a valid base64 string."@,
    }
}

impl Base64Encoder {
    /// Creates an encoder with empty input and outputs.
    pub fn new() -> (r: Self)
        ensures
            r.input@.len() == 0,
            r.encoded@.len() == 0,
            r.decoded@.len() == 0,
            r.tools_export_message.is_none(),
    {
        Base64Encoder {
            input: String::new(),
            encoded: String::new(),
            decoded: String::new(),
            tools_export_message: None,
        }
    }

    /// Stores `input` encoded as standard padded base64 in `encoded`.
    pub fn encode(&mut self)
        ensures
            *final(self) == (Base64Encoder { encoded: final(self).encoded, ..*old(self) }),
            final(self).encoded@ == base64_text(old(self).input@),
            final(self).encoded@.len() == 4 * ((encode_utf8(old(self).input@).len() + 2)
                / 3),
            forall|i: int|
                0 <= i < final(self).encoded@.len() ==> is_base64_char(
                    #[trigger] final(self).encoded@[i],
                ),
    {
        self.encoded = encode_standard(self.input.as_str());
    }

    /// Decodes `input` as standard padded base64 into `decoded`, reading the
    /// bytes as UTF-8 with invalid sequences replaced; input that is not
    /// base64 gives an explanatory message instead.
    pub fn decode(&mut self)
        ensures
            *final(self) == (Base64Encoder { decoded: final(self).decoded, ..*old(self) }),
            final(self).decoded@ == decoded_text(old(self).input@),
            base64_bytes(old(self).input@) is Some && valid_utf8(
                base64_bytes(old(self).input@)->Some_0,
            ) ==> final(self).decoded@ == decode_utf8(base64_bytes(old(self).input@)->Some_0),
    {
        self.decoded = match decode_standard(self.input.as_str()) {
            Some(bytes) => from_utf8_lossy(&bytes),
            None => String::from_str("provided input is not a valid base64 string."),
        };
    }
}

/// Relies on `base64::engine::general_purpose::STANDARD.encode`: the padded
/// standard encoding of the bytes of `s`, four characters of the standard
/// alphabet or `=` for every started group of three bytes.
#[verifier::external_body]
fn encode_standard(s: &str) -> (r: String)
    ensures
        r@ == base64_text(s@),
        r@.len() == 4 * ((encode_utf8(s@).len() + 2) / 3),
        forall|i: int| 0 <= i < r@.len() ==> is_base64_char(#[trigger] r@[i]),
{
    base64::engine::general_purpose::STANDARD.encode(s)
}

/// Relies on `base64::engine::general_purpose::STANDARD.decode`: the decoded
/// bytes, or `None` where it returns a `DecodeError`.
#[verifier::external_body]
fn decode_standard(s: &str) -> (r: Option<Vec<u8>>)
    ensures
        match r {
            Some(v) => base64_bytes(s@) == Some(v@),
            None => base64_bytes(s@) is None,
        },
{
    base64::engine::general_purpose::STANDARD.decode(s).ok()
}

/// Relies on `String::from_utf8_lossy`: the bytes read as UTF-8, invalid
/// sequences replaced by U+FFFD; valid UTF-8 comes back as the text it encodes.
#[verifier::external_body]
fn from_utf8_lossy(b: &Vec<u8>) -> (r: String)
    ensures
        r@ == utf8_lossy(b@),
        valid_utf8(b@) ==> r@ == decode_utf8(b@),
{
    String::from_utf8_lossy(b).into_owned()
}

} // verus!

use crate::text::is_lower_hex_text;
use digest::Digest;
use vstd::prelude::*;

verus! {

/// The SHA-1 digest of the UTF-8 encoding of `s`, in lowercase hexadecimal.
pub uninterp spec fn sha1_hex(s: Seq<char>) -> Seq<char>;

/// The SHA-256 digest of the UTF-8 encoding of `s`, in lowercase hexadecimal.
pub uninterp spec fn sha256_hex(s: Seq<char>) -> Seq<char>;

/// The SHA-384 digest of the UTF-8 encoding of `s`, in lowercase hexadecimal.
pub uninterp spec fn sha384_hex(s: Seq<char>) -> Seq<char>;

/// The SHA-512 digest of the UTF-8 encoding of `s`, in lowercase hexadecimal.
pub uninterp spec fn sha512_hex(s: Seq<char>) -> Seq<char>;

/// Computes the SHA-1 and SHA-2 digests of a text.
pub struct HashGenerator {
    input: String,
    sha1_hash: String,
    sha256_hash: String,
    sha384_hash: String,
    sha512_hash: String,
    /// A status line about the last export, for display.
    pub tools_export_message: Option<String>,
}

impl HashGenerator {
    /// The text the digests are computed from.
    pub closed spec fn input_text(&self) -> Seq<char> {
        self.input@
    }

    /// The stored SHA-1 digest.
    pub closed spec fn sha1_text(&self) -> Seq<char> {
        self.sha1_hash@
    }

    /// The stored SHA-256 digest.
    pub closed spec fn sha256_text(&self) -> Seq<char> {
        self.sha256_hash@
    }

    /// The stored SHA-384 digest.
    pub closed spec fn sha384_text(&self) -> Seq<char> {
        self.sha384_hash@
    }

    /// The stored SHA-512 digest.
    pub closed spec fn sha512_text(&self) -> Seq<char> {
        self.sha512_hash@
    }

    /// The status line about the last export.
    pub closed spec fn export_message(&self) -> Option<String> {
        self.tools_export_message
    }

    /// The stored digests are those of the stored input: 40, 64, 96 and 128
    /// lowercase hexadecimal digits.
    pub open spec fn digests_match(&self) -> bool {
        &&& self.sha1_text() == sha1_hex(self.input_text())
        &&& self.sha256_text() == sha256_hex(self.input_text())
        &&& self.sha384_text() == sha384_hex(self.input_text())
        &&& self.sha512_text() == sha512_hex(self.input_text())
        &&& self.sha1_text().len() == 40 && is_lower_hex_text(self.sha1_text())
        &&& self.sha256_text().len() == 64 && is_lower_hex_text(self.sha256_text())
        &&& self.sha384_text().len() == 96 && is_lower_hex_text(self.sha384_text())
        &&& self.sha512_text().len() == 128 && is_lower_hex_text(self.sha512_text())
    }

    /// Creates a generator with empty input and no digests yet.
    pub fn new() -> (r: Self)
        ensures
            r.input_text().len() == 0,
            r.sha1_text().len() == 0,
            r.sha256_text().len() == 0,
            r.sha384_text().len() == 0,
            r.sha512_text().len() == 0,
            r.export_message().is_none(),
    {
        HashGenerator {
            input: String::new(),
            sha1_hash: String::new(),
            sha256_hash: String::new(),
            sha384_hash: String::new(),
            sha512_hash: String::new(),
            tools_export_message: None,
        }
    }

    /// Stores `new_input` and recomputes every digest from it.
    pub fn update_input(&mut self, new_input: &str)
        ensures
            final(self).input_text() == new_input@,
            final(self).digests_match(),
            final(self).export_message() == old(self).export_message(),
    {
        self.input = String::from_str(new_input);
        self.calculate_hashes();
    }

    /// Recomputes every digest from the stored input.
    fn calculate_hashes(&mut self)
        ensures
            final(self).input_text() == old(self).input_text(),
            final(self).digests_match(),
            final(self).export_message() == old(self).export_message(),
    {
        self.sha1_hash = self.generate_sha1();
        self.sha256_hash = self.generate_sha256();
        self.sha384_hash = self.generate_sha384();
        self.sha512_hash = self.generate_sha512();
    }

    /// The stored input.
    pub fn input(&self) -> (r: &str)
        ensures
            r@ == self.input_text(),
    {
        self.input.as_str()
    }

    /// The stored SHA-1 digest.
    pub fn get_sha1(&self) -> (r: &str)
        ensures
            r@ == self.sha1_text(),
    {
        self.sha1_hash.as_str()
    }

    /// The stored SHA-256 digest.
    pub fn get_sha256(&self) -> (r: &str)
        ensures
            r@ == self.sha256_text(),
    {
        self.sha256_hash.as_str()
    }

    /// The stored SHA-384 digest.
    pub fn get_sha384(&self) -> (r: &str)
        ensures
            r@ == self.sha384_text(),
    {
        self.sha384_hash.as_str()
    }

    /// The stored SHA-512 digest.
    pub fn get_sha512(&self) -> (r: &str)
        ensures
            r@ == self.sha512_text(),
    {
        self.sha512_hash.as_str()
    }

    /// The SHA-1 digest of the stored input.
    pub fn generate_sha1(&self) -> (r: String)
        ensures
            r@ == sha1_hex(self.input_text()),
            r@.len() == 40,
            is_lower_hex_text(r@),
    {
        sha1_digest(self.input.as_str())
    }

    /// The SHA-256 digest of the stored input.
    pub fn generate_sha256(&self) -> (r: String)
        ensures
            r@ == sha256_hex(self.input_text()),
            r@.len() == 64,
            is_lower_hex_text(r@),
    {
        sha256_digest(self.input.as_str())
    }

    /// The SHA-384 digest of the stored input.
    pub fn generate_sha384(&self) -> (r: String)
        ensures
            r@ == sha384_hex(self.input_text()),
            r@.len() == 96,
            is_lower_hex_text(r@),
    {
        sha384_digest(self.input.as_str())
    }

    /// The SHA-512 digest of the stored input.
    pub fn generate_sha512(&self) -> (r: String)
        ensures
            r@ == sha512_hex(self.input_text()),
            r@.len() == 128,
            is_lower_hex_text(r@),
    {
        sha512_digest(self.input.as_str())
    }
}

/// Relies on `sha1::Sha1` through `digest::Digest` and the `LowerHex` of its
/// 20-byte output: two lowercase hexadecimal digits per byte.
#[verifier::external_body]
fn sha1_digest(s: &str) -> (r: String)
    ensures
        r@ == sha1_hex(s@),
        r@.len() == 40,
        is_lower_hex_text(r@),
{
    let mut hasher = sha1::Sha1::new();
    Digest::update(&mut hasher, s.as_bytes());
    format!("{:x}", hasher.finalize())
}

/// Relies on `sha2::Sha256` through `digest::Digest` and the `LowerHex` of its
/// 32-byte output: two lowercase hexadecimal digits per byte.
#[verifier::external_body]
fn sha256_digest(s: &str) -> (r: String)
    ensures
        r@ == sha256_hex(s@),
        r@.len() == 64,
        is_lower_hex_text(r@),
{
    let mut hasher = sha2::Sha256::new();
    Digest::update(&mut hasher, s.as_bytes());
    format!("{:x}", hasher.finalize())
}

/// Relies on `sha2::Sha384` through `digest::Digest` and the `LowerHex` of its
/// 48-byte output: two lowercase hexadecimal digits per byte.
#[verifier::external_body]
fn sha384_digest(s: &str) -> (r: String)
    ensures
        r@ == sha384_hex(s@),
        r@.len() == 96,
        is_lower_hex_text(r@),
{
    let mut hasher = sha2::Sha384::new();
    Digest::update(&mut hasher, s.as_bytes());
    format!("{:x}", hasher.finalize())
}

/// Relies on `sha2::Sha512` through `digest::Digest` and the `LowerHex` of its
/// 64-byte output: two lowercase hexadecimal digits per byte.
#[verifier::external_body]
fn sha512_digest(s: &str) -> (r: String)
    ensures
        r@ == sha512_hex(s@),
        r@.len() == 128,
        is_lower_hex_text(r@),
{
    let mut hasher = sha2::Sha512::new();
    Digest::update(&mut hasher, s.as_bytes());
    format!("{:x}", hasher.finalize())
}

} // verus!

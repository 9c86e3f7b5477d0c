use crate::text::is_lower_hex;
use vstd::prelude::*;

verus! {

/// `s` is a UUID in hyphenated lowercase form, of the given version digit and
/// of the RFC 4122 variant.
pub open spec fn is_uuid_text(s: Seq<char>, version: char) -> bool {
    &&& s.len() == 36
    &&& forall|i: int|
        0 <= i < 36 ==> if i == 8 || i == 13 || i == 18 || i == 23 {
            #[trigger] s[i] == '-'
        } else {
            is_lower_hex(s[i])
        }
    &&& s[14] == version
    &&& s[19] == '8' || s[19] == '9' || s[19] == 'a' || s[19] == 'b'
}

/// `s` is `n` UUIDs of the given version, one per line, with no newline
/// after the last one.
pub open spec fn is_uuid_lines(s: Seq<char>, n: nat, version: char) -> bool
    decreases n,
{
    if n == 0 {
        s.len() == 0
    } else if n == 1 {
        is_uuid_text(s, version)
    } else {
        &&& s.len() >= 37
        &&& is_uuid_lines(s.take(s.len() - 37), (n - 1) as nat, version)
        &&& s[s.len() - 37] == '\n'
        &&& is_uuid_text(s.skip(s.len() - 36), version)
    }
}

/// Generates random (version 4) and time-ordered (version 7) UUIDs.
pub struct UuidGenerator {
    /// The last version 4 UUIDs generated, one per line.
    pub generated_uuid_v4: String,
    /// The last version 7 UUIDs generated, one per line.
    pub generated_uuid_v7: String,
    /// How many UUIDs one batch generation produces.
    pub length: usize,
    /// A status line about the last export, for display.
    pub tools_export_message: Option<String>,
}

impl UuidGenerator {
    /// Creates a generator with no UUIDs and a batch size of 1.
    pub fn new() -> (r: Self)
        ensures
            r.generated_uuid_v4@.len() == 0,
            r.generated_uuid_v7@.len() == 0,
            r.length == 1,
            r.tools_export_message.is_none(),
    {
        UuidGenerator {
            generated_uuid_v4: String::new(),
            generated_uuid_v7: String::new(),
            length: 1,
            tools_export_message: None,
        }
    }

    /// Replaces the version 4 output with one fresh random UUID.
    pub fn generate_v4_uuid(&mut self)
        ensures
            is_uuid_text(final(self).generated_uuid_v4@, '4'),
            final(self).generated_uuid_v7 == old(self).generated_uuid_v7,
            final(self).length == old(self).length,
            final(self).tools_export_message == old(self).tools_export_message,
    {
        self.generated_uuid_v4 = new_v4_text();
    }

    /// Replaces the version 4 output with `length` fresh random UUIDs, one per line.
    pub fn generate_multiple_v4_uuids(&mut self)
        ensures
            is_uuid_lines(final(self).generated_uuid_v4@, old(self).length as nat, '4'),
            final(self).generated_uuid_v7 == old(self).generated_uuid_v7,
            final(self).length == old(self).length,
            final(self).tools_export_message == old(self).tools_export_message,
    {
        self.generated_uuid_v4 = uuid_lines(self.length, false);
    }

    /// Replaces the version 7 output with one fresh time-ordered UUID.
    pub fn generate_v7_uuid(&mut self)
        ensures
            is_uuid_text(final(self).generated_uuid_v7@, '7'),
            final(self).generated_uuid_v4 == old(self).generated_uuid_v4,
            final(self).length == old(self).length,
            final(self).tools_export_message == old(self).tools_export_message,
    {
        self.generated_uuid_v7 = now_v7_text();
    }

    /// Replaces the version 7 output with `length` fresh time-ordered UUIDs, one per line.
    pub fn generate_multiple_v7_uuids(&mut self)
        ensures
            is_uuid_lines(final(self).generated_uuid_v7@, old(self).length as nat, '7'),
            final(self).generated_uuid_v4 == old(self).generated_uuid_v4,
            final(self).length == old(self).length,
            final(self).tools_export_message == old(self).tools_export_message,
    {
        self.generated_uuid_v7 = uuid_lines(self.length, true);
    }

    /// Asks for one more UUID per batch, saturating at the largest `usize`.
    pub fn increase_length(&mut self)
        ensures
            *final(self) == (UuidGenerator {
                length: if old(self).length < usize::MAX {
                    (old(self).length + 1) as usize
                } else {
                    old(self).length
                },
                ..*old(self)
            }),
    {
        self.length = self.length.saturating_add(1);
    }

    /// Asks for one UUID fewer per batch; a batch size of 1 stays 1.
    pub fn decrease_length(&mut self)
        ensures
            *final(self) == (UuidGenerator {
                length: if old(self).length > 1 {
                    (old(self).length - 1) as usize
                } else {
                    old(self).length
                },
                ..*old(self)
            }),
    {
        if self.length > 1 {
            self.length -= 1;
        }
    }

    /// Empties both outputs and sets the batch size back to 1.
    pub fn clear(&mut self)
        ensures
            final(self).generated_uuid_v4@.len() == 0,
            final(self).generated_uuid_v7@.len() == 0,
            final(self).length == 1,
            final(self).tools_export_message == old(self).tools_export_message,
    {
        self.generated_uuid_v4 = String::new();
        self.generated_uuid_v7 = String::new();
        self.length = 1;
    }
}

/// `count` fresh UUIDs, one per line: time-ordered ones when `time_ordered`
/// is set, random ones otherwise.
fn uuid_lines(count: usize, time_ordered: bool) -> (r: String)
    ensures
        is_uuid_lines(r@, count as nat, if time_ordered { '7' } else { '4' }),
{
    let ghost version = if time_ordered { '7' } else { '4' };
    let mut out = String::new();
    if count == 0 {
        return out;
    }
    out = if time_ordered { now_v7_text() } else { new_v4_text() };
    let mut k: usize = 1;
    while k < count
        invariant
            1 <= k <= count,
            version == if time_ordered { '7' } else { '4' },
            is_uuid_lines(out@, k as nat, version),
        decreases count - k,
    {
        let next = if time_ordered { now_v7_text() } else { new_v4_text() };
        let ghost before = out@;
        out.append("\n");
        out.append(next.as_str());
        proof {
            reveal_strlit("\n");
            lemma_uuid_lines_len(before, k as nat, version);
            assert(out@.take(out@.len() - 37) =~= before);
            assert(out@.skip(out@.len() - 36) =~= next@);
            assert(out@[out@.len() - 37] == '\n');
        }
        k += 1;
    }
    out
}

/// The text of `n` UUIDs, one per line, has a length of `37 * n - 1`.
proof fn lemma_uuid_lines_len(s: Seq<char>, n: nat, version: char)
    requires
        n >= 1,
        is_uuid_lines(s, n, version),
    ensures
        s.len() == 37 * n - 1,
    decreases n,
{
    if n > 1 {
        lemma_uuid_lines_len(s.take(s.len() - 37), (n - 1) as nat, version);
    }
}

/// Relies on `uuid::Uuid::new_v4` and its `Display`: the hyphenated lowercase
/// form, with version digit 4 and the RFC 4122 variant bits set.
#[verifier::external_body]
fn new_v4_text() -> (r: String)
    ensures
        is_uuid_text(r@, '4'),
{
    uuid::Uuid::new_v4().to_string()
}

/// Relies on `uuid::Uuid::now_v7` and its `Display`: the hyphenated lowercase
/// form, with version digit 7 and the RFC 4122 variant bits set.
#[verifier::external_body]
fn now_v7_text() -> (r: String)
    ensures
        is_uuid_text(r@, '7'),
{
    uuid::Uuid::now_v7().to_string()
}

} // verus!

use crate::text::string_from_chars;
use rand::Rng;
use vstd::prelude::*;

verus! {

/// How many candidates are drawn for one position before generation gives up.
pub const MAX_ATTEMPTS: usize = 500;

/// Why one generation inside a batch failed.
#[derive(Debug, Clone, Copy, PartialEq, Eq, Structural)]
pub enum AbortCause {
    /// No character is eligible under the current settings.
    EmptyAlphabet,
    /// Some position found no acceptable character within the retry budget.
    Unsatisfiable,
}

/// Why a password could not be generated.
#[derive(Debug, Clone, Copy, PartialEq, Eq, Structural)]
pub enum GenerationError {
    /// No character is eligible under the current settings.
    EmptyAlphabet,
    /// Some position found no acceptable character within the retry budget.
    Unsatisfiable,
    /// Generation number `at_index` of a batch failed; the batch produced nothing.
    BatchAborted { at_index: usize, cause: AbortCause },
}

/// True when `c` is one of the glyphs that are easy to confuse with another.
pub open spec fn is_similar(c: char) -> bool {
    c == 'i' || c == 'l' || c == 'L' || c == 'o' || c == '0' || c == 'O'
}

/// The characters from `first` to `last`, both included, in code-point order.
pub open spec fn char_range(first: char, last: char) -> Seq<char> {
    Seq::new((last as int - first as int + 1) as nat, |i: int| (first as int + i) as char)
}

/// The uppercase letters `A` to `Z`.
pub open spec fn uppercase_class() -> Seq<char> {
    char_range('A', 'Z')
}

/// The lowercase letters `a` to `z`.
pub open spec fn lowercase_class() -> Seq<char> {
    char_range('a', 'z')
}

/// The digits `0` to `9`.
pub open spec fn number_class() -> Seq<char> {
    char_range('0', '9')
}

/// The punctuation symbols, in the order they are offered.
pub open spec fn symbol_class() -> Seq<char> {
    seq![
        '!', '@', '#', '$', '%', '^', '&', '*', '(', ')', '_', '+', '-', '=', '[', ']', '{',
        '}', '|', ';', ':', ',', '.', '<', '>', '?',
    ]
}

/// `s` with every similar-looking character removed, order kept.
pub open spec fn without_similar(s: Seq<char>) -> Seq<char>
    decreases s.len(),
{
    if s.len() == 0 {
        s
    } else {
        let rest = without_similar(s.drop_last());
        if is_similar(s.last()) {
            rest
        } else {
            rest.push(s.last())
        }
    }
}

/// Two characters whose code points differ by exactly one.
pub open spec fn is_sequential(a: char, b: char) -> bool {
    b as int == a as int + 1 || b as int == a as int - 1
}

/// Generates random passwords under a set of independently toggled constraints.
///
/// The character classes are complete (`A`-`Z`, `a`-`z`, `0`-`9` and the
/// symbols); look-alike characters leave the alphabet only while
/// `exclude_similar` is set.
pub struct PasswordGenerator {
    /// Number of characters in each generated password.
    pub length: usize,
    /// Whether uppercase letters `A`-`Z` are eligible.
    pub include_uppercase: bool,
    /// Whether lowercase letters `a`-`z` are eligible.
    pub include_lowercase: bool,
    /// Whether digits `0`-`9` are eligible.
    pub include_numbers: bool,
    /// Whether the punctuation symbols are eligible.
    pub include_symbols: bool,
    /// When set, the similar-looking characters `i l L o 0 O` are never chosen.
    pub exclude_similar: bool,
    /// When clear, no character appears twice in one password.
    pub allow_duplicates: bool,
    /// When clear, no two neighbouring characters have adjacent code points.
    pub allow_sequential: bool,
    /// The most recently generated password.
    pub generated_password: String,
    /// How many passwords a batch generation produces.
    pub quantity: usize,
    /// A status line about the last export, for display.
    pub tools_export_message: Option<String>,
}

impl PasswordGenerator {
    /// The eligible characters before similar-looking ones are removed: the
    /// enabled classes in the order uppercase, lowercase, numbers, symbols.
    pub open spec fn class_union(self) -> Seq<char> {
        (if self.include_uppercase { uppercase_class() } else { Seq::empty() })
            + (if self.include_lowercase { lowercase_class() } else { Seq::empty() })
            + (if self.include_numbers { number_class() } else { Seq::empty() })
            + (if self.include_symbols { symbol_class() } else { Seq::empty() })
    }

    /// The alphabet that passwords are drawn from under the current settings.
    pub open spec fn alphabet(self) -> Seq<char> {
        if self.exclude_similar {
            without_similar(self.class_union())
        } else {
            self.class_union()
        }
    }

    /// `c` belongs to one of the enabled character classes.
    pub open spec fn class_enabled(self, c: char) -> bool {
        ||| self.include_uppercase && 'A' <= c <= 'Z'
        ||| self.include_lowercase && 'a' <= c <= 'z'
        ||| self.include_numbers && '0' <= c <= '9'
        ||| self.include_symbols && symbol_class().contains(c)
    }

    /// The settings part of the state: everything but the outputs.
    pub open spec fn same_settings(self, other: Self) -> bool {
        &&& self.length == other.length
        &&& self.include_uppercase == other.include_uppercase
        &&& self.include_lowercase == other.include_lowercase
        &&& self.include_numbers == other.include_numbers
        &&& self.include_symbols == other.include_symbols
        &&& self.exclude_similar == other.exclude_similar
        &&& self.allow_duplicates == other.allow_duplicates
        &&& self.allow_sequential == other.allow_sequential
        &&& self.quantity == other.quantity
    }

    /// Whether `c` may follow the characters `built` in a password.
    pub open spec fn accepts(self, built: Seq<char>, c: char) -> bool {
        &&& self.allow_duplicates || !built.contains(c)
        &&& self.allow_sequential || built.len() == 0 || !is_sequential(built.last(), c)
        &&& !(self.exclude_similar && is_similar(c))
    }

    /// The character of the first draw in `draws` whose character of
    /// `alphabet` may follow `built`, if any draw gives one.
    pub open spec fn first_accepted(
        self,
        alphabet: Seq<char>,
        built: Seq<char>,
        draws: Seq<usize>,
    ) -> Option<char>
        decreases draws.len(),
    {
        if draws.len() == 0 {
            None
        } else if self.accepts(built, alphabet[draws[0] as int]) {
            Some(alphabet[draws[0] as int])
        } else {
            self.first_accepted(alphabet, built, draws.skip(1))
        }
    }

    /// `p` is a password that these settings allow: the right length, every
    /// character from the alphabet, and each one acceptable after those before it.
    pub open spec fn is_valid_password(self, p: Seq<char>) -> bool {
        &&& p.len() == self.length
        &&& self.is_valid_prefix(p)
    }

    /// Every character of `p` comes from the alphabet and is acceptable after
    /// the characters before it.
    pub open spec fn is_valid_prefix(self, p: Seq<char>) -> bool {
        forall|i: int|
            0 <= i < p.len() ==> self.alphabet().contains(#[trigger] p[i]) && self.accepts(
                p.take(i),
                p[i],
            )
    }

    /// Creates a generator with the default settings: length 12, one password
    /// per batch, every class enabled, similar characters allowed, no
    /// duplicates and no sequential neighbours.
    pub fn new() -> (r: Self)
        ensures
            r.length == 12,
            r.quantity == 1,
            r.include_uppercase && r.include_lowercase && r.include_numbers && r.include_symbols,
            !r.exclude_similar && !r.allow_duplicates && !r.allow_sequential,
            r.generated_password@.len() == 0,
            r.tools_export_message.is_none(),
    {
        PasswordGenerator {
            length: 12,
            include_uppercase: true,
            include_lowercase: true,
            include_numbers: true,
            include_symbols: true,
            exclude_similar: false,
            allow_duplicates: false,
            allow_sequential: false,
            generated_password: String::new(),
            quantity: 1,
            tools_export_message: None,
        }
    }

    /// Builds the alphabet: the enabled classes in a fixed order, without the
    /// similar-looking characters when those are excluded.
    pub fn build_charset(&self) -> (r: Vec<char>)
        ensures
            r@ == self.alphabet(),
    {
        let mut all: Vec<char> = Vec::new();
        if self.include_uppercase {
            push_range(&mut all, 65, 90);
        }
        if self.include_lowercase {
            push_range(&mut all, 97, 122);
        }
        if self.include_numbers {
            push_range(&mut all, 48, 57);
        }
        if self.include_symbols {
            let symbols = vec![
                '!', '@', '#', '$', '%', '^', '&', '*', '(', ')', '_', '+', '-', '=', '[', ']',
                '{', '}', '|', ';', ':', ',', '.', '<', '>', '?',
            ];
            assert(symbols@ =~= symbol_class());
            let mut i: usize = 0;
            let ghost start = all@;
            while i < symbols.len()
                invariant
                    i <= symbols@.len(),
                    all@ == start + symbols@.take(i as int),
                decreases symbols@.len() - i,
            {
                all.push(symbols[i]);
                i += 1;
                assert(all@ =~= start + symbols@.take(i as int));
            }
            assert(symbols@.take(i as int) =~= symbols@);
        }
        assert(all@ =~= self.class_union());
        if !self.exclude_similar {
            return all;
        }
        let mut out: Vec<char> = Vec::new();
        let mut i: usize = 0;
        while i < all.len()
            invariant
                i <= all@.len(),
                out@ == without_similar(all@.take(i as int)),
            decreases all@.len() - i,
        {
            let c = all[i];
            assert(all@.take(i as int + 1).drop_last() =~= all@.take(i as int));
            if !is_similar_char(c) {
                out.push(c);
            }
            i += 1;
        }
        assert(all@.take(i as int) =~= all@);
        out
    }

    /// Decides whether `candidate` may be appended to the password `built`:
    /// it must not repeat a character unless duplicates are allowed, must not
    /// neighbour the last character by code point unless sequences are
    /// allowed, and must not be similar-looking when those are excluded.
    pub fn accepts_candidate(&self, built: &Vec<char>, candidate: char) -> (r: bool)
        ensures
            r == self.accepts(built@, candidate),
    {
        if !self.allow_duplicates {
            let mut i: usize = 0;
            while i < built.len()
                invariant
                    !self.allow_duplicates,
                    i <= built@.len(),
                    forall|j: int| 0 <= j < i ==> built@[j] != candidate,
                decreases built@.len() - i,
            {
                if built[i] == candidate {
                    assert(built@[i as int] == candidate);
                    return false;
                }
                i += 1;
            }
        }
        if !self.allow_sequential && built.len() > 0 {
            let last = code_point(built[built.len() - 1]);
            let code = code_point(candidate);
            if (code > last && code - last == 1) || (last > code && last - code == 1) {
                return false;
            }
        }
        !(self.exclude_similar && is_similar_char(candidate))
    }

    /// Picks the character for the next position from a sequence of random
    /// draws: the character of the first draw that may follow `built`, or
    /// `None` when every draw is rejected.
    pub fn select_candidate(&self, alphabet: &Vec<char>, built: &Vec<char>, draws: &Vec<usize>) -> (r:
        Option<char>)
        requires
            forall|k: int| 0 <= k < draws@.len() ==> #[trigger] draws@[k] < alphabet@.len(),
        ensures
            r == self.first_accepted(alphabet@, built@, draws@),
    {
        let mut i: usize = 0;
        assert(draws@.skip(0) =~= draws@);
        while i < draws.len()
            invariant
                i <= draws@.len(),
                forall|k: int| 0 <= k < draws@.len() ==> #[trigger] draws@[k] < alphabet@.len(),
                self.first_accepted(alphabet@, built@, draws@) == self.first_accepted(
                    alphabet@,
                    built@,
                    draws@.skip(i as int),
                ),
            decreases draws@.len() - i,
        {
            let c = alphabet[draws[i]];
            assert(draws@.skip(i as int)[0] == draws@[i as int]);
            assert(draws@.skip(i as int).skip(1) =~= draws@.skip(i + 1));
            if self.accepts_candidate(built, c) {
                return Some(c);
            }
            i += 1;
        }
        None
    }

    /// Generates one password under the current settings and stores it in
    /// `generated_password`. Each position draws `MAX_ATTEMPTS` uniformly
    /// random indices into the alphabet and keeps the first acceptable
    /// character among them (`select_candidate`).
    ///
    /// Fails with `EmptyAlphabet` exactly when no character is eligible, and
    /// otherwise only with `Unsatisfiable`; on failure the stored password is
    /// left as it was.
    pub fn generate_password(&mut self) -> (r: Result<(), GenerationError>)
        ensures
            final(self).same_settings(*old(self)),
            final(self).tools_export_message == old(self).tools_export_message,
            r is Ok ==> old(self).is_valid_password(final(self).generated_password@),
            r is Ok && !old(self).allow_duplicates ==> old(self).length <= old(self).alphabet().len(),
            r is Err ==> final(self).generated_password == old(self).generated_password,
            r == Err::<(), GenerationError>(GenerationError::EmptyAlphabet) <==> old(
                self,
            ).alphabet().len() == 0,
            r is Err ==> r == Err::<(), GenerationError>(GenerationError::EmptyAlphabet) || r
                == Err::<(), GenerationError>(GenerationError::Unsatisfiable),
            old(self).alphabet().len() > 0 && old(self).allow_duplicates
                && old(self).allow_sequential ==> r is Ok,
    {
        let alphabet = self.build_charset();
        if alphabet.len() == 0 {
            return Err(GenerationError::EmptyAlphabet);
        }
        let mut built: Vec<char> = Vec::new();
        let mut pos: usize = 0;
        while pos < self.length
            invariant
                *self == *old(self),
                pos <= self.length,
                built@.len() == pos,
                alphabet@ == self.alphabet(),
                alphabet@.len() > 0,
                self.is_valid_prefix(built@),
            decreases self.length - pos,
        {
            let mut draws: Vec<usize> = Vec::new();
            while draws.len() < MAX_ATTEMPTS
                invariant
                    alphabet@.len() > 0,
                    forall|k: int| 0 <= k < draws@.len() ==> #[trigger] draws@[k] < alphabet@.len(),
                decreases MAX_ATTEMPTS - draws@.len(),
            {
                draws.push(random_index(alphabet.len()));
            }
            let chosen = self.select_candidate(&alphabet, &built, &draws);
            proof {
                lemma_first_accepted_is_acceptable(*self, alphabet@, built@, draws@);
                if self.allow_duplicates && self.allow_sequential {
                    lemma_first_draw_decides(*self, alphabet@, built@, draws@);
                }
            }
            match chosen {
                None => {
                    return Err(GenerationError::Unsatisfiable);
                },
                Some(c) => {
                    let ghost before = built@;
                    built.push(c);
                    assert(built@.take(pos as int) =~= before);
                    assert forall|i: int| 0 <= i < built@.len() implies self.alphabet().contains(
                        #[trigger] built@[i],
                    ) && self.accepts(built@.take(i), built@[i]) by {
                        if i < pos {
                            assert(built@.take(i) =~= before.take(i));
                            assert(built@[i] == before[i]);
                        }
                    }
                },
            }
            pos += 1;
        }
        proof {
            if !self.allow_duplicates {
                lemma_unique_password_fits_alphabet(*self, built@);
            }
        }
        self.generated_password = string_from_chars(&built);
        Ok(())
    }

    /// Generates `quantity` passwords, one after another, each from a cleared
    /// state so that the duplicate and sequence rules apply within one
    /// password only. The batch is all or nothing: the first failure aborts
    /// it with `BatchAborted`, naming the failed run and its cause.
    pub fn generate_multiple_passwords(&mut self) -> (r: Result<Vec<String>, GenerationError>)
        ensures
            final(self).same_settings(*old(self)),
            final(self).tools_export_message == old(self).tools_export_message,
            match r {
                Ok(v) => {
                    &&& v@.len() == old(self).quantity
                    &&& old(self).quantity > 0 ==> old(self).alphabet().len() > 0
                    &&& forall|i: int|
                        0 <= i < v@.len() ==> old(self).is_valid_password(#[trigger] v@[i]@)
                    &&& v@.len() > 0 ==> final(self).generated_password@ == v@.last()@
                },
                Err(e) => match e {
                    GenerationError::BatchAborted { at_index, cause } => {
                        &&& at_index < old(self).quantity
                        &&& (cause == AbortCause::EmptyAlphabet <==> old(self).alphabet().len()
                            == 0)
                        &&& cause == AbortCause::EmptyAlphabet ==> at_index == 0
                    },
                    _ => false,
                },
            },
            old(self).quantity > 0 && old(self).alphabet().len() == 0 ==> r == Err::<
                Vec<String>,
                GenerationError,
            >(GenerationError::BatchAborted { at_index: 0, cause: AbortCause::EmptyAlphabet }),
            old(self).quantity > 0 && old(self).alphabet().len() > 0 && old(self).allow_duplicates
                && old(self).allow_sequential ==> r is Ok,
            r is Err ==> final(self).generated_password@.len() == 0,
            old(self).quantity > 0 && !old(self).allow_duplicates && old(self).length > old(
                self,
            ).alphabet().len() ==> r is Err && r->Err_0 is BatchAborted
                && r->Err_0->BatchAborted_at_index == 0,
    {
        let mut passwords: Vec<String> = Vec::new();
        let mut k: usize = 0;
        while k < self.quantity
            invariant
                k <= self.quantity,
                self.same_settings(*old(self)),
                self.tools_export_message == old(self).tools_export_message,
                passwords@.len() == k,
                k > 0 ==> old(self).alphabet().len() > 0,
                forall|i: int|
                    0 <= i < k ==> old(self).is_valid_password(#[trigger] passwords@[i]@),
                k > 0 ==> self.generated_password@ == passwords@.last()@,
                k > 0 && !old(self).allow_duplicates ==> old(self).length <= old(self).alphabet().len(),
            decreases self.quantity - k,
        {
            self.clear_password();
            let ghost cleared = *self;
            proof {
                lemma_same_settings_same_rules(cleared, *old(self), Seq::empty());
            }
            match self.generate_password() {
                Ok(()) => {},
                Err(e) => {
                    let cause = if e == GenerationError::EmptyAlphabet {
                        AbortCause::EmptyAlphabet
                    } else {
                        AbortCause::Unsatisfiable
                    };
                    return Err(GenerationError::BatchAborted { at_index: k, cause });
                },
            }
            let ghost before = passwords@;
            passwords.push(self.generated_password.clone());
            proof {
                lemma_same_settings_same_rules(*self, *old(self), passwords@[k as int]@);
                assert forall|i: int| 0 <= i < k + 1 implies old(self).is_valid_password(
                    #[trigger] passwords@[i]@,
                ) by {
                    if i < k {
                        assert(passwords@[i] == before[i]);
                    }
                }
            }
            k += 1;
        }
        Ok(passwords)
    }

    /// Clears the stored password; the settings stay as they are.
    pub fn clear_password(&mut self)
        ensures
            final(self).same_settings(*old(self)),
            final(self).tools_export_message == old(self).tools_export_message,
            final(self).generated_password@.len() == 0,
    {
        self.generated_password = String::new();
    }

    /// Lengthens passwords by one, saturating at the largest `usize`.
    pub fn increase_length(&mut self)
        ensures
            *final(self) == (PasswordGenerator {
                length: if old(self).length < usize::MAX {
                    (old(self).length + 1) as usize
                } else {
                    old(self).length
                },
                ..*old(self)
            }),
    {
        self.length = self.length.saturating_add(1);
    }

    /// Shortens passwords by one; a length of 1 stays 1.
    pub fn decrease_length(&mut self)
        ensures
            *final(self) == (PasswordGenerator {
                length: if old(self).length > 1 {
                    (old(self).length - 1) as usize
                } else {
                    old(self).length
                },
                ..*old(self)
            }),
    {
        if self.length > 1 {
            self.length -= 1;
        }
    }

    /// Sets the password length; lengths below 1 become 1.
    pub fn set_length(&mut self, n: usize)
        ensures
            *final(self) == (PasswordGenerator { length: if n > 1 { n } else { 1 }, ..*old(self) }),
    {
        self.length = if n > 1 { n } else { 1 };
    }

    /// Asks for one more password per batch, saturating at the largest `usize`.
    pub fn increase_quantity(&mut self)
        ensures
            *final(self) == (PasswordGenerator {
                quantity: if old(self).quantity < usize::MAX {
                    (old(self).quantity + 1) as usize
                } else {
                    old(self).quantity
                },
                ..*old(self)
            }),
    {
        self.quantity = self.quantity.saturating_add(1);
    }

    /// Asks for one password fewer per batch; the quantity never drops below 1.
    pub fn decrease_quantity(&mut self)
        ensures
            *final(self) == (PasswordGenerator {
                quantity: if old(self).quantity > 1 {
                    (old(self).quantity - 1) as usize
                } else {
                    1
                },
                ..*old(self)
            }),
    {
        self.quantity = if self.quantity > 1 { self.quantity - 1 } else { 1 };
    }

    /// Sets the batch size; sizes below 1 become 1.
    pub fn set_quantity(&mut self, n: usize)
        ensures
            *final(self) == (PasswordGenerator { quantity: if n > 1 { n } else { 1 }, ..*old(self) }),
    {
        self.quantity = if n > 1 { n } else { 1 };
    }

    /// Flips whether uppercase letters are eligible.
    pub fn toggle_uppercase(&mut self)
        ensures
            *final(self) == (PasswordGenerator { include_uppercase: !old(self).include_uppercase, ..*old(self) }),
    {
        self.include_uppercase = !self.include_uppercase;
    }

    /// Flips whether lowercase letters are eligible.
    pub fn toggle_lowercase(&mut self)
        ensures
            *final(self) == (PasswordGenerator { include_lowercase: !old(self).include_lowercase, ..*old(self) }),
    {
        self.include_lowercase = !self.include_lowercase;
    }

    /// Flips whether digits are eligible.
    pub fn toggle_numbers(&mut self)
        ensures
            *final(self) == (PasswordGenerator { include_numbers: !old(self).include_numbers, ..*old(self) }),
    {
        self.include_numbers = !self.include_numbers;
    }

    /// Flips whether symbols are eligible.
    pub fn toggle_symbols(&mut self)
        ensures
            *final(self) == (PasswordGenerator { include_symbols: !old(self).include_symbols, ..*old(self) }),
    {
        self.include_symbols = !self.include_symbols;
    }

    /// Flips whether similar-looking characters are excluded.
    pub fn toggle_similar_characters(&mut self)
        ensures
            *final(self) == (PasswordGenerator { exclude_similar: !old(self).exclude_similar, ..*old(self) }),
    {
        self.exclude_similar = !self.exclude_similar;
    }

    /// Flips whether a character may repeat within a password.
    pub fn toggle_duplicate_characters(&mut self)
        ensures
            *final(self) == (PasswordGenerator { allow_duplicates: !old(self).allow_duplicates, ..*old(self) }),
    {
        self.allow_duplicates = !self.allow_duplicates;
    }

    /// Flips whether neighbouring characters may have adjacent code points.
    pub fn toggle_sequential_characters(&mut self)
        ensures
            *final(self) == (PasswordGenerator { allow_sequential: !old(self).allow_sequential, ..*old(self) }),
    {
        self.allow_sequential = !self.allow_sequential;
    }
}

impl Default for PasswordGenerator {
    fn default() -> (r: Self)
        ensures
            r.length == 12,
            r.quantity == 1,
            r.include_uppercase && r.include_lowercase && r.include_numbers && r.include_symbols,
            !r.exclude_similar && !r.allow_duplicates && !r.allow_sequential,
            r.generated_password@.len() == 0,
            r.tools_export_message.is_none(),
    {
        PasswordGenerator::new()
    }
}

/// Every character of an allowed password comes from an enabled class, and
/// none is similar-looking while those are excluded; the password has the
/// configured length.
pub proof fn lemma_password_drawn_from_enabled_classes(g: PasswordGenerator, p: Seq<char>)
    requires
        g.is_valid_password(p),
    ensures
        p.len() == g.length,
        forall|i: int|
            0 <= i < p.len() ==> g.class_enabled(#[trigger] p[i]) && !(g.exclude_similar
                && is_similar(p[i])),
{
    assert forall|i: int| 0 <= i < p.len() implies g.class_enabled(#[trigger] p[i]) && !(
    g.exclude_similar && is_similar(p[i])) by {
        assert(g.alphabet().contains(p[i]));
        if g.exclude_similar {
            lemma_without_similar_contains(g.class_union(), p[i]);
        }
        lemma_class_union_contains(g, p[i]);
    }
}

/// While duplicates are not allowed, no character occurs twice in an allowed
/// password.
pub proof fn lemma_no_repeated_characters(g: PasswordGenerator, p: Seq<char>)
    requires
        g.is_valid_password(p),
        !g.allow_duplicates,
    ensures
        forall|i: int, j: int| 0 <= i < j < p.len() ==> p[i] != p[j],
{
    assert forall|i: int, j: int| 0 <= i < j < p.len() implies p[i] != p[j] by {
        assert(g.accepts(p.take(j), p[j]));
        assert(p.take(j)[i] == p[i]);
    }
}

/// While sequences are not allowed, no two neighbouring characters of an
/// allowed password have code points that differ by one.
pub proof fn lemma_no_sequential_neighbours(g: PasswordGenerator, p: Seq<char>)
    requires
        g.is_valid_password(p),
        !g.allow_sequential,
    ensures
        forall|i: int| 1 <= i < p.len() ==> !is_sequential(p[i - 1], #[trigger] p[i]),
{
    assert forall|i: int| 1 <= i < p.len() implies !is_sequential(p[i - 1], #[trigger] p[i]) by {
        assert(g.accepts(p.take(i), p[i]));
        assert(p.take(i).last() == p[i - 1]);
    }
}

/// With every character class disabled the alphabet is empty, so generation
/// fails with `EmptyAlphabet`.
pub proof fn lemma_no_class_no_alphabet(g: PasswordGenerator)
    requires
        !g.include_uppercase,
        !g.include_lowercase,
        !g.include_numbers,
        !g.include_symbols,
    ensures
        g.alphabet().len() == 0,
{
    assert(g.class_union() =~= Seq::<char>::empty());
}

/// While duplicates are not allowed, an allowed password is no longer than
/// the alphabet: longer lengths can never be generated.
pub proof fn lemma_unique_password_fits_alphabet(g: PasswordGenerator, p: Seq<char>)
    requires
        g.is_valid_password(p),
        !g.allow_duplicates,
    ensures
        p.len() <= g.alphabet().len(),
{
    lemma_no_repeated_characters(g, p);
    assert(p.no_duplicates());
    p.unique_seq_to_set();
    g.alphabet().lemma_cardinality_of_set();
    assert(p.to_set().subset_of(g.alphabet().to_set())) by {
        assert forall|c: char| p.to_set().contains(c) implies g.alphabet().to_set().contains(c) by {
            let i = choose|i: int| 0 <= i < p.len() && p[i] == c;
            assert(g.alphabet().contains(p[i]));
        }
    }
    vstd::set_lib::lemma_len_subset(p.to_set(), g.alphabet().to_set());
}

/// While duplicates and sequences are allowed, every character of the
/// alphabet is acceptable, so the first draw is taken.
proof fn lemma_first_draw_decides(
    g: PasswordGenerator,
    alphabet: Seq<char>,
    built: Seq<char>,
    draws: Seq<usize>,
)
    requires
        g.allow_duplicates,
        g.allow_sequential,
        alphabet == g.alphabet(),
        draws.len() > 0,
        draws[0] < alphabet.len(),
    ensures
        g.first_accepted(alphabet, built, draws) is Some,
{
    let c = alphabet[draws[0] as int];
    assert(alphabet.contains(c));
    if g.exclude_similar {
        lemma_without_similar_contains(g.class_union(), c);
    }
    assert(g.accepts(built, c));
}

/// What the first accepted draw picks is in the alphabet and acceptable.
proof fn lemma_first_accepted_is_acceptable(
    g: PasswordGenerator,
    alphabet: Seq<char>,
    built: Seq<char>,
    draws: Seq<usize>,
)
    requires
        forall|k: int| 0 <= k < draws.len() ==> #[trigger] draws[k] < alphabet.len(),
    ensures
        g.first_accepted(alphabet, built, draws) matches Some(c) ==> alphabet.contains(c)
            && g.accepts(built, c),
    decreases draws.len(),
{
    if draws.len() > 0 {
        if g.accepts(built, alphabet[draws[0] as int]) {
            assert(alphabet.contains(alphabet[draws[0] as int]));
        } else {
            assert forall|k: int| 0 <= k < draws.skip(1).len() implies #[trigger] draws.skip(1)[k]
                < alphabet.len() by {
                assert(draws.skip(1)[k] == draws[k + 1]);
            }
            lemma_first_accepted_is_acceptable(g, alphabet, built, draws.skip(1));
        }
    }
}

/// A character left by `without_similar` was in the input and is not similar.
proof fn lemma_without_similar_contains(s: Seq<char>, c: char)
    requires
        without_similar(s).contains(c),
    ensures
        s.contains(c),
        !is_similar(c),
    decreases s.len(),
{
    let rest = without_similar(s.drop_last());
    if rest.contains(c) {
        lemma_without_similar_contains(s.drop_last(), c);
        let i = choose|i: int| 0 <= i < s.drop_last().len() && s.drop_last()[i] == c;
        assert(s[i] == c);
    } else {
        let k = choose|k: int| 0 <= k < without_similar(s).len() && without_similar(s)[k] == c;
        assert(!is_similar(s.last()) && k == rest.len());
        assert(s[s.len() - 1] == c);
    }
}

/// A character of `first..=last` lies between the two.
proof fn lemma_char_range_contains(first: char, last: char, c: char)
    requires
        char_range(first, last).contains(c),
        (last as int) < 0xD800,
        first <= last,
    ensures
        first <= c <= last,
{
}

/// A character of the class union belongs to an enabled class.
proof fn lemma_class_union_contains(g: PasswordGenerator, c: char)
    requires
        g.class_union().contains(c),
    ensures
        g.class_enabled(c),
{
    let u = if g.include_uppercase { uppercase_class() } else { Seq::empty() };
    let l = if g.include_lowercase { lowercase_class() } else { Seq::empty() };
    let n = if g.include_numbers { number_class() } else { Seq::empty() };
    let y = if g.include_symbols { symbol_class() } else { Seq::empty() };
    lemma_concat_contains(u + l + n, y, c);
    if (u + l + n).contains(c) {
        lemma_concat_contains(u + l, n, c);
        if (u + l).contains(c) {
            lemma_concat_contains(u, l, c);
            if u.contains(c) {
                lemma_char_range_contains('A', 'Z', c);
            } else {
                lemma_char_range_contains('a', 'z', c);
            }
        } else {
            lemma_char_range_contains('0', '9', c);
        }
    }
}

/// A character of `a + b` is in `a` or in `b`.
proof fn lemma_concat_contains(a: Seq<char>, b: Seq<char>, c: char)
    requires
        (a + b).contains(c),
    ensures
        a.contains(c) || b.contains(c),
{
    let k = choose|k: int| 0 <= k < (a + b).len() && (a + b)[k] == c;
    if k < a.len() {
        assert(a[k] == c);
    } else {
        assert(b[k - a.len()] == c);
    }
}

/// Two generators with the same settings allow the same passwords.
proof fn lemma_same_settings_same_rules(a: PasswordGenerator, b: PasswordGenerator, p: Seq<char>)
    requires
        a.same_settings(b),
    ensures
        a.alphabet() == b.alphabet(),
        a.is_valid_password(p) == b.is_valid_password(p),
{
    assert(a.class_union() == b.class_union());
    assert forall|q: Seq<char>, c: char| a.accepts(q, c) == b.accepts(q, c) by {}
    if a.is_valid_prefix(p) {
        assert(b.is_valid_prefix(p));
    }
    if b.is_valid_prefix(p) {
        assert(a.is_valid_prefix(p));
    }
}

/// Relies on `rand::Rng::gen_range` over `rand::thread_rng()`: a value drawn
/// from `0..bound`, which panics only on an empty range.
#[verifier::external_body]
fn random_index(bound: usize) -> (r: usize)
    requires
        bound > 0,
    ensures
        r < bound,
{
    rand::thread_rng().gen_range(0..bound)
}

/// Whether `c` is one of the similar-looking characters.
pub fn is_similar_char(c: char) -> (r: bool)
    ensures
        r == is_similar(c),
{
    c == 'i' || c == 'l' || c == 'L' || c == 'o' || c == '0' || c == 'O'
}

/// The code point of `c`.
pub fn code_point(c: char) -> (r: u32)
    ensures
        r as int == c as int,
{
    c as u32
}

/// Appends the characters `first..=last` to `v`.
fn push_range(v: &mut Vec<char>, first: u8, last: u8)
    requires
        first <= last < 128,
    ensures
        final(v)@ == old(v)@ + char_range(first as char, last as char),
{
    let ghost start = old(v)@;
    let mut code: u8 = first;
    while code <= last
        invariant
            first <= code <= last + 1,
            last < 128,
            v@ == start + Seq::new((code - first) as nat, |i: int| (first as int + i) as char),
        decreases last + 1 - code,
    {
        v.push(code as char);
        code += 1;
        assert(v@ =~= start + Seq::new((code - first) as nat, |i: int| (first as int + i) as char));
    }
    assert(char_range(first as char, last as char) =~= Seq::new(
        (code - first) as nat,
        |i: int| (first as int + i) as char,
    ));
}

} // verus!

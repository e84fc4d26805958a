//! Opaque, randomly generated identifiers of the shape `xxxxx-xxxxx-xxxxx-xxxxx`,
//! optionally tagged with a namespace prefix (`req:...`, `action:...`).

use core::marker::PhantomData;
use rand_chacha::rand_core::{RngCore, SeedableRng};
use rand_chacha::ChaCha20Rng;
use vstd::prelude::*;

verus! {

/// Length of the identifier body.
pub const IDENTIFIER_LEN: usize = 23;

/// Number of symbols an identifier body draws from.
pub const ALPHABET_LEN: u8 = 62;

/// The symbols of an identifier body: digits, lower case, upper case.
pub open spec fn alphabet() -> Seq<char> {
    "0123456789abcdefghijklmnopqrstuvwxyzABCDEFGHIJKLMNOPQRSTUVWXYZ"@
}

/// Positions of the separators inside an identifier body.
pub open spec fn is_separator_position(i: int) -> bool {
    i == 5 || i == 11 || i == 17
}

/// The character that a random byte at position `i` becomes.
pub open spec fn identifier_char(b: u8, i: int) -> char {
    if is_separator_position(i) {
        '-'
    } else {
        alphabet()[(b as int) % (ALPHABET_LEN as int)]
    }
}

/// The identifier body built from a sequence of random bytes.
pub open spec fn identifier_of(bytes: Seq<u8>) -> Seq<char> {
    Seq::new(bytes.len(), |i: int| identifier_char(bytes[i], i))
}

/// A well-formed identifier body: 23 characters, `-` at the separator
/// positions and alphabet symbols everywhere else.
pub open spec fn is_identifier(s: Seq<char>) -> bool {
    &&& s.len() == IDENTIFIER_LEN as int
    &&& forall|i: int|
        0 <= i < s.len() ==> if is_separator_position(i) {
            s[i] == '-'
        } else {
            alphabet().contains(#[trigger] s[i])
        }
}

/// How an identifier is written out: `prefix:body`, or the body alone.
pub open spec fn display_of(v: UuidView) -> Seq<char> {
    match v.prefix {
        Some(p) => p + ":"@ + v.identifier,
        None => v.identifier,
    }
}

/// Marker of identifiers without a prefix.
#[derive(Debug, Clone, Copy, PartialEq, Eq, Hash)]
pub struct Raw;

/// Marker of identifiers that carry a prefix.
#[derive(Debug, Clone, Copy, PartialEq, Eq, Hash)]
pub struct Prefixed;

/// What an identifier holds: its optional prefix and its body.
pub struct UuidView {
    pub prefix: Option<Seq<char>>,
    pub identifier: Seq<char>,
}

/// An identifier whose flavour (`Raw` or `Prefixed`) is part of its type, so
/// that correlation ids and entity ids are never mixed by accident.
#[derive(Debug, PartialEq, Eq, Hash)]
pub struct Uuid<Type = Raw> {
    inner: String,
    prefix: Option<String>,
    variant: PhantomData<Type>,
}

impl<Type> View for Uuid<Type> {
    type V = UuidView;

    closed spec fn view(&self) -> UuidView {
        UuidView {
            prefix: match self.prefix {
                Some(p) => Some(p@),
                None => None,
            },
            identifier: self.inner@,
        }
    }
}

/// The ChaCha20 generator of rand_chacha, carried opaquely.
#[verifier::external_type_specification]
#[verifier::external_body]
pub struct ExChaCha20Rng(ChaCha20Rng);

/// Relies on `SeedableRng::from_entropy` of rand_core: a ChaCha20 generator
/// seeded from the operating system's entropy source. Nothing is promised of
/// the seed; the call panics only if the system source itself fails.
#[verifier::external_body]
fn seeded_rng() -> ChaCha20Rng {
    ChaCha20Rng::from_entropy()
}

/// Relies on `RngCore::fill_bytes` of rand_chacha: overwrites every byte of
/// the buffer with random data and keeps its length.
#[verifier::external_body]
fn fill_random(rng: &mut ChaCha20Rng, buf: &mut Vec<u8>)
    ensures
        final(buf)@.len() == old(buf)@.len(),
{
    rng.fill_bytes(buf.as_mut_slice())
}

/// Builds an identifier body from random bytes: each byte picks an alphabet
/// symbol by its remainder modulo 62, and positions 5, 11 and 17 hold `-`.
pub fn identifier_from_bytes(bytes: &Vec<u8>) -> (r: String)
    ensures
        r@ == identifier_of(bytes@),
{
    let symbols: &str = "0123456789abcdefghijklmnopqrstuvwxyzABCDEFGHIJKLMNOPQRSTUVWXYZ";
    let separator: &str = "-";
    proof {
        reveal_strlit("0123456789abcdefghijklmnopqrstuvwxyzABCDEFGHIJKLMNOPQRSTUVWXYZ");
        reveal_strlit("-");
    }
    assert(symbols@ == alphabet());
    let mut out = String::new();
    let mut i: usize = 0;
    while i < bytes.len()
        invariant
            i <= bytes@.len(),
            symbols@ == alphabet(),
            symbols@.len() == ALPHABET_LEN as int,
            separator@ == seq!['-'],
            out@ == identifier_of(bytes@.subrange(0, i as int)),
        decreases bytes@.len() - i,
    {
        let piece: &str = if i == 5 || i == 11 || i == 17 {
            separator
        } else {
            let k: usize = (bytes[i] % ALPHABET_LEN) as usize;
            symbols.substring_char(k, k + 1)
        };
        assert(piece@ == seq![identifier_char(bytes@[i as int], i as int)]);
        out.append(piece);
        i = i + 1;
        assert(identifier_of(bytes@.subrange(0, i as int)) =~= identifier_of(
            bytes@.subrange(0, i - 1),
        ).push(identifier_char(bytes@[i - 1], i - 1)));
    }
    assert(bytes@.subrange(0, i as int) =~= bytes@);
    out
}

/// An identifier built from 23 random bytes is well formed.
pub proof fn lemma_identifier_shape(bytes: Seq<u8>)
    requires
        bytes.len() == IDENTIFIER_LEN as int,
    ensures
        is_identifier(identifier_of(bytes)),
{
    reveal_strlit("0123456789abcdefghijklmnopqrstuvwxyzABCDEFGHIJKLMNOPQRSTUVWXYZ");
    let s = identifier_of(bytes);
    assert forall|i: int| 0 <= i < s.len() && !is_separator_position(i) implies alphabet().contains(
        #[trigger] s[i],
    ) by {
        let k = (bytes[i] as int) % (ALPHABET_LEN as int);
        assert(0 <= k < alphabet().len());
        assert(alphabet()[k] == s[i]);
    }
}

/// A written-out identifier is its body, or its prefix, a `:` and its body;
/// a well-formed one is 23 characters long plus the prefix and the `:`.
pub proof fn lemma_display_shape(v: UuidView)
    requires
        is_identifier(v.identifier),
    ensures
        match v.prefix {
            Some(p) => {
                &&& display_of(v).len() == p.len() + 1 + IDENTIFIER_LEN
                &&& display_of(v)[p.len() as int] == ':'
                &&& display_of(v).subrange(p.len() as int + 1, display_of(v).len() as int)
                    == v.identifier
            },
            None => display_of(v) == v.identifier,
        },
{
    reveal_strlit(":");
    if let Some(p) = v.prefix {
        assert(display_of(v).subrange(p.len() as int + 1, display_of(v).len() as int) =~= v.identifier);
    }
}

impl Uuid<Raw> {
    /// Creates a new prefixed identifier: a fresh body tagged with `prefix`.
    pub fn prefixed(prefix: &str) -> (r: Uuid<Prefixed>)
        ensures
            r@.prefix == Some(prefix@),
            is_identifier(r@.identifier),
    {
        let identifier = Self::generate();
        Uuid { inner: identifier, prefix: Some(String::from_str(prefix)), variant: PhantomData }
    }

    /// Creates a new identifier without a prefix.
    pub fn raw() -> (r: Uuid<Raw>)
        ensures
            r@.prefix is None,
            is_identifier(r@.identifier),
    {
        Uuid { inner: Self::generate(), prefix: None, variant: PhantomData }
    }

    /// Tags this identifier with a prefix; the body is kept.
    pub fn with_prefix(self, prefix: &str) -> (r: Uuid<Prefixed>)
        ensures
            r@.prefix == Some(prefix@),
            r@.identifier == self@.identifier,
    {
        Uuid { inner: self.inner, prefix: Some(String::from_str(prefix)), variant: PhantomData }
    }
}

impl Uuid<Prefixed> {
    /// Gets the prefix of the identifier.
    pub fn get_prefix(&self) -> (r: &str)
        requires
            self@.prefix is Some,
        ensures
            Some(r@) == self@.prefix,
    {
        match &self.prefix {
            Some(p) => p.as_str(),
            None => {
                assert(false);
                ""
            },
        }
    }

    /// The same body, without its prefix.
    pub fn without_prefix(&self) -> (r: Uuid<Raw>)
        ensures
            r@.prefix is None,
            r@.identifier == self@.identifier,
    {
        Uuid { inner: self.inner.clone(), prefix: None, variant: PhantomData }
    }
}

impl<Type> Uuid<Type> {
    /// Generates a new identifier body: 23 characters from `0-9`, `a-z`,
    /// `A-Z`, laid out as `xxxxx-xxxxx-xxxxx-xxxxx`. The generator is seeded
    /// afresh from system entropy on every call.
    pub fn generate() -> (r: String)
        ensures
            is_identifier(r@),
    {
        let mut rng = seeded_rng();
        let mut buffer: Vec<u8> = vec![0u8; IDENTIFIER_LEN];
        fill_random(&mut rng, &mut buffer);
        proof {
            lemma_identifier_shape(buffer@);
        }
        identifier_from_bytes(&buffer)
    }

    /// Gets the body of the identifier.
    pub fn get_identifier(&self) -> (r: &str)
        ensures
            r@ == self@.identifier,
    {
        self.inner.as_str()
    }

    /// Writes the identifier out: `prefix:body`, or the body alone.
    pub fn to_string(&self) -> (r: String)
        ensures
            r@ == display_of(self@),
    {
        match &self.prefix {
            Some(p) => {
                let mut s = p.clone();
                s.append(":");
                s.append(self.inner.as_str());
                s
            },
            None => self.inner.clone(),
        }
    }
}

impl<Type> Clone for Uuid<Type> {
    fn clone(&self) -> (r: Self)
        ensures
            r@ == self@,
    {
        Uuid { inner: self.inner.clone(), prefix: self.prefix.clone(), variant: PhantomData }
    }
}

impl Default for Uuid<Raw> {
    fn default() -> (r: Self)
        ensures
            r@.prefix is None,
            is_identifier(r@.identifier),
    {
        Self::raw()
    }
}

} // verus!

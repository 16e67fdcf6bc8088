//! Content digests in the form `algorithm:hex`.

use crate::error::ImageError;
use crate::text::{find_char, is_first_index, to_chars};
use vstd::prelude::*;
use vstd::string::*;

verus! {

/// A hexadecimal digit, in either case.
pub open spec fn is_hex_digit(c: char) -> bool {
    ('0' <= c && c <= '9') || ('a' <= c && c <= 'f') || ('A' <= c && c <= 'F')
}

/// `text` reads `algorithm:hex` with its first colon at `colon`: something
/// before the colon, and one or more hexadecimal digits after it.
pub open spec fn is_digest_at(text: Seq<char>, colon: int) -> bool {
    &&& is_first_index(text, ':', colon)
    &&& 0 < colon
    &&& colon + 1 < text.len()
    &&& forall|k: int| colon < k < text.len() ==> is_hex_digit(#[trigger] text[k])
}

/// `text` is a digest string.
pub open spec fn is_digest_text(text: Seq<char>) -> bool {
    exists|colon: int| is_digest_at(text, colon)
}

/// An algorithm-tagged content hash.
#[derive(Clone, Debug, PartialEq, Eq)]
pub struct Digest {
    /// Name of the hash algorithm, such as `sha256`.
    pub algorithm: String,
    /// The hash, hex-encoded.
    pub value: String,
}

/// The mathematical value of a [`Digest`].
pub struct DigestView {
    pub algorithm: Seq<char>,
    pub value: Seq<char>,
}

impl DigestView {
    /// The digest as it is written: `algorithm:value`.
    pub open spec fn text(self) -> Seq<char> {
        self.algorithm + seq![':'] + self.value
    }
}

/// The parts of a digest string: what stands before its first colon, and
/// what stands after it. `None` where `text` is no digest string.
pub open spec fn digest_parts(text: Seq<char>) -> Option<DigestView> {
    if is_digest_text(text) {
        let colon = choose|colon: int| is_digest_at(text, colon);
        Some(
            DigestView {
                algorithm: text.subrange(0, colon),
                value: text.subrange(colon + 1, text.len() as int),
            },
        )
    } else {
        None
    }
}

/// A digest string has its first colon in one place only.
pub proof fn lemma_digest_colon_unique(text: Seq<char>, a: int, b: int)
    requires
        is_digest_at(text, a),
        is_digest_at(text, b),
    ensures
        a == b,
{
}

/// The parts of a digest string spell it out again.
pub proof fn lemma_digest_parts_round_trip(text: Seq<char>)
    requires
        is_digest_text(text),
    ensures
        digest_parts(text)->0.text() == text,
        !digest_parts(text)->0.algorithm.contains(':'),
{
    let colon = choose|colon: int| is_digest_at(text, colon);
    let parts = digest_parts(text)->0;
    assert(parts.text() =~= text);
    if parts.algorithm.contains(':') {
        let k = choose|k: int| 0 <= k < parts.algorithm.len() && parts.algorithm[k] == ':';
        assert(text[k] == ':');
    }
}

impl View for Digest {
    type V = DigestView;

    open spec fn view(&self) -> DigestView {
        DigestView { algorithm: self.algorithm@, value: self.value@ }
    }
}

/// Decides whether `c` is a hexadecimal digit.
pub fn hex_digit(c: char) -> (yes: bool)
    ensures
        yes == is_hex_digit(c),
{
    (c >= '0' && c <= '9') || (c >= 'a' && c <= 'f') || (c >= 'A' && c <= 'F')
}

impl Digest {
    /// Splits a digest string at its first colon. The string is accepted
    /// exactly when it has the form `algorithm:hex`.
    pub fn parse(text: &str) -> (r: Result<Digest, ImageError>)
        ensures
            match r {
                Ok(d) => digest_parts(text@) == Some(d@) && d@.text() == text@,
                Err(e) => e == ImageError::InvalidDigest && digest_parts(text@) is None,
            },
    {
        let chars = to_chars(text);
        let colon = match find_char(&chars, ':') {
            Some(i) => i,
            None => {
                return Err(ImageError::InvalidDigest);
            },
        };
        if colon == 0 || colon >= chars.len() - 1 {
            return Err(ImageError::InvalidDigest);
        }
        let mut k: usize = colon + 1;
        while k < chars.len()
            invariant
                colon < k <= chars.len(),
                chars@ == text@,
                is_first_index(text@, ':', colon as int),
                forall|j: int| colon < j < k ==> is_hex_digit(#[trigger] text@[j]),
            decreases chars.len() - k,
        {
            if !hex_digit(chars[k]) {
                return Err(ImageError::InvalidDigest);
            }
            k += 1;
        }
        assert(is_digest_at(text@, colon as int));
        let algorithm = String::from_str(text.substring_char(0, colon));
        let value = String::from_str(text.substring_char(colon + 1, chars.len()));
        let d = Digest { algorithm, value };
        proof {
            lemma_digest_colon_unique(
                text@,
                colon as int,
                choose|c: int| is_digest_at(text@, c),
            );
            assert(d@.text() =~= text@);
        }
        Ok(d)
    }

    /// A second digest of the same value.
    pub fn duplicate(&self) -> (d: Digest)
        ensures
            d == *self,
    {
        Digest { algorithm: self.algorithm.clone(), value: self.value.clone() }
    }

    /// The digest as it is written.
    pub fn render(&self) -> (s: String)
        ensures
            s@ == self@.text(),
    {
        proof {
            reveal_strlit(":");
        }
        let mut s = self.algorithm.clone();
        s.append(":");
        s.append(self.value.as_str());
        assert(s@ =~= self@.text());
        s
    }

    /// The name of the hash algorithm.
    pub fn algorithm(&self) -> (s: &str)
        ensures
            s@ == self@.algorithm,
    {
        self.algorithm.as_str()
    }

    /// The hex-encoded hash.
    pub fn value(&self) -> (s: &str)
        ensures
            s@ == self@.value,
    {
        self.value.as_str()
    }
}

} // verus!

//! Content hashing: a streaming BLAKE3 hasher and the canonical upper-case
//! hexadecimal form of its digest.
use vstd::prelude::*;

use crate::text::{eq_ignore_ascii_case, equals_ignore_ascii_case, push_char};

verus! {

#[verifier::external_type_specification]
#[verifier::external_body]
pub struct ExHasher(blake3::Hasher);

/// The bytes that a BLAKE3 hasher has taken in since it was created.
pub uninterp spec fn absorbed(h: blake3::Hasher) -> Seq<u8>;

/// The 32-byte BLAKE3 digest of an input.
pub uninterp spec fn blake3_of(input: Seq<u8>) -> Seq<u8>;

/// Relies on blake3::Hasher::new: a new hasher has taken in no input.
pub assume_specification[ blake3::Hasher::new ]() -> (h: blake3::Hasher)
    ensures
        absorbed(h) == Seq::<u8>::empty(),
;

/// Relies on blake3::Hasher::update: the input is added after what the hasher
/// took in before, so hashing in pieces equals hashing the whole.
#[verifier::external_body]
fn hasher_update(h: &mut blake3::Hasher, input: &[u8])
    ensures
        absorbed(*final(h)) == absorbed(*old(h)) + input@,
{
    h.update(input);
}

/// Relies on blake3::Hasher::finalize and blake3::Hash::as_bytes: the digest of
/// everything taken in so far; the hasher itself is left unchanged.
#[verifier::external_body]
fn hasher_digest(h: &blake3::Hasher) -> (r: [u8; 32])
    ensures
        r@ == blake3_of(absorbed(*h)),
{
    *h.finalize().as_bytes()
}

/// Upper-case hexadecimal digit for a value below 16.
pub open spec fn hex_digit(v: u8) -> char {
    if v < 10 {
        (48 + v) as char
    } else {
        (55 + v) as char
    }
}

/// Two upper-case hexadecimal digits per byte, most significant nibble first.
pub open spec fn hex_upper(bytes: Seq<u8>) -> Seq<char>
    decreases bytes.len(),
{
    if bytes.len() == 0 {
        Seq::empty()
    } else {
        hex_upper(bytes.drop_last()) + seq![
            hex_digit(bytes.last() / 16),
            hex_digit(bytes.last() % 16),
        ]
    }
}

/// The canonical content hash of a byte sequence: its BLAKE3 digest in
/// upper-case hexadecimal.
pub open spec fn content_hash(data: Seq<u8>) -> Seq<char> {
    hex_upper(blake3_of(data))
}

/// A digit of upper-case hexadecimal: `0`-`9` or `A`-`F`.
pub open spec fn is_upper_hex_char(c: char) -> bool {
    (48 <= (c as u32) && (c as u32) <= 57) || (65 <= (c as u32) && (c as u32) <= 70)
}

/// Text of `n` upper-case hexadecimal digits.
pub open spec fn is_upper_hex_text(t: Seq<char>, n: nat) -> bool {
    &&& t.len() == n
    &&& forall|i: int| 0 <= i < t.len() ==> is_upper_hex_char(#[trigger] t[i])
}

proof fn lemma_hex_digit_form(v: u8)
    requires
        v < 16,
    ensures
        is_upper_hex_char(hex_digit(v)),
{
}

proof fn lemma_hex_upper_form(bytes: Seq<u8>)
    ensures
        is_upper_hex_text(hex_upper(bytes), 2 * bytes.len()),
    decreases bytes.len(),
{
    if bytes.len() > 0 {
        lemma_hex_upper_form(bytes.drop_last());
        lemma_hex_digit_form(bytes.last() / 16);
        lemma_hex_digit_form(bytes.last() % 16);
        let pre = hex_upper(bytes.drop_last());
        let t = hex_upper(bytes);
        assert forall|i: int| 0 <= i < t.len() implies is_upper_hex_char(#[trigger] t[i]) by {
            if i < pre.len() {
                assert(t[i] == pre[i]);
            }
        }
    }
}

fn hex_digit_exec(v: u8) -> (c: char)
    requires
        v < 16,
    ensures
        c == hex_digit(v),
{
    if v < 10 {
        (48u8 + v) as char
    } else {
        (55u8 + v) as char
    }
}

/// Upper-case hexadecimal text of a digest.
pub fn digest_to_hex(digest: &[u8; 32]) -> (r: String)
    ensures
        r@ == hex_upper(digest@),
{
    let mut out = String::new();
    let mut i: usize = 0;
    while i < 32
        invariant
            i <= 32,
            digest@.len() == 32,
            out@ == hex_upper(digest@.take(i as int)),
        decreases 32 - i,
    {
        let b = digest[i];
        push_char(&mut out, hex_digit_exec(b / 16));
        push_char(&mut out, hex_digit_exec(b % 16));
        assert(digest@.take(i + 1).drop_last() == digest@.take(i as int));
        i = i + 1;
    }
    assert(digest@.take(32) == digest@);
    out
}

/// Streaming content hasher. Its view is the byte sequence taken in so far;
/// memory use does not grow with that sequence.
pub struct HashComputer {
    hasher: blake3::Hasher,
}

impl View for HashComputer {
    type V = Seq<u8>;

    closed spec fn view(&self) -> Seq<u8> {
        absorbed(self.hasher)
    }
}

impl HashComputer {
    /// A hasher that has taken in nothing.
    pub fn new() -> (r: HashComputer)
        ensures
            r@ == Seq::<u8>::empty(),
    {
        HashComputer { hasher: blake3::Hasher::new() }
    }

    /// Takes in the next chunk of the content.
    pub fn update(&mut self, chunk: &[u8])
        ensures
            final(self)@ == old(self)@ + chunk@,
    {
        hasher_update(&mut self.hasher, chunk);
    }

    /// The content hash of everything taken in so far.
    pub fn finalize_hex(&self) -> (r: String)
        ensures
            r@ == content_hash(self@),
            is_upper_hex_text(r@, 64),
    {
        let digest = hasher_digest(&self.hasher);
        proof {
            lemma_hex_upper_form(digest@);
        }
        digest_to_hex(&digest)
    }
}

/// The content hash of a byte sequence held in memory.
pub fn hash_bytes(data: &[u8]) -> (r: String)
    ensures
        r@ == content_hash(data@),
        is_upper_hex_text(r@, 64),
{
    let mut h = HashComputer::new();
    h.update(data);
    assert(Seq::<u8>::empty() + data@ == data@);
    h.finalize_hex()
}

/// Whether a declared hash names the same digest as a computed one; letters
/// are compared without regard to case.
pub fn hashes_match(declared: &str, computed: &str) -> (r: bool)
    ensures
        r == eq_ignore_ascii_case(declared@, computed@),
{
    equals_ignore_ascii_case(declared, computed)
}

/// The bytes taken in by a hasher fed a list of chunks in order.
pub open spec fn absorb_chunks(start: Seq<u8>, chunks: Seq<Seq<u8>>) -> Seq<u8>
    decreases chunks.len(),
{
    if chunks.len() == 0 {
        start
    } else {
        absorb_chunks(start + chunks[0], chunks.drop_first())
    }
}

/// Hashing is a function of the content alone: equal contents give equal
/// hashes, however each was split into chunks on the way in.
pub proof fn content_hash_is_deterministic(a: Seq<Seq<u8>>, b: Seq<Seq<u8>>)
    requires
        a.flatten() == b.flatten(),
    ensures
        content_hash(absorb_chunks(Seq::empty(), a)) == content_hash(
            absorb_chunks(Seq::empty(), b),
        ),
{
    lemma_absorb_is_flatten(Seq::empty(), a);
    lemma_absorb_is_flatten(Seq::empty(), b);
}

proof fn lemma_absorb_is_flatten(start: Seq<u8>, chunks: Seq<Seq<u8>>)
    ensures
        absorb_chunks(start, chunks) == start + chunks.flatten(),
    decreases chunks.len(),
{
    if chunks.len() == 0 {
        assert(start + chunks.flatten() =~= start);
    } else {
        lemma_absorb_is_flatten(start + chunks[0], chunks.drop_first());
        assert(chunks.flatten() == chunks[0] + chunks.drop_first().flatten());
        assert(start + chunks[0] + chunks.drop_first().flatten() =~= start + (chunks[0]
            + chunks.drop_first().flatten()));
    }
}

} // verus!

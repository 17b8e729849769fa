use vstd::prelude::*;

use rand::{RngCore, SeedableRng};
use rand_chacha::ChaCha20Rng;

verus! {

/// The `len` bytes that ChaCha20 seeded with `seed` yields from the 32-bit
/// word offset `word_pos` of its stream.
pub uninterp spec fn chacha20_keystream(seed: Seq<u8>, word_pos: int, len: int) -> Seq<u8>;

/// Relies on `rand_chacha::ChaCha20Rng`: `from_seed`, then `set_word_pos`, then
/// `fill_bytes` fill the buffer with bytes that depend on the seed, the word
/// offset and the length alone.
#[verifier::external_body]
fn chacha20_fill(seed: [u8; 32], word_pos: u128, len: usize) -> (r: Vec<u8>)
    ensures
        r@ == chacha20_keystream(seed@, word_pos as int, len as int),
        r@.len() == len,
{
    let mut gen = ChaCha20Rng::from_seed(seed);
    gen.set_word_pos(word_pos);
    let mut out = vec![0u8; len];
    gen.fill_bytes(&mut out);
    out
}

/// The number of 32-bit words that a draw of `len` bytes takes from the stream.
pub open spec fn words_for(len: nat) -> nat {
    (len + 3) / 4
}

/// The outputs of successive draws of these lengths from the stream of `seed`,
/// starting at the word offset `word_pos`.
pub open spec fn draws(seed: Seq<u8>, word_pos: nat, lens: Seq<nat>) -> Seq<Seq<u8>>
    decreases lens.len(),
{
    if lens.len() == 0 {
        Seq::empty()
    } else {
        seq![chacha20_keystream(seed, word_pos as int, lens[0] as int)] + draws(
            seed,
            word_pos + words_for(lens[0]),
            lens.drop_first(),
        )
    }
}

/// A cryptographically secure generator expanded from a 32-byte seed: its
/// output is the ChaCha20 stream of the seed, read from a word offset that
/// each draw moves forward.
#[derive(Debug)]
pub struct SeededRng {
    seed: [u8; 32],
    word_pos: u128,
}

impl SeededRng {
    /// The seed that the stream is expanded from.
    pub closed spec fn seed(&self) -> Seq<u8> {
        self.seed@
    }

    /// The offset, in 32-bit words, of the next draw in the stream.
    pub closed spec fn word_pos(&self) -> nat {
        self.word_pos as nat
    }

    /// A generator at the start of the stream of `seed`.
    pub fn from_seed(seed: [u8; 32]) -> (r: SeededRng)
        ensures
            r.seed() == seed@,
            r.word_pos() == 0,
    {
        SeededRng { seed, word_pos: 0 }
    }

    /// The offset, in 32-bit words, of the next draw in the stream.
    pub fn position(&self) -> (r: u128)
        ensures
            r == self.word_pos(),
    {
        self.word_pos
    }

    /// The next `len` bytes of the stream.
    pub fn next_bytes(&mut self, len: usize) -> (r: Vec<u8>)
        requires
            old(self).word_pos() + words_for(len as nat) <= u128::MAX,
        ensures
            r@ == chacha20_keystream(old(self).seed(), old(self).word_pos() as int, len as int),
            r@.len() == len,
            final(self).seed() == old(self).seed(),
            final(self).word_pos() == old(self).word_pos() + words_for(len as nat),
    {
        let r = chacha20_fill(self.seed, self.word_pos, len);
        let words: u128 = (len as u128 + 3) / 4;
        self.word_pos = self.word_pos + words;
        r
    }
}

/// Two generators at the same seed and offset yield the same outputs for any
/// sequence of draws; in particular two generators made by `from_seed` with
/// the same seed do.
pub proof fn lemma_seed_determines_stream(g1: SeededRng, g2: SeededRng, lens: Seq<nat>)
    requires
        g1.seed() == g2.seed(),
        g1.word_pos() == g2.word_pos(),
    ensures
        draws(g1.seed(), g1.word_pos(), lens) == draws(g2.seed(), g2.word_pos(), lens),
{
}

/// Each draw of `next_bytes` yields the next element of `draws`, and the
/// generator moves to where the rest of `draws` begins.
pub proof fn lemma_draws_unfold(seed: Seq<u8>, word_pos: nat, lens: Seq<nat>)
    requires
        lens.len() > 0,
    ensures
        draws(seed, word_pos, lens)[0] == chacha20_keystream(seed, word_pos as int, lens[0] as int),
        draws(seed, word_pos, lens).drop_first() == draws(seed, word_pos + words_for(lens[0]), lens.drop_first()),
{
    let d = draws(seed, word_pos, lens);
    let rest = draws(seed, word_pos + words_for(lens[0]), lens.drop_first());
    assert(d.drop_first() =~= rest);
}

} // verus!

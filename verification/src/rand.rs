//! RNG utilities:
//! - A reseeding CSPRNG ([`ReseedingRng`], [`reseeding_csprng`]) on top of `rand_chacha`,
//!   a good default for the crypto backends, especially on baremetal
//! - An adaptor which carries an RNG from one version of the RNG traits to another ([`RngAdaptor`])
use vstd::prelude::*;

use rand_chacha::ChaCha12Rng;

pub use reseeding::ReseedingRng;

pub mod reseeding;

verus! {

/// The ChaCha generator with 12 rounds.
#[verifier::external_type_specification]
#[verifier::external_body]
pub struct ExChaCha12Rng(rand_chacha::ChaCha12Rng);

/// What determines every output of a ChaCha generator, and what its `get_seed`, `get_stream` and
/// `get_word_pos` give: its seed, its stream number and its position in that stream, in 32-bit
/// words.
pub uninterp spec fn chacha12_state(rng: ChaCha12Rng) -> (Seq<u8>, u64, u128);

/// The 32-bit word at a position of a stream of the ChaCha generator with 12 rounds.
pub uninterp spec fn chacha12_word(seed: Seq<u8>, stream: u64, word_pos: int) -> u32;

/// The number of words in a stream, after which it cycles.
pub open spec fn stream_words() -> int {
    0x10_0000_0000_0000_0000
}

/// `rng` was seeded with `seed` and has drawn `word_pos` words since.
pub open spec fn chacha12_at(rng: ChaCha12Rng, seed: Seq<u8>, word_pos: int) -> bool {
    chacha12_state(rng) == (seed, 0u64, word_pos as u128)
}

/// Byte `i` of the little-endian form of `word`.
pub open spec fn le_byte(word: u32, i: int) -> u8 {
    if i == 0 {
        (word % 256) as u8
    } else if i == 1 {
        (word / 256 % 256) as u8
    } else if i == 2 {
        (word / 65536 % 256) as u8
    } else {
        (word / 16777216) as u8
    }
}

/// `rand_core::SeedableRng::from_seed` of the ChaCha generator with 12 rounds: the generator
/// stands at the start of stream 0 of the seed.
#[verifier::external_body]
fn chacha12_from_seed(seed: [u8; 32]) -> (r: ChaCha12Rng)
    ensures
        chacha12_state(r) == (seed@, 0u64, 0u128),
{
    rand_core::SeedableRng::from_seed(seed)
}

/// `rand_core::Rng::next_u32` of the ChaCha generator with 12 rounds: the word at the position of
/// the generator, which moves on by one word. Nothing is said of the end of the stream.
#[verifier::external_body]
fn chacha12_next_u32(rng: &mut ChaCha12Rng) -> (r: u32)
    ensures
        ({
            let (seed, stream, pos) = chacha12_state(*old(rng));
            pos + 1 < stream_words() ==> {
                &&& r == chacha12_word(seed, stream, pos as int)
                &&& chacha12_state(*final(rng)) == (seed, stream, (pos + 1) as u128)
            }
        }),
{
    rand_core::Rng::next_u32(rng)
}

/// `rand_core::Rng::next_u64` of the ChaCha generator with 12 rounds: the two words at the
/// position of the generator, the first one as the low half. The generator moves on by two words.
/// Nothing is said of the end of the stream.
#[verifier::external_body]
fn chacha12_next_u64(rng: &mut ChaCha12Rng) -> (r: u64)
    ensures
        ({
            let (seed, stream, pos) = chacha12_state(*old(rng));
            pos + 2 < stream_words() ==> {
                &&& r == chacha12_word(seed, stream, pos as int) + chacha12_word(
                    seed,
                    stream,
                    pos + 1,
                ) * 0x1_0000_0000
                &&& chacha12_state(*final(rng)) == (seed, stream, (pos + 2) as u128)
            }
        }),
{
    rand_core::Rng::next_u64(rng)
}

/// `rand_core::Rng::fill_bytes` of the ChaCha generator with 12 rounds: the bytes of the words
/// from the position of the generator on, each word in little-endian form. The generator moves on
/// by these words; what is not used of the last one is lost. Nothing is said of the end of the
/// stream.
#[verifier::external_body]
fn chacha12_fill_bytes(rng: &mut ChaCha12Rng, dest: &mut [u8])
    ensures
        final(dest)@.len() == old(dest)@.len(),
        ({
            let (seed, stream, pos) = chacha12_state(*old(rng));
            let words = (old(dest)@.len() + 3) / 4;
            pos + words < stream_words() ==> {
                &&& forall|i: int|
                    0 <= i < old(dest)@.len() ==> #[trigger] final(dest)@[i] == le_byte(
                        chacha12_word(seed, stream, pos + i / 4),
                        i % 4,
                    )
                &&& chacha12_state(*final(rng)) == (seed, stream, (pos + words) as u128)
            }
        }),
{
    rand_core::Rng::fill_bytes(rng, dest)
}

/// `entropy` can be called on an entropy source in the state `before`.
pub open spec fn can_draw<T, E, F: FnOnce(&mut T) -> Result<[u8; 32], E>>(
    entropy: F,
    before: T,
) -> bool {
    forall|s: &mut T| *s == before ==> #[trigger] call_requires(entropy, (s,))
}

/// `r` is the ChaCha generator at the start of the stream of the seed that was drawn, or the
/// failure to draw one.
pub open spec fn is_seeded<E>(r: Result<ChaCha12Rng, E>, drawn: Result<[u8; 32], E>) -> bool {
    match drawn {
        Ok(seed) => r is Ok && chacha12_at(r->Ok_0, seed@, 0),
        Err(e) => r == Err::<ChaCha12Rng, E>(e),
    }
}

/// Create a ChaCha generator out of a seed which `entropy` draws from `trng`.
pub fn try_from_rng<T, E, F: FnOnce(&mut T) -> Result<[u8; 32], E>>(
    trng: &mut T,
    entropy: F,
) -> (r: Result<ChaCha12Rng, E>)
    requires
        can_draw(entropy, *old(trng)),
    ensures
        exists|s: &mut T, drawn: Result<[u8; 32], E>| #[trigger]
            call_ensures(entropy, (s,), drawn) && *s == *old(trng) && *final(s) == *final(trng)
                && is_seeded(r, drawn) && match drawn {
                Ok(seed) => r is Ok && chacha12_state(r->Ok_0) == (seed@, 0u64, 0u128),
                Err(e) => r == Err::<ChaCha12Rng, E>(e),
            },
{
    match entropy(trng) {
        Ok(seed) => Ok(chacha12_from_seed(seed)),
        Err(e) => Err(e),
    }
}

/// Create a reseeding CSPRNG using ChaCha12 as the underlying PRNG.
/// A good default as an argument to the various crypto backends, especially in baremetal
/// environments.
///
/// # Arguments
/// - `trng`: The true random number generator to use for reseeding.
/// - `reseed_threshold`: The number of bytes to generate before reseeding; 0 means "never reseed".
/// - `entropy`: Draws a seed from `trng`.
///
/// # Returns
/// The reseeding RNG, or an error if the underlying TRNG failed to provide the initial seed.
pub fn reseeding_csprng<T, E, F: FnOnce(&mut T) -> Result<[u8; 32], E>>(
    trng: T,
    reseed_threshold: u64,
    entropy: F,
) -> (r: Result<ReseedingRng<ChaCha12Rng, T>, E>)
    requires
        can_draw(entropy, trng),
    ensures
        exists|s: &mut T, drawn: Result<[u8; 32], E>| #[trigger]
            call_ensures(entropy, (s,), drawn) && *s == trng && match drawn {
                Ok(seed) => {
                    &&& r is Ok
                    &&& r->Ok_0.wf()
                    &&& chacha12_at(r->Ok_0.inner(), seed@, 0)
                    &&& r->Ok_0.reseeder() == *final(s)
                    &&& r->Ok_0.periodic() == (reseed_threshold != 0)
                    &&& r->Ok_0.threshold() == reseeding::effective_threshold(reseed_threshold)
                    &&& r->Ok_0.left() == reseeding::effective_threshold(reseed_threshold)
                    &&& chacha12_state(r->Ok_0.inner()) == (seed@, 0u64, 0u128)
                    &&& 0 < reseed_threshold <= i64::MAX ==> r->Ok_0.threshold()
                        == reseed_threshold && r->Ok_0.left() == reseed_threshold
                    &&& reseed_threshold == 0 || i64::MAX < reseed_threshold
                        ==> r->Ok_0.threshold() == i64::MAX && r->Ok_0.left() == i64::MAX
                },
                Err(e) => r == Err::<ReseedingRng<ChaCha12Rng, T>, E>(e),
            },
{
    let seed = |s: &mut T| -> (x: Result<ChaCha12Rng, E>)
        requires
            can_draw(entropy, *s),
        ensures
            exists|t: &mut T, drawn: Result<[u8; 32], E>| #[trigger]
                call_ensures(entropy, (t,), drawn) && *t == *old(s) && *final(t) == *final(s)
                    && is_seeded(x, drawn),
    { try_from_rng(s, entropy) };
    ReseedingRng::new(reseed_threshold, trng, seed)
}

/// The state from which a ChaCha generator goes on after a seed was drawn for it, or after that
/// failed.
pub open spec fn state_after<E>(kept: ChaCha12Rng, drawn: Result<[u8; 32], E>) -> (
    Seq<u8>,
    u64,
    u128,
) {
    match drawn {
        Ok(seed) => (seed@, 0u64, 0u128),
        Err(_) => chacha12_state(kept),
    }
}

/// A generator in the state `before` gives the word `r` and is then in the state `after`.
pub open spec fn gives_u32(
    before: (Seq<u8>, u64, u128),
    after: (Seq<u8>, u64, u128),
    r: u32,
) -> bool {
    before.2 + 1 < stream_words() ==> {
        &&& r == chacha12_word(before.0, before.1, before.2 as int)
        &&& after == (before.0, before.1, (before.2 + 1) as u128)
    }
}

/// A generator in the state `before` gives two words, the first one as the low half of `r`, and
/// is then in the state `after`.
pub open spec fn gives_u64(
    before: (Seq<u8>, u64, u128),
    after: (Seq<u8>, u64, u128),
    r: u64,
) -> bool {
    before.2 + 2 < stream_words() ==> {
        &&& r == chacha12_word(before.0, before.1, before.2 as int) + chacha12_word(
            before.0,
            before.1,
            before.2 + 1,
        ) * 0x1_0000_0000
        &&& after == (before.0, before.1, (before.2 + 2) as u128)
    }
}

/// A generator in the state `before` gives the bytes `r`, those of its next words in little-endian
/// form, and is then in the state `after`.
pub open spec fn gives_bytes(
    before: (Seq<u8>, u64, u128),
    after: (Seq<u8>, u64, u128),
    r: Seq<u8>,
) -> bool {
    let words = (r.len() + 3) / 4;
    before.2 + words < stream_words() ==> {
        &&& forall|i: int|
            0 <= i < r.len() ==> #[trigger] r[i] == le_byte(
                chacha12_word(before.0, before.1, before.2 + i / 4),
                i % 4,
            )
        &&& after == (before.0, before.1, (before.2 + words) as u128)
    }
}

/// A `u64` of a generator is what two `u32` of it make up, the first one as the low half, and
/// leaves it where these do.
pub proof fn lemma_u64_is_two_u32(
    start: (Seq<u8>, u64, u128),
    middle: (Seq<u8>, u64, u128),
    end: (Seq<u8>, u64, u128),
    low: u32,
    high: u32,
    end64: (Seq<u8>, u64, u128),
    r: u64,
)
    requires
        start.2 + 2 < 0x10_0000_0000_0000_0000,
        gives_u32(start, middle, low),
        gives_u32(middle, end, high),
        gives_u64(start, end64, r),
    ensures
        r == low + high * 0x1_0000_0000,
        end64 == end,
{
}

/// Four bytes of a generator are those of a `u32` of it, the lowest one first, and leave it where
/// that does.
pub proof fn lemma_four_bytes_are_a_u32(
    start: (Seq<u8>, u64, u128),
    end: (Seq<u8>, u64, u128),
    word: u32,
    end_bytes: (Seq<u8>, u64, u128),
    bytes: Seq<u8>,
)
    requires
        start.2 + 1 < 0x10_0000_0000_0000_0000,
        bytes.len() == 4,
        gives_u32(start, end, word),
        gives_bytes(start, end_bytes, bytes),
    ensures
        word == bytes[0] + bytes[1] * 256 + bytes[2] * 65536 + bytes[3] * 16777216,
        end_bytes == end,
{
}

/// Bytes of a generator, however many, are those of as many `u32` as it takes, drawn one after
/// another from the same state, each with its lowest byte first, and leave the generator where
/// these do.
pub proof fn lemma_bytes_are_successive_u32(
    states: Seq<(Seq<u8>, u64, u128)>,
    words: Seq<u32>,
    end_bytes: (Seq<u8>, u64, u128),
    bytes: Seq<u8>,
)
    requires
        words.len() == (bytes.len() + 3) / 4,
        states.len() == words.len() + 1,
        states[0].2 + words.len() < 0x10_0000_0000_0000_0000,
        forall|k: int|
            0 <= k < words.len() ==> gives_u32(
                #[trigger] states[k],
                states[k + 1],
                words[k],
            ),
        gives_bytes(states[0], end_bytes, bytes),
    ensures
        end_bytes == states[words.len() as int],
        forall|i: int|
            0 <= i < bytes.len() ==> #[trigger] bytes[i] as int == words[i / 4] as int / (if i % 4
                == 0 {
                1int
            } else if i % 4 == 1 {
                0x100
            } else if i % 4 == 2 {
                0x1_0000
            } else {
                0x100_0000
            }) % 0x100,
{
    lemma_successive_u32(states, words, words.len() as int);
    assert forall|i: int| 0 <= i < bytes.len() implies #[trigger] bytes[i] as int == words[i / 4]
        as int / (if i % 4 == 0 {
        1int
    } else if i % 4 == 1 {
        0x100
    } else if i % 4 == 2 {
        0x1_0000
    } else {
        0x100_0000
    }) % 0x100 by {
        let k = i / 4;
        lemma_successive_u32(states, words, k);
        assert(gives_u32(states[k], states[k + 1], words[k]));
    }
}

/// A generator that has drawn `n` words stands `n` words further.
proof fn lemma_successive_u32(states: Seq<(Seq<u8>, u64, u128)>, words: Seq<u32>, n: int)
    requires
        0 <= n <= words.len(),
        states.len() == words.len() + 1,
        states[0].2 + words.len() < 0x10_0000_0000_0000_0000,
        forall|k: int|
            0 <= k < words.len() ==> gives_u32(
                #[trigger] states[k],
                states[k + 1],
                words[k],
            ),
    ensures
        states[n] == (states[0].0, states[0].1, (states[0].2 + n) as u128),
    decreases n,
{
    if n > 0 {
        lemma_successive_u32(states, words, n - 1);
        assert(gives_u32(states[n - 1], states[n - 1 + 1], words[n - 1]));
    }
}

/// A generator that gives a word at one state gives the same word, and goes on from the same
/// state, whenever it stands there again.
pub proof fn lemma_outputs_depend_on_the_state_alone(
    start: (Seq<u8>, u64, u128),
    end: (Seq<u8>, u64, u128),
    word: u32,
    end_again: (Seq<u8>, u64, u128),
    word_again: u32,
)
    requires
        start.2 + 1 < 0x10_0000_0000_0000_0000,
        gives_u32(start, end, word),
        gives_u32(start, end_again, word_again),
    ensures
        word == word_again,
        end == end_again,
        end == (start.0, start.1, (start.2 + 1) as u128),
{
}

impl<T> ReseedingRng<ChaCha12Rng, T> {
    /// Account for `num_bytes` about to be generated, first reseeding with what `entropy` draws if
    /// the threshold was reached.
    fn before_draw<E, F: FnOnce(&mut T) -> Result<[u8; 32], E>>(
        &mut self,
        num_bytes: usize,
        entropy: F,
    )
        requires
            old(self).wf(),
            num_bytes <= i64::MAX,
            old(self).due() ==> can_draw(entropy, old(self).reseeder()),
        ensures
            final(self).counted(old(self), num_bytes as int),
            !old(self).due() ==> final(self).kept(old(self)),
            old(self).due() ==> exists|s: &mut T, drawn: Result<[u8; 32], E>|
                {
                    &&& #[trigger] call_ensures(entropy, (s,), drawn)
                    &&& *s == old(self).reseeder()
                    &&& *final(s) == final(self).reseeder()
                    &&& chacha12_state(final(self).inner()) == state_after(old(self).inner(), drawn)
                },
    {
        let seed = |s: &mut T| -> (x: Result<ChaCha12Rng, E>)
            requires
                can_draw(entropy, *s),
            ensures
                exists|t: &mut T, drawn: Result<[u8; 32], E>| #[trigger]
                    call_ensures(entropy, (t,), drawn) && *t == *old(s) && *final(t) == *final(s)
                        && is_seeded(x, drawn),
        { try_from_rng(s, entropy) };
        self.before_generate(num_bytes, seed);
    }

    /// Generate a `u32`, first reseeding with what `entropy` draws if the threshold was reached.
    pub fn next_u32<E, F: FnOnce(&mut T) -> Result<[u8; 32], E>>(&mut self, entropy: F) -> (r: u32)
        requires
            old(self).wf(),
            old(self).due() ==> can_draw(entropy, old(self).reseeder()),
        ensures
            final(self).counted(old(self), 4),
            final(self).left() == (if old(self).left() <= 0 {
                old(self).threshold()
            } else {
                old(self).left()
            }) - (if old(self).periodic() {
                4int
            } else {
                0
            }),
            final(self).threshold() == old(self).threshold(),
            final(self).periodic() == old(self).periodic(),
            0 < old(self).left() ==> final(self).reseeder() == old(self).reseeder() && {
                let (seed, stream, pos) = chacha12_state(old(self).inner());
                pos + 1 < 0x10_0000_0000_0000_0000 ==> r == chacha12_word(seed, stream, pos as int)
                    && chacha12_state(final(self).inner()) == (seed, stream, (pos + 1) as u128)
            },
            old(self).left() <= 0 ==> exists|s: &mut T, drawn: Result<[u8; 32], E>|
                {
                    let (seed, stream, pos) = match drawn {
                        Ok(seed) => (seed@, 0u64, 0u128),
                        Err(_) => chacha12_state(old(self).inner()),
                    };
                    &&& #[trigger] call_ensures(entropy, (s,), drawn)
                    &&& *s == old(self).reseeder()
                    &&& *final(s) == final(self).reseeder()
                    &&& pos + 1 < 0x10_0000_0000_0000_0000 ==> r == chacha12_word(seed, stream, pos as int)
                    && chacha12_state(final(self).inner()) == (seed, stream, (pos + 1) as u128)
                },
            !old(self).due() ==> {
                &&& final(self).reseeder() == old(self).reseeder()
                &&& gives_u32(chacha12_state(old(self).inner()), chacha12_state(final(self).inner()), r)
            },
            old(self).due() ==> exists|s: &mut T, drawn: Result<[u8; 32], E>|
                {
                    &&& #[trigger] call_ensures(entropy, (s,), drawn)
                    &&& *s == old(self).reseeder()
                    &&& *final(s) == final(self).reseeder()
                    &&& gives_u32(
                        state_after(old(self).inner(), drawn),
                        chacha12_state(final(self).inner()),
                        r,
                    )
                },
    {
        self.before_draw(4, entropy);
        chacha12_next_u32(self.inner_mut())
    }

    /// Generate a `u64`, first reseeding with what `entropy` draws if the threshold was reached.
    pub fn next_u64<E, F: FnOnce(&mut T) -> Result<[u8; 32], E>>(&mut self, entropy: F) -> (r: u64)
        requires
            old(self).wf(),
            old(self).due() ==> can_draw(entropy, old(self).reseeder()),
        ensures
            final(self).counted(old(self), 8),
            final(self).left() == (if old(self).left() <= 0 {
                old(self).threshold()
            } else {
                old(self).left()
            }) - (if old(self).periodic() {
                8int
            } else {
                0
            }),
            final(self).threshold() == old(self).threshold(),
            final(self).periodic() == old(self).periodic(),
            0 < old(self).left() ==> final(self).reseeder() == old(self).reseeder() && {
                let (seed, stream, pos) = chacha12_state(old(self).inner());
                pos + 2 < 0x10_0000_0000_0000_0000 ==> r == chacha12_word(seed, stream, pos as int) + 0x1_0000_0000
                    * chacha12_word(seed, stream, pos + 1) && chacha12_state(final(self).inner())
                    == (seed, stream, (pos + 2) as u128)
            },
            old(self).left() <= 0 ==> exists|s: &mut T, drawn: Result<[u8; 32], E>|
                {
                    let (seed, stream, pos) = match drawn {
                        Ok(seed) => (seed@, 0u64, 0u128),
                        Err(_) => chacha12_state(old(self).inner()),
                    };
                    &&& #[trigger] call_ensures(entropy, (s,), drawn)
                    &&& *s == old(self).reseeder()
                    &&& *final(s) == final(self).reseeder()
                    &&& pos + 2 < 0x10_0000_0000_0000_0000 ==> r == chacha12_word(seed, stream, pos as int) + 0x1_0000_0000
                    * chacha12_word(seed, stream, pos + 1) && chacha12_state(final(self).inner())
                    == (seed, stream, (pos + 2) as u128)
                },
            !old(self).due() ==> {
                &&& final(self).reseeder() == old(self).reseeder()
                &&& gives_u64(chacha12_state(old(self).inner()), chacha12_state(final(self).inner()), r)
            },
            old(self).due() ==> exists|s: &mut T, drawn: Result<[u8; 32], E>|
                {
                    &&& #[trigger] call_ensures(entropy, (s,), drawn)
                    &&& *s == old(self).reseeder()
                    &&& *final(s) == final(self).reseeder()
                    &&& gives_u64(
                        state_after(old(self).inner(), drawn),
                        chacha12_state(final(self).inner()),
                        r,
                    )
                },
    {
        self.before_draw(8, entropy);
        chacha12_next_u64(self.inner_mut())
    }

    /// Fill `dest`, first reseeding with what `entropy` draws if the threshold was reached.
    pub fn fill_bytes<E, F: FnOnce(&mut T) -> Result<[u8; 32], E>>(
        &mut self,
        dest: &mut [u8],
        entropy: F,
    )
        requires
            old(self).wf(),
            old(dest)@.len() <= i64::MAX,
            old(self).due() ==> can_draw(entropy, old(self).reseeder()),
        ensures
            final(self).counted(old(self), old(dest)@.len() as int),
            final(self).left() == (if old(self).left() <= 0 {
                old(self).threshold()
            } else {
                old(self).left()
            }) - (if old(self).periodic() {
                old(dest)@.len() as int
            } else {
                0
            }),
            final(self).threshold() == old(self).threshold(),
            final(self).periodic() == old(self).periodic(),
            0 < old(self).left() ==> final(self).reseeder() == old(self).reseeder() && {
                let (seed, stream, pos) = chacha12_state(old(self).inner());
                pos + (old(dest)@.len() + 3) / 4 < 0x10_0000_0000_0000_0000 ==> chacha12_state(final(self).inner())
                    == (seed, stream, (pos + (old(dest)@.len() + 3) / 4) as u128) && forall|i: int|
                    0 <= i < old(dest)@.len() ==> #[trigger] final(dest)@[i] as int
                        == chacha12_word(seed, stream, pos + i / 4) as int / (if i % 4 == 0 {
                        1int
                    } else if i % 4 == 1 {
                        0x100
                    } else if i % 4 == 2 {
                        0x1_0000
                    } else {
                        0x100_0000
                    }) % 0x100
            },
            old(self).left() <= 0 ==> exists|s: &mut T, drawn: Result<[u8; 32], E>|
                {
                    let (seed, stream, pos) = match drawn {
                        Ok(seed) => (seed@, 0u64, 0u128),
                        Err(_) => chacha12_state(old(self).inner()),
                    };
                    &&& #[trigger] call_ensures(entropy, (s,), drawn)
                    &&& *s == old(self).reseeder()
                    &&& *final(s) == final(self).reseeder()
                    &&& pos + (old(dest)@.len() + 3) / 4 < 0x10_0000_0000_0000_0000 ==> chacha12_state(final(self).inner())
                    == (seed, stream, (pos + (old(dest)@.len() + 3) / 4) as u128) && forall|i: int|
                    0 <= i < old(dest)@.len() ==> #[trigger] final(dest)@[i] as int
                        == chacha12_word(seed, stream, pos + i / 4) as int / (if i % 4 == 0 {
                        1int
                    } else if i % 4 == 1 {
                        0x100
                    } else if i % 4 == 2 {
                        0x1_0000
                    } else {
                        0x100_0000
                    }) % 0x100
                },
            final(dest)@.len() == old(dest)@.len(),
            !old(self).due() ==> {
                &&& final(self).reseeder() == old(self).reseeder()
                &&& gives_bytes(
                    chacha12_state(old(self).inner()),
                    chacha12_state(final(self).inner()),
                    final(dest)@,
                )
            },
            old(self).due() ==> exists|s: &mut T, drawn: Result<[u8; 32], E>|
                {
                    &&& #[trigger] call_ensures(entropy, (s,), drawn)
                    &&& *s == old(self).reseeder()
                    &&& *final(s) == final(self).reseeder()
                    &&& gives_bytes(
                        state_after(old(self).inner(), drawn),
                        chacha12_state(final(self).inner()),
                        final(dest)@,
                    )
                },
    {
        self.before_draw(dest.len(), entropy);
        chacha12_fill_bytes(self.inner_mut(), dest);
    }
}

/// An adaptor that carries an RNG from one version of the RNG traits to another.
pub struct RngAdaptor<T>(T);

impl<T> RngAdaptor<T> {
    /// The wrapped RNG.
    pub closed spec fn inner(&self) -> T {
        self.0
    }

    /// Create a new `RngAdaptor` instance wrapping the provided RNG.
    pub fn new(rng: T) -> (r: Self)
        ensures
            r.inner() == rng,
    {
        RngAdaptor(rng)
    }

    /// Unwrap the adaptor, returning the wrapped RNG.
    pub fn into_inner(self) -> (r: T)
        ensures
            r == self.inner(),
    {
        self.0
    }

    /// Borrow the wrapped RNG.
    pub fn inner_mut(&mut self) -> (r: &mut T)
        ensures
            *r == old(self).inner(),
            final(self).inner() == *final(r),
    {
        &mut self.0
    }
}

} // verus!

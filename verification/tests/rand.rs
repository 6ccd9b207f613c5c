use matter_stack::rand::{reseeding_csprng, try_from_rng, ReseedingRng, RngAdaptor};
use rand_chacha::ChaCha12Rng;
use rand_core::{Rng, SeedableRng};

/// An entropy source: each seed is filled with the number of seeds drawn so far.
#[derive(Clone)]
struct Trng {
    drawn: u8,
    failing: bool,
}

fn trng() -> Trng {
    Trng { drawn: 0, failing: false }
}

fn entropy(t: &mut Trng) -> Result<[u8; 32], &'static str> {
    if t.failing {
        return Err("no entropy");
    }
    t.drawn += 1;
    Ok([t.drawn; 32])
}

fn chacha(seed: u8) -> ChaCha12Rng {
    ChaCha12Rng::from_seed([seed; 32])
}

#[test]
fn words_are_those_of_the_seeded_generator() {
    let mut rng = reseeding_csprng(trng(), 0, entropy).ok().unwrap();
    let mut expected = chacha(1);
    for _ in 0..200 {
        assert_eq!(rng.next_u32(entropy), expected.next_u32());
    }
    for _ in 0..200 {
        assert_eq!(rng.next_u64(entropy), expected.next_u64());
    }
}

#[test]
fn u64_is_two_u32_low_half_first() {
    // 63 words in, a `u64` spans two blocks of the generator
    for skipped in [0, 1, 15, 63, 64, 127] {
        let mut a = reseeding_csprng(trng(), 0, entropy).ok().unwrap();
        let mut b = reseeding_csprng(trng(), 0, entropy).ok().unwrap();
        for _ in 0..skipped {
            assert_eq!(a.next_u32(entropy), b.next_u32(entropy));
        }
        let wide = a.next_u64(entropy);
        let low = b.next_u32(entropy) as u64;
        let high = b.next_u32(entropy) as u64;
        assert_eq!(wide, low + (high << 32));
        assert_eq!(a.next_u32(entropy), b.next_u32(entropy));
    }
}

#[test]
fn bytes_are_those_of_words_and_the_rest_of_the_last_word_is_lost() {
    for len in [0usize, 1, 3, 4, 5, 32, 255, 256, 257, 1000] {
        let mut a = reseeding_csprng(trng(), 0, entropy).ok().unwrap();
        let mut b = reseeding_csprng(trng(), 0, entropy).ok().unwrap();
        let first = a.next_u32(entropy);
        assert_eq!(first, b.next_u32(entropy));
        let mut bytes = vec![0u8; len];
        a.fill_bytes(&mut bytes, entropy);
        let mut expected = Vec::new();
        while expected.len() < len {
            expected.extend_from_slice(&b.next_u32(entropy).to_le_bytes());
        }
        expected.truncate(len);
        assert_eq!(bytes, expected);
        assert_eq!(a.next_u32(entropy), b.next_u32(entropy));
    }
}

#[test]
fn first_word_depends_on_the_seed() {
    let mut seeded = try_from_rng(&mut trng(), entropy).ok().unwrap();
    assert_eq!(seeded.next_u32(), chacha(1).next_u32());
    assert_ne!(chacha(1).next_u32(), chacha(2).next_u32());
}

#[test]
fn reseeds_once_the_threshold_is_reached() {
    let mut rng = reseeding_csprng(trng(), 8, entropy).ok().unwrap();
    let mut first = chacha(1);
    let mut second = chacha(2);
    assert_eq!(rng.next_u32(entropy), first.next_u32());
    // The threshold is not reached yet, though this request goes past it
    assert_eq!(rng.next_u64(entropy), first.next_u64());
    assert_eq!(rng.next_u32(entropy), second.next_u32());
    assert_eq!(rng.next_u32(entropy), second.next_u32());
    assert_eq!(rng.next_u32(entropy), chacha(3).next_u32());
}

#[test]
fn never_reseeds_with_a_threshold_of_zero() {
    let mut rng = reseeding_csprng(trng(), 0, entropy).ok().unwrap();
    let mut expected = chacha(1);
    let mut bytes = vec![0u8; 4096];
    let mut expected_bytes = vec![0u8; 4096];
    for _ in 0..64 {
        rng.fill_bytes(&mut bytes, entropy);
        expected.fill_bytes(&mut expected_bytes);
        assert_eq!(bytes, expected_bytes);
    }
}

#[test]
fn goes_on_when_reseeding_fails_and_retries_later() {
    let mut rng = reseeding_csprng(trng(), 4, entropy).ok().unwrap();
    let mut first = chacha(1);
    assert_eq!(rng.next_u32(entropy), first.next_u32());
    let failing = |_: &mut Trng| -> Result<[u8; 32], &'static str> { Err("no entropy") };
    assert_eq!(rng.next_u32(failing), first.next_u32());
    assert_eq!(rng.next_u32(entropy), chacha(2).next_u32());
}

#[test]
fn reports_a_failure_of_the_initial_seed() {
    let source = Trng { drawn: 0, failing: true };
    assert_eq!(reseeding_csprng(source, 16, entropy).err(), Some("no entropy"));
    let mut source = Trng { drawn: 0, failing: true };
    assert_eq!(try_from_rng(&mut source, entropy).err(), Some("no entropy"));
}

/// A generator that counts up, seeded by a counter that goes up by 100.
fn counter(start: &mut u64) -> Result<u64, u8> {
    *start += 100;
    Ok(*start)
}

fn count(inner: &mut u64) -> Result<u32, u8> {
    *inner += 1;
    Ok(*inner as u32)
}

fn count_wide(inner: &mut u64) -> Result<u64, u8> {
    *inner += 1;
    Ok(*inner)
}

#[test]
fn manual_reseed_restarts_the_count() {
    let mut rng = ReseedingRng::new(8, 0u64, counter).ok().unwrap();
    assert_eq!(rng.try_next_u32(counter, count), Ok(101));
    assert_eq!(rng.reseed(counter), Ok(()));
    assert_eq!(rng.try_next_u32(counter, count), Ok(201));
    assert_eq!(rng.try_next_u32(counter, count), Ok(202));
    assert_eq!(rng.try_next_u64(counter, count_wide), Ok(301));
    assert_eq!(rng.reseed(|_: &mut u64| Err::<u64, u8>(7)), Err(7));
    assert_eq!(rng.try_next_u32(counter, count), Ok(401));
}

#[test]
fn clone_is_reseeded_on_first_use() {
    let mut rng = ReseedingRng::new(1000, 0u64, counter).ok().unwrap();
    assert_eq!(rng.try_next_u32(counter, count), Ok(101));
    let mut clone = rng.clone();
    assert_eq!(clone.try_next_u32(counter, count), Ok(201));
    assert_eq!(rng.try_next_u32(counter, count), Ok(102));
}

#[test]
fn failure_to_generate_is_handed_on() {
    let mut rng = ReseedingRng::new(8, 0u64, counter).ok().unwrap();
    assert_eq!(rng.try_next_u32(counter, |_: &mut u64| Err::<u32, u8>(9)), Err(9));
    let mut bytes = [0u8; 3];
    let fill = |inner: &mut u64, dest: &mut [u8]| -> Result<(), u8> {
        *inner += 1;
        dest[0] = *inner as u8;
        Ok(())
    };
    assert_eq!(rng.try_fill_bytes(&mut bytes, counter, fill), Ok(()));
    assert_eq!(bytes, [101, 0, 0]);
}

#[test]
fn counts_the_bytes_of_each_request() {
    let mut rng = ReseedingRng::new(10, 0u64, counter).ok().unwrap();
    rng.before_generate(9, counter);
    rng.before_generate(1, counter);
    assert_eq!(rng.try_next_u32(counter, count), Ok(201));
    rng.reseed_at_threshold(counter);
    assert_eq!(rng.try_next_u32(counter, count), Ok(301));
}

#[test]
fn adaptor_hands_back_the_generator() {
    let mut adaptor = RngAdaptor::new(chacha(5));
    assert_eq!(adaptor.inner_mut().next_u32(), chacha(5).next_u32());
    let mut expected = chacha(5);
    expected.next_u32();
    assert_eq!(adaptor.into_inner().next_u32(), expected.next_u32());
}

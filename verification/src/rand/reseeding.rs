//! A wrapper around another PRNG that reseeds it after it
//! generates a certain number of random bytes.
use vstd::prelude::*;

verus! {

/// The value at which the count-down of a generator with the given threshold starts: the number of
/// bytes after which it is reseeded, as far as that can be counted. For the threshold 0 the
/// generator is never reseeded for the bytes that it has given, and the count-down stands still at
/// this value.
pub open spec fn effective_threshold(threshold: u64) -> int {
    if threshold == 0 || threshold > i64::MAX {
        i64::MAX as int
    } else {
        threshold as int
    }
}

/// The count-down to the next reseeding after `num_bytes` were generated at the count-down `left`.
///
/// A count-down that is used up starts again at the threshold. That of a generator which is never
/// reseeded periodically stands still.
pub open spec fn left_after(periodic: bool, threshold: int, left: int, num_bytes: int) -> int {
    let fresh = if left <= 0 {
        threshold
    } else {
        left
    };
    if periodic {
        fresh - num_bytes
    } else {
        fresh
    }
}

/// `seed` can be called on a reseeder in the state `before`.
pub open spec fn can_seed<R, Rsdr, E, F: FnOnce(&mut Rsdr) -> Result<R, E>>(
    seed: F,
    before: Rsdr,
) -> bool {
    forall|s: &mut Rsdr| *s == before ==> #[trigger] call_requires(seed, (s,))
}

/// A wrapper around any PRNG that adds the ability to reseed it.
///
/// `ReseedingRng` reseeds the underlying PRNG in the following cases:
///
/// - On a manual call to `reseed()`.
/// - After `clone()`, the clone will be reseeded on first use.
/// - After a specified number of bytes has been generated (the threshold).
///
/// When the threshold is reached and the reseeding operation fails, the PRNG keeps generating
/// from its current state; the reseeding is retried after the next threshold worth of bytes.
/// If you need to reseed the PRNG and be sure it happened, call `reseed()` directly.
///
/// Every method that may have to reseed takes `seed`, which makes a new PRNG out of the reseeder.
#[derive(Debug)]
pub struct ReseedingRng<R, Rsdr> {
    inner: R,
    reseeder: Rsdr,
    periodic: bool,
    threshold: i64,
    bytes_until_reseed: i64,
}

impl<R, Rsdr> ReseedingRng<R, Rsdr> {
    /// The PRNG in use.
    pub closed spec fn inner(&self) -> R {
        self.inner
    }

    /// The source of seeds.
    pub closed spec fn reseeder(&self) -> Rsdr {
        self.reseeder
    }

    /// Generated bytes count towards the next reseeding.
    pub closed spec fn periodic(&self) -> bool {
        self.periodic
    }

    /// The number of bytes between two reseedings.
    pub closed spec fn threshold(&self) -> int {
        self.threshold as int
    }

    /// The number of bytes that may still be generated before the PRNG is reseeded.
    pub closed spec fn left(&self) -> int {
        self.bytes_until_reseed as int
    }

    /// The PRNG is to be reseeded before it next generates.
    pub open spec fn due(&self) -> bool {
        self.left() <= 0
    }

    /// The count-down never exceeds the threshold, which is positive, and has not overflowed.
    pub open spec fn wf(&self) -> bool {
        &&& 0 < self.threshold()
        &&& i64::MIN < self.left() <= self.threshold() <= i64::MAX
    }

    /// Only the PRNG, the reseeder and the count-down may differ.
    pub open spec fn same_config(&self, other: &Self) -> bool {
        self.periodic() == other.periodic() && self.threshold() == other.threshold()
    }

    /// This is `before` after it was asked for `num_bytes` and counted them.
    pub open spec fn counted(&self, before: &Self, num_bytes: int) -> bool {
        &&& self.wf()
        &&& self.same_config(before)
        &&& self.left() == left_after(before.periodic(), before.threshold(), before.left(), num_bytes)
    }

    /// The PRNG in use once a reseeding has ended in `result`: the new one, or where the
    /// reseeding failed the same one as before.
    pub open spec fn in_use<E>(&self, result: Result<R, E>) -> R {
        match result {
            Ok(inner) => inner,
            Err(_) => self.inner(),
        }
    }

    /// This holds the PRNG that a reseeding of `before` gave, or that of `before` where the
    /// reseeding failed, and a reseeder in the state `after`.
    pub open spec fn took<E>(&self, before: &Self, after: Rsdr, result: Result<R, E>) -> bool {
        &&& self.reseeder() == after
        &&& self.inner() == before.in_use(result)
    }

    /// This holds the PRNG and the reseeder of `before`.
    pub open spec fn kept(&self, before: &Self) -> bool {
        self.inner() == before.inner() && self.reseeder() == before.reseeder()
    }

    /// Create a new `ReseedingRng` from a reseeder (a.k.a. TRNG), and the threshold - the number
    /// of bytes after which to reseed the PRNG.
    ///
    /// `threshold` of 0 means "never reseed".
    pub fn new<E, F: FnOnce(&mut Rsdr) -> Result<R, E>>(
        threshold: u64,
        mut reseeder: Rsdr,
        seed: F,
    ) -> (r: Result<Self, E>)
        requires
            can_seed(seed, reseeder),
        ensures
            exists|s: &mut Rsdr, result: Result<R, E>| #[trigger]
                call_ensures(seed, (s,), result) && *s == reseeder && match result {
                    Ok(inner) => {
                        &&& r is Ok
                        &&& r->Ok_0.wf()
                        &&& r->Ok_0.inner() == inner
                        &&& r->Ok_0.reseeder() == *final(s)
                        &&& r->Ok_0.periodic() == (threshold != 0)
                        &&& r->Ok_0.threshold() == effective_threshold(threshold)
                        &&& r->Ok_0.left() == effective_threshold(threshold)
                        &&& 0 < threshold <= i64::MAX ==> r->Ok_0.threshold() == threshold
                            && r->Ok_0.left() == threshold
                        &&& threshold == 0 || i64::MAX < threshold ==> r->Ok_0.threshold()
                            == i64::MAX && r->Ok_0.left() == i64::MAX
                    },
                    Err(e) => r == Err::<Self, E>(e),
                },
    {
        let periodic: bool = threshold != 0;
        let threshold: i64 = if threshold == 0 || threshold > i64::MAX as u64 {
            i64::MAX
        } else {
            threshold as i64
        };
        match seed(&mut reseeder) {
            Ok(inner) => Ok(
                ReseedingRng { inner, reseeder, periodic, threshold, bytes_until_reseed: threshold },
            ),
            Err(e) => Err(e),
        }
    }

    /// Immediately reseed the PRNG, and reset the bytes counter.
    pub fn reseed<E, F: FnOnce(&mut Rsdr) -> Result<R, E>>(&mut self, seed: F) -> (r: Result<(), E>)
        requires
            old(self).wf(),
            can_seed(seed, old(self).reseeder()),
        ensures
            final(self).wf(),
            final(self).same_config(old(self)),
            exists|s: &mut Rsdr, result: Result<R, E>| #[trigger]
                call_ensures(seed, (s,), result) && *s == old(self).reseeder() && final(self).took(
                    old(self),
                    *final(s),
                    result,
                ) && match result {
                    Ok(_) => r == Ok::<(), E>(()) && final(self).left() == final(self).threshold(),
                    Err(e) => r == Err::<(), E>(e) && final(self).left() == old(self).left(),
                } && *final(s) == final(self).reseeder() && match result {
                    Ok(inner) => final(self).inner() == inner && final(self).left() == old(self).threshold(),
                    Err(_) => final(self).inner() == old(self).inner(),
                },
            final(self).threshold() == old(self).threshold(),
            final(self).periodic() == old(self).periodic(),
    {
        match seed(&mut self.reseeder) {
            Ok(inner) => {
                self.inner = inner;
                self.bytes_until_reseed = self.threshold;
                Ok(())
            },
            Err(e) => Err(e),
        }
    }

    /// Borrow the PRNG.
    pub(crate) fn inner_mut(&mut self) -> (r: &mut R)
        ensures
            *r == old(self).inner(),
            final(self).inner() == *final(r),
            final(self).reseeder() == old(self).reseeder(),
            final(self).same_config(old(self)),
            final(self).left() == old(self).left(),
    {
        &mut self.inner
    }

    /// Account for `num_bytes` about to be generated, reseeding first if the threshold was reached.
    pub fn before_generate<E, F: FnOnce(&mut Rsdr) -> Result<R, E>>(
        &mut self,
        num_bytes: usize,
        seed: F,
    )
        requires
            old(self).wf(),
            num_bytes <= i64::MAX,
            old(self).due() ==> can_seed(seed, old(self).reseeder()),
        ensures
            final(self).counted(old(self), num_bytes as int),
            final(self).left() == (if old(self).left() <= 0 {
                old(self).threshold()
            } else {
                old(self).left()
            }) - (if old(self).periodic() {
                num_bytes as int
            } else {
                0
            }),
            final(self).threshold() == old(self).threshold(),
            final(self).periodic() == old(self).periodic(),
            0 < old(self).left() ==> final(self).inner() == old(self).inner() && final(self).reseeder() == old(self).reseeder(),
            old(self).left() <= 0 ==> exists|s: &mut Rsdr, result: Result<R, E>| #[trigger]
                call_ensures(seed, (s,), result) && *s == old(self).reseeder() && *final(s)
                    == final(self).reseeder() && match result {
                    Ok(inner) => final(self).inner() == inner,
                    Err(_) => final(self).inner() == old(self).inner(),
                },
            !old(self).due() ==> final(self).kept(old(self)),
            old(self).due() ==> exists|s: &mut Rsdr, result: Result<R, E>| #[trigger]
                call_ensures(seed, (s,), result) && *s == old(self).reseeder() && final(self).took(
                    old(self),
                    *final(s),
                    result,
                ),
    {
        if self.bytes_until_reseed <= 0 {
            self.reseed_at_threshold(seed);
        }
        if self.periodic {
            self.bytes_until_reseed = self.bytes_until_reseed - num_bytes as i64;
        }
    }

    /// Try to reseed the PRNG, and start the next threshold worth of bytes whether or not that
    /// succeeds.
    pub fn reseed_at_threshold<E, F: FnOnce(&mut Rsdr) -> Result<R, E>>(&mut self, seed: F)
        requires
            old(self).wf(),
            can_seed(seed, old(self).reseeder()),
        ensures
            final(self).wf(),
            final(self).same_config(old(self)),
            final(self).left() == final(self).threshold(),
            final(self).threshold() == old(self).threshold(),
            final(self).periodic() == old(self).periodic(),
            exists|s: &mut Rsdr, result: Result<R, E>| #[trigger]
                call_ensures(seed, (s,), result) && *s == old(self).reseeder() && final(self).took(
                    old(self),
                    *final(s),
                    result,
                ) && *final(s) == final(self).reseeder() && match result {
                    Ok(inner) => final(self).inner() == inner,
                    Err(_) => final(self).inner() == old(self).inner(),
                },
    {
        if self.reseed(seed).is_err() {
            // Retry after the next threshold worth of bytes
            self.bytes_until_reseed = self.threshold;
        }
    }

    /// Generate a `u32` with `draw`, reseeding first if the threshold was reached.
    pub fn try_next_u32<E, X, F: FnOnce(&mut Rsdr) -> Result<R, E>, G: FnOnce(&mut R) -> Result<u32, X>>(
        &mut self,
        seed: F,
        draw: G,
    ) -> (r: Result<u32, X>)
        requires
            old(self).wf(),
            old(self).due() ==> can_seed(seed, old(self).reseeder()),
            forall|g: &mut R| #[trigger] call_requires(draw, (g,)),
        ensures
            final(self).counted(old(self), 4),
            final(self).left() == (if old(self).left() <= 0 {
                old(self).threshold()
            } else {
                old(self).left()
            }) - (if old(self).periodic() {
                4int
            } else {
                0
            }),
            final(self).threshold() == old(self).threshold(),
            final(self).periodic() == old(self).periodic(),
            exists|g: &mut R|
                {
                    &&& #[trigger] call_ensures(draw, (g,), r)
                    &&& final(self).inner() == *final(g)
                    &&& !old(self).due() ==> *g == old(self).inner() && final(self).reseeder()
                        == old(self).reseeder()
                    &&& 0 < old(self).left() ==> *g == old(self).inner() && final(self).reseeder()
                        == old(self).reseeder()
                    &&& old(self).left() <= 0 ==> exists|s: &mut Rsdr, result: Result<R, E>|
                        {
                            &&& #[trigger] call_ensures(seed, (s,), result)
                            &&& *s == old(self).reseeder()
                            &&& *final(s) == final(self).reseeder()
                            &&& match result {
                                Ok(inner) => *g == inner,
                                Err(_) => *g == old(self).inner(),
                            }
                        }
                    &&& old(self).due() ==> exists|s: &mut Rsdr, result: Result<R, E>|
                        {
                            &&& #[trigger] call_ensures(seed, (s,), result)
                            &&& *s == old(self).reseeder()
                            &&& *final(s) == final(self).reseeder()
                            &&& *g == old(self).in_use(result)
                        }
                },
    {
        self.before_generate(4, seed);
        draw(&mut self.inner)
    }

    /// Generate a `u64` with `draw`, reseeding first if the threshold was reached.
    pub fn try_next_u64<E, X, F: FnOnce(&mut Rsdr) -> Result<R, E>, G: FnOnce(&mut R) -> Result<u64, X>>(
        &mut self,
        seed: F,
        draw: G,
    ) -> (r: Result<u64, X>)
        requires
            old(self).wf(),
            old(self).due() ==> can_seed(seed, old(self).reseeder()),
            forall|g: &mut R| #[trigger] call_requires(draw, (g,)),
        ensures
            final(self).counted(old(self), 8),
            final(self).left() == (if old(self).left() <= 0 {
                old(self).threshold()
            } else {
                old(self).left()
            }) - (if old(self).periodic() {
                8int
            } else {
                0
            }),
            final(self).threshold() == old(self).threshold(),
            final(self).periodic() == old(self).periodic(),
            exists|g: &mut R|
                {
                    &&& #[trigger] call_ensures(draw, (g,), r)
                    &&& final(self).inner() == *final(g)
                    &&& !old(self).due() ==> *g == old(self).inner() && final(self).reseeder()
                        == old(self).reseeder()
                    &&& 0 < old(self).left() ==> *g == old(self).inner() && final(self).reseeder()
                        == old(self).reseeder()
                    &&& old(self).left() <= 0 ==> exists|s: &mut Rsdr, result: Result<R, E>|
                        {
                            &&& #[trigger] call_ensures(seed, (s,), result)
                            &&& *s == old(self).reseeder()
                            &&& *final(s) == final(self).reseeder()
                            &&& match result {
                                Ok(inner) => *g == inner,
                                Err(_) => *g == old(self).inner(),
                            }
                        }
                    &&& old(self).due() ==> exists|s: &mut Rsdr, result: Result<R, E>|
                        {
                            &&& #[trigger] call_ensures(seed, (s,), result)
                            &&& *s == old(self).reseeder()
                            &&& *final(s) == final(self).reseeder()
                            &&& *g == old(self).in_use(result)
                        }
                },
    {
        self.before_generate(8, seed);
        draw(&mut self.inner)
    }

    /// Fill `dest` with `draw`, reseeding first if the threshold was reached.
    pub fn try_fill_bytes<
        E,
        X,
        F: FnOnce(&mut Rsdr) -> Result<R, E>,
        G: FnOnce(&mut R, &mut [u8]) -> Result<(), X>,
    >(&mut self, dest: &mut [u8], seed: F, draw: G) -> (r: Result<(), X>)
        requires
            old(self).wf(),
            old(dest)@.len() <= i64::MAX,
            old(self).due() ==> can_seed(seed, old(self).reseeder()),
            forall|g: &mut R, d: &mut [u8]| #[trigger] call_requires(draw, (g, d)),
        ensures
            final(self).counted(old(self), old(dest)@.len() as int),
            final(self).left() == (if old(self).left() <= 0 {
                old(self).threshold()
            } else {
                old(self).left()
            }) - (if old(self).periodic() {
                old(dest)@.len() as int
            } else {
                0
            }),
            final(self).threshold() == old(self).threshold(),
            final(self).periodic() == old(self).periodic(),
            exists|g: &mut R, d: &mut [u8]|
                {
                    &&& #[trigger] call_ensures(draw, (g, d), r)
                    &&& (*d)@ == old(dest)@
                    &&& (*final(d))@ == final(dest)@
                    &&& final(self).inner() == *final(g)
                    &&& !old(self).due() ==> *g == old(self).inner() && final(self).reseeder()
                        == old(self).reseeder()
                    &&& 0 < old(self).left() ==> *g == old(self).inner() && final(self).reseeder()
                        == old(self).reseeder()
                    &&& old(self).left() <= 0 ==> exists|s: &mut Rsdr, result: Result<R, E>|
                        {
                            &&& #[trigger] call_ensures(seed, (s,), result)
                            &&& *s == old(self).reseeder()
                            &&& *final(s) == final(self).reseeder()
                            &&& match result {
                                Ok(inner) => *g == inner,
                                Err(_) => *g == old(self).inner(),
                            }
                        }
                    &&& old(self).due() ==> exists|s: &mut Rsdr, result: Result<R, E>|
                        {
                            &&& #[trigger] call_ensures(seed, (s,), result)
                            &&& *s == old(self).reseeder()
                            &&& *final(s) == final(self).reseeder()
                            &&& *g == old(self).in_use(result)
                        }
                },
    {
        self.before_generate(dest.len(), seed);
        draw(&mut self.inner, dest)
    }
}

impl<R: Clone, Rsdr: Clone> Clone for ReseedingRng<R, Rsdr> {
    /// The clone is reseeded on first use.
    fn clone(&self) -> (r: Self)
        ensures
            self.wf() ==> r.wf(),
            r.same_config(self),
            r.left() == 0,
            r.periodic() == self.periodic(),
            r.threshold() == self.threshold(),
            cloned(self.inner(), r.inner()),
            cloned(self.reseeder(), r.reseeder()),
    {
        ReseedingRng {
            inner: self.inner.clone(),
            reseeder: self.reseeder.clone(),
            periodic: self.periodic,
            threshold: self.threshold,
            bytes_until_reseed: 0,  // reseed the clone on first use
        }
    }
}

/// The count-down after the first `i` of a series of requests, each given by its number of bytes.
pub open spec fn left_after_all(
    periodic: bool,
    threshold: int,
    left: int,
    requests: Seq<int>,
    i: int,
) -> int
    decreases i,
{
    if i <= 0 {
        left
    } else {
        left_after(
            periodic,
            threshold,
            left_after_all(periodic, threshold, left, requests, i - 1),
            requests[i - 1],
        )
    }
}

/// The number of bytes that the first `i` requests ask for.
pub open spec fn total(requests: Seq<int>, i: int) -> int
    decreases i,
{
    if i <= 0 {
        0
    } else {
        total(requests, i - 1) + requests[i - 1]
    }
}

/// A freshly seeded generator is reseeded at the first request that comes once the earlier ones
/// have asked for the threshold's number of bytes, and at none before it.
pub proof fn lemma_reseeds_when_threshold_is_reached(threshold: int, requests: Seq<int>, i: int)
    requires
        0 < threshold,
        0 <= i <= requests.len(),
        forall|k: int| 0 <= k < requests.len() ==> 0 <= #[trigger] requests[k],
        forall|k: int| 0 <= k < i ==> #[trigger] total(requests, k) < threshold,
    ensures
        left_after_all(true, threshold, threshold, requests, i) == threshold - total(requests, i),
        left_after_all(true, threshold, threshold, requests, i) <= 0 <==> threshold <= total(requests, i),
    decreases i,
{
    if i > 0 {
        lemma_reseeds_when_threshold_is_reached(threshold, requests, i - 1);
        assert(total(requests, i - 1) < threshold);
    }
}

/// A generator that was made with a threshold - any number of bytes that can be counted - is due
/// for reseeding exactly once the requests since have asked for at least that many bytes.
pub proof fn lemma_reseeds_after_the_threshold_asked_for(
    threshold: u64,
    requests: Seq<int>,
    i: int,
)
    requires
        0 < threshold <= i64::MAX,
        0 <= i <= requests.len(),
        forall|k: int| 0 <= k < requests.len() ==> 0 <= #[trigger] requests[k],
        forall|k: int| 0 <= k < i ==> #[trigger] total(requests, k) < threshold,
    ensures
        ({
            let start = effective_threshold(threshold);
            let left = left_after_all(true, start, start, requests, i);
            &&& start == threshold
            &&& left == threshold - total(requests, i)
            &&& left <= 0 <==> threshold <= total(requests, i)
        }),
{
    lemma_reseeds_when_threshold_is_reached(threshold as int, requests, i);
}

/// How much is left until the next reseeding depends on the number of bytes asked for alone, not
/// on how they were spread over requests, for as long as no reseeding comes in between.
pub proof fn lemma_requests_add_up(threshold: int, left: int, first: int, second: int)
    requires
        0 < threshold,
        0 < left,
        0 <= first < left,
        0 <= second,
    ensures
        left_after(true, threshold, left_after(true, threshold, left, first), second)
            == left_after(true, threshold, left, first + second),
        left_after(true, threshold, left, first) == left - first,
        left_after(true, threshold, left, 0) == left,
{
}

/// The bytes that the first requests ask for add up to those of the last of them and the ones
/// before it.
pub proof fn lemma_total_adds_up(requests: Seq<int>, i: int)
    requires
        0 <= i < requests.len(),
    ensures
        total(requests, 0) == 0,
        total(requests, i + 1) == total(requests, i) + requests[i],
{
}

/// A generator whose threshold is 0 is never reseeded by a request, whatever was generated.
pub proof fn lemma_never_reseeds_without_threshold(requests: Seq<int>, i: int)
    requires
        0 <= i <= requests.len(),
    ensures
        0 < left_after_all(false, effective_threshold(0), effective_threshold(0), requests, i),
        left_after_all(false, effective_threshold(0), effective_threshold(0), requests, i)
            == i64::MAX,
    decreases i,
{
    if i > 0 {
        lemma_never_reseeds_without_threshold(requests, i - 1);
    }
}

/// At a count-down that is used up - that of a clone, or one at the threshold - the next request
/// reseeds, and whether or not that succeeds, the one after it does so again exactly when the
/// first asked for the threshold's number of bytes.
pub proof fn lemma_retries_after_threshold(threshold: int, left: int, num_bytes: int)
    requires
        0 < threshold,
        left <= 0,
        0 <= num_bytes,
    ensures
        left_after(true, threshold, left, num_bytes) == threshold - num_bytes,
        left_after(true, threshold, left, num_bytes) <= 0 <==> threshold <= num_bytes,
{
}

} // verus!

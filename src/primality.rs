use vstd::prelude::*;
use rayon::prelude::{IntoParallelIterator, ParallelIterator};
use crate::batch::PolarOxides;

verus! {

/// The largest bound the prime sieve is run to; below it the sieve's `u64`
/// arithmetic cannot overflow.
pub const MAX_SUPPORTED_NUMBER: u64 = 4294967296;

/// `n` is prime: at least 2, and no integer in `[2, n)` divides it.
pub open spec fn is_prime_number(n: int) -> bool {
    n >= 2 && forall|d: int| 2 <= d < n ==> #[trigger] (n % d) != 0
}

/// The primes that a `primes::PrimeSet` has found so far, in the order it keeps them.
pub uninterp spec fn found_primes(s: primes::PrimeSet) -> Seq<u64>;

/// `s` lists every prime up to its last element, in increasing order, and
/// nothing else.
pub open spec fn lists_first_primes(s: Seq<u64>) -> bool {
    &&& s.len() >= 2
    &&& forall|i: int, j: int| 0 <= i < j < s.len() ==> s[i] < s[j]
    &&& forall|i: int| 0 <= i < s.len() ==> is_prime_number(#[trigger] s[i] as int)
    &&& forall|m: int|
        0 <= m <= s.last() && #[trigger] is_prime_number(m) ==> s.contains(m as u64)
}

#[verifier::external_type_specification]
#[verifier::external_body]
pub struct ExPrimeSet(primes::PrimeSet);

/// Relies on `PrimeSet::new`: a fresh set holds the primes 2 and 3.
pub assume_specification[ primes::PrimeSet::new ]() -> (r: primes::PrimeSet)
    ensures
        found_primes(r) == seq![2u64, 3u64],
;

/// Relies on `PrimeSet::find`: it extends the set by whole primes in order
/// until its last prime is at least `n`, and returns the index and value of
/// the smallest found prime that is at least `n`.
pub assume_specification[ primes::PrimeSet::find ](s: &mut primes::PrimeSet, n: u64) -> (r: (
    usize,
    u64,
))
    requires
        lists_first_primes(found_primes(*old(s))),
        n <= MAX_SUPPORTED_NUMBER,
    ensures
        lists_first_primes(found_primes(*final(s))),
        found_primes(*final(s)).last() >= n,
        r.0 < found_primes(*final(s)).len(),
        found_primes(*final(s))[r.0 as int] == r.1,
        r.1 >= n,
        forall|j: int| 0 <= j < r.0 ==> found_primes(*final(s))[j] < n,
;

/// Relies on `PrimeSet::find_vec`: `None` when `n` exceeds the last found
/// prime, else the index and value of the smallest found prime that is at
/// least `n` (a binary search over the sorted list).
pub assume_specification[ primes::PrimeSet::find_vec ](s: &primes::PrimeSet, n: u64) -> (r: Option<
    (usize, u64),
>)
    requires
        lists_first_primes(found_primes(*s)),
    ensures
        r is None <==> n > found_primes(*s).last(),
        r matches Some((i, p)) ==> {
            &&& i < found_primes(*s).len()
            &&& found_primes(*s)[i as int] == p
            &&& p >= n
            &&& forall|j: int| 0 <= j < i ==> found_primes(*s)[j] < n
        },
;

/// Answers "is `k` prime?" for every `k` up to the bound it was built for.
pub struct PrimeOracle {
    set: primes::PrimeSet,
    bound: u64,
}

impl PrimeOracle {
    /// The largest integer this oracle answers for.
    pub closed spec fn max_number(&self) -> u64 {
        self.bound
    }

    pub closed spec fn wf(&self) -> bool {
        &&& lists_first_primes(found_primes(self.set))
        &&& found_primes(self.set).last() >= self.bound
    }

    /// Finds every prime up to `max_number`.
    pub fn build(max_number: u64) -> (r: PrimeOracle)
        requires
            max_number <= MAX_SUPPORTED_NUMBER,
        ensures
            r.wf(),
            r.max_number() == max_number,
    {
        let mut set = primes::PrimeSet::new();
        let _ = set.find(max_number);
        PrimeOracle { set, bound: max_number }
    }

    /// Whether `k` is prime.
    pub fn is_prime(&self, k: u64) -> (r: bool)
        requires
            self.wf(),
            k <= self.max_number(),
        ensures
            r == is_prime_number(k as int),
    {
        match self.set.find_vec(k) {
            Some((i, p)) => {
                proof {
                    let s = found_primes(self.set);
                    if is_prime_number(k as int) {
                        let j = choose|j: int| 0 <= j < s.len() && s[j] == k;
                        if j < i {
                            assert(s[j] < k);
                        } else if j > i {
                            assert(s[i as int] < s[j]);
                        }
                    }
                }
                p == k
            },
            None => false,
        }
    }
}

/// One point of the plot, by its source integer and whether that integer is
/// prime. Its position is `(n cos n, n sin n)`.
#[derive(Clone, Copy, Debug, PartialEq, Eq)]
pub struct Particle {
    pub number: u64,
    pub is_prime: bool,
}

impl Particle {
    pub fn new(number: u64, prime_tester: &PrimeOracle) -> (r: Particle)
        requires
            prime_tester.wf(),
            number <= prime_tester.max_number(),
        ensures
            r.number == number,
            r.is_prime == is_prime_number(number as int),
    {
        Particle { number, is_prime: prime_tester.is_prime(number) }
    }
}

/// Relies on rayon's parallel map over the range `1..max_number`: collecting
/// it into a `Vec` keeps the order of the range (`ParallelExtend for Vec`
/// appends the pieces in order). Each item is made by `Particle::new`.
#[verifier::external_body]
fn collect_particles(max_number: u64, oracle: &PrimeOracle) -> (r: Vec<Particle>)
    requires
        oracle.wf(),
        max_number <= oracle.max_number(),
    ensures
        r@.len() == if max_number == 0 { 0 } else { max_number - 1 },
        forall|i: int|
            0 <= i < r@.len() ==> #[trigger] r@[i] == (Particle {
                number: (i + 1) as u64,
                is_prime: is_prime_number(i + 1),
            }),
{
    (1..max_number).into_par_iter().map(|n| Particle::new(n, oracle)).collect()
}

impl PolarOxides {
    /// One particle for each integer in `[1, max_number)`, in increasing order.
    pub fn generate_particles(max_number: u64) -> (r: Vec<Particle>)
        requires
            max_number <= MAX_SUPPORTED_NUMBER,
        ensures
            r@.len() == if max_number == 0 { 0 } else { max_number - 1 },
            forall|i: int|
                0 <= i < r@.len() ==> (#[trigger] r@[i]).number == i + 1 && r@[i].is_prime
                    == is_prime_number(i + 1),
    {
        let oracle = PrimeOracle::build(max_number);
        collect_particles(max_number, &oracle)
    }
}

} // verus!

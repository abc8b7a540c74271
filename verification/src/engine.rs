//! The sequence engine: runs a generator a requested number of steps and
//! returns the final term, translating bad step counts and overflow into
//! typed errors.
//!
//! `nth_term(variant, n)` treats `n` as an index into the stream of produced
//! terms, counting from `n = 1`: it advances a fresh generator `n + 1` times
//! and returns only the last term. For the two-term variant the result is
//! `fib(n + 2)` of the sequence 0, 1, 1, 2, 3, ... (so `n = 9` yields 89);
//! for the three-term variant it is `trib(n + 3)`. A step count of zero is
//! rejected, and the run fails the moment any intermediate addition would
//! exceed the 64-bit range: no partial result is ever surfaced.

use vstd::prelude::*;

use crate::generator::fib;
use crate::generator::lemma_fib_grows;
use crate::generator::lemma_fib_mono;
use crate::generator::lemma_three_term_trib;
use crate::generator::lemma_two_term_fib;
use crate::generator::trib;
use crate::generator::Fibonacci;
use crate::generator::Threebonacci;

verus! {

/// The recurrence a call runs: two-term (Fibonacci-style) or three-term
/// (Tribonacci-style).
#[derive(Clone, Copy, Debug, PartialEq, Eq)]
pub enum Variant {
    TwoTerm,
    ThreeTerm,
}

/// How a run can fail: the step count cannot be used, or a step would
/// exceed the 64-bit range.
#[derive(Clone, Copy, Debug, PartialEq, Eq)]
pub enum EngineError {
    IndexOutOfRange,
    Overflow,
}

/// The mathematical value a successful run returns: the term of the
/// reference sequence that the `n + 1`-th advance produces.
pub open spec fn term_value(variant: Variant, n: u64) -> nat {
    match variant {
        Variant::TwoTerm => fib(n as nat + 2),
        Variant::ThreeTerm => trib(n as nat + 3),
    }
}

/// What `nth_term` returns, as a function of its arguments alone.
pub open spec fn nth_term_model(variant: Variant, n: u64) -> Result<u64, EngineError> {
    if n == 0 {
        Err(EngineError::IndexOutOfRange)
    } else if term_value(variant, n) <= u64::MAX {
        Ok(term_value(variant, n) as u64)
    } else {
        Err(EngineError::Overflow)
    }
}

/// Run a fresh generator of the given variant exactly `n + 1` advances and
/// return the final term. Zero is rejected as out of range; a run whose
/// intermediate sum would leave the 64-bit range fails with `Overflow` and
/// surfaces nothing.
pub fn nth_term(variant: Variant, n: u64) -> (r: Result<u64, EngineError>)
    ensures
        r == nth_term_model(variant, n),
{
    if n == 0 {
        return Err(EngineError::IndexOutOfRange);
    }
    match variant {
        Variant::TwoTerm => {
            let mut g = Fibonacci::new();
            proof {
                assert(fib(0) == 0 && fib(1) == 1);
                lemma_two_term_fib(0, n as nat + 1);
            }
            match g.nth(n) {
                Some(t) => Ok(t),
                None => Err(EngineError::Overflow),
            }
        },
        Variant::ThreeTerm => {
            let mut g = Threebonacci::new();
            proof {
                assert(trib(0) == 0 && trib(1) == 0 && trib(2) == 1);
                lemma_three_term_trib(0, n as nat + 1);
            }
            match g.nth(n) {
                Some(t) => Ok(t),
                None => Err(EngineError::Overflow),
            }
        },
    }
}

/// Determinism: the engine's outcome is a function of the variant and the
/// step count alone, so repeated runs with identical inputs agree exactly.
pub proof fn lemma_nth_term_deterministic(
    variant: Variant,
    n: u64,
    r1: Result<u64, EngineError>,
    r2: Result<u64, EngineError>,
)
    requires
        r1 == nth_term_model(variant, n),
        r2 == nth_term_model(variant, n),
    ensures
        r1 == r2,
{
}

/// Whether the two-term run at step count `n` exceeds the 64-bit range.
pub open spec fn two_term_overflows(n: u64) -> bool {
    fib(n as nat + 2) > u64::MAX
}

/// Pick the least valid step count at which the two-term run overflows, given
/// one that does.
proof fn choose_two_term_threshold(m: u64) -> (n_star: u64)
    requires
        1 <= m,
        two_term_overflows(m),
    ensures
        1 <= n_star <= m,
        two_term_overflows(n_star),
        forall|j: u64| 1 <= j < n_star ==> !#[trigger] two_term_overflows(j),
    decreases m,
{
    if exists|j: u64| 1 <= j < m && #[trigger] two_term_overflows(j) {
        let j = choose|j: u64| 1 <= j < m && #[trigger] two_term_overflows(j);
        choose_two_term_threshold(j)
    } else {
        m
    }
}

/// Overflow threshold: there is a least valid step count `n_star` below which
/// every two-term run succeeds and at or beyond which every run must report
/// `Overflow` rather than a wrapped value.
pub proof fn lemma_two_term_overflow_threshold() -> (n_star: u64)
    ensures
        1 <= n_star,
        forall|m: u64| 1 <= m < n_star ==> #[trigger] nth_term_model(Variant::TwoTerm, m) is Ok,
        forall|m: u64|
            n_star <= m ==> #[trigger] nth_term_model(Variant::TwoTerm, m) == Err::<
                u64,
                EngineError,
            >(EngineError::Overflow),
{
    lemma_fib_grows(u64::MAX as nat);
    assert(two_term_overflows(u64::MAX));
    let n_star = choose_two_term_threshold(u64::MAX);
    assert forall|m: u64| 1 <= m < n_star implies #[trigger] nth_term_model(Variant::TwoTerm, m)
        is Ok by {
        assert(!two_term_overflows(m));
    }
    assert forall|m: u64| n_star <= m implies #[trigger] nth_term_model(Variant::TwoTerm, m)
        == Err::<u64, EngineError>(EngineError::Overflow) by {
        lemma_fib_mono(n_star as nat + 2, m as nat + 2);
    }
    n_star
}

} // verus!

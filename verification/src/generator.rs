//! Stateful generators for two linear recurrences.
//!
//! A generator holds the minimal window of prior terms needed to produce the
//! next one. Advancing returns the new term, or `None` when the addition
//! would exceed the 64-bit range: overflow is an explicit failure, never a
//! silent wraparound. The mathematical reference sequences are the spec
//! functions [`fib`] and [`trib`].

use vstd::prelude::*;

verus! {

/// The Fibonacci sequence 0, 1, 1, 2, 3, 5, 8, ...
pub open spec fn fib(n: nat) -> nat
    decreases n,
{
    if n == 0 {
        0
    } else if n == 1 {
        1
    } else {
        fib((n - 2) as nat) + fib((n - 1) as nat)
    }
}

/// The three-term recurrence 0, 0, 1, 1, 2, 4, 7, 13, ...
pub open spec fn trib(n: nat) -> nat
    decreases n,
{
    if n == 0 {
        0
    } else if n == 1 {
        0
    } else if n == 2 {
        1
    } else {
        trib((n - 3) as nat) + trib((n - 2) as nat) + trib((n - 1) as nat)
    }
}

/// The two-term window `(prev, curr)` after `k` advances from `(p, c)`.
pub open spec fn two_term_after(p: int, c: int, k: nat) -> (int, int)
    decreases k,
{
    if k == 0 {
        (p, c)
    } else {
        two_term_after(c, p + c, (k - 1) as nat)
    }
}

/// The three-term window `(prev2, prev1, curr)` after `k` advances from `(a, b, c)`.
pub open spec fn three_term_after(a: int, b: int, c: int, k: nat) -> (int, int, int)
    decreases k,
{
    if k == 0 {
        (a, b, c)
    } else {
        three_term_after(b, c, a + b + c, (k - 1) as nat)
    }
}

/// The Fibonacci sequence never decreases.
pub proof fn lemma_fib_mono(a: nat, b: nat)
    requires
        a <= b,
    ensures
        fib(a) <= fib(b),
    decreases b,
{
    if a < b {
        lemma_fib_mono(a, (b - 1) as nat);
    }
}

/// The Fibonacci sequence is unbounded: `fib(k + 2)` passes `k`.
pub proof fn lemma_fib_grows(k: nat)
    ensures
        fib(k + 2) >= k + 1,
    decreases k,
{
    if k >= 2 {
        lemma_fib_grows((k - 1) as nat);
        lemma_fib_grows((k - 2) as nat);
    } else {
        assert(fib(2) == fib(0) + fib(1));
        assert(fib(3) == fib(1) + fib(2));
    }
}

/// Advancing a two-term window keeps both entries nonnegative and never
/// shrinks the current term below its starting value.
pub proof fn lemma_two_term_nonneg(p: int, c: int, k: nat)
    requires
        0 <= p,
        0 <= c,
    ensures
        0 <= two_term_after(p, c, k).0,
        c <= two_term_after(p, c, k).1,
    decreases k,
{
    if k > 0 {
        lemma_two_term_nonneg(c, p + c, (k - 1) as nat);
    }
}

/// Advancing `j + m` times is advancing `j` times, then `m` more.
pub proof fn lemma_two_term_compose(p: int, c: int, j: nat, m: nat)
    ensures
        two_term_after(p, c, j + m) == two_term_after(
            two_term_after(p, c, j).0,
            two_term_after(p, c, j).1,
            m,
        ),
    decreases j,
{
    if j > 0 {
        lemma_two_term_compose(c, p + c, (j - 1) as nat, m);
    }
}

/// One more advance applies the recurrence to the window reached so far.
pub proof fn lemma_two_term_snoc(p: int, c: int, k: nat)
    ensures
        two_term_after(p, c, k + 1) == (
            two_term_after(p, c, k).1,
            two_term_after(p, c, k).0 + two_term_after(p, c, k).1,
        ),
    decreases k,
{
    if k == 0 {
        assert(two_term_after(p, c, 1) == two_term_after(c, p + c, 0));
    } else {
        lemma_two_term_snoc(c, p + c, (k - 1) as nat);
    }
}

/// From a nonnegative start the current term never decreases as the window advances.
pub proof fn lemma_two_term_mono(p: int, c: int, j: nat, k: nat)
    requires
        0 <= p,
        0 <= c,
        j <= k,
    ensures
        two_term_after(p, c, j).1 <= two_term_after(p, c, k).1,
{
    lemma_two_term_compose(p, c, j, (k - j) as nat);
    lemma_two_term_nonneg(p, c, j);
    lemma_two_term_nonneg(
        two_term_after(p, c, j).0,
        two_term_after(p, c, j).1,
        (k - j) as nat,
    );
}

/// A window of adjacent Fibonacci values advances along the Fibonacci sequence.
pub proof fn lemma_two_term_fib(i: nat, k: nat)
    ensures
        two_term_after(fib(i) as int, fib(i + 1) as int, k) == (
            fib(i + k) as int,
            fib(i + k + 1) as int,
        ),
    decreases k,
{
    if k > 0 {
        assert(fib(i + 2) == fib(i) + fib(i + 1));
        lemma_two_term_fib(i + 1, (k - 1) as nat);
    }
}

/// Advancing a three-term window keeps all entries nonnegative and never
/// shrinks the current term below its starting value.
pub proof fn lemma_three_term_nonneg(a: int, b: int, c: int, k: nat)
    requires
        0 <= a,
        0 <= b,
        0 <= c,
    ensures
        0 <= three_term_after(a, b, c, k).0,
        0 <= three_term_after(a, b, c, k).1,
        c <= three_term_after(a, b, c, k).2,
    decreases k,
{
    if k > 0 {
        lemma_three_term_nonneg(b, c, a + b + c, (k - 1) as nat);
    }
}

/// Advancing `j + m` times is advancing `j` times, then `m` more.
pub proof fn lemma_three_term_compose(a: int, b: int, c: int, j: nat, m: nat)
    ensures
        three_term_after(a, b, c, j + m) == three_term_after(
            three_term_after(a, b, c, j).0,
            three_term_after(a, b, c, j).1,
            three_term_after(a, b, c, j).2,
            m,
        ),
    decreases j,
{
    if j > 0 {
        lemma_three_term_compose(b, c, a + b + c, (j - 1) as nat, m);
    }
}

/// One more advance applies the recurrence to the window reached so far.
pub proof fn lemma_three_term_snoc(a: int, b: int, c: int, k: nat)
    ensures
        three_term_after(a, b, c, k + 1) == (
            three_term_after(a, b, c, k).1,
            three_term_after(a, b, c, k).2,
            three_term_after(a, b, c, k).0 + three_term_after(a, b, c, k).1
                + three_term_after(a, b, c, k).2,
        ),
    decreases k,
{
    if k == 0 {
        assert(three_term_after(a, b, c, 1) == three_term_after(b, c, a + b + c, 0));
    } else {
        lemma_three_term_snoc(b, c, a + b + c, (k - 1) as nat);
    }
}

/// From a nonnegative start the current term never decreases as the window advances.
pub proof fn lemma_three_term_mono(a: int, b: int, c: int, j: nat, k: nat)
    requires
        0 <= a,
        0 <= b,
        0 <= c,
        j <= k,
    ensures
        three_term_after(a, b, c, j).2 <= three_term_after(a, b, c, k).2,
{
    lemma_three_term_compose(a, b, c, j, (k - j) as nat);
    lemma_three_term_nonneg(a, b, c, j);
    lemma_three_term_nonneg(
        three_term_after(a, b, c, j).0,
        three_term_after(a, b, c, j).1,
        three_term_after(a, b, c, j).2,
        (k - j) as nat,
    );
}

/// A window of adjacent three-term values advances along the three-term sequence.
pub proof fn lemma_three_term_trib(i: nat, k: nat)
    ensures
        three_term_after(trib(i) as int, trib(i + 1) as int, trib(i + 2) as int, k) == (
            trib(i + k) as int,
            trib(i + k + 1) as int,
            trib(i + k + 2) as int,
        ),
    decreases k,
{
    if k > 0 {
        assert(trib(i + 3) == trib(i) + trib(i + 1) + trib(i + 2));
        lemma_three_term_trib(i + 1, (k - 1) as nat);
    }
}

/// Two-term generator. `curr` is the most recently produced term (or the
/// seed value 1 before the first advance), `prev` the one before it.
#[derive(Clone, Debug, PartialEq, Eq)]
pub struct Fibonacci {
    pub prev: u64,
    pub curr: u64,
}

impl Fibonacci {
    /// A fresh generator seeded with `prev = 0`, `curr = 1`.
    pub fn new() -> (g: Fibonacci)
        ensures
            g.prev == 0,
            g.curr == 1,
    {
        Fibonacci { prev: 0, curr: 1 }
    }

    /// Produce the next term, the sum of the two tracked terms, shifting the
    /// window; `None` when the sum would exceed the 64-bit range, leaving the
    /// window untouched.
    pub fn next(&mut self) -> (r: Option<u64>)
        ensures
            old(self).prev + old(self).curr <= u64::MAX ==> {
                &&& r == Some((old(self).prev + old(self).curr) as u64)
                &&& final(self).prev == old(self).curr
                &&& final(self).curr == old(self).prev + old(self).curr
            },
            old(self).prev + old(self).curr > u64::MAX ==> {
                &&& r is None
                &&& *final(self) == *old(self)
            },
    {
        if self.prev <= u64::MAX - self.curr {
            let next: u64 = self.prev + self.curr;
            self.prev = self.curr;
            self.curr = next;
            Some(next)
        } else {
            None
        }
    }

    /// Advance `n + 1` times and return the last term produced, or `None` as
    /// soon as one advance would overflow (no partial result is surfaced).
    #[verifier::loop_isolation(false)]
    pub fn nth(&mut self, n: u64) -> (r: Option<u64>)
        ensures
            ({
                let w = two_term_after(old(self).prev as int, old(self).curr as int, n as nat + 1);
                &&& w.1 <= u64::MAX ==> {
                    &&& r == Some(w.1 as u64)
                    &&& final(self).prev == w.0
                    &&& final(self).curr == w.1
                }
                &&& w.1 > u64::MAX ==> r is None
            }),
    {
        let ghost p0 = self.prev as int;
        let ghost c0 = self.curr as int;
        proof {
            lemma_two_term_snoc(p0, c0, 0);
        }
        match self.next() {
            None => {
                proof {
                    lemma_two_term_mono(p0, c0, 1, n as nat + 1);
                }
                return None;
            },
            Some(_) => {},
        }
        let mut i: u64 = 0;
        while i < n
            invariant
                i <= n,
                0 <= p0,
                0 <= c0,
                self.prev as int == two_term_after(p0, c0, i as nat + 1).0,
                self.curr as int == two_term_after(p0, c0, i as nat + 1).1,
            decreases n - i,
        {
            let ghost steps = i as nat + 1;
            match self.next() {
                None => {
                    proof {
                        lemma_two_term_snoc(p0, c0, steps);
                        lemma_two_term_mono(p0, c0, steps + 1, n as nat + 1);
                    }
                    return None;
                },
                Some(_) => {
                    proof {
                        lemma_two_term_snoc(p0, c0, steps);
                    }
                },
            }
            i = i + 1;
        }
        Some(self.curr)
    }
}

/// Three-term generator. `curr` is the most recently produced term (or the
/// seed value 1 before the first advance); `prev_1` and `prev_2` are the two
/// before it, `prev_2` the oldest.
#[derive(Clone, Debug, PartialEq, Eq)]
pub struct Threebonacci {
    pub prev_1: u64,
    pub prev_2: u64,
    pub curr: u64,
}

impl Threebonacci {
    /// A fresh generator seeded with `prev_2 = 0`, `prev_1 = 0`, `curr = 1`.
    pub fn new() -> (g: Threebonacci)
        ensures
            g.prev_2 == 0,
            g.prev_1 == 0,
            g.curr == 1,
    {
        Threebonacci { curr: 1, prev_1: 0, prev_2: 0 }
    }

    /// Produce the next term, the sum of the three tracked terms, shifting
    /// the window; `None` when the sum would exceed the 64-bit range, leaving
    /// the window untouched.
    pub fn next(&mut self) -> (r: Option<u64>)
        ensures
            old(self).prev_2 + old(self).prev_1 + old(self).curr <= u64::MAX ==> {
                &&& r == Some((old(self).prev_2 + old(self).prev_1 + old(self).curr) as u64)
                &&& final(self).prev_2 == old(self).prev_1
                &&& final(self).prev_1 == old(self).curr
                &&& final(self).curr == old(self).prev_2 + old(self).prev_1 + old(self).curr
            },
            old(self).prev_2 + old(self).prev_1 + old(self).curr > u64::MAX ==> {
                &&& r is None
                &&& *final(self) == *old(self)
            },
    {
        if self.prev_2 <= u64::MAX - self.curr && self.prev_1 <= (u64::MAX - self.curr)
            - self.prev_2 {
            let next: u64 = self.prev_1 + self.prev_2 + self.curr;
            self.prev_2 = self.prev_1;
            self.prev_1 = self.curr;
            self.curr = next;
            Some(next)
        } else {
            None
        }
    }

    /// Advance `n + 1` times and return the last term produced, or `None` as
    /// soon as one advance would overflow (no partial result is surfaced).
    #[verifier::loop_isolation(false)]
    pub fn nth(&mut self, n: u64) -> (r: Option<u64>)
        ensures
            ({
                let w = three_term_after(
                    old(self).prev_2 as int,
                    old(self).prev_1 as int,
                    old(self).curr as int,
                    n as nat + 1,
                );
                &&& w.2 <= u64::MAX ==> {
                    &&& r == Some(w.2 as u64)
                    &&& final(self).prev_2 == w.0
                    &&& final(self).prev_1 == w.1
                    &&& final(self).curr == w.2
                }
                &&& w.2 > u64::MAX ==> r is None
            }),
    {
        let ghost a0 = self.prev_2 as int;
        let ghost b0 = self.prev_1 as int;
        let ghost c0 = self.curr as int;
        proof {
            lemma_three_term_snoc(a0, b0, c0, 0);
        }
        match self.next() {
            None => {
                proof {
                    lemma_three_term_mono(a0, b0, c0, 1, n as nat + 1);
                }
                return None;
            },
            Some(_) => {},
        }
        let mut i: u64 = 0;
        while i < n
            invariant
                i <= n,
                0 <= a0,
                0 <= b0,
                0 <= c0,
                self.prev_2 as int == three_term_after(a0, b0, c0, i as nat + 1).0,
                self.prev_1 as int == three_term_after(a0, b0, c0, i as nat + 1).1,
                self.curr as int == three_term_after(a0, b0, c0, i as nat + 1).2,
            decreases n - i,
        {
            let ghost steps = i as nat + 1;
            match self.next() {
                None => {
                    proof {
                        lemma_three_term_snoc(a0, b0, c0, steps);
                        lemma_three_term_mono(a0, b0, c0, steps + 1, n as nat + 1);
                    }
                    return None;
                },
                Some(_) => {
                    proof {
                        lemma_three_term_snoc(a0, b0, c0, steps);
                    }
                },
            }
            i = i + 1;
        }
        Some(self.curr)
    }
}

} // verus!

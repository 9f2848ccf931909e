//! The order in which pages around the current one are visited, and the
//! marker for screen regions that the text-grid diff must leave alone.

use vstd::prelude::*;
use vstd::arithmetic::div_mod::{lemma_fundamental_div_mod, lemma_fundamental_div_mod_converse, lemma_mod_multiples_vanish};

verus! {

/// Marks a region of the screen as skipped (or no longer skipped) by the
/// text-grid diff, so that images drawn there are left untouched.
pub struct Skip {
    skip: bool,
}

impl Skip {
    pub closed spec fn flag(&self) -> bool {
        self.skip
    }

    #[must_use]
    pub fn new(skip: bool) -> (s: Self)
        ensures
            s.flag() == skip,
    {
        Self { skip }
    }

    /// The value that every cell of the region receives.
    pub fn get(&self) -> (b: bool)
        ensures
            b == self.flag(),
    {
        self.skip
    }
}

#[derive(Clone, Copy, PartialEq, Eq, Structural)]
enum PlusOrMinus {
    Plus,
    Minus,
}

/// `x` brought back into `[0, n)`, for an `x` that left it by less than `n`.
pub open spec fn wrap_into(x: int, n: int) -> int {
    if x < 0 {
        x + n
    } else if x >= n {
        x - n
    } else {
        x
    }
}

/// `j` brought back into `[0, n)` by whole multiples of `n`.
pub open spec fn reduced(j: int, n: int) -> int {
    if 0 <= j < n {
        j
    } else {
        j % n
    }
}

/// The `k`-th index of the outward walk around `around` inside `[min, max)`:
/// `around`, then `around + 1`, `around - 1`, `around + 2`, `around - 2`, ...
/// where a step past `max - 1` re-enters at `min` and a step below `min`
/// re-enters at `max - 1`.
pub open spec fn interleaved_nth(around: int, min: int, max: int, k: nat) -> int {
    let n = max - min;
    let j = reduced((k as int + 1) / 2, n);
    if k % 2 == 1 {
        min + wrap_into(around - min + j, n)
    } else {
        min + wrap_into(around - min - j, n)
    }
}

/// An endless walk over `[inclusive_min, exclusive_max)` that starts at
/// `around` and alternates above and below it, moving outward.
pub struct InterleavedAroundWithMax {
    around: usize,
    inclusive_min: usize,
    exclusive_max: usize,
    // the distance from `around` that the next call applies, below the width
    // of the window
    next_change: usize,
    // the direction in which the next call applies `next_change`
    next_op: PlusOrMinus,
}

impl InterleavedAroundWithMax {
    pub closed spec fn around(&self) -> int {
        self.around as int
    }

    pub closed spec fn inclusive_min(&self) -> int {
        self.inclusive_min as int
    }

    pub closed spec fn exclusive_max(&self) -> int {
        self.exclusive_max as int
    }

    /// The width of the window.
    pub open spec fn width(&self) -> int {
        self.exclusive_max() - self.inclusive_min()
    }

    /// How many indices were handed out so far, counted modulo the period of
    /// the walk, which is twice the width of the window.
    pub closed spec fn position(&self) -> nat {
        match self.next_op {
            PlusOrMinus::Minus => (2 * self.next_change) as nat,
            PlusOrMinus::Plus => if self.next_change == 0 {
                (2 * (self.exclusive_max - self.inclusive_min) - 1) as nat
            } else {
                (2 * self.next_change - 1) as nat
            },
        }
    }

    pub closed spec fn wf(&self) -> bool {
        &&& self.inclusive_min <= self.around < self.exclusive_max
        &&& self.next_change < self.exclusive_max - self.inclusive_min
    }

    /// The index that the walk hands out `i` calls from now.
    pub open spec fn upcoming(&self, i: nat) -> int {
        interleaved_nth(self.around(), self.inclusive_min(), self.exclusive_max(), self.position() + i)
    }

    #[must_use]
    pub fn new(around: usize, inclusive_min: usize, exclusive_max: usize) -> (it: Self)
        requires
            inclusive_min <= around < exclusive_max,
        ensures
            it.wf(),
            it.around() == around,
            it.inclusive_min() == inclusive_min,
            it.exclusive_max() == exclusive_max,
            it.position() == 0,
    {
        Self { around, inclusive_min, exclusive_max, next_change: 0, next_op: PlusOrMinus::Minus }
    }

    /// Hands out the next index of the walk. It never runs dry.
    pub fn next(&mut self) -> (r: Option<usize>)
        requires
            old(self).wf(),
        ensures
            final(self).wf(),
            final(self).around() == old(self).around(),
            final(self).inclusive_min() == old(self).inclusive_min(),
            final(self).exclusive_max() == old(self).exclusive_max(),
            r == Some(old(self).upcoming(0) as usize),
            old(self).inclusive_min() <= old(self).upcoming(0) < old(self).exclusive_max(),
            r matches Some(v) && old(self).inclusive_min() <= v < old(self).exclusive_max(),
            final(self).position() == reduced(old(self).position() as int + 1, 2 * old(self).width()),
            final(self).position() < 2 * old(self).width(),
    {
        let n: usize = self.exclusive_max - self.inclusive_min;
        let base: usize = self.around - self.inclusive_min;
        let c: usize = self.next_change;
        let ghost k = self.position();
        proof {
            match self.next_op {
                PlusOrMinus::Minus => {
                    lemma_fundamental_div_mod_converse(k as int + 1, 2, c as int, 1);
                    lemma_fundamental_div_mod_converse(k as int, 2, c as int, 0);
                    lemma_fundamental_div_mod_converse(c as int, n as int, 0, c as int);
                    lemma_fundamental_div_mod_converse(k as int + 1, 2 * n, 0, k as int + 1);
                },
                PlusOrMinus::Plus => {
                    if c == 0 {
                        lemma_fundamental_div_mod_converse(k as int + 1, 2, n as int, 0);
                        lemma_fundamental_div_mod_converse(k as int, 2, n as int - 1, 1);
                        lemma_fundamental_div_mod_converse(n as int, n as int, 1, 0);
                        lemma_fundamental_div_mod_converse(k as int + 1, 2 * n, 1, 0);
                    } else {
                        lemma_fundamental_div_mod_converse(k as int + 1, 2, c as int, 0);
                        lemma_fundamental_div_mod_converse(k as int, 2, c as int - 1, 1);
                        lemma_fundamental_div_mod_converse(c as int, n as int, 0, c as int);
                        lemma_fundamental_div_mod_converse(k as int + 1, 2 * n, 0, k as int + 1);
                    }
                },
            }
        }
        let to_return: usize = match self.next_op {
            PlusOrMinus::Plus => if c < n - base {
                self.around + c
            } else {
                self.inclusive_min + (c - (n - base))
            },
            PlusOrMinus::Minus => if c <= base {
                self.around - c
            } else {
                self.exclusive_max - (c - base)
            },
        };
        match self.next_op {
            PlusOrMinus::Plus => {
                self.next_op = PlusOrMinus::Minus;
            },
            PlusOrMinus::Minus => {
                self.next_change = if c + 1 == n {
                    0
                } else {
                    c + 1
                };
                self.next_op = PlusOrMinus::Plus;
            },
        }
        proof {
            // the Minus step at the end of a period lands on position 2n - 1
            if old(self).next_op == PlusOrMinus::Minus && c + 1 == n {
                assert(k + 1 == 2 * n - 1);
            }
        }
        Some(to_return)
    }

    /// Hands out the next `count` indices of the walk, in order.
    pub fn take(&mut self, count: usize) -> (v: Vec<usize>)
        requires
            old(self).wf(),
        ensures
            final(self).wf(),
            final(self).around() == old(self).around(),
            final(self).inclusive_min() == old(self).inclusive_min(),
            final(self).exclusive_max() == old(self).exclusive_max(),
            v.len() == count,
            forall|i: int| 0 <= i < count ==> #[trigger] v[i] == old(self).upcoming(i as nat),
            forall|i: int|
                0 <= i < count ==> old(self).inclusive_min() <= #[trigger] v[i] < old(
                    self,
                ).exclusive_max(),
            final(self).position() == reduced(
                old(self).position() as int + count,
                2 * old(self).width(),
            ),
    {
        let ghost start = self.position();
        let ghost a = self.around();
        let ghost lo = self.inclusive_min();
        let ghost hi = self.exclusive_max();
        let ghost period = 2 * (hi - lo);
        let mut v: Vec<usize> = Vec::new();
        proof {
            lemma_position_in_period(*self);
        }
        let mut i: usize = 0;
        while i < count
            invariant
                i <= count,
                self.wf(),
                self.around() == a,
                self.inclusive_min() == lo,
                self.exclusive_max() == hi,
                period == 2 * (hi - lo),
                lo <= a < hi,
                v.len() == i,
                self.position() == reduced(start as int + i, period),
                forall|j: int| 0 <= j < i ==> #[trigger] v[j] == interleaved_nth(a, lo, hi, start + j as nat),
                forall|j: int| 0 <= j < i ==> lo <= #[trigger] v[j] < hi,
            decreases count - i,
        {
            proof {
                lemma_nth_periodic(a, lo, hi, start + i as nat);
                lemma_mod_succ(start as int + i, period);
                lemma_reduced_is_mod(start as int + i, period);
                lemma_reduced_is_mod(start as int + i + 1, period);
                lemma_reduced_is_mod((start as int + i) % period + 1, period);
            }
            let r = self.next();
            match r {
                Some(x) => {
                    v.push(x);
                },
                None => {},
            }
            i = i + 1;
        }
        v
    }
}

/// The `k`-th index of the walk around `around` inside
/// `[inclusive_min, exclusive_max)`, computed directly.
pub fn interleaved_index(around: usize, inclusive_min: usize, exclusive_max: usize, k: usize) -> (r:
    usize)
    requires
        inclusive_min <= around < exclusive_max,
    ensures
        r == interleaved_nth(around as int, inclusive_min as int, exclusive_max as int, k as nat),
        inclusive_min <= r < exclusive_max,
{
    let n: usize = exclusive_max - inclusive_min;
    let base: usize = around - inclusive_min;
    let half: usize = k / 2 + k % 2;
    let c: usize = half % n;
    proof {
        lemma_reduced_is_mod(half as int, n as int);
    }
    if k % 2 == 1 {
        if c < n - base {
            around + c
        } else {
            inclusive_min + (c - (n - base))
        }
    } else {
        if c <= base {
            around - c
        } else {
            exclusive_max - (c - base)
        }
    }
}

/// Inside `[0, n)` nothing is taken off.
pub proof fn lemma_reduced_is_mod(j: int, n: int)
    requires
        0 < n,
    ensures
        reduced(j, n) == j % n,
        0 <= reduced(j, n) < n,
{
    if 0 <= j < n {
        lemma_fundamental_div_mod_converse(j, n, 0, j);
    } else {
        lemma_fundamental_div_mod(j, n);
        vstd::arithmetic::div_mod::lemma_mod_bound(j, n);
    }
}

/// What holds of every walk that is well formed: it starts inside its
/// window, and its position lies within one period.
pub proof fn lemma_position_in_period(it: InterleavedAroundWithMax)
    requires
        it.wf(),
    ensures
        it.position() < 2 * it.width(),
        0 <= it.inclusive_min() <= it.around() < it.exclusive_max() <= usize::MAX,
{
}

/// `(x % p + 1) % p` is `(x + 1) % p`.
proof fn lemma_mod_succ(x: int, p: int)
    requires
        0 <= x,
        0 < p,
    ensures
        (x % p + 1) % p == (x + 1) % p,
{
    lemma_fundamental_div_mod(x, p);
    let q = x / p;
    let r = x % p;
    assert(p * q == q * p) by (nonlinear_arith);
    if r + 1 < p {
        lemma_fundamental_div_mod_converse(r + 1, p, 0, r + 1);
        lemma_fundamental_div_mod_converse(x + 1, p, q, r + 1);
    } else {
        lemma_fundamental_div_mod_converse(r + 1, p, 1, 0);
        assert((q + 1) * p == q * p + p) by (nonlinear_arith);
        lemma_fundamental_div_mod_converse(x + 1, p, q + 1, 0);
    }
}

/// The walk repeats after twice the width of its window.
pub proof fn lemma_nth_periodic(around: int, min: int, max: int, k: nat)
    requires
        min <= around < max,
    ensures
        interleaved_nth(around, min, max, k) == interleaved_nth(
            around,
            min,
            max,
            (k as int % (2 * (max - min))) as nat,
        ),
{
    let n = max - min;
    let p = 2 * n;
    let q = k as int / p;
    let r = k as int % p;
    lemma_fundamental_div_mod(k as int, p);
    let h = (r + 1) / 2;
    let b = (r + 1) % 2;
    lemma_fundamental_div_mod(r + 1, 2);
    assert(k + 1 == (q * n + h) * 2 + b) by (nonlinear_arith)
        requires
            k == p * q + r,
            p == 2 * n,
            r + 1 == 2 * h + b,
    ;
    lemma_fundamental_div_mod_converse(k as int + 1, 2, q * n + h, b);
    assert(q * n + h == n * q + h) by (nonlinear_arith);
    lemma_mod_multiples_vanish(q, h, n);
    assert(k == 2 * (q * n) + r) by (nonlinear_arith)
        requires
            k == p * q + r,
            p == 2 * n,
    ;
    lemma_mod_multiples_vanish(q * n, r, 2);
    lemma_reduced_is_mod((k as int + 1) / 2, n);
    lemma_reduced_is_mod(h, n);
}

/// In the first round the distance from `around` stays below the width.
proof fn lemma_half_below_width(k: nat, n: int)
    requires
        k < n,
    ensures
        ((k as int + 1) / 2) % n == (k as int + 1) / 2,
{
    lemma_fundamental_div_mod_converse((k as int + 1) / 2, n, 0, (k as int + 1) / 2);
}

/// Whether one of the first `max - min` indices of the walk is `v`.
pub open spec fn reached_in_first_round(around: int, min: int, max: int, v: int) -> bool {
    exists|k: nat| k < max - min && #[trigger] interleaved_nth(around, min, max, k) == v
}

/// The first `max - min` indices of the walk are `around` first and then every
/// index of `[min, max)` exactly once.
pub proof fn lemma_first_round_visits_each_once(around: int, min: int, max: int)
    requires
        min <= around < max,
    ensures
        interleaved_nth(around, min, max, 0) == around,
        forall|k: nat| k < max - min ==> min <= #[trigger] interleaved_nth(around, min, max, k) < max,
        forall|i: nat, j: nat|
            i < j < max - min ==> #[trigger] interleaved_nth(around, min, max, i)
                != #[trigger] interleaved_nth(around, min, max, j),
        forall|v: int| min <= v < max ==> #[trigger] reached_in_first_round(around, min, max, v),
{
    let n = max - min;
    lemma_fundamental_div_mod_converse(0, n, 0, 0);
    assert forall|k: nat| k < n implies min <= #[trigger] interleaved_nth(around, min, max, k) < max by {
        lemma_half_below_width(k, n);
    }
    assert forall|i: nat, j: nat| i < j < n implies #[trigger] interleaved_nth(around, min, max, i)
        != #[trigger] interleaved_nth(around, min, max, j) by {
        lemma_half_below_width(i, n);
        lemma_half_below_width(j, n);
    }
    assert forall|v: int| min <= v < max implies #[trigger] reached_in_first_round(
        around,
        min,
        max,
        v,
    ) by {
        let d = if v - around < 0 {
            v - around + n
        } else {
            v - around
        };
        let k: nat = if d == 0 {
            0
        } else if 2 * d <= n {
            (2 * d - 1) as nat
        } else {
            (2 * (n - d)) as nat
        };
        assert(k < n);
        lemma_half_below_width(k, n);
        assert(interleaved_nth(around, min, max, k) == v);
    }
}

} // verus!

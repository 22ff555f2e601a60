use vstd::prelude::*;
use crate::units::QuantityKind;

verus! {

/// The thirteen metric prefixes, from tera down to pico, with the empty
/// string at index six standing for the unscaled base unit.
pub open spec fn prefix_model(i: int) -> Seq<char> {
    if i == 0 {
        "T"@
    } else if i == 1 {
        "G"@
    } else if i == 2 {
        "M"@
    } else if i == 3 {
        "k"@
    } else if i == 4 {
        "h"@
    } else if i == 5 {
        "da"@
    } else if i == 6 {
        ""@
    } else if i == 7 {
        "d"@
    } else if i == 8 {
        "c"@
    } else if i == 9 {
        "m"@
    } else if i == 10 {
        "µ"@
    } else if i == 11 {
        "n"@
    } else {
        "p"@
    }
}

/// The metric prefix symbol at an index of the prefix scale.
pub fn prefix_symbol(i: usize) -> (r: &'static str)
    requires
        i <= 12,
    ensures
        r@ == prefix_model(i as int),
{
    if i == 0 {
        "T"
    } else if i == 1 {
        "G"
    } else if i == 2 {
        "M"
    } else if i == 3 {
        "k"
    } else if i == 4 {
        "h"
    } else if i == 5 {
        "da"
    } else if i == 6 {
        ""
    } else if i == 7 {
        "d"
    } else if i == 8 {
        "c"
    } else if i == 9 {
        "m"
    } else if i == 10 {
        "µ"
    } else if i == 11 {
        "n"
    } else {
        "p"
    }
}

/// Which kinds are rescaled with a metric prefix, and the allowed index
/// range of the prefix scale for each: [3, 10] for Length, Mass and
/// Pressure, [6, 10] for Volume, none for the rest.
pub open spec fn prefix_bounds_model(kind: QuantityKind) -> Option<(int, int)> {
    match kind {
        QuantityKind::Length => Some((3, 10)),
        QuantityKind::Mass => Some((3, 10)),
        QuantityKind::Pressure => Some((3, 10)),
        QuantityKind::Volume => Some((6, 10)),
        QuantityKind::Velocity => None,
        QuantityKind::Acceleration => None,
        QuantityKind::Mileage => None,
        QuantityKind::Area => None,
    }
}

/// The index state of the prefix-rescaling loops. The caller holds the
/// floating-point magnitude and drives the loops: while the magnitude is
/// above ten it calls `step_down` and divides by ten exactly when a step
/// was granted; while the magnitude is below one it calls `step_up` and
/// multiplies by ten exactly when a step was granted.
#[derive(Clone, Copy, Debug)]
pub struct Rescaler {
    pub idx: usize,
    pub lo: usize,
    pub hi: usize,
}

impl Rescaler {
    /// The index never leaves the allowed range of the prefix scale.
    pub open spec fn wf(self) -> bool {
        self.lo <= self.idx <= self.hi <= 12
    }

    /// The rescaler of a kind, starting unprefixed at index six; `None`
    /// for the kinds that are not rescaled.
    pub fn new_for(kind: QuantityKind) -> (r: Option<Rescaler>)
        ensures
            (match prefix_bounds_model(kind) {
                None => r is None,
                Some(b) => r == Some(Rescaler { idx: 6, lo: b.0 as usize, hi: b.1 as usize }),
            }),
            (r is Some ==> r->Some_0.wf() && r->Some_0.idx == 6),
    {
        match kind {
            QuantityKind::Length => Some(Rescaler { idx: 6, lo: 3, hi: 10 }),
            QuantityKind::Mass => Some(Rescaler { idx: 6, lo: 3, hi: 10 }),
            QuantityKind::Pressure => Some(Rescaler { idx: 6, lo: 3, hi: 10 }),
            QuantityKind::Volume => Some(Rescaler { idx: 6, lo: 6, hi: 10 }),
            _ => None,
        }
    }

    /// One iteration of the downward loop, taken while the magnitude is
    /// above ten: grants a step toward the larger-unit prefixes unless the
    /// lower bound is already reached. The caller divides its magnitude by
    /// ten exactly when `stepped` is true.
    pub fn step_down(&mut self) -> (stepped: bool)
        requires
            old(self).wf(),
        ensures
            final(self).wf(),
            final(self).lo == old(self).lo,
            final(self).hi == old(self).hi,
            stepped == (old(self).idx > old(self).lo),
            final(self).idx as int == (if stepped {
                old(self).idx - 1
            } else {
                old(self).idx as int
            }),
    {
        if self.idx > self.lo {
            self.idx = self.idx - 1;
            true
        } else {
            false
        }
    }

    /// One iteration of the upward loop, taken while the magnitude is
    /// below one: grants a step toward the smaller-unit prefixes unless
    /// the upper bound is already reached. The caller multiplies its
    /// magnitude by ten exactly when `stepped` is true.
    pub fn step_up(&mut self) -> (stepped: bool)
        requires
            old(self).wf(),
        ensures
            final(self).wf(),
            final(self).lo == old(self).lo,
            final(self).hi == old(self).hi,
            stepped == (old(self).idx < old(self).hi),
            final(self).idx as int == (if stepped {
                old(self).idx + 1
            } else {
                old(self).idx as int
            }),
    {
        if self.idx < self.hi {
            self.idx = self.idx + 1;
            true
        } else {
            false
        }
    }

    /// The prefix symbol selected by the current index.
    pub fn prefix(&self) -> (r: &'static str)
        requires
            self.wf(),
        ensures
            r@ == prefix_model(self.idx as int),
    {
        prefix_symbol(self.idx)
    }
}

/// Ten to the `k`.
pub open spec fn pow10(k: nat) -> int
    decreases k,
{
    if k == 0 {
        1
    } else {
        10 * pow10((k - 1) as nat)
    }
}

proof fn lemma_pow10_adds(a: nat, b: nat)
    ensures
        pow10(a + b) == pow10(a) * pow10(b),
    decreases a,
{
    if a > 0 {
        lemma_pow10_adds((a - 1) as nat, b);
        assert(pow10(a + b) == 10 * pow10((a - 1 + b) as nat));
        assert(10 * (pow10((a - 1) as nat) * pow10(b)) == (10 * pow10((a - 1) as nat)) * pow10(
            b,
        )) by (nonlinear_arith);
    }
}

/// The downward rescaling loop over exact arithmetic: the magnitude is the
/// rational `num / den`, and while it is above ten and the index is above
/// the lower bound, the magnitude is divided by ten (the denominator grows)
/// and the index decremented. Returns the final denominator and index.
pub open spec fn rescale_down(num: int, den: int, idx: int, lo: int) -> (int, int)
    decreases idx - lo,
{
    if num > 10 * den && idx > lo {
        rescale_down(num, 10 * den, idx - 1, lo)
    } else {
        (den, idx)
    }
}

/// The upward rescaling loop over exact arithmetic: while the magnitude
/// `num / den` is below one and the index is below the upper bound, the
/// magnitude is multiplied by ten (the numerator grows) and the index
/// incremented. Returns the final numerator and index.
pub open spec fn rescale_up(num: int, den: int, idx: int, hi: int) -> (int, int)
    decreases hi - idx,
{
    if num < den && idx < hi {
        rescale_up(10 * num, den, idx + 1, hi)
    } else {
        (num, idx)
    }
}

/// Both rescaling loops in order, as the converter runs them: first down,
/// then up. Returns the final numerator, denominator and index.
pub open spec fn rescale_model(num: int, den: int, idx: int, lo: int, hi: int) -> (int, int, int) {
    let (den2, idx2) = rescale_down(num, den, idx, lo);
    let (num3, idx3) = rescale_up(num, den2, idx2, hi);
    (num3, den2, idx3)
}

proof fn lemma_down(num: int, den: int, idx: int, lo: int)
    requires
        den > 0,
        lo <= idx,
    ensures
        ({
            let (d, i) = rescale_down(num, den, idx, lo);
            &&& lo <= i <= idx
            &&& d == den * pow10((idx - i) as nat)
            &&& d > 0
            &&& !(num > 10 * d && i > lo)
            &&& (i != idx ==> num > d)
        }),
    decreases idx - lo,
{
    if num > 10 * den && idx > lo {
        lemma_down(num, 10 * den, idx - 1, lo);
        let (d, i) = rescale_down(num, 10 * den, idx - 1, lo);
        lemma_pow10_adds(1, (idx - 1 - i) as nat);
        assert(den * (10 * pow10((idx - 1 - i) as nat)) == (10 * den) * pow10(
            (idx - 1 - i) as nat,
        )) by (nonlinear_arith);
    } else {
        assert(pow10(0) == 1);
    }
}

proof fn lemma_up(num: int, den: int, idx: int, hi: int)
    requires
        den > 0,
        idx <= hi,
    ensures
        ({
            let (n, i) = rescale_up(num, den, idx, hi);
            &&& idx <= i <= hi
            &&& n == num * pow10((i - idx) as nat)
            &&& !(n < den && i < hi)
            &&& (i != idx ==> n < 10 * den)
        }),
    decreases hi - idx,
{
    if num < den && idx < hi {
        lemma_up(10 * num, den, idx + 1, hi);
        let (n, i) = rescale_up(10 * num, den, idx + 1, hi);
        lemma_pow10_adds(1, (i - idx - 1) as nat);
        assert(num * (10 * pow10((i - idx - 1) as nat)) == (10 * num) * pow10(
            (i - idx - 1) as nat,
        )) by (nonlinear_arith);
    } else {
        assert(pow10(0) == 1);
    }
}

/// The index chosen by rescaling stays inside the allowed range: with the
/// starting index within [lo, hi], the final index is within [lo, hi] too.
pub proof fn lemma_rescale_bounds(num: int, den: int, idx: int, lo: int, hi: int)
    requires
        den > 0,
        lo <= idx <= hi,
    ensures
        ({
            let (n, d, i) = rescale_model(num, den, idx, lo, hi);
            lo <= i <= hi
        }),
{
    lemma_down(num, den, idx, lo);
    let (d2, i2) = rescale_down(num, den, idx, lo);
    lemma_up(num, d2, i2, hi);
}

/// For each prefix-rescaled kind, rescaling from the unprefixed start never
/// chooses a prefix index outside the kind's allowed range: [3, 10] for
/// Length, Mass and Pressure, [6, 10] for Volume.
pub proof fn lemma_kind_prefix_bounds(kind: QuantityKind, num: int, den: int)
    requires
        den > 0,
        prefix_bounds_model(kind) is Some,
    ensures
        ({
            let (lo, hi) = prefix_bounds_model(kind)->Some_0;
            let (n, d, i) = rescale_model(num, den, 6, lo, hi);
            lo <= i <= hi && 3 <= i <= 10
        }),
{
    let (lo, hi) = prefix_bounds_model(kind)->Some_0;
    lemma_rescale_bounds(num, den, 6, lo, hi);
}

/// Rescaling only moves the magnitude by the power of ten that the index
/// moved: undoing the prefix (multiplying the result back by ten for every
/// step the index went down, or dividing for every step it went up) gives
/// back exactly the magnitude the loops started from.
pub proof fn lemma_rescale_value(num: int, den: int, idx: int, lo: int, hi: int)
    requires
        den > 0,
        lo <= idx <= hi,
    ensures
        ({
            let (n, d, i) = rescale_model(num, den, idx, lo, hi);
            &&& d > 0
            &&& (i <= idx ==> n * den * pow10((idx - i) as nat) == num * d)
            &&& (i >= idx ==> n * den == num * d * pow10((i - idx) as nat))
        }),
{
    lemma_down(num, den, idx, lo);
    let (d2, i2) = rescale_down(num, den, idx, lo);
    lemma_up(num, d2, i2, hi);
    let (n3, i3) = rescale_up(num, d2, i2, hi);
    let p1 = pow10((i3 - i2) as nat);
    let p3 = pow10((idx - i2) as nat);
    if i3 <= idx {
        let p2 = pow10((idx - i3) as nat);
        lemma_pow10_adds((idx - i3) as nat, (i3 - i2) as nat);
        assert(p3 == p2 * p1);
        assert((num * p1) * den * p2 == num * (den * (p2 * p1))) by (nonlinear_arith);
        assert(n3 * den * pow10((idx - i3) as nat) == num * d2);
    }
    if i3 >= idx {
        let p4 = pow10((i3 - idx) as nat);
        lemma_pow10_adds((idx - i2) as nat, (i3 - idx) as nat);
        assert(p1 == p3 * p4);
        assert((num * (p3 * p4)) * den == num * (den * p3) * p4) by (nonlinear_arith);
        assert(n3 * den == num * d2 * pow10((i3 - idx) as nat));
    }
}

/// Rescaling is idempotent: the loops stop only in a state that satisfies
/// their stopping conditions or sits at a bound, so running them again on
/// their own output changes nothing.
pub proof fn lemma_rescale_idempotent(num: int, den: int, idx: int, lo: int, hi: int)
    requires
        den > 0,
        lo <= idx <= hi,
    ensures
        ({
            let (n, d, i) = rescale_model(num, den, idx, lo, hi);
            rescale_model(n, d, i, lo, hi) == (n, d, i)
        }),
{
    lemma_down(num, den, idx, lo);
    let (d2, i2) = rescale_down(num, den, idx, lo);
    lemma_up(num, d2, i2, hi);
    let (n3, i3) = rescale_up(num, d2, i2, hi);
    if i3 != i2 {
        assert(n3 < 10 * d2);
        assert(rescale_down(n3, d2, i3, lo) == (d2, i3));
    } else {
        assert(pow10(0) == 1);
        assert(n3 == num);
        assert(rescale_down(n3, d2, i3, lo) == (d2, i3));
    }
    assert(rescale_up(n3, d2, i3, hi) == (n3, i3));
}

} // verus!

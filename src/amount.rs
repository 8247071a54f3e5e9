use vstd::prelude::*;

verus! {

/// Rounds a non-negative amount down to a multiple of ten units.
pub open spec fn truncate_to_ten(x: int) -> int {
    x / 10 * 10
}

/// `v` scaled by `percent`/100, truncated down to a multiple of ten.
pub open spec fn scale_by_percent(v: int, percent: int) -> int {
    truncate_to_ten(v * percent / 100)
}

/// `v` multiplied by a head count, truncated down to a multiple of ten.
pub open spec fn scale_by_count(v: int, n: int) -> int {
    truncate_to_ten(v * n)
}

/// A fractional multiplier expressed in whole percent (`85` stands for 0.85).
#[derive(Clone, Copy, Debug, PartialEq, Eq, Structural)]
pub struct Rate {
    pub percent: u64,
}

/// A non-negative count of the smallest currency unit.
#[derive(Clone, Copy, Debug, PartialEq, Eq, Structural)]
pub struct Amount {
    pub value: u64,
}

pub proof fn lemma_truncate_bounds(x: int)
    requires
        x >= 0,
    ensures
        0 <= truncate_to_ten(x) <= x,
        truncate_to_ten(x) % 10 == 0,
{
    assert(x / 10 * 10 <= x) by (nonlinear_arith)
        requires
            x >= 0,
    ;
    assert(x / 10 >= 0);
    assert((x / 10 * 10) % 10 == 0) by (nonlinear_arith)
        requires
            x >= 0,
    ;
}

/// A discount of at most one hundred percent never raises an amount.
pub proof fn lemma_scale_not_above(v: int, percent: int)
    requires
        v >= 0,
        0 <= percent <= 100,
    ensures
        0 <= scale_by_percent(v, percent) <= v,
{
    assert(0 <= v * percent <= v * 100) by (nonlinear_arith)
        requires
            v >= 0,
            0 <= percent <= 100,
    ;
    assert(v * percent / 100 <= v) by (nonlinear_arith)
        requires
            v >= 0,
            0 <= v * percent <= v * 100,
    ;
    assert(v * percent / 100 >= 0) by (nonlinear_arith)
        requires
            v * percent >= 0,
    ;
    lemma_truncate_bounds(v * percent / 100);
}

proof fn lemma_wide_product(a: u64, b: u64)
    ensures
        (a as int) * (b as int) <= u128::MAX,
        (a as int) * (b as int) >= 0,
{
    assert((a as int) * (b as int) <= (u64::MAX as int) * (u64::MAX as int)) by (nonlinear_arith)
        requires
            a <= u64::MAX,
            b <= u64::MAX,
    ;
    assert((a as int) * (b as int) >= 0) by (nonlinear_arith);
}

impl Amount {
    pub open spec fn spec_add(self, rhs: Amount) -> Amount {
        Amount { value: (self.value + rhs.value) as u64 }
    }

    pub open spec fn spec_sub(self, rhs: Amount) -> Amount {
        Amount { value: (self.value - rhs.value) as u64 }
    }

    /// Sum of two amounts.
    pub fn add(self, rhs: Amount) -> (r: Amount)
        requires
            self.value + rhs.value <= u64::MAX,
        ensures
            r == self.spec_add(rhs),
            r.value == self.value + rhs.value,
    {
        Amount { value: self.value + rhs.value }
    }

    /// Difference of two amounts; the subtrahend must not exceed `self`.
    pub fn sub(self, rhs: Amount) -> (r: Amount)
        requires
            rhs.value <= self.value,
        ensures
            r == self.spec_sub(rhs),
            r.value == self.value - rhs.value,
    {
        Amount { value: self.value - rhs.value }
    }

    /// Scales by a rate and truncates down to a multiple of ten units.
    pub fn mul(self, rate: Rate) -> (r: Amount)
        requires
            scale_by_percent(self.value as int, rate.percent as int) <= u64::MAX,
        ensures
            r.value == scale_by_percent(self.value as int, rate.percent as int),
    {
        proof {
            lemma_wide_product(self.value, rate.percent);
        }
        let wide: u128 = (self.value as u128) * (rate.percent as u128);
        let truncated: u128 = wide / 100 / 10 * 10;
        assert(truncated == scale_by_percent(self.value as int, rate.percent as int));
        Amount { value: truncated as u64 }
    }

    /// Multiplies by a head count and truncates down to a multiple of ten
    /// units; `None` when the result does not fit in `u64`.
    pub fn checked_mul_count(self, count: u64) -> (r: Option<Amount>)
        ensures
            match r {
                Some(a) => a.value == scale_by_count(self.value as int, count as int),
                None => scale_by_count(self.value as int, count as int) > u64::MAX,
            },
    {
        proof {
            lemma_wide_product(self.value, count);
        }
        let wide: u128 = (self.value as u128) * (count as u128);
        let truncated: u128 = wide / 10 * 10;
        if truncated > u64::MAX as u128 {
            None
        } else {
            Some(Amount { value: truncated as u64 })
        }
    }

    /// Sum of two amounts; `None` when it does not fit in `u64`.
    pub fn checked_add(self, rhs: Amount) -> (r: Option<Amount>)
        ensures
            match r {
                Some(a) => a.value == self.value + rhs.value,
                None => self.value + rhs.value > u64::MAX,
            },
    {
        if self.value > u64::MAX - rhs.value {
            None
        } else {
            Some(Amount { value: self.value + rhs.value })
        }
    }
}

/// Adding an amount and then taking it away again gives back the original.
pub proof fn law_add_then_sub(a: Amount, b: Amount)
    requires
        b.value <= a.value,
        a.value + b.value <= u64::MAX,
    ensures
        a.spec_add(b).spec_sub(b) == a,
{
}

} // verus!

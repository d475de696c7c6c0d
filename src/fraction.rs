use vstd::prelude::*;

verus! {

/// A signed ratio `num / den` with a positive denominator: the raw value
/// handed to a bar before it is clamped into `[0, 1]`.
#[derive(Clone, Copy, Debug)]
pub struct Ratio {
    num: i128,
    den: u64,
}

/// A fraction `num / den` within `[0, 1]`: the progress that a bar shows.
#[derive(Clone, Copy, Debug)]
pub struct Fraction {
    num: u64,
    den: u64,
}

impl Ratio {
    pub closed spec fn num_spec(self) -> int {
        self.num as int
    }

    pub closed spec fn den_spec(self) -> int {
        self.den as int
    }

    pub open spec fn wf(self) -> bool {
        0 < self.den_spec() <= u64::MAX && i128::MIN <= self.num_spec() <= i128::MAX
    }

    /// The ratio `num / den`.
    pub fn new(num: i128, den: u64) -> (r: Ratio)
        requires
            den > 0,
        ensures
            r.wf(),
            r == ratio_of(num as int, den as int),
            r.num_spec() == num,
            r.den_spec() == den,
    {
        Ratio { num, den }
    }

    pub fn num(&self) -> (r: i128)
        ensures
            r == self.num_spec(),
    {
        self.num
    }

    pub fn den(&self) -> (r: u64)
        ensures
            r == self.den_spec(),
    {
        self.den
    }
}

impl Fraction {
    pub closed spec fn num_spec(self) -> int {
        self.num as int
    }

    pub closed spec fn den_spec(self) -> int {
        self.den as int
    }

    /// Well formed: a positive denominator and a value within `[0, 1]`.
    pub open spec fn wf(self) -> bool {
        0 < self.den_spec() <= u64::MAX && 0 <= self.num_spec() <= self.den_spec()
    }

    /// The fraction `num / den`.
    pub fn new(num: u64, den: u64) -> (r: Fraction)
        requires
            0 < den,
            num <= den,
        ensures
            r.wf(),
            r == fraction_of(num as int, den as int),
            r.num_spec() == num,
            r.den_spec() == den,
    {
        Fraction { num, den }
    }

    pub fn zero() -> (r: Fraction)
        ensures
            r == fraction_zero(),
            r.wf(),
            r.num_spec() == 0,
            r.den_spec() == 1,
    {
        Fraction { num: 0, den: 1 }
    }

    pub fn one() -> (r: Fraction)
        ensures
            r == fraction_one(),
            r.wf(),
            r.num_spec() == 1,
            r.den_spec() == 1,
    {
        Fraction { num: 1, den: 1 }
    }

    pub fn num(&self) -> (r: u64)
        ensures
            r == self.num_spec(),
    {
        self.num
    }

    pub fn den(&self) -> (r: u64)
        ensures
            r == self.den_spec(),
    {
        self.den
    }

    /// Whether this fraction is zero.
    pub fn is_zero(&self) -> (r: bool)
        ensures
            r == (self.num_spec() == 0),
    {
        self.num == 0
    }
}

pub closed spec fn fraction_zero() -> Fraction {
    Fraction { num: 0, den: 1 }
}

pub closed spec fn fraction_one() -> Fraction {
    Fraction { num: 1, den: 1 }
}

/// The values of zero and one.
pub proof fn lemma_zero_one_values()
    ensures
        fraction_zero().num_spec() == 0,
        fraction_zero().den_spec() == 1,
        fraction_one().num_spec() == 1,
        fraction_one().den_spec() == 1,
{
}

/// The fraction that a ratio is clamped to: zero for a ratio that is not
/// positive, one for a ratio of at least one, and the ratio itself between.
pub open spec fn clamp(r: Ratio) -> Fraction {
    if r.num_spec() <= 0 {
        fraction_zero()
    } else if r.num_spec() >= r.den_spec() {
        fraction_one()
    } else {
        fraction_of(r.num_spec(), r.den_spec())
    }
}

/// The fraction with the given numerator and denominator.
pub closed spec fn fraction_of(num: int, den: int) -> Fraction {
    Fraction { num: num as u64, den: den as u64 }
}

pub broadcast proof fn lemma_fraction_of(num: int, den: int)
    requires
        0 <= num <= den,
        0 < den <= u64::MAX,
    ensures
        #[trigger] fraction_of(num, den).num_spec() == num,
        fraction_of(num, den).den_spec() == den,
{
}

/// The ratio with the given numerator and denominator.
pub closed spec fn ratio_of(num: int, den: int) -> Ratio {
    Ratio { num: num as i128, den: den as u64 }
}

pub broadcast proof fn lemma_ratio_of(num: int, den: int)
    requires
        i128::MIN <= num <= i128::MAX,
        0 < den <= u64::MAX,
    ensures
        #[trigger] ratio_of(num, den).num_spec() == num,
        ratio_of(num, den).den_spec() == den,
        ratio_of(num, den).wf(),
{
}

/// A fraction read as a ratio.
pub open spec fn as_ratio(f: Fraction) -> Ratio {
    ratio_of(f.num_spec(), f.den_spec())
}

/// Numerator of `f + d`: over the shared denominator where both have the
/// same one, else over the product of the two.
pub open spec fn sum_num(f: Fraction, d: Ratio) -> int {
    if f.den_spec() == d.den_spec() {
        f.num_spec() + d.num_spec()
    } else {
        f.num_spec() * d.den_spec() + d.num_spec() * f.den_spec()
    }
}

/// Denominator of `f + d`, as `sum_num` chooses it.
pub open spec fn sum_den(f: Fraction, d: Ratio) -> int {
    if f.den_spec() == d.den_spec() {
        f.den_spec()
    } else {
        f.den_spec() * d.den_spec()
    }
}

/// The sum `f + d`, and each product on the way to it, can be held in a ratio.
pub open spec fn sum_fits(f: Fraction, d: Ratio) -> bool {
    &&& i128::MIN <= sum_num(f, d) <= i128::MAX
    &&& sum_den(f, d) <= u64::MAX
    &&& f.den_spec() != d.den_spec() ==> {
        &&& f.num_spec() * d.den_spec() <= i128::MAX
        &&& i128::MIN <= d.num_spec() * f.den_spec() <= i128::MAX
    }
}

/// The sum `f + d` as a ratio.
pub open spec fn ratio_sum(f: Fraction, d: Ratio) -> Ratio {
    ratio_of(sum_num(f, d), sum_den(f, d))
}

impl Fraction {
    /// This fraction read as a ratio.
    pub fn to_ratio(&self) -> (r: Ratio)
        requires
            self.wf(),
        ensures
            r == as_ratio(*self),
            r.wf(),
            r.num_spec() == self.num_spec(),
            r.den_spec() == self.den_spec(),
    {
        Ratio { num: self.num as i128, den: self.den }
    }

    /// The sum of this fraction and `d`.
    pub fn plus(&self, d: &Ratio) -> (r: Ratio)
        requires
            self.wf(),
            d.wf(),
            sum_fits(*self, *d),
        ensures
            r == ratio_sum(*self, *d),
            r.wf(),
            r.num_spec() == sum_num(*self, *d),
            r.den_spec() == sum_den(*self, *d),
    {
        proof {
            vstd::arithmetic::mul::lemma_mul_strictly_positive(self.den_spec(), d.den_spec());
            vstd::arithmetic::mul::lemma_mul_nonnegative(self.num_spec(), d.den_spec());
        }
        if self.den == d.den {
            Ratio { num: self.num as i128 + d.num, den: self.den }
        } else {
            Ratio {
                num: self.num as i128 * d.den as i128 + d.num * self.den as i128,
                den: self.den * d.den,
            }
        }
    }
}

/// Clamps a ratio into `[0, 1]`.
pub fn clamp_ratio(r: Ratio) -> (f: Fraction)
    requires
        r.wf(),
    ensures
        f == clamp(r),
        f.wf(),
{
    if r.num <= 0 {
        Fraction::zero()
    } else if r.num >= r.den as i128 {
        Fraction::one()
    } else {
        Fraction { num: r.num as u64, den: r.den }
    }
}

} // verus!

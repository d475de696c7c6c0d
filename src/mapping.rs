use crate::bar::Bar;
use crate::clamping::{self, clamping_inv, clamping_text, ClampingBar, ClampingView};
use crate::decimal::{int_string, int_text};
use crate::fraction::{clamp, lemma_ratio_of, ratio_of, Fraction, Ratio};
use crate::render::{BRACKETS_LEN, STYLE_LEN};
use vstd::prelude::*;

verus! {

/// An integer type that a mapping bar can count in.
pub trait Sample: Copy {
    /// The integer this value stands for.
    spec fn value(&self) -> int;

    /// `v` can be held in this type.
    spec fn fits(v: int) -> bool;

    /// The value of this type that stands for `v`, where `v` fits.
    spec fn from_value(v: int) -> Self;

    /// Two values of this type are never more than `u64::MAX` apart, and
    /// `from_value` gives back the integer it was made from.
    proof fn lemma_sample(x: Self, y: Self, v: int)
        ensures
            x.value() - y.value() <= u64::MAX,
            Self::fits(x.value()),
            Self::fits(v) ==> Self::from_value(v).value() == v,
            Self::from_value(x.value()) == x,
    ;

    fn le(&self, other: &Self) -> (r: bool)
        ensures
            r == (self.value() <= other.value()),
    ;

    /// The distance from `base` up to `self`.
    fn offset(&self, base: &Self) -> (r: u64)
        requires
            base.value() <= self.value(),
        ensures
            r == self.value() - base.value(),
    ;

    fn plus(&self, other: &Self) -> (r: Self)
        requires
            Self::fits(self.value() + other.value()),
        ensures
            r.value() == self.value() + other.value(),
    ;

    /// The decimal text of the value.
    fn to_text(&self) -> (r: String)
        ensures
            r@ == int_text(self.value()),
    ;
}

impl Sample for i64 {
    open spec fn value(&self) -> int {
        *self as int
    }

    open spec fn fits(v: int) -> bool {
        i64::MIN <= v <= i64::MAX
    }

    open spec fn from_value(v: int) -> i64 {
        v as i64
    }

    proof fn lemma_sample(x: i64, y: i64, v: int) {
    }

    fn le(&self, other: &i64) -> (r: bool) {
        *self <= *other
    }

    fn offset(&self, base: &i64) -> (r: u64) {
        (*self as i128 - *base as i128) as u64
    }

    fn plus(&self, other: &i64) -> (r: i64) {
        *self + *other
    }

    fn to_text(&self) -> (r: String) {
        if *self < 0 {
            int_string(true, (0 - *self as i128) as u128)
        } else {
            int_string(false, *self as u128)
        }
    }
}

impl Sample for i32 {
    open spec fn value(&self) -> int {
        *self as int
    }

    open spec fn fits(v: int) -> bool {
        i32::MIN <= v <= i32::MAX
    }

    open spec fn from_value(v: int) -> i32 {
        v as i32
    }

    proof fn lemma_sample(x: i32, y: i32, v: int) {
    }

    fn le(&self, other: &i32) -> (r: bool) {
        *self <= *other
    }

    fn offset(&self, base: &i32) -> (r: u64) {
        (*self as i64 - *base as i64) as u64
    }

    fn plus(&self, other: &i32) -> (r: i32) {
        *self + *other
    }

    fn to_text(&self) -> (r: String) {
        if *self < 0 {
            int_string(true, (0 - *self as i128) as u128)
        } else {
            int_string(false, *self as u128)
        }
    }
}

impl Sample for u64 {
    open spec fn value(&self) -> int {
        *self as int
    }

    open spec fn fits(v: int) -> bool {
        0 <= v <= u64::MAX
    }

    open spec fn from_value(v: int) -> u64 {
        v as u64
    }

    proof fn lemma_sample(x: u64, y: u64, v: int) {
    }

    fn le(&self, other: &u64) -> (r: bool) {
        *self <= *other
    }

    fn offset(&self, base: &u64) -> (r: u64) {
        *self - *base
    }

    fn plus(&self, other: &u64) -> (r: u64) {
        *self + *other
    }

    fn to_text(&self) -> (r: String) {
        int_string(false, *self as u128)
    }
}

impl Sample for u32 {
    open spec fn value(&self) -> int {
        *self as int
    }

    open spec fn fits(v: int) -> bool {
        0 <= v <= u32::MAX
    }

    open spec fn from_value(v: int) -> u32 {
        v as u32
    }

    proof fn lemma_sample(x: u32, y: u32, v: int) {
    }

    fn le(&self, other: &u32) -> (r: bool) {
        *self <= *other
    }

    fn offset(&self, base: &u32) -> (r: u64) {
        (*self - *base) as u64
    }

    fn plus(&self, other: &u32) -> (r: u32) {
        *self + *other
    }

    fn to_text(&self) -> (r: String) {
        int_string(false, *self as u128)
    }
}

impl Sample for usize {
    open spec fn value(&self) -> int {
        *self as int
    }

    open spec fn fits(v: int) -> bool {
        0 <= v <= usize::MAX
    }

    open spec fn from_value(v: int) -> usize {
        v as usize
    }

    proof fn lemma_sample(x: usize, y: usize, v: int) {
    }

    fn le(&self, other: &usize) -> (r: bool) {
        *self <= *other
    }

    fn offset(&self, base: &usize) -> (r: u64) {
        (*self - *base) as u64
    }

    fn plus(&self, other: &usize) -> (r: usize) {
        *self + *other
    }

    fn to_text(&self) -> (r: String) {
        int_string(false, *self as u128)
    }
}

} // verus!

verus! {

/// The settings a mapping bar is built from.
pub struct Config<N> {
    /// The rendered width, brackets included.
    pub bar_len: usize,
    /// The five glyphs of the bar.
    pub style: String,
    /// The progress between two significant redraws.
    pub interesting_progress_step: Fraction,
    /// One end of the range.
    pub min_k: N,
    /// The other end of the range.
    pub max_k: N,
}

impl<N: Sample> Config<N> {
    /// The clamping defaults, with the given range.
    pub fn with(min_k: N, max_k: N) -> (r: Config<N>)
        ensures
            r.bar_len == clamping::DEFAULT_BAR_LEN,
            r.style@ == crate::render::standard_style(),
            r.interesting_progress_step.num_spec() == 1,
            r.interesting_progress_step.den_spec() == clamping::DEFAULT_STEP_DEN,
            r.interesting_progress_step.wf(),
            r.min_k == min_k,
            r.max_k == max_k,
    {
        let cfg = clamping::Config::new();
        Config {
            bar_len: cfg.bar_len,
            style: cfg.style,
            interesting_progress_step: cfg.interesting_progress_step,
            min_k,
            max_k,
        }
    }
}

/// The model of a mapping bar.
pub ghost struct MappingView {
    /// The embedded clamping bar.
    pub bar: ClampingView,
    /// The lower end of the range.
    pub min: int,
    /// The upper end of the range.
    pub max: int,
    /// The current sample.
    pub k: int,
}

/// The ratio that sample `k` stands for in `[min, max]`:
/// `(k - min) / (max - min)`. A range of one point counts as full from its
/// point on and as empty below it.
pub open spec fn mapped_ratio(k: int, min: int, max: int) -> Ratio {
    if min < max {
        ratio_of(k - min, max - min)
    } else if k >= max {
        ratio_of(1, 1)
    } else {
        ratio_of(0, 1)
    }
}

/// The model once the sample is `k`.
pub open spec fn mapped_at(v: MappingView, k: int) -> MappingView {
    MappingView {
        bar: ClampingBar::with_progress(v.bar, mapped_ratio(k, v.min, v.max)),
        k,
        ..v
    }
}

/// The invariant of a mapping bar.
pub open spec fn mapping_inv(v: MappingView) -> bool {
    &&& clamping_inv(v.bar)
    &&& v.min <= v.max
    &&& v.bar.fraction == clamp(mapped_ratio(v.k, v.min, v.max))
}

/// ` (k / max)`: what a mapping bar shows after its bar.
pub open spec fn mapping_suffix(v: MappingView) -> Seq<char> {
    seq![' ', '('] + int_text(v.k) + seq![' ', '/', ' '] + int_text(v.max) + seq![')']
}

/// The text of a mapping bar.
pub open spec fn mapping_text(v: MappingView) -> Seq<char> {
    clamping_text(v.bar) + mapping_suffix(v)
}

/// A bar mapping samples from a range `[min_k, max_k]` onto `[0, 1]`.
#[derive(Debug)]
pub struct MappingBar<N> {
    bar: ClampingBar,
    min_k: N,
    max_k: N,
    k: N,
}

impl<N: Sample> View for MappingBar<N> {
    type V = MappingView;

    closed spec fn view(&self) -> MappingView {
        MappingView {
            bar: self.bar@,
            min: self.min_k.value(),
            max: self.max_k.value(),
            k: self.k.value(),
        }
    }
}

/// The embedded clamping bar.
pub fn inner_bar<N: Sample>(mapping_bar: &MappingBar<N>) -> (r: &ClampingBar)
    ensures
        r@ == mapping_bar@.bar,
{
    &mapping_bar.bar
}

/// The current sample.
pub fn inner_k<N: Sample>(mapping_bar: &MappingBar<N>) -> (r: &N)
    ensures
        r.value() == mapping_bar@.k,
{
    &mapping_bar.k
}

impl<N: Sample> MappingBar<N> {
    /// The ratio that `k` stands for in this bar's range.
    fn ratio_at(&self, k: N) -> (r: Ratio)
        requires
            self.min_k.value() <= self.max_k.value(),
        ensures
            r == mapped_ratio(k.value(), self@.min, self@.max),
            r.wf(),
    {
        proof {
            N::lemma_sample(self.max_k, self.min_k, 0);
            N::lemma_sample(k, self.min_k, 0);
            N::lemma_sample(self.min_k, k, 0);
        }
        if !self.max_k.le(&self.min_k) {
            let den = self.max_k.offset(&self.min_k);
            let num: i128 = if self.min_k.le(&k) {
                k.offset(&self.min_k) as i128
            } else {
                0 - self.min_k.offset(&k) as i128
            };
            Ratio::new(num, den)
        } else if self.max_k.le(&k) {
            Ratio::new(1, 1)
        } else {
            Ratio::new(0, 1)
        }
    }

    /// A bar over the range between `from` and `to`, in either order, with
    /// the given bar underneath, at the sample `from`.
    fn over(bar: ClampingBar, from: N, to: N) -> (r: MappingBar<N>)
        requires
            bar.wf(),
        ensures
            r.wf(),
            r@.min == (if from.value() <= to.value() {
                from.value()
            } else {
                to.value()
            }),
            r@.max == (if from.value() <= to.value() {
                to.value()
            } else {
                from.value()
            }),
            r@ == mapped_at(MappingView { bar: bar@, ..r@ }, from.value()),
    {
        let (min_k, max_k) = if from.le(&to) {
            (from, to)
        } else {
            (to, from)
        };
        let mut r = MappingBar { bar, min_k, max_k, k: from };
        let ratio = r.ratio_at(from);
        r.bar.set(ratio);
        r
    }

    /// A bar over the range between `min_k` and `max_k` (swapped if given in
    /// reverse), with the default settings, at the sample `min_k`.
    pub fn new(min_k: N, max_k: N) -> (r: MappingBar<N>)
        ensures
            r.wf(),
            r@.min == (if min_k.value() <= max_k.value() {
                min_k.value()
            } else {
                max_k.value()
            }),
            r@.max == (if min_k.value() <= max_k.value() {
                max_k.value()
            } else {
                min_k.value()
            }),
            r@.k == min_k.value(),
            r@.bar == ClampingBar::with_progress(
                ClampingBar::new_view(),
                mapped_ratio(min_k.value(), r@.min, r@.max),
            ),
    {
        MappingBar::over(ClampingBar::new(), min_k, max_k)
    }

    /// The same as `new`: a bar over the range between `from` and `to`, at
    /// the sample `from`.
    pub fn with_range(from: N, to: N) -> (r: MappingBar<N>)
        ensures
            r.wf(),
            r@.min == (if from.value() <= to.value() {
                from.value()
            } else {
                to.value()
            }),
            r@.max == (if from.value() <= to.value() {
                to.value()
            } else {
                from.value()
            }),
            r@.k == from.value(),
            r@.bar == ClampingBar::with_progress(
                ClampingBar::new_view(),
                mapped_ratio(from.value(), r@.min, r@.max),
            ),
    {
        MappingBar::new(from, to)
    }

    /// A bar with the given settings, at the sample `min_k`. A style that is
    /// not five glyphs long is replaced by the default style.
    pub fn with(cfg: Config<N>) -> (r: MappingBar<N>)
        requires
            cfg.bar_len > BRACKETS_LEN,
            cfg.interesting_progress_step.wf(),
            cfg.interesting_progress_step.num_spec() > 0,
        ensures
            r.wf(),
            r@.min == (if cfg.min_k.value() <= cfg.max_k.value() {
                cfg.min_k.value()
            } else {
                cfg.max_k.value()
            }),
            r@.max == (if cfg.min_k.value() <= cfg.max_k.value() {
                cfg.max_k.value()
            } else {
                cfg.min_k.value()
            }),
            r@.k == cfg.min_k.value(),
            r@.bar.len == cfg.bar_len,
            r@.bar.style == (if cfg.style@.len() == STYLE_LEN {
                cfg.style@
            } else {
                crate::render::standard_style()
            }),
            r@.bar.fraction == clamp(mapped_ratio(cfg.min_k.value(), r@.min, r@.max)),
            r@.bar.last is None,
            r@.bar.step == cfg.interesting_progress_step,
    {
        let bar = ClampingBar::with(
            clamping::Config {
                bar_len: cfg.bar_len,
                style: cfg.style,
                interesting_progress_step: cfg.interesting_progress_step,
            },
        );
        MappingBar::over(bar, cfg.min_k, cfg.max_k)
    }

    /// Wraps this bar in a timed bar whose clock starts now.
    pub fn timed(self) -> (r: crate::timing::TimedBar<MappingBar<N>>)
        requires
            self.wf(),
        ensures
            r.wf(),
            r@.bar == self@,
            !r@.remembering,
    {
        crate::timing::TimedBar::new(self)
    }
}

} // verus!

verus! {

impl<N: Sample> Bar for MappingBar<N> {
    type Progress = N;

    open spec fn wf(&self) -> bool {
        mapping_inv(self@)
    }

    open spec fn len_of(v: MappingView) -> int {
        v.bar.len
    }

    open spec fn with_len(v: MappingView, n: int) -> MappingView {
        MappingView { bar: ClampingBar::with_len(v.bar, n), ..v }
    }

    open spec fn progress_of(v: MappingView) -> N {
        N::from_value(v.k)
    }

    open spec fn fraction_of(v: MappingView) -> Fraction {
        v.bar.fraction
    }

    open spec fn start_of(v: MappingView) -> N {
        N::from_value(v.min)
    }

    open spec fn end_of(v: MappingView) -> N {
        N::from_value(v.max)
    }

    open spec fn made_progress(v: MappingView) -> bool {
        v.k > v.min
    }

    open spec fn can_set(v: MappingView, p: N) -> bool {
        true
    }

    open spec fn with_progress(v: MappingView, p: N) -> MappingView {
        mapped_at(v, p.value())
    }

    open spec fn can_add(v: MappingView, delta: N) -> bool {
        N::fits(v.k + delta.value())
    }

    open spec fn added(v: MappingView, delta: N) -> MappingView {
        mapped_at(v, v.k + delta.value())
    }

    open spec fn shows(v: MappingView, s: Seq<char>) -> bool {
        s == mapping_text(v)
    }

    open spec fn must_redraw(v: MappingView) -> bool {
        ClampingBar::must_redraw(v.bar)
    }

    open spec fn may_redraw(v: MappingView) -> bool {
        ClampingBar::may_redraw(v.bar)
    }

    open spec fn remembered(v: MappingView) -> MappingView {
        MappingView { bar: ClampingBar::remembered(v.bar), ..v }
    }

    fn len(&self) -> (r: usize) {
        self.bar.len()
    }

    fn set_len(&mut self, new_bar_len: usize) {
        self.bar.set_len(new_bar_len);
    }

    fn progress(&self) -> (r: N) {
        proof {
            N::lemma_sample(self.k, self.k, 0);
        }
        self.k
    }

    fn fraction(&self) -> (r: Fraction) {
        self.bar.fraction()
    }

    fn start(&self) -> (r: N) {
        proof {
            N::lemma_sample(self.min_k, self.min_k, 0);
        }
        self.min_k
    }

    fn end(&self) -> (r: N) {
        proof {
            N::lemma_sample(self.max_k, self.max_k, 0);
        }
        self.max_k
    }

    fn has_made_progress(&self) -> (r: bool) {
        !self.k.le(&self.min_k)
    }

    fn set(&mut self, new_progress: N) {
        let ratio = self.ratio_at(new_progress);
        self.k = new_progress;
        self.bar.set(ratio);
    }

    fn add(&mut self, delta: N) {
        let k = self.k.plus(&delta);
        self.set(k);
    }

    fn display(&self) -> (r: String) {
        let mut out = self.bar.display();
        proof {
            reveal_strlit(" (");
            reveal_strlit(" / ");
            reveal_strlit(")");
        }
        out.append(" (");
        out.append(self.k.to_text().as_str());
        out.append(" / ");
        out.append(self.max_k.to_text().as_str());
        out.append(")");
        assert(out@ =~= mapping_text(self@));
        out
    }

    fn has_progressed_significantly(&self) -> (r: bool) {
        self.bar.has_progressed_significantly()
    }

    fn remember_progress(&mut self) {
        self.bar.remember_progress();
    }
}

} // verus!

verus! {

/// Setting the same sample twice gives the same bar as setting it once.
pub proof fn lemma_mapped_set_idempotent<N: Sample>(v: MappingView, k: N)
    requires
        mapping_inv(v),
    ensures
        MappingBar::<N>::with_progress(MappingBar::<N>::with_progress(v, k), k)
            == MappingBar::<N>::with_progress(v, k),
        mapping_text(MappingBar::<N>::with_progress(MappingBar::<N>::with_progress(v, k), k))
            == mapping_text(MappingBar::<N>::with_progress(v, k)),
{
}

/// Over a range of more than one point, the lower end shows the same bar as
/// a clamping bar set to zero, and the upper end the same bar as one set to one.
pub proof fn lemma_mapped_ends<N: Sample>(v: MappingView, lo: N, hi: N)
    requires
        mapping_inv(v),
        v.min < v.max,
        v.max - v.min <= u64::MAX,
        lo.value() == v.min,
        hi.value() == v.max,
    ensures
        MappingBar::<N>::with_progress(v, lo).bar == ClampingBar::with_progress(
            v.bar,
            ratio_of(0, 1),
        ),
        MappingBar::<N>::with_progress(v, hi).bar == ClampingBar::with_progress(
            v.bar,
            ratio_of(1, 1),
        ),
        clamping_text(MappingBar::<N>::with_progress(v, lo).bar) == clamping_text(
            ClampingBar::with_progress(v.bar, ratio_of(0, 1)),
        ),
        clamping_text(MappingBar::<N>::with_progress(v, hi).bar) == clamping_text(
            ClampingBar::with_progress(v.bar, ratio_of(1, 1)),
        ),
{
    lemma_ratio_of(0, v.max - v.min);
    lemma_ratio_of(v.max - v.min, v.max - v.min);
    lemma_ratio_of(0, 1);
    lemma_ratio_of(1, 1);
}

} // verus!

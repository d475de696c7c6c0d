use crate::bar::Bar;
use crate::clamping::{clamping_text, ClampingBar};
use crate::decimal::int_text;
use crate::fraction::Fraction;
use crate::mapping::{mapped_at, mapping_inv, MappingBar, MappingView};
use vstd::prelude::*;
use vstd::std_specs::convert::FromSpec;

verus! {

/// Successes and attempts, counted apart.
#[derive(Clone, Copy, Debug, PartialEq, Eq)]
pub struct BernoulliProgress {
    pub successes: usize,
    pub attempts: usize,
}

impl From<(usize, usize)> for BernoulliProgress {
    fn from(pair: (usize, usize)) -> (r: BernoulliProgress) {
        BernoulliProgress { successes: pair.0, attempts: pair.1 }
    }
}

impl vstd::std_specs::convert::FromSpecImpl<(usize, usize)> for BernoulliProgress {
    open spec fn obeys_from_spec() -> bool {
        true
    }

    open spec fn from_spec(pair: (usize, usize)) -> BernoulliProgress {
        BernoulliProgress { successes: pair.0, attempts: pair.1 }
    }
}

/// A count of successes, each of them one attempt.
impl From<usize> for BernoulliProgress {
    fn from(successes: usize) -> (r: BernoulliProgress) {
        BernoulliProgress { successes, attempts: successes }
    }
}

impl vstd::std_specs::convert::FromSpecImpl<usize> for BernoulliProgress {
    open spec fn obeys_from_spec() -> bool {
        true
    }

    open spec fn from_spec(successes: usize) -> BernoulliProgress {
        BernoulliProgress { successes, attempts: successes }
    }
}

/// One attempt, a success or not.
impl From<bool> for BernoulliProgress {
    fn from(is_successful: bool) -> (r: BernoulliProgress) {
        BernoulliProgress { successes: if is_successful { 1 } else { 0 }, attempts: 1 }
    }
}

impl vstd::std_specs::convert::FromSpecImpl<bool> for BernoulliProgress {
    open spec fn obeys_from_spec() -> bool {
        true
    }

    open spec fn from_spec(is_successful: bool) -> BernoulliProgress {
        BernoulliProgress {
            successes: if is_successful {
                1
            } else {
                0
            },
            attempts: 1,
        }
    }
}

/// Both counts of `a + b` can be held.
pub open spec fn sum_fits(a: BernoulliProgress, b: BernoulliProgress) -> bool {
    &&& a.successes + b.successes <= usize::MAX
    &&& a.attempts + b.attempts <= usize::MAX
}

/// The counts added field by field.
impl core::ops::Add for BernoulliProgress {
    type Output = BernoulliProgress;

    fn add(self, other: BernoulliProgress) -> (r: BernoulliProgress) {
        BernoulliProgress {
            successes: self.successes + other.successes,
            attempts: self.attempts + other.attempts,
        }
    }
}

impl vstd::std_specs::ops::AddSpecImpl for BernoulliProgress {
    open spec fn obeys_add_spec() -> bool {
        true
    }

    open spec fn add_req(self, other: BernoulliProgress) -> bool {
        sum_fits(self, other)
    }

    open spec fn add_spec(self, other: BernoulliProgress) -> BernoulliProgress {
        BernoulliProgress {
            successes: (self.successes + other.successes) as usize,
            attempts: (self.attempts + other.attempts) as usize,
        }
    }
}

/// The counts subtracted field by field.
impl core::ops::Sub for BernoulliProgress {
    type Output = BernoulliProgress;

    fn sub(self, subtrahend: BernoulliProgress) -> (r: BernoulliProgress) {
        BernoulliProgress {
            successes: self.successes - subtrahend.successes,
            attempts: self.attempts - subtrahend.attempts,
        }
    }
}

impl vstd::std_specs::ops::SubSpecImpl for BernoulliProgress {
    open spec fn obeys_sub_spec() -> bool {
        true
    }

    open spec fn sub_req(self, subtrahend: BernoulliProgress) -> bool {
        subtrahend.successes <= self.successes && subtrahend.attempts <= self.attempts
    }

    open spec fn sub_spec(self, subtrahend: BernoulliProgress) -> BernoulliProgress {
        BernoulliProgress {
            successes: (self.successes - subtrahend.successes) as usize,
            attempts: (self.attempts - subtrahend.attempts) as usize,
        }
    }
}

/// The model of a Bernoulli bar.
pub ghost struct BernoulliView {
    /// The embedded mapping bar over `[0, goal]`, counting successes.
    pub bar: MappingView,
    /// The attempts.
    pub attempts: int,
}

/// The invariant of a Bernoulli bar.
pub open spec fn bernoulli_inv(v: BernoulliView) -> bool {
    &&& mapping_inv(v.bar)
    &&& v.bar.min == 0
    &&& 0 <= v.bar.k <= usize::MAX
    &&& 0 <= v.bar.max <= usize::MAX
    &&& 0 <= v.attempts <= usize::MAX
}

/// ` (successes / goal # attempts)`: what a Bernoulli bar shows after its bar.
pub open spec fn bernoulli_suffix(v: BernoulliView) -> Seq<char> {
    seq![' ', '('] + int_text(v.bar.k) + seq![' ', '/', ' '] + int_text(v.bar.max) + seq![
        ' ',
        '#',
        ' ',
    ] + int_text(v.attempts) + seq![')']
}

/// The text of a Bernoulli bar.
pub open spec fn bernoulli_text(v: BernoulliView) -> Seq<char> {
    clamping_text(v.bar.bar) + bernoulli_suffix(v)
}

/// The model once the counts are `successes` and `attempts`.
pub open spec fn counted_at(v: BernoulliView, successes: int, attempts: int) -> BernoulliView {
    BernoulliView { bar: mapped_at(v.bar, successes), attempts }
}

/// A bar counting successes towards a goal, and attempts beside them.
#[derive(Debug)]
pub struct BernoulliBar {
    bar: MappingBar<usize>,
    attempts: usize,
}

impl View for BernoulliBar {
    type V = BernoulliView;

    closed spec fn view(&self) -> BernoulliView {
        BernoulliView { bar: self.bar@, attempts: self.attempts as int }
    }
}

impl BernoulliBar {
    /// A bar with the default settings, counting towards `n` successes, at
    /// no success and no attempt.
    pub fn from_goal(n: usize) -> (r: BernoulliBar)
        ensures
            r.wf(),
            r@.bar.min == 0,
            r@.bar.max == n,
            r@.bar.k == 0,
            r@.attempts == 0,
            r@.bar.bar == ClampingBar::with_progress(
                ClampingBar::new_view(),
                crate::mapping::mapped_ratio(0, 0, n as int),
            ),
    {
        BernoulliBar { bar: MappingBar::with_range(0, n), attempts: 0 }
    }

    /// The same as `from_goal`.
    pub fn with_goal(end: usize) -> (r: BernoulliBar)
        ensures
            r.wf(),
            r@.bar.min == 0,
            r@.bar.max == end,
            r@.bar.k == 0,
            r@.attempts == 0,
            r@.bar.bar == ClampingBar::with_progress(
                ClampingBar::new_view(),
                crate::mapping::mapped_ratio(0, 0, end as int),
            ),
    {
        BernoulliBar::from_goal(end)
    }

    /// Wraps this bar in a timed bar whose clock starts now.
    pub fn timed(self) -> (r: crate::timing::TimedBar<BernoulliBar>)
        requires
            self.wf(),
        ensures
            r.wf(),
            r@.bar == self@,
            !r@.remembering,
    {
        crate::timing::TimedBar::new(self)
    }
}

impl Bar for BernoulliBar {
    type Progress = BernoulliProgress;

    open spec fn wf(&self) -> bool {
        bernoulli_inv(self@)
    }

    open spec fn len_of(v: BernoulliView) -> int {
        v.bar.bar.len
    }

    open spec fn with_len(v: BernoulliView, n: int) -> BernoulliView {
        BernoulliView { bar: MappingBar::<usize>::with_len(v.bar, n), ..v }
    }

    open spec fn progress_of(v: BernoulliView) -> BernoulliProgress {
        BernoulliProgress { successes: v.bar.k as usize, attempts: v.attempts as usize }
    }

    open spec fn fraction_of(v: BernoulliView) -> Fraction {
        v.bar.bar.fraction
    }

    /// No success and no attempt.
    open spec fn start_of(v: BernoulliView) -> BernoulliProgress {
        BernoulliProgress { successes: 0, attempts: 0 }
    }

    /// The goal, in one attempt.
    open spec fn end_of(v: BernoulliView) -> BernoulliProgress {
        BernoulliProgress { successes: v.bar.max as usize, attempts: 1 }
    }

    open spec fn made_progress(v: BernoulliView) -> bool {
        v.bar.k > 0
    }

    open spec fn can_set(v: BernoulliView, p: BernoulliProgress) -> bool {
        true
    }

    open spec fn with_progress(v: BernoulliView, p: BernoulliProgress) -> BernoulliView {
        counted_at(v, p.successes as int, p.attempts as int)
    }

    open spec fn can_add(v: BernoulliView, delta: BernoulliProgress) -> bool {
        &&& v.bar.k + delta.successes <= usize::MAX
        &&& v.attempts + delta.attempts <= usize::MAX
    }

    open spec fn added(v: BernoulliView, delta: BernoulliProgress) -> BernoulliView {
        counted_at(v, v.bar.k + delta.successes, v.attempts + delta.attempts)
    }

    open spec fn shows(v: BernoulliView, s: Seq<char>) -> bool {
        s == bernoulli_text(v)
    }

    open spec fn must_redraw(v: BernoulliView) -> bool {
        ClampingBar::must_redraw(v.bar.bar)
    }

    open spec fn may_redraw(v: BernoulliView) -> bool {
        ClampingBar::may_redraw(v.bar.bar)
    }

    open spec fn remembered(v: BernoulliView) -> BernoulliView {
        BernoulliView { bar: MappingBar::<usize>::remembered(v.bar), ..v }
    }

    fn len(&self) -> (r: usize) {
        self.bar.len()
    }

    fn set_len(&mut self, new_bar_len: usize) {
        self.bar.set_len(new_bar_len);
    }

    fn progress(&self) -> (r: BernoulliProgress) {
        BernoulliProgress { successes: *crate::mapping::inner_k(&self.bar), attempts: self.attempts }
    }

    fn fraction(&self) -> (r: Fraction) {
        self.bar.fraction()
    }

    fn start(&self) -> (r: BernoulliProgress) {
        BernoulliProgress { successes: 0, attempts: 0 }
    }

    fn end(&self) -> (r: BernoulliProgress) {
        BernoulliProgress { successes: self.bar.end(), attempts: 1 }
    }

    fn has_made_progress(&self) -> (r: bool) {
        *crate::mapping::inner_k(&self.bar) > 0
    }

    fn set(&mut self, outcome: BernoulliProgress) {
        self.bar.set(outcome.successes);
        self.attempts = outcome.attempts;
    }

    fn add(&mut self, delta: BernoulliProgress) {
        let sum = self.progress() + delta;
        self.set(sum);
    }

    fn display(&self) -> (r: String) {
        let mut out = crate::mapping::inner_bar(&self.bar).display();
        proof {
            reveal_strlit(" (");
            reveal_strlit(" / ");
            reveal_strlit(" # ");
            reveal_strlit(")");
        }
        out.append(" (");
        out.append(crate::mapping::Sample::to_text(crate::mapping::inner_k(&self.bar)).as_str());
        out.append(" / ");
        out.append(crate::mapping::Sample::to_text(&self.bar.end()).as_str());
        out.append(" # ");
        out.append(crate::mapping::Sample::to_text(&self.attempts).as_str());
        out.append(")");
        assert(out@ =~= bernoulli_text(self@));
        out
    }

    fn has_progressed_significantly(&self) -> (r: bool) {
        self.bar.has_progressed_significantly()
    }

    fn remember_progress(&mut self) {
        self.bar.remember_progress();
    }
}

} // verus!

verus! {

/// Adding a success twice counts two more successes and two more attempts.
pub proof fn lemma_add_success_twice(v: BernoulliView)
    requires
        bernoulli_inv(v),
        v.bar.k + 2 <= usize::MAX,
        v.attempts + 2 <= usize::MAX,
    ensures
        ({
            let once = BernoulliBar::added(v, BernoulliProgress::from_spec(true));
            let twice = BernoulliBar::added(once, BernoulliProgress::from_spec(true));
            &&& BernoulliBar::can_add(v, BernoulliProgress::from_spec(true))
            &&& BernoulliBar::can_add(once, BernoulliProgress::from_spec(true))
            &&& twice.bar.k == v.bar.k + 2
            &&& twice.attempts == v.attempts + 2
        }),
{
}

/// Adding a failure counts one more attempt; the successes and the bar they
/// fill stay as they were.
pub proof fn lemma_add_failure(v: BernoulliView)
    requires
        bernoulli_inv(v),
        v.attempts + 1 <= usize::MAX,
    ensures
        BernoulliBar::can_add(v, BernoulliProgress::from_spec(false)),
        BernoulliBar::added(v, BernoulliProgress::from_spec(false)).bar.k == v.bar.k,
        BernoulliBar::added(v, BernoulliProgress::from_spec(false)).attempts == v.attempts + 1,
        BernoulliBar::added(v, BernoulliProgress::from_spec(false)).bar.bar == v.bar.bar,
        clamping_text(BernoulliBar::added(v, BernoulliProgress::from_spec(false)).bar.bar)
            == clamping_text(v.bar.bar),
{
}

/// Setting the same counts twice gives the same bar as setting them once.
pub proof fn lemma_counts_set_idempotent(v: BernoulliView, p: BernoulliProgress)
    requires
        bernoulli_inv(v),
    ensures
        BernoulliBar::with_progress(BernoulliBar::with_progress(v, p), p)
            == BernoulliBar::with_progress(v, p),
        bernoulli_text(BernoulliBar::with_progress(BernoulliBar::with_progress(v, p), p))
            == bernoulli_text(BernoulliBar::with_progress(v, p)),
{
}

} // verus!

use crate::fraction::Fraction;
use vstd::prelude::*;

verus! {

/// Decides whether progress has moved far enough past the last redraw to be
/// worth drawing again.
#[derive(Clone, Copy, Debug)]
pub struct PrintController {
    last_printed_progress: Option<Fraction>,
    interesting_progress_step: Fraction,
}

/// How many whole steps fit into `p`: `floor(p / step)`.
pub open spec fn step_level(p: Fraction, step: Fraction) -> int {
    (p.num_spec() * step.den_spec()) / (p.den_spec() * step.num_spec())
}

/// Progress is significant when it lies in a higher step than the last
/// remembered progress, which counts as zero while nothing is remembered.
pub open spec fn is_significant(
    progress: Fraction,
    last: Option<Fraction>,
    step: Fraction,
) -> bool {
    let base = match last {
        Some(l) => step_level(l, step),
        None => 0,
    };
    step_level(progress, step) > base
}

impl PrintController {
    /// The last remembered progress, if any.
    pub closed spec fn last(&self) -> Option<Fraction> {
        self.last_printed_progress
    }

    /// The step between two significant levels.
    pub closed spec fn step(&self) -> Fraction {
        self.interesting_progress_step
    }

    /// Well formed: a positive step and well formed fractions.
    pub open spec fn wf(&self) -> bool {
        &&& self.step().wf()
        &&& self.step().num_spec() > 0
        &&& self.last() is Some ==> self.last()->0.wf()
    }

    /// A controller with the given step that has remembered nothing yet.
    pub fn from(interesting_progress_step: Fraction) -> (r: PrintController)
        requires
            interesting_progress_step.wf(),
            interesting_progress_step.num_spec() > 0,
        ensures
            r.wf(),
            r.last() is None,
            r.step() == interesting_progress_step,
    {
        PrintController { last_printed_progress: None, interesting_progress_step }
    }

    /// `floor(progress / step)`.
    fn map(&self, progress: &Fraction) -> (r: u128)
        requires
            self.wf(),
            progress.wf(),
        ensures
            r == step_level(*progress, self.step()),
    {
        let step = &self.interesting_progress_step;
        proof {
            vstd::arithmetic::mul::lemma_mul_upper_bound(
                progress.num_spec(),
                u64::MAX as int,
                step.den_spec(),
                u64::MAX as int,
            );
            vstd::arithmetic::mul::lemma_mul_upper_bound(
                progress.den_spec(),
                u64::MAX as int,
                step.num_spec(),
                u64::MAX as int,
            );
            vstd::arithmetic::mul::lemma_mul_strictly_positive(
                progress.den_spec(),
                step.num_spec(),
            );
            vstd::arithmetic::mul::lemma_mul_nonnegative(progress.num_spec(), step.den_spec());
            vstd::arithmetic::div_mod::lemma_div_pos_is_pos(
                progress.num_spec() * step.den_spec(),
                progress.den_spec() * step.num_spec(),
            );
            vstd::arithmetic::div_mod::lemma_div_is_ordered_by_denominator(
                progress.num_spec() * step.den_spec(),
                1,
                progress.den_spec() * step.num_spec(),
            );
        }
        (progress.num() as u128 * step.den() as u128) / (progress.den() as u128
            * step.num() as u128)
    }

    /// Whether `progress` is significant against the last remembered progress.
    pub fn has_progressed_significantly(&self, progress: &Fraction) -> (r: bool)
        requires
            self.wf(),
            progress.wf(),
        ensures
            r == is_significant(*progress, self.last(), self.step()),
    {
        let base = match &self.last_printed_progress {
            Some(last) => self.map(last),
            None => 0,
        };
        self.map(progress) > base
    }

    /// Remembers `progress` as the last redrawn progress.
    pub fn update(&mut self, progress: Fraction)
        requires
            old(self).wf(),
            progress.wf(),
        ensures
            final(self).wf(),
            final(self).last() == Some(progress),
            final(self).step() == old(self).step(),
    {
        self.last_printed_progress = Some(progress);
    }
}

} // verus!

verus! {

/// Before anything is remembered, progress is significant exactly when it
/// has reached one step.
pub proof fn lemma_first_observation(progress: Fraction, step: Fraction)
    requires
        progress.wf(),
        step.wf(),
        step.num_spec() > 0,
    ensures
        is_significant(progress, None, step) == (progress.num_spec() * step.den_spec()
            >= step.num_spec() * progress.den_spec()),
{
    let a = progress.num_spec() * step.den_spec();
    let b = progress.den_spec() * step.num_spec();
    vstd::arithmetic::mul::lemma_mul_strictly_positive(progress.den_spec(), step.num_spec());
    vstd::arithmetic::mul::lemma_mul_nonnegative(progress.num_spec(), step.den_spec());
    vstd::arithmetic::mul::lemma_mul_is_commutative(progress.den_spec(), step.num_spec());
    if a >= b {
        vstd::arithmetic::div_mod::lemma_div_is_ordered(b, a, b);
        vstd::arithmetic::div_mod::lemma_div_by_self(b);
    } else {
        vstd::arithmetic::div_mod::lemma_basic_div(a, b);
    }
}

} // verus!

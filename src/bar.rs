use crate::fraction::Fraction;
use crate::render::BRACKETS_LEN;
use vstd::prelude::*;

verus! {

/// What every progress bar offers: a length, a progress value that can be set
/// and added to, the fraction it shows, its text, and the redraw throttle.
///
/// Each bar is modelled by its view; the spec functions below say what each
/// operation does to that model.
pub trait Bar: Sized + View {
    /// The value that the bar's progress is given in.
    type Progress;

    /// Well formed: the bar's invariant.
    spec fn wf(&self) -> bool;

    /// The rendered width, brackets included.
    spec fn len_of(v: Self::V) -> int;

    /// The model after the width is set to `n`.
    spec fn with_len(v: Self::V, n: int) -> Self::V;

    /// The current progress value.
    spec fn progress_of(v: Self::V) -> Self::Progress;

    /// The fraction of the bar that is filled.
    spec fn fraction_of(v: Self::V) -> Fraction;

    /// The progress value at which the bar starts.
    spec fn start_of(v: Self::V) -> Self::Progress;

    /// The progress value at which the bar is full.
    spec fn end_of(v: Self::V) -> Self::Progress;

    /// The progress lies beyond the start.
    spec fn made_progress(v: Self::V) -> bool;

    /// `p` can be taken as the new progress.
    spec fn can_set(v: Self::V, p: Self::Progress) -> bool;

    /// The model after the progress is set to `p`.
    spec fn with_progress(v: Self::V, p: Self::Progress) -> Self::V;

    /// `delta` can be added to the current progress.
    spec fn can_add(v: Self::V, delta: Self::Progress) -> bool;

    /// The model after `delta` is added to the progress.
    spec fn added(v: Self::V, delta: Self::Progress) -> Self::V;

    /// `s` is a text that the bar may show.
    spec fn shows(v: Self::V, s: Seq<char>) -> bool;

    /// A redraw is owed.
    spec fn must_redraw(v: Self::V) -> bool;

    /// A redraw may be reported.
    spec fn may_redraw(v: Self::V) -> bool;

    /// The model after the progress is remembered as redrawn.
    spec fn remembered(v: Self::V) -> Self::V;

    fn len(&self) -> (r: usize)
        requires
            self.wf(),
        ensures
            r == Self::len_of(self@),
    ;

    /// Sets the rendered width, brackets included.
    fn set_len(&mut self, new_bar_len: usize)
        requires
            old(self).wf(),
            new_bar_len > BRACKETS_LEN,
        ensures
            final(self)@ == Self::with_len(old(self)@, new_bar_len as int),
            final(self).wf(),
    ;

    fn progress(&self) -> (r: Self::Progress)
        requires
            self.wf(),
        ensures
            r == Self::progress_of(self@),
    ;

    fn fraction(&self) -> (r: Fraction)
        requires
            self.wf(),
        ensures
            r == Self::fraction_of(self@),
            r.wf(),
    ;

    fn start(&self) -> (r: Self::Progress)
        requires
            self.wf(),
        ensures
            r == Self::start_of(self@),
    ;

    fn end(&self) -> (r: Self::Progress)
        requires
            self.wf(),
        ensures
            r == Self::end_of(self@),
    ;

    /// Whether the progress lies beyond the start.
    fn has_made_progress(&self) -> (r: bool)
        requires
            self.wf(),
        ensures
            r == Self::made_progress(self@),
    ;

    /// Sets the progress to the given value.
    fn set(&mut self, new_progress: Self::Progress)
        requires
            old(self).wf(),
            Self::can_set(old(self)@, new_progress),
        ensures
            final(self)@ == Self::with_progress(old(self)@, new_progress),
            final(self).wf(),
    ;

    /// Adds the given progress to the current progress.
    fn add(&mut self, delta: Self::Progress)
        requires
            old(self).wf(),
            Self::can_add(old(self)@, delta),
        ensures
            final(self)@ == Self::added(old(self)@, delta),
            final(self).wf(),
    ;

    /// The printable bar.
    fn display(&self) -> (r: String)
        requires
            self.wf(),
        ensures
            Self::shows(self@, r@),
    ;

    /// Whether progress has moved far enough since the last redraw.
    fn has_progressed_significantly(&self) -> (r: bool)
        requires
            self.wf(),
        ensures
            Self::must_redraw(self@) ==> r,
            r ==> Self::may_redraw(self@),
    ;

    /// Remembers the current progress as redrawn.
    fn remember_progress(&mut self)
        requires
            old(self).wf(),
        ensures
            final(self)@ == Self::remembered(old(self)@),
            final(self).wf(),
    ;
}

} // verus!

use crate::bar::Bar;
use crate::decimal::{int_string, int_text};
use crate::fraction::Fraction;
use std::time::{Duration, Instant};
use vstd::prelude::*;

verus! {

/// Relies on `std::time::Instant`, held unopened: the instant a timed bar
/// started.
#[verifier::external_type_specification]
#[verifier::external_body]
pub struct ExInstant(Instant);

/// Relies on `Instant::now`: the current instant. Nothing is promised of it.
pub assume_specification[ Instant::now ]() -> Instant;

/// Relies on `Instant::elapsed`: the time since the instant. Nothing is
/// promised of it.
pub assume_specification[ Instant::elapsed ](start: &Instant) -> Duration;

/// Relies on `Duration::as_millis`: the whole milliseconds of a duration.
pub assume_specification[ Duration::as_millis ](d: &Duration) -> u128;

/// Without any redraw remembered, a bar asks for one after this long.
pub const HEARTBEAT_MS: u64 = 60_000;

/// Milliseconds in a second.
pub const MS_PER_S: u64 = 1_000;

/// Seconds in an hour.
pub const S_PER_H: u128 = 3_600;

/// Seconds in a minute.
pub const S_PER_MIN: u128 = 60;

/// The seconds still to go: the elapsed time scaled by the progress still
/// to make over the progress made, `floor(ms * (1 - f) / f / 1000)`.
pub open spec fn remaining_s(f: Fraction, elapsed_ms: int) -> int {
    (elapsed_ms * (f.den_spec() - f.num_spec())) / (f.num_spec() * MS_PER_S)
}

/// The remaining time in words: `inf s` while no progress is made past the
/// start (or none shows in the fraction), else the whole hours above an hour,
/// the whole minutes above a minute, or the seconds.
pub open spec fn time_text(f: Fraction, progressed: bool, elapsed_ms: int) -> Seq<char> {
    if !progressed || f.num_spec() == 0 {
        seq!['i', 'n', 'f', ' ', 's']
    } else {
        let s = remaining_s(f, elapsed_ms);
        if s > S_PER_H {
            int_text(s / S_PER_H as int) + seq![' ', 'h']
        } else if s > S_PER_MIN {
            int_text(s / S_PER_MIN as int) + seq![' ', 'm', 'i', 'n']
        } else {
            int_text(s) + seq![' ', 's']
        }
    }
}

/// The text of a timed bar whose inner bar shows `inner`.
pub open spec fn timed_text(
    inner: Seq<char>,
    f: Fraction,
    progressed: bool,
    elapsed_ms: int,
) -> Seq<char> {
    inner + seq![' ', '~', ' '] + time_text(f, progressed, elapsed_ms)
}

/// Whether a timed bar asks for a redraw for lack of any since it started.
pub open spec fn heartbeat_due(remembering: bool, elapsed_ms: int) -> bool {
    !remembering && elapsed_ms > HEARTBEAT_MS
}

/// The remaining time, as `time_text` states it; `progressed` says whether
/// the progress lies beyond the start.
pub fn approx_time(fraction: &Fraction, progressed: bool, elapsed_ms: u64) -> (r: String)
    requires
        fraction.wf(),
    ensures
        r@ == time_text(*fraction, progressed, elapsed_ms as int),
{
    if !progressed || fraction.is_zero() {
        proof {
            reveal_strlit("inf s");
        }
        return String::from_str("inf s");
    }
    proof {
        vstd::arithmetic::mul::lemma_mul_upper_bound(
            elapsed_ms as int,
            u64::MAX as int,
            fraction.den_spec() - fraction.num_spec(),
            u64::MAX as int,
        );
        vstd::arithmetic::mul::lemma_mul_upper_bound(
            fraction.num_spec(),
            u64::MAX as int,
            MS_PER_S as int,
            MS_PER_S as int,
        );
        vstd::arithmetic::mul::lemma_mul_nonnegative(
            elapsed_ms as int,
            fraction.den_spec() - fraction.num_spec(),
        );
        vstd::arithmetic::div_mod::lemma_div_pos_is_pos(
            elapsed_ms as int * (fraction.den_spec() - fraction.num_spec()),
            fraction.num_spec() * MS_PER_S,
        );
    }
    let left = (fraction.den() - fraction.num()) as u128;
    let s: u128 = (elapsed_ms as u128 * left) / (fraction.num() as u128 * MS_PER_S as u128);
    let mut out;
    if s > S_PER_H {
        out = int_string(false, s / S_PER_H);
        proof {
            reveal_strlit(" h");
        }
        out.append(" h");
    } else if s > S_PER_MIN {
        out = int_string(false, s / S_PER_MIN);
        proof {
            reveal_strlit(" min");
        }
        out.append(" min");
    } else {
        out = int_string(false, s);
        proof {
            reveal_strlit(" s");
        }
        out.append(" s");
    }
    assert(out@ =~= time_text(*fraction, progressed, elapsed_ms as int));
    out
}

/// The model of a timed bar.
pub ghost struct TimedView<V> {
    /// The model of the wrapped bar.
    pub bar: V,
    /// Some redraw has been remembered.
    pub remembering: bool,
}

/// A bar that adds the estimated remaining time to the bar it wraps.
#[derive(Debug)]
pub struct TimedBar<B> {
    bar: B,
    now: Instant,
    is_remembering_progress: bool,
}

impl<B: Bar> View for TimedBar<B> {
    type V = TimedView<B::V>;

    closed spec fn view(&self) -> TimedView<B::V> {
        TimedView { bar: self.bar@, remembering: self.is_remembering_progress }
    }
}

/// The elapsed milliseconds, where they fit in 64 bits, and else the most
/// that does.
fn saturate_ms(ms: u128) -> (r: u64)
    ensures
        r == (if ms <= u64::MAX {
            ms
        } else {
            u64::MAX as u128
        }),
{
    if ms <= u64::MAX as u128 {
        ms as u64
    } else {
        u64::MAX
    }
}

impl<B: Bar> TimedBar<B> {
    /// Wraps `bar`, starting the clock now, with no redraw remembered.
    pub fn new(bar: B) -> (r: TimedBar<B>)
        requires
            bar.wf(),
        ensures
            r.wf(),
            r@.bar == bar@,
            !r@.remembering,
    {
        TimedBar { bar, now: Instant::now(), is_remembering_progress: false }
    }

    /// The milliseconds since the bar was wrapped.
    fn elapsed_ms(&self) -> u64 {
        saturate_ms(self.now.elapsed().as_millis())
    }

    /// Whether a redraw is due after `elapsed_ms` milliseconds: when the
    /// wrapped bar says so, or when nothing has been remembered since the bar
    /// started and more than a minute has passed.
    pub fn has_progressed_significantly_after(&self, elapsed_ms: u64) -> (r: bool)
        requires
            self.wf(),
        ensures
            B::must_redraw(self@.bar) || heartbeat_due(self@.remembering, elapsed_ms as int)
                ==> r,
            r ==> B::may_redraw(self@.bar) || heartbeat_due(
                self@.remembering,
                elapsed_ms as int,
            ),
    {
        self.bar.has_progressed_significantly() || (!self.is_remembering_progress && elapsed_ms
            > HEARTBEAT_MS)
    }

    /// The text after `elapsed_ms` milliseconds: the wrapped bar's text, then
    /// ` ~ ` and the remaining time, `inf s` while the wrapped bar is at or
    /// before its start.
    pub fn display_at(&self, elapsed_ms: u64) -> (r: String)
        requires
            self.wf(),
        ensures
            exists|inner: Seq<char>|
                B::shows(self@.bar, inner) && r@ == timed_text(
                    inner,
                    B::fraction_of(self@.bar),
                    B::made_progress(self@.bar),
                    elapsed_ms as int,
                ),
            !B::made_progress(self@.bar) ==> exists|inner: Seq<char>|
                B::shows(self@.bar, inner) && r@ == inner + seq![' ', '~', ' '] + seq![
                    'i',
                    'n',
                    'f',
                    ' ',
                    's',
                ],
    {
        let mut out = self.bar.display();
        let ghost inner = out@;
        proof {
            reveal_strlit(" ~ ");
        }
        out.append(" ~ ");
        let f = self.bar.fraction();
        let progressed = self.bar.has_made_progress();
        out.append(approx_time(&f, progressed, elapsed_ms).as_str());
        assert(out@ =~= timed_text(inner, f, progressed, elapsed_ms as int));
        assert(B::shows(self@.bar, inner));
        proof {
            if !progressed {
                assert(out@ =~= inner + seq![' ', '~', ' '] + seq!['i', 'n', 'f', ' ', 's']);
            }
        }
        out
    }
}

impl<B: Bar> Bar for TimedBar<B> {
    type Progress = B::Progress;

    closed spec fn wf(&self) -> bool {
        self.bar.wf()
    }

    open spec fn len_of(v: TimedView<B::V>) -> int {
        B::len_of(v.bar)
    }

    open spec fn with_len(v: TimedView<B::V>, n: int) -> TimedView<B::V> {
        TimedView { bar: B::with_len(v.bar, n), ..v }
    }

    open spec fn progress_of(v: TimedView<B::V>) -> B::Progress {
        B::progress_of(v.bar)
    }

    open spec fn fraction_of(v: TimedView<B::V>) -> Fraction {
        B::fraction_of(v.bar)
    }

    open spec fn start_of(v: TimedView<B::V>) -> B::Progress {
        B::start_of(v.bar)
    }

    open spec fn end_of(v: TimedView<B::V>) -> B::Progress {
        B::end_of(v.bar)
    }

    open spec fn made_progress(v: TimedView<B::V>) -> bool {
        B::made_progress(v.bar)
    }

    open spec fn can_set(v: TimedView<B::V>, p: B::Progress) -> bool {
        B::can_set(v.bar, p)
    }

    open spec fn with_progress(v: TimedView<B::V>, p: B::Progress) -> TimedView<B::V> {
        TimedView { bar: B::with_progress(v.bar, p), ..v }
    }

    open spec fn can_add(v: TimedView<B::V>, delta: B::Progress) -> bool {
        B::can_add(v.bar, delta)
    }

    open spec fn added(v: TimedView<B::V>, delta: B::Progress) -> TimedView<B::V> {
        TimedView { bar: B::added(v.bar, delta), ..v }
    }

    open spec fn shows(v: TimedView<B::V>, s: Seq<char>) -> bool {
        exists|inner: Seq<char>, ms: u64|
            B::shows(v.bar, inner) && s == timed_text(
                inner,
                B::fraction_of(v.bar),
                B::made_progress(v.bar),
                ms as int,
            )
    }

    open spec fn must_redraw(v: TimedView<B::V>) -> bool {
        B::must_redraw(v.bar)
    }

    open spec fn may_redraw(v: TimedView<B::V>) -> bool {
        B::may_redraw(v.bar) || !v.remembering
    }

    open spec fn remembered(v: TimedView<B::V>) -> TimedView<B::V> {
        TimedView { bar: B::remembered(v.bar), remembering: true }
    }

    fn len(&self) -> (r: usize) {
        self.bar.len()
    }

    fn set_len(&mut self, new_bar_len: usize) {
        self.bar.set_len(new_bar_len);
    }

    fn progress(&self) -> (r: B::Progress) {
        self.bar.progress()
    }

    fn fraction(&self) -> (r: Fraction) {
        self.bar.fraction()
    }

    fn start(&self) -> (r: B::Progress) {
        self.bar.start()
    }

    fn end(&self) -> (r: B::Progress) {
        self.bar.end()
    }

    fn has_made_progress(&self) -> (r: bool) {
        self.bar.has_made_progress()
    }

    fn set(&mut self, new_progress: B::Progress) {
        self.bar.set(new_progress);
    }

    fn add(&mut self, delta: B::Progress) {
        self.bar.add(delta);
    }

    fn display(&self) -> (r: String) {
        let ms = self.elapsed_ms();
        let r = self.display_at(ms);
        r
    }

    fn has_progressed_significantly(&self) -> (r: bool) {
        let ms = self.elapsed_ms();
        self.has_progressed_significantly_after(ms)
    }

    fn remember_progress(&mut self) {
        self.bar.remember_progress();
        self.is_remembering_progress = true;
    }
}

} // verus!

verus! {

/// While no progress is made, the remaining time reads `inf s`, whatever
/// time has passed.
pub proof fn lemma_no_progress_is_infinite(f: Fraction, progressed: bool, elapsed_ms: int)
    requires
        f.wf(),
        !progressed || f.num_spec() == 0,
    ensures
        time_text(f, progressed, elapsed_ms) == seq!['i', 'n', 'f', ' ', 's'],
{
}

} // verus!

verus! {

/// A timed bar whose wrapped bar is at or before its start shows `inf s` as
/// its remaining time.
pub proof fn lemma_timed_no_progress<B: Bar>(v: TimedView<B::V>, s: Seq<char>)
    requires
        TimedBar::<B>::shows(v, s),
        !B::made_progress(v.bar),
    ensures
        exists|inner: Seq<char>|
            B::shows(v.bar, inner) && s == inner + seq![' ', '~', ' '] + seq![
                'i',
                'n',
                'f',
                ' ',
                's',
            ],
{
    let (inner, ms) = choose|inner: Seq<char>, ms: u64|
        B::shows(v.bar, inner) && s == timed_text(
            inner,
            B::fraction_of(v.bar),
            B::made_progress(v.bar),
            ms as int,
        );
    assert(B::shows(v.bar, inner));
}

} // verus!

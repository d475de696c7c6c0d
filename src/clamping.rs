use crate::bar::Bar;
use crate::controller::{is_significant, PrintController};
use crate::fraction::{
    as_ratio, clamp, clamp_ratio, fraction_of, fraction_zero, lemma_ratio_of, lemma_zero_one_values, ratio_of, fraction_one, ratio_sum, sum_fits, Fraction, Ratio,
};
use crate::render::{bar_text, filled_cells, render, repeat, standard_style, BarStyle, BRACKETS_LEN, STYLE_LEN};
use vstd::prelude::*;

verus! {

/// The settings a clamping bar is built from.
pub struct Config {
    /// The rendered width, brackets included.
    pub bar_len: usize,
    /// The five glyphs of the bar.
    pub style: String,
    /// The progress between two significant redraws.
    pub interesting_progress_step: Fraction,
}

/// The default width of a bar.
pub const DEFAULT_BAR_LEN: usize = 42;

/// The default step between significant redraws is a tenth.
pub const DEFAULT_STEP_DEN: u64 = 10;

impl Config {
    /// The defaults: 42 cells wide, style `[=>.]`, a step of one tenth.
    pub fn new() -> (r: Config)
        ensures
            r.bar_len == DEFAULT_BAR_LEN,
            r.style@ == standard_style(),
            r.interesting_progress_step == fraction_of(1, DEFAULT_STEP_DEN as int),
            r.interesting_progress_step.num_spec() == 1,
            r.interesting_progress_step.den_spec() == DEFAULT_STEP_DEN,
            r.interesting_progress_step.wf(),
    {
        let style = BarStyle::standard();
        Config {
            bar_len: DEFAULT_BAR_LEN,
            style: String::from_str(style.as_str()),
            interesting_progress_step: Fraction::new(1, DEFAULT_STEP_DEN),
        }
    }
}

impl Default for Config {
    /// The same as `Config::new`.
    fn default() -> (r: Config)
        ensures
            r.bar_len == DEFAULT_BAR_LEN,
            r.style@ == standard_style(),
            r.interesting_progress_step == fraction_of(1, DEFAULT_STEP_DEN as int),
    {
        Config::new()
    }
}

/// The model of a clamping bar.
pub ghost struct ClampingView {
    /// The rendered width, brackets included.
    pub len: int,
    /// The five glyphs.
    pub style: Seq<char>,
    /// The shown fraction.
    pub fraction: Fraction,
    /// The last fraction remembered as redrawn.
    pub last: Option<Fraction>,
    /// The step between significant redraws.
    pub step: Fraction,
}

/// The invariant of a clamping bar.
pub open spec fn clamping_inv(v: ClampingView) -> bool {
    &&& BRACKETS_LEN < v.len <= usize::MAX
    &&& v.style.len() == STYLE_LEN
    &&& v.fraction.wf()
    &&& v.step.wf()
    &&& v.step.num_spec() > 0
    &&& v.last is Some ==> v.last->0.wf()
}

/// The text of a clamping bar: its fraction rendered at its width.
pub open spec fn clamping_text(v: ClampingView) -> Seq<char> {
    bar_text(v.fraction, v.len, v.style)
}

/// A bar showing a fraction clamped into `[0, 1]`.
#[derive(Debug)]
pub struct ClampingBar {
    bar_len: usize,
    style: BarStyle,
    progress: Fraction,
    print_controller: PrintController,
}

impl View for ClampingBar {
    type V = ClampingView;

    closed spec fn view(&self) -> ClampingView {
        ClampingView {
            len: self.bar_len as int,
            style: self.style@,
            fraction: self.progress,
            last: self.print_controller.last(),
            step: self.print_controller.step(),
        }
    }
}

impl ClampingBar {
    /// The model of a bar with the default settings: 42 cells wide, style
    /// `[=>.]`, at zero, with a step of one tenth and nothing remembered.
    pub open spec fn new_view() -> ClampingView {
        ClampingView {
            len: DEFAULT_BAR_LEN as int,
            style: standard_style(),
            fraction: fraction_zero(),
            last: None,
            step: fraction_of(1, DEFAULT_STEP_DEN as int),
        }
    }

    /// A bar with the default settings of `Config::new`.
    pub fn new() -> (r: ClampingBar)
        ensures
            r.wf(),
            r@ == ClampingBar::new_view(),
    {
        ClampingBar::with(Config::new())
    }

    /// A bar with the given settings, at zero progress. A style that is not
    /// five glyphs long is replaced by the default style.
    pub fn with(cfg: Config) -> (r: ClampingBar)
        requires
            cfg.bar_len > BRACKETS_LEN,
            cfg.interesting_progress_step.wf(),
            cfg.interesting_progress_step.num_spec() > 0,
        ensures
            r.wf(),
            r@.len == cfg.bar_len,
            r@.style == (if cfg.style@.len() == STYLE_LEN {
                cfg.style@
            } else {
                standard_style()
            }),
            r@.fraction == fraction_zero(),
            r@.last is None,
            r@.step == cfg.interesting_progress_step,
    {
        let style = match BarStyle::new(cfg.style.as_str()) {
            Some(s) => s,
            None => BarStyle::standard(),
        };
        ClampingBar {
            bar_len: cfg.bar_len,
            style,
            progress: Fraction::zero(),
            print_controller: PrintController::from(cfg.interesting_progress_step),
        }
    }

    /// The same as `with`.
    pub fn from(cfg: Config) -> (r: ClampingBar)
        requires
            cfg.bar_len > BRACKETS_LEN,
            cfg.interesting_progress_step.wf(),
            cfg.interesting_progress_step.num_spec() > 0,
        ensures
            r.wf(),
            r@.len == cfg.bar_len,
            r@.style == (if cfg.style@.len() == STYLE_LEN {
                cfg.style@
            } else {
                standard_style()
            }),
            r@.fraction == fraction_zero(),
            r@.last is None,
            r@.step == cfg.interesting_progress_step,
    {
        ClampingBar::with(cfg)
    }

    /// Wraps this bar in a timed bar whose clock starts now.
    pub fn timed(self) -> (r: crate::timing::TimedBar<ClampingBar>)
        requires
            self.wf(),
        ensures
            r.wf(),
            r@.bar == self@,
            !r@.remembering,
    {
        crate::timing::TimedBar::new(self)
    }

    /// Takes `style` if it has exactly five glyphs and says whether it did;
    /// otherwise the bar keeps its style.
    pub fn set_style(&mut self, style: &str) -> (accepted: bool)
        requires
            old(self).wf(),
        ensures
            accepted == (style@.len() == STYLE_LEN),
            final(self)@ == (if accepted {
                ClampingView { style: style@, ..old(self)@ }
            } else {
                old(self)@
            }),
            final(self).wf(),
    {
        match BarStyle::new(style) {
            Some(s) => {
                self.style = s;
                true
            },
            None => false,
        }
    }

    /// The glyphs of the bar's style.
    pub fn style(&self) -> (r: &str)
        ensures
            r@ == self@.style,
    {
        self.style.as_str()
    }
}

impl Default for ClampingBar {
    /// The same as `ClampingBar::new`.
    fn default() -> (r: ClampingBar)
        ensures
            r.wf(),
            r@ == ClampingBar::new_view(),
    {
        ClampingBar::new()
    }
}

impl Bar for ClampingBar {
    type Progress = Ratio;

    open spec fn wf(&self) -> bool {
        clamping_inv(self@)
    }

    open spec fn len_of(v: ClampingView) -> int {
        v.len
    }

    open spec fn with_len(v: ClampingView, n: int) -> ClampingView {
        ClampingView { len: n, ..v }
    }

    open spec fn progress_of(v: ClampingView) -> Ratio {
        as_ratio(v.fraction)
    }

    open spec fn fraction_of(v: ClampingView) -> Fraction {
        v.fraction
    }

    open spec fn start_of(v: ClampingView) -> Ratio {
        ratio_of(0, 1)
    }

    open spec fn end_of(v: ClampingView) -> Ratio {
        ratio_of(1, 1)
    }

    open spec fn made_progress(v: ClampingView) -> bool {
        v.fraction.num_spec() > 0
    }

    open spec fn can_set(v: ClampingView, p: Ratio) -> bool {
        p.wf()
    }

    open spec fn with_progress(v: ClampingView, p: Ratio) -> ClampingView {
        ClampingView { fraction: clamp(p), ..v }
    }

    open spec fn can_add(v: ClampingView, delta: Ratio) -> bool {
        delta.wf() && sum_fits(v.fraction, delta)
    }

    open spec fn added(v: ClampingView, delta: Ratio) -> ClampingView {
        Self::with_progress(v, ratio_sum(v.fraction, delta))
    }

    open spec fn shows(v: ClampingView, s: Seq<char>) -> bool {
        s == clamping_text(v)
    }

    open spec fn must_redraw(v: ClampingView) -> bool {
        is_significant(v.fraction, v.last, v.step)
    }

    open spec fn may_redraw(v: ClampingView) -> bool {
        is_significant(v.fraction, v.last, v.step)
    }

    open spec fn remembered(v: ClampingView) -> ClampingView {
        ClampingView { last: Some(v.fraction), ..v }
    }

    fn len(&self) -> (r: usize) {
        self.bar_len
    }

    fn set_len(&mut self, new_bar_len: usize) {
        self.bar_len = new_bar_len;
    }

    fn progress(&self) -> (r: Ratio) {
        self.progress.to_ratio()
    }

    fn fraction(&self) -> (r: Fraction) {
        self.progress
    }

    fn start(&self) -> (r: Ratio) {
        Ratio::new(0, 1)
    }

    fn end(&self) -> (r: Ratio) {
        Ratio::new(1, 1)
    }

    fn has_made_progress(&self) -> (r: bool) {
        !self.progress.is_zero()
    }

    fn set(&mut self, new_progress: Ratio) {
        self.progress = clamp_ratio(new_progress);
    }

    fn add(&mut self, delta: Ratio) {
        let sum = self.progress.plus(&delta);
        self.set(sum);
    }

    fn display(&self) -> (r: String) {
        render(&self.progress, self.bar_len, &self.style)
    }

    fn has_progressed_significantly(&self) -> (r: bool) {
        self.print_controller.has_progressed_significantly(&self.progress)
    }

    fn remember_progress(&mut self) {
        self.print_controller.update(self.progress);
    }
}

} // verus!

verus! {

/// A value below zero shows the same bar as zero: a hat and then empty
/// cells. A value above one shows the same bar as one: filled cells only.
pub proof fn lemma_out_of_range_clamps(v: ClampingView, p: Ratio)
    requires
        clamping_inv(v),
        p.wf(),
    ensures
        p.num_spec() < 0 ==> clamping_text(ClampingBar::with_progress(v, p)) == clamping_text(
            ClampingBar::with_progress(v, ratio_of(0, 1)),
        ),
        p.num_spec() < 0 ==> clamping_text(ClampingBar::with_progress(v, p)) == seq![v.style[0]]
            + repeat(v.style[2], 1) + repeat(v.style[3], v.len - BRACKETS_LEN - 1) + seq![
            v.style[4],
        ],
        p.num_spec() > p.den_spec() ==> clamping_text(ClampingBar::with_progress(v, p))
            == clamping_text(ClampingBar::with_progress(v, ratio_of(1, 1))),
        p.num_spec() > p.den_spec() ==> clamping_text(ClampingBar::with_progress(v, p)) == seq![
            v.style[0],
        ] + repeat(v.style[1], v.len - BRACKETS_LEN) + seq![v.style[4]],
{
    lemma_ratio_of(0, 1);
    lemma_ratio_of(1, 1);
    lemma_zero_one_values();
    let inner = v.len - BRACKETS_LEN;
    assert(filled_cells(fraction_zero(), inner) == 0);
    assert(filled_cells(fraction_one(), inner) == inner);
    assert(repeat(v.style[1], 0) =~= Seq::<char>::empty());
    assert(repeat(v.style[2], 0) =~= Seq::<char>::empty());
    assert(repeat(v.style[3], 0) =~= Seq::<char>::empty());
    assert(seq![v.style[0]] + repeat(v.style[1], inner) + Seq::<char>::empty()
        + Seq::<char>::empty() + seq![v.style[4]] =~= seq![v.style[0]] + repeat(v.style[1], inner)
        + seq![v.style[4]]);
    assert(seq![v.style[0]] + Seq::<char>::empty() + repeat(v.style[2], 1) + repeat(
        v.style[3],
        inner - 1,
    ) + seq![v.style[4]] =~= seq![v.style[0]] + repeat(v.style[2], 1) + repeat(
        v.style[3],
        inner - 1,
    ) + seq![v.style[4]]);
}

/// Setting the same value twice shows the same bar as setting it once.
pub proof fn lemma_set_idempotent(v: ClampingView, p: Ratio)
    requires
        clamping_inv(v),
        p.wf(),
    ensures
        ClampingBar::with_progress(ClampingBar::with_progress(v, p), p)
            == ClampingBar::with_progress(v, p),
        clamping_text(ClampingBar::with_progress(ClampingBar::with_progress(v, p), p))
            == clamping_text(ClampingBar::with_progress(v, p)),
{
}

} // verus!

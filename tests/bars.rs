use progressing::bernoulli::BernoulliProgress;
use progressing::clamping::Config;
use progressing::mapping::{inner_bar, inner_k, Config as MappingConfig};
use progressing::timing::{approx_time, TimedBar};
use progressing::{render, Bar, BarStyle, BernoulliBar, ClampingBar, Fraction, MappingBar, PrintController, Ratio};

fn clamped(width: usize, style: &str, num: i128, den: u64) -> String {
    let mut bar = ClampingBar::new();
    bar.set_len(width);
    assert!(bar.set_style(style));
    bar.set(Ratio::new(num, den));
    bar.display()
}

#[test]
fn clamped_bar_at_three_tenths() {
    assert_eq!(clamped(20, "[=>-]", 3, 10), "[=====>------------]");
}

#[test]
fn default_bar_is_empty_and_wide() {
    let bar = ClampingBar::new();
    let text = bar.display();
    assert_eq!(bar.len(), 42);
    assert_eq!(text.chars().count(), 42);
    assert_eq!(text, format!("[>{}]", ".".repeat(39)));
}

#[test]
fn render_has_exact_width_and_shape() {
    let style = BarStyle::new("<#^_>").unwrap();
    for width in 3..40usize {
        for num in 0..=12u64 {
            let f = Fraction::new(num, 12);
            let text = render(&f, width, &style);
            let chars: Vec<char> = text.chars().collect();
            assert_eq!(chars.len(), width);
            assert_eq!(chars[0], '<');
            assert_eq!(chars[width - 1], '>');
            let inner = &chars[1..width - 1];
            let filled = inner.iter().take_while(|c| **c == '#').count();
            let hats = inner.iter().filter(|c| **c == '^').count();
            let empty = inner.iter().filter(|c| **c == '_').count();
            assert_eq!(filled, (num as usize * (width - 2)) / 12);
            assert!(hats <= 1);
            assert_eq!(filled + hats + empty, width - 2);
            if filled < width - 2 {
                assert_eq!(inner[filled], '^');
            }
        }
    }
}

#[test]
fn full_bar_crops_the_hat() {
    assert_eq!(clamped(7, "[=>-]", 1, 1), "[=====]");
    assert_eq!(clamped(7, "[=>-]", 0, 1), "[>----]");
}

#[test]
fn values_below_zero_show_as_zero() {
    assert_eq!(clamped(12, "[=>-]", -1, 2), clamped(12, "[=>-]", 0, 1));
    assert_eq!(clamped(12, "[=>-]", -7, 3), "[>---------]");
}

#[test]
fn values_above_one_show_as_one() {
    assert_eq!(clamped(12, "[=>-]", 3, 2), clamped(12, "[=>-]", 1, 1));
    assert_eq!(clamped(12, "[=>-]", 9, 4), "[==========]");
}

#[test]
fn setting_twice_renders_the_same() {
    let mut bar = ClampingBar::new();
    bar.set_len(25);
    bar.set(Ratio::new(2, 7));
    let once = bar.display();
    bar.set(Ratio::new(2, 7));
    assert_eq!(bar.display(), once);

    let mut mapped = MappingBar::new(-9i64, 5);
    mapped.set(3);
    let once = mapped.display();
    mapped.set(3);
    assert_eq!(mapped.display(), once);
}

#[test]
fn clamped_add_sums_fractions() {
    let mut bar = ClampingBar::new();
    bar.set_len(12);
    bar.add(Ratio::new(1, 10));
    bar.add(Ratio::new(2, 10));
    let f = bar.fraction();
    assert_eq!((f.num(), f.den()), (3, 10));
    bar.add(Ratio::new(1, 2));
    let f = bar.fraction();
    assert_eq!(f.num() as u128 * 10, 8 * f.den() as u128);
    bar.add(Ratio::new(-5, 1));
    assert!(bar.fraction().is_zero());
}

#[test]
fn style_of_wrong_length_is_refused() {
    let mut bar = ClampingBar::new();
    bar.set_len(8);
    assert!(!bar.set_style("[=>]"));
    assert!(!bar.set_style("[==>--]"));
    assert_eq!(bar.style(), "[=>.]");
    assert_eq!(bar.display(), "[>.....]");
    assert!(bar.set_style("(*o )"));
    assert_eq!(bar.display(), "(o     )");
}

#[test]
fn config_with_wrong_style_keeps_default_style() {
    let cfg = Config { bar_len: 10, style: String::from("ab"), interesting_progress_step: Fraction::new(1, 4) };
    let bar = ClampingBar::with(cfg);
    assert_eq!(bar.display(), "[>.......]");
    let cfg = Config { bar_len: 6, style: String::from("|#>-|"), interesting_progress_step: Fraction::new(1, 4) };
    let bar = ClampingBar::from(cfg);
    assert_eq!(bar.display(), "|>---|");
}

#[test]
fn default_config() {
    let cfg = Config::new();
    assert_eq!(cfg.bar_len, 42);
    assert_eq!(cfg.style, "[=>.]");
    assert_eq!(cfg.interesting_progress_step.num(), 1);
    assert_eq!(cfg.interesting_progress_step.den(), 10);
}

#[test]
fn mapped_bar_example() {
    let mut bar = MappingBar::with_range(-9i64, 5);
    bar.set_len(20);
    bar.set(4);
    assert_eq!(bar.display(), "[================>.] (4 / 5)");
    bar.set(-3);
    assert_eq!(bar.display(), "[=======>..........] (-3 / 5)");
}

#[test]
fn mapped_ends_match_clamped_ends() {
    let mut bar = MappingBar::new(-9i32, 5);
    bar.set_len(20);
    let mut clamp = ClampingBar::new();
    clamp.set_len(20);
    bar.set(-9);
    clamp.set(Ratio::new(0, 1));
    assert_eq!(inner_bar(&bar).display(), clamp.display());
    bar.set(5);
    clamp.set(Ratio::new(1, 1));
    assert_eq!(inner_bar(&bar).display(), clamp.display());
    assert_eq!(bar.display(), "[==================] (5 / 5)");
}

#[test]
fn mapped_range_given_in_reverse_is_swapped() {
    let mut bar = MappingBar::new(100u32, 0);
    assert_eq!(bar.start(), 0);
    assert_eq!(bar.end(), 100);
    bar.set_len(12);
    bar.set(50);
    assert_eq!(bar.display(), "[=====>....] (50 / 100)");
    bar.add(25);
    assert_eq!(*inner_k(&bar), 75);
    assert_eq!(bar.progress(), 75);
}

#[test]
fn with_range_starts_at_its_first_argument() {
    let mut bar = MappingBar::with_range(5i64, 1);
    assert_eq!(bar.progress(), 5);
    assert_eq!(bar.start(), 1);
    assert_eq!(bar.end(), 5);
    assert_eq!(bar.len(), 42);
    bar.set_len(7);
    assert_eq!(bar.display(), "[=====] (5 / 5)");
    let bar = MappingBar::with_range(2u32, 6);
    assert_eq!(bar.progress(), 2);
    assert!(bar.fraction().is_zero());
}

#[test]
fn clamped_start_and_end() {
    let bar = ClampingBar::new();
    assert_eq!((bar.start().num(), bar.start().den()), (0, 1));
    assert_eq!((bar.end().num(), bar.end().den()), (1, 1));
    let timed = ClampingBar::new().timed();
    assert_eq!((timed.end().num(), timed.end().den()), (1, 1));
}

#[test]
fn mapped_out_of_range_is_clamped() {
    let mut bar = MappingBar::new(10usize, 20);
    bar.set_len(7);
    bar.set(3);
    assert_eq!(bar.display(), "[>....] (3 / 20)");
    bar.set(40);
    assert_eq!(bar.display(), "[=====] (40 / 20)");
}

#[test]
fn mapped_range_of_one_point() {
    let mut bar = MappingBar::new(7u64, 7);
    bar.set_len(7);
    assert_eq!(bar.display(), "[=====] (7 / 7)");
    bar.set(6);
    assert_eq!(bar.display(), "[>....] (6 / 7)");
    bar.set(8);
    assert_eq!(bar.display(), "[=====] (8 / 7)");
}

#[test]
fn mapped_config() {
    let cfg = MappingConfig::with(0i64, 8);
    assert_eq!(cfg.bar_len, 42);
    let cfg = MappingConfig { bar_len: 10, style: String::from("[#>-]"), ..cfg };
    let mut bar = MappingBar::with(cfg);
    bar.set(2);
    assert_eq!(bar.display(), "[##>-----] (2 / 8)");
}

#[test]
fn bernoulli_bar_example() {
    let mut bar = BernoulliBar::from_goal(60);
    bar.set_len(20);
    bar.set(BernoulliProgress::from((42, 130)));
    assert_eq!(bar.display(), "[============>.....] (42 / 60 # 130)");
}

#[test]
fn bernoulli_two_successes() {
    let mut bar = BernoulliBar::with_goal(10);
    bar.add(BernoulliProgress::from(true));
    bar.add(BernoulliProgress::from(true));
    let p = bar.progress();
    assert_eq!((p.successes, p.attempts), (2, 2));
}

#[test]
fn bernoulli_failure_counts_an_attempt() {
    let mut bar = BernoulliBar::with_goal(10);
    bar.set(BernoulliProgress::from((4, 6)));
    bar.add(BernoulliProgress::from(false));
    let p = bar.progress();
    assert_eq!((p.successes, p.attempts), (4, 7));
    bar.add(BernoulliProgress::from(3usize));
    let p = bar.progress();
    assert_eq!((p.successes, p.attempts), (7, 10));
}

#[test]
fn bernoulli_start_and_end() {
    let bar = BernoulliBar::from_goal(9);
    assert_eq!((bar.start().successes, bar.start().attempts), (0, 0));
    assert_eq!((bar.end().successes, bar.end().attempts), (9, 1));
}

#[test]
fn bernoulli_progress_arithmetic() {
    let a = BernoulliProgress::from((3, 5));
    let b = BernoulliProgress::from(true);
    let c = BernoulliProgress::from(false);
    assert_eq!(a + b, BernoulliProgress { successes: 4, attempts: 6 });
    assert_eq!(a + c, BernoulliProgress { successes: 3, attempts: 6 });
    assert_eq!(a - b, BernoulliProgress { successes: 2, attempts: 4 });
    assert_eq!(BernoulliProgress::from(4usize), BernoulliProgress { successes: 4, attempts: 4 });
}

#[test]
fn significance_in_steps_of_a_tenth() {
    let mut bar = ClampingBar::new();
    bar.set(Ratio::new(5, 100));
    assert!(!bar.has_progressed_significantly());
    bar.set(Ratio::new(9, 100));
    assert!(!bar.has_progressed_significantly());
    bar.set(Ratio::new(15, 100));
    assert!(bar.has_progressed_significantly());
    bar.remember_progress();
    assert!(!bar.has_progressed_significantly());
    bar.set(Ratio::new(19, 100));
    assert!(!bar.has_progressed_significantly());
    bar.set(Ratio::new(2, 10));
    assert!(bar.has_progressed_significantly());
}

#[test]
fn controller_first_observation() {
    let step = Fraction::new(1, 4);
    let mut c = PrintController::from(step);
    assert!(!c.has_progressed_significantly(&Fraction::new(0, 1)));
    assert!(!c.has_progressed_significantly(&Fraction::new(24, 100)));
    assert!(c.has_progressed_significantly(&Fraction::new(1, 4)));
    c.update(Fraction::new(1, 4));
    assert!(!c.has_progressed_significantly(&Fraction::new(49, 100)));
    assert!(c.has_progressed_significantly(&Fraction::new(1, 2)));
}

#[test]
fn time_without_progress_is_infinite() {
    assert_eq!(approx_time(&Fraction::new(0, 5), true, 0), "inf s");
    assert_eq!(approx_time(&Fraction::new(0, 1), true, 1_000_000), "inf s");
    let mut bar = ClampingBar::new().timed();
    bar.set_len(6);
    assert_eq!(bar.display(), "[>...] ~ inf s");
    assert_eq!(bar.display_at(123_456), "[>...] ~ inf s");
}

#[test]
fn time_before_start_is_infinite() {
    assert_eq!(approx_time(&Fraction::new(1, 1), false, 5_000), "inf s");
    let mut bar = MappingBar::new(7u64, 7).timed();
    bar.set_len(7);
    assert_eq!(bar.display_at(30_000), "[=====] (7 / 7) ~ inf s");
    bar.set(8);
    assert_eq!(bar.display_at(30_000), "[=====] (8 / 7) ~ 0 s");
    let mut bar = BernoulliBar::from_goal(0).timed();
    bar.set_len(7);
    assert_eq!(bar.display_at(30_000), "[=====] (0 / 0 # 0) ~ inf s");
    let mut bar = MappingBar::new(-5i64, 5).timed();
    bar.set_len(7);
    bar.set(-8);
    assert!(!bar.has_made_progress());
    assert_eq!(bar.display_at(30_000), "[>....] (-8 / 5) ~ inf s");
}

#[test]
fn time_estimate_units() {
    assert_eq!(approx_time(&Fraction::new(1, 2), true, 10_000), "10 s");
    assert_eq!(approx_time(&Fraction::new(1, 4), true, 60_000), "3 min");
    assert_eq!(approx_time(&Fraction::new(1, 100), true, 100_000), "2 h");
    assert_eq!(approx_time(&Fraction::new(1, 2), true, 60_000), "60 s");
    assert_eq!(approx_time(&Fraction::new(1, 2), true, 61_000), "1 min");
    assert_eq!(approx_time(&Fraction::new(1, 1), true, 99_000), "0 s");
}

#[test]
fn timed_bar_shows_estimate() {
    let mut bar = MappingBar::with_range(0u32, 4).timed();
    bar.set_len(6);
    bar.set(1);
    assert_eq!(bar.display_at(20_000), "[=>..] (1 / 4) ~ 60 s");
    assert_eq!(bar.display_at(21_000), "[=>..] (1 / 4) ~ 1 min");
    assert_eq!(bar.progress(), 1);
    assert_eq!(bar.len(), 6);
}

#[test]
fn timed_heartbeat() {
    let mut bar = TimedBar::new(BernoulliBar::from_goal(1_000));
    bar.set(BernoulliProgress::from(1usize));
    assert!(!bar.has_progressed_significantly_after(60_000));
    assert!(bar.has_progressed_significantly_after(60_001));
    assert!(!bar.has_progressed_significantly());
    bar.remember_progress();
    assert!(!bar.has_progressed_significantly_after(120_000));
    bar.set(BernoulliProgress::from(100usize));
    assert!(bar.has_progressed_significantly_after(0));
}

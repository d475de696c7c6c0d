//! Single-line text progress bars whose rendering, progress models and
//! redraw throttling are specified and proved.

mod bar;
mod controller;
mod decimal;
mod fraction;
mod render;

pub mod bernoulli;
pub mod clamping;
pub mod mapping;
pub mod timing;

pub use bar::Bar;
pub use bernoulli::{BernoulliBar, BernoulliProgress};
pub use clamping::ClampingBar;
pub use controller::PrintController;
pub use fraction::{Fraction, Ratio};
pub use mapping::{MappingBar, Sample};
pub use render::{render, BarStyle, BRACKETS_LEN, STYLE_LEN};
pub use timing::TimedBar;

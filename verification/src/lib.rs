//! The decisions of a small immediate-mode demo program: a widgets panel,
//! a plot panel, a scroll area, a directory walker and the background
//! counter that reports progress. Drawing, threads and file dialogs stay
//! with the caller; this crate decides what the screen shows and what the
//! program does next.

pub mod app;
pub mod decimal;
pub mod iter_dir;
pub mod plots;
pub mod scroll;
pub mod widgets;
pub mod worker;

pub use app::MyApp;
pub use plots::{plots_window, PlotPanel};
pub use scroll::scroll_window;
pub use widgets::{widgets_window, MyEnum};
pub use worker::ProgressTicker;

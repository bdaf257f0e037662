//! Safe rendering of pikchr diagram markup as SVG, with options and
//! structured diagnostics.
pub mod error;
pub mod flags;
pub mod options;
pub mod render;

pub use error::{PiktError, PiktErrorReason};
pub use flags::Flags;
pub use options::{Options, OptionsBuilder};
pub use render::{render, render_with};

//! Preferences and curve catalogue of a small plotting window.
//!
//! The window itself lives outside this crate.  Here are the rules it follows:
//! which settings exist, how an edited opacity is clamped, how the settings are
//! written to and read back from the persisted blob, when the calendar date is
//! taken from the clock, and which curves are drawn under which names.

pub mod alpha;
pub mod date;
pub mod legend;
pub mod codec;
pub mod preferences;
pub mod curves;

pub use date::Date;
pub use legend::{Corner, LegendConfig, TextStyle};
pub use preferences::{PlotApp, Preferences};

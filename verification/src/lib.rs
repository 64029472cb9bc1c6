//! The filtering stage of a log pipeline: a severity threshold and two lists of
//! regular expressions, compiled once, decide for every record whether it goes
//! on or is suppressed.

pub mod filter;
pub mod level;
pub mod pattern;
pub mod record;

pub use filter::{Decision, Filter, FilterView};
pub use level::Level;
pub use pattern::PatternError;
pub use record::{Message, Record};

//! Reading a chart: a fold over the lines of its text.
//!
//! [`scan_line`] says what one line does to the state of the reader,
//! [`scan_lines`] folds it over a sequence of lines, and [`chart_of`] is the
//! chart that the whole text gives.  [`parse`] computes `chart_of`.
//!
//! The first record of the hit-object section that cannot be read fails the
//! whole chart: no chart is ever returned with a record missing.

pub mod laws;
pub mod model;
pub mod reader;

pub use model::{chart_of, scan_line, scan_lines, ScanState};
pub use reader::parse;

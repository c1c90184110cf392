//! Chart ingestion and note timing for a falling-block rhythm game.
//!
//! The crate turns the text of an `.osu` style chart into a chart model, and
//! a chart plus the playfield geometry into the schedule of notes that a
//! host loop displays.  Everything here is a pure function of its arguments.

pub mod chart;
pub mod config;
pub mod error;
pub mod number;
pub mod osu;
pub mod parser;
pub mod schedule;
pub mod text;
pub mod timing;

pub use chart::{Chart, ChartMetadata, HitEvent};
pub use config::{load_config, GameConfig};
pub use error::{ConfigurationError, LoadError, ParseError, RecordFault, Setting};
pub use osu::{read_osu, OsuFile};
pub use parser::parse;
pub use schedule::{schedule_for, visible_at, ScheduledNote};
pub use timing::{compute_column, compute_spawn_time};

//! What can go wrong while a chart is read or timed.

use vstd::prelude::*;

verus! {

/// Why a line of the hit-object section is no record.
#[derive(Clone, Copy, Debug, PartialEq, Eq, Structural)]
pub enum RecordFault {
    /// The line has fewer than three comma-separated fields.
    MissingFields,
    /// The first field, the horizontal coordinate, is no integer.
    InvalidCoordinate,
    /// The third field, the hit time, is no integer.
    InvalidTime,
}

/// A chart could not be read.
#[derive(Clone, Copy, Debug, PartialEq, Eq, Structural)]
pub enum ParseError {
    /// The text of the chart could not be obtained at all.
    UnreadableSource,
    /// A line of the hit-object section is no record.  `line` counts lines
    /// from one.
    MalformedRecord { line: usize, fault: RecordFault },
}

/// A setting of the game.
#[derive(Clone, Copy, Debug, PartialEq, Eq, Structural)]
pub enum Setting {
    /// Height of the playfield, in pixels.
    WindowHeight,
    /// Width of the playfield, in pixels.
    WindowWidth,
    /// Milliseconds to wait before the audio starts.
    Offset,
    /// Path of the chart file.
    Filename,
    /// Scroll speed, in pixels per second.
    ScrollSpeed,
}

/// The settings cannot be used.
#[derive(Clone, Copy, Debug, PartialEq, Eq, Structural)]
pub enum ConfigurationError {
    /// The text of the settings is longer than a text of settings may be.
    DocumentTooLong,
    /// The text of the settings is no YAML.
    InvalidDocument,
    /// The text of the settings holds no document.
    MissingDocument,
    /// A setting is missing, or is not of the kind that it has to be.
    InvalidSetting(Setting),
    /// The scroll speed is zero, so that no note would ever arrive.
    ZeroScrollSpeed,
    /// The spawn time of a note does not fit into 64 bits.
    SpawnTimeOutOfRange,
}

/// A chart file could not be turned into a playfield.
#[derive(Clone, Copy, Debug, PartialEq, Eq, Structural)]
pub enum LoadError {
    /// The chart could not be read.
    Parse(ParseError),
    /// The chart was read, and could not be timed.
    Configuration(ConfigurationError),
}

} // verus!

//! From the bytes of a chart file to the chart and its schedule.

use vstd::prelude::*;
use vstd::utf8::{decode_utf8, encode_utf8, encode_utf8_decode_utf8, valid_utf8};
use crate::chart::{Chart, ChartView};
use crate::error::{LoadError, ParseError};
use crate::parser::{chart_of, parse};
use crate::schedule::{schedule_for, schedule_of, ScheduledNote};

verus! {

/// A chart file that has been read and timed.
#[derive(Debug, PartialEq, Eq)]
pub struct OsuFile {
    /// What the file says.
    pub chart: Chart,
    /// The notes of the chart on the playfield, in the order of the file.
    pub notes: Vec<ScheduledNote>,
}

/// The mathematical content of an [`OsuFile`].
pub struct OsuFileView {
    pub chart: ChartView,
    pub notes: Seq<ScheduledNote>,
}

impl View for OsuFile {
    type V = OsuFileView;

    open spec fn view(&self) -> OsuFileView {
        OsuFileView { chart: self.chart@, notes: self.notes@ }
    }
}

impl Clone for OsuFile {
    fn clone(&self) -> (copy: OsuFile)
        ensures
            copy@ == self@,
    {
        OsuFile { chart: self.chart.clone(), notes: self.notes.clone() }
    }
}

/// What the bytes of a chart file amount to on a playfield of the given
/// height and scroll speed.  Bytes that are no UTF-8 text are an unreadable
/// source; a chart that cannot be read fails before one that cannot be
/// timed.
pub open spec fn osu_file_of(source: Seq<u8>, playfield_height: int, scroll_speed: int) -> Result<
    OsuFileView,
    LoadError,
> {
    if !valid_utf8(source) {
        Err(LoadError::Parse(ParseError::UnreadableSource))
    } else {
        match chart_of(decode_utf8(source)) {
            Err(error) => Err(LoadError::Parse(error)),
            Ok(chart) => match schedule_of(chart, playfield_height, scroll_speed) {
                Err(error) => Err(LoadError::Configuration(error)),
                Ok(notes) => Ok(OsuFileView { chart, notes }),
            },
        }
    }
}

/// What a result of [`read_osu`] holds, as mathematics.
pub open spec fn loaded(result: Result<OsuFile, LoadError>) -> Result<OsuFileView, LoadError> {
    match result {
        Ok(file) => Ok(file@),
        Err(error) => Err(error),
    }
}

/// `core::str::from_utf8`: the text that `bytes` encode.  There is one
/// exactly where the bytes are valid UTF-8, and its encoding is `bytes`.
/// The error of the standard function is dropped.
#[verifier::external_body]
fn text_of(bytes: &[u8]) -> (text: Option<&str>)
    ensures
        text is Some == valid_utf8(bytes@),
        text matches Some(t) ==> encode_utf8(t@) == bytes@,
{
    core::str::from_utf8(bytes).ok()
}

/// Reads a chart file from its bytes and times its notes.
pub fn read_osu(source: &[u8], playfield_height: i64, scroll_speed: i64) -> (result: Result<
    OsuFile,
    LoadError,
>)
    ensures
        loaded(result) == osu_file_of(source@, playfield_height as int, scroll_speed as int),
{
    let text = match text_of(source) {
        Some(text) => text,
        None => {
            return Err(LoadError::Parse(ParseError::UnreadableSource));
        },
    };
    proof {
        encode_utf8_decode_utf8(text@);
    }
    let chart = match parse(text) {
        Ok(chart) => chart,
        Err(error) => {
            return Err(LoadError::Parse(error));
        },
    };
    match schedule_for(&chart, playfield_height, scroll_speed) {
        Ok(notes) => Ok(OsuFile { chart, notes }),
        Err(error) => Err(LoadError::Configuration(error)),
    }
}

} // verus!

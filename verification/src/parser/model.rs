//! What a chart text means.

use vstd::prelude::*;
use crate::chart::{Chart, ChartView, HitEvent, MetadataView};
use crate::error::{ParseError, RecordFault};
use crate::number::{digit_value, integer_of, is_digit};
use crate::text::{fields_of, lines_of};

verus! {

/// Label of the line that names the audio file.  One separating character
/// follows the label; the name follows that.
pub const AUDIO_LABEL: &'static str = "AudioFilename:";

/// Label of the line that gives the lane count.  The count is the one
/// character that follows the label.
pub const LANE_LABEL: &'static str = "CircleSize:";

/// The line that opens the hit-object section.
pub const SECTION_HEADER: &'static str = "[HitObjects]";

/// Lane count of a chart that gives none.
pub const DEFAULT_LANE_COUNT: i64 = 4;

/// What the reader knows after some lines.
pub struct ScanState {
    /// Whether the header of the hit-object section has been read.
    pub in_hit_objects: bool,
    /// The audio file named last; empty while none was named.
    pub audio_filename: Seq<char>,
    /// The lane count given last; the default while none was given.
    pub lane_count: int,
    /// The records read so far, in their order.
    pub events: Seq<HitEvent>,
    /// Number of lines read so far.
    pub lines_read: nat,
}

/// The state before the first line.
pub open spec fn initial_state() -> ScanState {
    ScanState {
        in_hit_objects: false,
        audio_filename: Seq::empty(),
        lane_count: DEFAULT_LANE_COUNT as int,
        events: Seq::empty(),
        lines_read: 0,
    }
}

/// The note that a line of the hit-object section records: its first field
/// is the horizontal coordinate, its third the hit time.
pub open spec fn record_of(line: Seq<char>) -> Result<HitEvent, RecordFault> {
    let fields = fields_of(line);
    if fields.len() < 3 {
        Err(RecordFault::MissingFields)
    } else {
        match integer_of(fields[0]) {
            None => Err(RecordFault::InvalidCoordinate),
            Some(raw_x) => match integer_of(fields[2]) {
                None => Err(RecordFault::InvalidTime),
                Some(hit_time) => Ok(HitEvent { raw_x, hit_time }),
            },
        }
    }
}

/// The audio file that a line with the audio label names: what follows the
/// label and the one character after it.
pub open spec fn audio_filename_of(line: Seq<char>) -> Seq<char> {
    if line.len() > AUDIO_LABEL@.len() {
        line.skip(AUDIO_LABEL@.len() as int + 1)
    } else {
        Seq::empty()
    }
}

/// The lane count after a line with the lane label: the digit from 1 to 9
/// that follows the label, or `fallback` where no such digit follows.
pub open spec fn lane_count_of(line: Seq<char>, fallback: int) -> int {
    let at = LANE_LABEL@.len() as int;
    if at < line.len() && is_digit(line[at]) && digit_value(line[at]) >= 1 {
        digit_value(line[at])
    } else {
        fallback
    }
}

/// What one line does to the state.
///
/// The section header opens the hit-object section.  Inside the section an
/// empty line is passed over and every other line is a record.  Before the
/// section a line that begins with a label sets what the label stands for,
/// and every other line is passed over.
pub open spec fn scan_line(state: ScanState, line: Seq<char>) -> Result<ScanState, ParseError> {
    let number = state.lines_read + 1;
    if line == SECTION_HEADER@ {
        Ok(ScanState { in_hit_objects: true, lines_read: number, ..state })
    } else if state.in_hit_objects {
        if line.len() == 0 {
            Ok(ScanState { lines_read: number, ..state })
        } else {
            match record_of(line) {
                Ok(event) => Ok(
                    ScanState { events: state.events.push(event), lines_read: number, ..state },
                ),
                Err(fault) => Err(ParseError::MalformedRecord { line: number as usize, fault }),
            }
        }
    } else if AUDIO_LABEL@.is_prefix_of(line) {
        Ok(ScanState { audio_filename: audio_filename_of(line), lines_read: number, ..state })
    } else if LANE_LABEL@.is_prefix_of(line) {
        Ok(
            ScanState {
                lane_count: lane_count_of(line, state.lane_count),
                lines_read: number,
                ..state
            },
        )
    } else {
        Ok(ScanState { lines_read: number, ..state })
    }
}

/// The state after all of `lines`, or the first failure among them.
pub open spec fn scan_lines(state: ScanState, lines: Seq<Seq<char>>) -> Result<
    ScanState,
    ParseError,
>
    decreases lines.len(),
{
    if lines.len() == 0 {
        Ok(state)
    } else {
        match scan_line(state, lines[0]) {
            Ok(next) => scan_lines(next, lines.skip(1)),
            Err(error) => Err(error),
        }
    }
}

/// The chart that a state amounts to once the text has ended.
pub open spec fn chart_at(state: ScanState) -> ChartView {
    ChartView {
        metadata: MetadataView {
            audio_filename: state.audio_filename,
            lane_count: state.lane_count,
        },
        events: state.events,
    }
}

/// The chart that a text gives, or why it gives none.
pub open spec fn chart_of(text: Seq<char>) -> Result<ChartView, ParseError> {
    match scan_lines(initial_state(), lines_of(text)) {
        Ok(state) => Ok(chart_at(state)),
        Err(error) => Err(error),
    }
}

/// What a result of [`parse`] holds, as mathematics.
pub open spec fn parsed(result: Result<Chart, ParseError>) -> Result<ChartView, ParseError> {
    match result {
        Ok(chart) => Ok(chart@),
        Err(error) => Err(error),
    }
}

/// Whether a line of the hit-object section is meant to be a record: it is
/// not empty and not the section header again.
pub open spec fn is_record_line(line: Seq<char>) -> bool {
    line.len() > 0 && line != SECTION_HEADER@
}

/// Whether every line among `lines` that is meant to be a record is one.
pub open spec fn all_records_readable(lines: Seq<Seq<char>>) -> bool {
    forall|i: int|
        0 <= i < lines.len() && is_record_line(#[trigger] lines[i]) ==> record_of(lines[i]) is Ok
}

/// The notes that the lines of a hit-object section record, in their order.
pub open spec fn records_in(lines: Seq<Seq<char>>) -> Seq<HitEvent> {
    lines.filter(|line: Seq<char>| is_record_line(line)).map_values(
        |line: Seq<char>| record_of(line)->Ok_0,
    )
}

} // verus!

//! What holds of every chart text.

use vstd::prelude::*;
use crate::chart::{Chart, ChartView, HitEvent};
use crate::error::ParseError;
use crate::parser::model::{
    all_records_readable, chart_of, initial_state, is_record_line, parsed, record_of, records_in,
    scan_line, scan_lines, ScanState, AUDIO_LABEL, DEFAULT_LANE_COUNT, LANE_LABEL, SECTION_HEADER,
};
use crate::text::lines_of;

verus! {

/// No line takes the lane count out of the range from 1 to 9, once it is
/// there; and every line that is read counts.
pub proof fn lemma_scan_line_keeps_lanes(state: ScanState, line: Seq<char>)
    requires
        1 <= state.lane_count <= 9,
    ensures
        scan_line(state, line) matches Ok(next) ==> 1 <= next.lane_count <= 9 && next.lines_read
            == state.lines_read + 1,
{
}

/// No run of lines takes the lane count out of the range from 1 to 9.
pub proof fn lemma_scan_lines_keeps_lanes(state: ScanState, lines: Seq<Seq<char>>)
    requires
        1 <= state.lane_count <= 9,
    ensures
        scan_lines(state, lines) matches Ok(end) ==> 1 <= end.lane_count <= 9,
    decreases lines.len(),
{
    if lines.len() > 0 {
        lemma_scan_line_keeps_lanes(state, lines[0]);
        match scan_line(state, lines[0]) {
            Ok(next) => {
                lemma_scan_lines_keeps_lanes(next, lines.skip(1));
            },
            Err(_) => {},
        }
    }
}

/// Every chart has from one to nine lanes.
pub proof fn lemma_chart_has_lanes(text: Seq<char>)
    ensures
        chart_of(text) matches Ok(chart) ==> 1 <= chart.metadata.lane_count <= 9,
{
    lemma_scan_lines_keeps_lanes(initial_state(), lines_of(text));
}

/// Lines of which none begins with the audio label leave the audio file
/// name as it was; lines of which none begins with the lane label leave
/// the lane count as it was.
pub proof fn lemma_scan_without_labels(state: ScanState, lines: Seq<Seq<char>>)
    ensures
        scan_lines(state, lines) matches Ok(end) ==> {
            &&& (forall|i: int| 0 <= i < lines.len() ==> !AUDIO_LABEL@.is_prefix_of(lines[i]))
                ==> end.audio_filename == state.audio_filename
            &&& (forall|i: int| 0 <= i < lines.len() ==> !LANE_LABEL@.is_prefix_of(lines[i]))
                ==> end.lane_count == state.lane_count
        },
    decreases lines.len(),
{
    if lines.len() > 0 {
        match scan_line(state, lines[0]) {
            Ok(next) => {
                lemma_scan_without_labels(next, lines.skip(1));
            },
            Err(_) => {},
        }
    }
}

/// A chart that names no audio file has the empty name; a chart that gives
/// no lane count has four lanes.
pub proof fn lemma_metadata_defaults(text: Seq<char>)
    ensures
        chart_of(text) matches Ok(chart) ==> {
            &&& (forall|i: int|
                0 <= i < lines_of(text).len() ==> !AUDIO_LABEL@.is_prefix_of(lines_of(text)[i]))
                ==> chart.metadata.audio_filename == Seq::<char>::empty()
            &&& (forall|i: int|
                0 <= i < lines_of(text).len() ==> !LANE_LABEL@.is_prefix_of(lines_of(text)[i]))
                ==> chart.metadata.lane_count == DEFAULT_LANE_COUNT
        },
{
    lemma_scan_without_labels(initial_state(), lines_of(text));
}

/// Reading is a function of the text: two results of reading one text hold
/// the same chart, or the same error.
pub proof fn lemma_parse_is_repeatable(
    text: Seq<char>,
    first: Result<Chart, ParseError>,
    second: Result<Chart, ParseError>,
)
    requires
        parsed(first) == chart_of(text),
        parsed(second) == chart_of(text),
    ensures
        parsed(first) == parsed(second),
{
}

/// Reading two runs of lines one after the other is reading them as one run.
pub proof fn lemma_scan_lines_split(state: ScanState, first: Seq<Seq<char>>, second: Seq<Seq<char>>)
    ensures
        scan_lines(state, first + second) == match scan_lines(state, first) {
            Ok(between) => scan_lines(between, second),
            Err(error) => Err(error),
        },
    decreases first.len(),
{
    if first.len() > 0 {
        assert((first + second).skip(1) =~= first.skip(1) + second);
        match scan_line(state, first[0]) {
            Ok(next) => {
                lemma_scan_lines_split(next, first.skip(1), second);
            },
            Err(_) => {},
        }
    }
}

/// Lines without a section header, read before the hit-object section, add
/// no event and raise no error.
pub proof fn lemma_scan_before_section(state: ScanState, lines: Seq<Seq<char>>)
    requires
        !state.in_hit_objects,
        forall|i: int| 0 <= i < lines.len() ==> lines[i] != SECTION_HEADER@,
    ensures
        scan_lines(state, lines) is Ok,
        !scan_lines(state, lines)->Ok_0.in_hit_objects,
        scan_lines(state, lines)->Ok_0.events == state.events,
        scan_lines(state, lines)->Ok_0.lines_read == state.lines_read + lines.len(),
    decreases lines.len(),
{
    if lines.len() > 0 {
        lemma_scan_before_section(scan_line(state, lines[0])->Ok_0, lines.skip(1));
    }
}

/// Inside the hit-object section, lines whose records can all be read add
/// those records, in their order, and change nothing else.
pub proof fn lemma_scan_in_section(state: ScanState, lines: Seq<Seq<char>>)
    requires
        state.in_hit_objects,
        all_records_readable(lines),
    ensures
        scan_lines(state, lines) == Ok::<ScanState, ParseError>(
            ScanState {
                events: state.events + records_in(lines),
                lines_read: state.lines_read + lines.len(),
                ..state
            },
        ),
    decreases lines.len(),
{
    reveal(Seq::filter);
    if lines.len() > 0 {
        let front = lines.drop_last();
        let last = lines.last();
        assert(lines =~= front + seq![last]);
        lemma_scan_in_section(state, front);
        lemma_scan_lines_split(state, front, seq![last]);
        let between = scan_lines(state, front)->Ok_0;
        assert(scan_lines(between, seq![last]) == scan_line(between, last)) by {
            match scan_line(between, last) {
                Ok(next) => {
                    assert(scan_lines(next, seq![last].skip(1)) == Ok::<ScanState, ParseError>(
                        next,
                    ));
                },
                Err(_) => {},
            }
        }
        if is_record_line(last) {
            assert(state.events + records_in(lines) =~= (state.events + records_in(front)).push(
                record_of(last)->Ok_0,
            ));
        }
    }
}

/// Inside the hit-object section, the first line whose record cannot be
/// read fails the reading; the error gives its number and the reason.
pub proof fn lemma_scan_unreadable_record(state: ScanState, lines: Seq<Seq<char>>, bad_at: int)
    requires
        state.in_hit_objects,
        0 <= bad_at < lines.len(),
        is_record_line(lines[bad_at]),
        record_of(lines[bad_at]) is Err,
        all_records_readable(lines.take(bad_at)),
    ensures
        scan_lines(state, lines) == Err::<ScanState, ParseError>(
            ParseError::MalformedRecord {
                line: (state.lines_read + bad_at + 1) as usize,
                fault: record_of(lines[bad_at])->Err_0,
            },
        ),
{
    let front = lines.take(bad_at);
    let back = lines.skip(bad_at);
    assert(lines =~= front + back);
    lemma_scan_in_section(state, front);
    lemma_scan_lines_split(state, front, back);
}

/// A text without the header of the hit-object section gives a chart
/// without events, and no error.
pub proof fn lemma_no_section_no_events(text: Seq<char>)
    requires
        forall|i: int| 0 <= i < lines_of(text).len() ==> lines_of(text)[i] != SECTION_HEADER@,
    ensures
        chart_of(text) is Ok,
        chart_of(text)->Ok_0.events == Seq::<HitEvent>::empty(),
{
    lemma_scan_before_section(initial_state(), lines_of(text));
}

/// A text with a hit-object section whose records can all be read gives a
/// chart, and the events of the chart are those records in the order of the
/// text.  `header_at` is the position of the first section header among the
/// lines.
pub proof fn lemma_events_are_section_records(text: Seq<char>, header_at: int)
    requires
        0 <= header_at < lines_of(text).len(),
        lines_of(text)[header_at] == SECTION_HEADER@,
        forall|i: int| 0 <= i < header_at ==> lines_of(text)[i] != SECTION_HEADER@,
        all_records_readable(lines_of(text).skip(header_at + 1)),
    ensures
        chart_of(text) is Ok,
        chart_of(text)->Ok_0.events == records_in(lines_of(text).skip(header_at + 1)),
{
    let lines = lines_of(text);
    let before = lines.take(header_at);
    let after = lines.skip(header_at + 1);
    lemma_section_opens(text, header_at);
    let opened = scan_lines(initial_state(), before + seq![lines[header_at]])->Ok_0;
    lemma_scan_in_section(opened, after);
}

/// A text with a hit-object section fails at the first line of the section
/// whose record cannot be read.  `header_at` is the position of the first
/// section header among the lines, `bad_at` that of the line.
pub proof fn lemma_first_unreadable_record_fails(text: Seq<char>, header_at: int, bad_at: int)
    requires
        0 <= header_at < bad_at < lines_of(text).len(),
        lines_of(text)[header_at] == SECTION_HEADER@,
        forall|i: int| 0 <= i < header_at ==> lines_of(text)[i] != SECTION_HEADER@,
        is_record_line(lines_of(text)[bad_at]),
        record_of(lines_of(text)[bad_at]) is Err,
        forall|i: int|
            header_at < i < bad_at && is_record_line(#[trigger] lines_of(text)[i]) ==> record_of(
                lines_of(text)[i],
            ) is Ok,
    ensures
        chart_of(text) == Err::<ChartView, ParseError>(
            ParseError::MalformedRecord {
                line: (bad_at + 1) as usize,
                fault: record_of(lines_of(text)[bad_at])->Err_0,
            },
        ),
{
    let lines = lines_of(text);
    let after = lines.skip(header_at + 1);
    lemma_section_opens(text, header_at);
    let opened = scan_lines(initial_state(), lines.take(header_at) + seq![lines[header_at]])->Ok_0;
    let at = bad_at - header_at - 1;
    lemma_scan_unreadable_record(opened, after, at);
}

/// Up to and with its first section header a text raises no error and
/// records no event; after it the reader is inside the section.
proof fn lemma_section_opens(text: Seq<char>, header_at: int)
    requires
        0 <= header_at < lines_of(text).len(),
        lines_of(text)[header_at] == SECTION_HEADER@,
        forall|i: int| 0 <= i < header_at ==> lines_of(text)[i] != SECTION_HEADER@,
    ensures
        ({
            let lines = lines_of(text);
            let head = lines.take(header_at) + seq![lines[header_at]];
            &&& scan_lines(initial_state(), head) matches Ok(opened)
            &&& opened.in_hit_objects
            &&& opened.events == Seq::<HitEvent>::empty()
            &&& opened.lines_read == header_at + 1
            &&& scan_lines(initial_state(), lines) == scan_lines(opened, lines.skip(header_at + 1))
        }),
{
    let lines = lines_of(text);
    let before = lines.take(header_at);
    let header = seq![lines[header_at]];
    let after = lines.skip(header_at + 1);
    lemma_scan_before_section(initial_state(), before);
    lemma_scan_lines_split(initial_state(), before, header);
    let reached = scan_lines(initial_state(), before)->Ok_0;
    let opened = scan_line(reached, lines[header_at])->Ok_0;
    assert(scan_lines(opened, header.skip(1)) == Ok::<ScanState, ParseError>(opened));
    assert(lines =~= (before + header) + after);
    lemma_scan_lines_split(initial_state(), before + header, after);
}

} // verus!

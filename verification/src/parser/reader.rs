//! The reader: one pass over the characters of the text.

use vstd::prelude::*;
use crate::chart::{Chart, ChartMetadata, HitEvent};
use crate::error::{ParseError, RecordFault};
use crate::number::{digit_of, parse_integer};
use crate::parser::laws::lemma_scan_line_keeps_lanes;
use crate::parser::model::{
    chart_of, initial_state, parsed, record_of, scan_line, scan_lines, ScanState, AUDIO_LABEL,
    DEFAULT_LANE_COUNT, LANE_LABEL, SECTION_HEADER,
};
use crate::text::{begins_with, chars_of, fields_of, find_from, lemma_fields_of, lines_of};
use crate::text::without_carriage_return;

verus! {

/// The three texts that a reader looks for, as characters.
struct Labels {
    audio: Vec<char>,
    lanes: Vec<char>,
    header: Vec<char>,
}

impl Labels {
    spec fn wf(&self) -> bool {
        &&& self.audio@ == AUDIO_LABEL@
        &&& self.lanes@ == LANE_LABEL@
        &&& self.header@ == SECTION_HEADER@
    }

    fn new() -> (labels: Labels)
        ensures
            labels.wf(),
    {
        Labels {
            audio: chars_of(AUDIO_LABEL),
            lanes: chars_of(LANE_LABEL),
            header: chars_of(SECTION_HEADER),
        }
    }
}

/// The state of the reader, as the program holds it.
struct Scanner {
    in_hit_objects: bool,
    audio_filename: String,
    lane_count: i64,
    events: Vec<HitEvent>,
    lines_read: usize,
}

impl View for Scanner {
    type V = ScanState;

    closed spec fn view(&self) -> ScanState {
        ScanState {
            in_hit_objects: self.in_hit_objects,
            audio_filename: self.audio_filename@,
            lane_count: self.lane_count as int,
            events: self.events@,
            lines_read: self.lines_read as nat,
        }
    }
}

/// Reads the record that stands between two positions.
fn read_record(chars: &Vec<char>, from: usize, to: usize) -> (record: Result<HitEvent, RecordFault>)
    requires
        from <= to <= chars.len(),
    ensures
        record == record_of(chars@.subrange(from as int, to as int)),
{
    let ghost line = chars@.subrange(from as int, to as int);
    let first = find_from(chars, from, to, ',');
    proof {
        lemma_fields_of(line);
        assert(line.take(first - from) =~= chars@.subrange(from as int, first as int));
    }
    if first == to {
        return Err(RecordFault::MissingFields);
    }
    let ghost after_first = chars@.subrange(first + 1, to as int);
    let second = find_from(chars, first + 1, to, ',');
    proof {
        assert(line.skip(first - from + 1) =~= after_first);
        lemma_fields_of(after_first);
    }
    if second == to {
        return Err(RecordFault::MissingFields);
    }
    let ghost after_second = chars@.subrange(second + 1, to as int);
    let third = find_from(chars, second + 1, to, ',');
    proof {
        assert(after_first.skip(second - first) =~= after_second);
        lemma_fields_of(after_second);
        assert(after_second.take(third - second - 1) =~= chars@.subrange(
            second + 1,
            third as int,
        ));
    }
    match parse_integer(chars, from, first) {
        None => Err(RecordFault::InvalidCoordinate),
        Some(raw_x) => match parse_integer(chars, second + 1, third) {
            None => Err(RecordFault::InvalidTime),
            Some(hit_time) => Ok(HitEvent { raw_x, hit_time }),
        },
    }
}

impl Scanner {
    fn new() -> (scanner: Scanner)
        ensures
            scanner@ == initial_state(),
    {
        Scanner {
            in_hit_objects: false,
            audio_filename: String::new(),
            lane_count: DEFAULT_LANE_COUNT,
            events: Vec::new(),
            lines_read: 0,
        }
    }

    /// Reads the line that stands between two positions of the text.
    fn feed(self, text: &str, chars: &Vec<char>, labels: &Labels, from: usize, to: usize) -> (next:
        Result<Scanner, ParseError>)
        requires
            text@ == chars@,
            labels.wf(),
            from <= to <= chars.len(),
            self@.lines_read < usize::MAX,
        ensures
            scanned(next) == scan_line(self@, chars@.subrange(from as int, to as int)),
    {
        let ghost line = chars@.subrange(from as int, to as int);
        let mut scanner = self;
        let number: usize = scanner.lines_read + 1;
        scanner.lines_read = number;
        if to - from == labels.header.len() && begins_with(chars, from, to, &labels.header) {
            assert(line.subrange(0, line.len() as int) =~= line);
            scanner.in_hit_objects = true;
            Ok(scanner)
        } else if scanner.in_hit_objects {
            if from == to {
                Ok(scanner)
            } else {
                match read_record(chars, from, to) {
                    Ok(event) => {
                        scanner.events.push(event);
                        Ok(scanner)
                    },
                    Err(fault) => Err(ParseError::MalformedRecord { line: number, fault }),
                }
            }
        } else if begins_with(chars, from, to, &labels.audio) {
            if to - from > labels.audio.len() {
                let name = text.substring_char(from + labels.audio.len() + 1, to);
                assert(name@ =~= line.skip(AUDIO_LABEL@.len() as int + 1));
                scanner.audio_filename = name.to_owned();
            } else {
                scanner.audio_filename = String::new();
            }
            Ok(scanner)
        } else if begins_with(chars, from, to, &labels.lanes) {
            if to - from > labels.lanes.len() {
                match digit_of(chars[from + labels.lanes.len()]) {
                    Some(digit) => {
                        if digit >= 1 {
                            scanner.lane_count = digit as i64;
                        }
                    },
                    None => {},
                }
            }
            Ok(scanner)
        } else {
            Ok(scanner)
        }
    }
}

/// What a step of the reader holds, as mathematics.
spec fn scanned(next: Result<Scanner, ParseError>) -> Result<ScanState, ParseError> {
    match next {
        Ok(scanner) => Ok(scanner@),
        Err(error) => Err(error),
    }
}

/// Reads a chart from its text.
pub fn parse(text: &str) -> (result: Result<Chart, ParseError>)
    ensures
        parsed(result) == chart_of(text@),
        result matches Ok(chart) ==> 1 <= chart@.metadata.lane_count <= 9,
{
    let chars = chars_of(text);
    let labels = Labels::new();
    let mut scanner = Scanner::new();
    let mut at: usize = 0;
    assert(text@.skip(0) =~= text@);
    while at < chars.len()
        invariant
            chars@ == text@,
            labels.wf(),
            at <= chars.len(),
            scanner@.lines_read <= at,
            1 <= scanner@.lane_count <= 9,
            scan_lines(initial_state(), lines_of(text@)) == scan_lines(
                scanner@,
                lines_of(text@.skip(at as int)),
            ),
        decreases chars.len() - at,
    {
        let ghost rest = text@.skip(at as int);
        let ghost before = scanner@;
        let end = find_from(&chars, at, chars.len(), '\n');
        let ended: bool = end < chars.len();
        let stop: usize = if ended && at < end && chars[end - 1] == '\r' {
            (end - 1) as usize
        } else {
            end
        };
        proof {
            let line = chars@.subrange(at as int, stop as int);
            if ended {
                assert(rest.skip(end - at + 1) =~= text@.skip(end + 1));
                assert(lines_of(rest).skip(1) =~= lines_of(text@.skip(end + 1)));
            } else {
                assert(lines_of(rest).skip(1) =~= lines_of(text@.skip(end as int)));
            }
            assert(lines_of(rest)[0] == line);
            lemma_scan_line_keeps_lanes(before, line);
        }
        match scanner.feed(text, &chars, &labels, at, stop) {
            Ok(next) => {
                scanner = next;
            },
            Err(error) => {
                return Err(error);
            },
        }
        at = if ended {
            end + 1
        } else {
            end
        };
    }
    let metadata = ChartMetadata::new(scanner.audio_filename, scanner.lane_count).unwrap();
    Ok(Chart::new(metadata, scanner.events))
}

} // verus!

//! From a chart to the notes on the playfield.
//!
//! [`schedule_of`] gives every note of a chart its lane and the moment at
//! which it appears; [`visible_at`] picks the notes that are on their way
//! at a given moment.

use vstd::prelude::*;
use crate::chart::{Chart, ChartView, HitEvent};
use crate::error::ConfigurationError;
use crate::timing::{column_of, compute_column, compute_spawn_time, spawn_time_of};

verus! {

/// A note with its place and its times.
#[derive(Clone, Copy, Debug, PartialEq, Eq, Structural)]
pub struct ScheduledNote {
    /// The lane of the note, counted from zero.
    pub column: i64,
    /// The moment, in milliseconds, at which the note appears.  It lies
    /// before zero for a note whose way down is longer than its hit time.
    pub spawn_time: i64,
    /// The moment, in milliseconds, at which the player has to act.
    pub hit_time: i64,
}

/// Whether 64 bits hold the spawn time of `event`.
pub open spec fn spawn_time_fits(
    event: HitEvent,
    playfield_height: int,
    scroll_speed: int,
) -> bool {
    i64::MIN <= spawn_time_of(event.hit_time as int, playfield_height, scroll_speed) <= i64::MAX
}

/// The note that `event` is on a playfield of the given lanes, height and
/// scroll speed.
pub open spec fn scheduled(
    event: HitEvent,
    lane_count: int,
    playfield_height: int,
    scroll_speed: int,
) -> ScheduledNote {
    ScheduledNote {
        column: column_of(event.raw_x as int, lane_count) as i64,
        spawn_time: spawn_time_of(event.hit_time as int, playfield_height, scroll_speed) as i64,
        hit_time: event.hit_time,
    }
}

/// The notes of a chart, one for each of its events and in their order; or
/// why the chart cannot be timed: with a scroll speed of zero, or with a
/// spawn time that 64 bits cannot hold.
pub open spec fn schedule_of(chart: ChartView, playfield_height: int, scroll_speed: int) -> Result<
    Seq<ScheduledNote>,
    ConfigurationError,
> {
    if scroll_speed == 0 {
        Err(ConfigurationError::ZeroScrollSpeed)
    } else if exists|i: int|
        0 <= i < chart.events.len() && !spawn_time_fits(
            #[trigger] chart.events[i],
            playfield_height,
            scroll_speed,
        ) {
        Err(ConfigurationError::SpawnTimeOutOfRange)
    } else {
        Ok(
            Seq::new(
                chart.events.len(),
                |i: int|
                    scheduled(
                        chart.events[i],
                        chart.metadata.lane_count,
                        playfield_height,
                        scroll_speed,
                    ),
            ),
        )
    }
}

/// What a result of [`schedule_for`] holds, as mathematics.
pub open spec fn timed(schedule: Result<Vec<ScheduledNote>, ConfigurationError>) -> Result<
    Seq<ScheduledNote>,
    ConfigurationError,
> {
    match schedule {
        Ok(notes) => Ok(notes@),
        Err(error) => Err(error),
    }
}

/// Whether a note is on its way at the moment `now`: it has appeared and is
/// not yet due.
pub open spec fn is_visible(note: ScheduledNote, now: int) -> bool {
    note.spawn_time <= now < note.hit_time
}

/// Gives every note of `chart` its lane and its spawn time.
pub fn schedule_for(chart: &Chart, playfield_height: i64, scroll_speed: i64) -> (schedule: Result<
    Vec<ScheduledNote>,
    ConfigurationError,
>)
    ensures
        timed(schedule) == schedule_of(chart@, playfield_height as int, scroll_speed as int),
        schedule matches Ok(notes) ==> notes.len() == chart@.events.len() && forall|i: int|
            0 <= i < notes.len() ==> 0 <= (#[trigger] notes[i]).column
                < chart@.metadata.lane_count,
{
    if scroll_speed == 0 {
        return Err(ConfigurationError::ZeroScrollSpeed);
    }
    let lane_count = chart.metadata().lane_count();
    let events = chart.events();
    let mut notes: Vec<ScheduledNote> = Vec::new();
    let mut i: usize = 0;
    while i < events.len()
        invariant
            scroll_speed != 0,
            events@ == chart@.events,
            lane_count == chart@.metadata.lane_count,
            lane_count >= 1,
            i <= events.len(),
            notes.len() == i,
            forall|k: int|
                0 <= k < i ==> spawn_time_fits(
                    #[trigger] events@[k],
                    playfield_height as int,
                    scroll_speed as int,
                ),
            forall|k: int|
                0 <= k < i ==> #[trigger] notes[k] == scheduled(
                    events@[k],
                    lane_count as int,
                    playfield_height as int,
                    scroll_speed as int,
                ),
            forall|k: int| 0 <= k < i ==> 0 <= (#[trigger] notes[k]).column < lane_count,
        decreases events.len() - i,
    {
        let event = events[i];
        let column = compute_column(event.raw_x, lane_count);
        match compute_spawn_time(event.hit_time, playfield_height, scroll_speed) {
            Ok(spawn_time) => {
                notes.push(ScheduledNote { column, spawn_time, hit_time: event.hit_time });
            },
            Err(error) => {
                return Err(error);
            },
        }
        i += 1;
    }
    assert(notes@ =~= schedule_of(
        chart@,
        playfield_height as int,
        scroll_speed as int,
    )->Ok_0);
    Ok(notes)
}

/// The notes that are on their way at the moment `now`, in the order of the
/// schedule.
pub fn visible_at(notes: &[ScheduledNote], now: i64) -> (visible: Vec<ScheduledNote>)
    ensures
        visible@ == notes@.filter(|note: ScheduledNote| is_visible(note, now as int)),
{
    let ghost on_its_way = |note: ScheduledNote| is_visible(note, now as int);
    let mut visible: Vec<ScheduledNote> = Vec::new();
    let mut i: usize = 0;
    while i < notes.len()
        invariant
            i <= notes.len(),
            on_its_way == |note: ScheduledNote| is_visible(note, now as int),
            visible@ == notes@.take(i as int).filter(on_its_way),
        decreases notes.len() - i,
    {
        let note = notes[i];
        proof {
            reveal(Seq::filter);
            assert(notes@.take(i + 1).drop_last() =~= notes@.take(i as int));
        }
        if note.spawn_time <= now && now < note.hit_time {
            visible.push(note);
        }
        i += 1;
    }
    assert(notes@.take(notes.len() as int) =~= notes@);
    visible
}

} // verus!

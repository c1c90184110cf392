//! The chart model: what a chart file says, once it has been read.

use vstd::prelude::*;

verus! {

/// One note as the chart wrote it down.
#[derive(Clone, Copy, Debug, PartialEq, Eq, Structural)]
pub struct HitEvent {
    /// Horizontal coordinate in the chart's coordinate space.
    pub raw_x: i64,
    /// The moment, in milliseconds, at which the player has to act.
    pub hit_time: i64,
}

/// What a chart says about itself.  The lane count is one at least.
#[derive(Debug, PartialEq, Eq)]
pub struct ChartMetadata {
    audio_filename: String,
    lane_count: i64,
}

/// A chart: its metadata and its notes in the order of the file.
#[derive(Debug, PartialEq, Eq)]
pub struct Chart {
    metadata: ChartMetadata,
    events: Vec<HitEvent>,
}

/// The mathematical content of a [`ChartMetadata`].
pub struct MetadataView {
    pub audio_filename: Seq<char>,
    pub lane_count: int,
}

/// The mathematical content of a [`Chart`].
pub struct ChartView {
    pub metadata: MetadataView,
    pub events: Seq<HitEvent>,
}

impl View for ChartMetadata {
    type V = MetadataView;

    closed spec fn view(&self) -> MetadataView {
        MetadataView { audio_filename: self.audio_filename@, lane_count: self.lane_count as int }
    }
}

impl View for Chart {
    type V = ChartView;

    closed spec fn view(&self) -> ChartView {
        ChartView { metadata: self.metadata@, events: self.events@ }
    }
}

impl Clone for ChartMetadata {
    fn clone(&self) -> (copy: ChartMetadata)
        ensures
            copy@ == self@,
    {
        proof {
            use_type_invariant(self);
        }
        ChartMetadata { audio_filename: self.audio_filename.clone(), lane_count: self.lane_count }
    }
}

impl Clone for Chart {
    fn clone(&self) -> (copy: Chart)
        ensures
            copy@ == self@,
    {
        Chart { metadata: self.metadata.clone(), events: self.events.clone() }
    }
}

impl ChartMetadata {
    #[verifier::type_invariant]
    spec fn has_a_lane(&self) -> bool {
        self.lane_count >= 1
    }

    /// Metadata with the given values; `None` for a lane count below one.
    pub fn new(audio_filename: String, lane_count: i64) -> (metadata: Option<ChartMetadata>)
        ensures
            metadata is Some == (lane_count >= 1),
            metadata matches Some(m) ==> m@ == (MetadataView {
                audio_filename: audio_filename@,
                lane_count: lane_count as int,
            }),
    {
        if lane_count >= 1 {
            Some(ChartMetadata { audio_filename, lane_count })
        } else {
            None
        }
    }

    /// Name of the audio file; empty where the chart names none.
    pub fn audio_filename(&self) -> (name: &str)
        ensures
            name@ == self@.audio_filename,
    {
        self.audio_filename.as_str()
    }

    /// Whether the chart names an audio file.  A chart with an empty name
    /// has no audio.
    pub fn has_audio(&self) -> (named: bool)
        ensures
            named == (self@.audio_filename.len() > 0),
    {
        !self.audio_filename.as_str().is_empty()
    }

    /// Number of lanes of the playfield.
    pub fn lane_count(&self) -> (lanes: i64)
        ensures
            lanes == self@.lane_count,
            lanes >= 1,
    {
        proof {
            use_type_invariant(self);
        }
        self.lane_count
    }
}

impl Chart {
    /// The chart with the given metadata and notes.
    pub fn new(metadata: ChartMetadata, events: Vec<HitEvent>) -> (chart: Chart)
        ensures
            chart@ == (ChartView { metadata: metadata@, events: events@ }),
    {
        Chart { metadata, events }
    }

    /// What the chart says about itself.
    pub fn metadata(&self) -> (metadata: &ChartMetadata)
        ensures
            metadata@ == self@.metadata,
    {
        &self.metadata
    }

    /// The notes, in the order of the file.
    pub fn events(&self) -> (events: &Vec<HitEvent>)
        ensures
            events@ == self@.events,
    {
        &self.events
    }
}

} // verus!

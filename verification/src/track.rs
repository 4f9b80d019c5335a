//! Recorded samples, and the loading of a track or of a set of display
//! points from the records of a tabular source.
//!
//! The caller opens the source and decodes its records; what is made of them
//! is decided here. A load is all or nothing: the first record that cannot
//! be used fails it.

use crate::datetime::{
    clock_digits, format_utc, parse_utc, utc_datetime, utc_instant_exists, CLOCK_FORMAT,
};
use crate::geometry::FixedPoint;
use vstd::prelude::*;

verus! {

/// The one textual form of a timestamp: ISO 8601 / RFC 3339, date and time
/// with an offset from UTC.
pub const TIMESTAMP_FORMAT: &'static str = "%+";

/// An instant: whole non-leap seconds since 1970-01-01T00:00:00Z and
/// nanoseconds since the last of them.
#[derive(Clone, Copy, Debug, PartialEq, Eq, Structural)]
pub struct Timestamp {
    pub secs: i64,
    pub nanos: u32,
}

impl Timestamp {
    /// Whether the instant lies within the calendar that timestamps are
    /// read from and written by.
    pub open spec fn on_calendar(self) -> bool {
        utc_instant_exists(self.secs, self.nanos)
    }

    /// The time of day of the instant, in UTC, as `HH:MM:SS.mmm`. `None`
    /// where the instant lies outside the calendar.
    pub open spec fn clock_text(self) -> Option<Seq<char>> {
        if self.on_calendar() {
            Some(clock_digits(self.secs as int, self.nanos as int))
        } else {
            None
        }
    }

    /// Writes the time of day of the instant, where it lies within the calendar.
    pub fn clock(&self) -> (r: Option<String>)
        ensures
            r is Some <==> self.clock_text() is Some,
            r matches Some(text) ==> self.clock_text() == Some(text@),
    {
        format_utc(self.secs, self.nanos, CLOCK_FORMAT)
    }
}

/// One recorded observation: where an entity was, when, and how long to
/// wait, in milliseconds, before the next sample of its track is due.
#[derive(Clone, Copy, Debug, PartialEq, Eq, Structural)]
pub struct Sample {
    pub timestamp: Timestamp,
    pub position: FixedPoint,
    pub delay_to_next: u64,
}

/// The tracks as sequences of samples.
pub open spec fn tracks_view(tracks: Seq<Vec<Sample>>) -> Seq<Seq<Sample>> {
    Seq::new(tracks.len(), |t: int| tracks[t]@)
}

/// Why one record cannot be used.
#[derive(Clone, Copy, Debug, PartialEq, Eq, Structural)]
pub enum RowError {
    /// The record did not decode: a required field is absent or no number.
    Record,
    /// The record's timestamp is not in the one accepted form.
    Timestamp,
}

/// Why a load failed.
#[derive(Clone, Copy, Debug, PartialEq, Eq, Structural)]
pub enum LoadError {
    /// The source is missing or cannot be read.
    Unreadable,
    /// The record at `row`, counted from zero after the header, cannot be used.
    Malformed { row: usize, cause: RowError },
}

/// What came of reading a tabular source: nothing, or its records in order,
/// each of them decoded or not.
pub enum Source<R> {
    Unreadable,
    Records(Vec<Option<R>>),
}

/// A decoded record of a track source, its timestamp still text.
#[derive(Debug, PartialEq, Eq)]
pub struct RaceRecord {
    pub date: String,
    pub x_led: i64,
    pub y_led: i64,
    pub time_delta: Option<u64>,
}

/// The sample that a record's fields make, given what its timestamp text
/// was read as. A delay that the record leaves out is zero.
pub open spec fn sample_of(
    instant: Option<(i64, u32)>,
    position: FixedPoint,
    time_delta: Option<u64>,
) -> Result<Sample, RowError> {
    match instant {
        Some((secs, nanos)) => Ok(
            Sample {
                timestamp: Timestamp { secs, nanos },
                position,
                delay_to_next: match time_delta {
                    Some(delay) => delay,
                    None => 0,
                },
            },
        ),
        None => Err(RowError::Timestamp),
    }
}

/// What a read timestamp is when the reason for a failure is set aside.
pub open spec fn read_instant(parsed: Result<(i64, u32), chrono::ParseError>) -> Option<(i64, u32)> {
    match parsed {
        Ok(at) => Some(at),
        Err(_) => None,
    }
}

/// Makes a sample of a record's fields once its timestamp text has been read.
pub fn sample_from_parts(
    parsed: Result<(i64, u32), chrono::ParseError>,
    position: FixedPoint,
    time_delta: Option<u64>,
) -> (r: Result<Sample, RowError>)
    ensures
        r == sample_of(read_instant(parsed), position, time_delta),
{
    match parsed {
        Ok((secs, nanos)) => {
            let delay_to_next: u64 = match time_delta {
                Some(delay) => delay,
                None => 0,
            };
            Ok(Sample { timestamp: Timestamp { secs, nanos }, position, delay_to_next })
        },
        Err(_) => Err(RowError::Timestamp),
    }
}

/// The sample that a decoded record stands for.
pub open spec fn record_sample(record: RaceRecord) -> Result<Sample, RowError> {
    sample_of(
        utc_datetime(record.date@, TIMESTAMP_FORMAT@),
        FixedPoint { x: record.x_led, y: record.y_led },
        record.time_delta,
    )
}

/// Reads the record's timestamp and makes the sample.
///
/// Fails exactly when the timestamp text is not in the accepted form. An
/// instant that was read lies within the calendar.
pub fn decode_record(record: &RaceRecord) -> (r: Result<Sample, RowError>)
    ensures
        r == record_sample(*record),
        r matches Ok(sample) ==> sample.timestamp.on_calendar(),
{
    let parsed = parse_utc(record.date.as_str(), TIMESTAMP_FORMAT);
    sample_from_parts(parsed, FixedPoint { x: record.x_led, y: record.y_led }, record.time_delta)
}

/// What row `i` of a point source gives: the point, or the reason it gives none.
pub open spec fn point_row(records: Seq<Option<FixedPoint>>, i: int) -> Result<FixedPoint, RowError> {
    match records[i] {
        Some(point) => Ok(point),
        None => Err(RowError::Record),
    }
}

/// What row `i` of a track source gives: the sample, or the reason it gives none.
pub open spec fn race_row(records: Seq<Option<RaceRecord>>, i: int) -> Result<Sample, RowError> {
    match records[i] {
        Some(record) => record_sample(record),
        None => Err(RowError::Record),
    }
}

/// Whether `points` are what the records of a point source load as: one
/// point for each record, in order.
pub open spec fn loaded_points(records: Seq<Option<FixedPoint>>, points: Seq<FixedPoint>) -> bool {
    &&& points.len() == records.len()
    &&& forall|i: int|
        0 <= i < records.len() ==> #[trigger] point_row(records, i) == Ok::<FixedPoint, RowError>(
            points[i],
        )
}

/// Whether `track` is what the records of a track source load as: one sample
/// for each record but the first, in order.
pub open spec fn loaded_track(records: Seq<Option<RaceRecord>>, track: Seq<Sample>) -> bool {
    &&& track.len() == if records.len() == 0 {
        0
    } else {
        records.len() - 1
    }
    &&& forall|i: int|
        1 <= i < records.len() ==> #[trigger] race_row(records, i) == Ok::<Sample, RowError>(
            track[i - 1],
        )
}

/// Loads the display points: one for each record, in order.
///
/// Fails when the source is unreadable, and at the first record that did not
/// decode; there is no partial result.
pub fn read_coordinates(source: &Source<FixedPoint>) -> (r: Result<Vec<FixedPoint>, LoadError>)
    ensures
        *source is Unreadable ==> r == Err::<Vec<FixedPoint>, LoadError>(LoadError::Unreadable),
        *source matches Source::Records(records) ==> {
            &&& r is Ok <==> forall|i: int|
                0 <= i < records@.len() ==> #[trigger] point_row(records@, i) is Ok
            &&& r matches Ok(points) ==> loaded_points(records@, points@)
            &&& r matches Err(e) ==> {
                &&& e matches LoadError::Malformed { row, cause }
                &&& row < records@.len()
                &&& point_row(records@, row as int) == Err::<FixedPoint, RowError>(cause)
                &&& forall|j: int| 0 <= j < row ==> #[trigger] point_row(records@, j) is Ok
            }
        },
{
    match source {
        Source::Unreadable => Err(LoadError::Unreadable),
        Source::Records(records) => {
            let mut points: Vec<FixedPoint> = Vec::new();
            let mut i: usize = 0;
            while i < records.len()
                invariant
                    *source == Source::Records(*records),
                    i <= records@.len(),
                    points@.len() == i,
                    forall|j: int|
                        0 <= j < i ==> #[trigger] point_row(records@, j) == Ok::<
                            FixedPoint,
                            RowError,
                        >(points@[j]),
                decreases records@.len() - i,
            {
                match records[i] {
                    Some(point) => {
                        points.push(point);
                    },
                    None => {
                        return Err(LoadError::Malformed { row: i, cause: RowError::Record });
                    },
                }
                i = i + 1;
            }
            Ok(points)
        },
    }
}

/// Loads one entity's track: one sample for each record but the first, in order.
///
/// The record that follows the header is dropped whatever it holds, even
/// where it did not decode. Fails when the source is unreadable, and at the
/// first of the other records that did not decode or whose timestamp is not
/// in the accepted form; there is no partial result. The instants of a
/// loaded track lie within the calendar.
pub fn read_race_data(source: &Source<RaceRecord>) -> (r: Result<Vec<Sample>, LoadError>)
    ensures
        *source is Unreadable ==> r == Err::<Vec<Sample>, LoadError>(LoadError::Unreadable),
        *source matches Source::Records(records) ==> {
            &&& r is Ok <==> forall|i: int|
                1 <= i < records@.len() ==> #[trigger] race_row(records@, i) is Ok
            &&& r matches Ok(track) ==> {
                &&& loaded_track(records@, track@)
                &&& forall|k: int|
                    0 <= k < track@.len() ==> (#[trigger] track@[k]).timestamp.on_calendar()
            }
            &&& r matches Err(e) ==> {
                &&& e matches LoadError::Malformed { row, cause }
                &&& 1 <= row < records@.len()
                &&& race_row(records@, row as int) == Err::<Sample, RowError>(cause)
                &&& forall|j: int| 1 <= j < row ==> #[trigger] race_row(records@, j) is Ok
            }
        },
{
    match source {
        Source::Unreadable => Err(LoadError::Unreadable),
        Source::Records(records) => {
            let mut track: Vec<Sample> = Vec::new();
            let mut i: usize = 1;
            while i < records.len()
                invariant
                    *source == Source::Records(*records),
                    1 <= i,
                    i <= records@.len() || (records@.len() == 0 && i == 1),
                    track@.len() == i - 1,
                    forall|j: int|
                        1 <= j < i ==> #[trigger] race_row(records@, j) == Ok::<Sample, RowError>(
                            track@[j - 1],
                        ),
                    forall|k: int|
                        0 <= k < track@.len() ==> (#[trigger] track@[k]).timestamp.on_calendar(),
                decreases records@.len() - i,
            {
                match &records[i] {
                    Some(record) => {
                        match decode_record(record) {
                            Ok(sample) => {
                                track.push(sample);
                            },
                            Err(cause) => {
                                return Err(LoadError::Malformed { row: i, cause });
                            },
                        }
                    },
                    None => {
                        return Err(LoadError::Malformed { row: i, cause: RowError::Record });
                    },
                }
                i = i + 1;
            }
            Ok(track)
        },
    }
}

} // verus!

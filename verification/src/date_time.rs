//! Random points in time, as milliseconds since the Unix epoch together with the zone they are
//! to be read in.
use vstd::prelude::*;
use crate::number::some_number_between;

verus! {

/// The first millisecond that a sampled point in time can fall on.
pub const FIRST_EPOCH_MILLIS: i64 = 1;

/// The millisecond just after the last one that a sampled point in time can fall on: the
/// first hour of the year 3000 has passed by then.
pub const END_EPOCH_MILLIS: i64 = 32503683600000;

/// The zone that a point in time is to be read in.
#[derive(Clone, Copy, Debug, PartialEq, Eq, Structural)]
pub enum Zone {
    /// The zone of the machine.
    Local,
    /// Coordinated universal time.
    Utc,
}

/// A point in time: a count of milliseconds since 1970-01-01 00:00:00 UTC, and the zone in
/// which a calendar shows it.
#[derive(Clone, Copy, Debug, PartialEq, Eq, Structural)]
pub struct Timestamp {
    pub zone: Zone,
    pub epoch_millis: i64,
}

impl Timestamp {
    /// Whether the point lies where the samplers draw from: after the epoch itself and before
    /// [`END_EPOCH_MILLIS`].
    pub open spec fn is_sampled(self) -> bool {
        FIRST_EPOCH_MILLIS <= self.epoch_millis < END_EPOCH_MILLIS
    }
}

/// A sampled point in time is never the epoch itself, in whatever zone.
pub proof fn sampled_is_never_the_epoch(t: Timestamp)
    requires
        t.is_sampled(),
    ensures
        t.epoch_millis != 0,
        t != (Timestamp { zone: t.zone, epoch_millis: 0 }),
{
}

/// A random point in time in `zone`, at least one millisecond after the epoch and before
/// [`END_EPOCH_MILLIS`].
pub fn sample_date_time(zone: Zone) -> (t: Timestamp)
    ensures
        t.zone == zone,
        t.is_sampled(),
        t.epoch_millis != 0,
{
    let epoch_millis: i64 = some_number_between(FIRST_EPOCH_MILLIS, END_EPOCH_MILLIS);
    Timestamp { zone, epoch_millis }
}

/// A random point in time in the zone of the machine.
pub fn some_date_time() -> (t: Timestamp)
    ensures
        t.zone == Zone::Local,
        t.is_sampled(),
        t.epoch_millis != 0,
{
    sample_date_time(Zone::Local)
}

/// A random point in time in coordinated universal time.
pub fn some_utc_date_time() -> (t: Timestamp)
    ensures
        t.zone == Zone::Utc,
        t.is_sampled(),
        t.epoch_millis != 0,
{
    sample_date_time(Zone::Utc)
}

} // verus!

use vstd::prelude::*;
use crate::time::{LocalTime, MAX_TIMESTAMP_MS};

verus! {

/// One departure as the upstream service reports it.
#[derive(Clone, Debug)]
pub struct RawDeparture {
    /// Planned departure, in milliseconds since the Unix epoch.
    pub planned_departure_time_ms: u64,
    /// Whether the service has realtime data for this departure.
    pub is_real_time: bool,
    /// Delay in minutes; 0 where the service leaves it out.
    pub delay_minutes: u16,
    /// Expected departure, in milliseconds since the Unix epoch.
    pub real_departure_time_ms: u64,
    pub vehicle_label: String,
    pub destination: String,
    pub cancelled: bool,
}

impl RawDeparture {
    /// Both timestamps lie in the range that converts to a local time.
    pub open spec fn wf(self) -> bool {
        &&& self.planned_departure_time_ms <= MAX_TIMESTAMP_MS
        &&& self.real_departure_time_ms <= MAX_TIMESTAMP_MS
    }

    /// Whether both timestamps convert to a local time.
    pub fn has_valid_timestamps(&self) -> (r: bool)
        ensures
            r == self.wf(),
    {
        self.planned_departure_time_ms <= MAX_TIMESTAMP_MS
            && self.real_departure_time_ms <= MAX_TIMESTAMP_MS
    }
}

/// A departure as the board shows it.
#[derive(Clone, Debug)]
pub struct Departure {
    pub actual_time: LocalTime,
    pub planned_time: LocalTime,
    /// Delay in minutes, present exactly when it is backed by realtime data.
    pub delay_minutes: Option<u16>,
    pub destination: String,
    pub cancelled: bool,
    pub vehicle_label: String,
}

/// How a departure's row is drawn as a whole.
#[derive(Clone, Copy, Debug, PartialEq, Eq, Structural)]
pub enum RenderVariant {
    Plain,
    Struck,
}

/// How a departure's time is annotated.
#[derive(Clone, Copy, Debug, PartialEq, Eq, Structural)]
pub enum TimeStyle {
    /// Realtime-confirmed, shown with its delay in minutes (0 included).
    WithDelay(u16),
    /// No realtime data: the time is shown in italics.
    Unconfirmed,
    /// Cancelled without realtime data: the time is shown as it is.
    Bare,
}

/// The instant shown for a departure: the planned one when it is cancelled,
/// the expected one otherwise.
pub open spec fn displayed_time_of(d: Departure) -> LocalTime {
    if d.cancelled {
        d.planned_time
    } else {
        d.actual_time
    }
}

/// The position of a departure on the time line, in milliseconds since the epoch.
pub open spec fn displayed_ms(d: Departure) -> int {
    displayed_time_of(d).epoch_ms as int
}

/// `d` is what the board makes of `raw`.
pub open spec fn normalized_from(d: Departure, raw: RawDeparture) -> bool {
    &&& d.wf()
    &&& d.actual_time.epoch_ms == raw.real_departure_time_ms
    &&& d.planned_time.epoch_ms == raw.planned_departure_time_ms
    &&& d.delay_minutes == (if raw.is_real_time { Some(raw.delay_minutes) } else { None })
    &&& d.destination@ == raw.destination@
    &&& d.cancelled == raw.cancelled
    &&& d.vehicle_label@ == raw.vehicle_label@
}

impl Departure {
    /// Both instants are well-formed local times.
    pub open spec fn wf(self) -> bool {
        self.actual_time.wf() && self.planned_time.wf()
    }

    /// Builds the board's departure from a raw record.
    pub fn from_raw(raw: &RawDeparture) -> (d: Departure)
        requires
            raw.wf(),
        ensures
            normalized_from(d, *raw),
    {
        let actual_time = LocalTime::from_epoch_ms(raw.real_departure_time_ms);
        let planned_time = LocalTime::from_epoch_ms(raw.planned_departure_time_ms);
        let delay_minutes = if raw.is_real_time {
            Some(raw.delay_minutes)
        } else {
            None
        };
        Departure {
            actual_time,
            planned_time,
            delay_minutes,
            destination: raw.destination.clone(),
            cancelled: raw.cancelled,
            vehicle_label: raw.vehicle_label.clone(),
        }
    }

    /// The instant shown for this departure and by which the board is ordered.
    pub fn displayed_time(&self) -> (t: LocalTime)
        ensures
            t == displayed_time_of(*self),
            self.cancelled ==> t == self.planned_time,
            !self.cancelled ==> t == self.actual_time,
    {
        if self.cancelled {
            self.planned_time
        } else {
            self.actual_time
        }
    }

    /// The displayed instant in milliseconds since the epoch.
    pub fn displayed_epoch_ms(&self) -> (ms: i64)
        ensures
            ms == displayed_ms(*self),
    {
        self.displayed_time().epoch_ms
    }

    /// Cancelled departures are struck through as a whole.
    pub fn render_variant(&self) -> (v: RenderVariant)
        ensures
            v == (if self.cancelled { RenderVariant::Struck } else { RenderVariant::Plain }),
    {
        if self.cancelled {
            RenderVariant::Struck
        } else {
            RenderVariant::Plain
        }
    }

    /// A present delay is always shown; without one, a running departure's time
    /// is marked as unconfirmed.
    pub fn time_style(&self) -> (s: TimeStyle)
        ensures
            s == (match self.delay_minutes {
                Some(m) => TimeStyle::WithDelay(m),
                None => if self.cancelled { TimeStyle::Bare } else { TimeStyle::Unconfirmed },
            }),
    {
        match self.delay_minutes {
            Some(m) => TimeStyle::WithDelay(m),
            None => if self.cancelled {
                TimeStyle::Bare
            } else {
                TimeStyle::Unconfirmed
            },
        }
    }
}

/// A record without realtime data yields no delay, whatever delay it carries.
pub proof fn lemma_no_realtime_no_delay(raw: RawDeparture, d: Departure)
    requires
        normalized_from(d, raw),
        !raw.is_real_time,
    ensures
        d.delay_minutes.is_none(),
{
}

/// A record with realtime data yields its delay, a delay of zero included.
pub proof fn lemma_realtime_delay_kept(raw: RawDeparture, d: Departure)
    requires
        normalized_from(d, raw),
        raw.is_real_time,
    ensures
        d.delay_minutes == Some(raw.delay_minutes),
{
}

/// The displayed instant of a converted record is its planned timestamp when it
/// is cancelled and its realtime timestamp otherwise.
pub proof fn lemma_displayed_time_selection(raw: RawDeparture, d: Departure)
    requires
        normalized_from(d, raw),
    ensures
        raw.cancelled ==> displayed_ms(d) == raw.planned_departure_time_ms,
        !raw.cancelled ==> displayed_ms(d) == raw.real_departure_time_ms,
{
}

} // verus!

//! Alarm events.
use vstd::prelude::*;
use crate::models::validation::{
    checked, id_format_check, not_future_check, then_check, validate_id_format,
    validate_timestamp_not_after, Checked, Validate, ValidationError,
};
use crate::text::decimal;
use crate::time::{clock_text, seconds_between, Timestamp};

verus! {

/// An alarm that has been raised or cleared. The condition and message of
/// the alarm are in its configuration, under the same id.
#[derive(Debug)]
pub struct AlarmEvent {
    /// Identifier of the alarm (e.g. `high_temp_alarm_1`).
    pub alarm_id: String,
    /// Whether the alarm is currently raised.
    pub triggered: bool,
    /// When this state began.
    pub timestamp: Timestamp,
    /// Whether a user has acknowledged the alarm.
    pub acknowledged: bool,
    /// How many times the alarm has been raised in this session.
    pub trigger_count: u32,
}

/// How urgent an alarm is.
#[derive(Debug, Clone, Copy, PartialEq, Eq, Structural, PartialOrd, Ord)]
pub enum AlarmSeverity {
    Info,
    Warning,
    High,
    Critical,
}

/// The severity that `trigger_count` raisings give.
pub open spec fn severity_of(trigger_count: u32) -> AlarmSeverity {
    if trigger_count == 0 {
        AlarmSeverity::Info
    } else if trigger_count <= 2 {
        AlarmSeverity::Warning
    } else if trigger_count <= 5 {
        AlarmSeverity::High
    } else {
        AlarmSeverity::Critical
    }
}

/// The rank of a severity, from `Info` (0) to `Critical` (3).
pub open spec fn severity_rank(s: AlarmSeverity) -> int {
    match s {
        AlarmSeverity::Info => 0,
        AlarmSeverity::Warning => 1,
        AlarmSeverity::High => 2,
        AlarmSeverity::Critical => 3,
    }
}

/// The outcome of validating an alarm with id `alarm_id` and instant `ts`
/// when the clock reads `now`.
pub open spec fn alarm_check(alarm_id: Seq<char>, ts: int, now: int) -> Checked {
    then_check(id_format_check("alarm_id"@, alarm_id), not_future_check("timestamp"@, ts, now))
}

/// The state label of an alarm.
pub open spec fn status_text(triggered: bool, acknowledged: bool) -> Seq<char> {
    if triggered {
        if acknowledged {
            "TRIGGERED (ACK)"@
        } else {
            "TRIGGERED"@
        }
    } else {
        "CLEARED"@
    }
}

impl AlarmSeverity {
    /// The severity's label.
    pub fn as_str(&self) -> (s: &'static str)
        ensures
            s@ == match self {
                AlarmSeverity::Info => "INFO"@,
                AlarmSeverity::Warning => "WARNING"@,
                AlarmSeverity::High => "HIGH"@,
                AlarmSeverity::Critical => "CRITICAL"@,
            },
    {
        match self {
            AlarmSeverity::Info => "INFO",
            AlarmSeverity::Warning => "WARNING",
            AlarmSeverity::High => "HIGH",
            AlarmSeverity::Critical => "CRITICAL",
        }
    }

    /// The rank, from `Info` (0) to `Critical` (3).
    pub fn rank(&self) -> (r: u8)
        ensures
            r as int == severity_rank(*self),
    {
        match self {
            AlarmSeverity::Info => 0,
            AlarmSeverity::Warning => 1,
            AlarmSeverity::High => 2,
            AlarmSeverity::Critical => 3,
        }
    }
}

impl AlarmEvent {
    /// A copy of the event.
    pub fn duplicate(&self) -> (e: AlarmEvent)
        ensures
            e.alarm_id == self.alarm_id,
            e.triggered == self.triggered,
            e.timestamp@ == self.timestamp@,
            e.acknowledged == self.acknowledged,
            e.trigger_count == self.trigger_count,
    {
        AlarmEvent {
            alarm_id: self.alarm_id.clone(),
            triggered: self.triggered,
            timestamp: self.timestamp.copy(),
            acknowledged: self.acknowledged,
            trigger_count: self.trigger_count,
        }
    }

    /// Checks the event against the clock reading `now`: the id must be an
    /// identifier and the instant not after `now`.
    pub fn validate_at(&self, now: &Timestamp) -> (r: Result<(), ValidationError>)
        ensures
            checked(r) == alarm_check(self.alarm_id@, self.timestamp@, now@),
    {
        validate_id_format("alarm_id", self.alarm_id.as_str())?;
        validate_timestamp_not_after("timestamp", &self.timestamp, now)?;
        Ok(())
    }

    /// A new event at `timestamp`, not acknowledged, raised once if
    /// `triggered`; it must pass validation by the clock now.
    pub fn with_timestamp(alarm_id: String, triggered: bool, timestamp: Timestamp) -> (r: Result<
        AlarmEvent,
        ValidationError,
    >)
        ensures
            exists|now: int|
                match r {
                    Ok(_) => alarm_check(alarm_id@, timestamp@, now) is Ok,
                    Err(e) => alarm_check(alarm_id@, timestamp@, now) == Err::<(), _>(e@),
                },
            r matches Ok(e) ==> {
                &&& e.alarm_id == alarm_id
                &&& e.triggered == triggered
                &&& e.timestamp@ == timestamp@
                &&& !e.acknowledged
                &&& e.trigger_count == (if triggered { 1u32 } else { 0u32 })
            },
    {
        let event = AlarmEvent {
            alarm_id,
            triggered,
            timestamp,
            acknowledged: false,
            trigger_count: if triggered { 1 } else { 0 },
        };
        let now = Timestamp::now();
        match event.validate_at(&now) {
            Ok(()) => Ok(event),
            Err(e) => Err(e),
        }
    }

    /// A new event at the present instant, not acknowledged, raised once if
    /// `triggered`; its id must be an identifier.
    pub fn new(alarm_id: String, triggered: bool) -> (r: Result<AlarmEvent, ValidationError>)
        ensures
            exists|ts: int, now: int|
                #![trigger alarm_check(alarm_id@, ts, now)]
                match r {
                    Ok(e) => e.timestamp@ == ts && alarm_check(alarm_id@, ts, now) is Ok,
                    Err(e) => alarm_check(alarm_id@, ts, now) == Err::<(), _>(e@),
                },
            id_format_check("alarm_id"@, alarm_id@) matches Err(e) ==> r matches Err(f) && f@ == e,
            r matches Ok(e) ==> {
                &&& e.alarm_id == alarm_id
                &&& e.triggered == triggered
                &&& !e.acknowledged
                &&& e.trigger_count == (if triggered { 1u32 } else { 0u32 })
            },
    {
        let ts = Timestamp::now();
        AlarmEvent::with_timestamp(alarm_id, triggered, ts)
    }

    /// A new raised event.
    pub fn triggered(alarm_id: String) -> (r: Result<AlarmEvent, ValidationError>)
        ensures
            exists|ts: int, now: int|
                #![trigger alarm_check(alarm_id@, ts, now)]
                match r {
                    Ok(e) => e.timestamp@ == ts && alarm_check(alarm_id@, ts, now) is Ok,
                    Err(e) => alarm_check(alarm_id@, ts, now) == Err::<(), _>(e@),
                },
            id_format_check("alarm_id"@, alarm_id@) matches Err(e) ==> r matches Err(f) && f@ == e,
            r matches Ok(e) ==> {
                &&& e.alarm_id == alarm_id
                &&& e.triggered
                &&& !e.acknowledged
                &&& e.trigger_count == 1
            },
    {
        AlarmEvent::new(alarm_id, true)
    }

    /// A new cleared event.
    pub fn cleared(alarm_id: String) -> (r: Result<AlarmEvent, ValidationError>)
        ensures
            exists|ts: int, now: int|
                #![trigger alarm_check(alarm_id@, ts, now)]
                match r {
                    Ok(e) => e.timestamp@ == ts && alarm_check(alarm_id@, ts, now) is Ok,
                    Err(e) => alarm_check(alarm_id@, ts, now) == Err::<(), _>(e@),
                },
            id_format_check("alarm_id"@, alarm_id@) matches Err(e) ==> r matches Err(f) && f@ == e,
            r matches Ok(e) ==> {
                &&& e.alarm_id == alarm_id
                &&& !e.triggered
                &&& !e.acknowledged
                &&& e.trigger_count == 0
            },
    {
        AlarmEvent::new(alarm_id, false)
    }

    /// Acknowledges the alarm.
    pub fn acknowledge(&mut self)
        ensures
            final(self).acknowledged,
            final(self).alarm_id == old(self).alarm_id,
            final(self).triggered == old(self).triggered,
            final(self).timestamp == old(self).timestamp,
            final(self).trigger_count == old(self).trigger_count,
    {
        self.acknowledged = true;
    }

    /// A copy with the acknowledgement set to `acknowledged`.
    pub fn with_acknowledged(&self, acknowledged: bool) -> (e: AlarmEvent)
        ensures
            e.acknowledged == acknowledged,
            e.alarm_id == self.alarm_id,
            e.triggered == self.triggered,
            e.timestamp@ == self.timestamp@,
            e.trigger_count == self.trigger_count,
    {
        let mut event = self.duplicate();
        event.acknowledged = acknowledged;
        event
    }

    /// Raises the alarm again: it counts one more raising, takes the present
    /// instant, and its acknowledgement is withdrawn.
    pub fn trigger(&mut self)
        requires
            old(self).trigger_count < u32::MAX,
        ensures
            final(self).triggered,
            final(self).trigger_count == old(self).trigger_count + 1,
            !final(self).acknowledged,
            final(self).alarm_id == old(self).alarm_id,
    {
        self.triggered = true;
        self.trigger_count = self.trigger_count + 1;
        self.timestamp = Timestamp::now();
        self.acknowledged = false;
    }

    /// Clears the alarm at the present instant; the count of raisings and the
    /// acknowledgement stay.
    pub fn clear(&mut self)
        ensures
            !final(self).triggered,
            final(self).trigger_count == old(self).trigger_count,
            final(self).acknowledged == old(self).acknowledged,
            final(self).alarm_id == old(self).alarm_id,
    {
        self.triggered = false;
        self.timestamp = Timestamp::now();
    }

    /// Whether the alarm is raised and not acknowledged.
    pub fn needs_attention(&self) -> (r: bool)
        ensures
            r == (self.triggered && !self.acknowledged),
    {
        self.triggered && !self.acknowledged
    }

    /// Whole seconds from the event's instant to the present (rounded toward
    /// zero).
    pub fn age_seconds(&self) -> (s: i64)
        ensures
            exists|now: int| s == #[trigger] seconds_between(now, self.timestamp@),
    {
        let now = Timestamp::now();
        let s = now.whole_seconds_since(&self.timestamp);
        assert(s == seconds_between(now@, self.timestamp@));
        s
    }

    /// The severity that the count of raisings gives.
    pub fn severity_level(&self) -> (s: AlarmSeverity)
        ensures
            s == severity_of(self.trigger_count),
    {
        if self.trigger_count == 0 {
            AlarmSeverity::Info
        } else if self.trigger_count <= 2 {
            AlarmSeverity::Warning
        } else if self.trigger_count <= 5 {
            AlarmSeverity::High
        } else {
            AlarmSeverity::Critical
        }
    }

    /// A copy that counts one more raising, at the present instant.
    pub fn with_incremented_trigger_count(&self) -> (e: AlarmEvent)
        requires
            self.trigger_count < u32::MAX,
        ensures
            e.trigger_count == self.trigger_count + 1,
            e.alarm_id == self.alarm_id,
            e.triggered == self.triggered,
            e.acknowledged == self.acknowledged,
    {
        let mut event = self.duplicate();
        event.trigger_count = event.trigger_count + 1;
        event.timestamp = Timestamp::now();
        event
    }

    /// The event as text: `Alarm <id> [<state>] at HH:MM:SS (count: <n>)`.
    pub fn to_display_string(&self) -> (s: String)
        ensures
            s@ == "Alarm "@ + self.alarm_id@ + " ["@ + status_text(self.triggered, self.acknowledged)
                + "] at "@ + clock_text(self.timestamp@) + " (count: "@ + decimal(
                self.trigger_count as nat,
            ) + ")"@,
    {
        let status = if self.triggered {
            if self.acknowledged {
                "TRIGGERED (ACK)"
            } else {
                "TRIGGERED"
            }
        } else {
            "CLEARED"
        };
        let mut s = String::from_str("Alarm ");
        s.append(self.alarm_id.as_str());
        s.append(" [");
        s.append(status);
        s.append("] at ");
        let clock = self.timestamp.clock_time();
        s.append(clock.as_str());
        let count = crate::text::with_decimal(" (count: ", self.trigger_count as u64, ")");
        s.append(count.as_str());
        s
    }
}

impl Validate for AlarmEvent {
    /// Checks the id and that the instant is not in the future by the clock
    /// now.
    fn validate(&self) -> (r: Result<(), ValidationError>)
        ensures
            exists|now: int| checked(r) == alarm_check(self.alarm_id@, self.timestamp@, now),
    {
        let now = Timestamp::now();
        self.validate_at(&now)
    }
}

/// The severity never falls as raisings are counted: no raising is `Info`,
/// and six or more are `Critical`.
pub proof fn law_severity_monotone(count: u32, more: u32)
    requires
        count <= more,
    ensures
        severity_rank(severity_of(count)) <= severity_rank(severity_of(more)),
        severity_of(0) == AlarmSeverity::Info,
        count >= 6 ==> severity_of(count) == AlarmSeverity::Critical,
{
}

} // verus!

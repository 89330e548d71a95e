//! Renewal of a VPS subscription: the next renewal date from a billing
//! cycle, how saved renewal settings affect a pending reminder, when a
//! reminder becomes due, and automatic renewal.

use vstd::prelude::*;
use crate::text::str_eq;
use crate::time::{
    valid_timestamp, chrono_add_months, chrono_add_days, add_months, add_days, SECONDS_PER_DAY, UtcTime,
    valid_time, time_le, not_later, same_time,
};

verus! {

/// The number of months in a named billing cycle.
pub open spec fn spec_cycle_months(cycle: Seq<char>) -> Option<u32> {
    if cycle == "monthly"@ {
        Some(1u32)
    } else if cycle == "quarterly"@ {
        Some(3u32)
    } else if cycle == "semi_annually"@ {
        Some(6u32)
    } else if cycle == "annually"@ {
        Some(12u32)
    } else if cycle == "biennially"@ {
        Some(24u32)
    } else if cycle == "triennially"@ {
        Some(36u32)
    } else {
        None
    }
}

/// The next renewal after `reference` for a billing cycle: whole months for
/// the named cycles, the configured number of days for `custom_days`, and
/// nothing for an unknown cycle.
pub open spec fn spec_next_renewal_date(reference: UtcTime, cycle: Seq<char>, custom_days: Option<i32>) -> Option<UtcTime> {
    match spec_cycle_months(cycle) {
        Some(m) => whole_second(chrono_add_months(reference.secs, m)),
        None => if cycle == "custom_days"@ {
            match custom_days {
                Some(d) => whole_second(chrono_add_days(reference.secs, d)),
                None => None,
            }
        } else {
            None
        },
    }
}

/// A timestamp as a point in time at a whole second.
pub open spec fn whole_second(t: Option<i64>) -> Option<UtcTime> {
    match t {
        Some(s) => Some(UtcTime { secs: s, nanos: 0 }),
        None => None,
    }
}

/// The number of months in a named billing cycle.
pub fn cycle_months(cycle: &str) -> (r: Option<u32>)
    ensures
        r == spec_cycle_months(cycle@),
{
    if str_eq(cycle, "monthly") {
        Some(1)
    } else if str_eq(cycle, "quarterly") {
        Some(3)
    } else if str_eq(cycle, "semi_annually") {
        Some(6)
    } else if str_eq(cycle, "annually") {
        Some(12)
    } else if str_eq(cycle, "biennially") {
        Some(24)
    } else if str_eq(cycle, "triennially") {
        Some(36)
    } else {
        None
    }
}

/// The next renewal date after `reference` for a billing cycle, at the
/// reference's time of day in whole seconds.
pub fn calculate_next_renewal_date(reference: UtcTime, renewal_cycle: &str, custom_days: Option<i32>) -> (r: Option<UtcTime>)
    requires
        valid_timestamp(reference.secs as int),
    ensures
        r == spec_next_renewal_date(reference, renewal_cycle@, custom_days),
{
    let next = match cycle_months(renewal_cycle) {
        Some(m) => add_months(reference.secs, m),
        None => {
            if str_eq(renewal_cycle, "custom_days") {
                match custom_days {
                    Some(d) => add_days(reference.secs, d),
                    None => None,
                }
            } else {
                None
            }
        },
    };
    match next {
        Some(t) => Some(UtcTime { secs: t, nanos: 0 }),
        None => None,
    }
}

/// The scheduling part of renewal settings sent by a user.
#[derive(Debug)]
pub struct RenewalScheduleInput {
    pub renewal_cycle: Option<String>,
    pub renewal_cycle_custom_days: Option<i32>,
    pub next_renewal_date: Option<UtcTime>,
    pub last_renewal_date: Option<UtcTime>,
    pub service_start_date: Option<UtcTime>,
}

/// The reminder state already stored for a VPS.
#[derive(Clone, Copy, Debug)]
pub struct StoredReminder {
    pub next_renewal_date: Option<UtcTime>,
    pub reminder_active: Option<bool>,
    pub last_reminder_generated_at: Option<UtcTime>,
}

/// What saving renewal settings stores for the schedule and the reminder.
#[derive(Clone, Copy, Debug)]
pub struct RenewalPlan {
    pub next_renewal_date: Option<UtcTime>,
    pub reminder_active: bool,
    pub last_reminder_generated_at: Option<UtcTime>,
}

/// The next renewal date that saving settings stores: the one given, or else
/// the one computed from the cycle and the last renewal date (or the service
/// start date when there is none).
pub open spec fn spec_planned_next_date(input: RenewalScheduleInput) -> Option<UtcTime> {
    if input.next_renewal_date is Some {
        input.next_renewal_date
    } else {
        match input.renewal_cycle {
            Some(c) => {
                let reference = if input.last_renewal_date is Some {
                    input.last_renewal_date
                } else {
                    input.service_start_date
                };
                match reference {
                    Some(t) => spec_next_renewal_date(t, c@, input.renewal_cycle_custom_days),
                    None => None,
                }
            },
            None => None,
        }
    }
}

/// The date a computed renewal counts from: the last renewal date, or the
/// service start date when there is none.
pub open spec fn reference_date(last_renewal: Option<UtcTime>, service_start: Option<UtcTime>) -> Option<UtcTime> {
    match last_renewal {
        Some(t) => Some(t),
        None => service_start,
    }
}

/// A custom cycle of `n` days renews exactly `n` days after the reference,
/// at the reference's whole second, whenever that date exists.
pub proof fn lemma_custom_days_cycle(reference: UtcTime, n: i32)
    requires
        valid_timestamp(reference.secs + n * 86400),
    ensures
        spec_next_renewal_date(reference, "custom_days"@, Some(n)) == Some(
            UtcTime { secs: (reference.secs + n * 86400) as i64, nanos: 0 },
        ),
{
    lemma_custom_days_is_not_named();
}

/// `custom_days` is not one of the named cycles.
proof fn lemma_custom_days_is_not_named()
    ensures
        spec_cycle_months("custom_days"@) is None,
{
    reveal_strlit("custom_days");
    reveal_strlit("monthly");
    reveal_strlit("quarterly");
    reveal_strlit("semi_annually");
    reveal_strlit("annually");
    reveal_strlit("biennially");
    reveal_strlit("triennially");
    assert("custom_days"@ != "monthly"@) by { assert("custom_days"@.len() != "monthly"@.len()); }
    assert("custom_days"@ != "quarterly"@) by { assert("custom_days"@.len() != "quarterly"@.len()); }
    assert("custom_days"@ != "semi_annually"@) by { assert("custom_days"@.len() != "semi_annually"@.len()); }
    assert("custom_days"@ != "annually"@) by { assert("custom_days"@.len() != "annually"@.len()); }
    assert("custom_days"@ != "biennially"@) by { assert("custom_days"@.len() != "biennially"@.len()); }
    assert("custom_days"@ != "triennially"@) by { assert("custom_days"@[0] != "triennially"@[0]); }
}

/// Saving settings without a next renewal date but with a cycle stores the
/// date that the cycle gives after the last renewal (or the service start),
/// using the custom day count sent with the same settings.
pub proof fn lemma_planned_date_follows_cycle(input: RenewalScheduleInput, c: String, t: UtcTime)
    requires
        input.next_renewal_date is None,
        input.renewal_cycle == Some(c),
        reference_date(input.last_renewal_date, input.service_start_date) == Some(t),
    ensures
        spec_planned_next_date(input) == spec_next_renewal_date(t, c@, input.renewal_cycle_custom_days),
{
}

/// Saving settings with a custom cycle of `n` days and no next renewal date
/// stores the date `n` days after the last renewal (or the service start).
pub proof fn lemma_planned_custom_days(input: RenewalScheduleInput, c: String, t: UtcTime, n: i32)
    requires
        input.next_renewal_date is None,
        input.renewal_cycle == Some(c),
        c@ == "custom_days"@,
        input.renewal_cycle_custom_days == Some(n),
        reference_date(input.last_renewal_date, input.service_start_date) == Some(t),
        valid_timestamp(t.secs + n * 86400),
    ensures
        spec_planned_next_date(input) == Some(UtcTime { secs: (t.secs + n * 86400) as i64, nanos: 0 }),
{
    lemma_custom_days_cycle(t, n);
}

/// Whether the dates of the input that may be used as a reference are
/// date-times `chrono` can hold, as stored dates are.
pub open spec fn input_dates_valid(input: RenewalScheduleInput) -> bool {
    &&& input.last_renewal_date matches Some(t) ==> valid_timestamp(t.secs as int)
    &&& input.service_start_date matches Some(t) ==> valid_timestamp(t.secs as int)
}

/// Plans what saving renewal settings stores: the next renewal date, and a
/// reminder state that is cleared whenever the next renewal date changes (or
/// is newly set) and kept otherwise.
pub fn plan_renewal_info(input: &RenewalScheduleInput, existing: Option<StoredReminder>) -> (r: RenewalPlan)
    requires
        input_dates_valid(*input),
    ensures
        r.next_renewal_date == spec_planned_next_date(*input),
        input.next_renewal_date is Some ==> r.next_renewal_date == input.next_renewal_date,
        match (input.next_renewal_date, &input.renewal_cycle, reference_date(input.last_renewal_date, input.service_start_date)) {
            (None, Some(c), Some(t)) => r.next_renewal_date == spec_next_renewal_date(t, c@, input.renewal_cycle_custom_days),
            _ => true,
        },
        match existing {
            Some(e) => if e.next_renewal_date != r.next_renewal_date {
                !r.reminder_active && r.last_reminder_generated_at is None
            } else {
                r.reminder_active == (e.reminder_active == Some(true))
                    && r.last_reminder_generated_at == e.last_reminder_generated_at
            },
            None => !r.reminder_active && r.last_reminder_generated_at is None,
        },
{
    let mut next = input.next_renewal_date;
    if next.is_none() {
        match &input.renewal_cycle {
            Some(c) => {
                let reference = if input.last_renewal_date.is_some() {
                    input.last_renewal_date
                } else {
                    input.service_start_date
                };
                match reference {
                    Some(t) => {
                        next = calculate_next_renewal_date(t, c.as_str(), input.renewal_cycle_custom_days);
                    },
                    None => {},
                }
            },
            None => {},
        }
    }
    let mut active = match existing {
        Some(e) => match e.reminder_active { Some(a) => a, None => false },
        None => false,
    };
    let mut last_reminder = match existing {
        Some(e) => e.last_reminder_generated_at,
        None => None,
    };
    match existing {
        Some(e) => {
            if !same_time(e.next_renewal_date, next) {
                active = false;
                last_reminder = None;
            }
        },
        None => {
            if next.is_some() {
                active = false;
                last_reminder = None;
            }
        },
    }
    RenewalPlan { next_renewal_date: next, reminder_active: active, last_reminder_generated_at: last_reminder }
}

/// The renewal columns of a VPS that reminders and automatic renewal read.
#[derive(Debug)]
pub struct RenewalState {
    pub renewal_cycle: Option<String>,
    pub renewal_cycle_custom_days: Option<i32>,
    pub next_renewal_date: Option<UtcTime>,
    pub last_renewal_date: Option<UtcTime>,
    pub auto_renew_enabled: Option<bool>,
    pub reminder_active: Option<bool>,
    pub last_reminder_generated_at: Option<UtcTime>,
}

/// The point in time `days` days after `now`.
pub open spec fn days_later(now: UtcTime, days: i64) -> UtcTime {
    UtcTime { secs: (now.secs + days * SECONDS_PER_DAY) as i64, nanos: now.nanos }
}

/// Whether a reminder is to be raised at `now`: the next renewal lies between
/// now and `threshold_days` days from now, and no reminder is active.
pub open spec fn spec_reminder_due(s: RenewalState, now: UtcTime, threshold_days: i64) -> bool {
    match s.next_renewal_date {
        Some(t) => time_le(now, t) && time_le(t, days_later(now, threshold_days)) && s.reminder_active != Some(true),
        None => false,
    }
}

/// Whether a reminder is to be raised at `now`.
pub fn reminder_due(s: &RenewalState, now: UtcTime, threshold_days: i64) -> (r: bool)
    requires
        valid_timestamp(now.secs as int),
        valid_timestamp(now.secs + threshold_days * SECONDS_PER_DAY),
    ensures
        r == spec_reminder_due(*s, now, threshold_days),
{
    let threshold = UtcTime { secs: now.secs + threshold_days * SECONDS_PER_DAY, nanos: now.nanos };
    match s.next_renewal_date {
        Some(t) => {
            let inactive = match s.reminder_active { Some(a) => !a, None => true };
            not_later(now, t) && not_later(t, threshold) && inactive
        },
        None => false,
    }
}

/// Raises a reminder: it becomes active, generated at `now`.
pub fn activate_reminder(s: RenewalState, now: UtcTime) -> (r: RenewalState)
    ensures
        r.reminder_active == Some(true),
        r.last_reminder_generated_at == Some(now),
        r.next_renewal_date == s.next_renewal_date,
        r.last_renewal_date == s.last_renewal_date,
        r.renewal_cycle == s.renewal_cycle,
        r.renewal_cycle_custom_days == s.renewal_cycle_custom_days,
        r.auto_renew_enabled == s.auto_renew_enabled,
{
    RenewalState { reminder_active: Some(true), last_reminder_generated_at: Some(now), ..s }
}

/// A raised reminder is not raised again.
pub proof fn lemma_active_reminder_not_due(s: RenewalState, now: UtcTime, threshold_days: i64)
    requires
        s.reminder_active == Some(true),
    ensures
        !spec_reminder_due(s, now, threshold_days),
{
}

/// Dismisses a reminder; `None` when no reminder is active, so nothing changes.
pub fn dismiss_reminder(s: RenewalState) -> (r: Option<RenewalState>)
    ensures
        match r {
            Some(n) => s.reminder_active == Some(true) && n == (RenewalState { reminder_active: Some(false), ..s }),
            None => s.reminder_active != Some(true),
        },
{
    match s.reminder_active {
        Some(true) => Some(RenewalState { reminder_active: Some(false), ..s }),
        _ => None,
    }
}

/// The renewal that automatic renewal performs at `now`, as the new last
/// and next renewal dates: when auto-renewal is on, the renewal date has
/// come, a cycle is set and a next date can be computed from the renewal
/// date.
pub open spec fn spec_auto_renewal(s: RenewalState, now: UtcTime) -> Option<(UtcTime, UtcTime)> {
    if s.auto_renew_enabled == Some(true) {
        match (s.next_renewal_date, s.renewal_cycle) {
            (Some(t), Some(c)) => if time_le(t, now) {
                match spec_next_renewal_date(t, c@, s.renewal_cycle_custom_days) {
                    Some(n) => Some((t, n)),
                    None => None,
                }
            } else {
                None
            },
            _ => None,
        }
    } else {
        None
    }
}

/// A VPS with auto-renewal on whose renewal date `t` has come is renewed
/// whenever its cycle gives a next date `n` after `t` (with its own custom
/// day count): `t` becomes the last renewal date and `n` the next one.
pub proof fn lemma_due_vps_is_renewed(s: RenewalState, now: UtcTime, c: String, t: UtcTime, n: UtcTime)
    requires
        s.auto_renew_enabled == Some(true),
        s.next_renewal_date == Some(t),
        time_le(t, now),
        s.renewal_cycle == Some(c),
        spec_next_renewal_date(t, c@, s.renewal_cycle_custom_days) == Some(n),
    ensures
        spec_auto_renewal(s, now) == Some((t, n)),
{
}

/// A due VPS on a custom cycle of `d` days is renewed to the date `d` days
/// after its renewal date.
pub proof fn lemma_due_custom_days_vps_is_renewed(s: RenewalState, now: UtcTime, c: String, t: UtcTime, d: i32)
    requires
        s.auto_renew_enabled == Some(true),
        s.next_renewal_date == Some(t),
        time_le(t, now),
        s.renewal_cycle == Some(c),
        c@ == "custom_days"@,
        s.renewal_cycle_custom_days == Some(d),
        valid_timestamp(t.secs + d * 86400),
    ensures
        spec_auto_renewal(s, now) == Some((t, UtcTime { secs: (t.secs + d * 86400) as i64, nanos: 0 })),
{
    lemma_custom_days_cycle(t, d);
}

/// Renews a VPS automatically when auto-renewal is on and its renewal date
/// has come: the renewal date becomes the last renewal date, the next one is
/// computed from it, and the reminder is cleared. `None` when the VPS is not
/// due, has no cycle, or no next date can be computed.
pub fn auto_renew(s: RenewalState, now: UtcTime) -> (r: Option<RenewalState>)
    requires
        s.next_renewal_date matches Some(t) ==> valid_timestamp(t.secs as int),
    ensures
        match (s.next_renewal_date, &s.renewal_cycle) {
            (Some(t), Some(c)) => match spec_next_renewal_date(t, c@, s.renewal_cycle_custom_days) {
                Some(n) => s.auto_renew_enabled == Some(true) && time_le(t, now) ==> (r matches Some(x)
                    && x.last_renewal_date == Some(t) && x.next_renewal_date == Some(n)),
                None => r is None,
            },
            _ => r is None,
        },
        r matches Some(x) ==> (s.auto_renew_enabled == Some(true) && s.next_renewal_date is Some
            && time_le(s.next_renewal_date.unwrap(), now) && x.last_renewal_date == s.next_renewal_date),
        match spec_auto_renewal(s, now) {
            None => r is None,
            Some((last, next)) => r matches Some(n) && n.last_renewal_date == Some(last)
                && n.next_renewal_date == Some(next) && n.reminder_active == Some(false)
                && n.last_reminder_generated_at is None && n.auto_renew_enabled == s.auto_renew_enabled
                && n.renewal_cycle == s.renewal_cycle
                && n.renewal_cycle_custom_days == s.renewal_cycle_custom_days,
        },
{
    if s.auto_renew_enabled != Some(true) {
        return None;
    }
    let t = match s.next_renewal_date {
        Some(t) => t,
        None => return None,
    };
    if !not_later(t, now) {
        return None;
    }
    let next = match &s.renewal_cycle {
        Some(c) => calculate_next_renewal_date(t, c.as_str(), s.renewal_cycle_custom_days),
        None => return None,
    };
    if next.is_none() {
        return None;
    }
    Some(RenewalState {
        last_renewal_date: Some(t),
        next_renewal_date: next,
        reminder_active: Some(false),
        last_reminder_generated_at: None,
        ..s
    })
}

} // verus!

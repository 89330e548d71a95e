//! Traffic accounting of a VPS: the per-cycle byte counters fed from the
//! agent's cumulative counters, and the periodic reset of the cycle with the
//! schedule of the next reset.

use vstd::prelude::*;
use crate::text::{
    chars_of, chars_eq, split_chars, split_pieces, string_from_chars, parse_u32, parse_i64,
    spec_parse_u32, spec_parse_i64,
};
use crate::time::{
    valid_timestamp, chrono_year_month, chrono_days_from_ce, chrono_midnight, year_month_of,
    days_from_ce, midnight_of, SECONDS_PER_DAY, MIN_TIMESTAMP, MAX_TIMESTAMP, UtcTime, time_le,
    not_later,
};

verus! {

/// How much a cumulative counter grew since it was last read; a counter that
/// went backwards was reset on the agent, and then all of its value is new.
pub open spec fn spec_traffic_delta(new_cumulative: int, last_cumulative: int) -> int {
    if new_cumulative >= last_cumulative {
        new_cumulative - last_cumulative
    } else {
        new_cumulative
    }
}

/// The traffic columns of a VPS; absent values count as zero.
#[derive(Clone, Copy, Debug)]
pub struct TrafficCounters {
    pub current_cycle_rx_bytes: Option<i64>,
    pub current_cycle_tx_bytes: Option<i64>,
    pub last_processed_cumulative_rx: Option<i64>,
    pub last_processed_cumulative_tx: Option<i64>,
}

pub open spec fn or_zero(v: Option<i64>) -> int {
    match v {
        Some(x) => x as int,
        None => 0,
    }
}

/// Whether a new sample can be applied without leaving the `i64` range.
pub open spec fn sample_fits(c: TrafficCounters, new_rx: i64, new_tx: i64) -> bool {
    let drx = spec_traffic_delta(new_rx as int, or_zero(c.last_processed_cumulative_rx));
    let dtx = spec_traffic_delta(new_tx as int, or_zero(c.last_processed_cumulative_tx));
    &&& i64::MIN <= drx <= i64::MAX
    &&& i64::MIN <= dtx <= i64::MAX
    &&& i64::MIN <= or_zero(c.current_cycle_rx_bytes) + drx <= i64::MAX
    &&& i64::MIN <= or_zero(c.current_cycle_tx_bytes) + dtx <= i64::MAX
}

/// How much a cumulative counter grew since it was last read.
pub fn traffic_delta(new_cumulative: i64, last_cumulative: i64) -> (r: i64)
    requires
        i64::MIN <= spec_traffic_delta(new_cumulative as int, last_cumulative as int) <= i64::MAX,
    ensures
        r == spec_traffic_delta(new_cumulative as int, last_cumulative as int),
{
    if new_cumulative >= last_cumulative {
        new_cumulative - last_cumulative
    } else {
        new_cumulative
    }
}

/// The counters after a new reading of the cumulative counters: each cycle
/// counter grows by its counter's delta, and the readings become the last
/// processed ones.
pub open spec fn spec_apply_sample(c: TrafficCounters, new_rx: i64, new_tx: i64) -> TrafficCounters {
    TrafficCounters {
        current_cycle_rx_bytes: Some(
            (or_zero(c.current_cycle_rx_bytes) + spec_traffic_delta(
                new_rx as int,
                or_zero(c.last_processed_cumulative_rx),
            )) as i64,
        ),
        current_cycle_tx_bytes: Some(
            (or_zero(c.current_cycle_tx_bytes) + spec_traffic_delta(
                new_tx as int,
                or_zero(c.last_processed_cumulative_tx),
            )) as i64,
        ),
        last_processed_cumulative_rx: Some(new_rx),
        last_processed_cumulative_tx: Some(new_tx),
    }
}

/// Applies a new reading of the cumulative counters.
pub fn apply_traffic_sample(c: TrafficCounters, new_rx: i64, new_tx: i64) -> (r: TrafficCounters)
    requires
        sample_fits(c, new_rx, new_tx),
    ensures
        r == spec_apply_sample(c, new_rx, new_tx),
{
    let last_rx = match c.last_processed_cumulative_rx { Some(v) => v, None => 0 };
    let last_tx = match c.last_processed_cumulative_tx { Some(v) => v, None => 0 };
    let cycle_rx = match c.current_cycle_rx_bytes { Some(v) => v, None => 0 };
    let cycle_tx = match c.current_cycle_tx_bytes { Some(v) => v, None => 0 };
    let delta_rx = traffic_delta(new_rx, last_rx);
    let delta_tx = traffic_delta(new_tx, last_tx);
    TrafficCounters {
        current_cycle_rx_bytes: Some(cycle_rx + delta_rx),
        current_cycle_tx_bytes: Some(cycle_tx + delta_tx),
        last_processed_cumulative_rx: Some(new_rx),
        last_processed_cumulative_tx: Some(new_tx),
    }
}

/// Reading the same cumulative values twice counts their traffic once: the
/// second application can be made and changes nothing.
pub proof fn lemma_repeated_sample_adds_nothing(c: TrafficCounters, new_rx: i64, new_tx: i64)
    requires
        sample_fits(c, new_rx, new_tx),
    ensures
        sample_fits(spec_apply_sample(c, new_rx, new_tx), new_rx, new_tx),
        spec_apply_sample(spec_apply_sample(c, new_rx, new_tx), new_rx, new_tx) == spec_apply_sample(
            c,
            new_rx,
            new_tx,
        ),
{
}

/// With non-negative readings the cycle counters never shrink.
pub proof fn lemma_cycle_counters_grow(c: TrafficCounters, new_rx: i64, new_tx: i64)
    requires
        sample_fits(c, new_rx, new_tx),
        new_rx >= 0,
        new_tx >= 0,
    ensures
        or_zero(spec_apply_sample(c, new_rx, new_tx).current_cycle_rx_bytes) >= or_zero(c.current_cycle_rx_bytes),
        or_zero(spec_apply_sample(c, new_rx, new_tx).current_cycle_tx_bytes) >= or_zero(c.current_cycle_tx_bytes),
{
}

/// The day of month and time offset of a `monthly_day_of_month` reset
/// configuration after reading one `key:value` piece.
pub open spec fn apply_monthly_piece(state: (Option<u32>, i64), piece: Seq<char>) -> (Option<u32>, i64) {
    let kv = split_pieces(piece, ':');
    if kv.len() == 2 {
        if kv[0] == "day"@ {
            (spec_parse_u32(kv[1]), state.1)
        } else if kv[0] == "time_offset_seconds"@ {
            (state.0, match spec_parse_i64(kv[1]) { Some(v) => v, None => 0 })
        } else {
            state
        }
    } else {
        state
    }
}

/// The day of month and time offset that the comma-separated pieces of a
/// `monthly_day_of_month` configuration set, later pieces winning; a `day`
/// that does not parse clears the day, an offset that does not parse is zero.
pub open spec fn spec_monthly_config_from(pieces: Seq<Seq<char>>) -> (Option<u32>, i64)
    decreases pieces.len(),
{
    if pieces.len() == 0 {
        (None, 0)
    } else {
        apply_monthly_piece(spec_monthly_config_from(pieces.drop_last()), pieces.last())
    }
}

/// The day of month and time offset of a `monthly_day_of_month`
/// configuration value such as `day:15,time_offset_seconds:3600`.
pub open spec fn spec_monthly_config(value: Seq<char>) -> (Option<u32>, i64) {
    spec_monthly_config_from(split_pieces(value, ','))
}

/// Reads a `monthly_day_of_month` configuration value.
pub fn parse_monthly_reset_config(value: &str) -> (r: (Option<u32>, i64))
    ensures
        r == spec_monthly_config(value@),
{
    let chars = chars_of(value);
    let pieces = split_chars(&chars, ',');
    let ghost ps = split_pieces(value@, ',');
    let day_key = chars_of("day");
    let offset_key = chars_of("time_offset_seconds");
    let mut day: Option<u32> = None;
    let mut offset: i64 = 0;
    let mut i: usize = 0;
    while i < pieces.len()
        invariant
            i <= pieces.len(),
            pieces@.len() == ps.len(),
            forall|k: int| 0 <= k < pieces@.len() ==> #[trigger] pieces@[k]@ == ps[k],
            day_key@ == "day"@,
            offset_key@ == "time_offset_seconds"@,
            (day, offset) == spec_monthly_config_from(ps.take(i as int)),
        decreases pieces.len() - i,
    {
        assert(ps.take(i + 1).drop_last() =~= ps.take(i as int));
        assert(ps.take(i + 1).last() == ps[i as int]);
        let kv = split_chars(&pieces[i], ':');
        if kv.len() == 2 {
            if chars_eq(&kv[0], &day_key) {
                let text = string_from_chars(&kv[1]);
                day = parse_u32(text.as_str());
            } else if chars_eq(&kv[0], &offset_key) {
                let text = string_from_chars(&kv[1]);
                offset = match parse_i64(text.as_str()) { Some(v) => v, None => 0 };
            }
        }
        i = i + 1;
    }
    assert(ps.take(i as int) =~= ps);
    (day, offset)
}

/// The month after a year and month.
pub open spec fn next_month(y: i32, m: u32) -> (i32, u32) {
    if m + 1 > 12 {
        ((y + 1) as i32, 1u32)
    } else {
        (y, (m + 1) as u32)
    }
}

/// The date of the next reset of a monthly cycle, as year, month and day:
/// the configured day of the month after the last reset, or the month's last
/// day when the month is shorter.
pub open spec fn spec_monthly_reset_date(last_reset: i64, day: u32) -> (i32, u32, u32) {
    let (y, m) = chrono_year_month(last_reset);
    let (ny, nm) = next_month(y, m);
    let (fy, fm) = next_month(ny, nm);
    let first = chrono_days_from_ce(ny, nm, 1).unwrap();
    let following = chrono_days_from_ce(fy, fm, 1).unwrap();
    let days_in_month = (following - first) as u32;
    (ny, nm, if day <= days_in_month { day } else { days_in_month })
}

/// The next reset of a monthly cycle: midnight of its date plus the offset;
/// `None` when that date does not exist (day 0).
pub open spec fn spec_next_monthly_reset(last_reset: i64, day: u32, offset: i64) -> Option<i64> {
    let (ny, nm, d) = spec_monthly_reset_date(last_reset, day);
    match chrono_midnight(ny, nm, d) {
        Some(t) => Some((t + offset) as i64),
        None => None,
    }
}

/// Whether `chrono` can compute the next reset of a monthly cycle: the month
/// after the last reset and the month after that exist in its calendar, and
/// the reset time, offset included, is one it can hold. Outside this the
/// computation panics.
pub open spec fn spec_monthly_reset_in_range(last_reset: i64, day: u32, offset: i64) -> bool {
    let (y, m) = chrono_year_month(last_reset);
    let (ny, nm) = next_month(y, m);
    let (fy, fm) = next_month(ny, nm);
    &&& chrono_days_from_ce(ny, nm, 1) is Some
    &&& chrono_days_from_ce(fy, fm, 1) is Some
    &&& match chrono_midnight(ny, nm, spec_monthly_reset_date(last_reset, day).2) {
        Some(t) => valid_timestamp(t + offset),
        None => true,
    }
}

/// Computes the next reset of a monthly cycle.
pub fn next_monthly_reset(last_reset: i64, day: u32, offset: i64) -> (r: Option<i64>)
    requires
        valid_timestamp(last_reset as int),
        spec_monthly_reset_in_range(last_reset, day, offset),
    ensures
        r == spec_next_monthly_reset(last_reset, day, offset),
        r matches Some(t) ==> valid_timestamp(t as int),
{
    let (y, m) = year_month_of(last_reset);
    let (ny, nm) = if m + 1 > 12 { (y + 1, 1u32) } else { (y, m + 1) };
    let (fy, fm) = if nm == 12 { (ny + 1, 1u32) } else { (ny, nm + 1) };
    let first = days_from_ce(ny, nm, 1).unwrap();
    let following = days_from_ce(fy, fm, 1).unwrap();
    let diff: i64 = following as i64 - first as i64;
    let days_in_month = diff as u32;
    let actual_day = if day <= days_in_month { day } else { days_in_month };
    match midnight_of(ny, nm, actual_day) {
        Some(t) => Some(t + offset),
        None => None,
    }
}

/// Whether `chrono` can compute the next monthly reset; `false` exactly
/// where the computation would panic.
pub fn monthly_reset_in_range(last_reset: i64, day: u32, offset: i64) -> (r: bool)
    requires
        valid_timestamp(last_reset as int),
    ensures
        r == spec_monthly_reset_in_range(last_reset, day, offset),
{
    let (y, m) = year_month_of(last_reset);
    let (ny, nm) = if m + 1 > 12 { (y + 1, 1u32) } else { (y, m + 1) };
    let (fy, fm) = if nm == 12 { (ny + 1, 1u32) } else { (ny, nm + 1) };
    let first = match days_from_ce(ny, nm, 1) {
        Some(f) => f,
        None => return false,
    };
    let following = match days_from_ce(fy, fm, 1) {
        Some(f) => f,
        None => return false,
    };
    let diff: i64 = following as i64 - first as i64;
    let days_in_month = diff as u32;
    let actual_day = if day <= days_in_month { day } else { days_in_month };
    match midnight_of(ny, nm, actual_day) {
        Some(t) => MIN_TIMESTAMP - t <= offset && offset <= MAX_TIMESTAMP - t,
        None => true,
    }
}

/// When a VPS's traffic cycle is next reset after a reset at `last_reset`:
/// for a monthly cycle at midnight of its date plus the offset (in whole
/// seconds), for a fixed-length cycle its length after the last reset (to
/// the nanosecond).
pub open spec fn spec_next_reset_after(
    config_type: Option<Seq<char>>,
    config_value: Option<Seq<char>>,
    last_reset: UtcTime,
) -> Option<UtcTime> {
    match (config_type, config_value) {
        (Some(t), Some(v)) => if t == "monthly_day_of_month"@ {
            match spec_monthly_config(v).0 {
                Some(day) => match spec_next_monthly_reset(last_reset.secs, day, spec_monthly_config(v).1) {
                    Some(n) => Some(UtcTime { secs: n, nanos: 0 }),
                    None => None,
                },
                None => None,
            }
        } else if t == "fixed_days"@ {
            match spec_parse_i64(v) {
                Some(days) => if days > 0 {
                    Some(UtcTime { secs: (last_reset.secs + days * SECONDS_PER_DAY) as i64, nanos: last_reset.nanos })
                } else {
                    None
                },
                None => None,
            }
        } else {
            None
        },
        _ => None,
    }
}

/// Whether `chrono` can compute the next reset after `last_reset` for a
/// reset configuration: the monthly computation stays in its calendar, and a
/// fixed-length cycle ends at a time it can hold. Outside this the
/// computation panics.
pub open spec fn spec_reset_in_range(config_type: Option<Seq<char>>, config_value: Option<Seq<char>>, last_reset: i64) -> bool {
    match (config_type, config_value) {
        (Some(t), Some(v)) => if t == "monthly_day_of_month"@ {
            match spec_monthly_config(v).0 {
                Some(day) => spec_monthly_reset_in_range(last_reset, day, spec_monthly_config(v).1),
                None => true,
            }
        } else if t == "fixed_days"@ {
            match spec_parse_i64(v) {
                Some(days) => days > 0 ==> valid_timestamp(last_reset + days * SECONDS_PER_DAY),
                None => true,
            }
        } else {
            true
        },
        _ => true,
    }
}

pub open spec fn opt_str_view(o: Option<&str>) -> Option<Seq<char>> {
    match o {
        Some(s) => Some(s@),
        None => None,
    }
}

/// Whether `chrono` can compute the next reset after `last_reset` for a
/// reset configuration; `false` exactly where the computation would panic.
pub fn reset_in_range(config_type: Option<&str>, config_value: Option<&str>, last_reset: i64) -> (r: bool)
    requires
        valid_timestamp(last_reset as int),
    ensures
        r == spec_reset_in_range(opt_str_view(config_type), opt_str_view(config_value), last_reset),
{
    match (config_type, config_value) {
        (Some(t), Some(v)) => {
            if crate::text::str_eq(t, "monthly_day_of_month") {
                let (day, offset) = parse_monthly_reset_config(v);
                match day {
                    Some(d) => monthly_reset_in_range(last_reset, d, offset),
                    None => true,
                }
            } else if crate::text::str_eq(t, "fixed_days") {
                match parse_i64(v) {
                    Some(days) => {
                        if days <= 0 {
                            true
                        } else {
                            let room: i64 = MAX_TIMESTAMP - last_reset;
                            let fits = days <= room / SECONDS_PER_DAY;
                            proof {
                                assert(fits == (last_reset + days * SECONDS_PER_DAY <= MAX_TIMESTAMP)) by (nonlinear_arith)
                                    requires
                                        room == MAX_TIMESTAMP - last_reset,
                                        room >= 0,
                                        days > 0,
                                        fits == (days <= room / 86400),
                                        SECONDS_PER_DAY == 86400,
                                ;
                            }
                            fits
                        }
                    },
                    None => true,
                }
            } else {
                true
            }
        },
        _ => true,
    }
}

/// The next reset time after a reset at `last_reset`, from the VPS's reset
/// configuration; `None` when the configuration is missing, unknown or
/// invalid.
pub fn next_reset_after(config_type: Option<&str>, config_value: Option<&str>, last_reset: UtcTime) -> (r: Option<UtcTime>)
    requires
        valid_timestamp(last_reset.secs as int),
        spec_reset_in_range(opt_str_view(config_type), opt_str_view(config_value), last_reset.secs),
    ensures
        r == spec_next_reset_after(opt_str_view(config_type), opt_str_view(config_value), last_reset),
        r matches Some(t) ==> valid_timestamp(t.secs as int),
        match (config_type, config_value) {
            (Some(t), Some(v)) => t@ == "monthly_day_of_month"@ ==> match spec_monthly_config(v@) {
                (Some(d), offset) => {
                    let date = spec_monthly_reset_date(last_reset.secs, d);
                    match chrono_midnight(date.0, date.1, date.2) {
                        Some(m) => r == Some(UtcTime { secs: (m + offset) as i64, nanos: 0 }),
                        None => r is None,
                    }
                },
                (None, _) => r is None,
            },
            _ => true,
        },
{
    match (config_type, config_value) {
        (Some(t), Some(v)) => {
            if crate::text::str_eq(t, "monthly_day_of_month") {
                let (day, offset) = parse_monthly_reset_config(v);
                match day {
                    Some(d) => match next_monthly_reset(last_reset.secs, d, offset) {
                        Some(n) => Some(UtcTime { secs: n, nanos: 0 }),
                        None => None,
                    },
                    None => None,
                }
            } else if crate::text::str_eq(t, "fixed_days") {
                match parse_i64(v) {
                    Some(days) => {
                        if days > 0 {
                            Some(UtcTime { secs: last_reset.secs + days * SECONDS_PER_DAY, nanos: last_reset.nanos })
                        } else {
                            None
                        }
                    },
                    None => None,
                }
            } else {
                None
            }
        },
        _ => None,
    }
}

/// Whether a VPS's traffic cycle is due for a reset at `now`.
pub open spec fn spec_reset_due(next_reset_at: Option<UtcTime>, now: UtcTime) -> bool {
    match next_reset_at {
        Some(t) => time_le(t, now),
        None => false,
    }
}

/// The outcome of resetting a traffic cycle.
#[derive(Clone, Copy, Debug)]
pub struct TrafficReset {
    pub current_cycle_rx_bytes: i64,
    pub current_cycle_tx_bytes: i64,
    pub last_reset_at: UtcTime,
    pub next_reset_at: Option<UtcTime>,
}

/// Resets a VPS's traffic cycle when its scheduled reset time has come:
/// the cycle counters return to zero, the scheduled time becomes the last
/// reset time, and the next reset is scheduled from it. `None` when no reset
/// is due.
pub fn process_traffic_reset(
    next_reset_at: Option<UtcTime>,
    config_type: Option<&str>,
    config_value: Option<&str>,
    now: UtcTime,
) -> (r: Option<TrafficReset>)
    requires
        match next_reset_at {
            Some(t) => time_le(t, now) ==> valid_timestamp(t.secs as int) && spec_reset_in_range(
                opt_str_view(config_type),
                opt_str_view(config_value),
                t.secs,
            ),
            None => true,
        },
    ensures
        match r {
            None => !spec_reset_due(next_reset_at, now),
            Some(o) => spec_reset_due(next_reset_at, now) && o.current_cycle_rx_bytes == 0
                && o.current_cycle_tx_bytes == 0 && Some(o.last_reset_at) == next_reset_at
                && o.next_reset_at == spec_next_reset_after(
                opt_str_view(config_type),
                opt_str_view(config_value),
                o.last_reset_at,
            ),
        },
{
    match next_reset_at {
        None => None,
        Some(t) => {
            if !not_later(t, now) {
                None
            } else {
                let next = next_reset_after(config_type, config_value, t);
                Some(TrafficReset {
                    current_cycle_rx_bytes: 0,
                    current_cycle_tx_bytes: 0,
                    last_reset_at: t,
                    next_reset_at: next,
                })
            }
        },
    }
}

/// What checking a VPS's traffic cycle comes to.
#[derive(Clone, Copy, Debug)]
pub enum TrafficResetOutcome {
    /// No reset is scheduled, or its time has not come.
    NotDue,
    /// The cycle was reset.
    Reset(TrafficReset),
    /// A reset is due, but its time or the next one lies outside what
    /// `chrono` can compute with (where the computation would panic).
    OutOfRange,
}

/// Checks a VPS's traffic cycle at `now`: resets it as `process_traffic_reset`
/// does when a reset is due and can be computed, and says which of the
/// other cases holds otherwise.
pub fn check_traffic_reset(
    next_reset_at: Option<UtcTime>,
    config_type: Option<&str>,
    config_value: Option<&str>,
    now: UtcTime,
) -> (r: TrafficResetOutcome)
    ensures
        match next_reset_at {
            None => r is NotDue,
            Some(t) => if !time_le(t, now) {
                r is NotDue
            } else if valid_timestamp(t.secs as int) && spec_reset_in_range(
                opt_str_view(config_type),
                opt_str_view(config_value),
                t.secs,
            ) {
                r matches TrafficResetOutcome::Reset(o) && o.current_cycle_rx_bytes == 0
                    && o.current_cycle_tx_bytes == 0 && o.last_reset_at == t
                    && o.next_reset_at == spec_next_reset_after(
                    opt_str_view(config_type),
                    opt_str_view(config_value),
                    t,
                )
            } else {
                r is OutOfRange
            },
        },
{
    match next_reset_at {
        None => TrafficResetOutcome::NotDue,
        Some(t) => {
            if !not_later(t, now) {
                TrafficResetOutcome::NotDue
            } else if t.secs < MIN_TIMESTAMP || t.secs > MAX_TIMESTAMP {
                TrafficResetOutcome::OutOfRange
            } else if !reset_in_range(config_type, config_value, t.secs) {
                TrafficResetOutcome::OutOfRange
            } else {
                match process_traffic_reset(next_reset_at, config_type, config_value, now) {
                    Some(o) => TrafficResetOutcome::Reset(o),
                    None => TrafficResetOutcome::NotDue,
                }
            }
        },
    }
}

/// Whether a VPS is listed for a traffic reset check: it has a reset
/// configuration and a scheduled reset that is not in the future.
pub fn due_for_traffic_reset(
    has_config_type: bool,
    has_config_value: bool,
    next_reset_at: Option<UtcTime>,
    now: UtcTime,
) -> (r: bool)
    ensures
        r == (has_config_type && has_config_value && spec_reset_due(next_reset_at, now)),
{
    has_config_type && has_config_value && match next_reset_at {
        Some(t) => not_later(t, now),
        None => false,
    }
}

/// A monthly cycle resets at `chrono`'s midnight of its reset date plus the
/// time offset of its configuration: the reset time less the offset is that
/// midnight.
pub proof fn lemma_monthly_reset_includes_offset(
    v: Seq<char>,
    last_reset: UtcTime,
    day: u32,
    offset: i64,
    midnight: i64,
)
    requires
        spec_monthly_config(v) == (Some(day), offset),
        ({
            let date = spec_monthly_reset_date(last_reset.secs, day);
            chrono_midnight(date.0, date.1, date.2) == Some(midnight)
        }),
        valid_timestamp(midnight + offset),
    ensures
        spec_next_reset_after(Some("monthly_day_of_month"@), Some(v), last_reset) matches Some(r)
            && r.secs - offset == midnight && r.nanos == 0,
{
}

/// A fixed-length cycle moves its reset time forward by exactly its length.
pub proof fn lemma_fixed_days_cycle_advances(last_reset: UtcTime, days: i64, v: Seq<char>)
    requires
        spec_parse_i64(v) == Some(days),
        days > 0,
    ensures
        spec_next_reset_after(Some("fixed_days"@), Some(v), last_reset) == Some(
            UtcTime { secs: (last_reset.secs + days * 86400) as i64, nanos: last_reset.nanos },
        ),
{
    reveal_strlit("fixed_days");
    reveal_strlit("monthly_day_of_month");
    assert("fixed_days"@ != "monthly_day_of_month"@) by {
        assert("fixed_days"@.len() != "monthly_day_of_month"@.len());
    }
}

} // verus!

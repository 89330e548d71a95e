//! Performance metric queries: the sampling interval syntax, the choice of
//! the table a time range is read from, and the checks on a query.

use vstd::prelude::*;
use crate::errors::AppError;
use crate::time::{UtcTime, time_le, not_later};
use crate::text::{chars_of, string_from_chars, parse_u32, spec_parse_u32, concat_str, decimal, u64_to_decimal};

verus! {

/// Query of the latest `count` metrics of a VPS.
#[derive(Debug)]
pub struct LatestNMetricsQuery {
    pub count: u32,
}

/// `s` with every trailing `c` removed, as `str::trim_end_matches` does.
pub open spec fn trim_end(s: Seq<char>, c: char) -> Seq<char>
    decreases s.len(),
{
    if s.len() > 0 && s.last() == c {
        trim_end(s.drop_last(), c)
    } else {
        s
    }
}

/// The unit of an interval string and its number of seconds.
pub open spec fn interval_unit(s: Seq<char>) -> Option<u32> {
    if s.len() > 0 && s.last() == 's' {
        Some(1u32)
    } else if s.len() > 0 && s.last() == 'm' {
        Some(60u32)
    } else if s.len() > 0 && s.last() == 'h' {
        Some(3600u32)
    } else {
        None
    }
}

/// Whether an interval's number of seconds fits in 32 bits.
pub open spec fn spec_interval_fits(s: Seq<char>) -> bool {
    match interval_unit(s) {
        Some(unit) => match spec_parse_u32(trim_end(s, s.last())) {
            Some(n) => n * unit <= u32::MAX,
            None => true,
        },
        None => true,
    }
}

/// The number of seconds of an interval such as `72s`, `5m` or `1h`: the
/// number before the unit (any repetition of the unit letter is dropped),
/// times the unit; `None` for another unit or a number that does not parse.
pub open spec fn spec_interval_seconds(s: Seq<char>) -> Option<u32> {
    match interval_unit(s) {
        Some(unit) => match spec_parse_u32(trim_end(s, s.last())) {
            Some(n) => Some((n * unit) as u32),
            None => None,
        },
        None => None,
    }
}

fn trim_end_chars(v: &Vec<char>, c: char) -> (r: Vec<char>)
    ensures
        r@ == trim_end(v@, c),
{
    let mut n = v.len();
    assert(v@.take(n as int) =~= v@);
    while n > 0 && v[n - 1] == c
        invariant
            n <= v.len(),
            trim_end(v@.take(n as int), c) == trim_end(v@, c),
        decreases n,
    {
        assert(v@.take(n as int).drop_last() =~= v@.take(n - 1));
        n = n - 1;
    }
    let mut out: Vec<char> = Vec::new();
    let mut i: usize = 0;
    while i < n
        invariant
            i <= n <= v.len(),
            out@ == v@.take(i as int),
        decreases n - i,
    {
        out.push(v[i]);
        assert(v@.take(i + 1) =~= v@.take(i as int).push(v@[i as int]));
        i = i + 1;
    }
    proof {
        assert(v@.take(0) =~= Seq::<char>::empty());
    }
    out
}

proof fn lemma_trim_end_take_full(v: Seq<char>, c: char)
    ensures
        trim_end(v.take(v.len() as int), c) == trim_end(v, c),
{
    assert(v.take(v.len() as int) =~= v);
}

/// Whether an interval's number of seconds fits in 32 bits.
pub fn interval_fits(s: &str) -> (r: bool)
    ensures
        r == spec_interval_fits(s@),
{
    let v = chars_of(s);
    if v.len() == 0 {
        return true;
    }
    let last = v[v.len() - 1];
    let unit: u64 = if last == 's' { 1 } else if last == 'm' { 60 } else if last == 'h' { 3600 } else { return true };
    proof {
        lemma_trim_end_take_full(v@, last);
    }
    let body = trim_end_chars(&v, last);
    let text = string_from_chars(&body);
    match parse_u32(text.as_str()) {
        Some(n) => (n as u64) * unit <= 0xffff_ffff,
        None => true,
    }
}

/// The number of seconds of an interval such as `72s`, `5m` or `1h`.
pub fn parse_interval_seconds(s: &str) -> (r: Option<u32>)
    requires
        spec_interval_fits(s@),
    ensures
        r == spec_interval_seconds(s@),
{
    let v = chars_of(s);
    if v.len() == 0 {
        return None;
    }
    let last = v[v.len() - 1];
    let unit: u32 = if last == 's' { 1 } else if last == 'm' { 60 } else if last == 'h' { 3600 } else { return None };
    let body = trim_end_chars(&v, last);
    let text = string_from_chars(&body);
    match parse_u32(text.as_str()) {
        Some(n) => Some(n * unit),
        None => None,
    }
}

/// Where metrics of a time range are read from.
#[derive(Clone, Copy, Debug, PartialEq, Eq, Structural)]
pub enum MetricSource {
    /// The raw metrics table.
    Raw,
    /// The per-minute summary.
    Summary1m,
    /// The hourly summary.
    Summary1h,
    /// The daily summary.
    Summary1d,
}

/// The length of the range from `start` to `end`, in nanoseconds.
pub open spec fn duration_nanos(start: UtcTime, end: UtcTime) -> int {
    (end.secs - start.secs) * 1_000_000_000 + end.nanos - start.nanos
}

/// The source of an aggregated query over a range `duration` nanoseconds
/// long: raw data up to an hour, then the minute summary up to 7 days, the
/// hourly summary up to 30 days, and the daily summary beyond.
pub open spec fn spec_source_for_duration(duration: int) -> MetricSource {
    if duration <= 3600 * 1_000_000_000 {
        MetricSource::Raw
    } else if duration <= 7 * 86400 * 1_000_000_000 {
        MetricSource::Summary1m
    } else if duration <= 30 * 86400 * 1_000_000_000 {
        MetricSource::Summary1h
    } else {
        MetricSource::Summary1d
    }
}

/// The source of an aggregated query over the range from `start` to `end`.
pub open spec fn spec_metric_source(start: UtcTime, end: UtcTime) -> MetricSource {
    spec_source_for_duration(duration_nanos(start, end))
}

/// The source of an aggregated query over the range from `start` to `end`,
/// measured to the nanosecond.
pub fn metric_source_for_range(start: UtcTime, end: UtcTime) -> (r: MetricSource)
    ensures
        r == spec_metric_source(start, end),
{
    let d: i128 = (end.secs as i128 - start.secs as i128) * 1_000_000_000i128 + end.nanos as i128
        - start.nanos as i128;
    if d <= 3600 * 1_000_000_000i128 {
        MetricSource::Raw
    } else if d <= 7 * 86400 * 1_000_000_000i128 {
        MetricSource::Summary1m
    } else if d <= 30 * 86400 * 1_000_000_000i128 {
        MetricSource::Summary1h
    } else {
        MetricSource::Summary1d
    }
}

/// The table a source is read from.
pub open spec fn spec_source_table(s: MetricSource) -> Seq<char> {
    match s {
        MetricSource::Raw => "performance_metrics"@,
        MetricSource::Summary1m => "performance_metrics_summary_1m"@,
        MetricSource::Summary1h => "performance_metrics_summary_1h"@,
        MetricSource::Summary1d => "performance_metrics_summary_1d"@,
    }
}

/// The table a source is read from.
pub fn source_table(s: MetricSource) -> (r: &'static str)
    ensures
        r@ == spec_source_table(s),
{
    match s {
        MetricSource::Raw => "performance_metrics",
        MetricSource::Summary1m => "performance_metrics_summary_1m",
        MetricSource::Summary1h => "performance_metrics_summary_1h",
        MetricSource::Summary1d => "performance_metrics_summary_1d",
    }
}

/// The time column of a source's table: `time` for raw metrics, `bucket`
/// for the summaries.
pub fn source_time_column(s: MetricSource) -> (r: &'static str)
    ensures
        r@ == (if s == MetricSource::Raw { "time"@ } else { "bucket"@ }),
{
    match s {
        MetricSource::Raw => "time",
        _ => "bucket",
    }
}

/// The SQL expression that buckets a time column by an interval:
/// `time_bucket(INTERVAL '<n> seconds', "<column>")`.
pub open spec fn spec_time_bucket_expr(interval_seconds: u32, column: Seq<char>) -> Seq<char> {
    "time_bucket(INTERVAL '"@ + decimal(interval_seconds as nat) + " seconds', \""@ + column + "\")"@
}

/// The SQL expression that buckets a time column by an interval.
pub fn time_bucket_expr(interval_seconds: u32, column: &str) -> (r: String)
    ensures
        r@ == spec_time_bucket_expr(interval_seconds, column@),
{
    let n = u64_to_decimal(interval_seconds as u64);
    let a = concat_str("time_bucket(INTERVAL '", n.as_str());
    let b = concat_str(a.as_str(), " seconds', \"");
    let c = concat_str(b.as_str(), column);
    concat_str(c.as_str(), "\")")
}

/// The measures an aggregated query returns, in order.
pub open spec fn measure_columns() -> Seq<Seq<char>> {
    seq![
        "cpu_usage_percent"@,
        "memory_usage_bytes"@,
        "memory_total_bytes"@,
        "swap_usage_bytes"@,
        "disk_io_read_bps"@,
        "disk_io_write_bps"@,
        "network_rx_instant_bps"@,
        "network_tx_instant_bps"@,
        "used_disk_space_bytes"@,
        "total_disk_space_bytes"@,
    ]
}

/// The select expression and alias of one measure in an aggregated query:
/// the maximum for the total memory, the average for every other measure,
/// taken over the raw column, or over the summary's `avg_`/`max_` column.
pub open spec fn spec_aggregate_column(source: MetricSource, column: Seq<char>, is_max: bool) -> (Seq<char>, Seq<char>) {
    let opening = if is_max { "MAX("@ } else { "AVG("@ };
    let alias = (if is_max { "max_"@ } else { "avg_"@ }) + column;
    let argument = if source == MetricSource::Raw { column } else { alias };
    (opening + argument + ")::double precision"@, alias)
}

fn aggregate_column(source: MetricSource, column: &str, is_max: bool) -> (r: (String, String))
    ensures
        (r.0@, r.1@) == spec_aggregate_column(source, column@, is_max),
{
    let function = if is_max { "MAX(" } else { "AVG(" };
    let alias = concat_str(if is_max { "max_" } else { "avg_" }, column);
    let argument = if source == MetricSource::Raw { column.to_string() } else { alias.clone() };
    let a = concat_str(function, argument.as_str());
    (concat_str(a.as_str(), ")::double precision"), alias)
}

/// The select expressions (with their aliases) of an aggregated query over
/// a source, one per measure in the order of `measure_columns`.
pub fn aggregate_columns(source: MetricSource) -> (r: Vec<(String, String)>)
    ensures
        r@.len() == measure_columns().len(),
        forall|i: int| 0 <= i < r@.len() ==> ((#[trigger] r@[i]).0@, r@[i].1@) == spec_aggregate_column(
            source,
            measure_columns()[i],
            i == 2,
        ),
{
    let mut v: Vec<(String, String)> = Vec::new();
    v.push(aggregate_column(source, "cpu_usage_percent", false));
    v.push(aggregate_column(source, "memory_usage_bytes", false));
    v.push(aggregate_column(source, "memory_total_bytes", true));
    v.push(aggregate_column(source, "swap_usage_bytes", false));
    v.push(aggregate_column(source, "disk_io_read_bps", false));
    v.push(aggregate_column(source, "disk_io_write_bps", false));
    v.push(aggregate_column(source, "network_rx_instant_bps", false));
    v.push(aggregate_column(source, "network_tx_instant_bps", false));
    v.push(aggregate_column(source, "used_disk_space_bytes", false));
    v.push(aggregate_column(source, "total_disk_space_bytes", false));
    assert forall|i: int| 0 <= i < v@.len() implies ((#[trigger] v@[i]).0@, v@[i].1@) == spec_aggregate_column(
        source,
        measure_columns()[i],
        i == 2,
    ) by {}
    v
}

/// What a performance query over a time range reads.
pub enum MetricsQueryPlan {
    /// The raw rows of the range, in time order (no interval was given).
    RawRows,
    /// Rows of `table` between the range's ends (both included) on
    /// `time_column`, grouped by `bucket` and VPS, with one select
    /// expression and alias per measure.
    Aggregated {
        source: MetricSource,
        table: String,
        time_column: String,
        bucket: String,
        columns: Vec<(String, String)>,
    },
}

/// Plans a performance query: without an interval the raw rows are read;
/// with one, the source is chosen by the range's length, and rows are
/// bucketed by the interval (at least one second).
pub fn plan_metrics_query(interval_seconds: Option<u32>, start: UtcTime, end: UtcTime) -> (r: MetricsQueryPlan)
    ensures
        interval_seconds is None <==> r is RawRows,
        interval_seconds matches Some(n) ==> (r matches MetricsQueryPlan::Aggregated {
            source,
            table,
            time_column,
            bucket,
            columns,
        } && source == spec_metric_source(start, end) && table@ == spec_source_table(source)
            && time_column@ == (if source == MetricSource::Raw { "time"@ } else { "bucket"@ })
            && bucket@ == spec_time_bucket_expr(if n >= 1 { n } else { 1 }, time_column@)
            && columns@.len() == measure_columns().len() && forall|i: int|
            0 <= i < columns@.len() ==> ((#[trigger] columns@[i]).0@, columns@[i].1@)
                == spec_aggregate_column(source, measure_columns()[i], i == 2)),
{
    match interval_seconds {
        None => MetricsQueryPlan::RawRows,
        Some(n) => {
            let source = metric_source_for_range(start, end);
            let column = source_time_column(source);
            let bucket = time_bucket_expr(bucket_seconds(n), column);
            MetricsQueryPlan::Aggregated {
                source,
                table: source_table(source).to_string(),
                time_column: column.to_string(),
                bucket,
                columns: aggregate_columns(source),
            }
        },
    }
}

/// Longer ranges are read from coarser (or the same) sources.
pub open spec fn source_rank(s: MetricSource) -> int {
    match s {
        MetricSource::Raw => 0,
        MetricSource::Summary1m => 1,
        MetricSource::Summary1h => 2,
        MetricSource::Summary1d => 3,
    }
}

/// A longer range never reads from a finer source than a shorter one.
pub proof fn lemma_metric_source_monotone(d1: int, d2: int)
    requires
        d1 <= d2,
    ensures
        source_rank(spec_source_for_duration(d1)) <= source_rank(spec_source_for_duration(d2)),
{
}

/// The bucket width of an aggregated query: at least one second.
pub fn bucket_seconds(interval_seconds: u32) -> (r: u32)
    ensures
        r == (if interval_seconds >= 1 { interval_seconds } else { 1 }),
{
    if interval_seconds >= 1 { interval_seconds } else { 1 }
}

/// Checks the time range of a time-series query: it must start before it
/// ends, to the nanosecond.
pub fn check_time_range(start_time: UtcTime, end_time: UtcTime) -> (r: Result<(), AppError>)
    ensures
        !time_le(end_time, start_time) ==> r is Ok,
        time_le(end_time, start_time) ==> (r matches Err(AppError::InvalidInput(m)) && m@
            == "start_time must be before end_time"@),
{
    if not_later(end_time, start_time) {
        return Err(AppError::InvalidInput("start_time must be before end_time".to_string()));
    }
    Ok(())
}

} // verus!

//! Score statistics: the query that reads them and the (still empty) result
//! of generating them.

use vstd::prelude::*;

verus! {

/// The earliest millisecond since the Unix epoch that a date-time can hold:
/// the start of 1 January of the year -262143.
pub const EARLIEST_TIMESTAMP_MILLIS: i64 = -8334601228800000i64;

/// The latest millisecond since the Unix epoch that a date-time can hold: the
/// last millisecond of 31 December of the year 262142.
pub const LATEST_TIMESTAMP_MILLIS: i64 = 8210266876799999i64;

/// The most statistics rows that one query reads.
pub const SCORE_QUERY_LIMIT: u64 = 10000u64;

/// `millis` names an instant that a date-time can hold.
pub open spec fn representable_millis(millis: int) -> bool {
    EARLIEST_TIMESTAMP_MILLIS <= millis <= LATEST_TIMESTAMP_MILLIS
}

/// Calls `chrono::DateTime::from_timestamp_millis` and tells whether it gave
/// a date-time. In chrono's source it gives one exactly for the milliseconds
/// from the start of the year -262143 to the end of the year 262142 (the
/// range of `NaiveDate`). Nothing is claimed of the date-time itself, which
/// is not kept.
#[verifier::external_body]
fn timestamp_millis_representable(millis: i64) -> (ok: bool)
    ensures
        ok == representable_millis(millis as int),
{
    match chrono::DateTime::from_timestamp_millis(millis) {
        Some(_) => true,
        None => false,
    }
}

/// One end of a time window.
#[derive(PartialEq, Eq, Structural, Clone, Copy, Debug)]
pub enum TimeBound {
    /// The instant this many milliseconds after the Unix epoch.
    AtMillis(i64),
    /// The earliest instant that a date-time can hold.
    Earliest,
    /// The moment the query runs.
    Now,
}

/// A request for the score statistics of one scope and span between two
/// instants, in milliseconds since the Unix epoch.
pub struct ScoreDataRequest {
    pub scope: String,
    pub span: String,
    pub start_time: i64,
    pub end_time: i64,
}

/// The statistics query: rows of the scope and span whose period starts no
/// earlier than `span_start_from` and ends no later than `span_end_until`,
/// at most `limit` of them.
pub struct ScoreQuery {
    pub scope: String,
    pub span: String,
    pub span_start_from: TimeBound,
    pub span_end_until: TimeBound,
    pub limit: u64,
}

/// The start of the window: the requested instant where a date-time can
/// hold it, else the earliest instant.
pub open spec fn window_start(start_time: int) -> TimeBound {
    if representable_millis(start_time) {
        TimeBound::AtMillis(start_time as i64)
    } else {
        TimeBound::Earliest
    }
}

/// The end of the window: the requested instant where a date-time can hold
/// it, else the moment the query runs.
pub open spec fn window_end(end_time: int) -> TimeBound {
    if representable_millis(end_time) {
        TimeBound::AtMillis(end_time as i64)
    } else {
        TimeBound::Now
    }
}

/// The query that reads the statistics for `request`.
pub fn score_data_query(request: ScoreDataRequest) -> (query: ScoreQuery)
    ensures
        query.scope == request.scope,
        query.span == request.span,
        query.span_start_from == window_start(request.start_time as int),
        query.span_end_until == window_end(request.end_time as int),
        query.limit == SCORE_QUERY_LIMIT,
        query.limit == 10000,
{
    let span_start_from = if timestamp_millis_representable(request.start_time) {
        TimeBound::AtMillis(request.start_time)
    } else {
        TimeBound::Earliest
    };
    let span_end_until = if timestamp_millis_representable(request.end_time) {
        TimeBound::AtMillis(request.end_time)
    } else {
        TimeBound::Now
    };
    ScoreQuery {
        scope: request.scope,
        span: request.span,
        span_start_from,
        span_end_until,
        limit: SCORE_QUERY_LIMIT,
    }
}

/// The instants (milliseconds since the Unix epoch) of score samples; each
/// sample's score is 0 until the statistics carry real scores.
pub struct ScoreSamples {
    pub times_millis: Vec<i64>,
}

/// The samples of the statistics rows read, one per row and in their order:
/// each at the end of its row's period, given as `span_end_millis`.
pub fn score_samples(span_end_millis: Vec<i64>) -> (samples: ScoreSamples)
    ensures
        samples.times_millis@ == span_end_millis@,
{
    ScoreSamples { times_millis: span_end_millis }
}

/// Generating scores is not implemented yet: it yields no sample, rather
/// than made-up ones.
pub fn do_generate_score() -> (samples: ScoreSamples)
    ensures
        samples.times_millis@.len() == 0,
{
    ScoreSamples { times_millis: Vec::new() }
}

} // verus!

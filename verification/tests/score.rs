use genshin_map_functions::score::{
    do_generate_score, score_data_query, score_samples, ScoreDataRequest, TimeBound,
    EARLIEST_TIMESTAMP_MILLIS, LATEST_TIMESTAMP_MILLIS, SCORE_QUERY_LIMIT,
};

fn request(start_time: i64, end_time: i64) -> ScoreDataRequest {
    ScoreDataRequest { scope: "AREA".to_string(), span: "DAY".to_string(), start_time, end_time }
}

#[test]
fn score_query_keeps_representable_instants() {
    let q = score_data_query(request(1662921288000, 1662921288123));
    assert_eq!(q.scope, "AREA");
    assert_eq!(q.span, "DAY");
    assert_eq!(q.span_start_from, TimeBound::AtMillis(1662921288000));
    assert_eq!(q.span_end_until, TimeBound::AtMillis(1662921288123));
    assert_eq!(q.limit, 10000);
    assert_eq!(SCORE_QUERY_LIMIT, 10000);
}

#[test]
fn score_query_falls_back_outside_the_range() {
    let q = score_data_query(request(i64::MIN, i64::MAX));
    assert_eq!(q.span_start_from, TimeBound::Earliest);
    assert_eq!(q.span_end_until, TimeBound::Now);
}

#[test]
fn score_query_range_edges() {
    let q = score_data_query(request(EARLIEST_TIMESTAMP_MILLIS, LATEST_TIMESTAMP_MILLIS));
    assert_eq!(q.span_start_from, TimeBound::AtMillis(EARLIEST_TIMESTAMP_MILLIS));
    assert_eq!(q.span_end_until, TimeBound::AtMillis(LATEST_TIMESTAMP_MILLIS));
    let q = score_data_query(request(EARLIEST_TIMESTAMP_MILLIS - 1, LATEST_TIMESTAMP_MILLIS + 1));
    assert_eq!(q.span_start_from, TimeBound::Earliest);
    assert_eq!(q.span_end_until, TimeBound::Now);
}

#[test]
fn range_edges_agree_with_chrono() {
    assert!(chrono::DateTime::from_timestamp_millis(EARLIEST_TIMESTAMP_MILLIS).is_some());
    assert!(chrono::DateTime::from_timestamp_millis(EARLIEST_TIMESTAMP_MILLIS - 1).is_none());
    assert!(chrono::DateTime::from_timestamp_millis(LATEST_TIMESTAMP_MILLIS).is_some());
    assert!(chrono::DateTime::from_timestamp_millis(LATEST_TIMESTAMP_MILLIS + 1).is_none());
    assert_eq!(
        chrono::NaiveDateTime::MIN.and_utc().timestamp_millis(),
        EARLIEST_TIMESTAMP_MILLIS
    );
}

#[test]
fn generate_score_yields_no_sample() {
    assert!(do_generate_score().times_millis.is_empty());
}

#[test]
fn one_sample_per_row_at_its_period_end() {
    let samples = score_samples(vec![1662921288000, 1662007688000, 1662921288000]);
    assert_eq!(samples.times_millis, vec![1662921288000, 1662007688000, 1662921288000]);
    assert!(score_samples(Vec::new()).times_millis.is_empty());
}

use adpt::client::{
    gpu_count, next_page, part_query, query_outcome, JobKind, JobsPageRequest, NextPage, PageInfo,
    QueryError, Timestamp, Upload, PAGE_SIZE, SINGLE_FILE_MAP,
};
use adpt::status::JobStatus;
use std::time::{Duration, UNIX_EPOCH};

#[test]
fn test_deserialize_timestamp_millis() {
    let json = r#"{"timestamp": 1640995200000}"#;
    let value: serde_json::Value = serde_json::from_str(json).unwrap();
    let millis = value.get("timestamp").and_then(|m| m.as_u64()).unwrap();
    let result = Timestamp::from_millis(millis);

    let expected_duration = Duration::from_millis(1640995200000);
    let expected_time = UNIX_EPOCH + expected_duration;

    assert_eq!(result, Timestamp(1640995200000));
    assert_eq!(
        UNIX_EPOCH + Duration::new(result.as_secs(), result.subsec_millis() * 1_000_000),
        expected_time
    );
}

#[test]
fn a_timestamp_splits_into_seconds_and_milliseconds() {
    let timestamp = Timestamp::from_millis(1_640_995_200_123);
    assert_eq!(timestamp.as_secs(), 1_640_995_200);
    assert_eq!(timestamp.subsec_millis(), 123);
    assert_eq!(Timestamp::from_millis(u64::MAX).as_secs(), u64::MAX / 1000);
    assert_eq!(Timestamp::from_millis(u64::MAX).subsec_millis(), 615);
}

#[test]
fn timestamps_are_ordered_by_time() {
    assert!(Timestamp(2).is_after(&Timestamp(1)));
    assert!(!Timestamp(1).is_after(&Timestamp(1)));
    assert!(!Timestamp(1).is_after(&Timestamp(2)));
    assert!(Timestamp(1) < Timestamp(2));
    assert_eq!(Timestamp(5).max(Timestamp(3)), Timestamp(5));
}

#[test]
fn the_only_file_of_a_request_stands_at_place_zero() {
    assert_eq!(Upload::single(), Upload(0));
    assert_eq!(Upload::single().part_name(), "0");
    assert_eq!(Upload(12).part_name(), "12");
    assert_eq!(SINGLE_FILE_MAP, r#"{ "0": ["variables.file"] }"#);
}

#[test]
fn a_page_of_jobs_asks_for_running_and_pending_custom_jobs() {
    let request = JobsPageRequest::new(Some("demo".to_string()), Some("cursor-1".to_string()));
    assert_eq!(
        request,
        JobsPageRequest {
            use_case: Some("demo".to_string()),
            kinds: vec![JobKind::Custom],
            statuses: vec![JobStatus::Running, JobStatus::Pending],
            first: 20,
            after: Some("cursor-1".to_string()),
        }
    );
    assert_eq!(PAGE_SIZE, 20);
    let first = JobsPageRequest::new(None, None);
    assert_eq!(first.use_case, None);
    assert_eq!(first.after, None);
}

#[test]
fn another_page_is_asked_for_while_one_follows() {
    assert_eq!(
        next_page(PageInfo { has_next_page: true, end_cursor: Some("c".to_string()) }),
        NextPage::Fetch { after: Some("c".to_string()) }
    );
    assert_eq!(
        next_page(PageInfo { has_next_page: true, end_cursor: None }),
        NextPage::Fetch { after: None }
    );
    assert_eq!(
        next_page(PageInfo { has_next_page: false, end_cursor: Some("c".to_string()) }),
        NextPage::Done
    );
}

#[test]
fn one_gpu_where_none_is_asked_for() {
    assert_eq!(gpu_count(None), 1);
    assert_eq!(gpu_count(Some(0)), 0);
    assert_eq!(gpu_count(Some(8)), 8);
    assert_eq!(gpu_count(Some(u32::MAX)), 4_294_967_295);
}

#[test]
fn data_outranks_errors_and_errors_outrank_nothing() {
    assert_eq!(query_outcome(Some(5), Some("bad".to_string())), Ok(5));
    assert_eq!(query_outcome(Some(5), None), Ok(5));
    assert_eq!(
        query_outcome::<u8>(None, Some("bad".to_string())),
        Err(QueryError::Graphql { errors: "bad".to_string() })
    );
    assert_eq!(query_outcome::<u8>(None, None), Err(QueryError::NoData));
}

#[test]
fn a_part_request_names_session_and_part() {
    assert_eq!(
        part_query("s-1", 12),
        vec![
            ("session_id".to_string(), "s-1".to_string()),
            ("part_number".to_string(), "12".to_string()),
        ]
    );
}

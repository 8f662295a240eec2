use adpt::naming::{
    dataset_key, default_name, resolve_key, resolve_name, upload_route, UploadRoute,
};
use adpt::plan::MIN_CHUNK_SIZE_BYTES;

#[test]
fn the_default_name_is_file_name_dash_seconds() {
    assert_eq!(default_name("data.jsonl", 1_640_995_200), "data.jsonl-1640995200");
    assert_eq!(default_name("", 0), "-0");
}

#[test]
fn a_given_name_is_kept() {
    assert_eq!(resolve_name(Some("mine".to_string()), "data.jsonl", 5), "mine");
    assert_eq!(resolve_name(None, "data.jsonl", 5), "data.jsonl-5");
}

#[test]
fn a_dataset_key_is_the_slug_of_the_name() {
    assert_eq!(dataset_key("My Test String!!!1!1"), "my-test-string-1-1");
    assert_eq!(dataset_key("test\nit   now!"), "test-it-now");
    assert_eq!(dataset_key("  --test_-_cool"), "test-cool");
    assert_eq!(dataset_key("You & Me"), "you-me");
    assert_eq!(dataset_key("data.jsonl-1640995200"), "data-jsonl-1640995200");
    assert_eq!(dataset_key(""), "");
}

#[test]
fn a_given_key_is_kept_and_a_missing_one_is_the_slug() {
    assert_eq!(resolve_key(Some("Keep Me".to_string()), "My Recipe"), "Keep Me");
    assert_eq!(resolve_key(None, "My Recipe"), "my-recipe");
}

#[test]
fn only_files_over_the_minimum_go_up_in_parts() {
    assert_eq!(upload_route(0), UploadRoute::Direct);
    assert_eq!(upload_route(MIN_CHUNK_SIZE_BYTES - 1), UploadRoute::Direct);
    assert_eq!(upload_route(MIN_CHUNK_SIZE_BYTES), UploadRoute::Direct);
    assert_eq!(upload_route(MIN_CHUNK_SIZE_BYTES + 1), UploadRoute::Chunked);
    assert_eq!(upload_route(u64::MAX), UploadRoute::Chunked);
}

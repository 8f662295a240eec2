use adpt::config::{
    first_of, graphql_url, merge_config, merged_from, route_url, Config, ConfigEnv, ConfigError,
    ConfigFile, MergedConfig,
};
use adpt::rest_types::{
    AbortChunkedUploadRequest, InitChunkedUploadRequest, ABORT_CHUNKED_UPLOAD_ROUTE,
    INIT_CHUNKED_UPLOAD_ROUTE, UPLOAD_PART_ROUTE,
};

fn file(use_case: Option<&str>, url: Option<&str>) -> ConfigFile {
    ConfigFile {
        default_use_case: use_case.map(|s| s.to_string()),
        adaptive_base_url: url.map(|s| s.to_string()),
    }
}

fn env(use_case: Option<&str>, url: Option<&str>, key: Option<&str>) -> ConfigEnv {
    ConfigEnv {
        default_use_case: use_case.map(|s| s.to_string()),
        adaptive_base_url: url.map(|s| s.to_string()),
        adaptive_api_key: key.map(|s| s.to_string()),
    }
}

#[test]
fn the_environment_takes_precedence_over_the_file() {
    let merged = merge_config(
        file(Some("from-file"), Some("https://file.example")),
        env(Some("from-env"), Some("https://env.example"), Some("k")),
    );
    assert_eq!(
        merged,
        Ok(MergedConfig {
            default_use_case: Some("from-env".to_string()),
            adaptive_base_url: "https://env.example/api/graphql".to_string(),
            adaptive_api_key: Some("k".to_string()),
        })
    );
}

#[test]
fn the_file_fills_what_the_environment_leaves_open() {
    let merged = merge_config(
        file(Some("from-file"), Some("https://app.adaptive.ml")),
        ConfigEnv::default(),
    );
    assert_eq!(
        merged,
        Ok(MergedConfig {
            default_use_case: Some("from-file".to_string()),
            adaptive_base_url: "https://app.adaptive.ml/api/graphql".to_string(),
            adaptive_api_key: None,
        })
    );
}

#[test]
fn the_api_path_replaces_the_path_of_the_base_url() {
    let merged =
        merge_config(file(None, Some("https://host.example/some/where?x=1")), ConfigEnv::default());
    assert_eq!(merged.unwrap().adaptive_base_url, "https://host.example/api/graphql");
}

#[test]
fn without_a_base_url_the_merge_fails() {
    assert_eq!(
        merge_config(ConfigFile::default(), env(Some("u"), None, Some("k"))),
        Err(ConfigError::NoBaseUrl)
    );
}

#[test]
fn a_base_url_that_is_no_url_fails_the_merge() {
    assert_eq!(
        merge_config(file(None, Some("not a url")), ConfigEnv::default()),
        Err(ConfigError::BadBaseUrl { detail: "relative URL without a base".to_string() })
    );
}

#[test]
fn merged_from_puts_the_parts_together() {
    assert_eq!(
        merged_from(None, None, Ok("https://x/".to_string()), None),
        Err(ConfigError::NoBaseUrl)
    );
    assert_eq!(
        merged_from(None, Some("b".to_string()), Err("why".to_string()), None),
        Err(ConfigError::BadBaseUrl { detail: "why".to_string() })
    );
    assert_eq!(
        merged_from(
            Some("u".to_string()),
            Some("b".to_string()),
            Ok("https://x/".to_string()),
            Some("k".to_string())
        ),
        Ok(MergedConfig {
            default_use_case: Some("u".to_string()),
            adaptive_base_url: "https://x/".to_string(),
            adaptive_api_key: Some("k".to_string()),
        })
    );
}

#[test]
fn first_of_prefers_the_first() {
    assert_eq!(first_of(Some("a".to_string()), Some("b".to_string())), Some("a".to_string()));
    assert_eq!(first_of(None, Some("b".to_string())), Some("b".to_string()));
    assert_eq!(first_of(Some("a".to_string()), None), Some("a".to_string()));
    assert_eq!(first_of(None, None), None);
}

#[test]
fn the_api_key_comes_from_the_environment_or_the_keyring() {
    let merged = MergedConfig {
        default_use_case: None,
        adaptive_base_url: "https://x/api/graphql".to_string(),
        adaptive_api_key: Some("env-key".to_string()),
    };
    assert!(!merged.needs_stored_key());
    assert_eq!(
        merged.with_api_key(Some("stored".to_string())),
        Some(Config {
            default_use_case: None,
            adaptive_base_url: "https://x/api/graphql".to_string(),
            adaptive_api_key: "env-key".to_string(),
        })
    );
    let merged = MergedConfig {
        default_use_case: None,
        adaptive_base_url: "https://x/api/graphql".to_string(),
        adaptive_api_key: None,
    };
    assert!(merged.needs_stored_key());
    assert_eq!(
        merged.clone().with_api_key(Some("stored".to_string())).unwrap().adaptive_api_key,
        "stored"
    );
    assert_eq!(merged.with_api_key(None), None);
}

#[test]
fn the_graphql_endpoint_is_joined_to_the_api_url() {
    assert_eq!(
        graphql_url("https://app.adaptive.ml/api/graphql"),
        Ok("https://app.adaptive.ml/api/graphql".to_string())
    );
    assert_eq!(
        graphql_url("https://app.adaptive.ml/api/"),
        Ok("https://app.adaptive.ml/api/graphql".to_string())
    );
    assert_eq!(graphql_url("nonsense"), Err("relative URL without a base".to_string()));
}

#[test]
fn rest_routes_are_joined_to_the_api_url() {
    let base = "https://app.adaptive.ml/api/graphql";
    assert_eq!(
        route_url(base, INIT_CHUNKED_UPLOAD_ROUTE),
        Ok("https://app.adaptive.ml/api/v1/upload/init".to_string())
    );
    assert_eq!(
        route_url(base, UPLOAD_PART_ROUTE),
        Ok("https://app.adaptive.ml/api/v1/upload/part".to_string())
    );
    assert_eq!(
        route_url(base, ABORT_CHUNKED_UPLOAD_ROUTE),
        Ok("https://app.adaptive.ml/api/v1/upload/abort".to_string())
    );
}

#[test]
fn the_init_request_is_for_a_jsonl_dataset() {
    let request = InitChunkedUploadRequest::for_dataset(3);
    assert_eq!(request.content_type, "application/jsonl");
    assert!(request.metadata.is_none());
    assert_eq!(request.total_parts_count, 3);
}

#[test]
fn the_abort_request_names_the_session() {
    assert_eq!(AbortChunkedUploadRequest::for_session("s-1").session_id, "s-1");
}

use image_resize::error::{Param, PipelineError};
use image_resize::format::OutputFormat;
use image_resize::params::{
    check_fields, lookup, resolve, resolve_fields, resolve_pairs, TransformRequest,
    DEFAULT_QUALITY, MAX_QUALITY,
};

fn pair(name: &str, value: &str) -> (String, String) {
    (name.to_string(), value.to_string())
}

#[test]
fn a_full_query_resolves() {
    let request = resolve(
        "src=https%3A%2F%2Fexample.com%2Fcat.png&w=200&q=75",
        Some("image/webp"),
    )
    .unwrap();
    assert_eq!(request.source_url(), "https://example.com/cat.png");
    assert_eq!(request.target_width(), 200);
    assert_eq!(request.quality(), 75);
    assert_eq!(request.format(), OutputFormat::WebP);
    assert_eq!(
        request.accepted_formats(),
        &vec![OutputFormat::WebP, OutputFormat::Jpeg]
    );
}

#[test]
fn quality_defaults_to_eighty() {
    let request = resolve("src=https://example.com/a.jpg&w=64", None).unwrap();
    assert_eq!(request.quality(), 80);
    assert_eq!(DEFAULT_QUALITY, 80);
    assert_eq!(request.format(), OutputFormat::Jpeg);
}

#[test]
fn missing_src_is_reported() {
    assert_eq!(
        resolve("w=200", None).unwrap_err(),
        PipelineError::MissingParameter(Param::Source)
    );
    assert_eq!(
        resolve("", None).unwrap_err(),
        PipelineError::MissingParameter(Param::Source)
    );
}

#[test]
fn missing_w_is_reported() {
    assert_eq!(
        resolve("src=https://example.com/a.png", None).unwrap_err(),
        PipelineError::MissingParameter(Param::Width)
    );
}

#[test]
fn unusable_w_is_reported() {
    for w in ["0", "abc", "-3", "", "1.5", "4294967296", "2 "] {
        let query = format!("src=https://example.com/a.png&w={}", w);
        assert_eq!(
            resolve(&query, None).unwrap_err(),
            PipelineError::InvalidParameter(Param::Width)
        );
    }
}

#[test]
fn quality_outside_its_range_is_refused_not_clamped() {
    for q in ["0", "101", "255", "256", "1000", "4294967296", "-5", "abc", ""] {
        let query = format!("src=https://example.com/a.png&w=10&q={}", q);
        assert_eq!(
            resolve(&query, None).unwrap_err(),
            PipelineError::InvalidParameter(Param::Quality)
        );
    }
}

#[test]
fn quality_at_the_ends_of_its_range_is_taken() {
    assert_eq!(
        resolve("src=https://example.com/a.png&w=10&q=1", None).unwrap().quality(),
        1
    );
    assert_eq!(
        resolve("src=https://example.com/a.png&w=10&q=100", None).unwrap().quality(),
        100
    );
    assert_eq!(MAX_QUALITY, 100);
}

#[test]
fn a_relative_src_is_refused() {
    for src in ["cat.png", "/images/cat.png", "//example.com/cat.png", "", "example.com/cat.png"] {
        let query = format!("src={}&w=10", src);
        assert_eq!(
            resolve(&query, None).unwrap_err(),
            PipelineError::InvalidParameter(Param::Source)
        );
    }
}

#[test]
fn checks_run_in_order() {
    assert_eq!(
        resolve("q=0", None).unwrap_err(),
        PipelineError::MissingParameter(Param::Source)
    );
    assert_eq!(
        resolve("src=nowhere&q=0", None).unwrap_err(),
        PipelineError::MissingParameter(Param::Width)
    );
    assert_eq!(
        resolve("src=nowhere&w=0&q=0", None).unwrap_err(),
        PipelineError::InvalidParameter(Param::Width)
    );
    assert_eq!(
        resolve("src=nowhere&w=1&q=0", None).unwrap_err(),
        PipelineError::InvalidParameter(Param::Quality)
    );
    assert_eq!(
        resolve("src=nowhere&w=1&q=1", None).unwrap_err(),
        PipelineError::InvalidParameter(Param::Source)
    );
}

#[test]
fn the_last_of_repeated_keys_counts() {
    let pairs = vec![pair("w", "1"), pair("src", "a"), pair("w", "2"), pair("W", "3")];
    assert_eq!(lookup(&pairs, "w"), Some(&"2".to_string()));
    assert_eq!(lookup(&pairs, "src"), Some(&"a".to_string()));
    assert_eq!(lookup(&pairs, "q"), None);
    assert_eq!(lookup(&Vec::new(), "w"), None);
    let request = resolve("src=https://a.example/x&w=10&w=20", None).unwrap();
    assert_eq!(request.target_width(), 20);
}

#[test]
fn queries_are_percent_decoded() {
    let request = resolve("w=5&src=https%3A%2F%2Fexample.com%2Fa+b.png%3Fx%3D1", None).unwrap();
    assert_eq!(request.source_url(), "https://example.com/a b.png?x=1");
}

#[test]
fn resolving_pairs_asks_whether_src_is_absolute() {
    let good = vec![pair("src", "https://example.com/a.png"), pair("w", "3")];
    assert_eq!(resolve_pairs(&good, None).unwrap().target_width(), 3);
    let bad = vec![pair("src", "a.png"), pair("w", "3")];
    assert_eq!(
        resolve_pairs(&bad, None).unwrap_err(),
        PipelineError::InvalidParameter(Param::Source)
    );
}

#[test]
fn fields_are_checked_against_a_given_answer() {
    let request = check_fields(Some("anything"), Some("3"), Some("9"), Some("image/avif"), true)
        .unwrap();
    assert_eq!(request.source_url(), "anything");
    assert_eq!(request.target_width(), 3);
    assert_eq!(request.quality(), 9);
    assert_eq!(request.format(), OutputFormat::Avif);
    assert_eq!(
        check_fields(Some("anything"), Some("3"), Some("9"), None, false).unwrap_err(),
        PipelineError::InvalidParameter(Param::Source)
    );
    assert_eq!(
        check_fields(None, None, None, None, true).unwrap_err(),
        PipelineError::MissingParameter(Param::Source)
    );
    assert_eq!(
        check_fields(Some("a"), None, Some("0"), None, true).unwrap_err(),
        PipelineError::MissingParameter(Param::Width)
    );
    assert_eq!(
        check_fields(Some("a"), Some("+4"), None, None, true).unwrap().quality(),
        80
    );
}

#[test]
fn fields_are_resolved_without_a_query() {
    let request = resolve_fields(Some("https://example.com/a.png"), Some("12"), Some("100"), None)
        .unwrap();
    assert_eq!(request.source_url(), "https://example.com/a.png");
    assert_eq!(request.target_width(), 12);
    assert_eq!(request.quality(), 100);
    assert_eq!(
        resolve_fields(Some("a.png"), Some("12"), None, None).unwrap_err(),
        PipelineError::InvalidParameter(Param::Source)
    );
    assert_eq!(
        resolve_fields(Some("https://example.com/a.png"), Some("12"), Some("101"), None)
            .unwrap_err(),
        PipelineError::InvalidParameter(Param::Quality)
    );
}

#[test]
fn requests_are_built_only_from_valid_parts() {
    let url = || "https://example.com/a.png".to_string();
    assert!(TransformRequest::new(url(), 1, 1, None).is_some());
    assert!(TransformRequest::new(url(), u32::MAX, 100, None).is_some());
    assert!(TransformRequest::new(url(), 0, 80, None).is_none());
    assert!(TransformRequest::new(url(), 10, 0, None).is_none());
    assert!(TransformRequest::new(url(), 10, 101, None).is_none());
    let request = TransformRequest::new(url(), 10, 80, Some("image/avif")).unwrap();
    assert_eq!(request.format(), OutputFormat::Avif);
    assert_eq!(request.source_url(), "https://example.com/a.png");
}

#[test]
fn parameter_names() {
    assert_eq!(Param::Source.name(), "src");
    assert_eq!(Param::Width.name(), "w");
    assert_eq!(Param::Quality.name(), "q");
}

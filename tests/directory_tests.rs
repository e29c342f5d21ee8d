use cctv_proxy::directory::{
    check_directory_reply, host_override, source_url, starts_with_markup, DirectoryAction,
    DirectoryBody, DirectoryCascade, DirectoryRejection, DirectorySource, FetchOutcome,
    DIRECTORY_STATUS, JSON_CONTENT_TYPE,
};
use cctv_proxy::status::{is_client_error, is_server_error, is_success};

fn answered(status: u16, body: &str) -> FetchOutcome {
    FetchOutcome::Answered { status, body: body.to_string() }
}

#[test]
fn primary_success_short_circuits() {
    let mut c = DirectoryCascade::new();
    assert_eq!(c.current_source(), Some(DirectorySource::PrimaryHost));
    assert_eq!(
        c.on_outcome(answered(200, "{\"records\":[1]}")),
        Some(DirectoryAction::Serve { body: DirectoryBody::Live("{\"records\":[1]}".to_string()) })
    );
    assert_eq!(c.current_source(), None);
    assert_eq!(c.on_outcome(answered(200, "[]")), None);
}

#[test]
fn fallback_ip_body_is_served_after_primary_failure() {
    let mut c = DirectoryCascade::new();
    assert_eq!(
        c.on_outcome(FetchOutcome::Unreachable),
        Some(DirectoryAction::Fetch { source: DirectorySource::FallbackIp })
    );
    assert_eq!(c.current_source(), Some(DirectorySource::FallbackIp));
    assert_eq!(
        c.on_outcome(answered(200, "{\"records\":[2]}")),
        Some(DirectoryAction::Serve { body: DirectoryBody::Live("{\"records\":[2]}".to_string()) })
    );
}

#[test]
fn both_sources_failing_serves_snapshot() {
    let mut c = DirectoryCascade::new();
    c.on_outcome(FetchOutcome::Unreachable);
    assert_eq!(
        c.on_outcome(FetchOutcome::Unreachable),
        Some(DirectoryAction::Serve { body: DirectoryBody::Snapshot })
    );
    assert_eq!(DIRECTORY_STATUS, 200);
    assert_eq!(JSON_CONTENT_TYPE, "application/json");
}

#[test]
fn html_with_status_200_is_a_failure() {
    let mut c = DirectoryCascade::new();
    assert_eq!(
        c.on_outcome(answered(200, "<html>login</html>")),
        Some(DirectoryAction::Fetch { source: DirectorySource::FallbackIp })
    );
    assert_eq!(
        c.on_outcome(answered(500, "{}")),
        Some(DirectoryAction::Serve { body: DirectoryBody::Snapshot })
    );
    assert_eq!(check_directory_reply(200, "<!DOCTYPE html>".to_string()), Err(DirectoryRejection::HtmlBody));
}

#[test]
fn reply_checks() {
    assert_eq!(check_directory_reply(200, "[]".to_string()), Ok("[]".to_string()));
    assert_eq!(check_directory_reply(204, "".to_string()), Ok("".to_string()));
    assert_eq!(
        check_directory_reply(404, "[]".to_string()),
        Err(DirectoryRejection::HttpStatus { status: 404 })
    );
    assert_eq!(
        check_directory_reply(301, "<a>".to_string()),
        Err(DirectoryRejection::HttpStatus { status: 301 })
    );
    assert!(starts_with_markup("<x"));
    assert!(!starts_with_markup(" <x"));
    assert!(!starts_with_markup(""));
}

#[test]
fn repeated_requests_serve_identical_payloads() {
    let run = || {
        let mut c = DirectoryCascade::new();
        let first = c.on_outcome(answered(502, "bad"));
        let second = c.on_outcome(answered(200, "{\"records\":[3,4]}"));
        (first, second)
    };
    assert_eq!(run(), run());
}

#[test]
fn source_urls_and_host_header() {
    assert_eq!(source_url(DirectorySource::PrimaryHost), "http://api.cctv.malangkota.go.id/records/cameras");
    assert_eq!(source_url(DirectorySource::FallbackIp), "http://36.94.95.188/records/cameras");
    assert_eq!(host_override(DirectorySource::PrimaryHost), None);
    assert_eq!(host_override(DirectorySource::FallbackIp), Some("api.cctv.malangkota.go.id"));
}

#[test]
fn status_ranges() {
    assert!(is_success(200) && is_success(299) && !is_success(300) && !is_success(199));
    assert!(is_client_error(400) && is_client_error(499) && !is_client_error(500));
    assert!(is_server_error(500) && is_server_error(599) && !is_server_error(600));
}

use cctv_proxy::stream::{
    cache_control_for, classify_upstream_status, content_type_for, has_suffix, relay_headers,
    stream_url, StreamAction, StreamEvent, StreamExchange, StreamPhase, StreamReply,
};

#[test]
fn playlist_cache_control_is_no_cache() {
    assert_eq!(cache_control_for("cam1/index.m3u8"), "no-cache, no-store, must-revalidate");
    let h = relay_headers("cam1/index.m3u8", Some("text/plain".to_string()));
    assert_eq!(h.cache_control, "no-cache, no-store, must-revalidate");
    assert_eq!(h.content_type, "text/plain");
}

#[test]
fn segment_cache_control_is_short() {
    assert_eq!(cache_control_for("cam1/seg-001.ts"), "public, max-age=2");
    assert_eq!(cache_control_for("cam1/other"), "public, max-age=2");
}

#[test]
fn segment_without_upstream_type_is_mp2t() {
    assert_eq!(content_type_for("cam1/seg-001.ts", None), "video/mp2t");
    let h = relay_headers("a/b/c.ts", None);
    assert_eq!(h.content_type, "video/mp2t");
    assert_eq!(h.cache_control, "public, max-age=2");
}

#[test]
fn playlist_without_upstream_type_is_mpegurl() {
    assert_eq!(content_type_for("live.m3u8", None), "application/vnd.apple.mpegurl");
}

#[test]
fn unknown_suffix_is_octet_stream() {
    assert_eq!(content_type_for("live.mp4", None), "application/octet-stream");
    assert_eq!(content_type_for("", None), "application/octet-stream");
}

#[test]
fn upstream_content_type_is_preferred() {
    assert_eq!(content_type_for("seg.ts", Some("video/custom".to_string())), "video/custom");
}

#[test]
fn suffix_matching() {
    assert!(has_suffix("abc.ts", ".ts"));
    assert!(!has_suffix("ts", ".ts"));
    assert!(has_suffix("x", ""));
    assert!(!has_suffix("a.m3u8x", ".m3u8"));
}

#[test]
fn stream_url_keeps_sub_paths() {
    assert_eq!(
        stream_url("cam7/sub/index.m3u8"),
        "https://cctv.malangkota.go.id/cctv-stream/cam7/sub/index.m3u8"
    );
}

#[test]
fn upstream_statuses_are_classified() {
    assert_eq!(classify_upstream_status(200), StreamReply::Relay);
    assert_eq!(classify_upstream_status(304), StreamReply::Relay);
    assert_eq!(classify_upstream_status(404), StreamReply::UpstreamError { status: 404 });
    assert_eq!(classify_upstream_status(503), StreamReply::UpstreamError { status: 503 });
}

#[test]
fn forbidden_twice_refreshes_once_and_retries_once() {
    let mut ex = StreamExchange::new();
    assert_eq!(ex.step(StreamEvent::Begin { now: 1_000, fetched_at: 0 }), Some(StreamAction::SendRequest));
    assert_eq!(ex.step(StreamEvent::UpstreamStatus { status: 403 }), Some(StreamAction::RefreshSession));
    assert_eq!(ex.step(StreamEvent::SessionRefreshed), Some(StreamAction::SendRequest));
    assert_eq!(
        ex.step(StreamEvent::UpstreamStatus { status: 403 }),
        Some(StreamAction::Respond { reply: StreamReply::UpstreamError { status: 403 } })
    );
    assert_eq!(ex.phase(), StreamPhase::Done);
    assert_eq!(ex.step(StreamEvent::UpstreamStatus { status: 403 }), None);
    assert_eq!(ex.step(StreamEvent::SessionRefreshed), None);
}

#[test]
fn forbidden_then_success_relays() {
    let mut ex = StreamExchange::new();
    ex.step(StreamEvent::Begin { now: 5, fetched_at: 5 });
    ex.step(StreamEvent::UpstreamStatus { status: 403 });
    ex.step(StreamEvent::SessionRefreshed);
    assert_eq!(
        ex.step(StreamEvent::UpstreamStatus { status: 200 }),
        Some(StreamAction::Respond { reply: StreamReply::Relay })
    );
}

#[test]
fn unreachable_upstream_is_bad_gateway_without_retry() {
    let mut ex = StreamExchange::new();
    ex.step(StreamEvent::Begin { now: 0, fetched_at: 0 });
    assert_eq!(
        ex.step(StreamEvent::UpstreamUnreachable),
        Some(StreamAction::Respond { reply: StreamReply::BadGateway })
    );
    assert_eq!(ex.step(StreamEvent::SessionRefreshed), None);
}

#[test]
fn retry_unreachable_is_bad_gateway() {
    let mut ex = StreamExchange::new();
    ex.step(StreamEvent::Begin { now: 0, fetched_at: 0 });
    ex.step(StreamEvent::UpstreamStatus { status: 403 });
    ex.step(StreamEvent::SessionRefreshed);
    assert_eq!(
        ex.step(StreamEvent::UpstreamUnreachable),
        Some(StreamAction::Respond { reply: StreamReply::BadGateway })
    );
}

#[test]
fn stale_session_is_refreshed_before_sending() {
    let mut ex = StreamExchange::new();
    assert_eq!(
        ex.step(StreamEvent::Begin { now: 7_201_000, fetched_at: 0 }),
        Some(StreamAction::RefreshSession)
    );
    assert_eq!(ex.phase(), StreamPhase::ProactiveRefresh);
    assert_eq!(ex.step(StreamEvent::UpstreamUnreachable), None);
    assert_eq!(ex.step(StreamEvent::SessionRefreshed), Some(StreamAction::SendRequest));
    assert_eq!(
        ex.step(StreamEvent::UpstreamStatus { status: 404 }),
        Some(StreamAction::Respond { reply: StreamReply::UpstreamError { status: 404 } })
    );
}

#[test]
fn fresh_session_is_not_refreshed() {
    let mut ex = StreamExchange::new();
    assert_eq!(
        ex.step(StreamEvent::Begin { now: 7_199_000, fetched_at: 0 }),
        Some(StreamAction::SendRequest)
    );
}

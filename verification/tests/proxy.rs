use lofi_atc_server::api::Header;
use lofi_atc_server::error::RelayError;
use lofi_atc_server::proxy::{
    fetch_policy, is_manifest_url, status_redirects, FetchPolicy, ProxySession, RelayBody, RelayStep,
    RelayedResponse, UpstreamReply, DEFAULT_CONTENT_TYPE, MANIFEST_CONTENT_TYPE, MAX_REDIRECTS,
};

fn redirect_to(location: &str) -> UpstreamReply {
    UpstreamReply::Answered {
        status: 302,
        location: Some(location.to_string()),
        content_type: None,
        content_length: None,
    }
}

fn answer(status: u16, content_type: Option<&str>, content_length: Option<u64>) -> UpstreamReply {
    UpstreamReply::Answered {
        status,
        location: None,
        content_type: content_type.map(|named| named.to_string()),
        content_length,
    }
}

fn pair(name: &str, value: &str) -> Header {
    Header { name: name.to_string(), value: value.to_string() }
}

#[test]
fn session_starts_at_the_target() {
    let session = ProxySession::new("http://origin/live");
    assert_eq!(session.current_url, "http://origin/live");
    assert_eq!(session.redirect_count, 0);
}

#[test]
fn request_url_is_repaired_before_each_fetch() {
    let mut session = ProxySession::new("https://origin:80/live");
    assert_eq!(session.request_url(), "http://origin:80/live");
    assert_eq!(session.current_url, "https://origin:80/live");
    assert_eq!(session.on_reply(redirect_to("https://mirror:80/live")), RelayStep::Follow);
    assert_eq!(session.request_url(), "http://mirror:80/live");
    assert_eq!(session.on_reply(redirect_to("https://mirror/live")), RelayStep::Follow);
    assert_eq!(session.request_url(), "https://mirror/live");
}

#[test]
fn redirection_moves_the_session() {
    let mut session = ProxySession::new("http://origin/a");
    assert_eq!(session.on_reply(redirect_to("http://origin/b")), RelayStep::Follow);
    assert_eq!(session.current_url, "http://origin/b");
    assert_eq!(session.redirect_count, 1);
}

#[test]
fn origin_that_always_redirects_fails_at_the_eleventh_redirection() {
    let mut session = ProxySession::new("http://origin/0");
    let mut fetches: u32 = 0;
    let last = loop {
        let _url = session.request_url();
        fetches += 1;
        let step = session.on_reply(redirect_to(&format!("http://origin/{}", fetches)));
        if step != RelayStep::Follow {
            break step;
        }
        assert!(fetches <= MAX_REDIRECTS);
    };
    assert_eq!(last, RelayStep::Fail(RelayError::TooManyRedirects));
    assert_eq!(fetches, 11);
    assert_eq!(session.redirect_count, 10);
    assert_eq!(session.current_url, "http://origin/10");
}

#[test]
fn chain_of_ten_redirections_is_followed_to_its_end() {
    let mut session = ProxySession::new("http://origin/0");
    for hop in 1..=10 {
        assert_eq!(
            session.on_reply(redirect_to(&format!("http://origin/{}", hop))),
            RelayStep::Follow
        );
    }
    let step = session.on_reply(answer(200, Some("audio/aac"), Some(42)));
    assert_eq!(
        step,
        RelayStep::Stream(RelayedResponse {
            content_type: "audio/aac".to_string(),
            content_length: Some(42),
            body: RelayBody::Stream,
        })
    );
    assert_eq!(session.current_url, "http://origin/10");
    assert_eq!(session.redirect_count, 10);
}

#[test]
fn redirection_without_location_is_invalid() {
    for status in [300, 301, 302, 303, 307, 308, 399] {
        let mut session = ProxySession::new("http://origin/a");
        assert_eq!(
            session.on_reply(answer(status, Some("text/html"), None)),
            RelayStep::Fail(RelayError::InvalidRedirect)
        );
        assert_eq!(session.current_url, "http://origin/a");
        assert_eq!(session.redirect_count, 0);
    }
}

#[test]
fn limit_is_judged_before_the_location() {
    let mut session = ProxySession { current_url: "http://origin/a".to_string(), redirect_count: 10 };
    assert_eq!(
        session.on_reply(answer(302, None, None)),
        RelayStep::Fail(RelayError::TooManyRedirects)
    );
    let mut session = ProxySession { current_url: "http://origin/a".to_string(), redirect_count: 9 };
    assert_eq!(session.on_reply(answer(302, None, None)), RelayStep::Fail(RelayError::InvalidRedirect));
}

#[test]
fn connection_failure_carries_the_transport_message() {
    let mut session = ProxySession::new("http://origin/a");
    assert_eq!(
        session.on_reply(UpstreamReply::Unreachable("connection refused".to_string())),
        RelayStep::Fail(RelayError::UpstreamConnectError("connection refused".to_string()))
    );
    assert_eq!(session.redirect_count, 0);
}

#[test]
fn binary_reply_passes_type_and_length_through() {
    let mut session = ProxySession::new("http://origin/seg.ts");
    assert_eq!(
        session.on_reply(answer(200, Some("video/mp2t"), Some(1880))),
        RelayStep::Stream(RelayedResponse {
            content_type: "video/mp2t".to_string(),
            content_length: Some(1880),
            body: RelayBody::Stream,
        })
    );
}

#[test]
fn binary_reply_without_type_gets_the_default() {
    let mut session = ProxySession::new("http://origin/live");
    assert_eq!(
        session.on_reply(answer(404, None, None)),
        RelayStep::Stream(RelayedResponse {
            content_type: "application/octet-stream".to_string(),
            content_length: None,
            body: RelayBody::Stream,
        })
    );
    assert_eq!(DEFAULT_CONTENT_TYPE, "application/octet-stream");
}

#[test]
fn playlist_reply_is_read_in_full() {
    let mut session = ProxySession::new("http://origin/live/stream.m3u8?token=1");
    assert_eq!(session.on_reply(answer(200, Some("text/plain"), Some(10))), RelayStep::ReadManifest);
    let mut session = ProxySession::new("http://origin/a");
    assert_eq!(session.on_reply(redirect_to("http://cdn/manifest/live")), RelayStep::Follow);
    assert_eq!(session.on_reply(answer(200, None, None)), RelayStep::ReadManifest);
}

#[test]
fn playlists_are_told_by_the_path() {
    assert!(is_manifest_url("http://origin/live/stream.m3u8"));
    assert!(is_manifest_url("http://origin/live/stream.m3u8?token=1"));
    assert!(is_manifest_url("http://origin/a.m3u8/seg.ts"));
    assert!(is_manifest_url("http://origin/manifest/video"));
    assert!(is_manifest_url("/manifest/"));
    assert!(!is_manifest_url("http://origin/manifest"));
    assert!(!is_manifest_url("http://origin/live/seg.ts"));
    assert!(!is_manifest_url("http://origin/live/seg.ts?list=a.m3u8"));
    assert!(!is_manifest_url("http://origin/live/seg.ts#/manifest/"));
    assert!(!is_manifest_url("http://a.m3u8/seg.ts"));
    assert!(!is_manifest_url("http://origin/a.M3U8"));
    assert!(!is_manifest_url(""));
}

#[test]
fn playlist_body_is_rewritten_against_the_current_url() {
    let mut session = ProxySession::new("http://origin/start");
    assert_eq!(session.on_reply(redirect_to("http://cdn/live/stream.m3u8")), RelayStep::Follow);
    let response = session.finish_manifest(Some("#EXTM3U\nseg0.ts\n")).unwrap();
    assert_eq!(response.content_type, "application/vnd.apple.mpegurl");
    assert_eq!(response.content_type, MANIFEST_CONTENT_TYPE);
    assert_eq!(response.content_length, None);
    assert_eq!(
        response.body,
        RelayBody::Text(
            "#EXTM3U\nhttp://localhost:3000/api/proxy/stream?url=http%3A%2F%2Fcdn%2Flive%2Fseg0.ts\n"
                .to_string()
        )
    );
}

#[test]
fn unreadable_playlist_fails_the_relay() {
    let session = ProxySession::new("http://origin/stream.m3u8");
    assert_eq!(session.finish_manifest(None), Err(RelayError::ManifestReadError));
}

#[test]
fn redirection_statuses_are_300_to_399() {
    assert!(!status_redirects(0));
    assert!(!status_redirects(299));
    assert!(status_redirects(300));
    assert!(status_redirects(399));
    assert!(!status_redirects(400));
    assert!(!status_redirects(u16::MAX));
}

#[test]
fn playlist_response_disables_caching_and_allows_any_origin() {
    let response = RelayedResponse {
        content_type: "application/vnd.apple.mpegurl".to_string(),
        content_length: None,
        body: RelayBody::Text(String::new()),
    };
    assert_eq!(
        response.headers(),
        vec![
            pair("content-type", "application/vnd.apple.mpegurl"),
            pair("cache-control", "no-cache"),
            pair("access-control-allow-origin", "*"),
        ]
    );
}

#[test]
fn streamed_response_also_exposes_its_headers() {
    let response = RelayedResponse {
        content_type: "audio/aac".to_string(),
        content_length: Some(7),
        body: RelayBody::Stream,
    };
    assert_eq!(
        response.headers(),
        vec![
            pair("content-type", "audio/aac"),
            pair("cache-control", "no-cache"),
            pair("access-control-allow-origin", "*"),
            pair("access-control-expose-headers", "*"),
            pair("content-length", "7"),
        ]
    );
}

#[test]
fn streamed_response_without_length_names_none() {
    let response = RelayedResponse {
        content_type: "audio/aac".to_string(),
        content_length: None,
        body: RelayBody::Stream,
    };
    assert_eq!(response.headers().len(), 4);
}

#[test]
fn content_length_is_written_in_decimal() {
    for length in [0u64, 9, 10, 1880, 4294967296, u64::MAX] {
        let response = RelayedResponse {
            content_type: "video/mp2t".to_string(),
            content_length: Some(length),
            body: RelayBody::Stream,
        };
        assert_eq!(response.headers()[4], pair("content-length", &length.to_string()));
    }
}

#[test]
fn upstream_is_asked_without_transport_redirects() {
    assert_eq!(
        fetch_policy(),
        FetchPolicy {
            accept_invalid_certificates: true,
            follow_redirects: false,
            connect_timeout_seconds: 10,
            idle_timeout_seconds: None,
        }
    );
}

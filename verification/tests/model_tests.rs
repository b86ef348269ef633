use wreq_core::cookie::{Cookie, SameSite};
use wreq_core::errors::{CoreError, EngineErrorKind};
use wreq_core::extractor::{Extractor, ExtractorName};
use wreq_core::header::Headers;
use wreq_core::http::{Method, StatusCode, Version};
use wreq_core::resp::Response;
use wreq_core::body::ReadPlan;

#[test]
fn status_code_ranges() {
    let ok = StatusCode::from_u16(204).unwrap();
    assert_eq!(ok.as_int(), 204);
    assert!(ok.is_success());
    assert!(!ok.is_informational());
    assert!(StatusCode::from_u16(100).unwrap().is_informational());
    assert!(StatusCode::from_u16(301).unwrap().is_redirection());
    assert!(StatusCode::from_u16(404).unwrap().is_client_error());
    assert!(StatusCode::from_u16(503).unwrap().is_server_error());
    assert!(StatusCode::from_u16(99).is_none());
    assert!(StatusCode::from_u16(1000).is_none());
}

#[test]
fn version_and_method_names() {
    assert_eq!(Version::Http11.as_str(), "HTTP/1.1");
    assert_eq!(Version::Http2.as_str(), "HTTP/2.0");
    assert_eq!(Method::Get.as_str(), "GET");
    assert_eq!(Method::Patch.as_str(), "PATCH");
}

#[test]
fn cookie_attributes_round_trip() {
    let mut c = Cookie::new(String::from("sid"), String::from("abc123"));
    assert_eq!(c.name(), "sid");
    assert_eq!(c.value(), "abc123");
    assert!(!c.http_only());
    assert!(!c.secure());
    assert!(!c.same_site_lax());
    assert!(!c.same_site_strict());
    assert_eq!(c.path(), None);
    assert_eq!(c.domain(), None);
    assert_eq!(c.max_age(), None);

    c.set_domain(String::from("example.test"));
    c.set_path(String::from("/"));
    c.set_max_age(3600);
    c.set_http_only(Some(true));
    c.set_secure(Some(false));
    c.set_same_site(SameSite::Lax);

    assert_eq!(c.domain(), Some("example.test"));
    assert_eq!(c.path(), Some("/"));
    assert_eq!(c.max_age(), Some(3600));
    assert!(c.http_only());
    assert!(!c.secure());
    assert!(c.same_site_lax());
    assert!(!c.same_site_strict());

    c.set_same_site(SameSite::Strict);
    assert!(c.same_site_strict());
    c.set_same_site(SameSite::Empty);
    assert!(!c.same_site_lax() && !c.same_site_strict());
}

#[test]
fn extractor_hands_back_what_it_found() {
    let found: Extractor<Version> = Extractor::found(Version::Http3);
    assert_eq!(found.into_inner(), Some(Version::Http3));
    let absent: Extractor<Version> = Extractor::absent();
    assert_eq!(absent.into_inner(), None);
    assert_eq!(<Version as ExtractorName>::extractor_name(), "version");
}

#[test]
fn error_messages_name_each_failure() {
    assert_eq!(CoreError::Interrupted.message(), "operation interrupted");
    assert_eq!(CoreError::ChannelClosed.message(), "channel is closed");
    assert_eq!(
        CoreError::StreamAlreadyConsumed.message(),
        "stream already consumed"
    );
    assert_eq!(CoreError::BorrowConflict.message(), "body is currently borrowed");
    assert_eq!(CoreError::SyncPoisoned.message(), "internal lock poisoned");
    assert_eq!(
        CoreError::Upstream(String::from("tls handshake failed")).message(),
        "tls handshake failed"
    );
}

#[test]
fn engine_error_kinds_map_to_their_exception_classes() {
    assert_eq!(EngineErrorKind::Builder.exception_name(), "BuilderError");
    assert_eq!(EngineErrorKind::Body.exception_name(), "BodyError");
    assert_eq!(EngineErrorKind::Tls.exception_name(), "TlsError");
    assert_eq!(
        EngineErrorKind::ConnectionReset.exception_name(),
        "ConnectionResetError"
    );
    assert_eq!(EngineErrorKind::Connect.exception_name(), "ConnectionError");
    assert_eq!(EngineErrorKind::Decode.exception_name(), "DecodingError");
    assert_eq!(EngineErrorKind::Redirect.exception_name(), "RedirectError");
    assert_eq!(EngineErrorKind::Timeout.exception_name(), "TimeoutError");
    assert_eq!(EngineErrorKind::Status.exception_name(), "StatusError");
    assert_eq!(EngineErrorKind::Request.exception_name(), "RequestError");
    assert_eq!(EngineErrorKind::Other.exception_name(), "RuntimeError");
}

fn sample_response() -> Response {
    let mut headers = Headers::new();
    assert!(headers.set("Content-Type", "text/plain").is_ok());
    Response::new(
        StatusCode::from_u16(200).unwrap(),
        Version::Http2,
        String::from("https://example.test/data"),
        Some(7),
        headers,
        Some(String::from("127.0.0.1:50514")),
        Some(String::from("93.184.216.34:443")),
    )
}

#[test]
fn response_exposes_its_parts() {
    let resp = sample_response();
    assert_eq!(resp.code(), 200);
    assert!(resp.status().is_success());
    assert_eq!(resp.version(), Version::Http2);
    assert_eq!(resp.url(), "https://example.test/data");
    assert_eq!(resp.content_length(), Some(7));
    assert_eq!(
        resp.headers().get("content-type"),
        Some(String::from("text/plain"))
    );
    assert_eq!(resp.local_addr(), Some("127.0.0.1:50514"));
    assert_eq!(resp.remote_addr(), Some("93.184.216.34:443"));
}

#[test]
fn response_body_buffers_once_and_rereads_from_memory() {
    let mut resp = sample_response();
    let mut drains = 0;
    for _ in 0..3 {
        match resp.begin_read(false) {
            Ok(ReadPlan::Buffer) => {
                drains += 1;
                let copy = resp.finish_buffer(b"payload".to_vec());
                assert_eq!(copy.as_ref(), b"payload");
            }
            Ok(ReadPlan::FromBuffer(bytes)) => assert_eq!(bytes.as_ref(), b"payload"),
            other => panic!("unexpected outcome {:?}", other),
        }
    }
    // The network was touched exactly once: rereads came from memory.
    assert_eq!(drains, 1);
    assert_eq!(resp.buffered_body(), Some(b"payload".to_vec()));
}

#[test]
fn response_close_consumes_the_body_but_keeps_the_parts() {
    let mut resp = sample_response();
    resp.close();
    assert!(matches!(
        resp.begin_read(false),
        Err(CoreError::StreamAlreadyConsumed)
    ));
    assert_eq!(resp.code(), 200);
    assert_eq!(resp.buffered_body(), None);
}

#[test]
fn response_streaming_is_single_shot() {
    let mut resp = sample_response();
    assert!(matches!(resp.begin_read(true), Ok(ReadPlan::StreamOut)));
    assert!(matches!(
        resp.begin_read(true),
        Err(CoreError::StreamAlreadyConsumed)
    ));
}

use quic_h3_emscripten::http3::{
    bytes_equal_str, finish_response, get_request_headers, on_events_ended, on_h3_event,
    parse_status, request_uri, scan_response_headers, server_header_text, EventAction, H3Event,
    HeaderField, ResponseFailure, ResponseHead, USER_AGENT,
};
use quic_h3_emscripten::preview::BodyPreview;

fn hf(name: &str, value: &[u8]) -> HeaderField {
    HeaderField { name: name.as_bytes().to_vec(), value: value.to_vec() }
}

#[test]
fn uri_is_https_root_of_host() {
    assert_eq!(request_uri("cloudflare-quic.com"), "https://cloudflare-quic.com/");
    assert_eq!(request_uri(""), "https:///");
}

#[test]
fn get_headers_in_order() {
    let h = get_request_headers("cloudflare-quic.com");
    let pairs: Vec<(Vec<u8>, Vec<u8>)> = h.into_iter().map(|f| (f.name, f.value)).collect();
    assert_eq!(
        pairs,
        vec![
            (b":method".to_vec(), b"GET".to_vec()),
            (b":scheme".to_vec(), b"https".to_vec()),
            (b":authority".to_vec(), b"cloudflare-quic.com".to_vec()),
            (b":path".to_vec(), b"/".to_vec()),
            (b"user-agent".to_vec(), b"rust-workers-quic/0.1".to_vec()),
        ]
    );
    assert_eq!(USER_AGENT, "rust-workers-quic/0.1");
}

#[test]
fn status_parses_decimal() {
    assert_eq!(parse_status(b"200"), 200);
    assert_eq!(parse_status(b"+404"), 404);
    assert_eq!(parse_status(b"-7"), -7);
    assert_eq!(parse_status(b"2147483647"), 2147483647);
    assert_eq!(parse_status(b"-2147483648"), -2147483648);
}

#[test]
fn status_that_is_not_a_number_is_zero() {
    assert_eq!(parse_status(b""), 0);
    assert_eq!(parse_status(b"+"), 0);
    assert_eq!(parse_status(b"20 0"), 0);
    assert_eq!(parse_status(b"2147483648"), 0);
    assert_eq!(parse_status(b"\xff200"), 0);
    assert_eq!(parse_status("２００".as_bytes()), 0);
}

#[test]
fn scan_finds_status_and_server() {
    let fields = vec![hf(":status", b"200"), hf("content-type", b"text/html"), hf("server", b"cloudflare")];
    let head = scan_response_headers(&fields);
    assert_eq!(head.status, 200);
    assert_eq!(head.server, "cloudflare");
}

#[test]
fn scan_last_field_wins_and_defaults() {
    let fields = vec![hf("server", b"a"), hf(":status", b"301"), hf("server", b"b\xff"), hf(":status", b"204")];
    let head = scan_response_headers(&fields);
    assert_eq!(head.status, 204);
    assert_eq!(head.server, "b\u{fffd}");
    let empty = scan_response_headers(&[]);
    assert_eq!(empty.status, 0);
    assert_eq!(empty.server, "");
}

#[test]
fn names_match_exactly() {
    assert!(bytes_equal_str(b":status", ":status"));
    assert!(!bytes_equal_str(b":Status", ":status"));
    assert!(!bytes_equal_str(b":status ", ":status"));
}

#[test]
fn server_header_text_reads_visible_ascii() {
    assert_eq!(server_header_text(Some(b"cloudflare")), "cloudflare");
    assert_eq!(server_header_text(Some(b"a\tb")), "a\tb");
    assert_eq!(server_header_text(Some(b"caf\xc3\xa9")), "");
    assert_eq!(server_header_text(None), "");
    assert_eq!(server_header_text(Some(b"a\x00b")), "");
    assert_eq!(server_header_text(Some(b"a\x7fb")), "");
    assert_eq!(server_header_text(Some(b"a\nb")), "");
}

#[test]
fn events_decide_the_wait() {
    match on_h3_event(H3Event::IncomingHeaders(vec![hf(":status", b"200"), hf("server", b"cf")])) {
        EventAction::ReadBody(head) => {
            assert_eq!(head.status, 200);
            assert_eq!(head.server, "cf");
        }
        _ => panic!("headers must start the body"),
    }
    assert!(matches!(on_h3_event(H3Event::ConnectionError), EventAction::Fail(ResponseFailure::ConnectionError)));
    assert!(matches!(on_h3_event(H3Event::ConnectionShutdown), EventAction::Fail(ResponseFailure::ConnectionShutdown)));
    assert!(matches!(on_h3_event(H3Event::Other), EventAction::KeepWaiting));
    assert_eq!(on_events_ended(), ResponseFailure::DriverStopped);
}

#[test]
fn response_without_status_fails() {
    let body = BodyPreview::new();
    let r = finish_response(ResponseHead { status: 0, server: String::new() }, &body);
    assert_eq!(r.err(), Some(ResponseFailure::NoStatus));
}

#[test]
fn response_summary() {
    let mut body = BodyPreview::new();
    body.push_chunk(b"<!DOCTYPE html>\n<html>");
    let s = finish_response(ResponseHead { status: 200, server: "cloudflare".to_string() }, &body).ok().unwrap();
    assert_eq!(s.status, 200);
    assert_eq!(s.server, "cloudflare");
    assert_eq!(s.body_len, 22);
    assert_eq!(s.preview, "<!DOCTYPE html>");
}

//! The HTTP/3 exchange: the GET request that is sent, and what is read back
//! from the response headers and events.

use vstd::prelude::*;
use vstd::slice::slice_to_vec;
use vstd::string::StringSliceAdditionalSpecFns;
use vstd::utf8::{decode_utf8, valid_utf8};
use crate::preview::BodyPreview;
use crate::text::{
    decode_utf8_lossy, decode_utf8_strict, parse_i32, spec_parse_i32, spec_preview, utf8_lossy,
};

verus! {

/// The user agent the client announces.
pub const USER_AGENT: &'static str = "rust-workers-quic/0.1";

/// One header field: its name and value bytes.
pub struct HeaderField {
    pub name: Vec<u8>,
    pub value: Vec<u8>,
}

/// The UTF-8 bytes of a string.
pub open spec fn bytes_of(s: &str) -> Seq<u8> {
    s.spec_bytes()
}

/// A header field that is `name` with `value`.
pub open spec fn field_is(f: HeaderField, name: &str, value: Seq<u8>) -> bool {
    f.name@ == bytes_of(name) && f.value@ == value
}

/// Whether `bytes` are the UTF-8 bytes of `lit`.
pub fn bytes_equal_str(bytes: &[u8], lit: &str) -> (r: bool)
    ensures
        r == (bytes@ == bytes_of(lit)),
{
    let b = lit.as_bytes();
    if bytes.len() != b.len() {
        return false;
    }
    let mut i: usize = 0;
    while i < b.len()
        invariant
            i <= b@.len(),
            bytes@.len() == b@.len(),
            b@ == bytes_of(lit),
            forall|j: int| 0 <= j < i ==> bytes@[j] == b@[j],
        decreases b@.len() - i,
    {
        if bytes[i] != b[i] {
            return false;
        }
        i = i + 1;
    }
    assert(bytes@ =~= b@);
    true
}

/// A header field made of a name and a value.
fn field(name: &str, value: &[u8]) -> (r: HeaderField)
    ensures
        field_is(r, name, value@),
{
    HeaderField { name: slice_to_vec(name.as_bytes()), value: slice_to_vec(value) }
}

/// The request target of the GET: the root of `host` over HTTPS.
pub fn request_uri(host: &str) -> (r: String)
    ensures
        r@ == "https://"@ + host@ + "/"@,
{
    let mut uri = String::from_str("https://");
    uri.append(host);
    uri.append("/");
    uri
}

/// The header fields of the GET of `host`'s root: method, scheme,
/// authority, path, then the user agent.
pub fn get_request_headers(host: &str) -> (r: Vec<HeaderField>)
    ensures
        r@.len() == 5,
        field_is(r@[0], ":method", bytes_of("GET")),
        field_is(r@[1], ":scheme", bytes_of("https")),
        field_is(r@[2], ":authority", bytes_of(host)),
        field_is(r@[3], ":path", bytes_of("/")),
        field_is(r@[4], "user-agent", bytes_of(USER_AGENT)),
{
    let mut v: Vec<HeaderField> = Vec::new();
    v.push(field(":method", "GET".as_bytes()));
    v.push(field(":scheme", "https".as_bytes()));
    v.push(field(":authority", host.as_bytes()));
    v.push(field(":path", "/".as_bytes()));
    v.push(field("user-agent", USER_AGENT.as_bytes()));
    v
}

/// The status a `:status` value gives: its decimal number when it is UTF-8
/// and parses as an `i32`, otherwise 0.
pub open spec fn spec_parse_status(value: Seq<u8>) -> i32 {
    if valid_utf8(value) {
        match spec_parse_i32(decode_utf8(value)) {
            Some(n) => n,
            None => 0,
        }
    } else {
        0
    }
}

/// Reads the status out of a `:status` value; 0 when it is not a number.
pub fn parse_status(value: &[u8]) -> (r: i32)
    ensures
        r == spec_parse_status(value@),
{
    match decode_utf8_strict(value) {
        Some(text) => match parse_i32(text.as_str()) {
            Some(n) => n,
            None => 0,
        },
        None => 0,
    }
}

/// The status and server that response header fields give: each
/// `:status` field sets the status and each `server` field sets the server
/// (decoded with invalid UTF-8 replaced), so the last of each counts; the
/// status is 0 and the server empty when their field is missing.
pub open spec fn spec_scan_headers(fields: Seq<HeaderField>) -> (i32, Seq<char>)
    decreases fields.len(),
{
    if fields.len() == 0 {
        (0, Seq::empty())
    } else {
        let prev = spec_scan_headers(fields.drop_last());
        let f = fields.last();
        if f.name@ == bytes_of(":status") {
            (spec_parse_status(f.value@), prev.1)
        } else if f.name@ == bytes_of("server") {
            (prev.0, utf8_lossy(f.value@))
        } else {
            prev
        }
    }
}

/// What the response headers say: the status (0 when missing) and the
/// server (empty when missing).
pub struct ResponseHead {
    pub status: i32,
    pub server: String,
}

/// Scans response header fields for the status and the server.
pub fn scan_response_headers(fields: &[HeaderField]) -> (r: ResponseHead)
    ensures
        (r.status, r.server@) == spec_scan_headers(fields@),
{
    let mut status: i32 = 0;
    let mut server = String::new();
    let mut i: usize = 0;
    while i < fields.len()
        invariant
            i <= fields@.len(),
            (status, server@) == spec_scan_headers(fields@.take(i as int)),
        decreases fields@.len() - i,
    {
        let f = &fields[i];
        assert(fields@.take(i + 1).drop_last() =~= fields@.take(i as int));
        if bytes_equal_str(f.name.as_slice(), ":status") {
            status = parse_status(f.value.as_slice());
        } else if bytes_equal_str(f.name.as_slice(), "server") {
            server = decode_utf8_lossy(f.value.as_slice());
        }
        i = i + 1;
    }
    assert(fields@.take(fields@.len() as int) =~= fields@);
    ResponseHead { status, server }
}

/// Whether a byte is visible ASCII or a tab.
pub open spec fn is_visible_ascii(b: u8) -> bool {
    (b >= 32 && b < 127) || b == 9
}

/// Calls `http::HeaderValue::from_bytes` and `HeaderValue::to_str`: a string
/// comes out exactly when every byte is visible ASCII or a tab, and it is
/// then those bytes as characters. (`from_bytes` refuses only bytes that
/// are not header-value bytes, and those are not visible ASCII either.)
#[verifier::external_body]
fn header_value_to_str(value: &[u8]) -> (r: Option<String>)
    ensures
        r is Some <==> forall|i: int| 0 <= i < value@.len() ==> is_visible_ascii(
            #[trigger] value@[i],
        ),
        r matches Some(s) ==> s@ == value@.map_values(|b: u8| b as char),
{
    match http::HeaderValue::from_bytes(value) {
        Ok(v) => match v.to_str() {
            Ok(s) => Some(s.to_owned()),
            Err(_) => None,
        },
        Err(_) => None,
    }
}

/// The server name as the `server` header value reads as text: empty when
/// there is no such header or its value is not visible ASCII.
pub open spec fn spec_server_text(value: Option<Seq<u8>>) -> Seq<char> {
    match value {
        Some(v) => if forall|i: int| 0 <= i < v.len() ==> is_visible_ascii(#[trigger] v[i]) {
            v.map_values(|b: u8| b as char)
        } else {
            Seq::empty()
        },
        None => Seq::empty(),
    }
}

/// The text of the `server` header, given its value if the response has
/// one: the value when it is visible ASCII, otherwise empty.
pub fn server_header_text(value: Option<&[u8]>) -> (r: String)
    ensures
        r@ == spec_server_text(
            match value {
                Some(v) => Some(v@),
                None => None,
            },
        ),
{
    match value {
        Some(v) => match header_value_to_str(v) {
            Some(s) => s,
            None => String::new(),
        },
        None => String::new(),
    }
}

/// An event of the HTTP/3 driver, as far as reading the response goes.
pub enum H3Event {
    /// The response headers arrived.
    IncomingHeaders(Vec<HeaderField>),
    /// The connection failed.
    ConnectionError,
    /// The connection was shut down.
    ConnectionShutdown,
    /// Anything else.
    Other,
}

/// Why no response could be read.
#[derive(Clone, Copy, Debug, PartialEq, Eq, Structural)]
pub enum ResponseFailure {
    /// The connection failed.
    ConnectionError,
    /// The connection was shut down.
    ConnectionShutdown,
    /// The driver stopped before the response arrived.
    DriverStopped,
    /// The response had no HTTP status.
    NoStatus,
}

/// What to do after an HTTP/3 event.
pub enum EventAction {
    /// Read the response body; the headers said this.
    ReadBody(ResponseHead),
    /// Give up with this failure.
    Fail(ResponseFailure),
    /// Wait for the next event.
    KeepWaiting,
}

/// Decides what an HTTP/3 event means while the response is awaited:
/// headers start the body, connection errors and shutdowns end the wait,
/// anything else is skipped.
pub fn on_h3_event(event: H3Event) -> (r: EventAction)
    ensures
        event matches H3Event::IncomingHeaders(fields) ==> (r matches EventAction::ReadBody(head)
            && (head.status, head.server@) == spec_scan_headers(fields@)),
        event is ConnectionError ==> (r matches EventAction::Fail(f) && f
            == ResponseFailure::ConnectionError),
        event is ConnectionShutdown ==> (r matches EventAction::Fail(f) && f
            == ResponseFailure::ConnectionShutdown),
        event is Other ==> r is KeepWaiting,
{
    match event {
        H3Event::IncomingHeaders(fields) => EventAction::ReadBody(
            scan_response_headers(fields.as_slice()),
        ),
        H3Event::ConnectionError => EventAction::Fail(ResponseFailure::ConnectionError),
        H3Event::ConnectionShutdown => EventAction::Fail(ResponseFailure::ConnectionShutdown),
        H3Event::Other => EventAction::KeepWaiting,
    }
}

/// The failure when the driver's events end before the response arrived.
pub fn on_events_ended() -> (r: ResponseFailure)
    ensures
        r == ResponseFailure::DriverStopped,
{
    ResponseFailure::DriverStopped
}

/// What was read of the response.
pub struct ResponseSummary {
    pub status: i32,
    pub server: String,
    pub body_len: usize,
    pub preview: String,
}

/// Completes the response from its head and body: a response without a
/// status (0) is a failure, otherwise its status, server, body length and
/// preview.
pub fn finish_response(head: ResponseHead, body: &BodyPreview) -> (r: Result<
    ResponseSummary,
    ResponseFailure,
>)
    ensures
        head.status == 0 ==> (r matches Err(f) && f == ResponseFailure::NoStatus),
        head.status != 0 ==> (r matches Ok(s) && s.status == head.status && s.server@
            == head.server@ && s.body_len == body@.body_len && s.preview@ == spec_preview(
            body@.first_bytes,
        )),
{
    if head.status == 0 {
        return Err(ResponseFailure::NoStatus);
    }
    let preview = body.preview();
    Ok(ResponseSummary {
        status: head.status,
        server: head.server,
        body_len: body.body_len(),
        preview,
    })
}

/// A header value made only of visible ASCII and tabs (space included) reads
/// as exactly those bytes as characters; a value with any other byte, or
/// no value, reads as empty text.
pub proof fn lemma_server_text_is_the_visible_value(v: Seq<u8>)
    ensures
        (forall|i: int| 0 <= i < v.len() ==> ((32u8 <= #[trigger] v[i] && v[i] < 127u8) || v[i]
            == 9u8)) ==> spec_server_text(Some(v)) == Seq::new(v.len(), |i: int| v[i] as char),
        (exists|i: int| 0 <= i < v.len() && !((32u8 <= #[trigger] v[i] && v[i] < 127u8) || v[i]
            == 9u8)) ==> spec_server_text(Some(v)) == Seq::<char>::empty(),
        spec_server_text(None) == Seq::<char>::empty(),
{
    if forall|i: int| 0 <= i < v.len() ==> ((32u8 <= #[trigger] v[i] && v[i] < 127u8) || v[i]
        == 9u8) {
        assert(spec_server_text(Some(v)) =~= Seq::new(v.len(), |i: int| v[i] as char));
    }
}

/// The bytes of the header name `server`.
pub open spec fn server_name() -> Seq<u8> {
    seq![115u8, 101u8, 114u8, 118u8, 101u8, 114u8]
}

/// The bytes of the header name `:status`.
pub open spec fn status_name() -> Seq<u8> {
    seq![58u8, 115u8, 116u8, 97u8, 116u8, 117u8, 115u8]
}

/// Scanning one more header field: a field named exactly `:status` sets the
/// status to its value's number and keeps the server; a field named exactly
/// `server` sets the server to its value's text and keeps the status; a
/// field with any other name, `server-timing` for one, changes nothing.
pub proof fn lemma_scan_one_more_field(fields: Seq<HeaderField>, f: HeaderField)
    ensures
        f.name@ == status_name() ==> spec_scan_headers(fields.push(f)) == (
            spec_parse_status(f.value@),
            spec_scan_headers(fields).1,
        ),
        f.name@ == server_name() ==> spec_scan_headers(fields.push(f)) == (
            spec_scan_headers(fields).0,
            utf8_lossy(f.value@),
        ),
        f.name@ != status_name() && f.name@ != server_name() ==> spec_scan_headers(fields.push(f))
            == spec_scan_headers(fields),
{
    broadcast use vstd::string::is_ascii_spec_bytes;

    reveal_strlit("server");
    reveal_strlit(":status");
    assert(vstd::string::is_ascii("server"));
    assert(vstd::string::is_ascii(":status"));
    assert(bytes_of("server") =~= server_name());
    assert(bytes_of(":status") =~= status_name());
    assert(fields.push(f).drop_last() =~= fields);
}

} // verus!

use shape_stream::response::{Error, Response};
use shape_stream::stream::{Mode, ShapeStream};

fn resp(status: u16, headers: &[(&str, &str)], body: &str) -> Response {
    Response {
        status,
        headers: headers.iter().map(|(n, v)| (n.to_string(), v.to_string())).collect(),
        body: body.to_string(),
    }
}

fn live_stream(offset: &str, handle: &str, cursor: Option<&str>) -> ShapeStream {
    ShapeStream {
        mode: Mode::Live {
            offset: offset.to_string(),
            handle: handle.to_string(),
            cursor: cursor.map(|c| c.to_string()),
        },
        host: "http://localhost:3000".to_string(),
        table: "users".to_string(),
    }
}

#[test]
fn first_request_uses_sentinel_offset() {
    let s = ShapeStream::new("http://localhost:3000", "users", None);
    assert_eq!(s.get_offset(), "-1");
    assert_eq!(s.get_handle(), None);
    assert_eq!(s.get_cursor(), None);
    assert_eq!(s.get_url(), "http://localhost:3000/v1/shape?table=users&offset=-1");
}

#[test]
fn seeded_offset_is_used_verbatim() {
    let s = ShapeStream::new("http://localhost:3000", "users", Some("42_7"));
    assert_eq!(s.get_offset(), "42_7");
    assert_eq!(s.get_url(), "http://localhost:3000/v1/shape?table=users&offset=42_7");
}

// The P6 scenario end to end: sentinel first request, a catch-up response
// without the up-to-date signal, then the flagged response that enters the
// tailing phase; the accumulated unit concatenates both bodies.
#[test]
fn catch_up_two_responses_then_up_to_date() {
    let mut s = ShapeStream::new("http://localhost:3000", "users", None);
    let mut acc = String::new();

    let r1 = resp(200, &[("electric-offset", "10"), ("electric-handle", "h1")], "A");
    let step1 = s.initial_sync_step(&r1, &mut acc).unwrap();
    assert!(!step1);
    assert!(matches!(s.mode, Mode::InitialSync { .. }));
    assert_eq!(
        s.get_url(),
        "http://localhost:3000/v1/shape?table=users&offset=10&handle=h1"
    );

    let r2 = resp(
        200,
        &[
            ("electric-offset", "20"),
            ("electric-handle", "h1"),
            ("electric-up-to-date", ""),
        ],
        "B",
    );
    let step2 = s.initial_sync_step(&r2, &mut acc).unwrap();
    assert!(step2);
    assert_eq!(acc, "A\nB\n");
    match &s.mode {
        Mode::Live { offset, handle, cursor } => {
            assert_eq!(offset, "20");
            assert_eq!(handle, "h1");
            assert_eq!(*cursor, None);
        }
        Mode::InitialSync { .. } => panic!("catch-up did not enter the tailing phase"),
    }
}

// Without the up-to-date signal the phase persists, and a response that
// omits a header leaves the previously observed token in place.
#[test]
fn catch_up_without_signal_keeps_phase_and_merges_tokens() {
    let mut s = ShapeStream::new("http://localhost:3000", "users", None);
    let mut acc = String::new();

    let r1 = resp(200, &[("electric-offset", "10"), ("electric-handle", "h1")], "A");
    assert!(!s.initial_sync_step(&r1, &mut acc).unwrap());

    // no handle header: the handle from the previous response is kept
    let r2 = resp(200, &[("electric-offset", "15")], "B");
    assert!(!s.initial_sync_step(&r2, &mut acc).unwrap());
    assert!(matches!(s.mode, Mode::InitialSync { .. }));
    assert_eq!(s.get_offset(), "15");
    assert_eq!(s.get_handle(), Some("h1".to_string()));
    assert_eq!(acc, "A\nB\n");
}

// Entering the tailing phase needs both tokens in the triggering response:
// a missing handle is a protocol violation and leaves the state untouched.
#[test]
fn up_to_date_without_handle_is_protocol_violation() {
    let mut s = ShapeStream::new("http://localhost:3000", "users", None);
    let mut acc = String::new();
    let r = resp(
        200,
        &[("electric-offset", "20"), ("electric-up-to-date", "")],
        "B",
    );
    let e = s.initial_sync_step(&r, &mut acc).unwrap_err();
    assert!(matches!(e, Error::ProtocolViolation));
    assert!(matches!(s.mode, Mode::InitialSync { .. }));
    assert_eq!(s.get_offset(), "-1");
    assert_eq!(acc, "");
}

#[test]
fn up_to_date_without_offset_is_protocol_violation() {
    let mut s = ShapeStream::new("http://localhost:3000", "users", None);
    let mut acc = String::new();
    let r = resp(
        200,
        &[("electric-handle", "h1"), ("electric-up-to-date", "")],
        "B",
    );
    assert!(matches!(
        s.initial_sync_step(&r, &mut acc),
        Err(Error::ProtocolViolation)
    ));
}

// The P7 scenario: a 204 long-poll timeout in the tailing phase re-issues
// the identical request and yields nothing.
#[test]
fn no_content_reissues_identical_request() {
    let mut s = live_stream("20", "h1", None);
    let url_before = s.get_url();
    assert_eq!(
        url_before,
        "http://localhost:3000/v1/shape?table=users&offset=20&handle=h1&live=true"
    );
    let mut acc = String::new();
    let r = resp(204, &[("electric-offset", "20"), ("electric-handle", "h1")], "");
    let done = s.live_step(&r, &mut acc).unwrap();
    assert!(!done);
    assert_eq!(acc, "");
    assert_eq!(s.get_url(), url_before);
}

// Design decision, pinned here deliberately: a 204 response never completes
// the tailing unit, even when it also carries the up-to-date signal; the
// loop re-polls without yielding.
#[test]
fn no_content_with_up_to_date_keeps_polling() {
    let mut s = live_stream("20", "h1", None);
    let mut acc = String::new();
    let r = resp(
        204,
        &[
            ("electric-offset", "20"),
            ("electric-handle", "h1"),
            ("electric-up-to-date", ""),
        ],
        "",
    );
    let done = s.live_step(&r, &mut acc).unwrap();
    assert!(!done);
    assert_eq!(acc, "");
    assert!(matches!(s.mode, Mode::Live { .. }));
}

// A tailing unit is complete exactly when a response with a body carries the
// up-to-date signal.
#[test]
fn tailing_accumulates_until_up_to_date() {
    let mut s = live_stream("20", "h1", None);
    let mut acc = String::new();

    let r1 = resp(200, &[("electric-offset", "21"), ("electric-handle", "h1")], "C");
    assert!(!s.live_step(&r1, &mut acc).unwrap());

    let r2 = resp(
        200,
        &[
            ("electric-offset", "22"),
            ("electric-handle", "h1"),
            ("electric-up-to-date", ""),
        ],
        "D",
    );
    assert!(s.live_step(&r2, &mut acc).unwrap());
    assert_eq!(acc, "C\nD\n");
    assert_eq!(s.get_offset(), "22");
}

// The subscription handle echoed on the next request is the last observed
// one: kept when a response omits it, replaced when the server resets it.
#[test]
fn tailing_handle_follows_last_observed_value() {
    let mut s = live_stream("20", "h1", None);
    let mut acc = String::new();

    let omitted = resp(200, &[("electric-offset", "21")], "C");
    s.live_step(&omitted, &mut acc).unwrap();
    assert_eq!(s.get_handle(), Some("h1".to_string()));
    assert!(s.get_url().contains("&handle=h1&"));

    let reset = resp(200, &[("electric-offset", "22"), ("electric-handle", "h2")], "D");
    s.live_step(&reset, &mut acc).unwrap();
    assert_eq!(s.get_handle(), Some("h2".to_string()));
    assert!(s.get_url().contains("&handle=h2&"));
}

// The cursor is echoed while the server supplies one and dropped when a
// tailing response no longer carries it.
#[test]
fn cursor_is_echoed_and_replaced_from_each_response() {
    let mut s = live_stream("20", "h1", None);
    let mut acc = String::new();

    let with_cursor = resp(
        200,
        &[
            ("electric-offset", "21"),
            ("electric-handle", "h1"),
            ("electric-cursor", "c9"),
        ],
        "C",
    );
    s.live_step(&with_cursor, &mut acc).unwrap();
    assert_eq!(s.get_cursor(), Some("c9".to_string()));
    assert_eq!(
        s.get_url(),
        "http://localhost:3000/v1/shape?table=users&offset=21&handle=h1&cursor=c9&live=true"
    );

    let without_cursor = resp(200, &[("electric-offset", "22"), ("electric-handle", "h1")], "D");
    s.live_step(&without_cursor, &mut acc).unwrap();
    assert_eq!(s.get_cursor(), None);
}

// The P8 scenario: a non-2xx status is fatal and mutates nothing.
#[test]
fn http_error_is_fatal_and_leaves_state_unchanged() {
    let mut s = ShapeStream::new("http://localhost:3000", "users", Some("7"));
    let mut acc = String::new();
    let r = resp(500, &[("electric-offset", "99")], "oops");
    let e = s.initial_sync_step(&r, &mut acc).unwrap_err();
    assert!(matches!(e, Error::UnsuccessfulResponse(500)));
    assert_eq!(s.get_offset(), "7");
    assert_eq!(acc, "");

    let mut t = live_stream("20", "h1", None);
    let e = t.live_step(&r, &mut acc).unwrap_err();
    assert!(matches!(e, Error::UnsuccessfulResponse(500)));
    assert_eq!(t.get_offset(), "20");
    assert_eq!(acc, "");
}

#[test]
fn redirect_status_is_outside_success_range() {
    let mut s = ShapeStream::new("http://localhost:3000", "users", None);
    let mut acc = String::new();
    let r = resp(301, &[], "");
    assert!(matches!(
        s.initial_sync_step(&r, &mut acc),
        Err(Error::UnsuccessfulResponse(301))
    ));
    let r = resp(199, &[], "");
    assert!(matches!(
        s.initial_sync_step(&r, &mut acc),
        Err(Error::UnsuccessfulResponse(199))
    ));
    let r = resp(300, &[], "");
    assert!(matches!(
        s.initial_sync_step(&r, &mut acc),
        Err(Error::UnsuccessfulResponse(300))
    ));
    // 299 still counts as success
    let r = resp(299, &[("electric-offset", "5")], "A");
    assert!(!s.initial_sync_step(&r, &mut acc).unwrap());
    assert_eq!(acc, "A\n");
}

// The up-to-date flag is presence-only: its value is ignored.
#[test]
fn up_to_date_flag_value_is_ignored() {
    let headers = vec![
        ("electric-up-to-date".to_string(), "false".to_string()),
    ];
    assert!(ShapeStream::is_up_to_date(&headers));
    let none: Vec<(String, String)> = Vec::new();
    assert!(!ShapeStream::is_up_to_date(&none));
}

// Header lookup takes the first header with a matching name.
#[test]
fn header_lookup_is_first_match() {
    let headers = vec![
        ("electric-offset".to_string(), "1".to_string()),
        ("electric-offset".to_string(), "2".to_string()),
    ];
    assert_eq!(ShapeStream::extract_offset(&headers), Some("1".to_string()));
    assert_eq!(ShapeStream::extract_handle(&headers), None);
    assert_eq!(ShapeStream::extract_cursor(&headers), None);
}

// A catch-up over three responses concatenates every body in order.
#[test]
fn three_record_catch_up_concatenates_in_order() {
    let mut s = ShapeStream::new("http://localhost:3000", "items", None);
    let mut acc = String::new();
    let r1 = resp(200, &[("electric-offset", "1"), ("electric-handle", "h")], "one");
    let r2 = resp(200, &[("electric-offset", "2")], "two");
    let r3 = resp(
        200,
        &[
            ("electric-offset", "3"),
            ("electric-handle", "h"),
            ("electric-up-to-date", ""),
        ],
        "three",
    );
    assert!(!s.initial_sync_step(&r1, &mut acc).unwrap());
    assert!(!s.initial_sync_step(&r2, &mut acc).unwrap());
    assert!(s.initial_sync_step(&r3, &mut acc).unwrap());
    assert_eq!(acc, "one\ntwo\nthree\n");
}

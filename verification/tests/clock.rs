use z8_timer::clock::{
    conclude, status_is_success, CallFailure, ClockService, ClockStatus, Delivery, EntryKind,
    ExchangeStep, HttpMethod, HttpReply, HttpRequest, RemoteCall, TimeEntry,
    REQUEST_TIMEOUT_SECS,
};

fn entry(id: &str) -> TimeEntry {
    TimeEntry {
        id: id.to_string(),
        employee_id: "emp-1".to_string(),
        entry_type: "clock_in".to_string(),
        timestamp: "2024-01-15T08:00:00Z".to_string(),
    }
}

fn http(status: u16, body: &str) -> HttpReply {
    HttpReply { status, status_line: format!("{} Status", status), body: body.to_string() }
}

/// A reply whose body held the entry `e1`.
fn reply(status: u16, body: &str) -> Delivery {
    Delivery::Replied { reply: http(status, body), entry: Ok(entry("e1")) }
}

/// A reply whose body held no entry that could be read.
fn reply_without_entry(status: u16, body: &str) -> Delivery {
    Delivery::Replied { reply: http(status, body), entry: Err("missing field `id`".to_string()) }
}

fn rejected(r: Result<Option<TimeEntry>, CallFailure>) -> String {
    match r {
        Err(CallFailure::Rejected(reason)) => reason,
        other => panic!("expected a rejection, got {:?}", other),
    }
}

fn unreachable(r: Result<Option<TimeEntry>, CallFailure>) -> String {
    match r {
        Err(CallFailure::Unreachable(reason)) => reason,
        other => panic!("expected an unreachable service, got {:?}", other),
    }
}

fn expect_send(step: ExchangeStep) -> (z8_timer::clock::Exchange, HttpRequest) {
    match step {
        ExchangeStep::Send { exchange, request } => (exchange, request),
        ExchangeStep::Finished(r) => panic!("expected a request, the call ended with {:?}", r),
    }
}

fn expect_finished(step: ExchangeStep) -> Result<Option<TimeEntry>, CallFailure> {
    match step {
        ExchangeStep::Finished(r) => r,
        ExchangeStep::Send { request, .. } => panic!("expected the end, got {:?}", request),
    }
}

#[test]
fn the_status_request_goes_to_the_status_address() {
    let request = ClockService::new().get_status("https://example.com", "abc");
    assert_eq!(request.method, HttpMethod::Get);
    assert_eq!(request.url, "https://example.com/api/time-entries/status");
    assert_eq!(request.authorization, "Bearer abc");
    assert!(request.body.is_none());
    assert_eq!(request.timeout_secs, 30);
    assert_eq!(REQUEST_TIMEOUT_SECS, 30);
}

#[test]
fn slashes_at_the_end_of_the_address_are_dropped() {
    let service = ClockService::new();
    assert_eq!(
        service.get_status("https://example.com///", "t").url,
        "https://example.com/api/time-entries/status"
    );
    assert_eq!(service.clock_in("https://example.com/app/", "t").url, "https://example.com/app/api/time-entries");
    assert_eq!(service.clock_out("/", "t").url, "/api/time-entries");
    assert_eq!(service.clock_out("", "t").url, "/api/time-entries");
}

#[test]
fn clock_in_and_out_name_their_kind() {
    let service = ClockService::new();
    let request = service.clock_in("https://example.com", "abc");
    assert_eq!(request.method, HttpMethod::Post);
    assert_eq!(request.url, "https://example.com/api/time-entries");
    assert_eq!(request.authorization, "Bearer abc");
    let body = request.body.expect("an entry");
    assert_eq!(body.kind, EntryKind::ClockIn);
    assert_eq!(body.timestamp, None);
    let request = service.clock_out("https://example.com", "abc");
    let body = request.body.expect("an entry");
    assert_eq!(body.kind, EntryKind::ClockOut);
    assert_eq!(body.timestamp, None);
    assert_eq!(EntryKind::ClockIn.wire_name(), "clock_in");
    assert_eq!(EntryKind::ClockOut.wire_name(), "clock_out");
}

#[test]
fn a_break_clocks_out_at_its_start_and_then_in() {
    let service = ClockService::new();
    let (out, back) =
        service.clock_out_with_break("https://example.com/", "abc", "2024-01-15T09:30:00+00:00");
    let body = out.body.expect("an entry");
    assert_eq!(body.kind, EntryKind::ClockOut);
    assert_eq!(body.timestamp.as_deref(), Some("2024-01-15T09:30:00+00:00"));
    assert_eq!(out.url, "https://example.com/api/time-entries");
    let body = back.body.expect("an entry");
    assert_eq!(body.kind, EntryKind::ClockIn);
    assert_eq!(body.timestamp, None);
    assert_eq!(back.authorization, "Bearer abc");
}

#[test]
fn success_is_a_status_in_the_two_hundreds() {
    assert!(!status_is_success(199));
    assert!(status_is_success(200));
    assert!(status_is_success(204));
    assert!(status_is_success(299));
    assert!(!status_is_success(300));
    assert!(!status_is_success(404));
    assert!(!status_is_success(0));
    assert!(!status_is_success(u16::MAX));
}

#[test]
fn a_refused_status_request_names_the_status() {
    let refused = HttpReply {
        status: 401,
        status_line: "401 Unauthorized".to_string(),
        body: "x".to_string(),
    };
    let unread: Result<ClockStatus, String> = Err("expected value at line 1 column 1".to_string());
    assert_eq!(
        ClockService::read_status_reply(&refused, unread).err(),
        Some("Failed to fetch clock status: 401 Unauthorized".to_string())
    );
    assert_eq!(
        ClockService::read_status_reply(&refused, Ok(status(true))).err(),
        Some("Failed to fetch clock status: 401 Unauthorized".to_string())
    );
}

fn status(is_clocked_in: bool) -> ClockStatus {
    ClockStatus { has_employee: true, employee_id: None, is_clocked_in, active_work_period: None }
}

#[test]
fn an_accepted_status_request_hands_on_what_was_read() {
    let fine = HttpReply { status: 200, status_line: "200 OK".to_string(), body: "{}".to_string() };
    let read = ClockService::read_status_reply(&fine, Ok(status(true))).expect("a status");
    assert!(read.is_clocked_in);
    let unread: Result<ClockStatus, String> = Err("missing field `hasEmployee`".to_string());
    assert_eq!(
        ClockService::read_status_reply(&fine, unread).err(),
        Some("missing field `hasEmployee`".to_string())
    );
}

#[test]
fn clock_in_is_one_request() {
    let service = ClockService::new();
    let (exchange, request) = service.begin(RemoteCall::ClockIn, "https://example.com", "abc");
    assert_eq!(request.body.expect("an entry").kind, EntryKind::ClockIn);
    let recorded = expect_finished(exchange.reply(reply(201, "{}"))).expect("success");
    assert_eq!(recorded.map(|e| e.id), Some("e1".to_string()));
}

#[test]
fn a_clock_in_without_a_readable_entry_is_rejected() {
    let service = ClockService::new();
    let (exchange, _request) = service.begin(RemoteCall::ClockIn, "https://example.com", "abc");
    assert_eq!(
        rejected(expect_finished(exchange.reply(reply_without_entry(200, "{}")))),
        "missing field `id`"
    );
    let (exchange, _request) = service.begin(RemoteCall::ClockOut, "https://example.com", "abc");
    assert_eq!(
        rejected(expect_finished(exchange.reply(reply_without_entry(200, "")))),
        "missing field `id`"
    );
}

#[test]
fn conclude_reads_the_entry_of_a_single_call_only() {
    let recorded = conclude(&RemoteCall::ClockIn, Ok(entry("a"))).expect("success");
    assert_eq!(recorded.map(|e| e.id), Some("a".to_string()));
    let recorded = conclude(&RemoteCall::ClockOut, Ok(entry("b"))).expect("success");
    assert_eq!(recorded.map(|e| e.id), Some("b".to_string()));
    assert_eq!(rejected(conclude(&RemoteCall::ClockIn, Err("no entry".to_string()))), "no entry");
    assert_eq!(rejected(conclude(&RemoteCall::ClockOut, Err("no entry".to_string()))), "no entry");
    let pause = RemoteCall::ClockOutThenIn { break_start: "2024-01-15T09:30:00+00:00".to_string() };
    assert!(conclude(&pause, Err("no entry".to_string())).expect("success").is_none());
    assert!(conclude(&pause, Ok(entry("c"))).expect("success").is_none());
}

#[test]
fn a_failure_keeps_its_description() {
    assert_eq!(CallFailure::Unreachable("dns error".to_string()).description(), "dns error");
    assert_eq!(CallFailure::Rejected("forbidden".to_string()).description(), "forbidden");
}

#[test]
fn a_refused_clock_in_reports_the_body() {
    let service = ClockService::new();
    let (exchange, _request) = service.begin(RemoteCall::ClockIn, "https://example.com", "abc");
    assert_eq!(
        rejected(expect_finished(exchange.reply(reply(400, "already clocked in")))),
        "Clock in failed: already clocked in"
    );
}

#[test]
fn a_refused_clock_out_reports_the_body() {
    let service = ClockService::new();
    let (exchange, request) = service.begin(RemoteCall::ClockOut, "https://example.com", "abc");
    assert_eq!(request.body.expect("an entry").kind, EntryKind::ClockOut);
    assert_eq!(rejected(expect_finished(exchange.reply(reply(500, "")))), "Clock out failed: ");
}

#[test]
fn a_request_without_an_answer_ends_the_call_as_unreachable() {
    let service = ClockService::new();
    for reason in [
        "dns error: failed to lookup address information",
        "Connection refused (os error 111)",
        "operation timed out",
        "connection reset",
        "",
    ] {
        let (exchange, _request) =
            service.begin(RemoteCall::ClockOut, "https://example.com", "abc");
        assert_eq!(
            unreachable(expect_finished(exchange.reply(Delivery::Unreachable(reason.to_string())))),
            reason
        );
    }
}

#[test]
fn a_request_that_failed_otherwise_ends_the_call_as_rejected() {
    let service = ClockService::new();
    let (exchange, _request) = service.begin(RemoteCall::ClockIn, "https://example.com", "abc");
    assert_eq!(
        rejected(expect_finished(
            exchange.reply(Delivery::Failed("builder error: relative URL".to_string()))
        )),
        "builder error: relative URL"
    );
}

#[test]
fn a_break_is_two_requests_in_order() {
    let service = ClockService::new();
    let call = RemoteCall::ClockOutThenIn { break_start: "2024-01-15T09:30:00+00:00".to_string() };
    let (exchange, first) = service.begin(call, "https://example.com/", "abc");
    let body = first.body.expect("an entry");
    assert_eq!(body.kind, EntryKind::ClockOut);
    assert_eq!(body.timestamp.as_deref(), Some("2024-01-15T09:30:00+00:00"));
    let (exchange, second) = expect_send(exchange.reply(reply(200, "{}")));
    assert_eq!(second.method, HttpMethod::Post);
    assert_eq!(second.url, "https://example.com/api/time-entries");
    assert_eq!(second.authorization, "Bearer abc");
    let body = second.body.expect("an entry");
    assert_eq!(body.kind, EntryKind::ClockIn);
    assert_eq!(body.timestamp, None);
    let ended = expect_finished(exchange.reply(reply_without_entry(200, ""))).expect("success");
    assert!(ended.is_none());
}

#[test]
fn a_break_stops_when_the_clock_out_is_refused() {
    let service = ClockService::new();
    let call = RemoteCall::ClockOutThenIn { break_start: "2024-01-15T09:30:00+00:00".to_string() };
    let (exchange, _first) = service.begin(call, "https://example.com", "abc");
    assert_eq!(
        rejected(expect_finished(exchange.reply(reply(422, "not clocked in")))),
        "Clock out for break failed: not clocked in"
    );
}

#[test]
fn a_break_reports_a_refused_clock_in() {
    let service = ClockService::new();
    let call = RemoteCall::ClockOutThenIn { break_start: "2024-01-15T09:30:00+00:00".to_string() };
    let (exchange, _first) = service.begin(call, "https://example.com", "abc");
    let (exchange, _second) = expect_send(exchange.reply(reply(200, "")));
    assert_eq!(
        rejected(expect_finished(exchange.reply(reply(503, "later")))),
        "Clock in after break failed: later"
    );
}

#[test]
fn a_break_stops_when_the_clock_in_is_not_delivered() {
    let service = ClockService::new();
    let call = RemoteCall::ClockOutThenIn { break_start: "2024-01-15T09:30:00+00:00".to_string() };
    let (exchange, _first) = service.begin(call, "https://example.com", "abc");
    let (exchange, _second) = expect_send(exchange.reply(reply(200, "")));
    assert_eq!(
        unreachable(expect_finished(exchange.reply(Delivery::Unreachable("timed out".to_string())))),
        "timed out"
    );
}

#[test]
fn cloning_a_call_keeps_it() {
    let call = RemoteCall::ClockOutThenIn { break_start: "2024-01-15T09:30:00+00:00".to_string() };
    match call.clone() {
        RemoteCall::ClockOutThenIn { break_start } => {
            assert_eq!(break_start, "2024-01-15T09:30:00+00:00")
        }
        other => panic!("expected a break, got {:?}", other),
    }
    assert!(matches!(RemoteCall::ClockIn.clone(), RemoteCall::ClockIn));
    assert!(matches!(RemoteCall::ClockOut.clone(), RemoteCall::ClockOut));
}

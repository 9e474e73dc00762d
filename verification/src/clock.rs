//! The remote clock service: what is asked of it, and how its answers are read.
//!
//! Nothing here sends anything. A request is described as plain data, whoever holds the
//! connection sends it, and the reply comes back as plain data to be judged here.

use crate::text::{join, strip_trailing, text_view, trim_end};
use vstd::prelude::*;

verus! {

/// The clock state of the user as the remote service reports it.
#[derive(Debug, Clone)]
pub struct ClockStatus {
    pub has_employee: bool,
    pub employee_id: Option<String>,
    pub is_clocked_in: bool,
    pub active_work_period: Option<WorkPeriod>,
}

/// A period of work that has begun and not ended.
#[derive(Debug, Clone)]
pub struct WorkPeriod {
    pub id: String,
    pub start_time: String,
}

/// A time entry as the remote service records it.
#[derive(Debug, Clone)]
pub struct TimeEntry {
    pub id: String,
    pub employee_id: String,
    pub entry_type: String,
    pub timestamp: String,
}

/// An operation of the remote service that changes the clock state.
#[derive(Debug)]
pub enum RemoteCall {
    /// Clock in now.
    ClockIn,
    /// Clock out now.
    ClockOut,
    /// Clock out at `break_start`, a date and time in RFC 3339, then clock in again now.
    ClockOutThenIn { break_start: String },
}

/// What a remote call is, as mathematical values.
pub enum RemoteCallView {
    ClockIn,
    ClockOut,
    ClockOutThenIn { break_start: Seq<char> },
}

impl View for RemoteCall {
    type V = RemoteCallView;

    open spec fn view(&self) -> RemoteCallView {
        match self {
            RemoteCall::ClockIn => RemoteCallView::ClockIn,
            RemoteCall::ClockOut => RemoteCallView::ClockOut,
            RemoteCall::ClockOutThenIn { break_start } => RemoteCallView::ClockOutThenIn {
                break_start: break_start@,
            },
        }
    }
}

impl Clone for RemoteCall {
    fn clone(&self) -> (copy: Self)
        ensures
            copy == *self,
    {
        match self {
            RemoteCall::ClockIn => RemoteCall::ClockIn,
            RemoteCall::ClockOut => RemoteCall::ClockOut,
            RemoteCall::ClockOutThenIn { break_start } => RemoteCall::ClockOutThenIn {
                break_start: break_start.clone(),
            },
        }
    }
}

/// The kind of a time entry that is sent to the remote service.
#[derive(Clone, Copy, Debug, PartialEq, Eq, Structural)]
pub enum EntryKind {
    ClockIn,
    ClockOut,
}

impl EntryKind {
    /// The name of the kind in the body of a request.
    pub open spec fn spec_wire_name(self) -> Seq<char> {
        match self {
            EntryKind::ClockIn => "clock_in"@,
            EntryKind::ClockOut => "clock_out"@,
        }
    }

    /// The name of the kind in the body of a request.
    pub fn wire_name(self) -> (name: &'static str)
        ensures
            name@ == self.spec_wire_name(),
    {
        match self {
            EntryKind::ClockIn => "clock_in",
            EntryKind::ClockOut => "clock_out",
        }
    }
}

/// The method of a request.
#[derive(Clone, Copy, Debug, PartialEq, Eq, Structural)]
pub enum HttpMethod {
    Get,
    Post,
}

/// The time entry that a request asks the remote service to record.
#[derive(Debug)]
pub struct EntryBody {
    pub kind: EntryKind,
    /// When the entry takes effect, in RFC 3339; the time of arrival where it is `None`.
    pub timestamp: Option<String>,
}

/// A request to the remote service.
#[derive(Debug)]
pub struct HttpRequest {
    pub method: HttpMethod,
    pub url: String,
    /// The value of the `Authorization` header.
    pub authorization: String,
    pub body: Option<EntryBody>,
    /// After how many seconds without an answer the request is given up.
    pub timeout_secs: u64,
}

/// What the remote service answered.
#[derive(Debug)]
pub struct HttpReply {
    /// The status code.
    pub status: u16,
    /// The status as a text, code and reason.
    pub status_line: String,
    /// The body as a text.
    pub body: String,
}

/// The seconds after which a request without an answer is given up.
pub const REQUEST_TIMEOUT_SECS: u64 = 30;

/// Whether a status code reports success.
pub open spec fn is_success(status: u16) -> bool {
    200 <= status <= 299
}

/// The address at which the remote service reports the clock status.
pub open spec fn status_url(webapp_url: Seq<char>) -> Seq<char> {
    strip_trailing(webapp_url, '/') + "/api/time-entries/status"@
}

/// The address at which the remote service records time entries.
pub open spec fn entries_url(webapp_url: Seq<char>) -> Seq<char> {
    strip_trailing(webapp_url, '/') + "/api/time-entries"@
}

/// The `Authorization` header that carries the session token.
pub open spec fn bearer(token: Seq<char>) -> Seq<char> {
    "Bearer "@ + token
}

/// One request of a remote call: the entry to record, and how a refusal of it is reported.
pub struct EntryStep {
    pub kind: EntryKind,
    pub timestamp: Option<Seq<char>>,
    pub failure_label: Seq<char>,
}

/// The requests that make up a remote call, in the order in which they are sent. Each is
/// sent only when the ones before it have succeeded.
pub open spec fn steps_of(call: RemoteCallView) -> Seq<EntryStep> {
    match call {
        RemoteCallView::ClockIn => seq![
            EntryStep {
                kind: EntryKind::ClockIn,
                timestamp: None,
                failure_label: "Clock in failed: "@,
            },
        ],
        RemoteCallView::ClockOut => seq![
            EntryStep {
                kind: EntryKind::ClockOut,
                timestamp: None,
                failure_label: "Clock out failed: "@,
            },
        ],
        RemoteCallView::ClockOutThenIn { break_start } => seq![
            EntryStep {
                kind: EntryKind::ClockOut,
                timestamp: Some(break_start),
                failure_label: "Clock out for break failed: "@,
            },
            EntryStep {
                kind: EntryKind::ClockIn,
                timestamp: None,
                failure_label: "Clock in after break failed: "@,
            },
        ],
    }
}

/// Whether `request` asks the service at `webapp_url`, in the name of `token`, to record
/// the entry of `step`.
pub open spec fn records(
    request: HttpRequest,
    webapp_url: Seq<char>,
    token: Seq<char>,
    step: EntryStep,
) -> bool {
    &&& request.method == HttpMethod::Post
    &&& request.url@ == entries_url(webapp_url)
    &&& request.authorization@ == bearer(token)
    &&& request.timeout_secs == REQUEST_TIMEOUT_SECS
    &&& request.body matches Some(body)
    &&& body.kind == step.kind
    &&& text_view(body.timestamp) == step.timestamp
}

/// Whether a status code reports success.
pub fn status_is_success(status: u16) -> (ok: bool)
    ensures
        ok == is_success(status),
{
    200 <= status && status <= 299
}

/// Builds the requests to the remote service and reads its replies.
#[derive(Clone, Copy, Debug)]
pub struct ClockService {}

impl ClockService {
    /// The builder of requests. Every request it builds is given up after
    /// `REQUEST_TIMEOUT_SECS` seconds without an answer.
    pub fn new() -> ClockService {
        ClockService {  }
    }

    /// The request that asks for the clock status.
    pub fn get_status(&self, webapp_url: &str, token: &str) -> (request: HttpRequest)
        ensures
            request.method == HttpMethod::Get,
            request.url@ == status_url(webapp_url@),
            request.authorization@ == bearer(token@),
            request.body is None,
            request.timeout_secs == REQUEST_TIMEOUT_SECS,
    {
        let base = trim_end(webapp_url, '/');
        HttpRequest {
            method: HttpMethod::Get,
            url: join(base.as_str(), "/api/time-entries/status"),
            authorization: join("Bearer ", token),
            body: None,
            timeout_secs: REQUEST_TIMEOUT_SECS,
        }
    }

    /// The request that records an entry of `kind`, taking effect at `timestamp` or, where
    /// that is `None`, on arrival.
    fn record(
        &self,
        webapp_url: &str,
        token: &str,
        kind: EntryKind,
        timestamp: Option<String>,
    ) -> (request: HttpRequest)
        ensures
            request.method == HttpMethod::Post,
            request.url@ == entries_url(webapp_url@),
            request.authorization@ == bearer(token@),
            request.body == Some(EntryBody { kind, timestamp }),
            request.timeout_secs == REQUEST_TIMEOUT_SECS,
    {
        let base = trim_end(webapp_url, '/');
        HttpRequest {
            method: HttpMethod::Post,
            url: join(base.as_str(), "/api/time-entries"),
            authorization: join("Bearer ", token),
            body: Some(EntryBody { kind, timestamp }),
            timeout_secs: REQUEST_TIMEOUT_SECS,
        }
    }

    /// The request that clocks the user in.
    pub fn clock_in(&self, webapp_url: &str, token: &str) -> (request: HttpRequest)
        ensures
            request.method == HttpMethod::Post,
            request.url@ == entries_url(webapp_url@),
            request.authorization@ == bearer(token@),
            request.body == Some(EntryBody { kind: EntryKind::ClockIn, timestamp: None }),
            request.timeout_secs == REQUEST_TIMEOUT_SECS,
    {
        self.record(webapp_url, token, EntryKind::ClockIn, None)
    }

    /// The request that clocks the user out.
    pub fn clock_out(&self, webapp_url: &str, token: &str) -> (request: HttpRequest)
        ensures
            request.method == HttpMethod::Post,
            request.url@ == entries_url(webapp_url@),
            request.authorization@ == bearer(token@),
            request.body == Some(EntryBody { kind: EntryKind::ClockOut, timestamp: None }),
            request.timeout_secs == REQUEST_TIMEOUT_SECS,
    {
        self.record(webapp_url, token, EntryKind::ClockOut, None)
    }

    /// The two requests of a break, in the order in which they are sent: clock out at
    /// `break_start`, then clock in on arrival. The second is sent only when the first has
    /// succeeded.
    pub fn clock_out_with_break(
        &self,
        webapp_url: &str,
        token: &str,
        break_start: &str,
    ) -> (requests: (HttpRequest, HttpRequest))
        ensures
            requests.0.method == HttpMethod::Post,
            requests.0.url@ == entries_url(webapp_url@),
            requests.0.authorization@ == bearer(token@),
            requests.0.timeout_secs == REQUEST_TIMEOUT_SECS,
            requests.0.body matches Some(body) && body.kind == EntryKind::ClockOut && text_view(
                body.timestamp,
            ) == Some(break_start@),
            requests.1.method == HttpMethod::Post,
            requests.1.url@ == entries_url(webapp_url@),
            requests.1.authorization@ == bearer(token@),
            requests.1.timeout_secs == REQUEST_TIMEOUT_SECS,
            requests.1.body == Some(EntryBody { kind: EntryKind::ClockIn, timestamp: None }),
    {
        let out = self.record(
            webapp_url,
            token,
            EntryKind::ClockOut,
            Some(String::from_str(break_start)),
        );
        let back = self.record(webapp_url, token, EntryKind::ClockIn, None);
        (out, back)
    }

    /// Reads the reply to a request for the clock status, where `decoded` is the status
    /// read from the body of the reply or the reason why none could be read. A reply without
    /// success is reported with its status; after a reply with success the status that was
    /// read is handed on, or the reason why there is none.
    pub fn read_status_reply(reply: &HttpReply, decoded: Result<ClockStatus, String>) -> (r: Result<
        ClockStatus,
        String,
    >)
        ensures
            match r {
                Ok(status) => is_success(reply.status) && decoded == Ok::<ClockStatus, String>(
                    status,
                ),
                Err(message) => if is_success(reply.status) {
                    decoded matches Err(reason) && message@ == reason@
                } else {
                    message@ == "Failed to fetch clock status: "@ + reply.status_line@
                },
            },
    {
        if status_is_success(reply.status) {
            decoded
        } else {
            Err(join("Failed to fetch clock status: ", reply.status_line.as_str()))
        }
    }
}

/// A remote call whose next request has been handed out and waits for its reply.
pub struct Exchange {
    service: ClockService,
    call: RemoteCall,
    webapp_url: String,
    token: String,
    awaiting: usize,
}

/// What an exchange is, as mathematical values: the call, whom it is sent to and for, and
/// the place of the request that waits for its reply.
pub struct ExchangeView {
    pub call: RemoteCallView,
    pub webapp_url: Seq<char>,
    pub token: Seq<char>,
    pub awaiting: int,
}

impl ExchangeView {
    /// The request that waits for its reply.
    pub open spec fn current(self) -> EntryStep {
        steps_of(self.call)[self.awaiting]
    }

    /// Whether the request that waits is the last of the call.
    pub open spec fn at_last(self) -> bool {
        self.awaiting + 1 == steps_of(self.call).len()
    }

    /// The exchange once the request that waits has succeeded and the next has been sent.
    pub open spec fn moved_on(self) -> ExchangeView {
        ExchangeView { awaiting: self.awaiting + 1, ..self }
    }
}

impl View for Exchange {
    type V = ExchangeView;

    closed spec fn view(&self) -> ExchangeView {
        ExchangeView {
            call: self.call@,
            webapp_url: self.webapp_url@,
            token: self.token@,
            awaiting: self.awaiting as int,
        }
    }
}

/// Why a remote call failed.
#[derive(Debug)]
pub enum CallFailure {
    /// The service could not be reached: the connection was refused, its name was not
    /// found, no answer came in time, or the network failed in another way. Such a failure
    /// may pass, and the call is worth another try later.
    Unreachable(String),
    /// The service answered and refused, or the call failed in a way that waiting does not
    /// mend.
    Rejected(String),
}

/// What a failure of a remote call is, as mathematical values.
pub enum CallFailureView {
    Unreachable(Seq<char>),
    Rejected(Seq<char>),
}

impl View for CallFailure {
    type V = CallFailureView;

    open spec fn view(&self) -> CallFailureView {
        match self {
            CallFailure::Unreachable(reason) => CallFailureView::Unreachable(reason@),
            CallFailure::Rejected(reason) => CallFailureView::Rejected(reason@),
        }
    }
}

impl CallFailureView {
    /// The description that the failure came with.
    pub open spec fn description(self) -> Seq<char> {
        match self {
            CallFailureView::Unreachable(reason) => reason,
            CallFailureView::Rejected(reason) => reason,
        }
    }
}

impl CallFailure {
    /// The description that the failure came with.
    pub fn description(&self) -> (text: String)
        ensures
            text@ == self@.description(),
    {
        match self {
            CallFailure::Unreachable(reason) => reason.clone(),
            CallFailure::Rejected(reason) => reason.clone(),
        }
    }
}

/// What a remote call came to: the time entry that the service recorded, where the call
/// reads one, or the failure.
pub open spec fn outcome_view(r: Result<Option<TimeEntry>, CallFailure>) -> Result<
    Option<TimeEntry>,
    CallFailureView,
> {
    match r {
        Ok(entry) => Ok(entry),
        Err(failure) => Err(failure@),
    }
}

/// Whether the reply to `call` is read for the time entry that the service recorded. A
/// single clock-in or clock-out is; the two requests of a break are not.
pub open spec fn reads_entry(call: RemoteCallView) -> bool {
    call is ClockIn || call is ClockOut
}

/// What a remote call whose last request succeeded comes to, where `entry` is the time
/// entry read from the last reply or the reason why none could be read: a call that reads
/// the entry succeeds with it and is rejected without it; any other call succeeds.
pub open spec fn spec_conclude(call: RemoteCallView, entry: Result<TimeEntry, String>) -> Result<
    Option<TimeEntry>,
    CallFailureView,
> {
    if reads_entry(call) {
        match entry {
            Ok(recorded) => Ok(Some(recorded)),
            Err(reason) => Err(CallFailureView::Rejected(reason@)),
        }
    } else {
        Ok(None)
    }
}

/// What a remote call whose last request succeeded comes to, where `entry` is the time
/// entry read from the last reply or the reason why none could be read.
pub fn conclude(call: &RemoteCall, entry: Result<TimeEntry, String>) -> (r: Result<
    Option<TimeEntry>,
    CallFailure,
>)
    ensures
        outcome_view(r) == spec_conclude(call@, entry),
{
    match call {
        RemoteCall::ClockOutThenIn { break_start } => Ok(None),
        _ => match entry {
            Ok(recorded) => Ok(Some(recorded)),
            Err(reason) => Err(CallFailure::Rejected(reason)),
        },
    }
}

/// What is to be done next in an exchange.
pub enum ExchangeStep {
    /// Send `request` and hand its reply to `exchange`.
    Send { exchange: Exchange, request: HttpRequest },
    /// The call is over: it has succeeded, with the time entry that was recorded where the
    /// call reads one, or it has failed.
    Finished(Result<Option<TimeEntry>, CallFailure>),
}

/// What became of a request.
pub enum Delivery {
    /// The service answered with `reply`; `entry` is the time entry read from the body of
    /// the reply, or the reason why none could be read.
    Replied { reply: HttpReply, entry: Result<TimeEntry, String> },
    /// No answer came: the connection was refused, the name of the service was not found,
    /// the time ran out, or the network failed in another way.
    Unreachable(String),
    /// The request failed on the way for a reason that is none of the network.
    Failed(String),
}

impl ClockService {
    /// The request at place `index` of `call`.
    fn request_at(
        &self,
        call: &RemoteCall,
        webapp_url: &str,
        token: &str,
        index: usize,
    ) -> (request: HttpRequest)
        requires
            index < steps_of(call@).len(),
        ensures
            records(request, webapp_url@, token@, steps_of(call@)[index as int]),
    {
        match call {
            RemoteCall::ClockIn => self.clock_in(webapp_url, token),
            RemoteCall::ClockOut => self.clock_out(webapp_url, token),
            RemoteCall::ClockOutThenIn { break_start } => {
                let (out, back) = self.clock_out_with_break(
                    webapp_url,
                    token,
                    break_start.as_str(),
                );
                if index == 0 {
                    out
                } else {
                    back
                }
            },
        }
    }

    /// Starts `call` against the service at `webapp_url` in the name of `token`: returns
    /// the first request of the call and the exchange that waits for its reply.
    pub fn begin(&self, call: RemoteCall, webapp_url: &str, token: &str) -> (started: (
        Exchange,
        HttpRequest,
    ))
        ensures
            started.0@ == (ExchangeView {
                call: call@,
                webapp_url: webapp_url@,
                token: token@,
                awaiting: 0,
            }),
            records(started.1, webapp_url@, token@, started.0@.current()),
    {
        let request = self.request_at(&call, webapp_url, token, 0);
        let exchange = Exchange {
            service: *self,
            call,
            webapp_url: String::from_str(webapp_url),
            token: String::from_str(token),
            awaiting: 0,
        };
        (exchange, request)
    }
}

/// How a refusal of the request at place `index` of `call` is reported.
fn failure_label(call: &RemoteCall, index: usize) -> (label: &'static str)
    requires
        index < steps_of(call@).len(),
    ensures
        label@ == steps_of(call@)[index as int].failure_label,
{
    match call {
        RemoteCall::ClockIn => "Clock in failed: ",
        RemoteCall::ClockOut => "Clock out failed: ",
        RemoteCall::ClockOutThenIn { break_start } => {
            if index == 0 {
                "Clock out for break failed: "
            } else {
                "Clock in after break failed: "
            }
        },
    }
}

/// How many requests make up `call`.
fn step_count(call: &RemoteCall) -> (n: usize)
    ensures
        n == steps_of(call@).len(),
        n >= 1,
{
    match call {
        RemoteCall::ClockIn => 1,
        RemoteCall::ClockOut => 1,
        RemoteCall::ClockOutThenIn { break_start } => 2,
    }
}

impl Exchange {
    #[verifier::type_invariant]
    spec fn inv(&self) -> bool {
        self.awaiting < steps_of(self.call@).len()
    }

    /// Takes what became of the request that waits. Without an answer the call ends as
    /// unreachable, with the reason given; a request that failed otherwise, and a reply
    /// without success, end it as rejected, the reply with the label of the request followed
    /// by its body. After a reply with success the next request of the call is handed out
    /// or, where there is none, the call comes to what `conclude` says.
    pub fn reply(self, delivery: Delivery) -> (next: ExchangeStep)
        ensures
            0 <= self@.awaiting < steps_of(self@.call).len(),
            match delivery {
                Delivery::Unreachable(reason) => next matches ExchangeStep::Finished(r)
                    && outcome_view(r) == Err::<Option<TimeEntry>, CallFailureView>(
                    CallFailureView::Unreachable(reason@),
                ),
                Delivery::Failed(reason) => next matches ExchangeStep::Finished(r) && outcome_view(
                    r,
                ) == Err::<Option<TimeEntry>, CallFailureView>(CallFailureView::Rejected(reason@)),
                Delivery::Replied { reply, entry } => if !is_success(reply.status) {
                    next matches ExchangeStep::Finished(r) && outcome_view(r) == Err::<
                        Option<TimeEntry>,
                        CallFailureView,
                    >(CallFailureView::Rejected(self@.current().failure_label + reply.body@))
                } else if self@.at_last() {
                    next matches ExchangeStep::Finished(r) && outcome_view(r) == spec_conclude(
                        self@.call,
                        entry,
                    )
                } else {
                    next matches ExchangeStep::Send { exchange, request } && exchange@
                        == self@.moved_on() && records(
                        request,
                        self@.webapp_url,
                        self@.token,
                        exchange@.current(),
                    )
                },
            },
    {
        proof {
            use_type_invariant(&self);
        }
        match delivery {
            Delivery::Unreachable(reason) => ExchangeStep::Finished(
                Err(CallFailure::Unreachable(reason)),
            ),
            Delivery::Failed(reason) => ExchangeStep::Finished(Err(CallFailure::Rejected(reason))),
            Delivery::Replied { reply, entry } => {
                if !status_is_success(reply.status) {
                    let label = failure_label(&self.call, self.awaiting);
                    ExchangeStep::Finished(
                        Err(CallFailure::Rejected(join(label, reply.body.as_str()))),
                    )
                } else if self.awaiting + 1 == step_count(&self.call) {
                    ExchangeStep::Finished(conclude(&self.call, entry))
                } else {
                    let request = self.service.request_at(
                        &self.call,
                        self.webapp_url.as_str(),
                        self.token.as_str(),
                        self.awaiting + 1,
                    );
                    let exchange = Exchange {
                        service: self.service,
                        call: self.call,
                        webapp_url: self.webapp_url,
                        token: self.token,
                        awaiting: self.awaiting + 1,
                    };
                    ExchangeStep::Send { exchange, request }
                }
            },
        }
    }
}

} // verus!

//! The commands of the user: clock in, clock out, clock out for a break.
//!
//! A command first tries the remote service. Where the service answers, the clock state is
//! fetched from it and overwrites what was known. Where the service cannot be reached, the
//! action is queued for a later replay and the clock state is set to what the action will
//! lead to. Any other failure is handed back to the user and nothing is queued.
//!
//! Nothing here sends anything: a command says which remote call it needs, and is told how
//! the call went.

use crate::clock::{CallFailure, ClockStatus, RemoteCall, RemoteCallView};
use crate::instant::{normalize_rfc3339, read_view, rfc3339_read};
use crate::offline::{ActionType, OfflineQueue, QueueModel, StorageError};
use crate::settings::Settings;
use crate::state::AppState;
use crate::text::{join, text_view};
use vstd::prelude::*;

verus! {

/// Why a command failed.
#[derive(Debug)]
pub enum CommandError {
    /// No session token is held.
    NotAuthenticated,
    /// No remote service is configured.
    NotConfigured,
    /// The start of the break is no date and time in RFC 3339, for the reason given.
    InvalidBreakTime(String),
    /// The remote service refused, or failed in a way that waiting does not mend.
    RemoteRejected(String),
    /// The action could not be queued.
    Storage(StorageError),
}

/// What a command error is, as mathematical values.
pub enum CommandErrorView {
    NotAuthenticated,
    NotConfigured,
    InvalidBreakTime(Seq<char>),
    RemoteRejected(Seq<char>),
    Storage(StorageError),
}

impl View for CommandError {
    type V = CommandErrorView;

    open spec fn view(&self) -> CommandErrorView {
        match self {
            CommandError::NotAuthenticated => CommandErrorView::NotAuthenticated,
            CommandError::NotConfigured => CommandErrorView::NotConfigured,
            CommandError::InvalidBreakTime(reason) => CommandErrorView::InvalidBreakTime(reason@),
            CommandError::RemoteRejected(reason) => CommandErrorView::RemoteRejected(reason@),
            CommandError::Storage(e) => CommandErrorView::Storage(*e),
        }
    }
}

/// The message that a command error is reported with.
pub open spec fn message_of(e: CommandErrorView) -> Seq<char> {
    match e {
        CommandErrorView::NotAuthenticated => "Not authenticated"@,
        CommandErrorView::NotConfigured => "Webapp URL not configured"@,
        CommandErrorView::InvalidBreakTime(reason) => "Invalid break time: "@ + reason,
        CommandErrorView::RemoteRejected(reason) => reason,
        CommandErrorView::Storage(StorageError::Corrupt) => "Offline queue is corrupt"@,
        CommandErrorView::Storage(StorageError::IdsExhausted) => "Offline queue is full"@,
        CommandErrorView::Storage(StorageError::RetryOverflow) => "Retry count is full"@,
        CommandErrorView::Storage(StorageError::WriteFailed) => "Offline queue could not be written"@,
    }
}

impl CommandError {
    /// The one message that the error is reported with.
    pub fn message(&self) -> (text: String)
        ensures
            text@ == message_of(self@),
    {
        match self {
            CommandError::NotAuthenticated => String::from_str("Not authenticated"),
            CommandError::NotConfigured => String::from_str("Webapp URL not configured"),
            CommandError::InvalidBreakTime(reason) => join("Invalid break time: ", reason.as_str()),
            CommandError::RemoteRejected(reason) => reason.clone(),
            CommandError::Storage(StorageError::Corrupt) => String::from_str(
                "Offline queue is corrupt",
            ),
            CommandError::Storage(StorageError::IdsExhausted) => String::from_str(
                "Offline queue is full",
            ),
            CommandError::Storage(StorageError::RetryOverflow) => String::from_str(
                "Retry count is full",
            ),
            CommandError::Storage(StorageError::WriteFailed) => String::from_str(
                "Offline queue could not be written",
            ),
        }
    }
}

/// The clock state that an action of kind `action_type` leads to. A break ends with the
/// user clocked in again.
pub open spec fn spec_optimistic(action_type: ActionType) -> bool {
    action_type != ActionType::ClockOut
}

/// The clock state that an action of kind `action_type` leads to.
pub fn optimistic(action_type: ActionType) -> (clocked_in: bool)
    ensures
        clocked_in == spec_optimistic(action_type),
{
    match action_type {
        ActionType::ClockIn => true,
        ActionType::ClockOut => false,
        ActionType::ClockOutWithBreak => true,
    }
}

/// The status that is handed back for a queued action: all that is known of it is the
/// clock state that the action will lead to.
pub open spec fn assumed_status(clocked_in: bool) -> ClockStatus {
    ClockStatus {
        has_employee: true,
        employee_id: None,
        is_clocked_in: clocked_in,
        active_work_period: None,
    }
}

/// The preconditions of every command that speaks to the remote service, and the error
/// where one is not met: a session token first, then a configured service.
pub open spec fn readiness(state: AppState) -> Result<(), CommandErrorView> {
    if !state.is_authenticated() {
        Err(CommandErrorView::NotAuthenticated)
    } else if !state.is_configured() {
        Err(CommandErrorView::NotConfigured)
    } else {
        Ok(())
    }
}

/// The views of the errors of a result.
pub open spec fn error_view<T>(r: Result<T, CommandError>) -> Result<T, CommandErrorView> {
    match r {
        Ok(value) => Ok(value),
        Err(e) => Err(e@),
    }
}

/// Checks the preconditions of a command that speaks to the remote service.
pub fn check_ready(state: &AppState) -> (r: Result<(), CommandError>)
    ensures
        error_view(r) == readiness(*state),
{
    if state.session_token.is_none() {
        Err(CommandError::NotAuthenticated)
    } else if state.settings.webapp_url.as_str().is_empty() {
        Err(CommandError::NotConfigured)
    } else {
        Ok(())
    }
}

/// A command whose remote call is under way.
pub struct ClockCommand {
    action_type: ActionType,
    payload: Option<String>,
    call: RemoteCall,
}

/// What a command is, as mathematical values: the action that is queued should the remote
/// service be out of reach, and the remote call that is under way.
pub struct ClockCommandView {
    pub action_type: ActionType,
    pub payload: Option<Seq<char>>,
    pub call: RemoteCallView,
}

impl View for ClockCommand {
    type V = ClockCommandView;

    closed spec fn view(&self) -> ClockCommandView {
        ClockCommandView {
            action_type: self.action_type,
            payload: text_view(self.payload),
            call: self.call@,
        }
    }
}

/// The remote call of a break, where `read` is what reading the start of the break came
/// to: the start in UTC, or the reason why it is no date and time.
pub open spec fn spec_break_call(read: Result<Seq<char>, Seq<char>>) -> Result<
    RemoteCallView,
    Seq<char>,
> {
    match read {
        Ok(in_utc) => Ok(RemoteCallView::ClockOutThenIn { break_start: in_utc }),
        Err(reason) => Err(reason),
    }
}

/// The command for an action of kind `action_type` with `payload`, or the reason why it
/// cannot start, where `call` is the remote call of the command or the reason why there is
/// none. The preconditions come first: a command that is not ready fails for that, whatever
/// `call` holds.
pub open spec fn spec_start(
    state: AppState,
    action_type: ActionType,
    payload: Option<Seq<char>>,
    call: Result<RemoteCallView, Seq<char>>,
) -> Result<ClockCommandView, CommandErrorView> {
    match readiness(state) {
        Err(e) => Err(e),
        Ok(_) => match call {
            Ok(remote) => Ok(ClockCommandView { action_type, payload, call: remote }),
            Err(reason) => Err(CommandErrorView::InvalidBreakTime(reason)),
        },
    }
}

/// The view of a started command, or of the reason why it did not start.
pub open spec fn start_view(r: Result<ClockCommand, CommandError>) -> Result<
    ClockCommandView,
    CommandErrorView,
> {
    match r {
        Ok(command) => Ok(command@),
        Err(e) => Err(e@),
    }
}

/// The view of a remote call, or of the reason why there is none.
pub open spec fn planned_view(call: Result<RemoteCall, String>) -> Result<
    RemoteCallView,
    Seq<char>,
> {
    match call {
        Ok(remote) => Ok(remote@),
        Err(reason) => Err(reason@),
    }
}

/// The remote call of a break, where `read` is what reading the start of the break came
/// to.
pub fn break_call(read: Result<String, String>) -> (call: Result<RemoteCall, String>)
    ensures
        planned_view(call) == spec_break_call(read_view(read)),
{
    match read {
        Ok(in_utc) => Ok(RemoteCall::ClockOutThenIn { break_start: in_utc }),
        Err(reason) => Err(reason),
    }
}

/// Starts the command for an action of kind `action_type` with `payload`, where `call` is
/// the remote call of the command or the reason why there is none.
pub fn start_with(
    state: &AppState,
    action_type: ActionType,
    payload: Option<String>,
    call: Result<RemoteCall, String>,
) -> (r: Result<ClockCommand, CommandError>)
    ensures
        start_view(r) == spec_start(*state, action_type, text_view(payload), planned_view(call)),
{
    match check_ready(state) {
        Err(e) => Err(e),
        Ok(_) => match call {
            Ok(remote) => Ok(ClockCommand { action_type, payload, call: remote }),
            Err(reason) => Err(CommandError::InvalidBreakTime(reason)),
        },
    }
}

/// Starts the command that clocks the user in.
pub fn clock_in(state: &AppState) -> (r: Result<ClockCommand, CommandError>)
    ensures
        start_view(r) == spec_start(
            *state,
            ActionType::ClockIn,
            None,
            Ok(RemoteCallView::ClockIn),
        ),
{
    start_with(state, ActionType::ClockIn, None, Ok(RemoteCall::ClockIn))
}

/// Starts the command that clocks the user out.
pub fn clock_out(state: &AppState) -> (r: Result<ClockCommand, CommandError>)
    ensures
        start_view(r) == spec_start(
            *state,
            ActionType::ClockOut,
            None,
            Ok(RemoteCallView::ClockOut),
        ),
{
    start_with(state, ActionType::ClockOut, None, Ok(RemoteCall::ClockOut))
}

/// Starts the command that clocks the user out at `break_start_time`, a date and time in
/// RFC 3339, and in again at once. A start that is no such date and time is refused with
/// the reason of the parser.
pub fn clock_out_with_break(state: &AppState, break_start_time: String) -> (r: Result<
    ClockCommand,
    CommandError,
>)
    ensures
        start_view(r) == spec_start(
            *state,
            ActionType::ClockOutWithBreak,
            Some(break_start_time@),
            spec_break_call(rfc3339_read(break_start_time@)),
        ),
{
    let call = break_call(normalize_rfc3339(break_start_time.as_str()));
    start_with(state, ActionType::ClockOutWithBreak, Some(break_start_time), call)
}

/// Starts the command that fetches the clock status.
pub fn get_clock_status(state: &AppState) -> (r: Result<(), CommandError>)
    ensures
        error_view(r) == readiness(*state),
{
    check_ready(state)
}

/// Takes the clock status that was fetched from the remote service, or the reason why
/// none came. A status overwrites the clock state, whatever was assumed before, and is
/// handed back; without one the clock state stays and the reason is handed back.
pub fn refresh_status(state: &mut AppState, fetched: Result<ClockStatus, String>) -> (r: Result<
    ClockStatus,
    CommandError,
>)
    ensures
        match fetched {
            Ok(status) => {
                &&& r == Ok::<ClockStatus, CommandError>(status)
                &&& *final(state) == AppState {
                    is_clocked_in: status.is_clocked_in,
                    ..*old(state)
                }
            },
            Err(reason) => {
                &&& r matches Err(CommandError::RemoteRejected(message))
                &&& message@ == reason@
                &&& *final(state) == *old(state)
            },
        },
{
    match fetched {
        Ok(status) => {
            state.set_clocked_in(status.is_clocked_in);
            Ok(status)
        },
        Err(reason) => Err(CommandError::RemoteRejected(reason)),
    }
}

impl ClockCommand {
    /// The remote call that the command needs.
    pub fn remote_call(&self) -> (call: RemoteCall)
        ensures
            call@ == self@.call,
    {
        self.call.clone()
    }

    /// Takes the news that the remote call failed, at the time `now`. Where the service
    /// could not be reached, the action of the command is queued, to be written to disk
    /// before `QueuedCommand::stored` ends the command; where no identifier is left for it,
    /// nothing is queued and the storage error is handed back. A call that was rejected is
    /// handed back with its reason, and nothing is queued.
    pub fn failed(self, failure: CallFailure, queue: &mut OfflineQueue, now: i64) -> (r: Result<
        QueuedCommand,
        CommandError,
    >)
        ensures
            match failure {
                CallFailure::Rejected(reason) => {
                    &&& r matches Err(CommandError::RemoteRejected(message))
                    &&& message@ == reason@
                    &&& final(queue)@ == old(queue)@
                },
                CallFailure::Unreachable(_) => {
                    &&& final(queue)@ == old(queue)@.enqueue(
                        self@.action_type,
                        now as int,
                        self@.payload,
                        now as int,
                    )
                    &&& if old(queue)@.has_room() {
                        &&& r matches Ok(queued)
                        &&& queued@ == QueuedCommandView {
                            id: old(queue)@.last_id + 1,
                            action_type: self@.action_type,
                        }
                    } else {
                        r matches Err(CommandError::Storage(StorageError::IdsExhausted))
                    }
                },
            },
    {
        match failure {
            CallFailure::Rejected(reason) => Err(CommandError::RemoteRejected(reason)),
            CallFailure::Unreachable(_) => match queue.enqueue(
                self.action_type,
                now,
                self.payload,
                now,
            ) {
                Ok(id) => Ok(QueuedCommand { id, action_type: self.action_type }),
                Err(e) => Err(CommandError::Storage(e)),
            },
        }
    }
}

/// A command whose action has been queued and waits to be written to disk.
pub struct QueuedCommand {
    id: i64,
    action_type: ActionType,
}

/// What a queued command is, as mathematical values: the identifier and the kind of the
/// action that was queued.
pub struct QueuedCommandView {
    pub id: int,
    pub action_type: ActionType,
}

impl View for QueuedCommand {
    type V = QueuedCommandView;

    closed spec fn view(&self) -> QueuedCommandView {
        QueuedCommandView { id: self.id as int, action_type: self.action_type }
    }
}

impl QueuedCommand {
    /// The identifier of the action that was queued.
    pub fn id(&self) -> (id: i64)
        ensures
            id == self@.id,
    {
        self.id
    }

    /// Ends the command once the queue has been written to disk, or could not be. After a
    /// write the clock state is set to what the queued action will lead to, and a status
    /// that says so is handed back. Without one the action is taken out of the queue again,
    /// the clock state stays and the storage error is handed back.
    pub fn stored(self, written: bool, queue: &mut OfflineQueue, state: &mut AppState) -> (r: Result<
        ClockStatus,
        CommandError,
    >)
        ensures
            if written {
                &&& r == Ok::<ClockStatus, CommandError>(
                    assumed_status(spec_optimistic(self@.action_type)),
                )
                &&& final(queue)@ == old(queue)@
                &&& *final(state) == AppState {
                    is_clocked_in: spec_optimistic(self@.action_type),
                    ..*old(state)
                }
            } else {
                &&& r matches Err(CommandError::Storage(StorageError::WriteFailed))
                &&& final(queue)@ == old(queue)@.remove(self@.id)
                &&& *final(state) == *old(state)
            },
    {
        if written {
            let clocked_in = optimistic(self.action_type);
            state.set_clocked_in(clocked_in);
            Ok(
                ClockStatus {
                    has_employee: true,
                    employee_id: None,
                    is_clocked_in: clocked_in,
                    active_work_period: None,
                },
            )
        } else {
            queue.mark_completed(self.id);
            Err(CommandError::Storage(StorageError::WriteFailed))
        }
    }
}

/// A command that finds the service out of reach while an identifier is left queues
/// exactly one action: the queue is what it was, followed by one action of the kind and
/// with the payload of the command, not tried yet, to take effect at `now`. Once that is
/// written, the clock state is what the action will lead to: clocked out after a clock-out,
/// clocked in after a clock-in or a break.
pub proof fn law_unreachable_queues_one_action(
    q: QueueModel,
    command: ClockCommandView,
    now: int,
)
    requires
        q.well_formed(),
        q.has_room(),
    ensures
        ({
            let after = q.enqueue(command.action_type, now, command.payload, now);
            let queued = after.rows.last();
            &&& after.well_formed()
            &&& after.rows == q.rows.push(queued)
            &&& queued.id == q.last_id + 1
            &&& queued.action_type == command.action_type
            &&& queued.payload == command.payload
            &&& queued.retry_count == 0
            &&& queued.timestamp == now
            &&& queued.created_at >= now
            &&& spec_optimistic(queued.action_type) == (queued.action_type
                != ActionType::ClockOut)
        }),
{
    crate::queue_laws::law_enqueue_appends(
        q,
        command.action_type,
        now,
        command.payload,
        now,
    );
}

/// The settings as they are shown to the user, with the version of the program.
#[derive(Debug, Clone)]
pub struct SettingsResponse {
    pub webapp_url: String,
    pub always_on_top: bool,
    pub auto_startup: bool,
    pub version: String,
}

/// The session as it is shown to the user.
#[derive(Debug, Clone)]
pub struct SessionResponse {
    pub token: Option<String>,
    pub is_authenticated: bool,
}

/// The session as it is shown to the user: the token, and whether there is one.
pub fn get_session(state: &AppState) -> (session: SessionResponse)
    ensures
        session.token == state.session_token,
        session.is_authenticated == state.is_authenticated(),
{
    let token = state.get_session_token();
    SessionResponse { is_authenticated: token.is_some(), token }
}

/// The settings as they are shown to the user, with `version` as the version of the
/// program.
pub fn get_settings(state: &AppState, version: &str) -> (settings: SettingsResponse)
    ensures
        settings.webapp_url == state.settings.webapp_url,
        settings.always_on_top == state.settings.always_on_top,
        settings.auto_startup == state.settings.auto_startup,
        settings.version@ == version@,
{
    SettingsResponse {
        webapp_url: state.settings.webapp_url.clone(),
        always_on_top: state.settings.always_on_top,
        auto_startup: state.settings.auto_startup,
        version: String::from_str(version),
    }
}

/// Replaces the settings; the session and the clock state stay.
pub fn save_settings(
    state: &mut AppState,
    webapp_url: String,
    always_on_top: bool,
    auto_startup: bool,
)
    ensures
        *final(state) == (AppState {
            settings: Settings { webapp_url, always_on_top, auto_startup },
            ..*old(state)
        }),
{
    state.settings = Settings { webapp_url, always_on_top, auto_startup };
}

/// How many actions wait in the queue.
pub fn get_pending_queue_count(queue: &OfflineQueue) -> (n: i64)
    ensures
        n == queue@.count(),
{
    queue.count()
}

} // verus!

//! The retry and error-classification policy of the two token operations.
//!
//! Each operation makes up to [`MAX_ATTEMPTS`] requests.  Only a
//! transport-level failure (no response received) is retried, after a fixed
//! delay of [`RETRY_DELAY_MS`]; any received HTTP response — success or error
//! status — ends the operation at once, and so does a body that cannot be
//! read.  The caller performs the round-trips and feeds each outcome to
//! [`RetrySession::handle`] as an [`Event`]; the returned [`Action`] says
//! whether to wait and send again or to stop with a result.

use vstd::prelude::*;

verus! {

/// Number of requests an operation makes at most.
pub const MAX_ATTEMPTS: u8 = 3;

/// The fixed delay before each retry, in milliseconds.
pub const RETRY_DELAY_MS: u64 = 2000;

/// Which token operation is running.  The refresh operation classifies an
/// HTTP 401 specially; the code exchange does not.
#[derive(Clone, Copy, Debug, PartialEq, Eq, Structural)]
pub enum OpKind {
    CreateToken,
    RefreshToken,
}

/// Why a token operation failed.
#[derive(Clone, Debug, PartialEq, Eq)]
pub enum AuthError {
    /// Every attempt failed at the transport level; carries the message of
    /// the last attempt, unchanged.
    Transport { message: String },
    /// A response arrived but its body could not be read.
    BodyRead { message: String },
    /// A response arrived with a status outside the 2xx range.
    HttpStatus { status: u16, body: String },
    /// HTTP 401 on the refresh operation: the refresh token is expired or
    /// invalid, and the caller should force a fresh login.
    TokenExpired,
    /// The 2xx response body did not parse as the caller's expected type.
    Deserialization { message: String },
}

/// The outcome of one attempt, as the caller's transport observed it.
#[derive(Clone, Debug, PartialEq, Eq)]
pub enum Event {
    /// The HTTP round-trip itself failed: connection, name resolution or
    /// timeout.  No response was received.
    TransportError { message: String },
    /// A response arrived but reading its body failed.
    BodyReadFailed { message: String },
    /// A response arrived; its body has been read.
    Response { status: u16, body: String },
}

/// What the caller must do after handing an event to the session.
#[derive(Debug, PartialEq, Eq)]
pub enum Action {
    /// Wait for `delay_ms` milliseconds, then send the request again.
    RetryAfterDelay { delay_ms: u64 },
    /// The operation is over; on success the body of the accepted response
    /// is returned for the caller to parse into its own type.
    Complete { result: Result<String, AuthError> },
}

/// Mathematical form of [`AuthError`], over character sequences.
pub enum ErrorModel {
    Transport { message: Seq<char> },
    BodyRead { message: Seq<char> },
    HttpStatus { status: u16, body: Seq<char> },
    TokenExpired,
    Deserialization { message: Seq<char> },
}

/// Mathematical form of [`Event`].
pub enum EventModel {
    TransportError { message: Seq<char> },
    BodyReadFailed { message: Seq<char> },
    Response { status: u16, body: Seq<char> },
}

/// Mathematical form of [`Action`].
pub enum ActionModel {
    RetryAfterDelay { delay_ms: int },
    Complete { result: Result<Seq<char>, ErrorModel> },
}

pub open spec fn error_model(e: AuthError) -> ErrorModel {
    match e {
        AuthError::Transport { message } => ErrorModel::Transport { message: message@ },
        AuthError::BodyRead { message } => ErrorModel::BodyRead { message: message@ },
        AuthError::HttpStatus { status, body } => ErrorModel::HttpStatus { status, body: body@ },
        AuthError::TokenExpired => ErrorModel::TokenExpired,
        AuthError::Deserialization { message } => ErrorModel::Deserialization {
            message: message@,
        },
    }
}

pub open spec fn event_model(e: Event) -> EventModel {
    match e {
        Event::TransportError { message } => EventModel::TransportError { message: message@ },
        Event::BodyReadFailed { message } => EventModel::BodyReadFailed { message: message@ },
        Event::Response { status, body } => EventModel::Response { status, body: body@ },
    }
}

pub open spec fn result_model(r: Result<String, AuthError>) -> Result<Seq<char>, ErrorModel> {
    match r {
        Ok(body) => Ok(body@),
        Err(e) => Err(error_model(e)),
    }
}

pub open spec fn action_model(a: Action) -> ActionModel {
    match a {
        Action::RetryAfterDelay { delay_ms } => ActionModel::RetryAfterDelay {
            delay_ms: delay_ms as int,
        },
        Action::Complete { result } => ActionModel::Complete { result: result_model(result) },
    }
}

/// A status in the 2xx range.
pub open spec fn is_success_status(status: u16) -> bool {
    200 <= status < 300
}

/// How a received response ends the operation: a 2xx status yields its body;
/// 401 on the refresh operation is the specialized expired-token error; any
/// other status is the generic terminal status error, carrying the status
/// and the raw body.
pub open spec fn classify_model(op: OpKind, status: u16, body: Seq<char>) -> Result<
    Seq<char>,
    ErrorModel,
> {
    if is_success_status(status) {
        Ok(body)
    } else if op == OpKind::RefreshToken && status == 401 {
        Err(ErrorModel::TokenExpired)
    } else {
        Err(ErrorModel::HttpStatus { status, body })
    }
}

/// Classifies a received response, exactly as [`classify_model`] says.
pub fn classify_response(op: OpKind, status: u16, body: String) -> (r: Result<String, AuthError>)
    ensures
        result_model(r) == classify_model(op, status, body@),
{
    if 200 <= status && status < 300 {
        Ok(body)
    } else if op == OpKind::RefreshToken && status == 401 {
        Err(AuthError::TokenExpired)
    } else {
        Err(AuthError::HttpStatus { status, body })
    }
}

/// The terminal error for a response that arrived with a success status but
/// whose body did not parse as the caller's expected type.  The caller maps
/// its parser's failure through this; the operation is already over by then,
/// so the failure is never retried.
pub fn deserialization_failure(message: String) -> (e: AuthError)
    ensures
        error_model(e) == (ErrorModel::Deserialization { message: message@ }),
{
    AuthError::Deserialization { message }
}

/// What one event does to a session that has completed `attempts_done`
/// attempts: the new attempt count, whether the operation is over, and the
/// action handed to the caller.
pub struct StepModel {
    pub done: bool,
    pub attempts: int,
    pub action: ActionModel,
}

pub open spec fn step(op: OpKind, attempts_done: int, event: EventModel) -> StepModel {
    match event {
        EventModel::Response { status, body } => (StepModel {
            done: true,
            attempts: attempts_done + 1,
            action: ActionModel::Complete { result: classify_model(op, status, body) },
        }),
        EventModel::BodyReadFailed { message } => (StepModel {
            done: true,
            attempts: attempts_done + 1,
            action: ActionModel::Complete { result: Err(ErrorModel::BodyRead { message }) },
        }),
        EventModel::TransportError { message } => (
        if attempts_done + 1 < MAX_ATTEMPTS {
            StepModel {
                done: false,
                attempts: attempts_done + 1,
                action: ActionModel::RetryAfterDelay { delay_ms: RETRY_DELAY_MS as int },
            }
        } else {
            StepModel {
                done: true,
                attempts: attempts_done + 1,
                action: ActionModel::Complete { result: Err(ErrorModel::Transport { message }) },
            }
        }),
    }
}

/// The retry state of one token operation.
pub struct RetrySession {
    op: OpKind,
    attempts: u8,
    done: bool,
}

impl RetrySession {
    /// Which operation this session runs.
    pub closed spec fn operation(&self) -> OpKind {
        self.op
    }

    /// How many attempts have completed.
    pub closed spec fn attempts_made(&self) -> int {
        self.attempts as int
    }

    /// Whether the operation is over.
    pub closed spec fn is_done(&self) -> bool {
        self.done
    }

    pub open spec fn wf(&self) -> bool {
        &&& self.attempts_made() <= MAX_ATTEMPTS
        &&& !self.is_done() ==> self.attempts_made() < MAX_ATTEMPTS
    }

    /// A fresh session: no attempt made yet.
    pub fn new(op: OpKind) -> (r: Self)
        ensures
            r.operation() == op,
            r.attempts_made() == 0,
            !r.is_done(),
            r.wf(),
    {
        RetrySession { op, attempts: 0, done: false }
    }

    /// How many attempts have completed.
    pub fn attempt_count(&self) -> (n: u8)
        ensures
            n as int == self.attempts_made(),
    {
        self.attempts
    }

    /// Whether the operation is over.
    pub fn finished(&self) -> (b: bool)
        ensures
            b == self.is_done(),
    {
        self.done
    }

    /// Feeds the outcome of one attempt to the session, exactly as [`step`]
    /// says: a received response or an unreadable body ends the operation; a
    /// transport failure is retried after the fixed delay until the attempt
    /// budget is spent, and then the last transport message is returned.
    pub fn handle(&mut self, event: Event) -> (action: Action)
        requires
            old(self).wf(),
            !old(self).is_done(),
        ensures
            final(self).wf(),
            final(self).operation() == old(self).operation(),
            ({
                let st = step(old(self).operation(), old(self).attempts_made(), event_model(event));
                &&& final(self).attempts_made() == st.attempts
                &&& final(self).is_done() == st.done
                &&& action_model(action) == st.action
            }),
    {
        match event {
            Event::Response { status, body } => {
                self.attempts = self.attempts + 1;
                self.done = true;
                Action::Complete { result: classify_response(self.op, status, body) }
            },
            Event::BodyReadFailed { message } => {
                self.attempts = self.attempts + 1;
                self.done = true;
                Action::Complete { result: Err(AuthError::BodyRead { message }) }
            },
            Event::TransportError { message } => {
                self.attempts = self.attempts + 1;
                if self.attempts < MAX_ATTEMPTS {
                    Action::RetryAfterDelay { delay_ms: RETRY_DELAY_MS }
                } else {
                    self.done = true;
                    Action::Complete { result: Err(AuthError::Transport { message }) }
                }
            },
        }
    }
}

/// The whole of one operation, summarized from the events its attempts
/// produced, in order.
pub struct RunModel {
    /// Whether some event ended the operation.
    pub complete: bool,
    /// Attempts completed.
    pub attempts: int,
    /// Retry delays incurred; each one is [`RETRY_DELAY_MS`] long.
    pub delays: int,
    /// The operation's result, once complete.
    pub outcome: Option<Result<Seq<char>, ErrorModel>>,
}

pub open spec fn run_from(op: OpKind, attempts_done: int, events: Seq<EventModel>) -> RunModel
    decreases events.len(),
{
    if events.len() == 0 {
        RunModel { complete: false, attempts: attempts_done, delays: 0, outcome: None }
    } else {
        let st = step(op, attempts_done, events[0]);
        match st.action {
            ActionModel::Complete { result } => RunModel {
                complete: true,
                attempts: st.attempts,
                delays: 0,
                outcome: Some(result),
            },
            ActionModel::RetryAfterDelay { delay_ms } => {
                let rest = run_from(op, st.attempts, events.drop_first());
                RunModel {
                    complete: rest.complete,
                    attempts: rest.attempts,
                    delays: rest.delays + 1,
                    outcome: rest.outcome,
                }
            },
        }
    }
}

/// Folds [`step`] over the events of a fresh session.
pub open spec fn run(op: OpKind, events: Seq<EventModel>) -> RunModel {
    run_from(op, 0, events)
}

/// Any received HTTP response — success or error status — ends the operation
/// on the spot: the retry loop is left with exactly one attempt made and no
/// delay, whatever the status, and the result is the response's
/// classification.  A later parse failure therefore can never cause a
/// retry.
pub proof fn law_response_is_terminal(op: OpKind, events: Seq<EventModel>)
    requires
        events.len() >= 1,
        events[0] is Response,
    ensures
        ({
            let r = run(op, events);
            &&& r.complete
            &&& r.attempts == 1
            &&& r.delays == 0
            &&& r.outcome == Some(
                classify_model(op, events[0]->Response_status, events[0]->Response_body),
            )
        }),
{
}

/// A 2xx response on the first attempt succeeds at once: one attempt, no
/// retry delay, and the response body is handed back.
pub proof fn law_success_on_first_attempt(
    op: OpKind,
    status: u16,
    body: Seq<char>,
    events: Seq<EventModel>,
)
    requires
        events.len() >= 1,
        events[0] == (EventModel::Response { status, body }),
        is_success_status(status),
    ensures
        ({
            let r = run(op, events);
            &&& r.complete
            &&& r.attempts == 1
            &&& r.delays == 0
            &&& r.outcome == Some(Result::<Seq<char>, ErrorModel>::Ok(body))
        }),
{
}

proof fn lemma_run_from_transport_prefix(
    op: OpKind,
    attempts_done: int,
    events: Seq<EventModel>,
    k: int,
)
    requires
        0 <= k,
        0 <= attempts_done,
        attempts_done + k + 1 <= MAX_ATTEMPTS,
        events.len() == k + 1,
        forall|i: int| 0 <= i < k ==> events[i] is TransportError,
        events[k] is Response,
    ensures
        ({
            let r = run_from(op, attempts_done, events);
            &&& r.complete
            &&& r.attempts == attempts_done + k + 1
            &&& r.delays == k
            &&& r.outcome == Some(
                classify_model(op, events[k]->Response_status, events[k]->Response_body),
            )
        }),
    decreases k,
{
    if k > 0 {
        assert(events[0] is TransportError);
        assert forall|i: int| 0 <= i < k - 1 implies events.drop_first()[i] is TransportError by {
            assert(events.drop_first()[i] == events[i + 1]);
        }
        assert(events.drop_first()[k - 1] == events[k]);
        lemma_run_from_transport_prefix(op, attempts_done + 1, events.drop_first(), k - 1);
    }
}

/// Transport failures on every earlier attempt do not change the outcome: a
/// response on the last of `k + 1` attempts (within the budget of three)
/// still ends the operation with its own classification, after exactly one
/// fixed delay per retry.  In particular, two transport failures followed by
/// a 2xx response succeed on the third attempt with two delays incurred.
pub proof fn law_transport_failures_then_response(op: OpKind, events: Seq<EventModel>, k: int)
    requires
        0 <= k < MAX_ATTEMPTS,
        events.len() == k + 1,
        forall|i: int| 0 <= i < k ==> events[i] is TransportError,
        events[k] is Response,
    ensures
        ({
            let r = run(op, events);
            &&& r.complete
            &&& r.attempts == k + 1
            &&& r.delays == k
            &&& r.outcome == Some(
                classify_model(op, events[k]->Response_status, events[k]->Response_body),
            )
        }),
{
    lemma_run_from_transport_prefix(op, 0, events, k);
}

/// Two transport failures followed by a 2xx response: the operation
/// succeeds on the third attempt, the response body is handed back, and two
/// fixed delays were incurred on the way.
pub proof fn law_third_attempt_success(
    op: OpKind,
    status: u16,
    body: Seq<char>,
    events: Seq<EventModel>,
)
    requires
        events.len() == 3,
        events[0] is TransportError,
        events[1] is TransportError,
        events[2] == (EventModel::Response { status, body }),
        is_success_status(status),
    ensures
        ({
            let r = run(op, events);
            &&& r.complete
            &&& r.attempts == 3
            &&& r.delays == 2
            &&& r.outcome == Some(Result::<Seq<char>, ErrorModel>::Ok(body))
        }),
{
    law_transport_failures_then_response(op, events, 2);
}

proof fn lemma_run_from_budget(op: OpKind, attempts_done: int, events: Seq<EventModel>)
    requires
        0 <= attempts_done < MAX_ATTEMPTS,
    ensures
        ({
            let r = run_from(op, attempts_done, events);
            &&& r.attempts <= MAX_ATTEMPTS
            &&& r.delays <= MAX_ATTEMPTS - 1 - attempts_done
        }),
    decreases events.len(),
{
    if events.len() > 0 {
        let st = step(op, attempts_done, events[0]);
        if st.action is RetryAfterDelay {
            lemma_run_from_budget(op, attempts_done + 1, events.drop_first());
        }
    }
}

/// The budget holds of every event sequence whatsoever: no operation makes
/// more than three attempts, and none waits out more than two retry delays.
pub proof fn law_attempt_budget(op: OpKind, events: Seq<EventModel>)
    ensures
        run(op, events).attempts <= MAX_ATTEMPTS,
        run(op, events).delays <= MAX_ATTEMPTS - 1,
{
    lemma_run_from_budget(op, 0, events);
}

/// Three transport failures exhaust the budget: exactly three attempts are
/// made, two delays are incurred, and the operation fails with the message
/// of the last transport failure, unchanged.
pub proof fn law_transport_exhaustion(op: OpKind, events: Seq<EventModel>)
    requires
        events.len() == MAX_ATTEMPTS,
        forall|i: int| 0 <= i < events.len() ==> events[i] is TransportError,
    ensures
        ({
            let r = run(op, events);
            &&& r.complete
            &&& r.attempts == MAX_ATTEMPTS
            &&& r.delays == MAX_ATTEMPTS - 1
            &&& r.outcome == Some(
                Result::<Seq<char>, ErrorModel>::Err(
                    ErrorModel::Transport { message: events[2]->TransportError_message },
                ),
            )
        }),
{
    let e1 = events.drop_first();
    let e2 = e1.drop_first();
    assert(events[0] is TransportError);
    assert(e1[0] == events[1]);
    assert(e1[1] == events[2]);
    assert(e2[0] == events[2]);
    assert(e2.len() == 1);
    assert(run_from(op, 2, e2).complete);
    assert(run_from(op, 1, e1).complete);
}

/// A response with a status outside the 2xx range — other than 401 on the
/// refresh operation — ends the operation at once with the generic status
/// error, carrying the status and the raw body: no retry, one attempt.
pub proof fn law_status_error_no_retry(
    op: OpKind,
    status: u16,
    body: Seq<char>,
    events: Seq<EventModel>,
)
    requires
        events.len() >= 1,
        events[0] == (EventModel::Response { status, body }),
        !is_success_status(status),
        !(op == OpKind::RefreshToken && status == 401),
    ensures
        ({
            let r = run(op, events);
            &&& r.complete
            &&& r.attempts == 1
            &&& r.delays == 0
            &&& r.outcome == Some(
                Result::<Seq<char>, ErrorModel>::Err(ErrorModel::HttpStatus { status, body }),
            )
        }),
{
}

/// HTTP 401 on the refresh operation is the specialized expired-token
/// error, a different value from the generic status error of every other
/// case — and from what the code exchange returns for the same response.
pub proof fn law_refresh_unauthorized(body: Seq<char>, events: Seq<EventModel>)
    requires
        events.len() >= 1,
        events[0] == (EventModel::Response { status: 401u16, body }),
    ensures
        run(OpKind::RefreshToken, events).outcome == Some(
            Result::<Seq<char>, ErrorModel>::Err(ErrorModel::TokenExpired),
        ),
        run(OpKind::RefreshToken, events).attempts == 1,
        run(OpKind::CreateToken, events).outcome == Some(
            Result::<Seq<char>, ErrorModel>::Err(ErrorModel::HttpStatus { status: 401u16, body }),
        ),
        forall|s: u16, b: Seq<char>|
            (ErrorModel::TokenExpired != (ErrorModel::HttpStatus { status: s, body: b })),
{
}

/// A deserialization failure is its own terminal kind: it coincides with no
/// transport failure, no status error, and not with the expired-token error,
/// so a caller that branches on the kind tells them apart.
pub proof fn law_parse_failure_distinct(
    message: Seq<char>,
    other: Seq<char>,
    status: u16,
    body: Seq<char>,
)
    ensures
        (ErrorModel::Deserialization { message }) != (ErrorModel::Transport { message: other }),
        (ErrorModel::Deserialization { message }) != (ErrorModel::HttpStatus { status, body }),
        (ErrorModel::Deserialization { message }) != ErrorModel::TokenExpired,
{
}

} // verus!

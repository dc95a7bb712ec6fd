//! One rendering call as a sequence of steps. The caller owns the transport:
//! it does what each step asks for and reports how that ended; what to do
//! next, and what the call ends in, is decided here.

use crate::error::{IoFailure, RenderingError};
use crate::protocol::{decode_response, decodes_to, is_error_response};
use crate::worker::{connect_step, ConnectStep, Worker, MAX_ATTEMPTS};
use vstd::prelude::*;

verus! {

/// How far a call has come.
#[derive(Debug, PartialEq, Eq)]
pub enum RenderPhase {
    /// Connection attempt number `attempt` is under way. `request` is the
    /// frame to send once the connection is open, or the reason why nothing
    /// will be sent.
    Connecting { attempt: u64, request: Result<Vec<u8>, RenderingError> },
    /// The frame is being written.
    Writing,
    /// The response is being read.
    Reading,
    /// The call is over.
    Closed,
}

/// A rendering call in progress.
#[derive(Debug, PartialEq, Eq)]
pub struct RenderSession {
    /// Tells this call apart from others in diagnostics.
    pub request_id: String,
    pub phase: RenderPhase,
}

/// How the operation that the last step asked for ended.
#[derive(Debug, PartialEq, Eq)]
pub enum RenderEvent {
    /// The connection attempt ended.
    Connected(Result<(), IoFailure>),
    /// The write of the frame ended.
    Written(Result<(), IoFailure>),
    /// The read ended: with all the text that the renderer sent before it
    /// closed the connection, or with a failure.
    Received(Result<String, IoFailure>),
}

/// What the caller has to do next.
#[derive(Debug, PartialEq, Eq)]
pub enum RenderAction {
    /// Wait for `delay_ms` milliseconds, then try to connect to the worker.
    Connect { delay_ms: u64 },
    /// Send all of `frame` in one write.
    Write { frame: Vec<u8> },
    /// Read until the renderer closes the connection.
    Read,
    /// Hand `result` to whoever asked for the rendering. Where `shutdown` is
    /// set, the connection is open: close it in both directions first.
    Return { result: Result<String, RenderingError>, shutdown: bool },
}

/// Whether a session in phase `before` that learns of `event` goes on in
/// phase `after` and asks for `action`.
///
/// While connecting, a refusal is answered by another attempt as long as
/// attempts are left, and any other failure ends the call with a connection
/// error. Once connected, the frame is written, or the call ends with the
/// reason why there is none. After the write comes the read, and the call
/// ends with what the response means. A failed write or read ends the call
/// with the matching error. The connection is closed by the caller whenever
/// the call fails while it is open; after a complete response the renderer
/// has closed it. An event that the phase does not wait for changes nothing
/// and asks for nothing.
pub open spec fn follows(
    before: RenderPhase,
    event: RenderEvent,
    after: RenderPhase,
    action: Option<RenderAction>,
) -> bool {
    match (before, event) {
        (RenderPhase::Connecting { attempt, request }, RenderEvent::Connected(outcome)) => {
            match connect_step(attempt, outcome) {
                ConnectStep::Connected => match request {
                    Ok(frame) => after == RenderPhase::Writing && action == Some(
                        RenderAction::Write { frame },
                    ),
                    Err(reason) => after == RenderPhase::Closed && action == Some(
                        RenderAction::Return { result: Err(reason), shutdown: true },
                    ),
                },
                ConnectStep::Retry { attempt: next, delay_ms } => after
                    == (RenderPhase::Connecting { attempt: next, request }) && action == Some(
                    RenderAction::Connect { delay_ms },
                ),
                ConnectStep::Failed(err) => after == RenderPhase::Closed && action == Some(
                    RenderAction::Return {
                        result: Err(RenderingError::ConnectionError(err)),
                        shutdown: false,
                    },
                ),
            }
        },
        (RenderPhase::Writing, RenderEvent::Written(Ok(_))) => after == RenderPhase::Reading
            && action == Some(RenderAction::Read),
        (RenderPhase::Writing, RenderEvent::Written(Err(err))) => after == RenderPhase::Closed
            && action == Some(
            RenderAction::Return {
                result: Err(RenderingError::RenderRequestError(err)),
                shutdown: true,
            },
        ),
        (RenderPhase::Reading, RenderEvent::Received(Ok(response))) => after
            == RenderPhase::Closed && (action matches Some(
            RenderAction::Return { result, shutdown },
        ) && !shutdown && decodes_to(response, result)),
        (RenderPhase::Reading, RenderEvent::Received(Err(err))) => after == RenderPhase::Closed
            && action == Some(
            RenderAction::Return {
                result: Err(RenderingError::RenderResponseError(err)),
                shutdown: true,
            },
        ),
        _ => after == before && action is None,
    }
}

impl RenderSession {
    /// Takes in how the last operation ended and says what to do next.
    pub fn advance(self, worker: &Worker, event: RenderEvent) -> (res: (
        RenderSession,
        Option<RenderAction>,
    ))
        ensures
            follows(self.phase, event, res.0.phase, res.1),
            res.0.request_id == self.request_id,
    {
        let request_id = self.request_id;
        match (self.phase, event) {
            (RenderPhase::Connecting { attempt, request }, RenderEvent::Connected(outcome)) => {
                match worker.connect(attempt, outcome) {
                    ConnectStep::Connected => match request {
                        Ok(frame) => (
                            RenderSession { request_id, phase: RenderPhase::Writing },
                            Some(RenderAction::Write { frame }),
                        ),
                        Err(reason) => (
                            RenderSession { request_id, phase: RenderPhase::Closed },
                            Some(RenderAction::Return { result: Err(reason), shutdown: true }),
                        ),
                    },
                    ConnectStep::Retry { attempt: next, delay_ms } => (
                        RenderSession {
                            request_id,
                            phase: RenderPhase::Connecting { attempt: next, request },
                        },
                        Some(RenderAction::Connect { delay_ms }),
                    ),
                    ConnectStep::Failed(err) => (
                        RenderSession { request_id, phase: RenderPhase::Closed },
                        Some(
                            RenderAction::Return {
                                result: Err(RenderingError::ConnectionError(err)),
                                shutdown: false,
                            },
                        ),
                    ),
                }
            },
            (RenderPhase::Writing, RenderEvent::Written(Ok(_))) => (
                RenderSession { request_id, phase: RenderPhase::Reading },
                Some(RenderAction::Read),
            ),
            (RenderPhase::Writing, RenderEvent::Written(Err(err))) => (
                RenderSession { request_id, phase: RenderPhase::Closed },
                Some(
                    RenderAction::Return {
                        result: Err(RenderingError::RenderRequestError(err)),
                        shutdown: true,
                    },
                ),
            ),
            (RenderPhase::Reading, RenderEvent::Received(Ok(response))) => (
                RenderSession { request_id, phase: RenderPhase::Closed },
                Some(RenderAction::Return { result: decode_response(response), shutdown: false }),
            ),
            (RenderPhase::Reading, RenderEvent::Received(Err(err))) => (
                RenderSession { request_id, phase: RenderPhase::Closed },
                Some(
                    RenderAction::Return {
                        result: Err(RenderingError::RenderResponseError(err)),
                        shutdown: true,
                    },
                ),
            ),
            (phase, _) => (RenderSession { request_id, phase }, None),
        }
    }
}

/// Whether a call went through `phases` as it learned of `events`, one by
/// one, and asked for `actions` in answer.
pub open spec fn is_run(
    phases: Seq<RenderPhase>,
    events: Seq<RenderEvent>,
    actions: Seq<Option<RenderAction>>,
) -> bool {
    &&& phases.len() == events.len() + 1
    &&& actions.len() == events.len()
    &&& forall|i: int|
        0 <= i < events.len() ==> follows(phases[i], #[trigger] events[i], phases[i + 1], actions[i])
}

/// Whether a call in this phase has nothing to send, for the reason
/// `reason`, and has not sent anything.
pub open spec fn refuses_to_send(phase: RenderPhase, reason: RenderingError) -> bool {
    match phase {
        RenderPhase::Connecting { request, .. } => request == Err::<Vec<u8>, RenderingError>(
            reason,
        ),
        RenderPhase::Closed => true,
        _ => false,
    }
}

/// How far a phase is from the start of a call.
pub open spec fn progress(phase: RenderPhase) -> nat {
    match phase {
        RenderPhase::Connecting { .. } => 0,
        RenderPhase::Writing => 1,
        RenderPhase::Reading => 2,
        RenderPhase::Closed => 3,
    }
}

/// Whether the attempt that a phase counts is one of the five.
pub open spec fn counts_attempts(phase: RenderPhase) -> bool {
    phase matches RenderPhase::Connecting { attempt, .. } ==> 1 <= attempt <= MAX_ATTEMPTS
}

/// A call that has nothing to send asks for no write and no read, whatever
/// happens: it tries to connect, and ends with a connection error or, once
/// connected, with the reason why it has nothing to send, the connection
/// being closed again.
pub proof fn lemma_refusal_sends_nothing(
    phases: Seq<RenderPhase>,
    events: Seq<RenderEvent>,
    actions: Seq<Option<RenderAction>>,
    reason: RenderingError,
)
    requires
        is_run(phases, events, actions),
        refuses_to_send(phases[0], reason),
    ensures
        forall|i: int|
            0 <= i < actions.len() ==> match #[trigger] actions[i] {
                Some(RenderAction::Write { .. }) => false,
                Some(RenderAction::Read) => false,
                Some(RenderAction::Return { result, shutdown }) => (result == Err::<
                    String,
                    RenderingError,
                >(reason) && shutdown) || (result matches Err(RenderingError::ConnectionError(_))
                    && !shutdown),
                _ => true,
            },
{
    assert forall|i: int| 0 <= i <= events.len() implies refuses_to_send(
        #[trigger] phases[i],
        reason,
    ) by {
        lemma_refusal_lasts(phases, events, actions, reason, i);
    }
    assert forall|i: int| 0 <= i < actions.len() implies match #[trigger] actions[i] {
        Some(RenderAction::Write { .. }) => false,
        Some(RenderAction::Read) => false,
        Some(RenderAction::Return { result, shutdown }) => (result == Err::<
            String,
            RenderingError,
        >(reason) && shutdown) || (result matches Err(RenderingError::ConnectionError(_))
            && !shutdown),
        _ => true,
    } by {
        assert(refuses_to_send(phases[i], reason));
        assert(follows(phases[i], events[i], phases[i + 1], actions[i]));
    }
}

/// A call that has nothing to send at the start has nothing to send at any
/// later point of the run.
proof fn lemma_refusal_lasts(
    phases: Seq<RenderPhase>,
    events: Seq<RenderEvent>,
    actions: Seq<Option<RenderAction>>,
    reason: RenderingError,
    at: int,
)
    requires
        is_run(phases, events, actions),
        refuses_to_send(phases[0], reason),
        0 <= at <= events.len(),
    ensures
        refuses_to_send(phases[at], reason),
    decreases at,
{
    if at > 0 {
        lemma_refusal_lasts(phases, events, actions, reason, at - 1);
        assert(follows(phases[at - 1], events[at - 1], phases[at], actions[at - 1]));
    }
}

/// Text that a call hands back as rendered output never begins with
/// `ERROR:`, and is the response as the renderer sent it.
pub proof fn lemma_output_is_no_error(
    before: RenderPhase,
    event: RenderEvent,
    after: RenderPhase,
    action: Option<RenderAction>,
)
    requires
        follows(before, event, after, action),
        action matches Some(RenderAction::Return { result, .. }) && result is Ok,
    ensures
        before is Reading,
        event == RenderEvent::Received(Ok(action->Some_0->result->Ok_0)),
        !is_error_response(action->Some_0->result->Ok_0@),
{
}

/// A response that begins with `ERROR:` ends the call with the exception
/// that it describes: what follows the marker, and nothing else.
pub proof fn lemma_error_response_is_exception(
    response: String,
    after: RenderPhase,
    action: Option<RenderAction>,
)
    requires
        is_error_response(response@),
        follows(RenderPhase::Reading, RenderEvent::Received(Ok(response)), after, action),
    ensures
        after is Closed,
        action matches Some(
            RenderAction::Return {
                result: Err(RenderingError::JsExceptionDuringRendering(description)),
                shutdown: false,
            },
        ) && description@ == crate::protocol::exception_description(response@),
{
}

/// A step never takes a call back, keeps the count of attempts within the
/// five, and asks for a write only when the connection has just been
/// opened, for a read only when the frame has just been written.
pub proof fn lemma_step_goes_forward(
    before: RenderPhase,
    event: RenderEvent,
    after: RenderPhase,
    action: Option<RenderAction>,
)
    requires
        follows(before, event, after, action),
    ensures
        progress(before) <= progress(after),
        counts_attempts(before) ==> counts_attempts(after),
        action matches Some(RenderAction::Connect { .. }) ==> before is Connecting
            && after is Connecting,
        action matches Some(RenderAction::Write { .. }) ==> before is Connecting && after is Writing,
        action matches Some(RenderAction::Read) ==> before is Writing && after is Reading,
        action matches Some(RenderAction::Return { .. }) ==> !(before is Closed) && after is Closed,
        before is Closed ==> after is Closed && action is None,
{
}

/// Along a run the phases never go back.
proof fn lemma_run_goes_forward(
    phases: Seq<RenderPhase>,
    events: Seq<RenderEvent>,
    actions: Seq<Option<RenderAction>>,
    from: int,
    to: int,
)
    requires
        is_run(phases, events, actions),
        0 <= from <= to <= events.len(),
    ensures
        progress(phases[from]) <= progress(phases[to]),
    decreases to - from,
{
    if from < to {
        lemma_run_goes_forward(phases, events, actions, from, to - 1);
        assert(follows(phases[to - 1], events[to - 1], phases[to], actions[to - 1]));
        lemma_step_goes_forward(phases[to - 1], events[to - 1], phases[to], actions[to - 1]);
    }
}

/// A call writes at most one frame and ends at most once: after a write no
/// second write is asked for, and after the result was handed back nothing
/// is asked for at all.
pub proof fn lemma_one_write_one_result(
    phases: Seq<RenderPhase>,
    events: Seq<RenderEvent>,
    actions: Seq<Option<RenderAction>>,
    first: int,
    second: int,
)
    requires
        is_run(phases, events, actions),
        0 <= first < second < actions.len(),
    ensures
        actions[first] matches Some(RenderAction::Write { .. }) ==> !(actions[second] matches Some(
            RenderAction::Write { .. },
        )),
        actions[first] matches Some(RenderAction::Return { .. }) ==> actions[second] is None,
{
    assert(follows(phases[first], events[first], phases[first + 1], actions[first]));
    assert(follows(phases[second], events[second], phases[second + 1], actions[second]));
    lemma_step_goes_forward(phases[first], events[first], phases[first + 1], actions[first]);
    lemma_step_goes_forward(phases[second], events[second], phases[second + 1], actions[second]);
    lemma_run_goes_forward(phases, events, actions, first + 1, second);
}

/// A call holds at most one connection: once an attempt has opened one, no
/// further attempt is asked for.
pub proof fn lemma_one_connection_per_call(
    phases: Seq<RenderPhase>,
    events: Seq<RenderEvent>,
    actions: Seq<Option<RenderAction>>,
    opened: int,
    later: int,
)
    requires
        is_run(phases, events, actions),
        0 <= opened < later < actions.len(),
        phases[opened] is Connecting,
        events[opened] matches RenderEvent::Connected(Ok(_)),
    ensures
        !(actions[later] matches Some(RenderAction::Connect { .. })),
{
    assert(follows(phases[opened], events[opened], phases[opened + 1], actions[opened]));
    assert(follows(phases[later], events[later], phases[later + 1], actions[later]));
    lemma_step_goes_forward(phases[later], events[later], phases[later + 1], actions[later]);
    lemma_run_goes_forward(phases, events, actions, opened + 1, later);
}

/// The number of the attempt that a phase counts; none is under way once
/// the connection is open.
pub open spec fn attempt_of(phase: RenderPhase) -> nat {
    match phase {
        RenderPhase::Connecting { attempt, .. } => attempt as nat,
        _ => 0,
    }
}

/// While a run is still connecting at `to`, it was connecting at every
/// earlier point, and has not counted down.
proof fn lemma_attempts_count_up(
    phases: Seq<RenderPhase>,
    events: Seq<RenderEvent>,
    actions: Seq<Option<RenderAction>>,
    from: int,
    to: int,
)
    requires
        is_run(phases, events, actions),
        0 <= from <= to <= events.len(),
        phases[to] is Connecting,
        counts_attempts(phases[0]),
    ensures
        phases[from] is Connecting,
        counts_attempts(phases[from]),
        counts_attempts(phases[to]),
        attempt_of(phases[from]) <= attempt_of(phases[to]),
    decreases to,
{
    if to > 0 {
        assert(follows(phases[to - 1], events[to - 1], phases[to], actions[to - 1]));
        if from < to {
            lemma_attempts_count_up(phases, events, actions, from, to - 1);
        } else {
            lemma_attempts_count_up(phases, events, actions, 0, to - 1);
        }
    }
}

/// Within one call every wait before a new connection attempt is longer
/// than the one before it, and each is three milliseconds times the number
/// of an attempt from the second to the fifth. So a call waits at most four
/// times, and connects at most five times.
pub proof fn lemma_reconnects_wait_longer(
    phases: Seq<RenderPhase>,
    events: Seq<RenderEvent>,
    actions: Seq<Option<RenderAction>>,
    first: int,
    second: int,
)
    requires
        is_run(phases, events, actions),
        counts_attempts(phases[0]),
        0 <= first < second < actions.len(),
        actions[first] matches Some(RenderAction::Connect { .. }),
        actions[second] matches Some(RenderAction::Connect { .. }),
    ensures
        actions[first]->Some_0->delay_ms < actions[second]->Some_0->delay_ms,
        exists|attempt: nat|
            2 <= attempt <= MAX_ATTEMPTS && actions[second]->Some_0->delay_ms
                == #[trigger] crate::worker::retry_delay(attempt),
{
    assert(follows(phases[first], events[first], phases[first + 1], actions[first]));
    assert(follows(phases[second], events[second], phases[second + 1], actions[second]));
    lemma_attempts_count_up(phases, events, actions, first + 1, second);
    lemma_attempts_count_up(phases, events, actions, first, first);
    let attempt = attempt_of(phases[second + 1]);
    assert(actions[second]->Some_0->delay_ms == crate::worker::retry_delay(attempt));
}

} // verus!

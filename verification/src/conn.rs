//! The per-connection pipeline as a state machine: rate check, upstream
//! connect, then a relay loop of request/response pairs.
//!
//! The embedding performs the socket work: it accepts the connection, asks
//! the rate limiter, runs the failover connect, reads and writes HTTP
//! messages through the wire codec, and feeds each outcome back here as an
//! event. Every decision — which error status answers which failure, when
//! the connection stays open and when it closes — is taken by `step`.

use vstd::prelude::*;

verus! {

/// Status answering a malformed, incomplete, or length-inconsistent request.
pub const STATUS_BAD_REQUEST: u16 = 400;

/// Status answering a request whose body exceeds the size limit.
pub const STATUS_PAYLOAD_TOO_LARGE: u16 = 413;

/// Status answering a rate-limited client.
pub const STATUS_TOO_MANY_REQUESTS: u16 = 429;

/// Status answering upstream unavailability or an upstream transport error.
pub const STATUS_BAD_GATEWAY: u16 = 502;

/// Why a client request could not be parsed. The wire codec distinguishes
/// these; each maps to the status code of the error response.
#[derive(Clone, Copy, Debug, PartialEq, Eq, Structural)]
pub enum RequestFault {
    /// The message ended before it was complete (after some data arrived).
    Incomplete,
    /// The bytes do not form an HTTP request.
    Malformed,
    /// The content-length header is not a valid length.
    InvalidContentLength,
    /// The body's length does not match the declared content length.
    ContentLengthMismatch,
    /// The body exceeds the acceptable size.
    BodyTooLarge,
}

/// What one attempt to read a client request came to.
#[derive(Clone, Copy, Debug, PartialEq, Eq, Structural)]
pub enum RequestOutcome {
    /// A well-formed request was read.
    Parsed,
    /// The client closed the connection cleanly, sending no further data.
    ClosedNoData,
    /// A socket error occurred while reading; the client is presumed gone.
    Transport,
    /// Data arrived but did not form a valid request.
    Invalid(RequestFault),
}

/// Where a connection stands in its pipeline. `ReadingRequest`,
/// `SendingRequest` and `ReadingResponse` together make up the relay phase.
#[derive(Clone, Copy, Debug, PartialEq, Eq, Structural)]
pub enum ConnState {
    /// Awaiting the rate limiter's verdict on this client.
    RateCheck,
    /// Awaiting the outcome of the failover connect to an upstream.
    Connecting,
    /// Awaiting one request from the client.
    ReadingRequest,
    /// Awaiting the result of forwarding the request to the upstream.
    SendingRequest,
    /// Awaiting the upstream's response.
    ReadingResponse,
    /// The connection is finished; every later event leaves it closed.
    Closed,
}

/// What the embedding observed while performing the current state's work.
#[derive(Clone, Copy, Debug, PartialEq, Eq, Structural)]
pub enum ConnEvent {
    /// The rate limiter admitted the request.
    RateAllowed,
    /// The rate limiter rejected the request.
    RateRejected,
    /// The failover connect produced an upstream connection.
    UpstreamConnected,
    /// No upstream is available.
    UpstreamUnavailable,
    /// One attempt to read a client request finished with this outcome.
    RequestRead(RequestOutcome),
    /// The request was written to the upstream.
    RequestSent,
    /// Writing the request to the upstream failed.
    RequestSendFailed,
    /// The upstream's response was read.
    ResponseRead,
    /// Reading the upstream's response failed.
    ResponseReadFailed,
}

/// What the embedding must do next.
#[derive(Clone, Copy, Debug, PartialEq, Eq, Structural)]
pub enum ConnAction {
    /// Nothing to emit; perform the work of the next state.
    Proceed,
    /// Send an error response with this status, then keep reading requests.
    SendErrorAndContinue(u16),
    /// Send an error response with this status, then close the connection.
    SendErrorAndClose(u16),
    /// Forward the upstream's response to the client verbatim, then keep
    /// reading requests.
    ForwardResponseAndContinue,
    /// Close the connection without responding.
    CloseQuietly,
}

/// The status code answering each request fault: 413 for an oversized body,
/// 400 for everything else.
pub open spec fn status_for_fault(f: RequestFault) -> u16 {
    match f {
        RequestFault::BodyTooLarge => STATUS_PAYLOAD_TOO_LARGE,
        _ => STATUS_BAD_REQUEST,
    }
}

/// The transition table of the pipeline. The final arm covers events that
/// the paired state never awaits; such an event closes the connection.
pub open spec fn step_spec(s: ConnState, e: ConnEvent) -> (ConnState, ConnAction) {
    match (s, e) {
        (ConnState::RateCheck, ConnEvent::RateAllowed) => (
            ConnState::Connecting,
            ConnAction::Proceed,
        ),
        (ConnState::RateCheck, ConnEvent::RateRejected) => (
            ConnState::Closed,
            ConnAction::SendErrorAndClose(STATUS_TOO_MANY_REQUESTS),
        ),
        (ConnState::Connecting, ConnEvent::UpstreamConnected) => (
            ConnState::ReadingRequest,
            ConnAction::Proceed,
        ),
        (ConnState::Connecting, ConnEvent::UpstreamUnavailable) => (
            ConnState::Closed,
            ConnAction::SendErrorAndClose(STATUS_BAD_GATEWAY),
        ),
        (ConnState::ReadingRequest, ConnEvent::RequestRead(RequestOutcome::Parsed)) => (
            ConnState::SendingRequest,
            ConnAction::Proceed,
        ),
        (ConnState::ReadingRequest, ConnEvent::RequestRead(RequestOutcome::ClosedNoData)) => (
            ConnState::Closed,
            ConnAction::CloseQuietly,
        ),
        (ConnState::ReadingRequest, ConnEvent::RequestRead(RequestOutcome::Transport)) => (
            ConnState::Closed,
            ConnAction::CloseQuietly,
        ),
        (ConnState::ReadingRequest, ConnEvent::RequestRead(RequestOutcome::Invalid(f))) => (
            ConnState::ReadingRequest,
            ConnAction::SendErrorAndContinue(status_for_fault(f)),
        ),
        (ConnState::SendingRequest, ConnEvent::RequestSent) => (
            ConnState::ReadingResponse,
            ConnAction::Proceed,
        ),
        (ConnState::SendingRequest, ConnEvent::RequestSendFailed) => (
            ConnState::Closed,
            ConnAction::SendErrorAndClose(STATUS_BAD_GATEWAY),
        ),
        (ConnState::ReadingResponse, ConnEvent::ResponseRead) => (
            ConnState::ReadingRequest,
            ConnAction::ForwardResponseAndContinue,
        ),
        (ConnState::ReadingResponse, ConnEvent::ResponseReadFailed) => (
            ConnState::Closed,
            ConnAction::SendErrorAndClose(STATUS_BAD_GATEWAY),
        ),
        _ => (ConnState::Closed, ConnAction::CloseQuietly),
    }
}

/// The state a fresh connection starts in: the rate check where limiting is
/// enabled, otherwise straight to the upstream connect — a disabled limiter
/// is never consulted.
pub fn initial_state(max_requests: usize) -> (s: ConnState)
    ensures
        s == (if max_requests == 0 {
            ConnState::Connecting
        } else {
            ConnState::RateCheck
        }),
{
    if max_requests == 0 {
        ConnState::Connecting
    } else {
        ConnState::RateCheck
    }
}

/// Performs one transition of the pipeline.
pub fn step(s: ConnState, e: ConnEvent) -> (r: (ConnState, ConnAction))
    ensures
        r == step_spec(s, e),
{
    match (s, e) {
        (ConnState::RateCheck, ConnEvent::RateAllowed) => (
            ConnState::Connecting,
            ConnAction::Proceed,
        ),
        (ConnState::RateCheck, ConnEvent::RateRejected) => (
            ConnState::Closed,
            ConnAction::SendErrorAndClose(STATUS_TOO_MANY_REQUESTS),
        ),
        (ConnState::Connecting, ConnEvent::UpstreamConnected) => (
            ConnState::ReadingRequest,
            ConnAction::Proceed,
        ),
        (ConnState::Connecting, ConnEvent::UpstreamUnavailable) => (
            ConnState::Closed,
            ConnAction::SendErrorAndClose(STATUS_BAD_GATEWAY),
        ),
        (ConnState::ReadingRequest, ConnEvent::RequestRead(RequestOutcome::Parsed)) => (
            ConnState::SendingRequest,
            ConnAction::Proceed,
        ),
        (ConnState::ReadingRequest, ConnEvent::RequestRead(RequestOutcome::ClosedNoData)) => (
            ConnState::Closed,
            ConnAction::CloseQuietly,
        ),
        (ConnState::ReadingRequest, ConnEvent::RequestRead(RequestOutcome::Transport)) => (
            ConnState::Closed,
            ConnAction::CloseQuietly,
        ),
        (ConnState::ReadingRequest, ConnEvent::RequestRead(RequestOutcome::Invalid(f))) => (
            ConnState::ReadingRequest,
            ConnAction::SendErrorAndContinue(
                match f {
                    RequestFault::BodyTooLarge => STATUS_PAYLOAD_TOO_LARGE,
                    _ => STATUS_BAD_REQUEST,
                },
            ),
        ),
        (ConnState::SendingRequest, ConnEvent::RequestSent) => (
            ConnState::ReadingResponse,
            ConnAction::Proceed,
        ),
        (ConnState::SendingRequest, ConnEvent::RequestSendFailed) => (
            ConnState::Closed,
            ConnAction::SendErrorAndClose(STATUS_BAD_GATEWAY),
        ),
        (ConnState::ReadingResponse, ConnEvent::ResponseRead) => (
            ConnState::ReadingRequest,
            ConnAction::ForwardResponseAndContinue,
        ),
        (ConnState::ReadingResponse, ConnEvent::ResponseReadFailed) => (
            ConnState::Closed,
            ConnAction::SendErrorAndClose(STATUS_BAD_GATEWAY),
        ),
        _ => (ConnState::Closed, ConnAction::CloseQuietly),
    }
}

/// The state reached by feeding a sequence of events from `s`.
pub open spec fn run(s: ConnState, events: Seq<ConnEvent>) -> ConnState
    decreases events.len(),
{
    if events.len() == 0 {
        s
    } else {
        run(step_spec(s, events[0]).0, events.drop_first())
    }
}

/// A closed connection stays closed: every event leaves `Closed` where it
/// is, so no sequence of events leads anywhere else.
pub proof fn lemma_closed_absorbing(events: Seq<ConnEvent>)
    ensures
        run(ConnState::Closed, events) == ConnState::Closed,
    decreases events.len(),
{
    if events.len() > 0 {
        lemma_closed_absorbing(events.drop_first());
    }
}

/// A rate-limited client is answered with 429 and its connection closes at
/// once; whatever happens afterwards, the connection never reaches the
/// upstream-connecting state, so no upstream is contacted for that request.
pub proof fn lemma_rejected_never_connects(events: Seq<ConnEvent>)
    ensures
        step_spec(ConnState::RateCheck, ConnEvent::RateRejected) == (
            ConnState::Closed,
            ConnAction::SendErrorAndClose(STATUS_TOO_MANY_REQUESTS),
        ),
        run(step_spec(ConnState::RateCheck, ConnEvent::RateRejected).0, events)
            != ConnState::Connecting,
{
    lemma_closed_absorbing(events);
}

/// A request fault is answered with its 4xx status and the connection
/// stays open for further requests; an invalid content length in
/// particular draws 400 and leaves the pipeline reading the next request.
pub proof fn lemma_fault_keeps_connection_open(f: RequestFault)
    ensures
        step_spec(ConnState::ReadingRequest, ConnEvent::RequestRead(RequestOutcome::Invalid(f)))
            == (ConnState::ReadingRequest, ConnAction::SendErrorAndContinue(status_for_fault(f))),
        status_for_fault(RequestFault::InvalidContentLength) == STATUS_BAD_REQUEST,
        status_for_fault(RequestFault::BodyTooLarge) == STATUS_PAYLOAD_TOO_LARGE,
{
}

/// One full relay round: a parsed request is forwarded to the upstream, its
/// response is read and forwarded back verbatim, and the pipeline returns
/// to reading the next request — request N+1 is never sent before request
/// N's response has come back.
pub proof fn lemma_relay_round()
    ensures
        step_spec(ConnState::ReadingRequest, ConnEvent::RequestRead(RequestOutcome::Parsed))
            == (ConnState::SendingRequest, ConnAction::Proceed),
        step_spec(ConnState::SendingRequest, ConnEvent::RequestSent)
            == (ConnState::ReadingResponse, ConnAction::Proceed),
        step_spec(ConnState::ReadingResponse, ConnEvent::ResponseRead)
            == (ConnState::ReadingRequest, ConnAction::ForwardResponseAndContinue),
{
}

} // verus!

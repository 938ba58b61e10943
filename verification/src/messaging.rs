use crate::session::{AppError, RunOutcome, spec_exit_code};
use vstd::prelude::*;
use vstd::string::StrSliceExecFns;
use vstd::string::StringExecFns;
use vstd::string::StringSliceAdditionalSpecFns;
use vstd::utf8::{decode_utf8, encode_utf8, valid_utf8};

verus! {

/// One publish request: the default exchange, routed by queue name, with a
/// raw byte payload.
pub struct PublishRequest {
    pub exchange: String,
    pub routing_key: String,
    pub payload: Vec<u8>,
}

/// Builds the one publish a send run issues: the payload is the UTF-8
/// encoding of the message, routed to the queue through the default (empty)
/// exchange.
pub fn build_publish(queue_name: &str, message: &str) -> (r: PublishRequest)
    ensures
        r.exchange@ == Seq::<char>::empty(),
        r.routing_key@ == queue_name@,
        r.payload@ == encode_utf8(message@),
{
    PublishRequest {
        exchange: String::new(),
        routing_key: String::from_str(queue_name),
        payload: message.as_bytes_vec(),
    }
}

/// How a log line is ranked.
#[derive(Debug, Clone, Copy, PartialEq, Eq, Structural)]
pub enum LogLevel {
    Info,
    Error,
}

/// What the send path does once the publish attempt has resolved.
pub struct SendReport {
    pub log_level: LogLevel,
    pub outcome: RunOutcome,
}

/// What `send_outcome` must return: a failed publish is logged at error
/// level, a successful one at info level, and the run completes normally
/// either way.
pub open spec fn send_report_post(publish_ok: bool, r: SendReport) -> bool {
    &&& r.outcome == RunOutcome::Completed
    &&& (r.log_level == LogLevel::Error <==> !publish_ok)
}

/// Settles the send path after the publish attempt: the failure is only
/// reported, never propagated.
pub fn send_outcome(publish_ok: bool) -> (r: SendReport)
    ensures
        send_report_post(publish_ok, r),
{
    if publish_ok {
        SendReport { log_level: LogLevel::Info, outcome: RunOutcome::Completed }
    } else {
        SendReport { log_level: LogLevel::Error, outcome: RunOutcome::Completed }
    }
}

/// A publish failure during a send run is reported at error level, yet the
/// process exit code stays zero: the send path swallows the failure.
pub proof fn publish_failure_swallowed(r: SendReport)
    requires
        send_report_post(false, r),
    ensures
        r.log_level == LogLevel::Error,
        spec_exit_code(r.outcome) == 0,
{
}

/// Relies on std::str::from_utf8: it returns Ok exactly when the bytes are
/// valid UTF-8, and the returned slice lies over those same bytes.
#[verifier::external_body]
fn bytes_as_str(bytes: &[u8]) -> (r: Option<&str>)
    ensures
        r is Some <==> valid_utf8(bytes@),
        r is Some ==> r->0.spec_bytes() == bytes@,
{
    std::str::from_utf8(bytes).ok()
}

/// What the receiver does with one delivered payload.
pub enum DeliveryAction {
    /// The payload decoded: log the text and acknowledge the delivery once.
    LogAndAck { text: String },
    /// The payload is not UTF-8: log an error and leave it unacknowledged.
    LogDecodeError,
}

/// What `handle_delivery` must return: a valid UTF-8 payload is logged
/// verbatim and acknowledged; any other payload is reported and skipped.
pub open spec fn delivery_post(payload: Seq<u8>, r: DeliveryAction) -> bool {
    match r {
        DeliveryAction::LogAndAck { text } => valid_utf8(payload) && text@ == decode_utf8(payload),
        DeliveryAction::LogDecodeError => !valid_utf8(payload),
    }
}

/// Decides what to do with one delivered payload: decode it as UTF-8 text to
/// log and acknowledge, or report the decode failure and skip it.
pub fn handle_delivery(payload: &[u8]) -> (r: DeliveryAction)
    ensures
        delivery_post(payload@, r),
{
    match bytes_as_str(payload) {
        Some(s) => {
            proof {
                // The slice lies over the payload bytes, so its characters
                // are their decoding.
                vstd::utf8::encode_utf8_decode_utf8(s@);
            }
            DeliveryAction::LogAndAck { text: String::from_str(s) }
        },
        None => DeliveryAction::LogDecodeError,
    }
}

/// Where the receive loop stands.
pub enum RecvState {
    /// Waiting for the next delivery or the end of the stream.
    Listening,
    /// A delivery was logged and its acknowledgment is in flight.
    AwaitingAck,
    /// The loop has ended, normally or with a fatal error.
    Done { error: Option<AppError> },
}

/// An event the broker stream hands the receive loop.
pub enum RecvEvent {
    /// A message arrived with this payload.
    Delivery { payload: Vec<u8> },
    /// The subscription stream ended.
    StreamEnded,
    /// The subscription stream yielded a fault instead of a delivery.
    StreamFaulted,
    /// The in-flight acknowledgment succeeded.
    AckOk,
    /// The in-flight acknowledgment failed.
    AckFailed,
}

/// What the loop driver must do next.
pub enum RecvAction {
    /// Log the text at info level and acknowledge the delivery once.
    LogAndAck { text: String },
    /// Log a decode error at error level; do not acknowledge.
    LogDecodeError,
    /// Nothing to perform; await the next event.
    AwaitNext,
    /// Stop the loop; the state then carries the terminal result.
    Stop,
}

/// What one step of the receive loop must yield, for every state and event:
/// a delivery is decoded, logged and acknowledged or skipped; the end of the
/// stream ends the loop normally; a faulted stream or a failed acknowledgment
/// ends it with a fatal error; an event that does not belong to the state
/// changes nothing.
pub open spec fn recv_step_post(
    state: RecvState,
    event: RecvEvent,
    next: RecvState,
    action: RecvAction,
) -> bool {
    match (state, event) {
        (RecvState::Listening, RecvEvent::Delivery { payload }) => {
            if valid_utf8(payload@) {
                &&& next == RecvState::AwaitingAck
                &&& (action matches RecvAction::LogAndAck { text } && text@ == decode_utf8(
                    payload@,
                ))
            } else {
                &&& next == RecvState::Listening
                &&& action == RecvAction::LogDecodeError
            }
        },
        (RecvState::Listening, RecvEvent::StreamEnded) => {
            &&& next == (RecvState::Done { error: None })
            &&& action == RecvAction::Stop
        },
        (RecvState::Listening, RecvEvent::StreamFaulted) => {
            &&& next == (RecvState::Done { error: Some(AppError::Consume) })
            &&& action == RecvAction::Stop
        },
        (RecvState::AwaitingAck, RecvEvent::AckOk) => {
            &&& next == RecvState::Listening
            &&& action == RecvAction::AwaitNext
        },
        (RecvState::AwaitingAck, RecvEvent::AckFailed) => {
            &&& next == (RecvState::Done { error: Some(AppError::Ack) })
            &&& action == RecvAction::Stop
        },
        _ => next == state && action == RecvAction::AwaitNext,
    }
}

/// Advances the receive loop by one event.
pub fn receiver_step(state: RecvState, event: RecvEvent) -> (r: (RecvState, RecvAction))
    ensures
        recv_step_post(state, event, r.0, r.1),
{
    match (state, event) {
        (RecvState::Listening, RecvEvent::Delivery { payload }) => {
            match handle_delivery(payload.as_slice()) {
                DeliveryAction::LogAndAck { text } => (
                    RecvState::AwaitingAck,
                    RecvAction::LogAndAck { text },
                ),
                DeliveryAction::LogDecodeError => (RecvState::Listening, RecvAction::LogDecodeError),
            }
        },
        (RecvState::Listening, RecvEvent::StreamEnded) => (
            RecvState::Done { error: None },
            RecvAction::Stop,
        ),
        (RecvState::Listening, RecvEvent::StreamFaulted) => (
            RecvState::Done { error: Some(AppError::Consume) },
            RecvAction::Stop,
        ),
        (RecvState::AwaitingAck, RecvEvent::AckOk) => (RecvState::Listening, RecvAction::AwaitNext),
        (RecvState::AwaitingAck, RecvEvent::AckFailed) => (
            RecvState::Done { error: Some(AppError::Ack) },
            RecvAction::Stop,
        ),
        (s, _) => (s, RecvAction::AwaitNext),
    }
}

/// A delivery while listening is handled by its payload alone: valid UTF-8
/// text is logged verbatim and acknowledged exactly once (the one ack of the
/// step's action, confirmed before the next delivery is taken); anything else
/// is reported as a decode error and never acknowledged.
pub proof fn delivery_logged_and_acked(
    state: RecvState,
    event: RecvEvent,
    next: RecvState,
    action: RecvAction,
)
    requires
        state is Listening,
        event is Delivery,
        recv_step_post(state, event, next, action),
    ensures
        event matches RecvEvent::Delivery { payload } ==> {
            if valid_utf8(payload@) {
                &&& (action matches RecvAction::LogAndAck { text } && text@ == decode_utf8(
                    payload@,
                ))
                &&& next is AwaitingAck
            } else {
                &&& action == RecvAction::LogDecodeError
                &&& next is Listening
            }
        },
{
}

/// Only a fresh delivery taken in the listening state yields an
/// acknowledgment action; no other state and event does. Each delivery is
/// therefore acknowledged at most once: the loop confirms that one
/// acknowledgment before it takes another delivery.
pub proof fn ack_only_for_fresh_delivery(
    state: RecvState,
    event: RecvEvent,
    next: RecvState,
    action: RecvAction,
)
    requires
        recv_step_post(state, event, next, action),
        action is LogAndAck,
    ensures
        state is Listening,
        event is Delivery,
        next is AwaitingAck,
{
}

/// An acknowledgment failure terminates the receive loop with a fatal error,
/// and the process exit code for such a run is non-zero.
pub proof fn ack_failure_fatal(state: RecvState, next: RecvState, action: RecvAction)
    requires
        state is AwaitingAck,
        recv_step_post(state, RecvEvent::AckFailed, next, action),
    ensures
        next == (RecvState::Done { error: Some(AppError::Ack) }),
        action == RecvAction::Stop,
        spec_exit_code(RunOutcome::Failed(AppError::Ack)) != 0,
{
}

/// The terminal result of a finished receive loop, as the run reports it.
pub fn receiver_outcome(state: &RecvState) -> (r: Option<RunOutcome>)
    ensures
        match *state {
            RecvState::Done { error: None } => r == Some(RunOutcome::Completed),
            RecvState::Done { error: Some(e) } => r == Some(RunOutcome::Failed(e)),
            _ => r is None,
        },
{
    match state {
        RecvState::Done { error: None } => Some(RunOutcome::Completed),
        RecvState::Done { error: Some(e) } => Some(RunOutcome::Failed(*e)),
        _ => None,
    }
}

} // verus!

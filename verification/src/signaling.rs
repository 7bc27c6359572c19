//! The WebRTC signaling endpoints: what each one answers.

use vstd::prelude::*;

verus! {

/// Body of an offer: the caller's session description.
#[derive(Clone, Debug, PartialEq, Eq)]
pub struct OfferRequest {
    pub sdp: String,
}

/// Body of a successful offer: the answering session description.
#[derive(Clone, Debug, PartialEq, Eq)]
pub struct SdpResponse {
    pub sdp: String,
}

/// Body of an ICE candidate sent by the caller.
#[derive(Clone, Debug, PartialEq, Eq)]
pub struct IceRequest {
    pub candidate: String,
}

/// ICE candidates gathered on the host side since the last request.
#[derive(Clone, Debug, PartialEq, Eq)]
pub struct IceResponse {
    pub candidates: Vec<String>,
}

/// Body of a failed request.
#[derive(Clone, Debug, PartialEq, Eq)]
pub struct ErrorResponse {
    pub error: String,
}

/// HTTP status codes the endpoints answer with.
pub const STATUS_OK: u16 = 200;
pub const STATUS_BAD_REQUEST: u16 = 400;
pub const STATUS_SERVICE_UNAVAILABLE: u16 = 503;
pub const STATUS_GATEWAY_TIMEOUT: u16 = 504;

/// What became of an offer handed to the streaming side.
#[derive(Clone, Debug, PartialEq, Eq)]
pub enum OfferOutcome {
    /// The offer could not be handed over: nobody listens.
    ChannelClosed,
    /// The answer came back.
    Answered(String),
    /// The other side dropped the reply channel without answering.
    AnswerDropped,
    /// No answer came in time.
    TimedOut,
}

/// The body of a signaling reply.
#[derive(Clone, Debug, PartialEq, Eq)]
pub enum SignalingBody {
    Sdp(SdpResponse),
    Ice(IceResponse),
    Error(ErrorResponse),
}

/// A signaling reply: status and body.
#[derive(Clone, Debug, PartialEq, Eq)]
pub struct SignalingReply {
    pub status: u16,
    pub body: SignalingBody,
}

/// Whether `b` is an error body with text `message`.
pub open spec fn is_error_body(b: SignalingBody, message: Seq<char>) -> bool {
    b matches SignalingBody::Error(e) && e.error@ == message
}

fn error_reply(status: u16, message: &str) -> (r: SignalingReply)
    ensures
        r.status == status,
        is_error_body(r.body, message@),
{
    SignalingReply {
        status,
        body: SignalingBody::Error(ErrorResponse { error: String::from_str(message) }),
    }
}

/// The reply to an offer: the answer with 200, or an error saying why there
/// is none: 503 when nobody listens, 504 when the answer was dropped or
/// late.
pub fn offer_reply(outcome: OfferOutcome) -> (r: SignalingReply)
    ensures
        match outcome {
            OfferOutcome::Answered(sdp) => r.status == STATUS_OK && r.body == SignalingBody::Sdp(
                SdpResponse { sdp },
            ),
            OfferOutcome::ChannelClosed => r.status == STATUS_SERVICE_UNAVAILABLE && is_error_body(
                r.body,
                "Signaling channel closed"@,
            ),
            OfferOutcome::AnswerDropped => r.status == STATUS_GATEWAY_TIMEOUT && is_error_body(
                r.body,
                "Sidecar dropped answer channel"@,
            ),
            OfferOutcome::TimedOut => r.status == STATUS_GATEWAY_TIMEOUT && is_error_body(
                r.body,
                "Timed out waiting for WebRTC answer from sidecar"@,
            ),
        },
{
    match outcome {
        OfferOutcome::Answered(sdp) => SignalingReply {
            status: STATUS_OK,
            body: SignalingBody::Sdp(SdpResponse { sdp }),
        },
        OfferOutcome::ChannelClosed => error_reply(
            STATUS_SERVICE_UNAVAILABLE,
            "Signaling channel closed",
        ),
        OfferOutcome::AnswerDropped => error_reply(
            STATUS_GATEWAY_TIMEOUT,
            "Sidecar dropped answer channel",
        ),
        OfferOutcome::TimedOut => error_reply(
            STATUS_GATEWAY_TIMEOUT,
            "Timed out waiting for WebRTC answer from sidecar",
        ),
    }
}

/// The reply to a posted answer: answers come back with the offer, so this
/// is always refused with 400.
pub fn answer_reply() -> (r: SignalingReply)
    ensures
        r.status == STATUS_BAD_REQUEST,
        is_error_body(r.body, "WebRTC answers are returned in the offer response"@),
{
    error_reply(STATUS_BAD_REQUEST, "WebRTC answers are returned in the offer response")
}

/// The reply to an ICE request: every candidate gathered so far, with 200;
/// the buffer is left empty, so each candidate is handed out once.
pub fn ice_reply(buffer: &mut Vec<String>) -> (r: SignalingReply)
    ensures
        r.status == STATUS_OK,
        r.body matches SignalingBody::Ice(ice) && ice.candidates@ == old(buffer)@,
        final(buffer)@.len() == 0,
{
    let mut candidates = Vec::new();
    std::mem::swap(&mut candidates, buffer);
    SignalingReply { status: STATUS_OK, body: SignalingBody::Ice(IceResponse { candidates }) }
}

} // verus!

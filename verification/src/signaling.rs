//! The signaling exchange: one HTTP POST that carries the local offer and
//! brings back the remote answer.
//!
//! The request and the response are plain values here; sending is the
//! embedding program's work. The answer text becomes a session description
//! of kind "answer" by way of the JSON form that the WebRTC stack reads.

use vstd::prelude::*;
use webrtc::peer_connection::sdp::sdp_type::RTCSdpType;
use webrtc::peer_connection::sdp::session_description::RTCSessionDescription;

verus! {

/// JSON key of the kind of a session description.
pub const KEY_TYPE: &'static str = "type";

/// JSON key of the text of a session description.
pub const KEY_SDP: &'static str = "sdp";

/// JSON name of the kind "answer".
pub const KIND_ANSWER: &'static str = "answer";

/// The kind of a session description.
#[derive(Clone, Copy, Debug, PartialEq, Eq, Structural)]
pub enum SdpKind {
    Unspecified,
    Offer,
    Pranswer,
    Answer,
    Rollback,
}

/// A session description: its kind and its text.
#[derive(Debug, PartialEq, Eq)]
pub struct SessionDescription {
    pub kind: SdpKind,
    pub sdp: String,
}

/// Mathematical value of a [`SessionDescription`].
pub struct SessionDescriptionView {
    pub kind: SdpKind,
    pub sdp: Seq<char>,
}

impl View for SessionDescription {
    type V = SessionDescriptionView;

    open spec fn view(&self) -> SessionDescriptionView {
        SessionDescriptionView { kind: self.kind, sdp: self.sdp@ }
    }
}

/// The signaling request: a POST to `url` with `body`.
#[derive(Debug, PartialEq, Eq)]
pub struct SignalingRequest {
    pub url: String,
    pub body: String,
}

/// Mathematical value of a [`SignalingRequest`].
pub struct SignalingRequestView {
    pub url: Seq<char>,
    pub body: Seq<char>,
}

impl View for SignalingRequest {
    type V = SignalingRequestView;

    open spec fn view(&self) -> SignalingRequestView {
        SignalingRequestView { url: self.url@, body: self.body@ }
    }
}

/// The signaling response: status code and entire body.
#[derive(Debug, PartialEq, Eq)]
pub struct SignalingResponse {
    pub status: u16,
    pub body: String,
}

/// Mathematical value of a [`SignalingResponse`].
pub struct SignalingResponseView {
    pub status: u16,
    pub body: Seq<char>,
}

impl View for SignalingResponse {
    type V = SignalingResponseView;

    open spec fn view(&self) -> SignalingResponseView {
        SignalingResponseView { status: self.status, body: self.body@ }
    }
}

/// Why an answer text yielded no session description.
#[derive(Clone, Copy, Debug, PartialEq, Eq, Structural)]
pub enum SignalingError {
    /// The text did not make a session description of kind "answer".
    MalformedAnswer,
}

/// The request that offers `offer_sdp` to the endpoint at `url`: the body is
/// the description's text as it is.
pub fn whep_request(url: &str, offer_sdp: String) -> (request: SignalingRequest)
    ensures
        request@ == (SignalingRequestView { url: url@, body: offer_sdp@ }),
{
    SignalingRequest { url: url.to_owned(), body: offer_sdp }
}

/// The answer text of a response: the body as it is, whatever the status.
pub fn whep_answer(response: SignalingResponse) -> (answer_sdp: String)
    ensures
        answer_sdp@ == response@.body,
{
    response.body
}

/// The compact JSON text of the object with the two members `k1: v1` and
/// `k2: v2`, both values strings.
pub uninterp spec fn json_object_text(
    k1: Seq<char>,
    v1: Seq<char>,
    k2: Seq<char>,
    v2: Seq<char>,
) -> Seq<char>;

/// The session description that a JSON text deserializes to, if it does.
pub uninterp spec fn description_of_json(text: Seq<char>) -> Option<(SdpKind, Seq<char>)>;

/// The error type of `serde_json::from_str`, as an opaque value.
#[verifier::external_type_specification]
#[verifier::external_body]
pub struct ExJsonError(serde_json::Error);

/// Builds the `serde_json::Value` object with the two string members and
/// calls its `to_string`.
///
/// Not proved, but taken from the crate's source: the text depends on the
/// four strings alone, so it has a name, [`json_object_text`].
#[verifier::external_body]
fn json_object(k1: &str, v1: &str, k2: &str, v2: &str) -> (text: String)
    ensures
        text@ == json_object_text(k1@, v1@, k2@, v2@),
{
    let mut members = serde_json::Map::new();
    members.insert(k1.to_owned(), serde_json::Value::String(v1.to_owned()));
    members.insert(k2.to_owned(), serde_json::Value::String(v2.to_owned()));
    serde_json::Value::Object(members).to_string()
}

/// Calls `serde_json::from_str` for a
/// `webrtc::peer_connection::sdp::session_description::RTCSessionDescription`
/// and hands out its kind and text.
///
/// Not proved, but taken from the crates' sources: whether the call succeeds,
/// and with which description, depends on the text alone, so the outcome has
/// a name, [`description_of_json`].
#[verifier::external_body]
fn parse_description(text: &str) -> (r: Result<SessionDescription, serde_json::Error>)
    ensures
        r is Ok <==> description_of_json(text@) is Some,
        r matches Ok(d) ==> description_of_json(text@) == Some((d.kind, d.sdp@)),
{
    let parsed = serde_json::from_str::<RTCSessionDescription>(text)?;
    let kind = match parsed.sdp_type {
        RTCSdpType::Unspecified => SdpKind::Unspecified,
        RTCSdpType::Offer => SdpKind::Offer,
        RTCSdpType::Pranswer => SdpKind::Pranswer,
        RTCSdpType::Answer => SdpKind::Answer,
        RTCSdpType::Rollback => SdpKind::Rollback,
    };
    Ok(SessionDescription { kind, sdp: parsed.sdp })
}

/// What is made of a deserialized description: it is accepted exactly if
/// there is one and its kind is "answer".
pub open spec fn answer_outcome(parsed: Option<(SdpKind, Seq<char>)>) -> Result<
    SessionDescriptionView,
    SignalingError,
> {
    match parsed {
        Some((kind, sdp)) => if kind == SdpKind::Answer {
            Ok(SessionDescriptionView { kind, sdp })
        } else {
            Err(SignalingError::MalformedAnswer)
        },
        None => Err(SignalingError::MalformedAnswer),
    }
}

/// The remote description for an answer text.
pub open spec fn answer_description_outcome(answer_sdp: Seq<char>) -> Result<
    SessionDescriptionView,
    SignalingError,
> {
    answer_outcome(
        description_of_json(json_object_text(KEY_TYPE@, KIND_ANSWER@, KEY_SDP@, answer_sdp)),
    )
}

/// The value of a result that holds a description.
pub open spec fn description_result_view(r: Result<SessionDescription, SignalingError>) -> Result<
    SessionDescriptionView,
    SignalingError,
> {
    match r {
        Ok(d) => Ok(d@),
        Err(e) => Err(e),
    }
}

/// Accepts a deserialized description as the remote answer.
///
/// Succeeds exactly if `parsed` holds a description of kind "answer", and
/// then hands that description out unchanged.
pub fn accept_answer(parsed: Option<SessionDescription>) -> (r: Result<
    SessionDescription,
    SignalingError,
>)
    ensures
        description_result_view(r) == answer_outcome(
            match parsed {
                Some(d) => Some((d.kind, d.sdp@)),
                None => None,
            },
        ),
{
    match parsed {
        Some(d) => match d.kind {
            SdpKind::Answer => Ok(d),
            _ => Err(SignalingError::MalformedAnswer),
        },
        None => Err(SignalingError::MalformedAnswer),
    }
}

/// Makes the remote session description of kind "answer" from the answer
/// text.
pub fn answer_description(answer_sdp: &str) -> (r: Result<SessionDescription, SignalingError>)
    ensures
        description_result_view(r) == answer_description_outcome(answer_sdp@),
{
    let text = json_object(KEY_TYPE, KIND_ANSWER, KEY_SDP, answer_sdp);
    let parsed = match parse_description(text.as_str()) {
        Ok(d) => Some(d),
        Err(_) => None,
    };
    accept_answer(parsed)
}

} // verus!

use whep_client::codec::{CodecDescriptor, CodecRegistry};
use whep_client::negotiator::{
    ErrorClass, NegotiationAction, NegotiationError, NegotiationEvent, NegotiationPhase, Negotiator,
};
use whep_client::signaling::{SdpKind, SessionDescription, SignalingRequest, SignalingResponse};

const URL: &str = "http://localhost:8000/api/whep?url=Zeeland&options=rtptransport%3dtcp%26timeout%3d60";
const STUN: &str = "stun:stun.l.google.com:19302";
const OFFER: &str = "v=0\r\ns=offer\r\n";
const FINAL_OFFER: &str = "v=0\r\ns=offer\r\na=candidate:1 1 udp 1 192.0.2.1 9 typ host\r\n";
const ANSWER: &str = "v=0\r\ns=answer\r\n";

fn codecs() -> Vec<CodecDescriptor> {
    vec![
        CodecDescriptor::new(96, "video/H264", 90000),
        CodecDescriptor::new(97, "video/VP8", 90000),
    ]
}

fn explicit_negotiator() -> Negotiator {
    let registry = CodecRegistry::explicit(codecs()).unwrap();
    Negotiator::new(URL, vec![STUN.to_string()], registry).unwrap()
}

fn default_negotiator() -> Negotiator {
    Negotiator::new(URL, vec![STUN.to_string()], CodecRegistry::engine_defaults()).unwrap()
}

fn response(status: u16, body: &str) -> NegotiationEvent {
    NegotiationEvent::SignalingResponse(SignalingResponse { status, body: body.to_string() })
}

fn events_up_to(phase: NegotiationPhase) -> Vec<NegotiationEvent> {
    let all = vec![
        (NegotiationPhase::CreatingTransport, NegotiationEvent::Start),
        (NegotiationPhase::AddingTransceiver, NegotiationEvent::TransportReady),
        (NegotiationPhase::SettingPreferences, NegotiationEvent::TransceiverAdded),
        (NegotiationPhase::CreatingOffer, NegotiationEvent::PreferencesSet),
        (NegotiationPhase::SettingLocalDescription, NegotiationEvent::OfferCreated(OFFER.to_string())),
        (NegotiationPhase::Gathering, NegotiationEvent::LocalDescriptionSet),
        (NegotiationPhase::Signaling, NegotiationEvent::GatheringComplete(FINAL_OFFER.to_string())),
        (NegotiationPhase::SettingRemoteDescription, response(201, ANSWER)),
        (NegotiationPhase::Established, NegotiationEvent::RemoteDescriptionSet),
    ];
    let mut events = Vec::new();
    if phase == NegotiationPhase::Idle {
        return events;
    }
    for (reached, event) in all {
        events.push(event);
        if reached == phase {
            break;
        }
    }
    events
}

fn negotiator_in(phase: NegotiationPhase) -> Negotiator {
    let mut negotiator = explicit_negotiator();
    for event in events_up_to(phase) {
        negotiator.step(event);
    }
    assert_eq!(negotiator.phase(), phase);
    assert_eq!(negotiator.error(), None);
    negotiator
}

fn every_phase() -> Vec<NegotiationPhase> {
    vec![
        NegotiationPhase::Idle,
        NegotiationPhase::CreatingTransport,
        NegotiationPhase::AddingTransceiver,
        NegotiationPhase::SettingPreferences,
        NegotiationPhase::CreatingOffer,
        NegotiationPhase::SettingLocalDescription,
        NegotiationPhase::Gathering,
        NegotiationPhase::Signaling,
        NegotiationPhase::SettingRemoteDescription,
        NegotiationPhase::Established,
    ]
}

#[test]
fn a_negotiator_needs_a_gathering_server() {
    let registry = CodecRegistry::engine_defaults();
    assert_eq!(Negotiator::new(URL, Vec::new(), registry).unwrap_err(), NegotiationError::NoIceServer);
}

#[test]
fn a_new_negotiator_is_idle() {
    let negotiator = explicit_negotiator();
    assert_eq!(negotiator.phase(), NegotiationPhase::Idle);
    assert_eq!(negotiator.error(), None);
    assert!(!negotiator.is_established());
    assert_eq!(*negotiator.local_offer(), None);
    assert_eq!(*negotiator.remote_answer(), None);
    assert_eq!(negotiator.registry().payload_types(), vec![96, 97]);
}

#[test]
fn the_handshake_asks_for_its_steps_in_order() {
    let mut n = explicit_negotiator();
    assert_eq!(
        n.step(NegotiationEvent::Start),
        NegotiationAction::CreateTransport { ice_servers: vec![STUN.to_string()], codecs: codecs() }
    );
    assert_eq!(n.phase(), NegotiationPhase::CreatingTransport);
    assert_eq!(n.step(NegotiationEvent::TransportReady), NegotiationAction::AddReceiveTransceiver);
    assert_eq!(n.phase(), NegotiationPhase::AddingTransceiver);
    assert_eq!(
        n.step(NegotiationEvent::TransceiverAdded),
        NegotiationAction::SetCodecPreferences(codecs())
    );
    assert_eq!(n.phase(), NegotiationPhase::SettingPreferences);
    assert_eq!(n.step(NegotiationEvent::PreferencesSet), NegotiationAction::CreateOffer);
    assert_eq!(n.phase(), NegotiationPhase::CreatingOffer);
    assert_eq!(
        n.step(NegotiationEvent::OfferCreated(OFFER.to_string())),
        NegotiationAction::SetLocalDescription(SessionDescription {
            kind: SdpKind::Offer,
            sdp: OFFER.to_string()
        })
    );
    assert_eq!(n.phase(), NegotiationPhase::SettingLocalDescription);
    assert_eq!(*n.local_offer(), Some(OFFER.to_string()));
    assert_eq!(n.step(NegotiationEvent::LocalDescriptionSet), NegotiationAction::AwaitGatheringComplete);
    assert_eq!(n.phase(), NegotiationPhase::Gathering);
    assert_eq!(
        n.step(NegotiationEvent::GatheringComplete(FINAL_OFFER.to_string())),
        NegotiationAction::PostOffer(SignalingRequest {
            url: URL.to_string(),
            body: FINAL_OFFER.to_string()
        })
    );
    assert_eq!(n.phase(), NegotiationPhase::Signaling);
    assert_eq!(*n.remote_answer(), None);
    assert_eq!(
        n.step(response(201, ANSWER)),
        NegotiationAction::SetRemoteDescription(SessionDescription {
            kind: SdpKind::Answer,
            sdp: ANSWER.to_string()
        })
    );
    assert_eq!(n.phase(), NegotiationPhase::SettingRemoteDescription);
    assert_eq!(*n.remote_answer(), Some(ANSWER.to_string()));
    assert!(!n.is_established());
    assert_eq!(n.step(NegotiationEvent::RemoteDescriptionSet), NegotiationAction::Established);
    assert_eq!(n.phase(), NegotiationPhase::Established);
    assert!(n.is_established());
    assert_eq!(n.error(), None);
    assert_eq!(*n.local_offer(), Some(OFFER.to_string()));
    assert_eq!(*n.remote_answer(), Some(ANSWER.to_string()));
}

#[test]
fn with_engine_defaults_no_preference_order_is_set() {
    let mut n = default_negotiator();
    assert_eq!(
        n.step(NegotiationEvent::Start),
        NegotiationAction::CreateTransport { ice_servers: vec![STUN.to_string()], codecs: Vec::new() }
    );
    assert_eq!(n.step(NegotiationEvent::TransportReady), NegotiationAction::AddReceiveTransceiver);
    assert_eq!(n.step(NegotiationEvent::TransceiverAdded), NegotiationAction::CreateOffer);
    assert_eq!(n.phase(), NegotiationPhase::CreatingOffer);
}

#[test]
fn the_preference_order_is_the_registration_order() {
    let list = vec![
        CodecDescriptor::new(97, "video/VP8", 90000),
        CodecDescriptor::new(102, "video/H264", 90000),
        CodecDescriptor::new(96, "video/VP9", 90000),
    ];
    let registry = CodecRegistry::explicit(list.clone()).unwrap();
    let mut n = Negotiator::new(URL, vec![STUN.to_string()], registry).unwrap();
    n.step(NegotiationEvent::Start);
    n.step(NegotiationEvent::TransportReady);
    assert_eq!(n.step(NegotiationEvent::TransceiverAdded), NegotiationAction::SetCodecPreferences(list));
}

#[test]
fn the_status_of_the_response_is_not_inspected() {
    for status in [200u16, 201, 404, 500, 0] {
        let mut n = negotiator_in(NegotiationPhase::Signaling);
        assert_eq!(
            n.step(response(status, ANSWER)),
            NegotiationAction::SetRemoteDescription(SessionDescription {
                kind: SdpKind::Answer,
                sdp: ANSWER.to_string()
            })
        );
    }
}

#[test]
fn a_failed_step_aborts_with_the_phase_it_failed_in() {
    for phase in every_phase() {
        if phase == NegotiationPhase::Idle || phase == NegotiationPhase::Established {
            continue;
        }
        let mut n = negotiator_in(phase);
        assert_eq!(
            n.step(NegotiationEvent::StepFailed),
            NegotiationAction::Abort(NegotiationError::StepFailed(phase))
        );
        assert_eq!(n.error(), Some(NegotiationError::StepFailed(phase)));
        assert_eq!(n.phase(), phase);
        assert!(!n.is_established());
    }
}

#[test]
fn a_failure_before_any_step_is_out_of_order() {
    let mut n = explicit_negotiator();
    assert_eq!(
        n.step(NegotiationEvent::StepFailed),
        NegotiationAction::Abort(NegotiationError::OutOfOrder(NegotiationPhase::Idle))
    );
}

#[test]
fn an_event_that_is_not_awaited_aborts() {
    let mut n = negotiator_in(NegotiationPhase::Gathering);
    assert_eq!(
        n.step(NegotiationEvent::RemoteDescriptionSet),
        NegotiationAction::Abort(NegotiationError::OutOfOrder(NegotiationPhase::Gathering))
    );
    assert_eq!(n.error(), Some(NegotiationError::OutOfOrder(NegotiationPhase::Gathering)));
    let mut early = explicit_negotiator();
    assert_eq!(
        early.step(response(200, ANSWER)),
        NegotiationAction::Abort(NegotiationError::OutOfOrder(NegotiationPhase::Idle))
    );
    assert_eq!(*early.remote_answer(), None);
    let mut twice = negotiator_in(NegotiationPhase::CreatingTransport);
    assert_eq!(
        twice.step(NegotiationEvent::Start),
        NegotiationAction::Abort(NegotiationError::OutOfOrder(NegotiationPhase::CreatingTransport))
    );
    let mut skipped = default_negotiator();
    skipped.step(NegotiationEvent::Start);
    skipped.step(NegotiationEvent::TransportReady);
    skipped.step(NegotiationEvent::TransceiverAdded);
    assert_eq!(
        skipped.step(NegotiationEvent::PreferencesSet),
        NegotiationAction::Abort(NegotiationError::OutOfOrder(NegotiationPhase::CreatingOffer))
    );
}

#[test]
fn a_failed_handshake_ignores_every_event() {
    let mut n = negotiator_in(NegotiationPhase::Signaling);
    n.step(NegotiationEvent::StepFailed);
    for event in events_up_to(NegotiationPhase::Established) {
        assert_eq!(n.step(event), NegotiationAction::Nothing);
    }
    assert_eq!(n.step(NegotiationEvent::StepFailed), NegotiationAction::Nothing);
    assert_eq!(n.error(), Some(NegotiationError::StepFailed(NegotiationPhase::Signaling)));
    assert_eq!(n.phase(), NegotiationPhase::Signaling);
    assert_eq!(*n.remote_answer(), None);
}

#[test]
fn an_established_session_is_not_renegotiated() {
    let mut n = negotiator_in(NegotiationPhase::Established);
    for event in events_up_to(NegotiationPhase::Established) {
        assert_eq!(n.step(event), NegotiationAction::Nothing);
    }
    assert_eq!(n.step(NegotiationEvent::StepFailed), NegotiationAction::Nothing);
    assert!(n.is_established());
    assert_eq!(*n.local_offer(), Some(OFFER.to_string()));
    assert_eq!(*n.remote_answer(), Some(ANSWER.to_string()));
}

#[test]
fn errors_before_the_offer_are_setup_errors() {
    assert_eq!(NegotiationError::NoIceServer.class(), ErrorClass::Setup);
    assert_eq!(NegotiationError::MalformedAnswer.class(), ErrorClass::Negotiation);
    for phase in every_phase() {
        let expected = match phase {
            NegotiationPhase::Idle
            | NegotiationPhase::CreatingTransport
            | NegotiationPhase::AddingTransceiver
            | NegotiationPhase::SettingPreferences => ErrorClass::Setup,
            _ => ErrorClass::Negotiation,
        };
        assert_eq!(NegotiationError::StepFailed(phase).class(), expected);
        assert_eq!(NegotiationError::OutOfOrder(phase).class(), expected);
    }
}

use whep_client::codec::{
    mime_eq, CodecDescriptor, CodecKind, CodecRegistrationError, CodecRegistry, RegistryMode,
    RtcpFeedback,
    MIME_TYPE_H264, MIME_TYPE_VP8, MIME_TYPE_VP9,
};

fn h264(payload_type: u8) -> CodecDescriptor {
    CodecDescriptor::new(payload_type, "video/H264", 90000)
}

fn vp8(payload_type: u8) -> CodecDescriptor {
    CodecDescriptor::new(payload_type, "video/VP8", 90000)
}

#[test]
fn mime_names_are_those_of_the_webrtc_stack() {
    assert_eq!(MIME_TYPE_H264, webrtc::api::media_engine::MIME_TYPE_H264);
    assert_eq!(MIME_TYPE_VP8, webrtc::api::media_engine::MIME_TYPE_VP8);
    assert_eq!(MIME_TYPE_VP9, webrtc::api::media_engine::MIME_TYPE_VP9);
}

#[test]
fn mime_eq_ignores_the_case_of_ascii_letters() {
    assert!(mime_eq("video/H264", "video/H264"));
    assert!(mime_eq("video/H264", "video/h264"));
    assert!(mime_eq("VIDEO/vp8", "video/VP8"));
    assert!(mime_eq("", ""));
}

#[test]
fn mime_eq_tells_different_names_apart() {
    assert!(!mime_eq("video/H264", "video/H265"));
    assert!(!mime_eq("video/VP8", "video/VP9"));
    assert!(!mime_eq("video/H264", "video/H26"));
    assert!(!mime_eq("video/H264", ""));
    assert!(!mime_eq("H264", "video/H264"));
}

#[test]
fn mime_eq_folds_ascii_letters_only() {
    assert!(!mime_eq("vid\u{e9}o", "vid\u{c9}o"));
    assert!(mime_eq("vid\u{e9}o/X", "VID\u{e9}O/x"));
    assert!(!mime_eq("video/[", "video/{"));
    assert!(!mime_eq("video/@", "video/`"));
}

#[test]
fn from_mime_recognizes_the_four_formats() {
    assert_eq!(CodecKind::from_mime("video/H264"), Some(CodecKind::H264));
    assert_eq!(CodecKind::from_mime("video/H265"), Some(CodecKind::H265));
    assert_eq!(CodecKind::from_mime("video/VP8"), Some(CodecKind::VP8));
    assert_eq!(CodecKind::from_mime("video/VP9"), Some(CodecKind::VP9));
    assert_eq!(CodecKind::from_mime("video/h264"), Some(CodecKind::H264));
    assert_eq!(CodecKind::from_mime("VIDEO/VP9"), Some(CodecKind::VP9));
}

#[test]
fn from_name_takes_the_four_names_letter_for_letter() {
    assert_eq!(CodecKind::from_name("video/H264"), Some(CodecKind::H264));
    assert_eq!(CodecKind::from_name("video/H265"), Some(CodecKind::H265));
    assert_eq!(CodecKind::from_name("video/VP8"), Some(CodecKind::VP8));
    assert_eq!(CodecKind::from_name("video/VP9"), Some(CodecKind::VP9));
    for kind in [CodecKind::H264, CodecKind::H265, CodecKind::VP8, CodecKind::VP9] {
        assert_eq!(CodecKind::from_name(kind.mime_type()), Some(kind));
    }
}

#[test]
fn from_name_refuses_every_other_text() {
    let others = ["video/h264", "VIDEO/VP8", "video/vp9", "video/AV1", "H264", "", "video/H264\n"];
    for text in others {
        assert_eq!(CodecKind::from_name(text), None);
    }
}

#[test]
fn from_mime_rejects_every_other_name() {
    assert_eq!(CodecKind::from_mime("video/AV1"), None);
    assert_eq!(CodecKind::from_mime("audio/opus"), None);
    assert_eq!(CodecKind::from_mime("H264"), None);
    assert_eq!(CodecKind::from_mime("VP8"), None);
    assert_eq!(CodecKind::from_mime(""), None);
    assert_eq!(CodecKind::from_mime("video/H264 "), None);
}

#[test]
fn each_kind_is_found_under_its_own_name() {
    for kind in [CodecKind::H264, CodecKind::H265, CodecKind::VP8, CodecKind::VP9] {
        assert_eq!(CodecKind::from_mime(kind.mime_type()), Some(kind));
    }
    assert_eq!(CodecKind::H264.mime_type(), "video/H264");
    assert_eq!(CodecKind::H265.mime_type(), "video/H265");
    assert_eq!(CodecKind::VP8.mime_type(), "video/VP8");
    assert_eq!(CodecKind::VP9.mime_type(), "video/VP9");
}

#[test]
fn a_new_descriptor_has_no_feedback() {
    let d = CodecDescriptor::new(102, "video/H264", 90000);
    assert_eq!(d.payload_type, 102);
    assert_eq!(d.mime_type, "video/H264");
    assert_eq!(d.clock_rate, 90000);
    assert!(d.feedback.is_empty());
}

#[test]
fn a_cloned_descriptor_equals_its_source() {
    let mut d = CodecDescriptor::new(96, "video/VP9", 90000);
    d.feedback.push(RtcpFeedback { kind: "nack".to_string(), parameter: String::new() });
    d.feedback.push(RtcpFeedback { kind: "nack".to_string(), parameter: "pli".to_string() });
    let c = d.clone();
    assert_eq!(c, d);
    assert_eq!(
        c.feedback,
        vec![
            RtcpFeedback { kind: "nack".to_string(), parameter: String::new() },
            RtcpFeedback { kind: "nack".to_string(), parameter: "pli".to_string() },
        ]
    );
    let f = RtcpFeedback { kind: "ccm".to_string(), parameter: "fir".to_string() };
    assert_eq!(f.clone(), f);
}

#[test]
fn an_empty_registry_takes_the_engine_defaults() {
    let registry = CodecRegistry::engine_defaults();
    assert_eq!(registry.len(), 0);
    assert_eq!(registry.mode(), RegistryMode::EngineDefaults);
    assert!(registry.preferences().is_empty());
    assert!(registry.payload_types().is_empty());
}

#[test]
fn registration_keeps_the_order_given() {
    let mut registry = CodecRegistry::engine_defaults();
    assert_eq!(registry.register(h264(96)), Ok(()));
    assert_eq!(registry.register(vp8(97)), Ok(()));
    assert_eq!(registry.register(CodecDescriptor::new(35, "video/VP9", 90000)), Ok(()));
    assert_eq!(registry.mode(), RegistryMode::Explicit);
    assert_eq!(registry.len(), 3);
    assert_eq!(registry.payload_types(), vec![96, 97, 35]);
    let preferences = registry.preferences();
    assert_eq!(preferences.len(), 3);
    assert_eq!(preferences[0], h264(96));
    assert_eq!(preferences[1], vp8(97));
    assert_eq!(preferences[2], CodecDescriptor::new(35, "video/VP9", 90000));
    assert_eq!(registry.get(1), Some(&vp8(97)));
    assert_eq!(registry.get(3), None);
}

#[test]
fn an_explicit_list_is_registered_in_its_order() {
    let list = vec![vp8(97), h264(96), h264(102)];
    let registry = CodecRegistry::explicit(list).unwrap();
    assert_eq!(registry.payload_types(), vec![97, 96, 102]);
    assert_eq!(registry.preferences(), vec![vp8(97), h264(96), h264(102)]);
    assert_eq!(registry.mode(), RegistryMode::Explicit);
}

#[test]
fn an_empty_explicit_list_leaves_the_engine_defaults() {
    let registry = CodecRegistry::explicit(Vec::new()).unwrap();
    assert_eq!(registry.mode(), RegistryMode::EngineDefaults);
}

#[test]
fn a_duplicate_payload_type_is_refused() {
    let mut registry = CodecRegistry::engine_defaults();
    registry.register(h264(96)).unwrap();
    assert_eq!(registry.register(vp8(96)), Err(CodecRegistrationError::Duplicate));
    assert_eq!(registry.register(h264(96)), Err(CodecRegistrationError::Duplicate));
    assert_eq!(registry.payload_types(), vec![96]);
    assert_eq!(registry.preferences(), vec![h264(96)]);
}

#[test]
fn a_clock_rate_of_zero_is_refused() {
    let mut registry = CodecRegistry::engine_defaults();
    assert_eq!(
        registry.register(CodecDescriptor::new(96, "video/H264", 0)),
        Err(CodecRegistrationError::Unsupported)
    );
    assert_eq!(registry.len(), 0);
    assert_eq!(registry.register(CodecDescriptor::new(96, "video/H264", 1)), Ok(()));
}

#[test]
fn an_unsupported_descriptor_is_reported_before_a_duplicate() {
    let mut registry = CodecRegistry::engine_defaults();
    registry.register(h264(96)).unwrap();
    assert_eq!(
        registry.register(CodecDescriptor::new(96, "video/H264", 0)),
        Err(CodecRegistrationError::Unsupported)
    );
}

#[test]
fn an_explicit_list_fails_with_its_first_refusal() {
    let duplicate_first = vec![h264(96), vp8(96), CodecDescriptor::new(98, "video/VP9", 0)];
    assert_eq!(
        CodecRegistry::explicit(duplicate_first).unwrap_err(),
        CodecRegistrationError::Duplicate
    );
    let unsupported_first = vec![h264(96), CodecDescriptor::new(98, "video/VP9", 0), vp8(96)];
    assert_eq!(
        CodecRegistry::explicit(unsupported_first).unwrap_err(),
        CodecRegistrationError::Unsupported
    );
}

#[test]
fn one_mime_type_may_have_several_payload_types() {
    let registry = CodecRegistry::explicit(vec![h264(102), h264(127), h264(125)]).unwrap();
    assert_eq!(registry.payload_types(), vec![102, 127, 125]);
}

#[test]
fn all_256_payload_types_fit_and_no_more() {
    let mut registry = CodecRegistry::engine_defaults();
    for payload_type in 0..=255u8 {
        assert_eq!(registry.register(h264(payload_type)), Ok(()));
    }
    assert_eq!(registry.len(), 256);
    assert_eq!(registry.register(h264(0)), Err(CodecRegistrationError::Duplicate));
    assert_eq!(registry.register(h264(255)), Err(CodecRegistrationError::Duplicate));
}

#[test]
fn holds_payload_type_tells_what_is_registered() {
    let registry = CodecRegistry::explicit(vec![h264(96), vp8(97)]).unwrap();
    assert!(registry.holds_payload_type(96));
    assert!(registry.holds_payload_type(97));
    assert!(!registry.holds_payload_type(98));
    assert!(!CodecRegistry::engine_defaults().holds_payload_type(96));
}

#[test]
fn find_gives_the_first_descriptor_of_a_mime_type() {
    let registry = CodecRegistry::explicit(vec![vp8(97), h264(102), h264(127)]).unwrap();
    assert_eq!(registry.find("video/H264"), Some(1));
    assert_eq!(registry.find("video/h264"), Some(1));
    assert_eq!(registry.find("video/VP8"), Some(0));
    assert_eq!(registry.find("video/VP9"), None);
    assert_eq!(CodecRegistry::engine_defaults().find("video/VP8"), None);
}

#[test]
fn an_explicit_registry_declares_its_mime_types_only() {
    let registry = CodecRegistry::explicit(vec![h264(96), vp8(97)]).unwrap();
    assert!(registry.declares_mime("video/H264"));
    assert!(registry.declares_mime("video/vp8"));
    assert!(!registry.declares_mime("video/VP9"));
    assert!(!registry.declares_mime("audio/opus"));
}

#[test]
fn with_engine_defaults_every_negotiated_type_is_declared() {
    let registry = CodecRegistry::engine_defaults();
    assert!(registry.declares_mime("video/H264"));
    assert!(registry.declares_mime("video/AV1"));
}

use whep_client::codec::CodecKind;
use whep_client::pipeline::{
    configure_appsrc, create_pipeline, PipelineError, PipelineState, StreamFormat,
};

fn names(list: &[&str]) -> Vec<String> {
    list.iter().map(|s| s.to_string()).collect()
}

#[test]
fn the_h264_pipeline_has_the_h264_chain() {
    let plan = create_pipeline(96, 90000, "video/H264").unwrap();
    assert_eq!(plan.kind, CodecKind::H264);
    assert_eq!(
        plan.elements,
        names(&["appsrc", "rtph264depay", "avdec_h264", "videoconvert", "autovideosink"])
    );
    assert_eq!(plan.source.caps.name, "application/x-rtp");
    assert_eq!(plan.source.caps.media, "video");
    assert_eq!(plan.source.caps.encoding_name, "H264");
    assert_eq!(plan.source.caps.payload, 96);
    assert_eq!(plan.source.caps.clock_rate, 90000);
}

#[test]
fn a_planned_pipeline_plays_and_counts_in_time() {
    for mime in ["video/H264", "video/H265", "video/VP8", "video/VP9"] {
        let plan = create_pipeline(96, 90000, mime).unwrap();
        assert_eq!(plan.state, PipelineState::Playing);
        assert_eq!(plan.source.format, StreamFormat::Time);
        assert_eq!(plan.elements.len(), 5);
        assert_eq!(plan.elements[0], "appsrc");
        assert_eq!(plan.elements[3], "videoconvert");
        assert_eq!(plan.elements[4], "autovideosink");
    }
}

#[test]
fn the_h265_pipeline_has_the_h265_chain() {
    let plan = create_pipeline(100, 90000, "video/H265").unwrap();
    assert_eq!(plan.kind, CodecKind::H265);
    assert_eq!(
        plan.elements,
        names(&["appsrc", "rtph265depay", "avdec_h265", "videoconvert", "autovideosink"])
    );
    assert_eq!(plan.source.caps.encoding_name, "H265");
    assert_eq!(plan.source.caps.payload, 100);
}

#[test]
fn the_vp8_pipeline_has_the_vp8_chain() {
    let plan = create_pipeline(97, 90000, "video/VP8").unwrap();
    assert_eq!(plan.kind, CodecKind::VP8);
    assert_eq!(
        plan.elements,
        names(&["appsrc", "rtpvp8depay", "avdec_vp8", "videoconvert", "autovideosink"])
    );
    assert_eq!(plan.source.caps.encoding_name, "VP8");
    assert_eq!(plan.source.caps.payload, 97);
}

#[test]
fn the_vp9_pipeline_has_the_vp9_chain() {
    let plan = create_pipeline(98, 48000, "video/VP9").unwrap();
    assert_eq!(plan.kind, CodecKind::VP9);
    assert_eq!(
        plan.elements,
        names(&["appsrc", "rtpvp9depay", "avdec_vp9", "videoconvert", "autovideosink"])
    );
    assert_eq!(plan.source.caps.encoding_name, "VP9");
    assert_eq!(plan.source.caps.clock_rate, 48000);
}

#[test]
fn a_mime_name_in_another_spelling_fails() {
    for mime in ["video/h264", "VIDEO/H264", "video/h265", "video/vp8", "Video/VP9", "video/Vp9"] {
        assert_eq!(create_pipeline(96, 90000, mime), Err(PipelineError::UnsupportedMime));
    }
    assert_eq!(create_pipeline(96, 90000, " video/H264"), Err(PipelineError::UnsupportedMime));
    assert_eq!(create_pipeline(96, 90000, "video/H264 "), Err(PipelineError::UnsupportedMime));
    assert_eq!(create_pipeline(96, 90000, "video/H2644"), Err(PipelineError::UnsupportedMime));
}

#[test]
fn an_unrecognized_mime_type_fails() {
    assert_eq!(create_pipeline(96, 90000, "video/AV1"), Err(PipelineError::UnsupportedMime));
    assert_eq!(create_pipeline(96, 90000, "audio/opus"), Err(PipelineError::UnsupportedMime));
    assert_eq!(create_pipeline(96, 90000, ""), Err(PipelineError::UnsupportedMime));
}

#[test]
fn a_bare_encoding_name_is_no_mime_type() {
    assert_eq!(create_pipeline(96, 90000, "H264"), Err(PipelineError::UnsupportedMime));
    assert_eq!(create_pipeline(97, 90000, "VP8"), Err(PipelineError::UnsupportedMime));
}

#[test]
fn the_source_is_configured_with_caps_and_time_format() {
    let source = configure_appsrc(102, 90000, "H264");
    assert_eq!(source.caps.name, "application/x-rtp");
    assert_eq!(source.caps.media, "video");
    assert_eq!(source.caps.encoding_name, "H264");
    assert_eq!(source.caps.payload, 102);
    assert_eq!(source.caps.clock_rate, 90000);
    assert_eq!(source.format, StreamFormat::Time);
}

#[test]
fn the_source_of_a_pipeline_is_the_one_configured_for_its_encoding() {
    let cases = [
        (102u8, 90000u32, "video/H264", "H264"),
        (100, 90000, "video/H265", "H265"),
        (97, 48000, "video/VP8", "VP8"),
        (98, 0, "video/VP9", "VP9"),
    ];
    for (payload_type, clock_rate, mime, codec) in cases {
        let plan = create_pipeline(payload_type, clock_rate, mime).unwrap();
        assert_eq!(plan.source, configure_appsrc(payload_type, clock_rate, codec));
    }
}

#[test]
fn the_format_is_time_whatever_the_arguments() {
    let cases = [(0u8, 0u32, ""), (255, u32::MAX, "H264"), (96, 1, "x")];
    for (payload_type, clock_rate, codec) in cases {
        assert_eq!(configure_appsrc(payload_type, clock_rate, codec).format, StreamFormat::Time);
    }
}

#[test]
fn the_clock_rate_field_is_the_same_bits_signed() {
    assert_eq!(configure_appsrc(0, 0, "VP8").caps.clock_rate, 0);
    assert_eq!(configure_appsrc(0, 0x7fff_ffff, "VP8").caps.clock_rate, i32::MAX);
    assert_eq!(configure_appsrc(0, 0x8000_0000, "VP8").caps.clock_rate, i32::MIN);
    assert_eq!(configure_appsrc(0, 0x8000_0001, "VP8").caps.clock_rate, i32::MIN + 1);
    assert_eq!(configure_appsrc(0, u32::MAX, "VP8").caps.clock_rate, -1);
    assert_eq!(configure_appsrc(0, 3_000_000_000, "VP8").caps.clock_rate, 3_000_000_000u32 as i32);
}

#[test]
fn kind_names_are_those_of_the_elements() {
    assert_eq!(CodecKind::H264.depayloader(), "rtph264depay");
    assert_eq!(CodecKind::H265.depayloader(), "rtph265depay");
    assert_eq!(CodecKind::VP8.depayloader(), "rtpvp8depay");
    assert_eq!(CodecKind::VP9.depayloader(), "rtpvp9depay");
    assert_eq!(CodecKind::H264.decoder(), "avdec_h264");
    assert_eq!(CodecKind::H265.decoder(), "avdec_h265");
    assert_eq!(CodecKind::VP8.decoder(), "avdec_vp8");
    assert_eq!(CodecKind::VP9.decoder(), "avdec_vp9");
    assert_eq!(CodecKind::H264.encoding(), "H264");
    assert_eq!(CodecKind::H265.encoding(), "H265");
    assert_eq!(CodecKind::VP8.encoding(), "VP8");
    assert_eq!(CodecKind::VP9.encoding(), "VP9");
}

//! The consumer pipeline factory: which chain of media elements decodes a
//! negotiated codec, and how the source at its head is configured.
//!
//! A plan is plain data. The embedding program builds the elements in the
//! order given, links each to the next, configures the first and brings the
//! pipeline to the planned state.

use crate::codec::{
    lemma_kind_has_own_name, CodecKind, MIME_TYPE_H264, MIME_TYPE_H265, MIME_TYPE_VP8,
    MIME_TYPE_VP9,
};
use crate::strings::string_views;
use vstd::prelude::*;

verus! {

/// Factory name of the element that accepts the packet buffers.
pub const SOURCE_ELEMENT: &'static str = "appsrc";

/// Factory name of the colour conversion element.
pub const CONVERT_ELEMENT: &'static str = "videoconvert";

/// Factory name of the display element.
pub const DISPLAY_ELEMENT: &'static str = "autovideosink";

/// Name of the capabilities of a source of RTP packets.
pub const CAPS_NAME: &'static str = "application/x-rtp";

/// Value of the `media` field of those capabilities.
pub const CAPS_MEDIA: &'static str = "video";

/// Why no pipeline was planned.
#[derive(Clone, Copy, Debug, PartialEq, Eq, Structural)]
pub enum PipelineError {
    /// The MIME type is none of the names for which a decode chain exists.
    UnsupportedMime,
}

impl CodecKind {
    /// Factory name of the depacketizer of the format.
    pub open spec fn depayloader_name(self) -> Seq<char> {
        match self {
            CodecKind::H264 => "rtph264depay"@,
            CodecKind::H265 => "rtph265depay"@,
            CodecKind::VP8 => "rtpvp8depay"@,
            CodecKind::VP9 => "rtpvp9depay"@,
        }
    }

    /// Factory name of the decoder of the format.
    pub open spec fn decoder_name(self) -> Seq<char> {
        match self {
            CodecKind::H264 => "avdec_h264"@,
            CodecKind::H265 => "avdec_h265"@,
            CodecKind::VP8 => "avdec_vp8"@,
            CodecKind::VP9 => "avdec_vp9"@,
        }
    }

    /// Encoding name of the format in RTP capabilities.
    pub open spec fn encoding_name(self) -> Seq<char> {
        match self {
            CodecKind::H264 => "H264"@,
            CodecKind::H265 => "H265"@,
            CodecKind::VP8 => "VP8"@,
            CodecKind::VP9 => "VP9"@,
        }
    }

    /// Factory name of the depacketizer of the format.
    pub fn depayloader(self) -> (r: &'static str)
        ensures
            r@ == self.depayloader_name(),
    {
        match self {
            CodecKind::H264 => "rtph264depay",
            CodecKind::H265 => "rtph265depay",
            CodecKind::VP8 => "rtpvp8depay",
            CodecKind::VP9 => "rtpvp9depay",
        }
    }

    /// Factory name of the decoder of the format.
    pub fn decoder(self) -> (r: &'static str)
        ensures
            r@ == self.decoder_name(),
    {
        match self {
            CodecKind::H264 => "avdec_h264",
            CodecKind::H265 => "avdec_h265",
            CodecKind::VP8 => "avdec_vp8",
            CodecKind::VP9 => "avdec_vp9",
        }
    }

    /// Encoding name of the format in RTP capabilities.
    pub fn encoding(self) -> (r: &'static str)
        ensures
            r@ == self.encoding_name(),
    {
        match self {
            CodecKind::H264 => "H264",
            CodecKind::H265 => "H265",
            CodecKind::VP8 => "VP8",
            CodecKind::VP9 => "VP9",
        }
    }
}

/// The capabilities announced by the source element.
#[derive(Debug, PartialEq, Eq)]
pub struct SourceCaps {
    /// Name of the capabilities structure.
    pub name: String,
    /// The `media` field.
    pub media: String,
    /// The `encoding-name` field.
    pub encoding_name: String,
    /// The `payload` field.
    pub payload: u8,
    /// The `clock-rate` field.
    pub clock_rate: i32,
}

/// Mathematical value of [`SourceCaps`].
pub struct SourceCapsView {
    pub name: Seq<char>,
    pub media: Seq<char>,
    pub encoding_name: Seq<char>,
    pub payload: u8,
    pub clock_rate: i32,
}

impl View for SourceCaps {
    type V = SourceCapsView;

    open spec fn view(&self) -> SourceCapsView {
        SourceCapsView {
            name: self.name@,
            media: self.media@,
            encoding_name: self.encoding_name@,
            payload: self.payload,
            clock_rate: self.clock_rate,
        }
    }
}

/// The unit in which a source counts the position of its buffers.
#[derive(Clone, Copy, Debug, PartialEq, Eq, Structural)]
pub enum StreamFormat {
    /// Positions are byte offsets.
    Bytes,
    /// Positions are times: each buffer is stamped against the running clock.
    Time,
}

/// The whole configuration of the source element: what it announces and how
/// it counts.
#[derive(Debug, PartialEq, Eq)]
pub struct SourceConfig {
    /// The capabilities set on the element.
    pub caps: SourceCaps,
    /// The position unit set on the element.
    pub format: StreamFormat,
}

/// Mathematical value of a [`SourceConfig`].
pub struct SourceConfigView {
    pub caps: SourceCapsView,
    pub format: StreamFormat,
}

impl View for SourceConfig {
    type V = SourceConfigView;

    open spec fn view(&self) -> SourceConfigView {
        SourceConfigView { caps: self.caps@, format: self.format }
    }
}

/// The state that a pipeline is brought to.
#[derive(Clone, Copy, Debug, PartialEq, Eq, Structural)]
pub enum PipelineState {
    Null,
    Ready,
    Paused,
    Playing,
}

/// A planned consumer pipeline.
#[derive(Debug, PartialEq, Eq)]
pub struct PipelinePlan {
    /// The format that the chain decodes.
    pub kind: CodecKind,
    /// Factory names of the elements, each linked to the next.
    pub elements: Vec<String>,
    /// Configuration of the first element.
    pub source: SourceConfig,
    /// The state in which the pipeline is handed over.
    pub state: PipelineState,
}

/// Mathematical value of a [`PipelinePlan`].
pub struct PipelinePlanView {
    pub kind: CodecKind,
    pub elements: Seq<Seq<char>>,
    pub source: SourceConfigView,
    pub state: PipelineState,
}

impl View for PipelinePlan {
    type V = PipelinePlanView;

    open spec fn view(&self) -> PipelinePlanView {
        PipelinePlanView {
            kind: self.kind,
            elements: string_views(self.elements@),
            source: self.source@,
            state: self.state,
        }
    }
}

/// The `clock-rate` field for a clock rate: the same 32 bits read as a signed
/// number.
pub open spec fn caps_clock_rate(clock_rate: u32) -> i32 {
    if clock_rate <= i32::MAX {
        clock_rate as i32
    } else {
        (clock_rate - 0x1_0000_0000) as i32
    }
}

/// The capabilities of a source of packets with the given payload type,
/// clock rate and encoding name.
pub open spec fn caps_for(payload_type: u8, clock_rate: u32, codec: Seq<char>) -> SourceCapsView {
    SourceCapsView {
        name: CAPS_NAME@,
        media: CAPS_MEDIA@,
        encoding_name: codec,
        payload: payload_type,
        clock_rate: caps_clock_rate(clock_rate),
    }
}

/// The element chain for a format: source, depacketizer, decoder, colour
/// conversion, display.
pub open spec fn chain_for(kind: CodecKind) -> Seq<Seq<char>> {
    seq![
        SOURCE_ELEMENT@,
        kind.depayloader_name(),
        kind.decoder_name(),
        CONVERT_ELEMENT@,
        DISPLAY_ELEMENT@,
    ]
}

/// The configuration of a source of packets with the given payload type,
/// clock rate and encoding name: its capabilities, and time as its position
/// unit.
pub open spec fn source_for(
    payload_type: u8,
    clock_rate: u32,
    codec: Seq<char>,
) -> SourceConfigView {
    SourceConfigView {
        caps: caps_for(payload_type, clock_rate, codec),
        format: StreamFormat::Time,
    }
}

/// The pipeline for a format, payload type and clock rate: the format's
/// chain, fed by the source configured for the format's encoding name, and
/// playing from the start.
pub open spec fn plan_for(kind: CodecKind, payload_type: u8, clock_rate: u32) -> PipelinePlanView {
    PipelinePlanView {
        kind,
        elements: chain_for(kind),
        source: source_for(payload_type, clock_rate, kind.encoding_name()),
        state: PipelineState::Playing,
    }
}

/// What the factory answers for a MIME type: the pipeline of the format that
/// the type names letter for letter, and its error for every other text.
pub open spec fn pipeline_outcome(payload_type: u8, clock_rate: u32, mime: Seq<char>) -> Result<
    PipelinePlanView,
    PipelineError,
> {
    match CodecKind::named(mime) {
        Some(kind) => Ok(plan_for(kind, payload_type, clock_rate)),
        None => Err(PipelineError::UnsupportedMime),
    }
}

/// A text that is none of the four MIME names has no pipeline, whatever the
/// payload type and the clock rate: the factory's answer is its error.
pub proof fn lemma_unnamed_mime_has_no_pipeline(payload_type: u8, clock_rate: u32, mime: Seq<char>)
    requires
        mime != MIME_TYPE_H264@,
        mime != MIME_TYPE_H265@,
        mime != MIME_TYPE_VP8@,
        mime != MIME_TYPE_VP9@,
    ensures
        pipeline_outcome(payload_type, clock_rate, mime) == Err::<PipelinePlanView, PipelineError>(
            PipelineError::UnsupportedMime,
        ),
{
}

/// Each of the four MIME names has the pipeline of its format.
pub proof fn lemma_named_mime_has_pipeline(kind: CodecKind, payload_type: u8, clock_rate: u32)
    ensures
        pipeline_outcome(payload_type, clock_rate, kind.mime_name()) == Ok::<
            PipelinePlanView,
            PipelineError,
        >(plan_for(kind, payload_type, clock_rate)),
{
    lemma_kind_has_own_name(kind);
}

fn signed_clock_rate(clock_rate: u32) -> (r: i32)
    ensures
        r == caps_clock_rate(clock_rate),
{
    if clock_rate <= 0x7fff_ffff {
        clock_rate as i32
    } else {
        let low: u32 = clock_rate - 0x8000_0000;
        (low as i32) - 0x7fff_ffff - 1
    }
}

/// Configures the source element for packets of the given payload type, clock
/// rate and encoding name: the capabilities to announce, and time as the
/// position unit.
pub fn configure_appsrc(payload_type: u8, clock_rate: u32, codec: &str) -> (source: SourceConfig)
    ensures
        source@ == source_for(payload_type, clock_rate, codec@),
        source@.caps == caps_for(payload_type, clock_rate, codec@),
        source@.format == StreamFormat::Time,
{
    SourceConfig {
        caps: SourceCaps {
            name: CAPS_NAME.to_owned(),
            media: CAPS_MEDIA.to_owned(),
            encoding_name: codec.to_owned(),
            payload: payload_type,
            clock_rate: signed_clock_rate(clock_rate),
        },
        format: StreamFormat::Time,
    }
}

/// Plans the consumer pipeline for a negotiated codec: a pipeline that is
/// playing as soon as it is built.
///
/// Succeeds exactly on the four MIME names `video/H264`, `video/H265`,
/// `video/VP8` and `video/VP9`, taken letter for letter, and fails with
/// [`PipelineError::UnsupportedMime`] on every other text.
pub fn create_pipeline(payload_type: u8, clock_rate: u32, mimetype: &str) -> (r: Result<
    PipelinePlan,
    PipelineError,
>)
    ensures
        r is Ok <==> (mimetype@ == MIME_TYPE_H264@ || mimetype@ == MIME_TYPE_H265@ || mimetype@
            == MIME_TYPE_VP8@ || mimetype@ == MIME_TYPE_VP9@),
        r matches Ok(plan) ==> pipeline_outcome(payload_type, clock_rate, mimetype@) == Ok::<
            PipelinePlanView,
            PipelineError,
        >(plan@),
        r matches Err(e) ==> e == PipelineError::UnsupportedMime,
{
    let kind = match CodecKind::from_name(mimetype) {
        Some(kind) => kind,
        None => {
            return Err(PipelineError::UnsupportedMime);
        },
    };
    let mut elements: Vec<String> = Vec::new();
    elements.push(SOURCE_ELEMENT.to_owned());
    elements.push(kind.depayloader().to_owned());
    elements.push(kind.decoder().to_owned());
    elements.push(CONVERT_ELEMENT.to_owned());
    elements.push(DISPLAY_ELEMENT.to_owned());
    let source = configure_appsrc(payload_type, clock_rate, kind.encoding());
    let plan = PipelinePlan { kind, elements, source, state: PipelineState::Playing };
    assert(plan@.elements =~= chain_for(kind));
    Ok(plan)
}

} // verus!

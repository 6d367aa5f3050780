//! Codec descriptors and the registry of codecs that the local endpoint is
//! willing to receive, in preference order.

use crate::strings::same_text;
use vstd::prelude::*;

verus! {

/// MIME name of H.264 video.
pub const MIME_TYPE_H264: &'static str = "video/H264";

/// MIME name of H.265 video.
pub const MIME_TYPE_H265: &'static str = "video/H265";

/// MIME name of VP8 video.
pub const MIME_TYPE_VP8: &'static str = "video/VP8";

/// MIME name of VP9 video.
pub const MIME_TYPE_VP9: &'static str = "video/VP9";

/// The lower-case form of an ASCII capital; every other character is itself.
pub open spec fn ascii_lower(c: char) -> char {
    if 'A' <= c && c <= 'Z' {
        ((c as u8 + 32) as u8) as char
    } else {
        c
    }
}

/// Two MIME names denote the same type: they are equal up to the case of
/// their ASCII letters.
pub open spec fn mime_matches(a: Seq<char>, b: Seq<char>) -> bool {
    &&& a.len() == b.len()
    &&& forall|i: int| 0 <= i < a.len() ==> ascii_lower(#[trigger] a[i]) == ascii_lower(b[i])
}

fn to_ascii_lower(c: char) -> (r: char)
    ensures
        r == ascii_lower(c),
{
    if 'A' <= c && c <= 'Z' {
        let b: u8 = c as u8;
        (b + 32) as char
    } else {
        c
    }
}

/// Compares two MIME names without regard to the case of ASCII letters.
///
/// Each character is looked up from the start of its string, so the time
/// taken grows with the square of the length; MIME names are short.
pub fn mime_eq(a: &str, b: &str) -> (r: bool)
    ensures
        r == mime_matches(a@, b@),
{
    let n = a.unicode_len();
    if n != b.unicode_len() {
        return false;
    }
    let mut i: usize = 0;
    while i < n
        invariant
            0 <= i <= n,
            n == a@.len(),
            n == b@.len(),
            forall|j: int| 0 <= j < i ==> ascii_lower(#[trigger] a@[j]) == ascii_lower(b@[j]),
        decreases n - i,
    {
        let x = to_ascii_lower(a.get_char(i));
        let y = to_ascii_lower(b.get_char(i));
        if x != y {
            return false;
        }
        i = i + 1;
    }
    true
}

/// A MIME name matches itself.
pub proof fn lemma_mime_matches_reflexive(a: Seq<char>)
    ensures
        mime_matches(a, a),
{
}

/// Matching is symmetric.
pub proof fn lemma_mime_matches_symmetric(a: Seq<char>, b: Seq<char>)
    requires
        mime_matches(a, b),
    ensures
        mime_matches(b, a),
{
    assert forall|i: int| 0 <= i < b.len() implies ascii_lower(#[trigger] b[i]) == ascii_lower(
        a[i],
    ) by {}
}

/// Matching is transitive.
pub proof fn lemma_mime_matches_transitive(a: Seq<char>, b: Seq<char>, c: Seq<char>)
    requires
        mime_matches(a, b),
        mime_matches(b, c),
    ensures
        mime_matches(a, c),
{
    assert forall|i: int| 0 <= i < a.len() implies ascii_lower(#[trigger] a[i]) == ascii_lower(
        c[i],
    ) by {}
}

/// The video formats for which a decode chain exists.
#[derive(Clone, Copy, Debug, PartialEq, Eq, Structural)]
pub enum CodecKind {
    H264,
    H265,
    VP8,
    VP9,
}

impl CodecKind {
    /// The canonical MIME name of the format.
    pub open spec fn mime_name(self) -> Seq<char> {
        match self {
            CodecKind::H264 => MIME_TYPE_H264@,
            CodecKind::H265 => MIME_TYPE_H265@,
            CodecKind::VP8 => MIME_TYPE_VP8@,
            CodecKind::VP9 => MIME_TYPE_VP9@,
        }
    }

    /// The format whose canonical MIME name is `mime`, letter for letter.
    pub open spec fn named(mime: Seq<char>) -> Option<CodecKind> {
        if mime == MIME_TYPE_H264@ {
            Some(CodecKind::H264)
        } else if mime == MIME_TYPE_H265@ {
            Some(CodecKind::H265)
        } else if mime == MIME_TYPE_VP8@ {
            Some(CodecKind::VP8)
        } else if mime == MIME_TYPE_VP9@ {
            Some(CodecKind::VP9)
        } else {
            None
        }
    }

    /// The format that a MIME name denotes, if it is one of the four: the
    /// name may differ from the canonical one in the case of its letters.
    pub open spec fn recognized(mime: Seq<char>) -> Option<CodecKind> {
        if mime_matches(mime, MIME_TYPE_H264@) {
            Some(CodecKind::H264)
        } else if mime_matches(mime, MIME_TYPE_H265@) {
            Some(CodecKind::H265)
        } else if mime_matches(mime, MIME_TYPE_VP8@) {
            Some(CodecKind::VP8)
        } else if mime_matches(mime, MIME_TYPE_VP9@) {
            Some(CodecKind::VP9)
        } else {
            None
        }
    }

    /// The canonical MIME name of the format.
    pub fn mime_type(self) -> (r: &'static str)
        ensures
            r@ == self.mime_name(),
    {
        match self {
            CodecKind::H264 => MIME_TYPE_H264,
            CodecKind::H265 => MIME_TYPE_H265,
            CodecKind::VP8 => MIME_TYPE_VP8,
            CodecKind::VP9 => MIME_TYPE_VP9,
        }
    }

    /// The format whose canonical MIME name is exactly `mime`.
    pub fn from_name(mime: &str) -> (r: Option<CodecKind>)
        ensures
            r == CodecKind::named(mime@),
    {
        if same_text(mime, MIME_TYPE_H264) {
            Some(CodecKind::H264)
        } else if same_text(mime, MIME_TYPE_H265) {
            Some(CodecKind::H265)
        } else if same_text(mime, MIME_TYPE_VP8) {
            Some(CodecKind::VP8)
        } else if same_text(mime, MIME_TYPE_VP9) {
            Some(CodecKind::VP9)
        } else {
            None
        }
    }

    /// Looks a MIME name up among the formats, without regard to the case of
    /// its letters.
    pub fn from_mime(mime: &str) -> (r: Option<CodecKind>)
        ensures
            r == CodecKind::recognized(mime@),
    {
        if mime_eq(mime, MIME_TYPE_H264) {
            Some(CodecKind::H264)
        } else if mime_eq(mime, MIME_TYPE_H265) {
            Some(CodecKind::H265)
        } else if mime_eq(mime, MIME_TYPE_VP8) {
            Some(CodecKind::VP8)
        } else if mime_eq(mime, MIME_TYPE_VP9) {
            Some(CodecKind::VP9)
        } else {
            None
        }
    }
}

/// Looking up the canonical name of a format yields that format.
pub proof fn lemma_kind_recognizes_own_name(kind: CodecKind)
    ensures
        CodecKind::recognized(kind.mime_name()) == Some(kind),
{
    reveal_strlit("video/H264");
    reveal_strlit("video/H265");
    reveal_strlit("video/VP8");
    reveal_strlit("video/VP9");
    let h264 = MIME_TYPE_H264@;
    let h265 = MIME_TYPE_H265@;
    let vp8 = MIME_TYPE_VP8@;
    let vp9 = MIME_TYPE_VP9@;
    assert(ascii_lower(h264[9]) != ascii_lower(h265[9]));
    assert(ascii_lower(vp8[8]) != ascii_lower(vp9[8]));
    lemma_mime_matches_reflexive(kind.mime_name());
}

/// The four canonical names are four different names: each names its own
/// format and no other.
pub proof fn lemma_kind_has_own_name(kind: CodecKind)
    ensures
        CodecKind::named(kind.mime_name()) == Some(kind),
{
    reveal_strlit("video/H264");
    reveal_strlit("video/H265");
    reveal_strlit("video/VP8");
    reveal_strlit("video/VP9");
    let h264 = MIME_TYPE_H264@;
    let h265 = MIME_TYPE_H265@;
    let vp8 = MIME_TYPE_VP8@;
    let vp9 = MIME_TYPE_VP9@;
    assert(h264.len() == 10 && h265.len() == 10 && vp8.len() == 9 && vp9.len() == 9);
    assert(h264[9] != h265[9]);
    assert(vp8[8] != vp9[8]);
}

/// A canonical name is recognized as the format that it names: what matches
/// letter for letter also matches without regard to case.
pub proof fn lemma_named_is_recognized(mime: Seq<char>)
    requires
        CodecKind::named(mime) is Some,
    ensures
        CodecKind::recognized(mime) == CodecKind::named(mime),
{
    let kind = CodecKind::named(mime)->Some_0;
    assert(mime == kind.mime_name());
    lemma_kind_recognizes_own_name(kind);
}

/// A name that is recognized matches the canonical name of its format.
pub proof fn lemma_recognized_is_matching(mime: Seq<char>)
    requires
        CodecKind::recognized(mime) is Some,
    ensures
        mime_matches(CodecKind::recognized(mime)->Some_0.mime_name(), mime),
{
    lemma_mime_matches_symmetric(mime, CodecKind::recognized(mime)->Some_0.mime_name());
}

/// Names that match denote the same format, or both denote none.
pub proof fn lemma_recognized_respects_matching(a: Seq<char>, b: Seq<char>)
    requires
        mime_matches(a, b),
    ensures
        CodecKind::recognized(a) == CodecKind::recognized(b),
{
    let names = seq![MIME_TYPE_H264@, MIME_TYPE_H265@, MIME_TYPE_VP8@, MIME_TYPE_VP9@];
    assert forall|k: int| 0 <= k < 4 implies mime_matches(a, #[trigger] names[k]) == mime_matches(
        b,
        names[k],
    ) by {
        if mime_matches(a, names[k]) {
            lemma_mime_matches_symmetric(a, b);
            lemma_mime_matches_transitive(b, a, names[k]);
        }
        if mime_matches(b, names[k]) {
            lemma_mime_matches_transitive(a, b, names[k]);
        }
    }
}

/// One feedback mechanism of a codec: its type, such as `nack`, and the
/// parameter of the type, such as `pli`, which may be empty.
#[derive(Debug, PartialEq, Eq)]
pub struct RtcpFeedback {
    pub kind: String,
    pub parameter: String,
}

/// Mathematical value of an [`RtcpFeedback`].
pub struct RtcpFeedbackView {
    pub kind: Seq<char>,
    pub parameter: Seq<char>,
}

impl View for RtcpFeedback {
    type V = RtcpFeedbackView;

    open spec fn view(&self) -> RtcpFeedbackView {
        RtcpFeedbackView { kind: self.kind@, parameter: self.parameter@ }
    }
}

impl Clone for RtcpFeedback {
    fn clone(&self) -> (r: RtcpFeedback)
        ensures
            r@ == self@,
    {
        RtcpFeedback { kind: self.kind.clone(), parameter: self.parameter.clone() }
    }
}

/// The values of a list of feedback mechanisms, in order.
pub open spec fn feedback_views(list: Seq<RtcpFeedback>) -> Seq<RtcpFeedbackView> {
    list.map_values(|f: RtcpFeedback| f@)
}

fn clone_feedback(list: &Vec<RtcpFeedback>) -> (r: Vec<RtcpFeedback>)
    ensures
        feedback_views(r@) == feedback_views(list@),
{
    let mut out: Vec<RtcpFeedback> = Vec::new();
    let mut i: usize = 0;
    while i < list.len()
        invariant
            0 <= i <= list.len(),
            out.len() == i,
            forall|j: int| 0 <= j < i ==> (#[trigger] out@[j])@ == list@[j]@,
        decreases list.len() - i,
    {
        out.push(list[i].clone());
        i = i + 1;
    }
    assert(feedback_views(out@) =~= feedback_views(list@));
    out
}

/// One codec that the local endpoint offers to receive.
#[derive(Debug, PartialEq, Eq)]
pub struct CodecDescriptor {
    /// Identifier of the codec within the session's negotiated set.
    pub payload_type: u8,
    /// MIME name of the media format, such as `video/H264`.
    pub mime_type: String,
    /// Clock rate in Hz.
    pub clock_rate: u32,
    /// Feedback mechanisms, in order.
    pub feedback: Vec<RtcpFeedback>,
}

/// Mathematical value of a [`CodecDescriptor`].
pub struct CodecDescriptorView {
    pub payload_type: u8,
    pub mime_type: Seq<char>,
    pub clock_rate: u32,
    pub feedback: Seq<RtcpFeedbackView>,
}

impl View for CodecDescriptor {
    type V = CodecDescriptorView;

    open spec fn view(&self) -> CodecDescriptorView {
        CodecDescriptorView {
            payload_type: self.payload_type,
            mime_type: self.mime_type@,
            clock_rate: self.clock_rate,
            feedback: feedback_views(self.feedback@),
        }
    }
}

/// The values of a list of descriptors, in order.
pub open spec fn descriptor_views(list: Seq<CodecDescriptor>) -> Seq<CodecDescriptorView> {
    list.map_values(|d: CodecDescriptor| d@)
}

impl CodecDescriptor {
    /// A descriptor with no feedback mechanisms.
    pub fn new(payload_type: u8, mime_type: &str, clock_rate: u32) -> (r: CodecDescriptor)
        ensures
            r@ == (CodecDescriptorView {
                payload_type,
                mime_type: mime_type@,
                clock_rate,
                feedback: Seq::empty(),
            }),
    {
        let r = CodecDescriptor {
            payload_type,
            mime_type: mime_type.to_owned(),
            clock_rate,
            feedback: Vec::new(),
        };
        assert(r@.feedback =~= Seq::empty());
        r
    }
}

impl Clone for CodecDescriptor {
    fn clone(&self) -> (r: CodecDescriptor)
        ensures
            r@ == self@,
    {
        CodecDescriptor {
            payload_type: self.payload_type,
            mime_type: self.mime_type.clone(),
            clock_rate: self.clock_rate,
            feedback: clone_feedback(&self.feedback),
        }
    }
}

/// Why a descriptor was not registered.
#[derive(Clone, Copy, Debug, PartialEq, Eq, Structural)]
pub enum CodecRegistrationError {
    /// The descriptor cannot be offered: its clock rate is not positive.
    Unsupported,
    /// Its payload type is already taken by a registered descriptor.
    Duplicate,
}

/// How the codec set of the session is chosen.
#[derive(Clone, Copy, Debug, PartialEq, Eq, Structural)]
pub enum RegistryMode {
    /// Nothing was registered: the engine's default codec set is used as it
    /// is.
    EngineDefaults,
    /// An explicit list was registered; only it is offered, in its order.
    Explicit,
}

/// A descriptor that can be offered.
pub open spec fn supported(d: CodecDescriptorView) -> bool {
    d.clock_rate > 0
}

/// Some descriptor of `reg` has payload type `payload_type`.
pub open spec fn has_payload_type(reg: Seq<CodecDescriptorView>, payload_type: u8) -> bool {
    exists|i: int| 0 <= i < reg.len() && (#[trigger] reg[i]).payload_type == payload_type
}

/// What a registry may hold: supported descriptors with pairwise distinct
/// payload types.
pub open spec fn registry_wf(reg: Seq<CodecDescriptorView>) -> bool {
    &&& forall|i: int| 0 <= i < reg.len() ==> supported(#[trigger] reg[i])
    &&& forall|i: int, j: int|
        0 <= i < j < reg.len() ==> (#[trigger] reg[i]).payload_type != (
        #[trigger] reg[j]).payload_type
}

/// Registering `d` with a registry that holds `reg`: the registry afterwards,
/// or the reason for the refusal.
pub open spec fn register_outcome(reg: Seq<CodecDescriptorView>, d: CodecDescriptorView) -> Result<
    Seq<CodecDescriptorView>,
    CodecRegistrationError,
> {
    if !supported(d) {
        Err(CodecRegistrationError::Unsupported)
    } else if has_payload_type(reg, d.payload_type) {
        Err(CodecRegistrationError::Duplicate)
    } else {
        Ok(reg.push(d))
    }
}

/// Registering the descriptors `ds` one after the other, stopping at the
/// first refusal.
pub open spec fn register_all_outcome(
    reg: Seq<CodecDescriptorView>,
    ds: Seq<CodecDescriptorView>,
) -> Result<Seq<CodecDescriptorView>, CodecRegistrationError>
    decreases ds.len(),
{
    if ds.len() == 0 {
        Ok(reg)
    } else {
        match register_outcome(reg, ds.first()) {
            Ok(next) => register_all_outcome(next, ds.drop_first()),
            Err(e) => Err(e),
        }
    }
}

/// The payload types of `reg`, in order.
pub open spec fn payload_types_of(reg: Seq<CodecDescriptorView>) -> Seq<u8> {
    reg.map_values(|d: CodecDescriptorView| d.payload_type)
}

/// Descriptor `i` of `reg` is the first whose MIME name matches `mime`.
pub open spec fn is_first_match(reg: Seq<CodecDescriptorView>, mime: Seq<char>, i: int) -> bool {
    &&& 0 <= i < reg.len()
    &&& mime_matches(reg[i].mime_type, mime)
    &&& forall|j: int| 0 <= j < i ==> !mime_matches((#[trigger] reg[j]).mime_type, mime)
}

/// Some descriptor of `reg` has a MIME name that matches `mime`.
pub open spec fn has_mime(reg: Seq<CodecDescriptorView>, mime: Seq<char>) -> bool {
    exists|i: int| 0 <= i < reg.len() && mime_matches((#[trigger] reg[i]).mime_type, mime)
}

/// Whether a track of MIME type `mime` belongs to the set that the registry
/// declares. With nothing registered the engine's own set is the declared one
/// and every type that it negotiates belongs to it.
pub open spec fn declares(reg: Seq<CodecDescriptorView>, mime: Seq<char>) -> bool {
    reg.len() == 0 || has_mime(reg, mime)
}

/// Successful registration appends: the registry afterwards is the registry
/// before, followed by the registered descriptors in the order given.
pub proof fn lemma_registration_preserves_order(
    reg: Seq<CodecDescriptorView>,
    ds: Seq<CodecDescriptorView>,
)
    ensures
        register_all_outcome(reg, ds) matches Ok(after) ==> after == reg + ds,
    decreases ds.len(),
{
    if ds.len() > 0 {
        match register_outcome(reg, ds.first()) {
            Ok(next) => {
                lemma_registration_preserves_order(next, ds.drop_first());
            },
            Err(_) => {},
        }
    }
}

/// Registering one descriptor keeps a well-formed registry well-formed.
pub proof fn lemma_register_preserves_wf(reg: Seq<CodecDescriptorView>, d: CodecDescriptorView)
    requires
        registry_wf(reg),
    ensures
        register_outcome(reg, d) matches Ok(after) ==> registry_wf(after),
{
    match register_outcome(reg, d) {
        Ok(after) => {
            assert forall|i: int, j: int| 0 <= i < j < after.len() implies (
            #[trigger] after[i]).payload_type != (#[trigger] after[j]).payload_type by {}
        },
        Err(_) => {},
    }
}

/// Registering a list keeps a well-formed registry well-formed.
pub proof fn lemma_registration_preserves_wf(
    reg: Seq<CodecDescriptorView>,
    ds: Seq<CodecDescriptorView>,
)
    requires
        registry_wf(reg),
    ensures
        register_all_outcome(reg, ds) matches Ok(after) ==> registry_wf(after),
    decreases ds.len(),
{
    if ds.len() > 0 {
        lemma_register_preserves_wf(reg, ds.first());
        match register_outcome(reg, ds.first()) {
            Ok(next) => {
                lemma_registration_preserves_wf(next, ds.drop_first());
            },
            Err(_) => {},
        }
    }
}

/// A list registers in full with an empty registry exactly if it is itself a
/// well-formed registry: every descriptor supported, no payload type twice.
pub proof fn lemma_list_registers_iff_wf(ds: Seq<CodecDescriptorView>)
    ensures
        register_all_outcome(Seq::empty(), ds) is Ok <==> registry_wf(ds),
{
    lemma_registers_iff_wf_from(Seq::empty(), ds);
}

proof fn lemma_registers_iff_wf_from(reg: Seq<CodecDescriptorView>, ds: Seq<CodecDescriptorView>)
    requires
        registry_wf(reg),
    ensures
        register_all_outcome(reg, ds) is Ok <==> registry_wf(reg + ds),
    decreases ds.len(),
{
    let all = reg + ds;
    if ds.len() > 0 {
        let d = ds.first();
        assert(all[reg.len() as int] == d);
        lemma_register_preserves_wf(reg, d);
        match register_outcome(reg, d) {
            Ok(next) => {
                lemma_registers_iff_wf_from(next, ds.drop_first());
                assert(next + ds.drop_first() =~= all);
            },
            Err(_) => {
                if supported(d) {
                    let i = choose|i: int|
                        0 <= i < reg.len() && (#[trigger] reg[i]).payload_type == d.payload_type;
                    assert(all[i].payload_type == all[reg.len() as int].payload_type);
                }
            },
        }
    }
}

/// The ordered list of codecs that the session offers to receive.
///
/// The list holds supported descriptors with pairwise distinct payload types,
/// in the order in which they were registered. A registered descriptor is
/// never changed or removed.
#[derive(Debug)]
pub struct CodecRegistry {
    codecs: Vec<CodecDescriptor>,
}

impl View for CodecRegistry {
    type V = Seq<CodecDescriptorView>;

    closed spec fn view(&self) -> Seq<CodecDescriptorView> {
        descriptor_views(self.codecs@)
    }
}

impl CodecRegistry {
    /// The invariant of the type: what is registered is well-formed.
    pub open spec fn wf(&self) -> bool {
        registry_wf(self@)
    }

    /// A registry with nothing registered: the engine's default codec set is
    /// accepted as it is.
    pub fn engine_defaults() -> (r: CodecRegistry)
        ensures
            r@ == Seq::<CodecDescriptorView>::empty(),
            r.wf(),
    {
        let r = CodecRegistry { codecs: Vec::new() };
        r
    }

    /// A registry that holds exactly `list`, in its order, or the reason why
    /// the first descriptor that cannot be registered is refused.
    ///
    /// Succeeds exactly if every descriptor of the list is supported and no
    /// two have the same payload type.
    pub fn explicit(list: Vec<CodecDescriptor>) -> (r: Result<
        CodecRegistry,
        CodecRegistrationError,
    >)
        ensures
            r is Ok <==> registry_wf(descriptor_views(list@)),
            match r {
                Ok(registry) => register_all_outcome(Seq::empty(), descriptor_views(list@)) == Ok::<
                    Seq<CodecDescriptorView>,
                    CodecRegistrationError,
                >(registry@) && registry@ == descriptor_views(list@) && registry.wf(),
                Err(e) => register_all_outcome(Seq::empty(), descriptor_views(list@)) == Err::<
                    Seq<CodecDescriptorView>,
                    CodecRegistrationError,
                >(e),
            },
    {
        let ghost all = descriptor_views(list@);
        proof {
            lemma_list_registers_iff_wf(all);
        }
        let mut registry = CodecRegistry::engine_defaults();
        let mut i: usize = 0;
        proof {
            assert(all.skip(0) =~= all);
        }
        while i < list.len()
            invariant
                0 <= i <= list.len(),
                all == descriptor_views(list@),
                registry@ == all.take(i as int),
                registry.wf(),
                register_all_outcome(Seq::empty(), all) == register_all_outcome(
                    registry@,
                    all.skip(i as int),
                ),
            decreases list.len() - i,
        {
            let d = list[i].clone();
            proof {
                assert(all.skip(i as int).drop_first() =~= all.skip(i as int + 1));
            }
            match registry.register(d) {
                Ok(()) => {},
                Err(e) => {
                    return Err(e);
                },
            }
            i = i + 1;
        }
        Ok(registry)
    }

    /// Registers `d` behind the descriptors registered so far.
    ///
    /// Refuses an unsupported descriptor, and one whose payload type is
    /// already registered; the registry is then unchanged.
    pub fn register(&mut self, d: CodecDescriptor) -> (r: Result<(), CodecRegistrationError>)
        ensures
            old(self).wf() ==> final(self).wf(),
            match r {
                Ok(()) => register_outcome(old(self)@, d@) == Ok::<
                    Seq<CodecDescriptorView>,
                    CodecRegistrationError,
                >(final(self)@),
                Err(e) => register_outcome(old(self)@, d@) == Err::<
                    Seq<CodecDescriptorView>,
                    CodecRegistrationError,
                >(e) && final(self)@ == old(self)@,
            },
    {
        if d.clock_rate == 0 {
            return Err(CodecRegistrationError::Unsupported);
        }
        if self.holds_payload_type(d.payload_type) {
            return Err(CodecRegistrationError::Duplicate);
        }
        let ghost before = self@;
        self.codecs.push(d);
        proof {
            assert(descriptor_views(self.codecs@) =~= before.push(d@));
            if registry_wf(before) {
                lemma_register_preserves_wf(before, d@);
            }
        }
        Ok(())
    }

    /// Whether some registered descriptor has payload type `payload_type`.
    pub fn holds_payload_type(&self, payload_type: u8) -> (r: bool)
        ensures
            r == has_payload_type(self@, payload_type),
    {
        let mut i: usize = 0;
        while i < self.codecs.len()
            invariant
                0 <= i <= self.codecs.len(),
                forall|j: int| 0 <= j < i ==> (#[trigger] self@[j]).payload_type != payload_type,
            decreases self.codecs.len() - i,
        {
            if self.codecs[i].payload_type == payload_type {
                assert(self@[i as int].payload_type == payload_type);
                return true;
            }
            i = i + 1;
        }
        false
    }

    /// Number of registered descriptors.
    pub fn len(&self) -> (n: usize)
        ensures
            n == self@.len(),
    {
        self.codecs.len()
    }

    /// How the session's codec set is chosen.
    pub fn mode(&self) -> (m: RegistryMode)
        ensures
            m == (if self@.len() == 0 {
                RegistryMode::EngineDefaults
            } else {
                RegistryMode::Explicit
            }),
    {
        if self.codecs.len() == 0 {
            RegistryMode::EngineDefaults
        } else {
            RegistryMode::Explicit
        }
    }

    /// The descriptor registered at position `i`, if there is one.
    pub fn get(&self, i: usize) -> (d: Option<&CodecDescriptor>)
        ensures
            d is Some <==> i < self@.len(),
            d matches Some(found) ==> found@ == self@[i as int],
    {
        if i < self.codecs.len() {
            Some(&self.codecs[i])
        } else {
            None
        }
    }

    /// The registered descriptors in registration order: the preference list
    /// to hand to the transport.
    pub fn preferences(&self) -> (list: Vec<CodecDescriptor>)
        ensures
            descriptor_views(list@) == self@,
    {
        let mut out: Vec<CodecDescriptor> = Vec::new();
        let mut i: usize = 0;
        while i < self.codecs.len()
            invariant
                0 <= i <= self.codecs.len(),
                out.len() == i,
                forall|j: int| 0 <= j < i ==> (#[trigger] out@[j])@ == self.codecs@[j]@,
            decreases self.codecs.len() - i,
        {
            out.push(self.codecs[i].clone());
            i = i + 1;
        }
        out
    }

    /// The payload types in registration order.
    pub fn payload_types(&self) -> (list: Vec<u8>)
        ensures
            list@ == payload_types_of(self@),
    {
        let mut out: Vec<u8> = Vec::new();
        let mut i: usize = 0;
        while i < self.codecs.len()
            invariant
                0 <= i <= self.codecs.len(),
                out.len() == i,
                forall|j: int| 0 <= j < i ==> #[trigger] out@[j] == self.codecs@[j].payload_type,
            decreases self.codecs.len() - i,
        {
            out.push(self.codecs[i].payload_type);
            i = i + 1;
        }
        out
    }

    /// Position of the first registered descriptor whose MIME name matches
    /// `mime`.
    pub fn find(&self, mime: &str) -> (r: Option<usize>)
        ensures
            r is None <==> !has_mime(self@, mime@),
            r matches Some(i) ==> is_first_match(self@, mime@, i as int),
    {
        let mut i: usize = 0;
        while i < self.codecs.len()
            invariant
                0 <= i <= self.codecs.len(),
                forall|j: int| 0 <= j < i ==> !mime_matches((#[trigger] self@[j]).mime_type, mime@),
            decreases self.codecs.len() - i,
        {
            if mime_eq(self.codecs[i].mime_type.as_str(), mime) {
                assert(mime_matches(self@[i as int].mime_type, mime@));
                return Some(i);
            }
            i = i + 1;
        }
        None
    }

    /// Whether a track of MIME type `mime` belongs to the declared set.
    pub fn declares_mime(&self, mime: &str) -> (r: bool)
        ensures
            r == declares(self@, mime@),
    {
        self.codecs.len() == 0 || self.find(mime).is_some()
    }
}

} // verus!

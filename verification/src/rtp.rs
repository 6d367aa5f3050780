//! RTP packets as plain data, and their wire format.
//!
//! A packet read from a track is held here field by field, so that the relay
//! logic can reason about it. Turning a packet into bytes is the work of the
//! `rtp` implementation that ships with the WebRTC stack; this module decides
//! which packets may be handed to it and states what comes back.

use vstd::prelude::*;

verus! {

/// Profile tag of the one-byte header extension format.
pub const EXTENSION_PROFILE_ONE_BYTE: u16 = 0xBEDE;

/// Profile tag of the two-byte header extension format.
pub const EXTENSION_PROFILE_TWO_BYTE: u16 = 0x1000;

/// Largest extension block, in bytes, whose length in 32-bit words still fits
/// the 16-bit length field after rounding up.
pub const MAX_EXTENSION_BLOCK: usize = 65532;

/// One element of an RTP header extension block.
#[derive(Debug, PartialEq, Eq)]
pub struct RtpExtension {
    pub id: u8,
    pub payload: Vec<u8>,
}

/// Mathematical value of an [`RtpExtension`].
pub struct RtpExtensionView {
    pub id: u8,
    pub payload: Seq<u8>,
}

impl View for RtpExtension {
    type V = RtpExtensionView;

    open spec fn view(&self) -> RtpExtensionView {
        RtpExtensionView { id: self.id, payload: self.payload@ }
    }
}

/// The fixed and variable parts of an RTP header.
#[derive(Debug, PartialEq, Eq)]
pub struct RtpHeader {
    pub version: u8,
    pub padding: bool,
    pub extension: bool,
    pub marker: bool,
    pub payload_type: u8,
    pub sequence_number: u16,
    pub timestamp: u32,
    pub ssrc: u32,
    pub csrc: Vec<u32>,
    pub extension_profile: u16,
    pub extensions: Vec<RtpExtension>,
    pub extensions_padding: usize,
}

/// Mathematical value of an [`RtpHeader`].
pub struct RtpHeaderView {
    pub version: u8,
    pub padding: bool,
    pub extension: bool,
    pub marker: bool,
    pub payload_type: u8,
    pub sequence_number: u16,
    pub timestamp: u32,
    pub ssrc: u32,
    pub csrc: Seq<u32>,
    pub extension_profile: u16,
    pub extensions: Seq<RtpExtensionView>,
    pub extensions_padding: nat,
}

impl View for RtpHeader {
    type V = RtpHeaderView;

    open spec fn view(&self) -> RtpHeaderView {
        RtpHeaderView {
            version: self.version,
            padding: self.padding,
            extension: self.extension,
            marker: self.marker,
            payload_type: self.payload_type,
            sequence_number: self.sequence_number,
            timestamp: self.timestamp,
            ssrc: self.ssrc,
            csrc: self.csrc@,
            extension_profile: self.extension_profile,
            extensions: self.extensions@.map_values(|e: RtpExtension| e@),
            extensions_padding: self.extensions_padding as nat,
        }
    }
}

/// An RTP packet: header and media payload.
#[derive(Debug, PartialEq, Eq)]
pub struct RtpPacket {
    pub header: RtpHeader,
    pub payload: Vec<u8>,
}

/// Mathematical value of an [`RtpPacket`].
pub struct RtpPacketView {
    pub header: RtpHeaderView,
    pub payload: Seq<u8>,
}

impl View for RtpPacket {
    type V = RtpPacketView;

    open spec fn view(&self) -> RtpPacketView {
        RtpPacketView { header: self.header@, payload: self.payload@ }
    }
}

/// Why a packet yielded no wire bytes.
#[derive(Clone, Copy, Debug, PartialEq, Eq, Structural)]
pub enum RtpError {
    /// The header extension block cannot be laid out: it is too long for its
    /// length field, or a one-byte element has a length that has no encoding.
    ExtensionLayout,
    /// The serializer refused the packet.
    Rejected,
}

/// Sum of the payload lengths of `exts`.
pub open spec fn extension_bytes(exts: Seq<RtpExtensionView>) -> nat
    decreases exts.len(),
{
    if exts.len() == 0 {
        0
    } else {
        extension_bytes(exts.drop_last()) + exts.last().payload.len()
    }
}

/// Bytes that each extension element spends on its own id and length.
pub open spec fn element_overhead(profile: u16) -> nat {
    if profile == EXTENSION_PROFILE_ONE_BYTE {
        1
    } else if profile == EXTENSION_PROFILE_TWO_BYTE {
        2
    } else {
        0
    }
}

/// Length in bytes of the extension elements under `profile`, payloads and
/// per-element overhead together.
pub open spec fn extension_block_len(exts: Seq<RtpExtensionView>, profile: u16) -> nat {
    if profile == EXTENSION_PROFILE_ONE_BYTE {
        extension_bytes(exts) + exts.len()
    } else if profile == EXTENSION_PROFILE_TWO_BYTE {
        extension_bytes(exts) + 2 * exts.len()
    } else {
        extension_bytes(exts)
    }
}

/// No payload length is a multiple of 256. The one-byte format writes a
/// length as its low byte less one, which such a length does not have.
pub open spec fn one_byte_lengths_ok(exts: Seq<RtpExtensionView>) -> bool {
    forall|i: int| 0 <= i < exts.len() ==> (#[trigger] exts[i]).payload.len() % 256 != 0
}

/// The packets that may be handed to the serializer.
///
/// A packet without the extension flag always may. With the flag set, the
/// extension block together with its recorded padding must fit
/// [`MAX_EXTENSION_BLOCK`], and under the one-byte profile every element
/// length must be encodable.
pub open spec fn marshal_safe(p: RtpPacketView) -> bool {
    p.header.extension ==> {
        &&& extension_block_len(p.header.extensions, p.header.extension_profile)
            + p.header.extensions_padding <= MAX_EXTENSION_BLOCK
        &&& (p.header.extension_profile == EXTENSION_PROFILE_ONE_BYTE ==> one_byte_lengths_ok(
            p.header.extensions,
        ))
    }
}

/// What the serializer makes of a packet: its wire bytes, or nothing where it
/// refuses the packet.
pub uninterp spec fn rtp_wire_format(p: RtpPacketView) -> Option<Seq<u8>>;

/// The outcome of [`RtpPacket::marshal`] on a packet with value `p`.
pub open spec fn marshal_outcome(p: RtpPacketView) -> Result<Seq<u8>, RtpError> {
    if !marshal_safe(p) {
        Err(RtpError::ExtensionLayout)
    } else {
        match rtp_wire_format(p) {
            Some(bytes) => Ok(bytes),
            None => Err(RtpError::Rejected),
        }
    }
}

/// A longer prefix of an extension list never has fewer payload bytes.
pub proof fn lemma_extension_bytes_prefix(exts: Seq<RtpExtensionView>, n: int)
    requires
        0 <= n <= exts.len(),
    ensures
        extension_bytes(exts.take(n)) <= extension_bytes(exts),
    decreases exts.len(),
{
    if n == exts.len() {
        assert(exts.take(n) =~= exts);
    } else {
        lemma_extension_bytes_prefix(exts.drop_last(), n);
        assert(exts.drop_last().take(n) =~= exts.take(n));
    }
}

/// Extending a prefix by one element adds that element's payload length.
pub proof fn lemma_extension_bytes_step(exts: Seq<RtpExtensionView>, n: int)
    requires
        0 <= n < exts.len(),
    ensures
        extension_bytes(exts.take(n + 1)) == extension_bytes(exts.take(n)) + exts[n].payload.len(),
{
    assert(exts.take(n + 1).drop_last() =~= exts.take(n));
}

/// The error type of `webrtc::util::Marshal::marshal`, as an opaque value.
#[verifier::external_type_specification]
#[verifier::external_body]
pub struct ExMarshalError(webrtc::util::Error);

/// Calls `webrtc::util::Marshal::marshal` on the `webrtc::rtp::packet::Packet`
/// that has the fields of `packet`.
///
/// Not proved, but taken from the serializer's source: the outcome depends on
/// the packet's fields alone, so it has a name, [`rtp_wire_format`]; the call
/// returns on every packet that meets [`marshal_safe`], while outside that
/// set the serializer's length arithmetic can overflow; and a packet without
/// the extension flag is never refused, since every refusal of the serializer
/// lies in the layout of the extension block.
#[verifier::external_body]
fn wire_bytes(packet: &RtpPacket) -> (r: Result<Vec<u8>, webrtc::util::Error>)
    requires
        marshal_safe(packet@),
    ensures
        r is Ok <==> rtp_wire_format(packet@) is Some,
        r matches Ok(bytes) ==> rtp_wire_format(packet@) == Some(bytes@),
        !packet@.header.extension ==> r is Ok,
{
    let h = &packet.header;
    let outside = webrtc::rtp::packet::Packet {
        header: webrtc::rtp::header::Header {
            version: h.version, padding: h.padding, extension: h.extension, marker: h.marker,
            payload_type: h.payload_type, sequence_number: h.sequence_number,
            timestamp: h.timestamp, ssrc: h.ssrc, csrc: h.csrc.clone(),
            extension_profile: h.extension_profile, extensions_padding: h.extensions_padding,
            extensions: h.extensions.iter().map(|e| webrtc::rtp::header::Extension {
                id: e.id, payload: e.payload.clone().into() }).collect(),
        },
        payload: packet.payload.clone().into(),
    };
    webrtc::util::Marshal::marshal(&outside).map(|bytes| bytes.to_vec())
}

impl RtpPacket {
    /// Whether the packet may be handed to the serializer.
    pub fn can_marshal(&self) -> (ok: bool)
        ensures
            ok == marshal_safe(self@),
    {
        if !self.header.extension {
            return true;
        }
        let profile = self.header.extension_profile;
        let one_byte = profile == EXTENSION_PROFILE_ONE_BYTE;
        let overhead: usize = if one_byte {
            1
        } else if profile == EXTENSION_PROFILE_TWO_BYTE {
            2
        } else {
            0
        };
        if self.header.extensions_padding > MAX_EXTENSION_BLOCK {
            return false;
        }
        let ghost exts = self@.header.extensions;
        let mut total: usize = self.header.extensions_padding;
        let mut i: usize = 0;
        while i < self.header.extensions.len()
            invariant
                0 <= i <= self.header.extensions.len(),
                self.header.extension,
                exts == self@.header.extensions,
                exts.len() == self.header.extensions.len(),
                profile == self.header.extension_profile,
                one_byte == (profile == EXTENSION_PROFILE_ONE_BYTE),
                overhead == element_overhead(profile),
                total == extension_block_len(exts.take(i as int), profile)
                    + self.header.extensions_padding,
                total <= MAX_EXTENSION_BLOCK,
                one_byte ==> one_byte_lengths_ok(exts.take(i as int)),
            decreases self.header.extensions.len() - i,
        {
            let len = self.header.extensions[i].payload.len();
            proof {
                lemma_extension_bytes_step(exts, i as int);
                lemma_extension_bytes_prefix(exts, i as int + 1);
            }
            if one_byte && len % 256 == 0 {
                return false;
            }
            if len > MAX_EXTENSION_BLOCK - total || overhead > MAX_EXTENSION_BLOCK - total - len {
                return false;
            }
            total = total + len + overhead;
            proof {
                if one_byte {
                    assert forall|j: int| 0 <= j < exts.take(i as int + 1).len() implies (
                    #[trigger] exts.take(i as int + 1)[j]).payload.len() % 256 != 0 by {}
                }
            }
            i = i + 1;
        }
        proof {
            assert(exts.take(i as int) =~= exts);
        }
        true
    }

    /// Serializes the packet to its wire format.
    ///
    /// Fails with [`RtpError::ExtensionLayout`] exactly on the packets that
    /// [`marshal_safe`] leaves out, and with [`RtpError::Rejected`] exactly
    /// where the serializer refuses an admitted packet. A packet without the
    /// extension flag always has wire bytes.
    pub fn marshal(&self) -> (r: Result<Vec<u8>, RtpError>)
        ensures
            !self@.header.extension ==> r is Ok,
            r is Ok <==> marshal_outcome(self@) is Ok,
            r matches Ok(bytes) ==> marshal_outcome(self@) == Ok::<Seq<u8>, RtpError>(bytes@),
            r matches Err(e) ==> marshal_outcome(self@) == Err::<Seq<u8>, RtpError>(e),
    {
        if !self.can_marshal() {
            return Err(RtpError::ExtensionLayout);
        }
        match wire_bytes(self) {
            Ok(bytes) => Ok(bytes),
            Err(_) => Err(RtpError::Rejected),
        }
    }
}

} // verus!

//! The video codecs that the server registers: H264 only, in six profiles.

use vstd::prelude::*;

verus! {

/// An RTCP feedback mechanism offered for a codec.
#[derive(Debug)]
pub struct RtcpFeedback {
    pub typ: String,
    pub parameter: String,
}

impl View for RtcpFeedback {
    type V = (Seq<char>, Seq<char>);

    open spec fn view(&self) -> (Seq<char>, Seq<char>) {
        (self.typ@, self.parameter@)
    }
}

/// A codec with its capability and payload type.
#[derive(Debug)]
pub struct CodecSpec {
    pub mime_type: String,
    pub clock_rate: u32,
    pub channels: u16,
    pub sdp_fmtp_line: String,
    pub rtcp_feedback: Vec<RtcpFeedback>,
    pub payload_type: u8,
}

/// The MIME type of H264 video.
pub open spec fn h264_mime() -> Seq<char> {
    "video/H264"@
}

/// The feedback offered for every video codec: REMB, FIR, NACK and PLI.
pub open spec fn video_feedback() -> Seq<(Seq<char>, Seq<char>)> {
    seq![("goog-remb"@, ""@), ("ccm"@, "fir"@), ("nack"@, ""@), ("nack"@, "pli"@)]
}

/// The payload type and format parameters of each supported profile, in the
/// order they are registered.
pub open spec fn h264_profiles() -> Seq<(u8, Seq<char>)> {
    seq![
        (102u8, "level-asymmetry-allowed=1;packetization-mode=1;profile-level-id=42001f"@),
        (127u8, "level-asymmetry-allowed=1;packetization-mode=0;profile-level-id=42001f"@),
        (125u8, "level-asymmetry-allowed=1;packetization-mode=1;profile-level-id=42e01f"@),
        (108u8, "level-asymmetry-allowed=1;packetization-mode=0;profile-level-id=42e01f"@),
        (127u8, "level-asymmetry-allowed=1;packetization-mode=0;profile-level-id=42001f"@),
        (123u8, "level-asymmetry-allowed=1;packetization-mode=1;profile-level-id=640032"@),
    ]
}

fn feedback(typ: &str, parameter: &str) -> (res: RtcpFeedback)
    ensures
        res@ == (typ@, parameter@),
{
    RtcpFeedback { typ: typ.to_owned(), parameter: parameter.to_owned() }
}

fn video_rtcp_feedback() -> (res: Vec<RtcpFeedback>)
    ensures
        res@.map_values(|f: RtcpFeedback| f@) == video_feedback(),
{
    let mut v: Vec<RtcpFeedback> = Vec::new();
    v.push(feedback("goog-remb", ""));
    v.push(feedback("ccm", "fir"));
    v.push(feedback("nack", ""));
    v.push(feedback("nack", "pli"));
    assert(v@.map_values(|f: RtcpFeedback| f@) =~= video_feedback());
    v
}

fn h264_codec(payload_type: u8, sdp_fmtp_line: &str) -> (res: CodecSpec)
    ensures
        res.mime_type@ == h264_mime(),
        res.clock_rate == 90000,
        res.channels == 0,
        res.sdp_fmtp_line@ == sdp_fmtp_line@,
        res.rtcp_feedback@.map_values(|f: RtcpFeedback| f@) == video_feedback(),
        res.payload_type == payload_type,
{
    CodecSpec {
        mime_type: "video/H264".to_owned(),
        clock_rate: 90000,
        channels: 0,
        sdp_fmtp_line: sdp_fmtp_line.to_owned(),
        rtcp_feedback: video_rtcp_feedback(),
        payload_type,
    }
}

/// The codecs that this server supports: only H264 video at 90 kHz, in six
/// profiles, each with REMB, FIR, NACK and PLI feedback.
pub fn supported_codecs() -> (res: Vec<CodecSpec>)
    ensures
        res@.len() == h264_profiles().len(),
        forall|i: int|
            0 <= i < res@.len() ==> {
                &&& (#[trigger] res@[i]).mime_type@ == h264_mime()
                &&& res@[i].clock_rate == 90000
                &&& res@[i].channels == 0
                &&& res@[i].rtcp_feedback@.map_values(|f: RtcpFeedback| f@) == video_feedback()
                &&& res@[i].payload_type == h264_profiles()[i].0
                &&& res@[i].sdp_fmtp_line@ == h264_profiles()[i].1
            },
{
    let mut v: Vec<CodecSpec> = Vec::new();
    v.push(h264_codec(102, "level-asymmetry-allowed=1;packetization-mode=1;profile-level-id=42001f"));
    v.push(h264_codec(127, "level-asymmetry-allowed=1;packetization-mode=0;profile-level-id=42001f"));
    v.push(h264_codec(125, "level-asymmetry-allowed=1;packetization-mode=1;profile-level-id=42e01f"));
    v.push(h264_codec(108, "level-asymmetry-allowed=1;packetization-mode=0;profile-level-id=42e01f"));
    v.push(h264_codec(127, "level-asymmetry-allowed=1;packetization-mode=0;profile-level-id=42001f"));
    v.push(h264_codec(123, "level-asymmetry-allowed=1;packetization-mode=1;profile-level-id=640032"));
    v
}

/// The format parameters of an H264 profile: asymmetric levels allowed,
/// the given packetization mode and profile-level-id.
pub open spec fn fmtp(mode: Seq<char>, profile_level_id: Seq<char>) -> Seq<char> {
    "level-asymmetry-allowed=1;packetization-mode="@ + mode + ";profile-level-id="@ + profile_level_id
}

/// The registered profiles, in order: baseline 42001f in packetization
/// modes 1 and 0 (payload types 102 and 127), constrained baseline 42e01f in
/// modes 1 and 0 (125 and 108), baseline 42001f in mode 0 again (127) and
/// high 640032 in mode 1 (123).
pub proof fn lemma_registered_profiles()
    ensures
        h264_profiles() == seq![
            (102u8, fmtp("1"@, "42001f"@)),
            (127u8, fmtp("0"@, "42001f"@)),
            (125u8, fmtp("1"@, "42e01f"@)),
            (108u8, fmtp("0"@, "42e01f"@)),
            (127u8, fmtp("0"@, "42001f"@)),
            (123u8, fmtp("1"@, "640032"@)),
        ],
{
    reveal_strlit("level-asymmetry-allowed=1;packetization-mode=");
    reveal_strlit(";profile-level-id=");
    reveal_strlit("0");
    reveal_strlit("1");
    reveal_strlit("42001f");
    reveal_strlit("42e01f");
    reveal_strlit("640032");
    reveal_strlit("level-asymmetry-allowed=1;packetization-mode=1;profile-level-id=42001f");
    reveal_strlit("level-asymmetry-allowed=1;packetization-mode=0;profile-level-id=42001f");
    reveal_strlit("level-asymmetry-allowed=1;packetization-mode=1;profile-level-id=42e01f");
    reveal_strlit("level-asymmetry-allowed=1;packetization-mode=0;profile-level-id=42e01f");
    reveal_strlit("level-asymmetry-allowed=1;packetization-mode=1;profile-level-id=640032");
    assert(fmtp("1"@, "42001f"@) =~= "level-asymmetry-allowed=1;packetization-mode=1;profile-level-id=42001f"@);
    assert(fmtp("0"@, "42001f"@) =~= "level-asymmetry-allowed=1;packetization-mode=0;profile-level-id=42001f"@);
    assert(fmtp("1"@, "42e01f"@) =~= "level-asymmetry-allowed=1;packetization-mode=1;profile-level-id=42e01f"@);
    assert(fmtp("0"@, "42e01f"@) =~= "level-asymmetry-allowed=1;packetization-mode=0;profile-level-id=42e01f"@);
    assert(fmtp("1"@, "640032"@) =~= "level-asymmetry-allowed=1;packetization-mode=1;profile-level-id=640032"@);
}

} // verus!

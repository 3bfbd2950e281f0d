//! Video tracks: which offered media sections the server expects to connect,
//! and how the packets of a connected H264 track are turned into frames.

use vstd::prelude::*;
use webrtc::rtp::packetizer::Depacketizer;
use crate::messages::{ServerMessage, ServerMessageView};
use crate::sdp::{AttributeView, MediaSection, MediaView, SessionSdp};
use crate::text::{
    eq_ignore_ascii_case, eq_ignore_ascii_case_spec, lowercase, push_signed_decimal,
    signed_decimal, str_equals, to_lowercase,
};

verus! {

/// The direction that an SDP media section announces for its transceiver.
#[derive(Debug, Clone, Copy, PartialEq, Eq, Structural)]
pub enum TransceiverDirection {
    Unspecified,
    Sendrecv,
    Sendonly,
    Recvonly,
    Inactive,
}

/// The direction that an attribute key names: `sendrecv`, `sendonly`,
/// `recvonly` or `inactive`; any other key names none.
pub open spec fn direction_of_key(key: Seq<char>) -> TransceiverDirection {
    if key == "sendrecv"@ {
        TransceiverDirection::Sendrecv
    } else if key == "sendonly"@ {
        TransceiverDirection::Sendonly
    } else if key == "recvonly"@ {
        TransceiverDirection::Recvonly
    } else if key == "inactive"@ {
        TransceiverDirection::Inactive
    } else {
        TransceiverDirection::Unspecified
    }
}

/// The direction named by an attribute key.
pub fn direction_from_key(key: &str) -> (res: TransceiverDirection)
    ensures
        res == direction_of_key(key@),
{
    if str_equals(key, "sendrecv") {
        TransceiverDirection::Sendrecv
    } else if str_equals(key, "sendonly") {
        TransceiverDirection::Sendonly
    } else if str_equals(key, "recvonly") {
        TransceiverDirection::Recvonly
    } else if str_equals(key, "inactive") {
        TransceiverDirection::Inactive
    } else {
        TransceiverDirection::Unspecified
    }
}

/// Whether a key is one of the four direction attributes.
pub open spec fn is_direction_key(key: Seq<char>) -> bool {
    key == "sendrecv"@ || key == "sendonly"@ || key == "recvonly"@ || key == "inactive"@
}

/// An attribute key names a direction only when it is exactly `sendrecv`,
/// `sendonly`, `recvonly` or `inactive`, and each of these names its own
/// direction; every other key (`rtcp-mux`, `mid`, ...) names none.
pub proof fn lemma_direction_keys(key: Seq<char>)
    ensures
        direction_of_key("sendrecv"@) == TransceiverDirection::Sendrecv,
        direction_of_key("sendonly"@) == TransceiverDirection::Sendonly,
        direction_of_key("recvonly"@) == TransceiverDirection::Recvonly,
        direction_of_key("inactive"@) == TransceiverDirection::Inactive,
        !is_direction_key(key) ==> direction_of_key(key) == TransceiverDirection::Unspecified,
        is_direction_key(key) ==> direction_of_key(key) != TransceiverDirection::Unspecified,
{
    reveal_strlit("sendrecv");
    reveal_strlit("sendonly");
    reveal_strlit("recvonly");
    reveal_strlit("inactive");
    assert("sendonly"@ != "sendrecv"@) by {
        assert("sendonly"@[4] != "sendrecv"@[4]);
    }
    assert("recvonly"@ != "sendrecv"@) by {
        assert("recvonly"@[0] != "sendrecv"@[0]);
    }
    assert("recvonly"@ != "sendonly"@) by {
        assert("recvonly"@[0] != "sendonly"@[0]);
    }
    assert("inactive"@ != "sendrecv"@) by {
        assert("inactive"@[0] != "sendrecv"@[0]);
    }
    assert("inactive"@ != "sendonly"@) by {
        assert("inactive"@[0] != "sendonly"@[0]);
    }
    assert("inactive"@ != "recvonly"@) by {
        assert("inactive"@[0] != "recvonly"@[0]);
    }
}

/// The direction of the first attribute whose key names one, or
/// `Unspecified` when none does.
pub open spec fn peer_direction(attributes: Seq<AttributeView>) -> TransceiverDirection
    decreases attributes.len(),
{
    if attributes.len() == 0 {
        TransceiverDirection::Unspecified
    } else if direction_of_key(attributes[0].0) != TransceiverDirection::Unspecified {
        direction_of_key(attributes[0].0)
    } else {
        peer_direction(attributes.drop_first())
    }
}

/// A media section's direction is that of its first attribute whose key is
/// one of the four direction keys, and `Unspecified` when no key is.
pub proof fn lemma_peer_direction_is_first_direction_key(attributes: Seq<AttributeView>, i: int)
    ensures
        (forall|j: int| 0 <= j < attributes.len() ==> !is_direction_key(#[trigger] attributes[j].0))
            ==> peer_direction(attributes) == TransceiverDirection::Unspecified,
        0 <= i < attributes.len() && is_direction_key(attributes[i].0) && (forall|j: int|
            0 <= j < i ==> !is_direction_key(#[trigger] attributes[j].0)) ==> peer_direction(attributes)
            == direction_of_key(attributes[i].0),
    decreases attributes.len(),
{
    if attributes.len() > 0 {
        lemma_direction_keys(attributes[0].0);
        let rest = attributes.drop_first();
        lemma_peer_direction_is_first_direction_key(rest, i - 1);
        if forall|j: int| 0 <= j < attributes.len() ==> !is_direction_key(#[trigger] attributes[j].0) {
            assert forall|j: int| 0 <= j < rest.len() implies !is_direction_key(#[trigger] rest[j].0) by {
                assert(!is_direction_key(attributes[j + 1].0));
            }
        }
        if 0 < i < attributes.len() && is_direction_key(attributes[i].0) && (forall|j: int|
            0 <= j < i ==> !is_direction_key(#[trigger] attributes[j].0)) {
            assert(!is_direction_key(attributes[0].0));
            assert(rest[i - 1] == attributes[i]);
            assert forall|j: int| 0 <= j < i - 1 implies !is_direction_key(#[trigger] rest[j].0) by {
                assert(!is_direction_key(attributes[j + 1].0));
            }
        }
    }
}

/// The direction that a media section announces: that of its first
/// attribute line naming a direction.
pub fn get_peer_direction(media: &MediaSection) -> (res: TransceiverDirection)
    ensures
        res == peer_direction(media@.2),
{
    let ghost attrs = media@.2;
    let mut i: usize = 0;
    assert(attrs.subrange(0, attrs.len() as int) =~= attrs);
    while i < media.attributes.len()
        invariant
            attrs == media@.2,
            i <= attrs.len(),
            peer_direction(attrs) == peer_direction(attrs.subrange(i as int, attrs.len() as int)),
        decreases attrs.len() - i,
    {
        let ghost rest = attrs.subrange(i as int, attrs.len() as int);
        assert(rest[0] == attrs[i as int]);
        assert(rest.drop_first() =~= attrs.subrange(i + 1, attrs.len() as int));
        let direction = direction_from_key(media.attributes[i].key.as_str());
        if direction != TransceiverDirection::Unspecified {
            return direction;
        }
        i = i + 1;
    }
    assert(attrs.subrange(i as int, attrs.len() as int).len() == 0);
    TransceiverDirection::Unspecified
}

/// Whether a media section, given its lower-cased media type and its port,
/// is a video track that the server expects to connect.
pub open spec fn accepts_video(lowered_media: Seq<char>, port: isize) -> bool {
    lowered_media == "video"@ && port != 0
}

/// The notice that a media section earns: a disabled video section, or a
/// video section whose direction is not `send` or unspecified.
pub open spec fn section_notice(
    lowered_media: Seq<char>,
    port: isize,
    direction: TransceiverDirection,
) -> Option<ServerMessageView> {
    if lowered_media != "video"@ {
        None
    } else if port == 0 {
        Some(ServerMessageView::Notice("Media track is disabled (port == 0). We don't support this."@))
    } else {
        match direction {
            TransceiverDirection::Sendrecv => Some(ServerMessageView::Notice(
                "Media track direction is set to [sendrecv]. We only support [send | (undefined)]"@,
            )),
            TransceiverDirection::Inactive => Some(ServerMessageView::Notice(
                "Media track direction is set to [inactive]. We only support [send | (undefined)]"@,
            )),
            TransceiverDirection::Recvonly => Some(ServerMessageView::Notice(
                "Media track direction is set to [recv]. We only support [send | (undefined)]"@,
            )),
            _ => None,
        }
    }
}

/// Decides one media section from its lower-cased media type, its port and
/// its direction: whether it is an expected video track, and the notice it
/// earns. A notice does not exclude the track.
pub fn classify_video_section(
    lowered_media: &str,
    port: isize,
    direction: TransceiverDirection,
) -> (res: (bool, Option<ServerMessage>))
    ensures
        res.0 == accepts_video(lowered_media@, port),
        section_notice(lowered_media@, port, direction) == match res.1 {
            Some(m) => Some(m@),
            None => None,
        },
{
    if !str_equals(lowered_media, "video") {
        return (false, None);
    }
    if port == 0 {
        return (false, Some(ServerMessage::notice("Media track is disabled (port == 0). We don't support this.")));
    }
    let notice = match direction {
        TransceiverDirection::Sendrecv => Some(ServerMessage::notice(
            "Media track direction is set to [sendrecv]. We only support [send | (undefined)]",
        )),
        TransceiverDirection::Inactive => Some(ServerMessage::notice(
            "Media track direction is set to [inactive]. We only support [send | (undefined)]",
        )),
        TransceiverDirection::Recvonly => Some(ServerMessage::notice(
            "Media track direction is set to [recv]. We only support [send | (undefined)]",
        )),
        _ => None,
    };
    (true, notice)
}

/// The expected video tracks among media sections: the video sections
/// (media type `video` in any case) with a non-zero port, in order.
pub open spec fn video_tracks(sections: Seq<MediaView>) -> Seq<MediaView> {
    sections.filter(|m: MediaView| accepts_video(lowercase(m.0), m.1))
}

/// The notices that media sections earn, in order.
pub open spec fn video_notices(sections: Seq<MediaView>) -> Seq<ServerMessageView> {
    sections.filter_map(|m: MediaView| section_notice(lowercase(m.0), m.1, peer_direction(m.2)))
}

/// Determines the video tracks that an SDP offer announces, and the notices
/// (recoverable problems) about its video sections.
pub fn determine_supported_video_tracks(session_description: &SessionSdp) -> (res: (
    Vec<MediaSection>,
    Vec<ServerMessage>,
))
    ensures
        res.0@.map_values(|m: MediaSection| m@) == video_tracks(session_description@),
        res.1@.map_values(|m: ServerMessage| m@) == video_notices(session_description@),
{
    let ghost sections = session_description@;
    let mut expected_tracks: Vec<MediaSection> = Vec::new();
    let mut notices: Vec<ServerMessage> = Vec::new();
    let mut i: usize = 0;
    while i < session_description.media_descriptions.len()
        invariant
            sections == session_description@,
            i <= sections.len(),
            expected_tracks@.map_values(|m: MediaSection| m@) == video_tracks(sections.take(i as int)),
            notices@.map_values(|m: ServerMessage| m@) == video_notices(sections.take(i as int)),
        decreases sections.len() - i,
    {
        let media_desc = &session_description.media_descriptions[i];
        proof {
            assert(sections.take(i + 1).drop_last() =~= sections.take(i as int));
            assert(sections.take(i + 1).last() == media_desc@);
        }
        let track_type = to_lowercase(media_desc.media.as_str());
        let direction = get_peer_direction(media_desc);
        let (keep, notice) = classify_video_section(track_type.as_str(), media_desc.port, direction);
        match notice {
            Some(n) => {
                notices.push(n);
            },
            None => {},
        }
        assert(notices@.map_values(|m: ServerMessage| m@) =~= video_notices(sections.take(i + 1)));
        proof {
            let pred = |m: MediaView| accepts_video(lowercase(m.0), m.1);
            let t = sections.take(i + 1);
            reveal(Seq::filter);
            assert(t.filter(pred) == if pred(t.last()) {
                t.drop_last().filter(pred).push(t.last())
            } else {
                t.drop_last().filter(pred)
            });
        }
        if keep {
            expected_tracks.push(media_desc.duplicate());
        }
        assert(expected_tracks@.map_values(|m: MediaSection| m@) =~= video_tracks(sections.take(i + 1)));
        i = i + 1;
    }
    assert(sections.take(sections.len() as int) =~= sections);
    (expected_tracks, notices)
}


/// A notice never costs a track: the expected tracks of an offer are
/// exactly its sections that are video with a non-zero port, whatever
/// direction they announce.
pub proof fn lemma_expected_tracks_are_active_video(sections: Seq<MediaView>, m: MediaView)
    ensures
        video_tracks(sections).contains(m) <==> sections.contains(m) && accepts_video(lowercase(m.0), m.1),
{
    let pred = |x: MediaView| accepts_video(lowercase(x.0), x.1);
    if video_tracks(sections).contains(m) {
        sections.lemma_filter_contains_rev(pred, m);
        let j = choose|j: int| 0 <= j < sections.filter(pred).len() && sections.filter(pred)[j] == m;
        sections.lemma_filter_pred(pred, j);
    }
    if sections.contains(m) && accepts_video(lowercase(m.0), m.1) {
        let i = choose|i: int| 0 <= i < sections.len() && sections[i] == m;
        sections.lemma_filter_contains(pred, i);
    }
}

/// Whether a media section is a video section (media type `video` in any
/// case).
pub open spec fn is_video_section(m: MediaView) -> bool {
    lowercase(m.0) == "video"@
}

proof fn lemma_checks_see_only_video(sections: Seq<MediaView>)
    ensures
        video_tracks(sections) == video_tracks(sections.filter(|m: MediaView| is_video_section(m))),
        video_notices(sections) == video_notices(sections.filter(|m: MediaView| is_video_section(m))),
        forall|i: int|
            0 <= i < video_notices(sections).len() ==> #[trigger] video_notices(sections)[i] is Notice,
    decreases sections.len(),
{
    reveal(Seq::filter);
    let isv = |m: MediaView| is_video_section(m);
    let acc = |m: MediaView| accepts_video(lowercase(m.0), m.1);
    let f = |m: MediaView| section_notice(lowercase(m.0), m.1, peer_direction(m.2));
    if sections.len() == 0 {
        assert(sections.filter(isv) =~= sections);
    } else {
        let rest = sections.drop_last();
        let m = sections.last();
        lemma_checks_see_only_video(rest);
        let vs = sections.filter(isv);
        let vr = rest.filter(isv);
        assert(sections.filter(acc) == if acc(m) { rest.filter(acc).push(m) } else { rest.filter(acc) });
        if isv(m) {
            assert(vs == vr.push(m));
            assert(vs.drop_last() =~= vr);
            assert(vs.last() == m);
            assert(vs.filter(acc) == if acc(m) { vr.filter(acc).push(m) } else { vr.filter(acc) });
            assert(vs.filter_map(f) == match f(m) {
                Some(n) => vr.filter_map(f) + seq![n],
                None => vr.filter_map(f),
            });
        } else {
            assert(vs == vr);
            assert(!acc(m));
            assert(f(m) is None);
        }
        assert(sections.filter_map(f) == match f(m) {
            Some(n) => rest.filter_map(f) + seq![n],
            None => rest.filter_map(f),
        });
        assert forall|i: int| 0 <= i < video_notices(sections).len() implies #[trigger] video_notices(
            sections,
        )[i] is Notice by {
            if i < video_notices(rest).len() {
                assert(video_notices(rest)[i] is Notice);
            }
        }
    }
}

proof fn lemma_filter_map_len<A, B>(s: Seq<A>, f: spec_fn(A) -> Option<B>)
    ensures
        s.filter_map(f).len() <= s.len(),
    decreases s.len(),
{
    if s.len() > 0 {
        lemma_filter_map_len(s.drop_last(), f);
    }
}

/// The offer checks look at the video sections only: two offers with the
/// same video sections in the same order (whatever other sections they
/// hold, and wherever) expect the same tracks and earn the same notices;
/// every notice is a `Notice`, and there are no more notices than video
/// sections.
pub proof fn lemma_offer_checks_ignore_other_sections(a: Seq<MediaView>, b: Seq<MediaView>)
    requires
        a.filter(|m: MediaView| is_video_section(m)) == b.filter(|m: MediaView| is_video_section(m)),
    ensures
        video_tracks(a) == video_tracks(b),
        video_notices(a) == video_notices(b),
        forall|i: int| 0 <= i < video_notices(a).len() ==> #[trigger] video_notices(a)[i] is Notice,
        video_notices(a).len() <= a.filter(|m: MediaView| is_video_section(m)).len(),
{
    lemma_checks_see_only_video(a);
    lemma_checks_see_only_video(b);
    let videos = a.filter(|m: MediaView| is_video_section(m));
    lemma_filter_map_len(
        videos,
        |m: MediaView| section_notice(lowercase(m.0), m.1, peer_direction(m.2)),
    );
}

/// The error text for a track whose lower-cased MIME type is not H264.
pub open spec fn codec_error_text(lowered_mime: Seq<char>, track_id: Seq<char>) -> Seq<char> {
    "Video tracks must be in H264 format. ["@ + lowered_mime + "] id=["@ + track_id + "]"@
}

/// Accepts a track whose lower-cased MIME type is `video/H264` up to ASCII
/// case; refuses any other with the error text naming type and track.
pub fn check_h264_codec(lowered_mime: &str, track_id: &str) -> (res: Result<(), String>)
    ensures
        res is Ok <==> eq_ignore_ascii_case_spec(lowered_mime@, "video/H264"@),
        res matches Err(e) ==> e@ == codec_error_text(lowered_mime@, track_id@),
{
    if eq_ignore_ascii_case(lowered_mime, "video/H264") {
        return Ok(());
    }
    let mut msg = "Video tracks must be in H264 format. [".to_owned();
    msg.append(lowered_mime);
    msg.append("] id=[");
    msg.append(track_id);
    msg.append("]");
    Err(msg)
}

/// Lower-cases a track's MIME type and accepts it only if it is H264;
/// returns the lower-cased type.
pub fn track_codec_check(mime_type: &str, track_id: &str) -> (res: Result<String, String>)
    ensures
        res is Ok <==> eq_ignore_ascii_case_spec(lowercase(mime_type@), "video/H264"@),
        res matches Ok(m) ==> m@ == lowercase(mime_type@),
        res matches Err(e) ==> e@ == codec_error_text(lowercase(mime_type@), track_id@),
{
    let lowered = to_lowercase(mime_type);
    match check_h264_codec(lowered.as_str(), track_id) {
        Ok(()) => Ok(lowered),
        Err(e) => Err(e),
    }
}

/// The file name under which the video of a track is saved:
/// `game_capture_<track id>.mp4`.
pub fn capture_file_name(track_id: i8) -> (res: String)
    ensures
        res@ == "game_capture_"@ + signed_decimal(track_id as int) + ".mp4"@,
{
    let mut name = "game_capture_".to_owned();
    push_signed_decimal(&mut name, track_id as i64);
    name.append(".mp4");
    name
}

/// The GStreamer pipeline that muxes an H264 byte stream into an MP4 file.
pub fn pipeline_description(output_file: &str) -> (res: String)
    ensures
        res@ == "appsrc name=appsrc ! h264parse ! mp4mux name=mux ! filesink location="@ + output_file@,
{
    let mut pipeline = "appsrc name=appsrc ! h264parse ! mp4mux name=mux ! filesink location=".to_owned();
    pipeline.append(output_file);
    pipeline
}

/// Nanoseconds in a second.
pub const NANOS_PER_SECOND: u64 = 1_000_000_000;

/// Converts an RTP timestamp, counted at `clock_rate` Hz, to nanoseconds
/// (rounded down).
pub fn rtp_timestamp_nanos(timestamp: u32, clock_rate: u32) -> (res: u64)
    requires
        clock_rate > 0,
    ensures
        res == (timestamp as int * NANOS_PER_SECOND as int) / clock_rate as int,
{
    let ts: u64 = timestamp as u64;
    assert(ts * 1_000_000_000 <= 4_294_967_295u64 * 1_000_000_000) by (nonlinear_arith)
        requires
            ts <= 4_294_967_295u64,
    ;
    (ts * NANOS_PER_SECOND) / (clock_rate as u64)
}

#[verifier::external_type_specification]
#[verifier::external_body]
pub struct ExH264Packet(webrtc::rtp::codecs::h264::H264Packet);

#[verifier::external_type_specification]
#[verifier::external_body]
pub struct ExRtpError(webrtc::rtp::Error);

/// The H264 NAL unit type of a STAP-A (aggregation) payload.
pub const STAP_A_NALU_TYPE: u8 = 24;

/// Whether walking the NAL units of a STAP-A payload from `offset` reaches a
/// unit whose two-byte size field starts at the last byte (the size field
/// would run past the end). The walk stops early, with an error, at a unit
/// longer than what remains.
pub open spec fn stap_a_overruns(payload: Seq<u8>, offset: int) -> bool
    decreases payload.len() - offset,
{
    if offset < 0 || offset >= payload.len() {
        false
    } else if offset + 1 >= payload.len() {
        true
    } else {
        let size = payload[offset] as int * 256 + payload[offset + 1] as int;
        let next = offset + 2 + size;
        if payload.len() < next {
            false
        } else {
            stap_a_overruns(payload, next)
        }
    }
}

/// The bytes of a sequence of STAP-A units: each unit's size in two bytes,
/// high byte first, followed by the unit itself.
pub open spec fn stap_a_units(units: Seq<Seq<u8>>) -> Seq<u8>
    decreases units.len(),
{
    if units.len() == 0 {
        Seq::empty()
    } else {
        seq![(units[0].len() / 256) as u8, (units[0].len() % 256) as u8] + units[0] + stap_a_units(
            units.drop_first(),
        )
    }
}

/// Whether every unit is short enough for a two-byte size.
pub open spec fn units_fit(units: Seq<Seq<u8>>) -> bool {
    forall|i: int| 0 <= i < units.len() ==> #[trigger] units[i].len() < 65536
}

proof fn lemma_stap_a_walk(p: Seq<u8>, offset: int, units: Seq<Seq<u8>>)
    requires
        0 <= offset,
        offset + stap_a_units(units).len() <= p.len(),
        p.subrange(offset, offset + stap_a_units(units).len()) == stap_a_units(units),
        units_fit(units),
    ensures
        stap_a_overruns(p, offset) == stap_a_overruns(p, offset + stap_a_units(units).len()),
    decreases units.len(),
{
    if units.len() > 0 {
        let u = units[0];
        let rest = units.drop_first();
        let enc = stap_a_units(units);
        let r = stap_a_units(rest);
        assert(u.len() < 65536);
        let hi = (u.len() / 256) as u8;
        let lo = (u.len() % 256) as u8;
        assert(enc == seq![hi, lo] + u + r);
        assert(enc.len() == 2 + u.len() + r.len());
        assert(p[offset] == enc[0]);
        assert(p[offset + 1] == enc[1]);
        assert(hi as int * 256 + lo as int == u.len()) by (nonlinear_arith)
            requires
                hi as int == u.len() / 256,
                lo as int == u.len() % 256,
        ;
        let next = offset + 2 + u.len();
        assert forall|i: int| 0 <= i < r.len() implies p.subrange(next, next + r.len())[i] == r[i] by {
            assert(p.subrange(offset, offset + enc.len())[2 + u.len() + i] == enc[2 + u.len() + i]);
        }
        assert(p.subrange(next, next + r.len()) =~= r);
        assert forall|i: int| 0 <= i < rest.len() implies #[trigger] rest[i].len() < 65536 by {
            assert(units[i + 1].len() < 65536);
        }
        lemma_stap_a_walk(p, next, rest);
    }
}

/// A STAP-A payload whose units exactly fill it does not overrun, however
/// many units it aggregates.
pub proof fn lemma_filled_stap_a_does_not_overrun(first: u8, units: Seq<Seq<u8>>)
    requires
        first % 32 == STAP_A_NALU_TYPE,
        units_fit(units),
    ensures
        !h264_payload_overruns(seq![first] + stap_a_units(units)),
{
    let p = seq![first] + stap_a_units(units);
    assert(p.subrange(1, 1 + stap_a_units(units).len() as int) =~= stap_a_units(units));
    lemma_stap_a_walk(p, 1, units);
}

/// A STAP-A payload whose units are followed by one stray byte overruns:
/// the walk reaches a size field at its last byte.
pub proof fn lemma_stap_a_with_stray_byte_overruns(first: u8, units: Seq<Seq<u8>>, stray: u8)
    requires
        first % 32 == STAP_A_NALU_TYPE,
        units_fit(units),
    ensures
        h264_payload_overruns(seq![first] + stap_a_units(units) + seq![stray]) <==> units.len() > 0,
{
    let p = seq![first] + stap_a_units(units) + seq![stray];
    if units.len() > 0 {
        assert(stap_a_units(units).len() >= 2);
        assert(p.subrange(1, 1 + stap_a_units(units).len() as int) =~= stap_a_units(units));
        lemma_stap_a_walk(p, 1, units);
    } else {
        assert(p.len() == 2);
    }
}

/// Whether a payload is a STAP-A payload whose unit walk runs past its end.
pub open spec fn h264_payload_overruns(payload: Seq<u8>) -> bool {
    payload.len() > 2 && payload[0] % 32 == STAP_A_NALU_TYPE && stap_a_overruns(payload, 1)
}

/// Whether a payload is a STAP-A payload whose unit walk runs past its end;
/// the depacketizer cannot take such a payload.
pub fn h264_payload_overruns_exec(payload: &[u8]) -> (res: bool)
    ensures
        res == h264_payload_overruns(payload@),
{
    let n: usize = payload.len();
    if n <= 2 || payload[0] % 32 != STAP_A_NALU_TYPE {
        return false;
    }
    let mut offset: usize = 1;
    while offset < n
        invariant
            n == payload@.len(),
            n > 2,
            payload@[0] % 32 == STAP_A_NALU_TYPE,
            1 <= offset,
            stap_a_overruns(payload@, 1) == stap_a_overruns(payload@, offset as int),
        decreases n - offset,
    {
        if offset + 1 >= n {
            return true;
        }
        let size: usize = (payload[offset] as usize) * 256 + (payload[offset + 1] as usize);
        if n - offset - 2 < size {
            return false;
        }
        offset = offset + 2 + size;
    }
    false
}

// The bytes that an H264 depacketizer made with `H264Packet::default()` and fed the payloads `fed`, in order, yields for `payload`, or `None` where it returns an error.
pub uninterp spec fn h264_depacketize(fed: Seq<Seq<u8>>, payload: Seq<u8>) -> Option<Seq<u8>>;

/// An H264 depacketizer with the payloads it has been fed since it was made.
pub struct H264Depacketizer {
    packet: webrtc::rtp::codecs::h264::H264Packet,
    fed: Ghost<Seq<Seq<u8>>>,
}

impl H264Depacketizer {
    /// The payloads fed to the depacketizer since it was made, in order.
    pub closed spec fn fed(&self) -> Seq<Seq<u8>> {
        self.fed@
    }
}

/// Makes an H264 depacketizer with `H264Packet::default()` (Annex B output,
/// nothing buffered), fed nothing yet.
#[verifier::external_body]
fn new_h264_depacketizer() -> (res: H264Depacketizer)
    ensures
        res.fed() == Seq::<Seq<u8>>::empty(),
{
    H264Depacketizer { packet: webrtc::rtp::codecs::h264::H264Packet::default(), fed: Ghost(Seq::empty()) }
}

/// Calls `H264Packet::depacketize` on an RTP payload and returns the H264
/// bytes it yields. Its state (the fragments it buffers) is a function of
/// the payloads fed since `default()`, so its output is named
/// `h264_depacketize` over those payloads and this one. The source refuses
/// payloads of two bytes or fewer, and panics on a STAP-A payload whose
/// unit walk runs past its end; such payloads are left out.
#[verifier::external_body]
fn depacketize_h264(depacketizer: &mut H264Depacketizer, payload: &[u8]) -> (res: Result<Vec<u8>, webrtc::rtp::Error>)
    requires
        !h264_payload_overruns(payload@),
    ensures
        final(depacketizer).fed() == old(depacketizer).fed().push(payload@),
        res is Ok <==> h264_depacketize(old(depacketizer).fed(), payload@) is Some,
        res matches Ok(b) ==> h264_depacketize(old(depacketizer).fed(), payload@) == Some(b@),
        payload@.len() <= 2 ==> res is Err,
{
    let out = depacketizer.packet.depacketize(&bytes::Bytes::copy_from_slice(payload)).map(|b| b.to_vec());
    depacketizer.fed = Ghost(depacketizer.fed@.push(payload@));
    out
}

/// What the recorder makes of one RTP packet.
#[derive(Debug)]
pub enum PacketOutcome {
    /// The payload was empty and was skipped.
    Empty,
    /// The payload yielded no H264 bytes yet (a fragment was buffered).
    Buffered,
    /// H264 bytes to push downstream.
    Frame { bytes: Vec<u8> },
}

/// The outcome of a payload that the depacketizer turned into `bytes`.
pub open spec fn depacketized_spec(bytes: Seq<u8>) -> PacketOutcomeView {
    if bytes.len() == 0 {
        PacketOutcomeView::Buffered
    } else {
        PacketOutcomeView::Frame(bytes)
    }
}

/// The abstract content of a `PacketOutcome`.
pub enum PacketOutcomeView {
    Empty,
    Buffered,
    Frame(Seq<u8>),
}

impl View for PacketOutcome {
    type V = PacketOutcomeView;

    open spec fn view(&self) -> PacketOutcomeView {
        match self {
            PacketOutcome::Empty => PacketOutcomeView::Empty,
            PacketOutcome::Buffered => PacketOutcomeView::Buffered,
            PacketOutcome::Frame { bytes } => PacketOutcomeView::Frame(bytes@),
        }
    }
}

/// What the H264 bytes that a packet yielded become: nothing yet when there
/// are none, otherwise a frame of exactly those bytes.
pub fn depacketized_outcome(bytes: Vec<u8>) -> (res: PacketOutcome)
    ensures
        res@ == depacketized_spec(bytes@),
{
    if bytes.len() > 0 {
        PacketOutcome::Frame { bytes }
    } else {
        PacketOutcome::Buffered
    }
}

/// The outcome of one packet for a depacketizer fed `fed`: an empty payload
/// is skipped; otherwise what the depacketizer yields, or `None` where it
/// fails.
pub open spec fn packet_outcome(fed: Seq<Seq<u8>>, payload: Seq<u8>) -> Option<PacketOutcomeView> {
    if payload.len() == 0 {
        Some(PacketOutcomeView::Empty)
    } else {
        match h264_depacketize(fed, payload) {
            Some(b) => Some(depacketized_spec(b)),
            None => None,
        }
    }
}

/// The receiving side of a video track: counts the RTP packets and turns
/// their payloads into H264 bytes.
pub struct TrackRecorder {
    depacketizer: H264Depacketizer,
    rtp_packets: i32,
}

impl TrackRecorder {
    /// The number of packets received so far.
    pub closed spec fn packets(&self) -> int {
        self.rtp_packets as int
    }

    /// The non-empty payloads handed to the depacketizer so far, in order.
    pub closed spec fn fed(&self) -> Seq<Seq<u8>> {
        self.depacketizer.fed()
    }

    /// A recorder that has received nothing yet.
    pub fn new() -> (res: TrackRecorder)
        ensures
            res.packets() == 0,
            res.fed() == Seq::<Seq<u8>>::empty(),
    {
        TrackRecorder { depacketizer: new_h264_depacketizer(), rtp_packets: 0 }
    }

    /// The number of packets received so far.
    pub fn packets_received(&self) -> (res: i32)
        ensures
            res as int == self.packets(),
    {
        self.rtp_packets
    }

    /// Takes one RTP packet: counts it, says whether the count is a multiple
    /// of 1000 (worth a progress line), skips an empty payload without
    /// touching the depacketizer, and otherwise feeds the payload to the
    /// depacketizer once; the H264 bytes that come out, if any, are the
    /// frame.
    pub fn on_packet(&mut self, payload: &[u8]) -> (res: (bool, Result<PacketOutcome, webrtc::rtp::Error>))
        requires
            old(self).packets() < i32::MAX,
            !h264_payload_overruns(payload@),
        ensures
            final(self).packets() == old(self).packets() + 1,
            res.0 == (final(self).packets() % 1000 == 0),
            payload@.len() == 0 ==> final(self).fed() == old(self).fed(),
            payload@.len() > 0 ==> final(self).fed() == old(self).fed().push(payload@),
            res.1 is Ok <==> packet_outcome(old(self).fed(), payload@) is Some,
            res.1 matches Ok(o) ==> packet_outcome(old(self).fed(), payload@) == Some(o@),
            1 <= payload@.len() <= 2 ==> res.1 is Err,
    {
        self.rtp_packets = self.rtp_packets + 1;
        let progress = self.rtp_packets % 1000 == 0;
        if payload.len() == 0 {
            return (progress, Ok(PacketOutcome::Empty));
        }
        match depacketize_h264(&mut self.depacketizer, payload) {
            Err(e) => (progress, Err(e)),
            Ok(bytes) => (progress, Ok(depacketized_outcome(bytes))),
        }
    }
}


} // verus!

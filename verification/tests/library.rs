use server::codecs::supported_codecs;
use server::data_channels::{channel_role, generic_channel_file_name, ChannelRole, GenericAction, GenericChannel};
use server::messages::{ClientMessage, ServerMessage};
use server::path_ext::{is_single_plain_name, join_path_text, PathExt, SafeJoinErr};
use server::rest::{
    authorize_access, missing_session_error, session_entry_action, session_log_url, session_metadata_path,
    session_video_url, unauthorized_error, ListQuery, RestError, SessionEntryAction, SessionInfoQuery,
    UserEmailClaim,
};
use server::session::{
    check_whip_request, ensure_app, parse_description, session_close_messages, session_data_path,
    session_exists_error, session_step, stun_servers, track_count_message, validate_track_encodings,
    track_read_step, whip_location, AppError, PeerConnectionState, SessionEvent, SessionStep, TrackReadEvent,
    TrackReadStep,
};
use server::text::{eq_ignore_ascii_case, push_decimal, push_signed_decimal, str_equals};
use server::video_track::{
    capture_file_name, check_h264_codec, depacketized_outcome, h264_payload_overruns_exec, classify_video_section, determine_supported_video_tracks,
    direction_from_key, get_peer_direction, pipeline_description, rtp_timestamp_nanos, track_codec_check,
    PacketOutcome, TrackRecorder, TransceiverDirection,
};

fn sdp(media: &str) -> String {
    format!("v=0\r\no=- 0 0 IN IP4 127.0.0.1\r\ns=-\r\nt=0 0\r\n{media}")
}

fn manual(e: &AppError) -> (u16, String) {
    match e {
        AppError::Manual { status, message } => (*status, message.clone()),
        other => panic!("expected a manual error, got {:?}", other),
    }
}

// ---- messages ----

#[test]
fn server_message_constructors_pick_their_variant() {
    assert_eq!(ServerMessage::info("a"), ServerMessage::Info { message: "a".to_string() });
    assert_eq!(ServerMessage::notice("b"), ServerMessage::Notice { message: "b".to_string() });
    assert_eq!(ServerMessage::error("c"), ServerMessage::Error { message: "c".to_string() });
    assert_ne!(ServerMessage::info("a"), ServerMessage::notice("a"));
    assert_ne!(ServerMessage::info("a"), ServerMessage::info("b"));
    assert_eq!(ServerMessage::SessionComplete, ServerMessage::SessionComplete);
}

#[test]
fn only_session_ending_requests_shutdown() {
    assert!(ClientMessage::SessionEnding.requests_graceful_shutdown());
    assert!(!ClientMessage::Info { message: "x".to_string() }.requests_graceful_shutdown());
    assert!(!ClientMessage::Error { message: "x".to_string() }.requests_graceful_shutdown());
}

// ---- text ----

#[test]
fn decimal_rendering() {
    let mut s = String::from("n=");
    push_decimal(&mut s, 0);
    assert_eq!(s, "n=0");
    let mut s = String::new();
    push_decimal(&mut s, 18446744073709551615);
    assert_eq!(s, "18446744073709551615");
    let mut s = String::new();
    push_signed_decimal(&mut s, i64::MIN);
    assert_eq!(s, "-9223372036854775808");
    let mut s = String::new();
    push_signed_decimal(&mut s, -7);
    assert_eq!(s, "-7");
}

#[test]
fn string_comparisons() {
    assert!(str_equals("abc", "abc"));
    assert!(!str_equals("abc", "abd"));
    assert!(eq_ignore_ascii_case("Video/h264", "video/H264"));
    assert!(!eq_ignore_ascii_case("video/h26", "video/H264"));
    assert!(!eq_ignore_ascii_case("ÉA", "éa"));
}

// ---- paths ----

#[test]
fn join_safe_accepts_a_single_plain_name() {
    assert_eq!("data".join_safe("project"), Ok("data/project".to_string()));
    assert_eq!("data/".join_safe("s1"), Ok("data/s1".to_string()));
}

#[test]
fn join_safe_refuses_traversal() {
    for bad in ["..", ".", "/etc", "a/b", "", "../x", "a/../b"] {
        assert_eq!("data".join_safe(bad), Err(SafeJoinErr::DirContainsInvalidComponents), "{bad}");
    }
    assert_eq!(
        SafeJoinErr::DirContainsInvalidComponents.message(),
        "joined directory must only contain simple components (no .., etc)"
    );
}

#[test]
fn single_names_follow_unix_components() {
    for good in ["a", "a/", "a//", "a/.", "a/./", "...", "a.b", "Game Session 1"] {
        assert!(is_single_plain_name(good), "{good}");
    }
    for bad in ["", ".", "..", "./a", "/a", "a/b", "a/..", "a/.b", "//"] {
        assert!(!is_single_plain_name(bad), "{bad}");
    }
    assert_eq!("data".join_safe("a/"), Ok("data/a/".to_string()));
    assert_eq!(join_path_text("", "a"), "a");
    assert_eq!(join_path_text("x/", "a"), "x/a");
    assert_eq!(join_path_text("x", "a"), "x/a");
}

// ---- SDP ----

#[test]
fn parse_reads_media_sections() {
    let text = sdp("m=video 9 UDP/TLS/RTP/SAVPF 96\r\na=mid:v\r\na=sendonly\r\nm=application 0 UDP/DTLS/SCTP webrtc-datachannel\r\n");
    let s = parse_description(&text).unwrap();
    assert_eq!(s.media_descriptions.len(), 2);
    assert_eq!(s.media_descriptions[0].media, "video");
    assert_eq!(s.media_descriptions[0].port, 9);
    assert_eq!(s.media_descriptions[0].attributes.len(), 2);
    assert_eq!(s.media_descriptions[0].attributes[0].key, "mid");
    assert_eq!(s.media_descriptions[0].attributes[0].value.as_deref(), Some("v"));
    assert_eq!(s.media_descriptions[0].attributes[1].value, None);
    assert!(s.media_descriptions[0].has_attribute("sendonly"));
    assert!(!s.media_descriptions[0].has_attribute("rtpmap"));
    assert_eq!(s.media_descriptions[1].port, 0);
}

#[test]
fn parse_refuses_garbage() {
    assert!(matches!(parse_description("this is not sdp"), Err(AppError::WebRtc)));
}

#[test]
fn directions_come_from_the_first_direction_attribute() {
    assert_eq!(direction_from_key("sendrecv"), TransceiverDirection::Sendrecv);
    assert_eq!(direction_from_key("sendonly"), TransceiverDirection::Sendonly);
    assert_eq!(direction_from_key("recvonly"), TransceiverDirection::Recvonly);
    assert_eq!(direction_from_key("inactive"), TransceiverDirection::Inactive);
    assert_eq!(direction_from_key("mid"), TransceiverDirection::Unspecified);
    let s = parse_description(&sdp("m=video 9 RTP 96\r\na=mid:0\r\na=recvonly\r\na=sendrecv\r\n")).unwrap();
    assert_eq!(get_peer_direction(&s.media_descriptions[0]), TransceiverDirection::Recvonly);
    let s = parse_description(&sdp("m=video 9 RTP 96\r\na=mid:0\r\n")).unwrap();
    assert_eq!(get_peer_direction(&s.media_descriptions[0]), TransceiverDirection::Unspecified);
}

#[test]
fn direction_notices_keep_the_track() {
    let text = sdp("m=video 9 RTP 96\r\na=recvonly\r\nm=video 9 RTP 96\r\na=inactive\r\nm=audio 9 RTP 0\r\na=sendrecv\r\nm=video 9 RTP 96\r\n");
    let mut offer = parse_description(&text).unwrap();
    // Media types are compared after lower-casing.
    offer.media_descriptions[0].media = "VIDEO".to_string();
    let (tracks, notices) = determine_supported_video_tracks(&offer);
    assert_eq!(tracks.len(), 3);
    assert_eq!(tracks[0].media, "VIDEO");
    assert_eq!(
        notices,
        vec![
            ServerMessage::notice("Media track direction is set to [recv]. We only support [send | (undefined)]"),
            ServerMessage::notice("Media track direction is set to [inactive]. We only support [send | (undefined)]"),
        ]
    );
}

#[test]
fn other_sections_do_not_change_the_offer_checks() {
    let video_only = sdp("m=video 0 RTP 96\r\nm=video 9 RTP 96\r\na=sendrecv\r\n");
    let mixed = sdp("m=audio 9 RTP 0\r\nm=video 0 RTP 96\r\nm=application 9 DTLS webrtc-datachannel\r\nm=video 9 RTP 96\r\na=sendrecv\r\nm=audio 0 RTP 0\r\n");
    let (t1, n1) = determine_supported_video_tracks(&parse_description(&video_only).unwrap());
    let (t2, n2) = determine_supported_video_tracks(&parse_description(&mixed).unwrap());
    assert_eq!(t1.len(), 1);
    assert_eq!(t2.len(), 1);
    assert_eq!(t1[0].port, t2[0].port);
    assert_eq!(n1, n2);
    assert_eq!(n1.len(), 2);
    assert!(n1.iter().all(|n| matches!(n, ServerMessage::Notice { .. })));
}

#[test]
fn classify_decides_one_section() {
    let (keep, notice) = classify_video_section("video", 0, TransceiverDirection::Sendrecv);
    assert!(!keep);
    assert_eq!(notice, Some(ServerMessage::notice("Media track is disabled (port == 0). We don't support this.")));
    let (keep, notice) = classify_video_section("audio", 9, TransceiverDirection::Sendrecv);
    assert!(!keep);
    assert_eq!(notice, None);
    let (keep, notice) = classify_video_section("video", 9, TransceiverDirection::Sendonly);
    assert!(keep);
    assert_eq!(notice, None);
}

#[test]
fn answer_without_common_codec_is_reported() {
    let text = sdp("m=video 0 RTP 96\r\nm=video 9 RTP 96\r\na=mid:1\r\nm=video 9 RTP 96\r\na=rtpmap:96 H264/90000\r\nm=application 9 DTLS webrtc-datachannel\r\n");
    let warnings = validate_track_encodings(&parse_description(&text).unwrap());
    let expected = ServerMessage::error("Could not find common codec. Media track cannot connect.");
    assert_eq!(warnings.len(), 2);
    assert_eq!(warnings[0], expected);
    assert_eq!(warnings[1], expected);
}

// ---- codecs ----

#[test]
fn only_h264_is_supported() {
    let codecs = supported_codecs();
    let payload_types: Vec<u8> = codecs.iter().map(|c| c.payload_type).collect();
    assert_eq!(payload_types, vec![102, 127, 125, 108, 127, 123]);
    for c in &codecs {
        assert_eq!(c.mime_type, "video/H264");
        assert_eq!(c.clock_rate, 90000);
        assert_eq!(c.channels, 0);
        assert_eq!(c.rtcp_feedback.len(), 4);
        assert_eq!(c.rtcp_feedback[3].typ, "nack");
        assert_eq!(c.rtcp_feedback[3].parameter, "pli");
    }
    assert_eq!(codecs[5].sdp_fmtp_line, "level-asymmetry-allowed=1;packetization-mode=1;profile-level-id=640032");
}

// ---- video tracks ----

#[test]
fn codec_check_lowercases_and_requires_h264() {
    assert_eq!(track_codec_check("VIDEO/H264", "t1"), Ok("video/h264".to_string()));
    assert_eq!(
        track_codec_check("VIDEO/VP8", "t2"),
        Err("Video tracks must be in H264 format. [video/vp8] id=[t2]".to_string())
    );
    assert_eq!(check_h264_codec("video/h264", "x"), Ok(()));
}

#[test]
fn capture_names_and_pipeline() {
    assert_eq!(capture_file_name(0), "game_capture_0.mp4");
    assert_eq!(capture_file_name(127), "game_capture_127.mp4");
    assert_eq!(capture_file_name(-128), "game_capture_-128.mp4");
    assert_eq!(
        pipeline_description("/tmp/x.mp4"),
        "appsrc name=appsrc ! h264parse ! mp4mux name=mux ! filesink location=/tmp/x.mp4"
    );
}

#[test]
fn rtp_timestamps_become_nanoseconds() {
    assert_eq!(rtp_timestamp_nanos(90000, 90000), 1_000_000_000);
    assert_eq!(rtp_timestamp_nanos(1, 90000), 11111);
    assert_eq!(rtp_timestamp_nanos(u32::MAX, 1), 4_294_967_295_000_000_000);
}

#[test]
fn recorder_turns_packets_into_frames() {
    let mut r = TrackRecorder::new();
    let (progress, out) = r.on_packet(&[]);
    assert!(!progress);
    assert!(matches!(out, Ok(PacketOutcome::Empty)));
    let (_, out) = r.on_packet(&[0x65, 0x88]);
    assert!(out.is_err());
    let (_, out) = r.on_packet(&[0x65, 0x88, 0x84]);
    match out {
        Ok(PacketOutcome::Frame { bytes }) => assert_eq!(bytes, vec![0, 0, 0, 1, 0x65, 0x88, 0x84]),
        other => panic!("unexpected {:?}", other),
    }
    // A fragmented unit is buffered until its last fragment arrives.
    let (_, out) = r.on_packet(&[0x7C, 0x85, 0xAA]);
    assert!(matches!(out, Ok(PacketOutcome::Buffered)));
    let (_, out) = r.on_packet(&[0x7C, 0x45, 0xBB]);
    match out {
        Ok(PacketOutcome::Frame { bytes }) => assert_eq!(bytes, vec![0, 0, 0, 1, 0x65, 0xAA, 0xBB]),
        other => panic!("unexpected {:?}", other),
    }
    assert_eq!(r.packets_received(), 5);
}

#[test]
fn depacketized_bytes_become_frames() {
    assert!(matches!(depacketized_outcome(vec![]), PacketOutcome::Buffered));
    match depacketized_outcome(vec![1, 2]) {
        PacketOutcome::Frame { bytes } => assert_eq!(bytes, vec![1, 2]),
        other => panic!("unexpected {:?}", other),
    }
}

#[test]
fn stap_a_overruns_are_detected() {
    assert!(h264_payload_overruns_exec(&[0x18, 0, 0, 0]));
    assert!(h264_payload_overruns_exec(&[0x18, 0, 1, 0xAA, 0]));
    assert!(!h264_payload_overruns_exec(&[0x18, 0, 1, 0xAA]));
    assert!(!h264_payload_overruns_exec(&[0x18, 0, 5, 1]));
    assert!(!h264_payload_overruns_exec(&[0x65, 0, 0, 0]));
    assert!(!h264_payload_overruns_exec(&[0x18, 0]));
    let mut r = TrackRecorder::new();
    let (_, out) = r.on_packet(&[0x18, 0, 1, 0xAA, 0, 2, 0xBB, 0xCC]);
    match out {
        Ok(PacketOutcome::Frame { bytes }) => assert_eq!(bytes, vec![0, 0, 0, 1, 0xAA, 0, 0, 0, 1, 0xBB, 0xCC]),
        other => panic!("unexpected {:?}", other),
    }
    let (_, out) = r.on_packet(&[0x18, 0, 5, 1]);
    assert!(out.is_err());
}

#[test]
fn recorder_reports_progress_every_thousand_packets() {
    let mut r = TrackRecorder::new();
    for i in 1..=2000 {
        let (progress, _) = r.on_packet(&[]);
        assert_eq!(progress, i % 1000 == 0);
    }
}

// ---- session ----

#[test]
fn whip_request_checks_in_order() {
    let e = check_whip_request(false, None, None).unwrap_err();
    assert_eq!(manual(&e), (415, "Content-Type must be application/sdp.".to_string()));
    let e = check_whip_request(true, None, Some("p")).unwrap_err();
    assert_eq!(manual(&e), (400, "Query parameter missing: [session_id]".to_string()));
    let ids = check_whip_request(true, Some("s"), Some("p")).unwrap();
    assert_eq!(ids.session_id, "s");
    assert_eq!(ids.project_id.as_deref(), Some("p"));
}

#[test]
fn whip_request_without_project_is_stored_under_the_session() {
    let ids = check_whip_request(true, Some("GameSession_0001_Test"), None).unwrap();
    assert_eq!(ids.project_id, None);
    assert_eq!(
        session_data_path("/tmp/data", ids.project_id.as_deref(), &ids.session_id).unwrap(),
        "/tmp/data/GameSession_0001_Test"
    );
}

#[test]
fn session_directory_is_checked() {
    assert_eq!(session_data_path("data", Some("p"), "s").unwrap(), "data/p/s");
    let e = session_data_path("data", Some(".."), "s").unwrap_err();
    assert_eq!(manual(&e), (400, "project_id invalid".to_string()));
    let e = session_data_path("data", None, "../../etc").unwrap_err();
    assert_eq!(manual(&e), (400, "project_id invalid".to_string()));
    let e = session_data_path("data", Some("p"), "../../etc").unwrap_err();
    assert_eq!(manual(&e), (400, "project_id invalid".to_string()));
    let e = session_exists_error("s1", "\"data/p/s1\"");
    assert_eq!(manual(&e), (409, "Session ID already exists! [s1] path: [\"data/p/s1\"]".to_string()));
}

#[test]
fn app_errors_answer() {
    assert_eq!(AppError::manual(404, "gone").response(), (404, "gone".to_string()));
    assert_eq!(AppError::internal("boom").response(), (500, "boom".to_string()));
    assert_eq!(AppError::WebRtc.response(), (500, "Internal Server Error: webrtc error".to_string()));
    assert_eq!(AppError::Io.response(), (500, "Internal Server Error: io error".to_string()));
    assert_eq!(AppError::Http.response(), (500, "Internal Server Error: http error".to_string()));
    assert_eq!(AppError::Serde.response(), (500, "Internal Server Error: serde error".to_string()));
    assert_eq!(AppError::manual(400, "x").description(), "1");
    assert!(ensure_app(true, 400, "x").is_ok());
    assert_eq!(manual(&ensure_app(false, 400, "x").unwrap_err()), (400, "x".to_string()));
}

#[test]
fn session_headers_and_servers() {
    assert_eq!(whip_location("GameSession_0001_Test"), "whip/GameSession_0001_Test");
    assert_eq!(stun_servers(), vec!["stun:stun.l.google.com:19302".to_string(), "stun:stun1.l.google.com:19302".to_string()]);
}

#[test]
fn session_ends_on_request_or_interruption() {
    assert_eq!(session_step(SessionEvent::GracefulShutdownRequested), SessionStep::Shutdown { graceful: true });
    for s in [PeerConnectionState::Closed, PeerConnectionState::Disconnected, PeerConnectionState::Failed] {
        assert!(s.ends_session());
        assert_eq!(session_step(SessionEvent::PeerStateChanged(s)), SessionStep::Shutdown { graceful: false });
    }
    for s in [
        PeerConnectionState::Unspecified,
        PeerConnectionState::New,
        PeerConnectionState::Connecting,
        PeerConnectionState::Connected,
    ] {
        assert!(!s.ends_session());
        assert_eq!(session_step(SessionEvent::PeerStateChanged(s)), SessionStep::Continue);
    }
}

#[test]
fn track_reading_stops_on_interruption_or_closure() {
    assert_eq!(track_read_step(TrackReadEvent::PacketRead { delivered: true }), TrackReadStep::Continue);
    assert_eq!(track_read_step(TrackReadEvent::PacketRead { delivered: false }), TrackReadStep::Stop);
    assert_eq!(track_read_step(TrackReadEvent::ReadFailed { closed: true }), TrackReadStep::Stop);
    assert_eq!(track_read_step(TrackReadEvent::ReadFailed { closed: false }), TrackReadStep::ForwardErrorAndStop);
    assert_eq!(
        track_read_step(TrackReadEvent::PeerStateChanged(PeerConnectionState::Failed)),
        TrackReadStep::Stop
    );
    assert_eq!(
        track_read_step(TrackReadEvent::PeerStateChanged(PeerConnectionState::Connected)),
        TrackReadStep::Continue
    );
}

#[test]
fn session_complete_only_after_graceful_end() {
    assert!(session_close_messages(false, 1, 1).is_empty());
    assert_eq!(session_close_messages(true, 1, 1), vec![ServerMessage::SessionComplete]);
    assert_eq!(
        session_close_messages(true, 0, 2),
        vec![
            ServerMessage::error("Expected [2] media tracks to connect during the session, but [0] connected."),
            ServerMessage::SessionComplete
        ]
    );
    assert_eq!(track_count_message(10, 3), "Expected [10] media tracks to connect during the session, but [3] connected.");
}

// ---- REST ----

#[test]
fn rest_urls_and_paths() {
    assert_eq!(session_video_url("p", "s"), "/data/p/s/game_capture_0.mp4");
    assert_eq!(session_log_url("p", "s"), "/data/p/s/data_unity_log.txt");
    assert_eq!(session_metadata_path("data/p", "s").unwrap(), "data/p/s/metadata.json");
    let e = session_metadata_path("data/p", "../q").unwrap_err();
    assert_eq!(e.into_parts(), (400, "session_id invalid".to_string()));
}

#[test]
fn rest_errors() {
    assert_eq!(unauthorized_error().into_parts(), (401, "not authorized".to_string()));
    assert_eq!(missing_session_error("s9").into_parts(), (400, "session does not exist: [s9]".to_string()));
    assert_eq!(RestError::new(418, "teapot").into_parts(), (418, "teapot".to_string()));
    assert_eq!(RestError::internal("disk").into_parts(), (500, "disk".to_string()));
    authorize_access();
}

#[test]
fn rest_queries_and_entries() {
    let q = ListQuery { project_id: "p".to_string() };
    assert_eq!(q.project_id, "p");
    let q = SessionInfoQuery { session_id: "s".to_string(), project_id: "p".to_string() };
    assert_eq!((q.session_id.as_str(), q.project_id.as_str()), ("s", "p"));
    assert_eq!(UserEmailClaim::new("a@b.c").get_email(), "a@b.c");
    assert_eq!(session_entry_action(true, true), SessionEntryAction::ReadMetadata);
    assert_eq!(session_entry_action(true, false), SessionEntryAction::WarnMissingMetadata);
    assert_eq!(session_entry_action(false, true), SessionEntryAction::WarnUnexpectedFile);
}

// ---- data channels ----

#[test]
fn channels_by_label_and_protocol() {
    assert_eq!(channel_role("general"), ChannelRole::General);
    assert_eq!(channel_role("logs"), ChannelRole::Generic);
    assert_eq!(channel_role("General"), ChannelRole::Generic);
    assert_eq!(generic_channel_file_name("logs", "timestamped_bytes"), "data_logs.txt");
    assert_eq!(generic_channel_file_name("raw", ""), "data_raw.dat");
}

#[test]
fn generic_channel_actions() {
    let mut c = GenericChannel::new("timestamped_bytes");
    assert!(matches!(c.on_message(false), (false, GenericAction::WriteLines)));
    match c.on_message(true) {
        (false, GenericAction::Reject { notice }) => assert_eq!(
            notice,
            ServerMessage::error("data channel with protocol [timestamped_bytes] cannot send messages of type string.")
        ),
        other => panic!("unexpected {:?}", other),
    }
    let mut c = GenericChannel::new("other");
    for i in 1..=200 {
        let (progress, action) = c.on_message(i % 2 == 0);
        assert_eq!(progress, i % 100 == 0);
        assert!(matches!(action, GenericAction::WriteRaw));
    }
    assert_eq!(c.messages_received(), 200);
}

//! The WHIP session: request checks, the session's data directory, the SDP
//! answer checks, and the decisions taken when a session ends.

use vstd::prelude::*;
use crate::messages::{ServerMessage, ServerMessageView};
use crate::path_ext::{join_path, single_plain_name, PathExt};
use crate::sdp::{has_key, parse_session_description, sdp_unmarshal, MediaSection, MediaView, SessionSdp};
use crate::text::{decimal, lowercase, push_decimal, str_equals, to_lowercase};

verus! {

/// HTTP 400 Bad Request.
pub const STATUS_BAD_REQUEST: u16 = 400;
/// HTTP 401 Unauthorized.
pub const STATUS_UNAUTHORIZED: u16 = 401;
/// HTTP 409 Conflict.
pub const STATUS_CONFLICT: u16 = 409;
/// HTTP 415 Unsupported Media Type.
pub const STATUS_UNSUPPORTED_MEDIA_TYPE: u16 = 415;
/// HTTP 500 Internal Server Error.
pub const STATUS_INTERNAL_SERVER_ERROR: u16 = 500;

/// Whether `e` is the manual error with `status` and `message`.
pub open spec fn is_manual_error(e: AppError, status: u16, message: Seq<char>) -> bool {
    e matches AppError::Manual { status: s, message: m } && s == status && m@ == message
}

/// The errors of the WHIP endpoint.
#[derive(Debug)]
pub enum AppError {
    /// An error with its own status code and message.
    Manual { status: u16, message: String },
    /// The WebRTC stack failed.
    WebRtc,
    /// Reading or writing the disk failed.
    Io,
    /// Building the HTTP response failed.
    Http,
    /// Serializing JSON failed.
    Serde,
}

impl AppError {
    /// An error answered with `status` and `message`.
    pub fn manual(status: u16, message: &str) -> (res: AppError)
        ensures
            is_manual_error(res, status, message@),
    {
        AppError::Manual { status, message: message.to_owned() }
    }

    /// An internal server error carrying `message`.
    pub fn internal(message: &str) -> (res: AppError)
        ensures
            is_manual_error(res, STATUS_INTERNAL_SERVER_ERROR, message@),
    {
        AppError::Manual { status: STATUS_INTERNAL_SERVER_ERROR, message: message.to_owned() }
    }

    /// The one-line description of the error.
    pub fn description(&self) -> (res: String)
        ensures
            res@ == match self {
                AppError::Manual { .. } => "1"@,
                AppError::WebRtc => "webrtc error"@,
                AppError::Io => "io error"@,
                AppError::Http => "http error"@,
                AppError::Serde => "serde error"@,
            },
    {
        match self {
            AppError::Manual { .. } => "1".to_owned(),
            AppError::WebRtc => "webrtc error".to_owned(),
            AppError::Io => "io error".to_owned(),
            AppError::Http => "http error".to_owned(),
            AppError::Serde => "serde error".to_owned(),
        }
    }

    /// The status code and body that answer the error: its own for a
    /// manual error, 500 with the description for the others.
    pub fn response(&self) -> (res: (u16, String))
        ensures
            match self {
                AppError::Manual { status, message } => res.0 == status && res.1@ == message@,
                AppError::WebRtc => res.0 == STATUS_INTERNAL_SERVER_ERROR
                    && res.1@ == "Internal Server Error: "@ + "webrtc error"@,
                AppError::Io => res.0 == STATUS_INTERNAL_SERVER_ERROR
                    && res.1@ == "Internal Server Error: "@ + "io error"@,
                AppError::Http => res.0 == STATUS_INTERNAL_SERVER_ERROR
                    && res.1@ == "Internal Server Error: "@ + "http error"@,
                AppError::Serde => res.0 == STATUS_INTERNAL_SERVER_ERROR
                    && res.1@ == "Internal Server Error: "@ + "serde error"@,
            },
    {
        match self {
            AppError::Manual { status, message } => (*status, message.clone()),
            _ => {
                let mut body = "Internal Server Error: ".to_owned();
                let d = self.description();
                body.append(d.as_str());
                (STATUS_INTERNAL_SERVER_ERROR, body)
            },
        }
    }
}

/// Fails with `status` and `msg` unless `condition` holds.
pub fn ensure_app(condition: bool, status: u16, msg: &str) -> (res: Result<(), AppError>)
    ensures
        res is Ok <==> condition,
        res matches Err(e) ==> is_manual_error(e, status, msg@),
{
    if !condition {
        return Err(AppError::manual(status, msg));
    }
    Ok(())
}

/// The identifiers that a WHIP request names.
#[derive(Debug)]
pub struct WhipIds {
    pub session_id: String,
    /// The project the session belongs to, when the request names one.
    pub project_id: Option<String>,
}

/// Checks a WHIP request: its content type must be SDP, then its query must
/// name a session; naming a project is optional.
pub fn check_whip_request(
    content_type_is_sdp: bool,
    session_id: Option<&str>,
    project_id: Option<&str>,
) -> (res: Result<WhipIds, AppError>)
    ensures
        res is Ok <==> content_type_is_sdp && session_id is Some,
        res matches Ok(ids) ==> ids.session_id@ == session_id.unwrap()@ && match (ids.project_id, project_id) {
            (Some(a), Some(b)) => a@ == b@,
            (None, None) => true,
            _ => false,
        },
        !content_type_is_sdp ==> (res matches Err(e) && is_manual_error(
            e,
            STATUS_UNSUPPORTED_MEDIA_TYPE,
            "Content-Type must be application/sdp."@,
        )),
        content_type_is_sdp && session_id is None ==> (res matches Err(e) && is_manual_error(
            e,
            STATUS_BAD_REQUEST,
            "Query parameter missing: [session_id]"@,
        )),
{
    if !content_type_is_sdp {
        return Err(AppError::manual(STATUS_UNSUPPORTED_MEDIA_TYPE, "Content-Type must be application/sdp."));
    }
    ensure_app(session_id.is_some(), STATUS_BAD_REQUEST, "Query parameter missing: [session_id]")?;
    let project = match project_id {
        Some(p) => Some(p.to_owned()),
        None => None,
    };
    Ok(WhipIds { session_id: session_id.unwrap().to_owned(), project_id: project })
}

/// The directory of a session: `<data>/<project>/<session>`, or
/// `<data>/<session>` when no project is named; each id must be a single
/// plain path name.
pub fn session_data_path(data_path: &str, project_id: Option<&str>, session_id: &str) -> (res: Result<
    String,
    AppError,
>)
    ensures
        res is Ok <==> match project_id {
            Some(p) => single_plain_name(p@),
            None => true,
        } && single_plain_name(session_id@),
        res matches Ok(path) ==> path@ == match project_id {
            Some(p) => join_path(join_path(data_path@, p@), session_id@),
            None => join_path(data_path@, session_id@),
        },
        res matches Err(e) ==> is_manual_error(e, STATUS_BAD_REQUEST, "project_id invalid"@),
{
    let parent = match project_id {
        Some(p) => match data_path.join_safe(p) {
            Ok(project_path) => project_path,
            Err(_) => return Err(AppError::manual(STATUS_BAD_REQUEST, "project_id invalid")),
        },
        None => data_path.to_owned(),
    };
    match parent.as_str().join_safe(session_id) {
        Ok(path) => Ok(path),
        Err(_) => Err(AppError::manual(STATUS_BAD_REQUEST, "project_id invalid")),
    }
}

/// The conflict answered when a session's directory already exists; `path`
/// is the debug rendering of the directory.
pub fn session_exists_error(session_id: &str, path: &str) -> (res: AppError)
    ensures
        is_manual_error(
            res,
            STATUS_CONFLICT,
            "Session ID already exists! ["@ + session_id@ + "] path: ["@ + path@ + "]"@,
        ),
{
    let mut msg = "Session ID already exists! [".to_owned();
    msg.append(session_id);
    msg.append("] path: [");
    msg.append(path);
    msg.append("]");
    AppError::Manual { status: STATUS_CONFLICT, message: msg }
}

/// The `Location` of a created session: `whip/<session id>`.
pub fn whip_location(session_id: &str) -> (res: String)
    ensures
        res@ == "whip/"@ + session_id@,
{
    let mut location = "whip/".to_owned();
    location.append(session_id);
    location
}

/// The STUN servers that the peer connection gathers candidates with.
pub fn stun_servers() -> (res: Vec<String>)
    ensures
        res@.map_values(|s: String| s@) == seq![
            "stun:stun.l.google.com:19302"@,
            "stun:stun1.l.google.com:19302"@,
        ],
{
    let mut v: Vec<String> = Vec::new();
    v.push("stun:stun.l.google.com:19302".to_owned());
    v.push("stun:stun1.l.google.com:19302".to_owned());
    assert(v@.map_values(|s: String| s@) =~= seq![
        "stun:stun.l.google.com:19302"@,
        "stun:stun1.l.google.com:19302"@,
    ]);
    v
}

/// Reads the media sections of an SDP offer or answer; a description that
/// the SDP parser refuses is a WebRTC error.
pub fn parse_description(body: &str) -> (res: Result<SessionSdp, AppError>)
    ensures
        res is Ok <==> sdp_unmarshal(body@) is Some,
        res matches Ok(s) ==> sdp_unmarshal(body@) == Some(s@),
        res matches Err(e) ==> e is WebRtc,
{
    match parse_session_description(body) {
        Ok(s) => Ok(s),
        Err(_) => Err(AppError::WebRtc),
    }
}

/// The message sent when an answer's media section has no common codec.
pub open spec fn no_common_codec() -> Seq<char> {
    "Could not find common codec. Media track cannot connect."@
}

/// Whether a media section of the answer, given its lower-cased media type,
/// cannot carry media: its port is 0, or it is not a data channel
/// (`application`) and has no `rtpmap` line.
pub open spec fn encoding_problem_spec(lowered_media: Seq<char>, section: MediaView) -> bool {
    section.1 == 0 || (!has_key(section.2, "rtpmap"@) && lowered_media != "application"@)
}

/// Decides one media section of the answer from its lower-cased media type.
pub fn encoding_problem(lowered_media: &str, section: &MediaSection) -> (res: bool)
    ensures
        res == encoding_problem_spec(lowered_media@, section@),
{
    if section.port == 0 {
        true
    } else {
        !section.has_attribute("rtpmap") && !str_equals(lowered_media, "application")
    }
}

/// One `no_common_codec` error for each media section of an answer that
/// cannot carry media, in order.
pub open spec fn encoding_warnings(sections: Seq<MediaView>) -> Seq<ServerMessageView> {
    sections.filter_map(
        |m: MediaView|
            if encoding_problem_spec(lowercase(m.0), m) {
                Some(ServerMessageView::Error(no_common_codec()))
            } else {
                None
            },
    )
}

/// Every answer section with port 0 earns the no-common-codec message,
/// whatever its media type; a section with a non-zero port earns it exactly
/// when it is not a data channel (`application`) and has no `rtpmap` line.
pub proof fn lemma_encoding_problem(lowered_media: Seq<char>, section: MediaView)
    ensures
        section.1 == 0 ==> encoding_problem_spec(lowered_media, section),
        section.1 != 0 ==> (encoding_problem_spec(lowered_media, section) <==> (lowered_media
            != "application"@ && forall|i: int|
            0 <= i < section.2.len() ==> (#[trigger] section.2[i]).0 != "rtpmap"@)),
{
}

/// An answer earns at least one message per section with port 0, and every
/// message is the no-common-codec error.
pub proof fn lemma_disabled_sections_are_reported(sections: Seq<MediaView>)
    ensures
        encoding_warnings(sections).len() >= sections.filter(|m: MediaView| m.1 == 0).len(),
        forall|i: int|
            0 <= i < encoding_warnings(sections).len() ==> #[trigger] encoding_warnings(sections)[i]
                == ServerMessageView::Error(no_common_codec()),
    decreases sections.len(),
{
    reveal(Seq::filter);
    if sections.len() > 0 {
        let rest = sections.drop_last();
        let m = sections.last();
        lemma_disabled_sections_are_reported(rest);
        lemma_encoding_problem(lowercase(m.0), m);
        let disabled = |x: MediaView| x.1 == 0;
        assert(sections.filter(disabled) == if disabled(m) {
            rest.filter(disabled).push(m)
        } else {
            rest.filter(disabled)
        });
        assert forall|i: int| 0 <= i < encoding_warnings(sections).len() implies #[trigger] encoding_warnings(
            sections,
        )[i] == ServerMessageView::Error(no_common_codec()) by {
            if i < encoding_warnings(rest).len() {
                assert(encoding_warnings(rest)[i] == ServerMessageView::Error(no_common_codec()));
            }
        }
    }
}

/// Checks the SDP answer for media sections that share no codec with the
/// client: the messages to send to the client.
pub fn validate_track_encodings(answer: &SessionSdp) -> (res: Vec<ServerMessage>)
    ensures
        res@.map_values(|m: ServerMessage| m@) == encoding_warnings(answer@),
{
    let ghost sections = answer@;
    let mut out: Vec<ServerMessage> = Vec::new();
    let mut i: usize = 0;
    while i < answer.media_descriptions.len()
        invariant
            sections == answer@,
            i <= sections.len(),
            out@.map_values(|m: ServerMessage| m@) == encoding_warnings(sections.take(i as int)),
        decreases sections.len() - i,
    {
        let md = &answer.media_descriptions[i];
        proof {
            assert(sections.take(i + 1).drop_last() =~= sections.take(i as int));
            assert(sections.take(i + 1).last() == md@);
        }
        let media_type = to_lowercase(md.media.as_str());
        if encoding_problem(media_type.as_str(), md) {
            out.push(ServerMessage::error("Could not find common codec. Media track cannot connect."));
        }
        assert(out@.map_values(|m: ServerMessage| m@) =~= encoding_warnings(sections.take(i + 1)));
        i = i + 1;
    }
    assert(sections.take(sections.len() as int) =~= sections);
    out
}

/// The state of the peer connection.
#[derive(Debug, Clone, Copy, PartialEq, Eq, Structural)]
pub enum PeerConnectionState {
    Unspecified,
    New,
    Connecting,
    Connected,
    Disconnected,
    Failed,
    Closed,
}

impl PeerConnectionState {
    /// Whether the connection is interrupted: closed, disconnected or failed.
    pub open spec fn is_interrupted(self) -> bool {
        self is Closed || self is Disconnected || self is Failed
    }

    /// Whether the connection is interrupted: closed, disconnected or failed.
    pub fn ends_session(&self) -> (res: bool)
        ensures
            res == self.is_interrupted(),
    {
        match self {
            PeerConnectionState::Closed | PeerConnectionState::Disconnected | PeerConnectionState::Failed => true,
            _ => false,
        }
    }
}

/// What happens to a running session.
#[derive(Debug, Clone, Copy, PartialEq, Eq, Structural)]
pub enum SessionEvent {
    /// The client asked for a graceful end.
    GracefulShutdownRequested,
    /// The peer connection changed state.
    PeerStateChanged(PeerConnectionState),
}

/// What the session does after an event.
#[derive(Debug, Clone, Copy, PartialEq, Eq, Structural)]
pub enum SessionStep {
    /// Keep waiting.
    Continue,
    /// Shut the session down; `graceful` when the client asked for it.
    Shutdown { graceful: bool },
}

/// The session's next step after an event.
pub open spec fn next_step(event: SessionEvent) -> SessionStep {
    match event {
        SessionEvent::GracefulShutdownRequested => SessionStep::Shutdown { graceful: true },
        SessionEvent::PeerStateChanged(s) => if s.is_interrupted() {
            SessionStep::Shutdown { graceful: false }
        } else {
            SessionStep::Continue
        },
    }
}

/// Decides the session's next step: a graceful request ends it gracefully,
/// an interrupted connection ends it abruptly, any other state change is
/// waited out.
pub fn session_step(event: SessionEvent) -> (res: SessionStep)
    ensures
        res == next_step(event),
{
    match event {
        SessionEvent::GracefulShutdownRequested => SessionStep::Shutdown { graceful: true },
        SessionEvent::PeerStateChanged(s) => {
            if s.ends_session() {
                SessionStep::Shutdown { graceful: false }
            } else {
                SessionStep::Continue
            }
        },
    }
}

/// What happens to the task that reads a track's RTP packets.
#[derive(Debug, Clone, Copy, PartialEq, Eq, Structural)]
pub enum TrackReadEvent {
    /// The peer connection changed state.
    PeerStateChanged(PeerConnectionState),
    /// A packet was read; `delivered` tells whether its consumer took it.
    PacketRead { delivered: bool },
    /// Reading failed; `closed` when the failure is the track's buffer or
    /// pipe being closed.
    ReadFailed { closed: bool },
}

/// What the reading task does next.
#[derive(Debug, Clone, Copy, PartialEq, Eq, Structural)]
pub enum TrackReadStep {
    /// Keep reading.
    Continue,
    /// Stop reading, ending the stream.
    Stop,
    /// Hand the error to the consumer, then stop.
    ForwardErrorAndStop,
}

/// The reading task's next step after an event.
pub open spec fn next_track_read_step(event: TrackReadEvent) -> TrackReadStep {
    match event {
        TrackReadEvent::PeerStateChanged(s) => if s.is_interrupted() {
            TrackReadStep::Stop
        } else {
            TrackReadStep::Continue
        },
        TrackReadEvent::PacketRead { delivered } => if delivered {
            TrackReadStep::Continue
        } else {
            TrackReadStep::Stop
        },
        TrackReadEvent::ReadFailed { closed } => if closed {
            TrackReadStep::Stop
        } else {
            TrackReadStep::ForwardErrorAndStop
        },
    }
}

/// Decides the reading task's next step: it stops when the connection is
/// interrupted, when the consumer is gone or when the track is closed; any
/// other read error is handed to the consumer before stopping.
pub fn track_read_step(event: TrackReadEvent) -> (res: TrackReadStep)
    ensures
        res == next_track_read_step(event),
{
    match event {
        TrackReadEvent::PeerStateChanged(s) => {
            if s.ends_session() {
                TrackReadStep::Stop
            } else {
                TrackReadStep::Continue
            }
        },
        TrackReadEvent::PacketRead { delivered } => {
            if delivered {
                TrackReadStep::Continue
            } else {
                TrackReadStep::Stop
            }
        },
        TrackReadEvent::ReadFailed { closed } => {
            if closed {
                TrackReadStep::Stop
            } else {
                TrackReadStep::ForwardErrorAndStop
            }
        },
    }
}

/// The error sent when fewer or more tracks connected than were offered.
pub open spec fn track_count_text(expected: nat, connected: nat) -> Seq<char> {
    "Expected ["@ + decimal(expected) + "] media tracks to connect during the session, but ["@
        + decimal(connected) + "] connected."@
}

/// The text of the track count error.
pub fn track_count_message(expected: u64, connected: u64) -> (res: String)
    ensures
        res@ == track_count_text(expected as nat, connected as nat),
{
    let mut msg = "Expected [".to_owned();
    push_decimal(&mut msg, expected);
    msg.append("] media tracks to connect during the session, but [");
    push_decimal(&mut msg, connected);
    msg.append("] connected.");
    msg
}

/// The messages sent to the client when a session shuts down.
pub open spec fn close_messages(graceful: bool, connected_tracks: nat, expected_tracks: nat) -> Seq<
    ServerMessageView,
> {
    if !graceful {
        Seq::empty()
    } else if connected_tracks == expected_tracks {
        seq![ServerMessageView::SessionComplete]
    } else {
        seq![
            ServerMessageView::Error(track_count_text(expected_tracks, connected_tracks)),
            ServerMessageView::SessionComplete,
        ]
    }
}

/// The messages a session sends its client when it shuts down: nothing
/// after an abrupt end; after a graceful one, an error if the number of
/// connected tracks differs from the number offered, then `SessionComplete`.
pub fn session_close_messages(graceful: bool, connected_tracks: u64, expected_tracks: u64) -> (res: Vec<ServerMessage>)
    ensures
        res@.map_values(|m: ServerMessage| m@) == close_messages(
            graceful,
            connected_tracks as nat,
            expected_tracks as nat,
        ),
{
    let mut out: Vec<ServerMessage> = Vec::new();
    if graceful {
        if connected_tracks != expected_tracks {
            let text = track_count_message(expected_tracks, connected_tracks);
            out.push(ServerMessage::error(text.as_str()));
        }
        out.push(ServerMessage::SessionComplete);
    }
    assert(out@.map_values(|m: ServerMessage| m@) =~= close_messages(
        graceful,
        connected_tracks as nat,
        expected_tracks as nat,
    ));
    out
}

/// A session that shuts down tells its client `SessionComplete` exactly
/// when the client asked for the end, and then as its last message.
pub proof fn lemma_session_complete_iff_requested(event: SessionEvent, connected_tracks: nat, expected_tracks: nat)
    requires
        next_step(event) is Shutdown,
    ensures
        ({
            let msgs = close_messages(next_step(event)->graceful, connected_tracks, expected_tracks);
            &&& msgs.contains(ServerMessageView::SessionComplete) <==> event is GracefulShutdownRequested
            &&& event is GracefulShutdownRequested ==> msgs.last() == ServerMessageView::SessionComplete
        }),
{
    let msgs = close_messages(next_step(event)->graceful, connected_tracks, expected_tracks);
    if event is GracefulShutdownRequested {
        if connected_tracks == expected_tracks {
            assert(msgs[0] == ServerMessageView::SessionComplete);
        } else {
            assert(msgs[1] == ServerMessageView::SessionComplete);
        }
    } else {
        assert(msgs.len() == 0);
    }
}

/// A session ends on exactly the peer states Closed, Disconnected and
/// Failed, and a track's reading task stops on exactly the same states; on
/// every other state both carry on.
pub proof fn lemma_interrupting_peer_states(state: PeerConnectionState)
    ensures
        next_step(SessionEvent::PeerStateChanged(state)) is Shutdown <==> (state
            == PeerConnectionState::Closed || state == PeerConnectionState::Disconnected || state
            == PeerConnectionState::Failed),
        next_track_read_step(TrackReadEvent::PeerStateChanged(state)) == TrackReadStep::Stop <==> (state
            == PeerConnectionState::Closed || state == PeerConnectionState::Disconnected || state
            == PeerConnectionState::Failed),
        next_track_read_step(TrackReadEvent::PeerStateChanged(state)) != TrackReadStep::Stop
            ==> next_track_read_step(TrackReadEvent::PeerStateChanged(state)) == TrackReadStep::Continue,
        next_step(SessionEvent::PeerStateChanged(state)) is Shutdown <==> next_track_read_step(
            TrackReadEvent::PeerStateChanged(state),
        ) == TrackReadStep::Stop,
{
}

} // verus!

//! The REST interface over stored sessions: its queries, its errors and the
//! paths and URLs it derives from project and session ids.

use vstd::prelude::*;
use crate::path_ext::{join_path, join_path_text, single_plain_name, PathExt};
use crate::session::{STATUS_BAD_REQUEST, STATUS_INTERNAL_SERVER_ERROR, STATUS_UNAUTHORIZED};

verus! {

/// The query of the session list: the project to list.
#[derive(Debug)]
pub struct ListQuery {
    pub project_id: String,
}

/// The claims of the caller's token that the server reads: its email.
#[derive(Debug)]
pub struct UserEmailClaim {
    email: String,
}

impl UserEmailClaim {
    /// The claims of a caller with the given email.
    pub fn new(email: &str) -> (res: UserEmailClaim)
        ensures
            res.email()@ == email@,
    {
        UserEmailClaim { email: email.to_owned() }
    }

    /// The caller's email.
    pub closed spec fn email(&self) -> String {
        self.email
    }

    /// The caller's email.
    pub fn get_email(&self) -> (res: &str)
        ensures
            res@ == self.email()@,
    {
        self.email.as_str()
    }
}

/// The query of one session's data.
#[derive(Debug)]
pub struct SessionInfoQuery {
    pub session_id: String,
    pub project_id: String,
}

/// An error of the REST interface: a status code and a body.
#[derive(Debug)]
pub struct RestError(u16, String);

impl RestError {
    /// The status code of the error.
    pub closed spec fn status(&self) -> u16 {
        self.0
    }

    /// The body of the error.
    pub closed spec fn body(&self) -> Seq<char> {
        self.1@
    }

    /// An error with `status` and `body`.
    pub fn new(status: u16, body: &str) -> (res: RestError)
        ensures
            res.status() == status,
            res.body() == body@,
    {
        RestError(status, body.to_owned())
    }

    /// An internal server error carrying the description of what failed.
    pub fn internal(description: &str) -> (res: RestError)
        ensures
            res.status() == STATUS_INTERNAL_SERVER_ERROR,
            res.body() == description@,
    {
        RestError(STATUS_INTERNAL_SERVER_ERROR, description.to_owned())
    }

    /// The status code and body that answer the error.
    pub fn into_parts(self) -> (res: (u16, String))
        ensures
            res.0 == self.status(),
            res.1@ == self.body(),
    {
        (self.0, self.1)
    }
}

/// Authorizes access to the REST interface; every caller is let through.
pub fn authorize_access() {
}

/// The error answered to a caller who may not see a project.
pub fn unauthorized_error() -> (res: RestError)
    ensures
        res.status() == STATUS_UNAUTHORIZED,
        res.body() == "not authorized"@,
{
    RestError::new(STATUS_UNAUTHORIZED, "not authorized")
}

/// The metadata file of a session inside its project folder; the session id
/// must be made of plain path components only.
pub fn session_metadata_path(project_folder: &str, session_id: &str) -> (res: Result<String, RestError>)
    ensures
        res is Ok <==> single_plain_name(session_id@),
        res matches Ok(p) ==> p@ == join_path(join_path(project_folder@, session_id@), "metadata.json"@),
        res matches Err(e) ==> e.status() == STATUS_BAD_REQUEST && e.body() == "session_id invalid"@,
{
    match project_folder.join_safe(session_id) {
        Ok(session_folder) => Ok(join_path_text(session_folder.as_str(), "metadata.json")),
        Err(_) => Err(RestError::new(STATUS_BAD_REQUEST, "session_id invalid")),
    }
}

/// The error answered when a session's metadata cannot be opened.
pub fn missing_session_error(session_id: &str) -> (res: RestError)
    ensures
        res.status() == STATUS_BAD_REQUEST,
        res.body() == "session does not exist: ["@ + session_id@ + "]"@,
{
    let mut body = "session does not exist: [".to_owned();
    body.append(session_id);
    body.append("]");
    RestError(STATUS_BAD_REQUEST, body)
}

/// The URL of a session's captured video: `/data/<project>/<session>/game_capture_0.mp4`.
pub fn session_video_url(project_id: &str, session_id: &str) -> (res: String)
    ensures
        res@ == "/data/"@ + project_id@ + "/"@ + session_id@ + "/game_capture_0.mp4"@,
{
    let mut url = "/data/".to_owned();
    url.append(project_id);
    url.append("/");
    url.append(session_id);
    url.append("/game_capture_0.mp4");
    url
}

/// The URL of a session's Unity log: `/data/<project>/<session>/data_unity_log.txt`.
pub fn session_log_url(project_id: &str, session_id: &str) -> (res: String)
    ensures
        res@ == "/data/"@ + project_id@ + "/"@ + session_id@ + "/data_unity_log.txt"@,
{
    let mut url = "/data/".to_owned();
    url.append(project_id);
    url.append("/");
    url.append(session_id);
    url.append("/data_unity_log.txt");
    url
}

/// What the session list does with one entry of a project folder.
#[derive(Debug, Clone, Copy, PartialEq, Eq, Structural)]
pub enum SessionEntryAction {
    /// A session folder with metadata: list its metadata.
    ReadMetadata,
    /// A session folder without metadata: warn and skip it.
    WarnMissingMetadata,
    /// Not a folder: warn and skip it.
    WarnUnexpectedFile,
}

/// Decides what to do with an entry of a project folder.
pub fn session_entry_action(is_dir: bool, metadata_exists: bool) -> (res: SessionEntryAction)
    ensures
        !is_dir ==> res == SessionEntryAction::WarnUnexpectedFile,
        is_dir && metadata_exists ==> res == SessionEntryAction::ReadMetadata,
        is_dir && !metadata_exists ==> res == SessionEntryAction::WarnMissingMetadata,
{
    if !is_dir {
        SessionEntryAction::WarnUnexpectedFile
    } else if metadata_exists {
        SessionEntryAction::ReadMetadata
    } else {
        SessionEntryAction::WarnMissingMetadata
    }
}

} // verus!

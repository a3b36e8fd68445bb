//! Control messages: what arrives from the router, what the core answers, and its errors.
use vstd::prelude::*;

verus! {

/// Terminal width given to a session when a resize names none.
pub const DEFAULT_COLS: u16 = 80;

/// Terminal height given to a session when a resize names none.
pub const DEFAULT_ROWS: u16 = 24;

/// A control response built by the core; the transport encodes it.
pub enum PtyResponse {
    /// A session was created.
    InitComplete { session_id: String },
    /// A session's shell output ended.
    Exit { session_id: String, code: i32 },
}

/// The failures that the core reports to the router.
pub enum PtyError {
    SpawnFailed(String),
    ResizeFailed(String),
    WriteFailed(String),
    SessionNotFound(String),
    SessionIdRequired,
    UnknownMessageType(String),
    DownstreamUnavailable,
}

/// `tag` followed by `": "` and `detail`.
pub open spec fn tagged(tag: Seq<char>, detail: Seq<char>) -> Seq<char> {
    tag + ": "@ + detail
}

/// The text of an error: a stable tag, then the context.
pub open spec fn error_message(e: PtyError) -> Seq<char> {
    match e {
        PtyError::SpawnFailed(c) => tagged("SPAWN_FAILED"@, c@),
        PtyError::ResizeFailed(c) => tagged("RESIZE_FAILED"@, c@),
        PtyError::WriteFailed(c) => tagged("WRITE_FAILED"@, c@),
        PtyError::SessionNotFound(id) => tagged("SESSION_NOT_FOUND"@, id@),
        PtyError::SessionIdRequired => "SESSION_ID_REQUIRED"@,
        PtyError::UnknownMessageType(t) => tagged("UNKNOWN_MESSAGE_TYPE"@, t@),
        PtyError::DownstreamUnavailable => "DOWNSTREAM_UNAVAILABLE"@,
    }
}

fn tag_with(tag: &str, detail: &String) -> (r: String)
    ensures
        r@ == tagged(tag@, detail@),
{
    let mut r = String::from_str(tag);
    r.append(": ");
    r.append(detail.as_str());
    r
}

impl PtyError {
    /// The message handed to the router.
    pub fn message(&self) -> (r: String)
        ensures
            r@ == error_message(*self),
    {
        match self {
            PtyError::SpawnFailed(c) => tag_with("SPAWN_FAILED", c),
            PtyError::ResizeFailed(c) => tag_with("RESIZE_FAILED", c),
            PtyError::WriteFailed(c) => tag_with("WRITE_FAILED", c),
            PtyError::SessionNotFound(id) => tag_with("SESSION_NOT_FOUND", id),
            PtyError::SessionIdRequired => String::from_str("SESSION_ID_REQUIRED"),
            PtyError::UnknownMessageType(t) => tag_with("UNKNOWN_MESSAGE_TYPE", t),
            PtyError::DownstreamUnavailable => String::from_str("DOWNSTREAM_UNAVAILABLE"),
        }
    }
}

/// An inbound control message, with the fields that the core reads.
pub struct PtyMessage {
    pub msg_type: String,
    pub session_id: Option<String>,
    pub cols: Option<u16>,
    pub rows: Option<u16>,
    pub shell_type: Option<String>,
    pub shell_args: Option<Vec<String>>,
    pub cwd: Option<String>,
    pub env: Option<Vec<(String, String)>>,
}

/// What an inbound control message asks for.
pub enum PtyRequest {
    Init {
        shell_type: Option<String>,
        shell_args: Option<Vec<String>>,
        cwd: Option<String>,
        env: Option<Vec<(String, String)>>,
    },
    Resize { session_id: String, cols: u16, rows: u16 },
    Destroy { session_id: String },
    /// Advisory; carries nothing that the core applies.
    Env,
}

/// The request that a message carries, or the error it earns.
pub open spec fn route_spec(m: PtyMessage) -> Result<PtyRequest, PtyError> {
    if m.msg_type@ == "init"@ {
        Ok(
            PtyRequest::Init {
                shell_type: m.shell_type,
                shell_args: m.shell_args,
                cwd: m.cwd,
                env: m.env,
            },
        )
    } else if m.msg_type@ == "resize"@ {
        match m.session_id {
            Some(s) => Ok(
                PtyRequest::Resize {
                    session_id: s,
                    cols: match m.cols {
                        Some(c) => c,
                        None => DEFAULT_COLS,
                    },
                    rows: match m.rows {
                        Some(r) => r,
                        None => DEFAULT_ROWS,
                    },
                },
            ),
            None => Err(PtyError::SessionIdRequired),
        }
    } else if m.msg_type@ == "destroy"@ {
        match m.session_id {
            Some(s) => Ok(PtyRequest::Destroy { session_id: s }),
            None => Err(PtyError::SessionIdRequired),
        }
    } else if m.msg_type@ == "env"@ {
        Ok(PtyRequest::Env)
    } else {
        Err(PtyError::UnknownMessageType(m.msg_type))
    }
}

/// Reads what an inbound control message asks for, filling in the default size of a resize.
pub fn route(msg: PtyMessage) -> (r: Result<PtyRequest, PtyError>)
    ensures
        r == route_spec(msg),
{
    let ghost m = msg;
    if msg.msg_type == String::from_str("init") {
        Ok(
            PtyRequest::Init {
                shell_type: msg.shell_type,
                shell_args: msg.shell_args,
                cwd: msg.cwd,
                env: msg.env,
            },
        )
    } else if msg.msg_type == String::from_str("resize") {
        match msg.session_id {
            Some(s) => {
                let cols: u16 = match msg.cols {
                    Some(c) => c,
                    None => DEFAULT_COLS,
                };
                let rows: u16 = match msg.rows {
                    Some(r) => r,
                    None => DEFAULT_ROWS,
                };
                Ok(PtyRequest::Resize { session_id: s, cols, rows })
            },
            None => Err(PtyError::SessionIdRequired),
        }
    } else if msg.msg_type == String::from_str("destroy") {
        match msg.session_id {
            Some(s) => Ok(PtyRequest::Destroy { session_id: s }),
            None => Err(PtyError::SessionIdRequired),
        }
    } else if msg.msg_type == String::from_str("env") {
        Ok(PtyRequest::Env)
    } else {
        Err(PtyError::UnknownMessageType(msg.msg_type))
    }
}

} // verus!

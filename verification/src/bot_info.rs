//! The plain state of one bot: session, connection flags, redirect target
//! and the staging area of the last drop and trash requests.

use crate::login_info::LoginInfo;
use vstd::prelude::*;

verus! {

/// The way an account logs in.
#[derive(Debug, Clone, Copy, PartialEq, Eq, Structural)]
pub enum ELoginMethod {
    APPLE,
    GOOGLE,
    LEGACY,
    STEAM,
}

/// The session: credentials, token, fingerprint, what discovery returned,
/// the login links, the last ping, the status line and the backoff countdown.
/// What discovery returned is kept as its `key|value` pairs in the order of
/// the lines; where a key comes twice, the later line counts.
#[derive(Debug, Clone)]
pub struct Info {
    pub payload: Vec<String>,
    pub recovery_code: String,
    pub login_method: ELoginMethod,
    pub token: String,
    pub login_info: LoginInfo,
    pub server_data: Vec<(String, String)>,
    pub oauth_links: Vec<String>,
    pub ping: u32,
    pub status: String,
    pub timeout: u32,
}

/// The connection flags. `is_running` is the one stop signal of every loop.
#[derive(Debug, Clone, Copy, PartialEq, Eq, Structural)]
pub struct State {
    pub is_running: bool,
    pub is_redirecting: bool,
    pub is_not_allowed_to_warp: bool,
}

/// The server that a redirect points to.
#[derive(Debug, Clone)]
pub struct Server {
    pub ip: String,
    pub port: u16,
}

/// The item and amount of the last drop and of the last trash request.
#[derive(Debug, Clone, Copy)]
pub struct TemporaryData {
    pub drop: (u32, u32),
    pub trash: (u32, u32),
}

/// An object that lies in the world, at a place in pixels.
#[derive(Debug, Clone, Copy, PartialEq, Eq, Structural)]
pub struct DroppedObject {
    pub id: u16,
    pub uid: u32,
    pub x: i32,
    pub y: i32,
}

/// What the bot knows of the world it is in.
#[derive(Debug, Clone)]
pub struct World {
    pub name: String,
    pub dropped: Vec<DroppedObject>,
}

/// How grave a log line is.
#[derive(Debug, Clone, Copy, PartialEq, Eq, Structural)]
pub enum LogLevel {
    Info,
    Warn,
    Error,
}

impl Default for State {
    fn default() -> (r: State)
        ensures
            !r.is_running,
            !r.is_redirecting,
            !r.is_not_allowed_to_warp,
    {
        State { is_running: false, is_redirecting: false, is_not_allowed_to_warp: false }
    }
}

impl Default for TemporaryData {
    fn default() -> (r: TemporaryData)
        ensures
            r.drop == (0u32, 0u32),
            r.trash == (0u32, 0u32),
    {
        TemporaryData { drop: (0, 0), trash: (0, 0) }
    }
}

impl Default for Server {
    fn default() -> (r: Server)
        ensures
            r.ip@ == Seq::<char>::empty(),
            r.port == 0,
    {
        Server { ip: String::new(), port: 0 }
    }
}

} // verus!

use vstd::prelude::*;

verus! {

/// Events for the interaction surface. A countdown deadline travels as
/// milliseconds since the Unix epoch; `None` clears it.
#[derive(Debug, PartialEq, Eq)]
pub enum UiMessage {
    SetWallpaper(Option<String>),
    SetError(String),
    SetCountdownEndtime { end_time: Option<i64> },
}

/// Requests for the session controller.
#[derive(Debug, PartialEq, Eq)]
pub enum GreeterMessage {
    /// Authenticate with a username and a password.
    LoginWithCreds(String, String),
    /// Start the default session without authentication (forced login).
    Login(),
    /// Start the named session, or the default one for `None`.
    StartSession(Option<String>),
}

/// Requests emitted by the interaction surface.
#[derive(Debug, PartialEq, Eq)]
pub enum CoreMessage {
    Login(String, String),
}

} // verus!

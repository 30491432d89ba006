use vstd::prelude::*;

verus! {

use crate::localtime::ACCEPTED_ENDTIME_BOUND_MS;
use crate::localtime::LocalTimeKind;
use crate::localtime::classify_local_millis;
use crate::messages::GreeterMessage;
use crate::messages::UiMessage;

/// Error returned to the control plane for a rejected remote command.
#[derive(Debug, PartialEq, Eq)]
pub enum DbusError {
    InvalidArgs(String),
}

/// The four remote operations the control plane may invoke; the process
/// around the library implements this over its connection to the bus
/// listeners.
pub trait GreeterServiceBackend {
    /// Set the source of the wallpaper: an http url or a local filepath.
    fn set_wallpaper_source(&self, url: String);

    /// Set the instant, in milliseconds since the Unix epoch, at which the
    /// countdown ends and the session is started.
    fn set_countdown_endtime(&self, end_time: i64) -> Result<(), DbusError>;

    /// Disable the countdown and the subsequent login by removing the
    /// end time.
    fn disable_countdown(&self);

    /// Unlock the machine and start the default session.
    fn login(&self);
}

/// The control-plane service: hands each inbound remote operation to its
/// backend.
pub struct GreeterService<B: 'static> {
    backend: B,
}

impl<B> GreeterService<B> {
    /// The backend this service forwards to.
    pub closed spec fn spec_backend(self) -> B {
        self.backend
    }

    pub fn new(backend: B) -> (s: Self)
        ensures
            s.spec_backend() == backend,
    {
        GreeterService { backend }
    }

    /// The backend, for the process around the library to serve with.
    pub fn backend(&self) -> (b: &B)
        ensures
            *b == self.spec_backend(),
    {
        &self.backend
    }
}

/// set-wallpaper: the event for the interaction surface.
pub fn wallpaper_event(url: String) -> (r: UiMessage)
    ensures
        r == UiMessage::SetWallpaper(Some(url)),
{
    UiMessage::SetWallpaper(Some(url))
}

/// clear-countdown-deadline: the event for the interaction surface.
pub fn disable_countdown_event() -> (r: UiMessage)
    ensures
        r == (UiMessage::SetCountdownEndtime { end_time: None }),
{
    UiMessage::SetCountdownEndtime { end_time: None }
}

/// force-login: the request for the session controller — an unauthenticated
/// session start, distinct from a credentialed login.
pub fn force_login_message() -> (r: GreeterMessage)
    ensures
        r == GreeterMessage::Login(),
{
    GreeterMessage::Login()
}

/// set-countdown-deadline, decided from how the local timezone classified
/// the millisecond timestamp: accepted exactly when the classification is
/// unique; an ambiguous or nonexistent local reading is rejected as an
/// invalid argument, with no event produced.
pub fn decode_countdown_endtime(end_time: i64, kind: LocalTimeKind) -> (r: Result<
    UiMessage,
    DbusError,
>)
    ensures
        kind is Unique ==> r == Ok::<UiMessage, DbusError>(
            UiMessage::SetCountdownEndtime { end_time: Some(end_time) },
        ),
        kind is Ambiguous ==> (r matches Err(DbusError::InvalidArgs(m)) && m@
            == "Ambiguous timezone"@),
        kind is Nonexistent ==> (r matches Err(DbusError::InvalidArgs(m)) && m@
            == "Error converting to timezone"@),
{
    match kind {
        LocalTimeKind::Unique => Ok(UiMessage::SetCountdownEndtime { end_time: Some(end_time) }),
        LocalTimeKind::Ambiguous => Err(DbusError::InvalidArgs("Ambiguous timezone".to_string())),
        LocalTimeKind::Nonexistent => Err(
            DbusError::InvalidArgs("Error converting to timezone".to_string()),
        ),
    }
}

/// set-countdown-deadline: classifies the timestamp under the local timezone
/// (through the local-time adapter) and accepts or rejects it. An accepted
/// timestamp comes back unchanged in the event; any timestamp within the
/// range the timezone library documents is accepted.
pub fn set_countdown_endtime(end_time: i64) -> (r: Result<UiMessage, DbusError>)
    ensures
        r matches Ok(m) ==> m == (UiMessage::SetCountdownEndtime { end_time: Some(end_time) }),
        -ACCEPTED_ENDTIME_BOUND_MS <= end_time <= ACCEPTED_ENDTIME_BOUND_MS ==> r is Ok,
        r matches Err(DbusError::InvalidArgs(m)) ==> (m@ == "Ambiguous timezone"@ || m@
            == "Error converting to timezone"@),
{
    let kind = classify_local_millis(end_time);
    decode_countdown_endtime(end_time, kind)
}

} // verus!

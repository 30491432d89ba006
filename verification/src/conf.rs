use vstd::prelude::*;

verus! {

/// Interaction-surface configuration. A configured countdown deadline is
/// milliseconds since the Unix epoch; `countdown_from` is how many whole
/// seconds before the deadline the countdown becomes visible (`None` means it
/// is always visible once a deadline exists); `countdown_end_login` says
/// whether expiry starts a session.
#[derive(Debug, Clone, Copy, PartialEq, Eq)]
pub struct UiConfig {
    pub countdown_end_time: Option<i64>,
    pub countdown_from: Option<u64>,
    pub countdown_end_login: bool,
}

impl Default for UiConfig {
    fn default() -> (c: Self)
        ensures
            c == (UiConfig {
                countdown_end_time: None,
                countdown_from: None,
                countdown_end_login: false,
            }),
    {
        UiConfig { countdown_end_time: None, countdown_from: None, countdown_end_login: false }
    }
}

/// Credentials the greeter may use for a forced login; absent by default.
#[derive(Debug, Clone, PartialEq, Eq)]
pub struct GreeterConfig {
    pub username: Option<String>,
    pub password: Option<String>,
}

impl Default for GreeterConfig {
    fn default() -> (c: Self)
        ensures
            c.username is None,
            c.password is None,
    {
        GreeterConfig { username: None, password: None }
    }
}

/// The whole configuration.
#[derive(Debug, Clone, PartialEq, Eq)]
pub struct Conf {
    pub log_level: String,
    pub ui: UiConfig,
    pub greeter: GreeterConfig,
}

impl Default for Conf {
    fn default() -> (c: Self)
        ensures
            c.log_level@ == "info"@,
            c.ui == (UiConfig {
                countdown_end_time: None,
                countdown_from: None,
                countdown_end_login: false,
            }),
            c.greeter.username is None,
            c.greeter.password is None,
    {
        Conf {
            log_level: "info".to_string(),
            ui: Default::default(),
            greeter: Default::default(),
        }
    }
}

} // verus!

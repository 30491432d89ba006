use vstd::prelude::*;

pub mod conf;
pub mod countdown;
pub mod dbus;
pub mod greeter;
pub mod localtime;
pub mod messages;

verus! {

/// Commands flowing from the interaction surface to the session controller.
#[derive(Debug, PartialEq, Eq)]
pub enum UICoreCommand {
    Login(String, String),
}

/// Events flowing from the session controller back to the interaction surface.
#[derive(Debug, PartialEq, Eq)]
pub enum CoreUICommand {
    SetWallpaper(Option<String>),
    SetError(String),
}

} // verus!

use lightdm_contest_rs_greeter::dbus::{
    DbusError, GreeterService, decode_countdown_endtime, disable_countdown_event,
    force_login_message, set_countdown_endtime, wallpaper_event,
};
use lightdm_contest_rs_greeter::localtime::LocalTimeKind;
use lightdm_contest_rs_greeter::messages::{GreeterMessage, UiMessage};

#[test]
fn in_range_deadline_is_accepted() {
    // Exercises the real local-timezone classification.
    let ts: i64 = 1_700_000_000_000;
    assert_eq!(
        set_countdown_endtime(ts),
        Ok(UiMessage::SetCountdownEndtime { end_time: Some(ts) })
    );
    let ts: i64 = -1_000_000_000;
    assert_eq!(
        set_countdown_endtime(ts),
        Ok(UiMessage::SetCountdownEndtime { end_time: Some(ts) })
    );
}

#[test]
fn out_of_range_deadline_is_rejected() {
    assert_eq!(
        set_countdown_endtime(i64::MAX),
        Err(DbusError::InvalidArgs("Error converting to timezone".to_string()))
    );
    assert_eq!(
        set_countdown_endtime(i64::MIN),
        Err(DbusError::InvalidArgs("Error converting to timezone".to_string()))
    );
}

#[test]
fn ambiguous_local_time_is_rejected_with_no_event() {
    // A timestamp read as falling into a repeated or skipped local hour is
    // rejected as an invalid argument; no deadline event is produced.
    assert_eq!(
        decode_countdown_endtime(1_700_000_000_000, LocalTimeKind::Ambiguous),
        Err(DbusError::InvalidArgs("Ambiguous timezone".to_string()))
    );
    assert_eq!(
        decode_countdown_endtime(1_700_000_000_000, LocalTimeKind::Nonexistent),
        Err(DbusError::InvalidArgs("Error converting to timezone".to_string()))
    );
    assert_eq!(
        decode_countdown_endtime(7, LocalTimeKind::Unique),
        Ok(UiMessage::SetCountdownEndtime { end_time: Some(7) })
    );
}

#[test]
fn wallpaper_and_clear_and_force_login_events() {
    assert_eq!(
        wallpaper_event("/tmp/bg.png".to_string()),
        UiMessage::SetWallpaper(Some("/tmp/bg.png".to_string()))
    );
    assert_eq!(disable_countdown_event(), UiMessage::SetCountdownEndtime { end_time: None });
    assert_eq!(force_login_message(), GreeterMessage::Login());
}

#[test]
fn service_hands_operations_to_its_backend() {
    let service = GreeterService::new(42u32);
    assert_eq!(*service.backend(), 42);
}

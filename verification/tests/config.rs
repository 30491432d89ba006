use lightdm_contest_rs_greeter::conf::{Conf, GreeterConfig, UiConfig};

#[test]
fn default_configuration_is_idle() {
    let ui = UiConfig::default();
    assert_eq!(ui.countdown_end_time, None);
    assert_eq!(ui.countdown_from, None);
    assert!(!ui.countdown_end_login);

    let greeter = GreeterConfig::default();
    assert_eq!(greeter.username, None);
    assert_eq!(greeter.password, None);

    let conf = Conf::default();
    assert_eq!(conf.log_level, "info");
    assert_eq!(conf.ui, ui);
    assert_eq!(conf.greeter, greeter);
}

#[test]
fn configured_countdown_arms_the_engine() {
    let ui = UiConfig {
        countdown_end_time: Some(9_000),
        countdown_from: Some(5),
        countdown_end_login: true,
    };
    let cd = lightdm_contest_rs_greeter::countdown::CountDown::new(&ui);
    assert_eq!(cd.end_time, Some(9_000));
    assert_eq!(cd.from_seconds, Some(5));
    assert!(cd.end_login);
    assert!(!cd.triggered);
}

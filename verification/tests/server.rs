use son_of_anton::app_error::AppError;
use son_of_anton::tmp_light_api::server::{
    check_auth_token, check_password, login_reply, ngrok_domain, set_light_reply, LightAction,
    LogBook, Page, MAX_LOGS,
};
use son_of_anton::tools::zigbee::{Brightness, ColorTemp, Scene};

#[test]
fn log_keeps_last_twenty() {
    let mut book: LogBook<u32> = LogBook::new();
    assert!(book.get_logs().is_empty());
    for i in 0..25u32 {
        book.log(i, format!("message {}", i));
        let logs = book.get_logs();
        assert!(logs.len() <= MAX_LOGS);
        assert_eq!(logs.last().unwrap().0, i);
    }
    let logs = book.get_logs();
    assert_eq!(logs.len(), 20);
    assert_eq!(logs[0], (5, "message 5".to_string()));
    assert_eq!(logs[19], (24, "message 24".to_string()));
}

#[test]
fn log_below_capacity_keeps_everything() {
    let mut book: LogBook<u64> = LogBook::new();
    book.log(1, "a".to_string());
    book.log(2, "b".to_string());
    assert_eq!(book.get_logs(), vec![(1, "a".to_string()), (2, "b".to_string())]);
}

#[test]
fn right_password_is_let_in() {
    assert!(check_password("secret", "secret", Page::Control).is_ok());
    assert_eq!(login_reply(), (200, "Success"));
}

#[test]
fn wrong_password_is_refused_and_logged() {
    let cases = [
        (Page::Login, "Login failed: Incorrect password", "Nope"),
        (Page::Control, "Control page access failed: Incorrect password", "Nope"),
        (Page::Logs, "Logs page access failed: Incorrect password", "Nope"),
        (Page::LogsApi, "Logs API access failed: Incorrect password", "[]"),
        (Page::SetLight, "Set light failed: Incorrect password", "Nope"),
    ];
    for (page, log, body) in cases {
        match check_password("secret", "guess", page) {
            Err(r) => {
                assert_eq!(r.status, 401);
                assert_eq!(r.body, body);
                assert_eq!(r.log_message, log);
            }
            Ok(()) => panic!("wrong password let in"),
        }
    }
    assert!(check_password("secret", "", Page::Login).is_err());
    assert!(check_password("secret", "secret ", Page::Login).is_err());
}

#[test]
fn set_light_replies() {
    assert_eq!(set_light_reply(true), (200, "OK"));
    assert_eq!(set_light_reply(false), (200, "Controller action failed"));
}

#[test]
fn web_actions_play_scenes() {
    assert_eq!(LightAction::AllOff.scene(), Scene::AllOff);
    assert_eq!(LightAction::AllOn.scene(), Scene::AllOn(Brightness::Medium, ColorTemp::Warm));
    assert_eq!(LightAction::NightMode.scene(), Scene::Night);
    assert_eq!(LightAction::MovieMode.scene(), Scene::Movie);
    assert_eq!(LightAction::PartyMode.scene(), Scene::Party);
}

#[test]
fn tunnel_domain_without_scheme() {
    assert_eq!(ngrok_domain("https://son.ngrok.app"), "son.ngrok.app");
    assert_eq!(ngrok_domain("http://son.ngrok.app"), "son.ngrok.app");
    assert_eq!(ngrok_domain("son.ngrok.app"), "son.ngrok.app");
    let raw = "https://a.http://b";
    assert_eq!(ngrok_domain(raw), raw.replace("https://", "").replace("http://", ""));
}

#[test]
fn auth_token_checks() {
    match check_auth_token(None) {
        Err(AppError::Internal(m)) => assert!(m.starts_with("NGROK_AUTHTOKEN environment variable not set")),
        _ => panic!(),
    }
    for t in ["", "FILLIN"] {
        match check_auth_token(Some(t.to_string())) {
            Err(AppError::Internal(m)) => assert!(m.starts_with("NGROK_AUTHTOKEN is not configured")),
            _ => panic!(),
        }
    }
    match check_auth_token(Some("tok123".to_string())) {
        Ok(t) => assert_eq!(t, "tok123"),
        Err(_) => panic!(),
    }
}

#[test]
fn log_times_are_shown_in_utc() {
    let mut book: LogBook<i64> = LogBook::new();
    book.log(0, "epoch".to_string());
    book.log(1_700_000_000, "later".to_string());
    let shown = book.formatted();
    assert_eq!(
        shown,
        vec![
            ("1970-01-01 00:00:00 UTC".to_string(), "epoch".to_string()),
            ("2023-11-14 22:13:20 UTC".to_string(), "later".to_string()),
        ]
    );
}

#[test]
fn log_now_appends() {
    let mut book: LogBook<i64> = LogBook::new();
    book.log_now("first".to_string());
    let logs = book.get_logs();
    assert_eq!(logs.len(), 1);
    assert_eq!(logs[0].1, "first");
    assert!(logs[0].0 > 1_600_000_000);
    assert!(book.formatted()[0].0.ends_with(" UTC"));
}

use ubuild::config::{Config, NotifierConfig};
use ubuild::notify::{
    maybe_notify, new_notifier, notification_body, notifier_kind, notify_now, render_clock,
    Delivery, Notifier, NotifierError, NotifierKind, NotifierTarget, ServerChan, Telegram,
    TimeOfDay,
};

fn noon() -> TimeOfDay {
    TimeOfDay { hour: 12, minute: 34, second: 56 }
}

fn telegram(threshold: u64) -> Option<NotifierTarget> {
    Some(NotifierTarget::Telegram(Telegram {
        bot_token: "SECRET-REDACTED".to_string(),
        chat_id: -1001,
        elapsed_threshold: threshold,
    }))
}

fn serverchan() -> Option<NotifierTarget> {
    Some(NotifierTarget::ServerChan(ServerChan { send_key: "SCT123".to_string() }))
}

fn config(kind: &str) -> Config {
    Config {
        notifier: Some(NotifierConfig {
            kind: kind.to_string(),
            secret: "s3".to_string(),
            elapsed_threshold: 60,
            chat_id: 42,
        }),
        proxy: None,
        engine: None,
    }
}

#[test]
fn short_runs_are_not_reported_on_telegram() {
    assert!(maybe_notify(&telegram(60), 0, Some(30), &noon()).is_none());
    assert!(maybe_notify(&telegram(60), 0, Some(60), &noon()).is_some());
}

#[test]
fn success_goes_to_serverchan_once() {
    match maybe_notify(&serverchan(), 0, Some(1), &noon()) {
        Some(Delivery::FormPost { url, body }) => {
            assert_eq!(url, "https://sctapi.ftqq.com/SCT123.send");
            assert_eq!(body, "text=ubuild&desp=completed%21%0A12%3A34%3A56");
        }
        _ => panic!("expected one form post"),
    }
}

#[test]
fn failure_message_names_the_code() {
    assert_eq!(notification_body(137, &noon()), "exited with non-zero code 137!\n12:34:56");
    match maybe_notify(&telegram(0), 137, None, &noon()) {
        Some(Delivery::ChatMessage { chat_id, text }) => {
            assert_eq!(chat_id, -1001);
            assert_eq!(text, "ubuild: exited with non-zero code 137!\n12:34:56");
        }
        _ => panic!("expected one chat message"),
    }
}

#[test]
fn success_message_and_clock() {
    assert_eq!(notification_body(0, &noon()), "completed!\n12:34:56");
    assert_eq!(render_clock(&TimeOfDay { hour: 3, minute: 4, second: 5 }), "03:04:05");
}

#[test]
fn nothing_to_report_without_a_notifier() {
    assert!(maybe_notify(&None, 1, None, &noon()).is_none());
    assert!(matches!(new_notifier(&Config::default()), Ok(None)));
}

#[test]
fn notifier_kind_is_chosen_in_any_case() {
    match new_notifier(&config("TeleGram")) {
        Ok(Some(NotifierTarget::Telegram(t))) => {
            assert_eq!(t.bot_token, "s3");
            assert_eq!(t.chat_id, 42);
            assert_eq!(t.elapsed_threshold, 60);
        }
        _ => panic!("expected telegram"),
    }
    match new_notifier(&config("SERVERCHAN")) {
        Ok(Some(NotifierTarget::ServerChan(s))) => assert_eq!(s.send_key, "s3"),
        _ => panic!("expected serverchan"),
    }
    assert!(matches!(new_notifier(&config("mail")), Err(NotifierError::UnknownNotifierKind)));
    assert_eq!(notifier_kind("telegram"), Some(NotifierKind::Telegram));
    assert_eq!(notifier_kind("Telegram"), None);
}

#[test]
fn backends_need_a_notifier_section() {
    assert!(matches!(ServerChan::new_notifer(&Config::default()), Err(NotifierError::NoNotifierConfig)));
    assert!(matches!(Telegram::new_notifier(&Config::default()), Err(NotifierError::NoNotifierConfig)));
}

#[test]
fn serverchan_always_sends_and_telegram_gates() {
    let s = ServerChan { send_key: "k".to_string() };
    assert!(s.should_send(0));
    let t = Telegram { bot_token: "t".to_string(), chat_id: 1, elapsed_threshold: 10 };
    assert!(!t.should_send(9));
    assert!(t.should_send(10));
}

#[test]
fn reporting_now_uses_the_clock() {
    match notify_now(&telegram(0), 0, None) {
        Some(Delivery::ChatMessage { text, .. }) => {
            let clock = text.strip_prefix("ubuild: completed!\n").expect("message prefix");
            let parts: Vec<&str> = clock.split(':').collect();
            assert_eq!(parts.len(), 3);
            assert!(parts.iter().all(|p| p.len() == 2 && p.chars().all(|c| c.is_ascii_digit())));
            assert!(parts[0].parse::<u32>().unwrap() < 24);
        }
        _ => panic!("expected one chat message"),
    }
}

#[test]
fn serverchan_is_never_gated() {
    for elapsed in [None, Some(0), Some(5)] {
        match maybe_notify(&serverchan(), 137, elapsed, &noon()) {
            Some(Delivery::FormPost { url, body }) => {
                assert_eq!(url, "https://sctapi.ftqq.com/SCT123.send");
                assert_eq!(
                    body,
                    "text=ubuild&desp=exited+with+non-zero+code+137%21%0A12%3A34%3A56"
                );
            }
            _ => panic!("expected one form post"),
        }
    }
}

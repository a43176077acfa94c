use git_helper::config::{ChannelConfig, NotifierConfig};
use git_helper::notifier::{
    escape_markdown, format_notification, is_known_kind, notification_title, telegram_send_url, telegram_text,
    truncate_chars, wecom_content, whatsapp_text, ChannelSpec, Notification, NotifierDispatcher, NotifierError,
};

fn channel(name: &str, kind: &str, enabled: bool) -> ChannelConfig {
    ChannelConfig {
        name: name.to_string(),
        kind: kind.to_string(),
        enabled,
        webhook_url: None,
        bot_token: None,
        chat_id: None,
        api_url: None,
        access_token: None,
        recipient: None,
    }
}

fn notification(status: &str, summary: &str) -> Notification {
    Notification {
        task_name: "daily-review".to_string(),
        task_type: "git_review".to_string(),
        repo_name: Some("my-backend".to_string()),
        status: status.to_string(),
        summary: summary.to_string(),
        report_path: None,
        duration_secs: 42,
    }
}

#[test]
fn enabled_channels_of_known_kinds_are_built_in_order() {
    let mut wecom = channel("team", "wecom", true);
    wecom.webhook_url = Some("https://example.com/hook".to_string());
    let mut telegram = channel("tg", "telegram", false);
    telegram.bot_token = Some("t".to_string());
    let unknown = channel("mail", "email", true);
    let mut whatsapp = channel("wa", "whatsapp", true);
    whatsapp.api_url = Some("https://graph.example.com".to_string());
    whatsapp.access_token = Some("EAAG".to_string());
    whatsapp.recipient = Some("861380".to_string());
    let config = NotifierConfig { channels: vec![wecom, telegram, unknown, whatsapp] };

    let dispatcher = NotifierDispatcher::from_config(&config).unwrap();
    assert!(dispatcher.is_enabled());
    assert_eq!(
        dispatcher.channel_list(),
        &vec![
            ChannelSpec::Wecom { name: "team".to_string(), webhook_url: "https://example.com/hook".to_string() },
            ChannelSpec::WhatsApp {
                name: "wa".to_string(),
                api_url: "https://graph.example.com".to_string(),
                access_token: "EAAG".to_string(),
                recipient: "861380".to_string(),
            },
        ]
    );
}

#[test]
fn missing_field_names_channel_and_field() {
    let mut telegram = channel("tg", "telegram", true);
    telegram.bot_token = Some("t".to_string());
    let config = NotifierConfig { channels: vec![telegram] };
    let err = NotifierDispatcher::from_config(&config).unwrap_err();
    assert_eq!(err, NotifierError { channel: "tg".to_string(), field: "chat_id".to_string() });
    assert_eq!(err.message(), "notifier channel tg requires chat_id");
}

#[test]
fn no_channels_means_disabled() {
    let config = NotifierConfig { channels: vec![channel("off", "wecom", false)] };
    let dispatcher = NotifierDispatcher::from_config(&config).unwrap();
    assert!(!dispatcher.is_enabled());
    assert!(!NotifierDispatcher::empty().is_enabled());
    assert!(is_known_kind("telegram"));
    assert!(!is_known_kind("Telegram"));
}

#[test]
fn title_marks_done_and_failed() {
    assert_eq!(notification_title(&notification("done", "s")), "[OK] daily-review (git_review)");
    assert_eq!(notification_title(&notification("failed", "s")), "[FAIL] daily-review (git_review)");
}

#[test]
fn body_lists_fields_with_dashes_for_missing_ones() {
    let n = notification("done", "all good");
    assert_eq!(
        format_notification(&n, false),
        "仓库: my-backend\n状态: done\n耗时: 42s\n报告: -\n\n摘要:\nall good"
    );
    assert_eq!(
        format_notification(&n, true),
        "仓库: my-backend\n\n状态: done\n\n耗时: 42s\n\n报告: -\n\n\n\n摘要:\n\nall good"
    );
}

#[test]
fn summary_is_cut_to_1500_characters() {
    let long = "字".repeat(1600);
    let body = format_notification(&notification("done", &long), false);
    assert!(body.ends_with(&"字".repeat(1500)));
    assert!(!body.ends_with(&"字".repeat(1501)));
    assert_eq!(truncate_chars("héllo", 2), "hé");
    assert_eq!(truncate_chars("abc", 5), "abc");
}

#[test]
fn markdown_specials_are_escaped() {
    assert_eq!(escape_markdown("a_b*c [x](y) 1.5!"), "a\\_b\\*c \\[x\\]\\(y\\) 1\\.5\\!");
    assert_eq!(escape_markdown("plain"), "plain");
}

#[test]
fn channel_texts() {
    let n = notification("done", "ok");
    assert_eq!(telegram_send_url("123:ABC"), "https://api.telegram.org/bot123:ABC/sendMessage");
    assert!(wecom_content(&n).starts_with("**[OK] daily-review (git_review)**\n\n仓库: my-backend\n"));
    assert!(whatsapp_text(&n).starts_with("[OK] daily-review (git_review)\n仓库: my-backend\n"));
    assert!(telegram_text(&n).starts_with("\\[OK\\] daily\\-review \\(git\\_review\\)\n"));
}

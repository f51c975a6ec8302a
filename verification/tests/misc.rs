use livelog::config::get_db_path;
use livelog::endpoints::{ingest_reply, IngestOutcome};
use livelog::payloads::{MessagePayload, Payload, PayloadData, SourceData, SpacerPayload};
use livelog::sql::Arg;
use livelog::tray::{configure_tray, tray_action, window_action, TrayAction, TrayEntry, TrayEvent, WindowAction, WindowEvent};

#[test]
fn database_url_wins_over_home() {
    assert_eq!(get_db_path(true, Some("sqlite://x.db".to_string()), Some("/home/u".to_string())), "sqlite://x.db");
    assert_eq!(get_db_path(true, Some("a".to_string()), None), "a");
    assert_eq!(get_db_path(true, None, Some("/home/u".to_string())), "/home/u/.config/livelog/logs.sqlite");
    assert_eq!(
        get_db_path(false, Some("sqlite://x.db".to_string()), Some("/home/u".to_string())),
        "/home/u/.config/livelog/logs.sqlite"
    );
}

#[test]
fn tray_menu_and_actions() {
    let menu = configure_tray();
    assert_eq!(menu.len(), 4);
    assert_eq!(menu[2], TrayEntry::Separator);
    for entry in &menu {
        if let TrayEntry::Item { id, title } = entry {
            let a = tray_action(&TrayEvent::MenuItemClick(id.clone()));
            let expected = match title.as_str() {
                "Show" => TrayAction::Show,
                "Hide" => TrayAction::Hide,
                "Quit" => TrayAction::Quit,
                _ => TrayAction::Nothing,
            };
            assert_eq!(a, expected);
            assert_ne!(a, TrayAction::Nothing);
        }
    }
    assert_eq!(menu[0], TrayEntry::Item { id: "show".to_string(), title: "Show".to_string() });
    assert_eq!(menu[3], TrayEntry::Item { id: "quit".to_string(), title: "Quit".to_string() });
    assert_eq!(tray_action(&TrayEvent::DoubleClick), TrayAction::Show);
    assert_eq!(tray_action(&TrayEvent::MenuItemClick("other".to_string())), TrayAction::Nothing);
    assert_eq!(tray_action(&TrayEvent::Other), TrayAction::Nothing);
}

#[test]
fn closing_the_window_hides_it() {
    assert_eq!(window_action(&WindowEvent::CloseRequested), WindowAction::HideInsteadOfClosing);
    assert_eq!(window_action(&WindowEvent::Other), WindowAction::Nothing);
}

#[test]
fn ingest_replies() {
    assert_eq!(ingest_reply(IngestOutcome::Malformed("bad json".to_string())), "bad json");
    assert_eq!(ingest_reply(IngestOutcome::Undelivered("closed".to_string())), "closed");
    assert_eq!(ingest_reply(IngestOutcome::Delivered), "");
}

#[test]
fn insert_binds_columns_in_order() {
    let p = Payload {
        date: "2024-01-01T00:00:00Z".to_string(),
        payload_data: PayloadData::Message(MessagePayload { message: "hi".to_string() }),
        source: Some(SourceData { file: "main.rs".to_string(), line: 3 }),
        color: None,
        level: Some("info".to_string()),
        extras: None,
    };
    let q = p.insert_query("{\"type\":\"Message\",\"message\":\"hi\"}".to_string(), "{\"file\":\"main.rs\",\"line\":3}".to_string());
    assert_eq!(q.sql, "INSERT INTO logs (data, source, level, color) VALUES (?, ?, ?, ?)");
    assert_eq!(
        q.args,
        vec![
            Arg::Json("{\"type\":\"Message\",\"message\":\"hi\"}".to_string()),
            Arg::Json("{\"file\":\"main.rs\",\"line\":3}".to_string()),
            Arg::Text("info".to_string()),
            Arg::Null,
        ]
    );
    let spacer = PayloadData::Spacer;
    let _ = SpacerPayload {};
    assert!(matches!(spacer, PayloadData::Spacer));
}

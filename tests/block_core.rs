use blockcore::api::{
    connection_outcome, ApiError, BlockEvent, ClickEvent, CmdBuf, Command, CommonApi, MouseButton,
    Request, SharedConfig, State,
};
use blockcore::config::{extract_common, CommonConfig, ConfigError, ConfigValue, Scalar};
use blockcore::kinds::{in_block, parse_block_type, BlockType, KindError, KIND_COUNT};
use blockcore::recovery::{Recovery, RecoveryAction};

fn api_with_icons(icons: Vec<(String, String)>) -> CommonApi {
    let (request_sender, _requests) = tokio::sync::mpsc::channel::<Request>(8);
    let (_events, event_receiver) = tokio::sync::mpsc::channel::<BlockEvent>(8);
    CommonApi {
        id: 7,
        shared_config: SharedConfig { icons },
        event_receiver,
        request_sender,
        cmd_buf: CmdBuf::new(),
        error_interval: 5000,
        error_format: None,
    }
}

fn text_of(c: &Command) -> String {
    match c {
        Command::SetText(t) => t.clone(),
        _ => panic!("not a text command"),
    }
}

fn left_click() -> Option<BlockEvent> {
    Some(BlockEvent::Click(ClickEvent { button: MouseButton::Left }))
}

#[test]
fn every_compiled_kind_parses_by_name() {
    for i in 0..KIND_COUNT {
        let k = BlockType::from_index(i);
        assert_eq!(parse_block_type(k.name()), Ok(k));
    }
    assert_eq!(parse_block_type("disk_space"), Ok(BlockType::disk_space));
    assert_eq!(parse_block_type("pomodoro"), Ok(BlockType::pomodoro));
}

#[test]
fn excluded_kinds_are_disabled() {
    assert_eq!(parse_block_type("maildir"), Err(KindError::Disabled("maildir".to_string())));
    assert_eq!(parse_block_type("notmuch"), Err(KindError::Disabled("notmuch".to_string())));
}

#[test]
fn other_names_are_unknown() {
    assert_eq!(parse_block_type("nope"), Err(KindError::Unknown("nope".to_string())));
    assert_eq!(parse_block_type(""), Err(KindError::Unknown(String::new())));
    assert_eq!(parse_block_type("Time"), Err(KindError::Unknown("Time".to_string())));
    assert_eq!(parse_block_type("time "), Err(KindError::Unknown("time ".to_string())));
}

#[test]
fn failure_is_attributed_to_its_block() {
    let f = in_block("boom", BlockType::cpu, 3);
    assert_eq!(f.kind, BlockType::cpu);
    assert_eq!(f.block_id, 3);
    assert_eq!(f.cause, "boom");
}

#[test]
fn flush_carries_calls_in_order() {
    let mut api = api_with_icons(Vec::new());
    api.show();
    api.set_state(State::Warning);
    api.set_text("a".to_string());
    api.hide_block();
    let req = api.take_request();
    assert_eq!(req.block_id, 7);
    let cmds = req.cmds.into_vec();
    assert_eq!(cmds.len(), 4);
    assert!(matches!(cmds[0], Command::Show));
    assert!(matches!(cmds[1], Command::SetState(State::Warning)));
    assert_eq!(text_of(&cmds[2]), "a");
    assert!(matches!(cmds[3], Command::Hide));
    assert!(api.cmd_buf.is_empty());
}

#[test]
fn empty_flush_sends_empty_request() {
    let mut api = api_with_icons(Vec::new());
    let req = api.take_request();
    assert_eq!(req.block_id, 7);
    assert!(req.cmds.is_empty());
    assert!(req.cmds.into_vec().is_empty());
}

#[test]
fn commands_after_flush_start_go_to_next_request() {
    let mut api = api_with_icons(Vec::new());
    api.preserve();
    let first = api.take_request();
    api.restore();
    api.set_full_screen(true);
    let first = first.cmds.into_vec();
    assert_eq!(first.len(), 1);
    assert!(matches!(first[0], Command::Preserve));
    let second = api.take_request().cmds.into_vec();
    assert_eq!(second.len(), 2);
    assert!(matches!(second[0], Command::Restore));
    assert!(matches!(second[1], Command::SetFullScreen(true)));
}

#[test]
fn empty_icon_clears_without_lookup() {
    let mut api = api_with_icons(Vec::new());
    assert_eq!(api.set_icon(""), Ok(()));
    let cmds = api.take_request().cmds.into_vec();
    assert_eq!(cmds.len(), 1);
    assert!(matches!(&cmds[0], Command::SetIcon(s) if s.is_empty()));
}

#[test]
fn unknown_icon_fails_and_buffers_nothing() {
    let mut api = api_with_icons(vec![("cpu".to_string(), "C".to_string())]);
    assert_eq!(
        api.set_icon("unregistered-name"),
        Err(ApiError::IconNotFound("unregistered-name".to_string()))
    );
    assert!(api.cmd_buf.is_empty());
}

#[test]
fn known_icon_is_resolved() {
    let mut api = api_with_icons(vec![
        ("cpu".to_string(), "C".to_string()),
        ("disk_drive".to_string(), "D".to_string()),
        ("disk_drive".to_string(), "second".to_string()),
    ]);
    assert_eq!(api.set_icon("disk_drive"), Ok(()));
    let cmds = api.take_request().cmds.into_vec();
    assert!(matches!(&cmds[0], Command::SetIcon(s) if s == "D"));
    assert_eq!(api.get_icon("cpu"), Ok("C".to_string()));
}

#[test]
fn connection_request_is_flushed_at_once() {
    let mut api = api_with_icons(Vec::new());
    api.show();
    let (reply, _answer) = tokio::sync::oneshot::channel();
    let req = api.request_connection(reply).cmds.into_vec();
    assert_eq!(req.len(), 2);
    assert!(matches!(req[1], Command::GetDbusConnection(_)));
    assert!(api.cmd_buf.is_empty());
    let (reply, _answer) = tokio::sync::oneshot::channel();
    let req = api.request_system_connection(reply).cmds.into_vec();
    assert_eq!(req.len(), 1);
    assert!(matches!(req[0], Command::GetSystemDbusConnection(_)));
}

#[test]
fn closed_reply_channel_fails_connection() {
    assert!(matches!(connection_outcome(None), Err(ApiError::ConnectionFailed)));
    assert!(matches!(
        connection_outcome(Some(Err(ApiError::RequestSendFailed))),
        Err(ApiError::RequestSendFailed)
    ));
}

#[test]
fn two_failures_then_success() {
    let mut api = api_with_icons(Vec::new());
    let mut rec = Recovery::new();
    let mut seen: Vec<Command> = Vec::new();

    api.on_failure(&mut rec, 0);
    api.draw_degraded(&rec, "disk gone".to_string(), "Error".to_string());
    seen.extend(api.take_request().cmds.into_vec());
    assert_eq!(rec.on_wake(5000, None), RecoveryAction::Retry);

    api.on_failure(&mut rec, 5000);
    api.draw_degraded(&rec, "disk gone".to_string(), "Error".to_string());
    seen.extend(api.take_request().cmds.into_vec());
    assert_eq!(rec.on_wake(10000, None), RecoveryAction::Retry);

    api.on_success(&rec);
    seen.extend(api.take_request().cmds.into_vec());

    assert_eq!(seen.len(), 11);
    assert!(matches!(seen[0], Command::Preserve));
    for k in 0..2 {
        assert!(matches!(seen[1 + 4 * k], Command::SetState(State::Critical)));
        assert!(matches!(seen[2 + 4 * k], Command::Show));
        assert_eq!(text_of(&seen[3 + 4 * k]), "Error");
        assert!(matches!(seen[4 + 4 * k], Command::SetFullScreen(false)));
    }
    assert!(matches!(seen[9], Command::SetFullScreen(false)));
    assert!(matches!(seen[10], Command::Restore));
    let preserves = seen.iter().filter(|c| matches!(c, Command::Preserve)).count();
    assert_eq!(preserves, 1);
}

#[test]
fn first_attempt_success_buffers_nothing() {
    let mut api = api_with_icons(Vec::new());
    let rec = Recovery::new();
    api.on_success(&rec);
    assert!(api.cmd_buf.is_empty());
}

#[test]
fn left_click_toggles_full_screen_and_keeps_deadline() {
    let mut api = api_with_icons(Vec::new());
    let mut rec = Recovery::new();
    api.on_failure(&mut rec, 1000);
    assert_eq!(rec.retry_at, 6000);
    api.take_request();

    assert_eq!(rec.on_wake(2000, left_click()), RecoveryAction::Redraw);
    assert!(rec.focused);
    assert_eq!(rec.retry_at, 6000);
    api.draw_degraded(&rec, "raw failure".to_string(), "Error".to_string());
    let req = api.take_request().cmds.into_vec();
    assert_eq!(text_of(&req[0]), "raw failure");
    assert!(matches!(req[1], Command::SetFullScreen(true)));

    assert_eq!(rec.on_wake(5999, None), RecoveryAction::Wait);
    assert_eq!(rec.on_wake(6000, left_click()), RecoveryAction::Retry);
    assert!(rec.focused);
}

#[test]
fn other_events_are_ignored_while_degraded() {
    let mut rec = Recovery::new();
    rec.retry_at = 100;
    let right = Some(BlockEvent::Click(ClickEvent { button: MouseButton::Right }));
    assert_eq!(rec.on_wake(10, right), RecoveryAction::Wait);
    assert_eq!(rec.on_wake(10, Some(BlockEvent::UpdateRequest)), RecoveryAction::Wait);
    assert!(!rec.focused);
    assert_eq!(rec.retry_at, 100);
}

#[test]
fn error_format_replaces_message() {
    let mut api = api_with_icons(Vec::new());
    api.error_format = Some("X".to_string());
    let rec = Recovery::new();
    api.draw_degraded(&rec, "raw".to_string(), "msg".to_string());
    assert_eq!(text_of(&api.take_request().cmds.into_vec()[0]), "X");
}

fn s(v: &str) -> ConfigValue {
    ConfigValue::Scalar(Scalar::Str(v.to_string()))
}

fn n(v: i64) -> ConfigValue {
    ConfigValue::Scalar(Scalar::Integer(v))
}

#[test]
fn extract_moves_only_shared_fields() {
    let mut doc: Vec<(String, ConfigValue)> = vec![
        ("block".to_string(), s("time")),
        ("format".to_string(), s(" $icon ")),
        ("error_interval".to_string(), n(10)),
        ("interval".to_string(), n(20)),
    ];
    let common = extract_common(&mut doc);
    assert_eq!(doc, vec![("format".to_string(), s(" $icon ")), ("interval".to_string(), n(20))]);
    assert_eq!(common.len(), 2);
    let cfg = CommonConfig::from_fields(&common).unwrap();
    assert_eq!(cfg.block, BlockType::time);
    assert_eq!(cfg.error_interval, 10);
    assert_eq!(cfg.signal, None);
    assert_eq!(cfg.error_format, None);
    assert_eq!(cfg.click_rules, 0);
}

#[test]
fn shared_field_defaults() {
    let cfg = CommonConfig::from_fields(&vec![("block".to_string(), s("cpu"))]).unwrap();
    assert_eq!(cfg.error_interval, 5);
    assert_eq!(cfg.icons_format, None);
    assert_eq!(cfg.theme_overrides, None);
}

#[test]
fn shared_fields_are_read() {
    let fields = vec![
        ("block".to_string(), s("pomodoro")),
        ("signal".to_string(), n(4)),
        ("icons_format".to_string(), s("{icon}")),
        ("error_format".to_string(), s("oops")),
        ("click".to_string(), ConfigValue::Array(vec![Scalar::Other, Scalar::Other])),
        (
            "theme_overrides".to_string(),
            ConfigValue::Table(vec![("idle_bg".to_string(), Scalar::Str("#000".to_string()))]),
        ),
    ];
    let cfg = CommonConfig::from_fields(&fields).unwrap();
    assert_eq!(cfg.block, BlockType::pomodoro);
    assert_eq!(cfg.signal, Some(4));
    assert_eq!(cfg.icons_format, Some("{icon}".to_string()));
    assert_eq!(cfg.error_format, Some("oops".to_string()));
    assert_eq!(cfg.click_rules, 2);
    assert_eq!(cfg.theme_overrides, Some(vec![("idle_bg".to_string(), "#000".to_string())]));
}

#[test]
fn shared_field_errors() {
    assert_eq!(CommonConfig::from_fields(&Vec::new()), Err(ConfigError::MissingBlock));
    assert_eq!(
        CommonConfig::from_fields(&vec![("block".to_string(), n(1))]),
        Err(ConfigError::Field("block".to_string()))
    );
    assert_eq!(
        CommonConfig::from_fields(&vec![("block".to_string(), s("maildir"))]),
        Err(ConfigError::Kind(KindError::Disabled("maildir".to_string())))
    );
    assert_eq!(
        CommonConfig::from_fields(&vec![("block".to_string(), s("cpu")), ("signal".to_string(), s("x"))]),
        Err(ConfigError::Field("signal".to_string()))
    );
    assert_eq!(
        CommonConfig::from_fields(&vec![("block".to_string(), s("cpu")), ("signal".to_string(), n(1 << 40))]),
        Err(ConfigError::Field("signal".to_string()))
    );
    assert_eq!(
        CommonConfig::from_fields(&vec![("block".to_string(), s("cpu")), ("error_interval".to_string(), n(-1))]),
        Err(ConfigError::Field("error_interval".to_string()))
    );
    let bad_theme = ConfigValue::Table(vec![("a".to_string(), Scalar::Integer(1))]);
    assert_eq!(
        CommonConfig::from_fields(&vec![("block".to_string(), s("cpu")), ("theme_overrides".to_string(), bad_theme)]),
        Err(ConfigError::Field("theme_overrides".to_string()))
    );
}

#[test]
fn command_fits_buffer_growth_bound() {
    assert!(std::mem::size_of::<Command>() < 256);
}

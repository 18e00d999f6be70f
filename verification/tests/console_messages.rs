use titanhost::console::{
    console_filter_matches, console_line_color, format_server_command, freeze_template, get_motd_text,
    is_mc_command, is_pre_flattening, is_world_event,
};
use titanhost::messages::{
    finish_kind, format_server_online, parse_launcher_message, parse_server_online, strip_prefix,
    FinishKind, LauncherMessage, ZeroTierReply,
};
use titanhost::models::{ConsoleFilter, MotdDescription};

#[test]
fn world_events() {
    assert!(is_world_event("[12:00] <Steve> hi"));
    assert!(is_world_event("Steve JOINED the game"));
    assert!(is_world_event("Steve left the game"));
    assert!(is_world_event("Стив присоединился к игре"));
    assert!(is_world_event("[Server] restarting"));
    assert!(is_world_event("Alex has made the advancement [Stone Age]"));
    assert!(is_world_event("Alex issued server command: /tp"));
    assert!(!is_world_event("Preparing spawn area: 50%"));
    assert!(!is_world_event("a < b"));
}

#[test]
fn console_commands() {
    assert_eq!(format_server_command("  /time set day  "), "time set day");
    assert_eq!(format_server_command("/ op Steve"), "op Steve");
    assert_eq!(format_server_command("OP Steve"), "OP Steve");
    assert_eq!(format_server_command("hello all"), "say hello all");
    assert_eq!(format_server_command("   "), "");
    assert_eq!(format_server_command("say hi"), "say hi");
    assert!(is_mc_command("gamemode"));
    assert!(!is_mc_command("hello"));
}

#[test]
fn console_filters_and_colors() {
    assert!(console_filter_matches(ConsoleFilter::All, "anything"));
    assert!(console_filter_matches(ConsoleFilter::Info, "Done (3.2s)!"));
    assert!(!console_filter_matches(ConsoleFilter::Info, "[WARN] slow"));
    assert!(console_filter_matches(ConsoleFilter::Warn, "[WARN] slow"));
    assert!(console_filter_matches(ConsoleFilter::Error, "java.lang.NullPointerException"));
    assert!(console_filter_matches(ConsoleFilter::Events, "<Steve> hi"));
    assert!(!console_filter_matches(ConsoleFilter::Events, "Done"));
    assert_eq!(console_line_color("[ERROR] boom"), (255, 120, 120));
    assert_eq!(console_line_color("[WARN] slow"), (250, 210, 100));
    assert_eq!(console_line_color("Steve joined the game"), (120, 240, 120));
    assert_eq!(console_line_color("[ВВОД] list"), (120, 200, 255));
    assert_eq!(console_line_color("Done"), (210, 210, 210));
}

#[test]
fn flattening_versions() {
    assert!(is_pre_flattening("1.12.2"));
    assert!(is_pre_flattening("1.7.10"));
    assert!(!is_pre_flattening("1.13"));
    assert!(!is_pre_flattening("1.20.1"));
    assert!(!is_pre_flattening("release"));
    assert_eq!(freeze_template("1.12.2", true), "effect <Игрок> slowness 99999 255 true");
    assert_eq!(freeze_template("1.20.1", true), "effect give <Игрок> minecraft:slowness 99999 255 true");
    assert_eq!(freeze_template("1.7.10", false), "effect <Игрок> clear");
    assert_eq!(freeze_template("1.16.5", false), "effect clear <Игрок> minecraft:slowness");
}

#[test]
fn motd_texts() {
    assert_eq!(get_motd_text(&MotdDescription::Text("Hi".to_string())), "Hi");
    let d = MotdDescription::Object {
        text: Some("A".to_string()),
        extra: Some(vec![Some("B".to_string()), None, Some("C".to_string())]),
    };
    assert_eq!(get_motd_text(&d), "ABC");
    let d = MotdDescription::Object { text: None, extra: Some(vec![Some("B".to_string())]) };
    assert_eq!(get_motd_text(&d), "Minecraft Server");
    assert_eq!(get_motd_text(&MotdDescription::Other), "Minecraft Server");
}

#[test]
fn online_report_roundtrip() {
    let text = format_server_online(12, 3, 20, "A|B");
    assert_eq!(text, "SERVER_ONLINE|12|3|20|A|B");
    let msg = parse_launcher_message(&text);
    match msg {
        LauncherMessage::ServerOnline(Some(s)) => {
            assert!(s.is_online);
            assert_eq!(s.ping_ms, 12);
            assert_eq!(s.players_online, 3);
            assert_eq!(s.players_max, 20);
            assert_eq!(s.motd, "A|B");
        }
        other => panic!("unexpected {:?}", other),
    }
}

#[test]
fn online_report_fields() {
    let s = parse_server_online("x|y|20|motd").expect("four fields");
    assert_eq!(s.ping_ms, 0);
    assert_eq!(s.players_online, 0);
    assert_eq!(s.players_max, 20);
    assert!(parse_server_online("1|2|3").is_none());
}

#[test]
fn launcher_messages() {
    match parse_launcher_message("LOG: hello") {
        LauncherMessage::Log(s) => assert_eq!(s, "hello"),
        other => panic!("unexpected {:?}", other),
    }
    match parse_launcher_message("STATUS: Загрузка") {
        LauncherMessage::Status(s) => assert_eq!(s, "Загрузка"),
        other => panic!("unexpected {:?}", other),
    }
    match parse_launcher_message("UPDATE_MODS:[]") {
        LauncherMessage::UpdateMods(s) => assert_eq!(s, "[]"),
        other => panic!("unexpected {:?}", other),
    }
    assert!(matches!(
        parse_launcher_message("FINISH_PLUGINS_ERROR"),
        LauncherMessage::Finish(FinishKind::PluginsError)
    ));
    assert!(matches!(parse_launcher_message("SERVER_OFFLINE"), LauncherMessage::ServerOffline));
    match parse_launcher_message("ZEROTIER_STATUS|OK|{}") {
        LauncherMessage::ZeroTierStatus(ZeroTierReply::Reply(j)) => assert_eq!(j, "{}"),
        other => panic!("unexpected {:?}", other),
    }
    match parse_launcher_message("ZEROTIER_NETWORKS|ERR|down") {
        LauncherMessage::ZeroTierNetworks(ZeroTierReply::Failure(e)) => assert_eq!(e, "down"),
        other => panic!("unexpected {:?}", other),
    }
    assert!(matches!(parse_launcher_message("ZEROTIER_NO_TOKEN"), LauncherMessage::ZeroTierNoToken));
    assert!(matches!(parse_launcher_message("ZEROTIER_DISABLED"), LauncherMessage::ZeroTierDisabled));
    assert!(matches!(parse_launcher_message("SERVER_ONLINE|1|2"), LauncherMessage::ServerOnline(None)));
    assert!(matches!(parse_launcher_message("nonsense"), LauncherMessage::Unknown));
}

#[test]
fn finish_tokens() {
    assert_eq!(finish_kind("FINISH_SUCCESS"), Some(FinishKind::ModsSuccess));
    assert_eq!(finish_kind("FINISH_SERVER_CORE_ERROR"), Some(FinishKind::ServerCoreError));
    assert_eq!(finish_kind("FINISH"), None);
    assert_eq!(strip_prefix("LOG: x", "LOG: "), Some("x".to_string()));
    assert_eq!(strip_prefix("LOG x", "LOG: "), None);
}

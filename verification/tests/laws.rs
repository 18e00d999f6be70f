use titanhost::console::format_server_command;
use titanhost::settings::{set_server_ip, set_server_port_text};
use titanhost::downloader::{
    file_status_precheck, file_status_with_digest, tally_libraries, FileCheck, FileStatus,
};
use titanhost::messages::{finish_kind, parse_launcher_message, FinishKind, LauncherMessage};
use titanhost::modding::{
    add_entry_from_url, remove_entry, toggle_entry_enabled, toggle_entry_update, AddOutcome,
};
use titanhost::models::{LauncherConfig, ModConfig};
use titanhost::sync::{
    merge_local_files, sync_dir, sync_end_messages, sync_finish_token, sync_update_prefix, SyncKind,
};

fn entry(url: &str, file: &str, update: bool, enabled: bool) -> ModConfig {
    ModConfig {
        url: url.to_string(),
        filename: file.to_string(),
        allow_update: update,
        sha256: None,
        enabled,
    }
}

fn names_distinct(list: &[ModConfig]) -> bool {
    for i in 0..list.len() {
        for j in 0..list.len() {
            if i != j && list[i].filename == list[j].filename {
                return false;
            }
        }
    }
    true
}

#[test]
fn formatting_twice_changes_nothing() {
    for input in ["hello all", "OP Steve", "  list  ", "say hi", "", "   ", "tp Alex 0 64 0", "привет"] {
        let once = format_server_command(input);
        assert_eq!(format_server_command(&once), once);
    }
    assert_eq!(format_server_command("LIST"), "LIST");
    assert_eq!(format_server_command("Say hi"), "Say hi");
    assert_eq!(format_server_command("SAY"), "SAY");
}

#[test]
fn formatting_a_slash_command_twice_can_differ() {
    let once = format_server_command("//op Steve");
    assert_eq!(once, "/op Steve");
    assert_eq!(format_server_command(&once), "op Steve");
}

#[test]
fn digest_is_kept_with_the_size() {
    let expected = Some("abc".to_string());
    let (status, entry) = file_status_with_digest(10, None, Some("abc"), &expected);
    assert!(matches!(status, FileStatus::Ready));
    assert_eq!(entry, Some((10, "abc".to_string())));
    let (status, entry) = file_status_with_digest(12, Some((10, "abc".to_string())), Some("abd"), &expected);
    assert!(matches!(status, FileStatus::Changed));
    assert_eq!(entry, Some((12, "abd".to_string())));
    let (status, entry) = file_status_with_digest(12, Some((10, "abc".to_string())), None, &expected);
    assert!(matches!(status, FileStatus::ReadError));
    assert_eq!(entry, Some((10, "abc".to_string())));
    let (status, entry) = file_status_with_digest(3, None, Some("0123456789"), &None);
    match status {
        FileStatus::Installed(p) => assert_eq!(p, "01234567"),
        _ => panic!("expected an installed status"),
    }
    assert_eq!(entry, Some((3, "0123456789".to_string())));
}

#[test]
fn kept_digest_is_reused_while_the_size_stays() {
    let expected = Some("abc".to_string());
    let (_, entry) = file_status_with_digest(10, None, Some("abc"), &expected);
    let (n, h) = entry.unwrap();
    assert!(matches!(
        file_status_precheck(true, true, Some(10), Some((n, h.as_str())), &expected),
        FileCheck::Done(FileStatus::Ready)
    ));
    assert!(matches!(
        file_status_precheck(true, true, Some(11), Some((n, h.as_str())), &expected),
        FileCheck::NeedHash
    ));
}

#[test]
fn plugin_sync_mirrors_mod_sync() {
    assert_eq!(sync_dir(SyncKind::Mods), "./run/mods");
    assert_eq!(sync_dir(SyncKind::Plugins), "./run/plugins");
    assert_eq!(sync_update_prefix(SyncKind::Mods), "UPDATE_MODS:");
    assert_eq!(sync_update_prefix(SyncKind::Plugins), "UPDATE_PLUGINS:");
    let payload = "[{\"filename\":\"a.jar\"}]";
    match parse_launcher_message(&format!("{}{}", sync_update_prefix(SyncKind::Mods), payload)) {
        LauncherMessage::UpdateMods(x) => assert_eq!(x, payload),
        _ => panic!("expected a mods update"),
    }
    match parse_launcher_message(&format!("{}{}", sync_update_prefix(SyncKind::Plugins), payload)) {
        LauncherMessage::UpdatePlugins(x) => assert_eq!(x, payload),
        _ => panic!("expected a plugins update"),
    }
    assert_eq!(finish_kind(&sync_finish_token(SyncKind::Mods, false)), Some(FinishKind::ModsSuccess));
    assert_eq!(finish_kind(&sync_finish_token(SyncKind::Mods, true)), Some(FinishKind::ModsError));
    assert_eq!(finish_kind(&sync_finish_token(SyncKind::Plugins, false)), Some(FinishKind::PluginsSuccess));
    assert_eq!(finish_kind(&sync_finish_token(SyncKind::Plugins, true)), Some(FinishKind::PluginsError));
}

#[test]
fn tab_actions() {
    let mut list = vec![entry("u", "a.jar", true, true), entry("v", "b.jar", false, true)];
    toggle_entry_enabled(&mut list, 1);
    assert!(!list[1].enabled);
    assert!(list[0].enabled);
    toggle_entry_update(&mut list, 0);
    assert!(!list[0].allow_update);
    assert!(!list[1].allow_update);
    let removed = remove_entry(&mut list, 0);
    assert_eq!(removed.filename, "a.jar");
    assert_eq!(list.len(), 1);
    assert_eq!(list[0].filename, "b.jar");
}

#[test]
fn tab_actions_keep_names_distinct() {
    let mut list = vec![entry("u", "a.jar", true, true)];
    assert_eq!(add_entry_from_url(&mut list, " https://x.org/b.jar "), AddOutcome::Added);
    assert_eq!(add_entry_from_url(&mut list, "https://y.org/b.jar"), AddOutcome::Duplicate);
    assert_eq!(add_entry_from_url(&mut list, "ftp://y.org/c.jar"), AddOutcome::Ignored);
    assert!(names_distinct(&list));
    toggle_entry_enabled(&mut list, 0);
    toggle_entry_update(&mut list, 1);
    assert!(names_distinct(&list));
    let files = vec!["a.jar".to_string(), "c.jar.disabled".to_string(), "c.jar".to_string(), "b.jar".to_string()];
    merge_local_files(&mut list, &files);
    assert!(names_distinct(&list));
    assert_eq!(list.len(), 3);
    remove_entry(&mut list, 1);
    assert!(names_distinct(&list));
    assert_eq!(list.len(), 2);
}

#[test]
fn end_messages_differ_only_in_tags() {
    let m = sync_end_messages(SyncKind::Mods, false, Some("[]"));
    let p = sync_end_messages(SyncKind::Plugins, false, Some("[]"));
    assert_eq!(m, vec!["UPDATE_MODS:[]".to_string(), "FINISH_SUCCESS".to_string()]);
    assert_eq!(p, vec!["UPDATE_PLUGINS:[]".to_string(), "FINISH_PLUGINS_SUCCESS".to_string()]);
    assert_eq!(sync_end_messages(SyncKind::Mods, true, None), vec!["FINISH_ERROR".to_string()]);
    assert_eq!(sync_end_messages(SyncKind::Plugins, true, None), vec!["FINISH_PLUGINS_ERROR".to_string()]);
}

#[test]
fn server_address_follows_the_settings() {
    let mut config = LauncherConfig::default();
    let mut address = (config.server_ip.clone(), config.server_port);
    set_server_ip(&mut config, &mut address, "10.0.0.5");
    assert_eq!(config.server_ip, "10.0.0.5");
    assert_eq!(address, ("10.0.0.5".to_string(), config.server_port));
    assert!(set_server_port_text(&mut config, &mut address, "25570"));
    assert_eq!(config.server_port, 25570);
    assert_eq!(address, ("10.0.0.5".to_string(), 25570));
    assert!(!set_server_port_text(&mut config, &mut address, "70000"));
    assert!(!set_server_port_text(&mut config, &mut address, "abc"));
    assert!(!set_server_port_text(&mut config, &mut address, ""));
    assert_eq!(config.server_port, 25570);
    assert_eq!(address, ("10.0.0.5".to_string(), 25570));
}

#[test]
fn library_tally() {
    assert_eq!(tally_libraries(&vec![]), (0, 0));
    assert_eq!(tally_libraries(&vec![true, false, true, true]), (3, 1));
    assert_eq!(tally_libraries(&vec![false, false]), (0, 2));
}

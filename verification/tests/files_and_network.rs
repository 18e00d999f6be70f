use titanhost::backup::{
    backup_date_label, backup_entries, backup_file_name, backup_targets, sort_newest_first,
    BackupInfo,
};
use titanhost::models::{LauncherConfig, ModConfig, ModLoader, ServerCoreType};
use titanhost::modding::{
    add_entry_from_url, core_version_choices, has_fabric, has_neoforge, loader_download,
    normalize_choices, AddOutcome,
};
use titanhost::settings::{
    bound_ip_messages, difficulty_label, difficulty_values, gamemode_label, gamemode_values,
    loader_label, parse_port,
};
use titanhost::sync::{
    after_fetch, after_local_hash, after_write, file_extension, has_extension, local_entry,
    merge_local_files, sync_start, sync_update_prefix, AfterFetch, AfterLocalHash, FetchResult,
    SyncKind, SyncReport, SyncStart,
};
use titanhost::zerotier::{
    address_without_prefix, auth_header_name, join_network_id, network_status_color,
    network_url, networks_url, normalize_token, pkexec_outcome, status_url,
};

fn entry(url: &str, file: &str, update: bool, sha: Option<&str>, enabled: bool) -> ModConfig {
    ModConfig {
        url: url.to_string(),
        filename: file.to_string(),
        allow_update: update,
        sha256: sha.map(|s| s.to_string()),
        enabled,
    }
}

#[test]
fn backup_labels() {
    assert_eq!(backup_date_label("backup_20240131_235959.zip").as_deref(), Some("2024-01-31 23:59:59"));
    assert_eq!(backup_date_label("backup_20240131_235959.zip.zip").as_deref(), Some("2024-01-31 23:59:59"));
    assert_eq!(backup_date_label("backup_1706745600.zip").as_deref(), Some("Unknown date"));
    assert_eq!(backup_date_label("world.zip").as_deref(), Some("Unknown date"));
    assert_eq!(backup_date_label("backup_2024013_1235959.zip").as_deref(), Some("Unknown date"));
    assert_eq!(backup_date_label("backup_ÿÿÿÿ_123456_x.zip").as_deref(), Some("ÿÿ-ÿ-ÿ 12:34:56"));
    // A cut inside a three-byte character.
    assert_eq!(backup_date_label("backup_€€ab_123456.zip"), None);
}

#[test]
fn backup_name_shows_its_stamp() {
    let name = backup_file_name("20231105_070809");
    assert_eq!(name, "backup_20231105_070809.zip");
    assert_eq!(backup_date_label(&name).as_deref(), Some("2023-11-05 07:08:09"));
    assert_eq!(backup_targets(), vec!["world", "world_nether", "world_the_end", "mods", "plugins", "server.properties"]);
}

#[test]
fn backup_listing_is_newest_first() {
    let files = vec![
        ("backup_20240101_000000.zip".to_string(), 10u64),
        ("notes.txt".to_string(), 1),
        ("backup_20240301_000000.zip".to_string(), 30),
        ("other.zip".to_string(), 5),
    ];
    let entries = backup_entries(files).expect("all names can be read");
    assert_eq!(entries.len(), 3);
    assert_eq!(entries[0].date_str, "2024-01-01 00:00:00");
    assert_eq!(entries[2].date_str, "Unknown date");
    let sorted = sort_newest_first(entries);
    let names: Vec<&str> = sorted.iter().map(|b| b.filename.as_str()).collect();
    assert_eq!(names, vec!["other.zip", "backup_20240301_000000.zip", "backup_20240101_000000.zip"]);
    assert_eq!(sorted[1].size_bytes, 30);
    let empty: Vec<BackupInfo> = sort_newest_first(vec![]);
    assert!(empty.is_empty());
    assert!(backup_entries(vec![("backup_€€ab_123456.zip".to_string(), 1)]).is_none());
}

#[test]
fn extensions_and_local_entries() {
    assert_eq!(file_extension("a.jar"), (Some("jar".to_string()), "a".to_string()));
    assert_eq!(file_extension(".hidden"), (None, ".hidden".to_string()));
    assert_eq!(file_extension("noext"), (None, "noext".to_string()));
    assert!(has_extension("x.tar.gz", "gz"));
    assert_eq!(local_entry("a.jar"), Some(("a.jar".to_string(), true)));
    assert_eq!(local_entry("a.jar.disabled"), Some(("a.jar".to_string(), false)));
    assert_eq!(local_entry("a.disabled"), Some(("a.disabled".to_string(), true)));
    assert_eq!(local_entry("a.txt"), None);
}

#[test]
fn merging_local_files() {
    let mut entries = vec![entry("u", "a.jar", true, None, true)];
    let files = vec!["a.jar".to_string(), "b.jar.disabled".to_string(), "c.txt".to_string(), "b.jar".to_string()];
    assert!(merge_local_files(&mut entries, &files));
    assert_eq!(entries.len(), 2);
    assert_eq!(entries[0].url, "u");
    assert_eq!(entries[1].filename, "b.jar");
    assert!(!entries[1].enabled);
    assert_eq!(entries[1].url, "");
    assert!(!entries[1].allow_update);
    assert!(!merge_local_files(&mut entries, &files));
}

#[test]
fn sync_steps() {
    match sync_start(entry("u", "a.jar", true, Some("h"), false), true, false) {
        SyncStart::Disable { rename_to_disabled, outcome } => {
            assert!(rename_to_disabled);
            assert!(!outcome.error);
            assert_eq!(outcome.kept.unwrap().sha256, None);
        }
        _ => panic!("expected Disable"),
    }
    match sync_start(entry("u", "a.jar", true, None, true), false, true) {
        SyncStart::Enable { rename_from_disabled, .. } => assert!(rename_from_disabled),
        _ => panic!("expected Enable"),
    }
    match after_local_hash(entry("u", "a.jar", false, None, true), Some("h1".to_string())) {
        AfterLocalHash::Keep(o) => assert_eq!(o.kept.unwrap().sha256.as_deref(), Some("h1")),
        _ => panic!("expected Keep"),
    }
    match after_local_hash(entry("u", "a.jar", true, None, true), None) {
        AfterLocalHash::Download { current_hash, .. } => assert_eq!(current_hash, None),
        _ => panic!("expected Download"),
    }
    let hello = "2cf24dba5fb0a30e26e83b2ac5b9e29e1b161e5c1fa7425e73043362938b9824";
    match after_fetch(entry("u", "a.jar", true, None, true), true, Some(hello.to_string()), FetchResult::Body(b"hello".to_vec())) {
        AfterFetch::Finish(o) => {
            assert!(!o.error);
            assert_eq!(o.kept.unwrap().sha256.as_deref(), Some(hello));
        }
        _ => panic!("expected Finish"),
    }
    match after_fetch(entry("u", "a.jar", true, None, true), false, None, FetchResult::Body(b"hello".to_vec())) {
        AfterFetch::Write { bytes, new_hash, .. } => {
            assert_eq!(bytes, b"hello".to_vec());
            assert_eq!(new_hash, hello);
        }
        _ => panic!("expected Write"),
    }
    match after_fetch(entry("u", "a.jar", true, None, true), false, None, FetchResult::Failed) {
        AfterFetch::Finish(o) => assert!(o.error && o.kept.is_none()),
        _ => panic!("expected Finish"),
    }
    let o = after_write(entry("u", "a.jar", true, None, true), "h2".to_string(), false);
    assert!(o.error);
    assert_eq!(o.kept.unwrap().sha256, None);
    let mut report = SyncReport::new();
    report.record(after_write(entry("u", "a.jar", true, None, true), "h2".to_string(), true));
    assert_eq!(report.updated.len(), 1);
    assert!(!report.has_errors);
    assert_eq!(sync_update_prefix(SyncKind::Plugins), "UPDATE_PLUGINS:");
}

#[test]
fn adding_by_address() {
    let mut mods = vec![];
    assert_eq!(add_entry_from_url(&mut mods, "ftp://x/a.jar"), AddOutcome::Ignored);
    assert_eq!(add_entry_from_url(&mut mods, "   "), AddOutcome::Ignored);
    assert_eq!(add_entry_from_url(&mut mods, " https://cdn.x/jei.jar "), AddOutcome::Added);
    assert_eq!(mods[0].url, "https://cdn.x/jei.jar");
    assert_eq!(mods[0].filename, "jei.jar");
    assert!(mods[0].allow_update && mods[0].enabled && mods[0].sha256.is_none());
    assert_eq!(add_entry_from_url(&mut mods, "http://other/jei.jar?v=2"), AddOutcome::Duplicate);
    assert_eq!(mods.len(), 1);
    assert_eq!(add_entry_from_url(&mut mods, "https://example.com/download"), AddOutcome::Added);
    assert_eq!(mods[1].filename, "mod_7a32d468.jar");
}

#[test]
fn loader_choices() {
    assert!(!has_fabric("1.12.2"));
    assert!(!has_fabric("1.7.10"));
    assert!(has_fabric("1.20.1"));
    assert!(has_neoforge("1.20.4"));
    assert!(!has_neoforge("1.20.1"));
    let mut c = LauncherConfig::default();
    c.minecraft_version = "1.12.2".to_string();
    c.mod_loader = ModLoader::Fabric;
    c.server_core_type = ServerCoreType::Fabric;
    normalize_choices(&mut c);
    assert_eq!(c.mod_loader, ModLoader::Forge);
    assert_eq!(c.server_core_type, ServerCoreType::Forge);
    c.minecraft_version = "1.20.1".to_string();
    c.mod_loader = ModLoader::NeoForge;
    normalize_choices(&mut c);
    assert_eq!(c.mod_loader, ModLoader::Forge);
    c.mod_loader = ModLoader::Fabric;
    normalize_choices(&mut c);
    assert_eq!(c.mod_loader, ModLoader::Fabric);

    assert!(loader_download(ModLoader::Vanilla, "1.20.1").is_none());
    let d = loader_download(ModLoader::NeoForge, "1.20.4").unwrap();
    assert_eq!(d.filename, "neoforge-1.20.4.jar");
    assert_eq!(d.name, "NeoForge");
    assert_eq!(d.url, "https://maven.neoforged.net/releases/net/neoforged/neoforge/1.20.4/neoforge-1.20.4-installer.jar");
    let d = loader_download(ModLoader::Forge, "1.16.5").unwrap();
    assert_eq!(d.filename, "forge-1.16.5.jar");
    assert_eq!(core_version_choices(ServerCoreType::Paper, "1.20.1"), vec!["196", "195", "194"]);
    assert_eq!(core_version_choices(ServerCoreType::Forge, "1.12.2"), vec!["14.23.5.2860", "14.23.5.2859"]);
    assert!(core_version_choices(ServerCoreType::Vanilla, "1.12.2").is_empty());
    assert!(core_version_choices(ServerCoreType::Paper, "1.7.10").is_empty());
}

#[test]
fn settings_texts() {
    assert_eq!(parse_port("25565"), Some(25565));
    assert_eq!(parse_port("65536"), None);
    assert_eq!(parse_port(""), None);
    assert_eq!(parse_port(" 1"), None);
    assert_eq!(difficulty_label("easy"), "Easy (Легкая)");
    assert_eq!(difficulty_label("weird"), "Normal (Нормальная)");
    assert_eq!(gamemode_label("spectator"), "Наблюдатель (Spectator)");
    assert_eq!(gamemode_label(""), "Выживание (Survival)");
    assert_eq!(difficulty_values(), vec!["peaceful", "easy", "normal", "hard"]);
    assert_eq!(gamemode_values(), vec!["survival", "creative", "adventure", "spectator"]);
    assert_eq!(loader_label(ModLoader::Vanilla), "Vanilla (Чистая)");
    assert_eq!(
        bound_ip_messages("10.0.0.2"),
        ("IP привязан: 10.0.0.2".to_string(), "[СИСТЕМА] IP сервера изменен на ZeroTier IP: 10.0.0.2".to_string())
    );
}

#[test]
fn zerotier_helpers() {
    assert_eq!(status_url(), "http://127.0.0.1:9993/status");
    assert_eq!(networks_url(), "http://127.0.0.1:9993/network");
    assert_eq!(network_url("8056c2e21c000001"), "http://127.0.0.1:9993/network/8056c2e21c000001");
    assert_eq!(auth_header_name(), "X-ZT1-Auth");
    assert_eq!(normalize_token("  abcdefghijklmnopqrstuvwx\n").as_deref(), Some("abcdefghijklmnopqrstuvwx"));
    assert_eq!(normalize_token("short"), None);
    assert_eq!(join_network_id(" 8056c2e21c000001 ").as_deref(), Some("8056c2e21c000001"));
    assert_eq!(join_network_id("8056c2e21c00000"), None);
    assert_eq!(address_without_prefix("10.147.17.5/24"), "10.147.17.5");
    assert_eq!(address_without_prefix("fd00::1"), "fd00::1");
    assert_eq!(network_status_color("OK"), (100, 230, 100));
    assert_eq!(network_status_color("ACCESS_DENIED"), (230, 100, 100));
    assert_eq!(network_status_color("REQUESTING_CONFIGURATION"), (250, 210, 100));
}

#[test]
fn pkexec_results() {
    assert_eq!(
        pkexec_outcome(true, Some(0), "abcdefghijklmnopqrstuvwx\n", ""),
        Ok("abcdefghijklmnopqrstuvwx".to_string())
    );
    assert_eq!(
        pkexec_outcome(true, Some(0), "abc", ""),
        Err("Некорректная длина токена: abc".to_string())
    );
    assert_eq!(
        pkexec_outcome(false, Some(126), "", " denied \n"),
        Err("Ошибка аутентификации (код 126): denied".to_string())
    );
    assert_eq!(
        pkexec_outcome(false, None, "", ""),
        Err("Ошибка аутентификации (код -1): ".to_string())
    );
}

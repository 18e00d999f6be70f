use titanhost::config::{
    adapt_config_ram, adapt_profiles_ram, auto_ram_preset, create_profile,
    delete_selected_profile, find_profile, insert_profile, ram_preset_messages, resolve_profiles,
    store_selected_profile, ProfilesSource,
};
use titanhost::error::AppError;
use titanhost::models::{
    default_allow_flight, default_auto_restart, default_difficulty, default_enable_command_block,
    default_enabled, default_gamemode, default_generate_structures, default_hardcore,
    default_level_seed, default_max_players, default_online_mode, default_pvp,
    default_spawn_monsters, default_spawn_protection, default_view_distance, default_white_list,
    LauncherConfig, ModLoader, Profile, ProfilesData, ServerCoreType,
};
use titanhost::process::{
    aikars_flags, build_launch_args, eula_lines, full_command, get_java_executable,
    get_java_version_for_minecraft, get_minecraft_version_url, launch_precheck,
    local_java_executable, server_properties_lines, start_script_lines, stream_line,
    OutputStream, SERVER_DIR,
};

fn data(names: &[&str], selected: &str) -> ProfilesData {
    let mut profiles = Vec::new();
    for n in names {
        profiles.push(Profile { name: n.to_string(), config: LauncherConfig::default() });
    }
    ProfilesData { selected_profile: selected.to_string(), profiles }
}

#[test]
fn defaults() {
    assert!(default_enabled());
    assert!(!default_online_mode());
    assert!(!default_white_list());
    assert_eq!(default_difficulty(), "normal");
    assert!(default_pvp());
    assert!(default_spawn_monsters());
    assert_eq!(default_max_players(), 20);
    assert_eq!(default_view_distance(), 10);
    assert!(!default_auto_restart());
    assert!(!default_allow_flight());
    assert_eq!(default_level_seed(), "");
    assert_eq!(default_spawn_protection(), 16);
    assert!(!default_hardcore());
    assert!(default_generate_structures());
    assert!(!default_enable_command_block());
    assert_eq!(default_gamemode(), "survival");
    let c = LauncherConfig::default();
    assert_eq!(c.profile_name, "Forge Server Pack");
    assert_eq!(c.minecraft_version, "1.12.2");
    assert_eq!(c.max_ram_gb, 4);
    assert_eq!(c.server_ip, "127.0.0.1");
    assert_eq!(c.server_port, 25565);
    assert_eq!(c.mod_loader, ModLoader::Forge);
    assert_eq!(c.server_core_type, ServerCoreType::Paper);
    assert_eq!(c.server_core_version, "Последний стабильный");
}

#[test]
fn store_then_lookup() {
    let mut ps = vec![];
    let mut a = LauncherConfig::default();
    a.max_ram_gb = 6;
    insert_profile(&mut ps, "A".to_string(), a);
    insert_profile(&mut ps, "B".to_string(), LauncherConfig::default());
    let mut a2 = LauncherConfig::default();
    a2.max_ram_gb = 8;
    insert_profile(&mut ps, "A".to_string(), a2);
    assert_eq!(ps.len(), 2);
    let i = find_profile(&ps, "A").unwrap();
    assert_eq!(ps[i].config.max_ram_gb, 8);
    let j = find_profile(&ps, "B").unwrap();
    assert_eq!(ps[j].config.max_ram_gb, 4);
    assert_eq!(find_profile(&ps, "C"), None);

    let mut d = data(&["A"], "A");
    store_selected_profile(&mut d, "Z".to_string(), LauncherConfig::default());
    assert_eq!(d.selected_profile, "Z");
    assert_eq!(d.profiles.len(), 2);
}

#[test]
fn profile_creation_and_deletion() {
    let mut d = data(&["A"], "A");
    assert!(!create_profile(&mut d, "   "));
    assert_eq!(d.profiles.len(), 1);
    assert!(create_profile(&mut d, "  New pack "));
    assert_eq!(d.selected_profile, "New pack");
    assert_eq!(d.profiles.len(), 2);
    assert!(find_profile(&d.profiles, "New pack").is_some());

    assert!(delete_selected_profile(&mut d));
    assert_eq!(d.profiles.len(), 1);
    assert!(find_profile(&d.profiles, "New pack").is_none());
    assert_eq!(d.selected_profile, "A");
    assert!(!delete_selected_profile(&mut d));
    assert_eq!(d.profiles.len(), 1);
}

#[test]
fn ram_presets_and_fitting() {
    assert_eq!(auto_ram_preset(0), 1);
    assert_eq!(auto_ram_preset(1), 1);
    assert_eq!(auto_ram_preset(4), 2);
    assert_eq!(auto_ram_preset(5), 2);
    assert_eq!(auto_ram_preset(16), 13);
    let mut c = LauncherConfig::default();
    c.max_ram_gb = 40;
    assert!(adapt_config_ram(&mut c, 8));
    assert_eq!(c.max_ram_gb, 16);
    assert!(!adapt_config_ram(&mut c, 8));
    assert_eq!(c.max_ram_gb, 16);
    let mut c = LauncherConfig::default();
    c.max_ram_gb = 40;
    assert!(adapt_config_ram(&mut c, 32));
    assert_eq!(c.max_ram_gb, 32);
    let (status, log) = ram_preset_messages(13);
    assert_eq!(status, "Умный пресет: 13 ГБ");
    assert_eq!(log, "[ОЗУ] Установлено оптимальное выделение ОЗУ: 13 ГБ");
}

#[test]
fn profiles_adapted_on_load() {
    let mut big = LauncherConfig::default();
    big.max_ram_gb = 64;
    let mut ps = vec![
        Profile { name: "Big".to_string(), config: big },
        Profile { name: "Small".to_string(), config: LauncherConfig::default() },
    ];
    let log = adapt_profiles_ram(&mut ps, 8);
    assert_eq!(log, "\n⚠️ Профиль 'Big' адаптирован под текущее ОЗУ.");
    assert_eq!(ps[0].config.max_ram_gb, 16);
    assert_eq!(ps[1].config.max_ram_gb, 4);
}

#[test]
fn profile_sources() {
    let r = resolve_profiles(Some(data(&["X"], "X")), None, 8);
    assert_eq!(r.source, ProfilesSource::Loaded);
    assert_eq!(r.log, "✅ Успешно загружен список профилей из profiles.json");
    let r = resolve_profiles(None, Some(LauncherConfig::default()), 8);
    assert_eq!(r.source, ProfilesSource::Migrated);
    assert_eq!(r.data.selected_profile, "Forge Pack");
    assert_eq!(r.data.profiles[0].name, "Forge Pack");
    let r = resolve_profiles(None, None, 16);
    assert_eq!(r.source, ProfilesSource::Created);
    assert_eq!(r.data.profiles[0].config.max_ram_gb, 13);
    assert_eq!(r.log, "ℹ️ Создана новая конфигурация профилей profiles.json");
}

#[test]
fn java_selection() {
    assert_eq!(get_java_version_for_minecraft("1.12.2"), 8);
    assert_eq!(get_java_version_for_minecraft("1.16.5"), 17);
    assert_eq!(get_java_version_for_minecraft("1.20.4"), 17);
    assert_eq!(get_java_version_for_minecraft("1.20.5"), 21);
    assert_eq!(get_java_version_for_minecraft("1.21.1"), 21);
    assert_eq!(get_java_version_for_minecraft("24w10a"), 21);
    assert_eq!(get_java_version_for_minecraft("1.7.10"), 8);
    assert_eq!(local_java_executable(17), "./run/jre17/bin/java");
    assert_eq!(get_java_executable(17, true), "./run/jre17/bin/java");
    assert_eq!(get_java_executable(17, false), "java");
    assert_eq!(get_minecraft_version_url("1.20.1"), Some("dynamic"));
    assert_eq!(get_minecraft_version_url("1.8"), None);
    assert_eq!(SERVER_DIR, "./run");
}

#[test]
fn launch_arguments() {
    let mut c = LauncherConfig::default();
    c.aikars_flags = false;
    c.max_ram_gb = 6;
    let args = build_launch_args(&c);
    assert_eq!(args, vec!["-Xms6G", "-Xmx6G", "-jar", "server.jar", "nogui"]);
    assert_eq!(full_command("java", &args), "java -Xms6G -Xmx6G -jar server.jar nogui");
    c.aikars_flags = true;
    let args = build_launch_args(&c);
    assert_eq!(args.len(), 2 + 17 + 3);
    assert_eq!(args[2], "-XX:+UseG1GC");
    assert_eq!(aikars_flags().len(), 17);
    assert_eq!(full_command("java", &vec![]), "java ");
}

#[test]
fn server_files() {
    let lines = server_properties_lines(&LauncherConfig::default());
    assert_eq!(lines[0], "#Minecraft server properties");
    assert_eq!(lines[1], "server-ip=127.0.0.1");
    assert_eq!(lines[2], "server-port=25565");
    assert!(lines.contains(&"online-mode=false".to_string()));
    assert!(lines.contains(&"gamemode=survival".to_string()));
    assert_eq!(eula_lines().last().unwrap(), "eula=true");
    assert_eq!(start_script_lines()[0], "#!/bin/bash");
}

#[test]
fn output_lines_and_precheck() {
    assert_eq!(
        stream_line(OutputStream::Stdout, "  Done \n"),
        Some(("[GAME-OUT] Done".to_string(), "LOG: [GAME-OUT] Done".to_string()))
    );
    assert_eq!(
        stream_line(OutputStream::Stderr, "boom"),
        Some(("[GAME-ERR] boom".to_string(), "LOG: [GAME-ERR] boom".to_string()))
    );
    assert_eq!(stream_line(OutputStream::Stdout, " \r\n"), None);
    assert!(launch_precheck(true).is_ok());
    match launch_precheck(false) {
        Err(AppError::Process(m)) => assert_eq!(m, "JAR-файл сервера не найден: './run/server.jar'"),
        other => panic!("unexpected {:?}", other),
    }
}

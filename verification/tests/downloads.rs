use titanhost::downloader::{
    core_download_url, core_lookup, CoreLookup,
    core_display_name, core_file_path, fabric_maven_path, fabric_profile_url, fabric_server_url,
    file_status_after_hash, first_installer_version, first_loader_version, forge_build_for,
    forge_installer_url, get_fabric_info, get_filename_from_url, get_forge_info,
    get_paper_fallback_build, is_installed_forge_jar, jre_paths, legacy_forge_libraries,
    library_dest_path, library_files, libs_summary, needs_legacy_forge_libraries,
    neoforge_installer_url, paper_build_from, paper_jar_url, paper_versions_api_url,
    progress_report_due, server_core_filename, status_from_hash, version_jar_path,
    wants_latest_build, file_status_precheck, FileCheck, FileStatus, LibraryFileKind,
};
use titanhost::models::{
    FabricInstallerEntry, FabricLoaderEntry, ModLoader, MojangArtifact, MojangDownloads,
    MojangLibrary, ServerCoreType,
};

#[test]
fn forge_info() {
    let (url, file) = get_forge_info("1.16.5");
    assert_eq!(url, "https://maven.minecraftforge.net/net/minecraftforge/forge/1.16.5-36.2.34/forge-1.16.5-36.2.34-universal.jar");
    assert_eq!(file, "forge-1.16.5.jar");
    let (url, file) = get_forge_info("1.7.10");
    assert_eq!(url, "https://maven.minecraftforge.net/net/minecraftforge/forge/1.7.10-10.13.4.1614-1.7.10/forge-1.7.10-10.13.4.1614-1.7.10-universal.jar");
    assert_eq!(file, "forge-1.7.10.jar");
    let (url, file) = get_forge_info("9.9");
    assert_eq!(url, "https://maven.minecraftforge.net/net/minecraftforge/forge/1.12.2-14.23.5.2860/forge-1.12.2-14.23.5.2860-universal.jar");
    assert_eq!(file, "forge-1.12.2.jar");
}

#[test]
fn fabric_info() {
    let (url, file) = get_fabric_info("1.20.1");
    assert_eq!(url, "https://meta.fabricmc.net/v2/versions/loader/1.20.1/0.14.22/0.11.2/server/jar");
    assert_eq!(file, "fabric-loader-1.20.1.jar");
    let (url, file) = get_fabric_info("1.19.2");
    assert_eq!(url, "https://meta.fabricmc.net/v2/versions/loader/1.19.2/0.14.22/0.11.2/server/jar");
    assert_eq!(file, "fabric-loader-1.19.2.jar");
}

#[test]
fn paper_fallback_builds() {
    assert_eq!(get_paper_fallback_build("1.12.2"), "1618");
    assert_eq!(get_paper_fallback_build("1.16.5"), "794");
    assert_eq!(get_paper_fallback_build("1.20.4"), "496");
    assert_eq!(get_paper_fallback_build("1.19.2"), "307");
    assert_eq!(get_paper_fallback_build("1.18.2"), "388");
    assert_eq!(get_paper_fallback_build("1.7.10"), "196");
}

#[test]
fn filename_from_url() {
    assert_eq!(get_filename_from_url("https://cdn.x/mods/jei-1.2.jar"), "jei-1.2.jar");
    assert_eq!(get_filename_from_url("https://cdn.x/mods/jei.jar?token=1"), "jei.jar");
    // No jar name: the name comes from the first four bytes of the address's digest.
    assert_eq!(get_filename_from_url("https://example.com/download"), "mod_7a32d468.jar");
    assert_eq!(get_filename_from_url("https://cdn.site/mods/?id=5"), "mod_03542dd0.jar");
    assert_eq!(get_filename_from_url(""), "mod_e3b0c442.jar");
}

#[test]
fn filename_always_ends_in_jar() {
    for url in ["a", "https://x/y.zip", "https://x/.jar", "https://x/a.jar", "/", "?"] {
        assert!(get_filename_from_url(url).ends_with(".jar"));
    }
}

#[test]
fn core_urls_and_names() {
    assert_eq!(paper_versions_api_url("1.20.1"), "https://api.papermc.io/v2/projects/paper/versions/1.20.1");
    assert_eq!(paper_jar_url("1.20.1", "196"), "https://api.papermc.io/v2/projects/paper/versions/1.20.1/builds/196/downloads/paper-1.20.1-196.jar");
    assert_eq!(fabric_server_url("1.20.1", "0.15.0", "1.0.1"), "https://meta.fabricmc.net/v2/versions/loader/1.20.1/0.15.0/1.0.1/server/jar");
    assert_eq!(neoforge_installer_url("1.20.4"), "https://maven.neoforged.net/releases/net/neoforged/neoforge/1.20.4/neoforge-1.20.4-installer.jar");
    assert_eq!(forge_installer_url("1.16.5", "36.2.34"), "https://maven.minecraftforge.net/net/minecraftforge/forge/1.16.5-36.2.34/forge-1.16.5-36.2.34-installer.jar");
    assert_eq!(server_core_filename(ServerCoreType::Vanilla, "1.20.1"), "minecraft_server_1.20.1.jar");
    assert_eq!(server_core_filename(ServerCoreType::Paper, "1.20.1"), "paper-1.20.1.jar");
    assert_eq!(server_core_filename(ServerCoreType::NeoForge, "1.20.4"), "neoforge-server-1.20.4.jar");
    assert_eq!(core_display_name(ServerCoreType::Fabric), "Fabric Server Core");
    assert_eq!(fabric_profile_url("1.20.1", "0.15.0"), "https://meta.fabricmc.net/v2/versions/loader/1.20.1/0.15.0/profile/json");
    assert_eq!(version_jar_path("1.20.1"), "./run/1.20.1.jar");
    assert_eq!(core_file_path("paper-1.20.1.jar"), "./run/paper-1.20.1.jar");
}

#[test]
fn forge_build_choice() {
    assert!(wants_latest_build("Последний стабильный"));
    assert!(wants_latest_build(""));
    assert!(!wants_latest_build("36.2.34"));
    assert_eq!(forge_build_for("1.16.5", "Последний стабильный"), "36.2.34");
    assert_eq!(forge_build_for("1.12.2", ""), "14.23.5.2860");
    assert_eq!(forge_build_for("1.7.10", ""), "10.13.4.1614-1.7.10");
    assert_eq!(forge_build_for("1.20.1", ""), "47.2.0");
    assert_eq!(forge_build_for("1.19.2", ""), "14.23.5.2860");
    assert_eq!(forge_build_for("1.16.5", "36.1.0"), "36.1.0");
}

#[test]
fn paper_build_choice() {
    let builds = vec![100u32, 101, 102];
    assert_eq!(paper_build_from(Some(&builds), "1.20.1"), ("102".to_string(), false));
    // An empty list falls back to the known build and is reported.
    let empty: Vec<u32> = vec![];
    assert_eq!(paper_build_from(Some(&empty), "1.20.1"), ("196".to_string(), true));
    assert_eq!(paper_build_from(None, "1.12.2"), ("1618".to_string(), false));
}

#[test]
fn fabric_versions_from_lists() {
    let loaders = vec![
        FabricLoaderEntry { version: "0.15.7".to_string() },
        FabricLoaderEntry { version: "0.15.6".to_string() },
    ];
    assert_eq!(first_loader_version(Some(&loaders), "0.19.3"), "0.15.7");
    assert_eq!(first_loader_version(Some(&vec![]), "0.19.3"), "0.19.3");
    assert_eq!(first_loader_version(None, "0.19.3"), "0.19.3");
    let installers = vec![FabricInstallerEntry { version: "1.0.0".to_string() }];
    assert_eq!(first_installer_version(Some(&installers), "1.1.1"), "1.0.0");
    assert_eq!(first_installer_version(None, "1.1.1"), "1.1.1");
}

#[test]
fn forge_installed_jar_detection() {
    assert!(is_installed_forge_jar("forge-1.16.5-36.2.34.jar", "1.16.5"));
    assert!(!is_installed_forge_jar("forge-1.16.5-36.2.34-installer.jar", "1.16.5"));
    assert!(!is_installed_forge_jar("forge-server-1.16.5.jar", "1.16.5"));
    assert!(!is_installed_forge_jar("forge-1.12.2.jar", "1.16.5"));
    assert!(!is_installed_forge_jar("forge-1.16.5.txt", "1.16.5"));
}

fn artifact(url: &str, path: &str) -> MojangArtifact {
    MojangArtifact { url: url.to_string(), path: path.to_string() }
}

#[test]
fn library_file_list() {
    let lib = MojangLibrary {
        name: "org.lwjgl:lwjgl:2.9".to_string(),
        downloads: MojangDownloads {
            artifact: Some(artifact("https://l/a.jar", "org/a.jar")),
            classifiers: Some(vec![
                ("natives-windows".to_string(), artifact("https://l/w.jar", "org/w.jar")),
                ("natives-linux".to_string(), artifact("https://l/n.jar", "org/n.jar")),
            ]),
        },
        natives: Some(vec![("linux".to_string(), "natives-linux".to_string())]),
    };
    let files = library_files(&lib, "linux");
    assert_eq!(files.len(), 2);
    assert_eq!(files[0].url, "https://l/a.jar");
    assert_eq!(files[0].dest_path, "./run/libraries/org/a.jar");
    assert!(matches!(files[0].kind, LibraryFileKind::Artifact));
    assert_eq!(files[1].url, "https://l/n.jar");
    assert_eq!(files[1].dest_path, "./run/libraries/org/n.jar");
    match &files[1].kind {
        LibraryFileKind::Native { classifier } => assert_eq!(classifier, "natives-linux"),
        _ => panic!("expected a native file"),
    }
    assert_eq!(library_files(&lib, "osx").len(), 1);
    assert_eq!(library_dest_path("x/y.jar"), "./run/libraries/x/y.jar");
}

#[test]
fn legacy_forge_libs() {
    assert!(needs_legacy_forge_libraries("1.12.2", ModLoader::Forge));
    assert!(!needs_legacy_forge_libraries("1.12.2", ModLoader::Fabric));
    assert!(!needs_legacy_forge_libraries("1.16.5", ModLoader::Forge));
    let libs = legacy_forge_libraries();
    assert_eq!(libs.len(), 15);
    assert_eq!(libs[0].0, "net/minecraft/launchwrapper/1.12/launchwrapper-1.12.jar");
    assert_eq!(libs[14].1, "https://maven.minecraftforge.net/org/apache/maven/maven-artifact/3.5.3/maven-artifact-3.5.3.jar");
}

#[test]
fn maven_paths() {
    assert_eq!(
        fabric_maven_path("net.fabricmc:fabric-loader:0.15.7"),
        Some((
            "net/fabricmc/fabric-loader/0.15.7/fabric-loader-0.15.7.jar".to_string(),
            "fabric-loader".to_string()
        ))
    );
    assert_eq!(fabric_maven_path("a:b"), None);
    assert_eq!(fabric_maven_path("a:b:c:d"), None);
}

#[test]
fn file_statuses() {
    assert!(matches!(status_from_hash("abc", &Some("abc".to_string())), FileStatus::Ready));
    assert!(matches!(status_from_hash("abc", &Some("abd".to_string())), FileStatus::Changed));
    match status_from_hash("0123456789abcdef", &None) {
        FileStatus::Installed(p) => assert_eq!(p, "01234567"),
        other => panic!("unexpected {:?}", other),
    }
    match status_from_hash("abc", &None) {
        FileStatus::Installed(p) => assert_eq!(p, "abc"),
        other => panic!("unexpected {:?}", other),
    }
    assert!(matches!(file_status_after_hash(None, &None), FileStatus::ReadError));
    assert_eq!(FileStatus::Missing.label(), "Отсутствует (Будет скачан)");
    assert_eq!(FileStatus::Installed("01234567".to_string()).label(), "Установлен (хэш: 01234567)");
    assert_eq!(FileStatus::Ready.color(), (100, 230, 100));
    assert_eq!(FileStatus::Disabled.icon(), ("⚪".to_string(), (160, 160, 160)));
    assert_eq!(FileStatus::Unknown.icon(), ("🔴".to_string(), (230, 100, 100)));
}

#[test]
fn jre_locations() {
    let p = jre_paths(17);
    assert_eq!(p.url, "https://api.adoptium.net/v3/binary/latest/17/ga/linux/x64/jre/hotspot/normal/eclipse");
    assert_eq!(p.archive, "./run/jre17_temp.tar.gz");
    assert_eq!(p.target_dir, "./run/jre17");
    assert_eq!(p.extract_dir, "./run/jre17_extract");
}

#[test]
fn progress_reports() {
    assert!(progress_report_due(true, 5, 0, 0));
    assert!(!progress_report_due(true, 4, 0, 0));
    assert!(progress_report_due(true, 4, 0, 1));
    assert!(!progress_report_due(true, u32::MAX, u32::MAX, 0));
    assert!(!progress_report_due(false, 0, 0, 1));
    assert!(progress_report_due(false, 0, 0, 2));
}

#[test]
fn library_summary() {
    assert_eq!(
        libs_summary(10, 0),
        (
            "LOG: [УСПЕХ] Установка библиотек завершена. Успешно: 10, Ошибок: 0".to_string(),
            "FINISH_LIBS_SUCCESS".to_string()
        )
    );
    assert_eq!(libs_summary(3, 2).1, "FINISH_LIBS_ERROR");
}

#[test]
fn file_status_prechecks() {
    let sha = Some("abc".to_string());
    assert!(matches!(file_status_precheck(false, true, Some(3), None, &sha), FileCheck::Done(FileStatus::Disabled)));
    assert!(matches!(file_status_precheck(true, false, Some(3), None, &sha), FileCheck::Done(FileStatus::Missing)));
    assert!(matches!(file_status_precheck(true, true, None, None, &sha), FileCheck::Done(FileStatus::Unknown)));
    assert!(matches!(file_status_precheck(true, true, Some(3), None, &sha), FileCheck::NeedHash));
    assert!(matches!(file_status_precheck(true, true, Some(3), Some((4, "abc")), &sha), FileCheck::NeedHash));
    assert!(matches!(file_status_precheck(true, true, Some(3), Some((3, "abc")), &sha), FileCheck::Done(FileStatus::Ready)));
    assert!(matches!(file_status_precheck(true, true, Some(3), Some((3, "abd")), &sha), FileCheck::Done(FileStatus::Changed)));
    assert!(matches!(file_status_after_hash(Some("abc"), &sha), FileStatus::Ready));
}

#[test]
fn server_core_addresses() {
    assert_eq!(core_lookup(ServerCoreType::Vanilla, ""), CoreLookup::VanillaPackage);
    assert_eq!(core_lookup(ServerCoreType::Paper, "Последний стабильный"), CoreLookup::PaperBuilds);
    assert_eq!(core_lookup(ServerCoreType::Paper, "190"), CoreLookup::Nothing);
    assert_eq!(core_lookup(ServerCoreType::Fabric, ""), CoreLookup::FabricVersions);
    assert_eq!(core_lookup(ServerCoreType::Forge, ""), CoreLookup::Nothing);

    assert_eq!(
        core_download_url(ServerCoreType::Vanilla, "1.20.1", "", Some("https://m/server.jar"), None, None, None),
        Some(("https://m/server.jar".to_string(), false))
    );
    assert_eq!(core_download_url(ServerCoreType::Vanilla, "1.20.1", "", None, None, None, None), None);
    let builds = vec![1u32, 7];
    assert_eq!(
        core_download_url(ServerCoreType::Paper, "1.20.1", "", None, Some(&builds), None, None),
        Some(("https://api.papermc.io/v2/projects/paper/versions/1.20.1/builds/7/downloads/paper-1.20.1-7.jar".to_string(), false))
    );
    assert_eq!(
        core_download_url(ServerCoreType::Paper, "1.20.1", "", None, Some(&vec![]), None, None),
        Some(("https://api.papermc.io/v2/projects/paper/versions/1.20.1/builds/196/downloads/paper-1.20.1-196.jar".to_string(), true))
    );
    assert_eq!(
        core_download_url(ServerCoreType::Paper, "1.20.1", "190", None, None, None, None),
        Some(("https://api.papermc.io/v2/projects/paper/versions/1.20.1/builds/190/downloads/paper-1.20.1-190.jar".to_string(), false))
    );
    assert_eq!(
        core_download_url(ServerCoreType::Fabric, "1.20.1", "", None, None, None, None),
        Some(("https://meta.fabricmc.net/v2/versions/loader/1.20.1/0.19.3/1.1.1/server/jar".to_string(), false))
    );
    assert_eq!(
        core_download_url(ServerCoreType::Forge, "1.16.5", "", None, None, None, None),
        Some(("https://maven.minecraftforge.net/net/minecraftforge/forge/1.16.5-36.2.34/forge-1.16.5-36.2.34-installer.jar".to_string(), false))
    );
}

use glaunch::models::Platform;
use glaunch::platforms::steam::{SteamGameLauncher, SteamGameScanner, SteamPlatform};
use glaunch::platforms::traits::{GameLauncher, GamePlatform, GameScanner, MetadataProvider, ScanInput};
use glaunch::snapshot::{DiskSnapshot, ExecutableCandidate};
use glaunch::vdf::{get_library_label, VdfParser};
use std::path::Path;

fn join(base: &str, part: &str) -> String {
    Path::new(base).join(part).to_string_lossy().into_owned()
}

const INDEX: &str = "\"libraryfolders\"\n{\n\t\"0\"\n\t{\n\t\t\"path\"\t\t\"/steam\"\n\t\t\"label\"\t\t\"\"\n\t}\n\t\"1\"\n\t{\n\t\t\"path\"\t\t\"/mnt/games\\\\lib\"\n\t}\n\t\"2\"\n\t{\n\t\t\"path\"\t\t\"/gone\"\n\t}\n}\n";

fn manifest(appid: &str, name: &str, dir: &str) -> String {
    format!(
        "\"AppState\"\n{{\n\t\"appid\"\t\t\"{}\"\n\t\"name\"\t\t\"{}\"\n\t\"installdir\"\t\t\"{}\"\n\t\"SizeOnDisk\"\t\t\"1000\"\n\t\"buildid\"\t\t\"77\"\n\t\"LastUpdated\"\t\t\"1600000000\"\n}}\n",
        appid, name, dir
    )
}

fn disk_with_index() -> DiskSnapshot {
    let mut disk = DiskSnapshot::new();
    disk.add_document(VdfParser::index_path("/steam"), INDEX.to_string());
    disk.add_existing(join("/steam", "steamapps"));
    disk.add_existing(join("/mnt/games\\lib", "steamapps"));
    disk
}

#[test]
fn library_label_is_the_last_component() {
    assert_eq!(get_library_label("/mnt/games/SteamLibrary"), "SteamLibrary");
    assert_eq!(get_library_label("/"), "Bibliothèque Steam");
    assert_eq!(get_library_label(""), "Bibliothèque Steam");
}

#[test]
fn index_lists_libraries_that_exist() {
    let disk = disk_with_index();
    assert_eq!(VdfParser::index_path("/steam"), join("/steam", "steamapps/libraryfolders.vdf"));
    assert_eq!(
        VdfParser::recorded_libraries(INDEX),
        vec![join("/steam", "steamapps"), join("/mnt/games\\lib", "steamapps"), join("/gone", "steamapps")]
    );
    let folders = VdfParser::parse_library_folders("/steam", &disk).unwrap();
    assert_eq!(folders.len(), 3);
    assert_eq!(folders[0].path, join("/steam", "steamapps"));
    assert_eq!(folders[0].label, "Installation Steam");
    assert!(folders[0].mounted);
    assert_eq!(folders[1].path, join("/steam", "steamapps"));
    assert_eq!(folders[1].label, "steam");
    assert_eq!(folders[2].path, join("/mnt/games\\lib", "steamapps"));
    assert_eq!(folders[2].label, get_library_label("/mnt/games\\lib"));
    assert!(folders[2].mounted);
}

#[test]
fn index_that_was_not_read() {
    let disk = DiskSnapshot::new();
    let err = VdfParser::parse_library_folders("/steam", &disk).unwrap_err();
    assert_eq!(err.message, "Failed to read libraryfolders.vdf");
}

#[test]
fn scanner_lists_each_library_once() {
    let disk = disk_with_index();
    let scanner = SteamGameScanner::new(Some("/steam".to_string()), &disk);
    assert_eq!(
        scanner.get_library_paths(),
        vec![join("/steam", "steamapps"), join("/mnt/games\\lib", "steamapps")]
    );
    let bare = SteamGameScanner::new(None, &DiskSnapshot::new());
    assert_eq!(bare.get_library_paths(), vec![join("C:\\Program Files (x86)\\Steam", "steamapps")]);
    assert_eq!(SteamGameScanner::resolve_install_path(None), "C:\\Program Files (x86)\\Steam");
    assert_eq!(SteamGameScanner::resolve_install_path(Some("/s".to_string())), "/s");
}

#[test]
fn user_folders_must_exist_and_are_added_once() {
    let mut disk = disk_with_index();
    let mut scanner = SteamGameScanner::new(Some("/steam".to_string()), &disk);
    let err = scanner.add_library_path("/extra".to_string(), &disk).unwrap_err();
    assert_eq!(err.message, "Path does not exist: /extra");
    assert_eq!(scanner.get_library_paths().len(), 2);
    disk.add_existing("/extra".to_string());
    assert!(scanner.add_library_path("/extra".to_string(), &disk).is_ok());
    assert!(scanner.add_library_path("/extra".to_string(), &disk).is_ok());
    assert_eq!(
        scanner.get_library_paths(),
        vec![join("/steam", "steamapps"), join("/mnt/games\\lib", "steamapps"), "/extra".to_string()]
    );
}

#[test]
fn game_path_is_looked_for_in_order() {
    let mut disk = disk_with_index();
    disk.add_existing("/extra".to_string());
    let mut scanner = SteamGameScanner::new(Some("/steam".to_string()), &disk);
    scanner.add_library_path("/extra".to_string(), &disk).unwrap();
    let lib0 = join("/steam", "steamapps");
    let lib1 = join("/mnt/games\\lib", "steamapps");
    let in0 = join(&join(&lib0, "common"), "GameX");
    let in1 = join(&join(&lib1, "common"), "GameX");
    let in2 = join(&join("/extra", "common"), "GameX");
    assert_eq!(scanner.game_path_candidates("GameX"), vec![in0.clone(), in1.clone(), in2.clone()]);
    let err = scanner.find_game_path("GameX", &disk).unwrap_err();
    assert_eq!(err.message, "Could not find installation directory for game: GameX");
    disk.add_existing(in2.clone());
    assert_eq!(scanner.find_game_path("GameX", &disk).unwrap(), in2);
    disk.add_existing(in1.clone());
    assert_eq!(scanner.find_game_path("GameX", &disk).unwrap(), in1);
    disk.add_existing(in0.clone());
    assert_eq!(scanner.find_game_path("GameX", &disk).unwrap(), in0);
}

#[test]
fn manifest_file_becomes_a_game() {
    let mut disk = disk_with_index();
    let scanner = SteamGameScanner::new(Some("/steam".to_string()), &disk);
    let lib0 = join("/steam", "steamapps");
    let path = join(&lib0, "appmanifest_730.acf");
    let game_dir = join(&join(&lib0, "common"), "GameX");
    assert_eq!(scanner.parse_acf_file(&path, &disk).unwrap_err().message, "Failed to read ACF file");
    disk.add_document(path.clone(), manifest("730", "Game X", "GameX"));
    assert_eq!(
        scanner.parse_acf_file(&path, &disk).unwrap_err().message,
        "Could not find installation directory for game: GameX"
    );
    disk.add_existing(game_dir.clone());
    let without_exe = scanner.parse_acf_file(&path, &disk).unwrap();
    assert_eq!(without_exe.installation.executable, None);
    disk.add_walk(
        game_dir.clone(),
        vec![
            ExecutableCandidate { path: join(&game_dir, "unins000.exe"), size: Some(5_000_000), depth: 1 },
            ExecutableCandidate { path: join(&game_dir, "Game X.exe"), size: Some(5_000_000), depth: 1 },
        ],
    );
    let g = scanner.parse_acf_file(&path, &disk).unwrap();
    assert_eq!(g.id, "steam_730");
    assert_eq!(g.platform_id, "730");
    assert_eq!(g.platform, Platform::Steam);
    assert_eq!(g.title, "Game X");
    assert_eq!(g.installation.install_path, game_dir);
    assert_eq!(g.installation.executable, Some(join(&game_dir, "Game X.exe")));
    assert_eq!(g.installation.size, 1000);
    assert_eq!(g.installation.version.as_deref(), Some("77"));
    assert_eq!(g.installation.last_updated, Some(1_600_000_000));
    assert_eq!(g.metadata.title, "Game X");
    assert_eq!(g.metadata.developer, None);
    assert_eq!(g.last_played, None);
    assert_eq!(g.stats.total_playtime, 0);
    let broken = join(&lib0, "appmanifest_1.acf");
    disk.add_document(broken.clone(), "\"AppState\"\n{\n\t\"name\"\t\"No Id\"\n}\n".to_string());
    assert_eq!(scanner.parse_acf_file(&broken, &disk).unwrap_err().message, "Missing appid");
}

#[test]
fn scan_skips_what_cannot_be_read() {
    let mut disk = disk_with_index();
    disk.add_existing("/extra".to_string());
    let mut scanner = SteamGameScanner::new(Some("/steam".to_string()), &disk);
    scanner.add_library_path("/extra".to_string(), &disk).unwrap();
    let lib0 = join("/steam", "steamapps");
    let lib1 = join("/mnt/games\\lib", "steamapps");
    let a = join(&lib0, "appmanifest_10.acf");
    let b = join(&lib0, "appmanifest_20.acf");
    let c = join(&lib1, "appmanifest_30.acf");
    let d = join("/extra", "appmanifest_40.acf");
    disk.add_listing(lib0.clone(), vec![join(&lib0, "common")], vec![a.clone(), join(&lib0, "notes.txt"), b.clone()]);
    disk.add_listing(lib1.clone(), vec![], vec![c.clone()]);
    disk.add_listing("/extra".to_string(), vec![], vec![d.clone()]);
    disk.add_document(a, manifest("10", "Ten", "Ten"));
    disk.add_document(b, "garbage".to_string());
    disk.add_document(c, manifest("30", "Thirty", "Thirty"));
    disk.add_document(d, manifest("40", "Forty", "Forty"));
    disk.add_existing(join(&join(&lib0, "common"), "Ten"));
    disk.add_existing(join(&join(&lib1, "common"), "Thirty"));
    disk.add_existing(join(&join("/extra", "common"), "Forty"));
    let games = scanner.scan_games(&disk);
    let ids: Vec<&str> = games.iter().map(|g| g.id.as_str()).collect();
    assert_eq!(ids, vec!["steam_10", "steam_30", "steam_40"]);
    let again = scanner.scan_games(&disk);
    assert_eq!(games, again);
}

#[test]
fn app_id_is_what_follows_the_prefix() {
    let launcher = SteamGameLauncher::new();
    assert_eq!(launcher.extract_app_id("steam_730").unwrap(), "730");
    assert_eq!(launcher.extract_app_id("steam_").unwrap(), "");
    for bad in ["730", "steam", "steam_7_30", "epic_730", "Steam_730", "_steam_1", ""] {
        let err = launcher.extract_app_id(bad).unwrap_err();
        assert_eq!(err.message, format!("Invalid Steam game ID format: {}", bad));
    }
}

#[test]
fn steam_commands_go_through_the_shell() {
    let launcher = SteamGameLauncher::new();
    let run = launcher.launch_command("steam_730").unwrap();
    assert_eq!(run.program, "cmd");
    assert_eq!(run.args, vec!["/C", "start steam://run/730"]);
    let stop = launcher.stop_command("steam_730").unwrap();
    assert_eq!(stop.args, vec!["/C", "start steam://stop/730"]);
    assert!(launcher.launch_command("730").is_err());
    assert!(launcher.stop_command("730").is_err());
    assert!(launcher.game_is_listed("steam_730", "a.exe steam_app_730.exe").unwrap());
    assert!(!launcher.game_is_listed("steam_730", "a.exe steam_app_73.exe").unwrap());
    assert!(launcher.game_is_listed("x", "").is_err());
}

#[test]
fn steam_client_is_started_only_when_it_is_not_running() {
    let launcher = SteamGameLauncher::new();
    let mut disk = DiskSnapshot::new();
    assert!(launcher.check_steam_process("x\nsteam.exe\n"));
    assert!(!launcher.check_steam_process("x\nSteam.exe\n"));
    assert_eq!(launcher.ensure_steam_running("steam.exe", &disk).unwrap(), None);
    let err = launcher.ensure_steam_running("", &disk).unwrap_err();
    assert_eq!(err.message, "Steam executable not found");
    assert!(launcher.start_steam(&disk).is_err());
    disk.add_existing("C:\\Program Files (x86)\\Steam\\steam.exe".to_string());
    let start = launcher.ensure_steam_running("", &disk).unwrap().unwrap();
    assert_eq!(start.program, "C:\\Program Files (x86)\\Steam\\steam.exe");
    assert!(start.args.is_empty());
}

#[test]
fn steam_platform_as_a_whole() {
    let mut disk = disk_with_index();
    let lib0 = join("/steam", "steamapps");
    let path = join(&lib0, "appmanifest_730.acf");
    disk.add_listing(lib0.clone(), vec![], vec![path.clone()]);
    disk.add_document(path.clone(), manifest("730", "Game X", "GameX"));
    disk.add_existing(join(&join(&lib0, "common"), "GameX"));
    let mut platform = SteamPlatform::new(Some("/steam".to_string()), &disk);
    assert_eq!(platform.platform_name(), "Steam");
    assert_eq!(platform.supported_file_types(), vec!["acf"]);
    assert!(platform.initialize().is_ok());
    assert_eq!(platform.get_library_paths().len(), 2);
    assert!(platform.add_library_path("/nowhere".to_string(), &disk).is_err());
    assert_eq!(platform.manifest_candidates("730")[0], path);
    assert!(platform.get_game_by_id("730", &disk).is_none());
    disk.add_existing(path.clone());
    assert_eq!(platform.get_game_by_id("730", &disk).unwrap().id, "steam_730");
    assert!(platform.get_game_by_id("731", &disk).is_none());
    let input = ScanInput { disk, battlenet_config: None, epic_manifests: Vec::new() };
    let mut games = platform.scan_games(&input).unwrap();
    assert_eq!(games.len(), 1);
    let before = games[0].clone();
    assert!(platform.update_metadata(&mut games[0]).is_ok());
    assert_eq!(games[0], before);
    assert_eq!(platform.launch_game("steam_730").unwrap().args[1], "start steam://run/730");
    assert_eq!(platform.stop_game("steam_730").unwrap().unwrap().args[1], "start steam://stop/730");
    assert!(platform.is_game_running("steam_730", "steam_app_730.exe").unwrap());
}

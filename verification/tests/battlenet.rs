use glaunch::models::Platform;
use glaunch::platforms::battlenet::{
    BattleNetGameLauncher, BattleNetGameScanner, BattleNetPlatform, BnetConfig, WaitOutcome,
};
use glaunch::platforms::traits::{GameLauncher, GamePlatform, GameScanner, ScanInput};
use glaunch::snapshot::DiskSnapshot;
use std::path::Path;

fn join(base: &str, part: &str) -> String {
    Path::new(base).join(part).to_string_lossy().into_owned()
}

fn join3(base: &str, a: &str, b: &str) -> String {
    join(&join(base, a), b)
}

fn client_in(base: &str) -> String {
    join3(base, "Battle.net", "Battle.net.exe")
}

fn config(default_path: Option<&str>, games: &[(&str, Option<&str>)], servers: &[(&str, Option<&str>)]) -> BnetConfig {
    BnetConfig {
        default_install_path: default_path.map(|s| s.to_string()),
        games: games.iter().map(|(k, v)| (k.to_string(), v.map(|s| s.to_string()))).collect(),
        servers: servers.iter().map(|(k, v)| (k.to_string(), v.map(|s| s.to_string()))).collect(),
    }
}

#[test]
fn launcher_is_found_under_the_first_base_that_has_it() {
    let scanner = BattleNetGameScanner::new();
    let bases = BattleNetGameScanner::base_paths();
    assert_eq!(bases, vec!["C:\\Program Files (x86)".to_string(), "C:\\Program Files".to_string()]);
    let candidates = BattleNetGameScanner::launcher_candidates(&bases);
    assert_eq!(candidates, vec![client_in(&bases[0]), client_in(&bases[1])]);
    let mut disk = DiskSnapshot::new();
    let err = scanner.find_battlenet_launcher(&bases, &disk).unwrap_err();
    assert_eq!(err.message, "Could not find Battle.net launcher");
    disk.add_existing(client_in(&bases[1]));
    assert_eq!(scanner.find_battlenet_launcher(&bases, &disk).unwrap(), client_in(&bases[1]));
    disk.add_existing(client_in(&bases[0]));
    assert_eq!(scanner.find_battlenet_launcher(&bases, &disk).unwrap(), client_in(&bases[0]));
}

#[test]
fn launch_command_uses_slashes() {
    let cmd = BattleNetGameScanner::create_launch_command("C:\\Program Files\\Battle.net\\Battle.net.exe", "WoW");
    assert_eq!(cmd, "cmd /c start \"\" \"C:/Program Files/Battle.net/Battle.net.exe\" --exec=\"launch WoW\"");
}

#[test]
fn config_path_needs_the_application_data_directory() {
    assert_eq!(
        BattleNetGameScanner::get_config_path(Some("/home/u/AppData")).unwrap(),
        join3("/home/u/AppData", "Battle.net", "Battle.net.config")
    );
    assert_eq!(BattleNetGameScanner::get_config_path(None).unwrap_err().message, "Failed to get APPDATA path");
}

#[test]
fn install_roots_follow_the_configuration() {
    let scanner = BattleNetGameScanner::new();
    let disk = DiskSnapshot::new();
    let cfg = config(
        Some("/games"),
        &[],
        &[("a1", Some("/opt/blizzard/Battle.net")), ("b2", None), ("c3", Some("/opt/other"))],
    );
    let roots = scanner.install_roots(&cfg, "/opt/blizzard/Battle.net/Battle.net.exe", &disk);
    assert_eq!(
        roots,
        vec![
            "/opt/blizzard/Battle.net".to_string(),
            "/games".to_string(),
            "/opt/blizzard".to_string(),
            "/opt/blizzard/Battle.net".to_string(),
        ]
    );
}

#[test]
fn install_roots_fall_back_to_the_standard_places() {
    let scanner = BattleNetGameScanner::new();
    let mut disk = DiskSnapshot::new();
    let standard = BattleNetGameScanner::standard_paths();
    assert_eq!(standard.len(), 2);
    let cfg = config(None, &[], &[("a1", Some("/somewhere/else"))]);
    let none = scanner.install_roots(&cfg, "/x/Battle.net/Battle.net.exe", &disk);
    assert_eq!(none, vec!["/x/Battle.net".to_string()]);
    disk.add_existing(standard[0].clone());
    disk.add_existing(standard[1].clone());
    let both = scanner.install_roots(&cfg, "/x/Battle.net/Battle.net.exe", &disk);
    assert_eq!(both, vec![standard[1].clone(), standard[0].clone(), "/x/Battle.net".to_string()]);
}

#[test]
fn scan_without_the_client_finds_nothing() {
    let scanner = BattleNetGameScanner::new();
    let mut disk = DiskSnapshot::new();
    disk.add_existing(join3(&join("/games", "World of Warcraft"), "_retail_", "Wow.exe"));
    let cfg = config(Some("/games"), &[("wow", None)], &[]);
    assert!(scanner.scan_games(&cfg, &disk).is_empty());
}

#[test]
fn scan_reports_known_installed_titles() {
    let scanner = BattleNetGameScanner::new();
    let mut disk = DiskSnapshot::new();
    let client = client_in("C:\\Program Files (x86)");
    disk.add_existing(client.clone());
    let wow_dir = join("/games", "World of Warcraft");
    disk.add_existing(join3(&wow_dir, "_retail_", "Wow.exe"));
    disk.add_size(wow_dir.clone(), 123_456);
    // installed one level deeper, under a generated directory
    disk.add_listing("/games".to_string(), vec!["/games/abc123".to_string()], vec![]);
    let d3_dir = join("/games/abc123", "Diablo III");
    disk.add_existing(join3(&d3_dir, "_retail_", "Diablo III.exe"));
    let cfg = config(
        Some("/games"),
        &[("wow", Some("1700000000")), ("nonsense", None), ("hs", None), ("d3", Some("soon"))],
        &[],
    );
    let games = scanner.scan_games(&cfg, &disk);
    assert_eq!(games.len(), 2);
    let wow = &games[0];
    assert_eq!(wow.id, "battlenet_wow");
    assert_eq!(wow.platform_id, "wow");
    assert_eq!(wow.platform, Platform::BattleNet);
    assert_eq!(wow.title, "World of Warcraft");
    assert_eq!(wow.installation.install_path, wow_dir);
    assert_eq!(
        wow.installation.executable,
        Some(BattleNetGameScanner::create_launch_command(&client, "WoW"))
    );
    assert_eq!(wow.installation.size, 123_456);
    assert_eq!(wow.installation.version, None);
    assert_eq!(wow.installation.last_updated, Some(1_700_000_000));
    assert_eq!(wow.metadata.title, "World of Warcraft");
    assert_eq!(wow.metadata.developer.as_deref(), Some("Blizzard Entertainment"));
    assert_eq!(wow.metadata.publisher.as_deref(), Some("Blizzard Entertainment"));
    assert_eq!(wow.stats.total_playtime, 0);
    let d3 = &games[1];
    assert_eq!(d3.id, "battlenet_d3");
    assert_eq!(d3.installation.install_path, d3_dir);
    assert_eq!(d3.installation.size, 0);
    assert_eq!(d3.installation.last_updated, None);
}

#[test]
fn a_code_that_is_listed_twice_is_reported_once() {
    let scanner = BattleNetGameScanner::new();
    let mut disk = DiskSnapshot::new();
    disk.add_existing(client_in("C:\\Program Files"));
    disk.add_existing(join3(&join("/games", "Hearthstone"), "_retail_", "Hearthstone.exe"));
    disk.add_existing(join3(&join("/games", "Diablo III"), "_retail_", "Diablo III.exe"));
    let cfg = config(
        Some("/games"),
        &[("hs", Some("1")), ("d3", None), ("hs", Some("2")), ("d3", Some("3"))],
        &[],
    );
    let games = scanner.scan_games(&cfg, &disk);
    let ids: Vec<&str> = games.iter().map(|g| g.id.as_str()).collect();
    assert_eq!(ids, vec!["battlenet_hs", "battlenet_d3"]);
    assert_eq!(games[0].installation.last_updated, Some(1));
    assert_eq!(games[1].installation.last_updated, None);
}

#[test]
fn known_titles_are_looked_up_by_code() {
    let scanner = BattleNetGameScanner::new();
    let ow = scanner.known_game("prometheus").unwrap();
    assert_eq!(ow.name, "Overwatch 2");
    assert_eq!(ow.game_dir, "Overwatch");
    assert_eq!(ow.launcher_exe, "Overwatch Launcher.exe");
    assert_eq!(ow.launch_code, "Pro");
    assert_eq!(ow.game_exe, "Overwatch.exe");
    assert_eq!(ow.game_subdir, "_retail_");
    assert_eq!(scanner.known_game("viper").unwrap().game_exe, "ModernWarfare.exe");
    assert_eq!(scanner.known_game("d4").unwrap().launch_code, "D3");
    assert!(scanner.known_game("fenris").is_none());
    for code in ["wow", "prometheus", "d4", "d3", "hs", "hots", "scr", "s2", "w3", "viper"] {
        assert!(scanner.known_game(code).is_some());
    }
}

#[test]
fn launch_info_table() {
    let wow = BattleNetGameLauncher::get_launch_info("battlenet_wow").unwrap();
    assert_eq!((wow.game_id, wow.launch_code, wow.process_name, wow.wait_secs), ("wow", "WoW", "Wow.exe", 5));
    let ow = BattleNetGameLauncher::get_launch_info("battlenet_prometheus").unwrap();
    assert_eq!(ow.process_name, "Overwatch Application.exe");
    assert_eq!(ow.process_name_alt, Some("Overwatch.exe"));
    assert_eq!(ow.wait_secs, 3);
    let d4 = BattleNetGameLauncher::get_launch_info("battlenet_fenris").unwrap();
    assert_eq!((d4.game_id, d4.launch_code), ("diablo4", "OSI"));
    assert_eq!(BattleNetGameLauncher::get_launch_info("battlenet_hs").unwrap().launch_code, "WTCG");
    assert_eq!(BattleNetGameLauncher::get_launch_info("battlenet_d3").unwrap().launch_code, "D3");
    assert!(BattleNetGameLauncher::get_launch_info("battlenet_d4").is_none());
    assert!(BattleNetGameLauncher::get_launch_info("wow").is_none());
    assert!(BattleNetGameLauncher::get_launch_info("steam_wow").is_none());
}

#[test]
fn client_path_prefers_standard_places() {
    let mut disk = DiskSnapshot::new();
    let err = BattleNetGameLauncher::get_battlenet_path(&disk, None).unwrap_err();
    assert_eq!(err.message, "Failed to find Battle.net in registry");
    let err = BattleNetGameLauncher::get_battlenet_path(&disk, Some("/reg/Battle.net")).unwrap_err();
    assert_eq!(err.message, "Battle.net launcher not found");
    disk.add_existing(join("/reg/Battle.net", "Battle.net.exe"));
    assert_eq!(
        BattleNetGameLauncher::get_battlenet_path(&disk, Some("/reg/Battle.net")).unwrap(),
        join("/reg/Battle.net", "Battle.net.exe")
    );
    let standard = BattleNetGameLauncher::standard_launcher_paths();
    disk.add_existing(standard[1].clone());
    assert_eq!(BattleNetGameLauncher::get_battlenet_path(&disk, Some("/reg/Battle.net")).unwrap(), standard[1]);
    disk.add_existing(standard[0].clone());
    assert_eq!(BattleNetGameLauncher::get_battlenet_path(&disk, None).unwrap(), standard[0]);
}

#[test]
fn launching_needs_a_launchable_title_and_the_client() {
    let with_client = BattleNetGameLauncher::new(Some("/c/Battle.net.exe".to_string()));
    let cmd = with_client.launch_command("battlenet_hs").unwrap();
    assert_eq!(cmd.program, "/c/Battle.net.exe");
    assert_eq!(cmd.args, vec!["--exec".to_string(), "launch WTCG".to_string()]);
    let err = with_client.launch_command("battlenet_hots").unwrap_err();
    assert_eq!(err.message, "Unsupported Battle.net game: battlenet_hots");
    let without = BattleNetGameLauncher::new(None);
    assert_eq!(without.launch_command("battlenet_hs").unwrap_err().message, "Battle.net launcher not found");
    assert_eq!(
        without.launch_command("epic_x").unwrap_err().message,
        "Unsupported Battle.net game: epic_x"
    );
}

#[test]
fn battlenet_client_is_started_only_when_it_is_not_running() {
    let launcher = BattleNetGameLauncher::new(Some("/c/Battle.net.exe".to_string()));
    assert_eq!(launcher.ensure_battlenet_running("a.exe\nBattle.net.exe\n").unwrap(), None);
    let start = launcher.ensure_battlenet_running("a.exe\n").unwrap().unwrap();
    assert_eq!(start.program, "/c/Battle.net.exe");
    assert!(start.args.is_empty());
    let lost = BattleNetGameLauncher::new(None);
    assert!(lost.ensure_battlenet_running("a.exe").is_err());
    assert!(BattleNetGameLauncher::client_is_running("x Battle.net.exe y"));
    assert!(!BattleNetGameLauncher::client_is_running("battle.net.exe"));
}

#[test]
fn waiting_for_the_title() {
    let ow = BattleNetGameLauncher::get_launch_info("battlenet_prometheus").unwrap();
    assert_eq!(BattleNetGameLauncher::wait_for_game_process(&ow, "Overwatch.exe", 0), WaitOutcome::Appeared);
    assert_eq!(
        BattleNetGameLauncher::wait_for_game_process(&ow, "Overwatch Application.exe", 29),
        WaitOutcome::Appeared
    );
    assert_eq!(BattleNetGameLauncher::wait_for_game_process(&ow, "explorer.exe", 29), WaitOutcome::KeepWaiting);
    assert_eq!(BattleNetGameLauncher::wait_for_game_process(&ow, "explorer.exe", 30), WaitOutcome::TimedOut);
    assert_eq!(BattleNetGameLauncher::wait_for_game_process(&ow, "Overwatch.exe", 30), WaitOutcome::TimedOut);
    assert_eq!(
        BattleNetGameLauncher::timeout_error(&ow).message,
        "Game process Overwatch Application.exe did not start"
    );
    assert!(BattleNetGameLauncher::game_is_listed("battlenet_wow", "Wow.exe"));
    assert!(!BattleNetGameLauncher::game_is_listed("battlenet_wow", "wow.exe"));
    assert!(!BattleNetGameLauncher::game_is_listed("battlenet_hots", "Wow.exe"));
}

#[test]
fn platform_scans_with_the_configuration_it_is_given() {
    let mut platform = BattleNetPlatform::new(Some("/c/Battle.net.exe".to_string()));
    assert_eq!(platform.platform_name(), "Battle.net");
    assert!(platform.supported_file_types().is_empty());
    assert!(platform.initialize().is_ok());
    assert!(platform.get_library_paths().is_empty());
    let mut disk = DiskSnapshot::new();
    disk.add_existing(client_in("C:\\Program Files"));
    let hs_dir = join("/games", "Hearthstone");
    disk.add_existing(join3(&hs_dir, "_retail_", "Hearthstone.exe"));
    assert!(platform.add_library_path("/x".to_string(), &disk).is_ok());
    let input = ScanInput {
        disk,
        battlenet_config: Some(config(Some("/games"), &[("hs", None)], &[])),
        epic_manifests: Vec::new(),
    };
    let games = platform.scan_games(&input).unwrap();
    assert_eq!(games.len(), 1);
    assert_eq!(games[0].id, "battlenet_hs");
    let without = ScanInput { battlenet_config: None, ..input };
    assert!(platform.scan_games(&without).unwrap().is_empty());
    assert_eq!(platform.launch_game("battlenet_wow").unwrap().args[1], "launch WoW");
    assert_eq!(platform.stop_game("battlenet_wow").unwrap(), None);
    assert!(platform.is_game_running("battlenet_wow", "Wow.exe").unwrap());
}

use glaunch::models::Platform;
use glaunch::platforms::epic::{EpicGameLauncher, EpicGameScanner, EpicManifest, EpicPlatform};
use glaunch::platforms::traits::{GameLauncher, GamePlatform, GameScanner, ScanInput};
use glaunch::snapshot::DiskSnapshot;
use std::path::Path;

fn manifest(app: &str, name: &str, categories: Option<&[&str]>) -> EpicManifest {
    EpicManifest {
        install_location: format!("/epic/{}", app),
        display_name: name.to_string(),
        app_name: app.to_string(),
        main_executable: None,
        install_size: None,
        version: None,
        categories: categories.map(|c| c.iter().map(|s| s.to_string()).collect()),
    }
}

#[test]
fn manifest_becomes_a_game() {
    let scanner = EpicGameScanner::new(None);
    let mut m = manifest("Fortnite", "Fortnite", Some(&["public", "games"]));
    m.install_size = Some(42);
    m.version = Some("1.2.3".to_string());
    let g = scanner.create_game_from_manifest(&m).unwrap();
    assert_eq!(g.id, "epic_Fortnite");
    assert_eq!(g.platform_id, "Fortnite");
    assert_eq!(g.platform, Platform::Epic);
    assert_eq!(g.title, "Fortnite");
    assert_eq!(g.installation.install_path, "/epic/Fortnite");
    assert_eq!(
        g.installation.executable.as_deref(),
        Some("com.epicgames.launcher://apps/Fortnite?action=launch")
    );
    assert_eq!(g.installation.size, 42);
    assert_eq!(g.installation.version.as_deref(), Some("1.2.3"));
    assert_eq!(g.installation.last_updated, None);
    assert_eq!(g.metadata.title, "Fortnite");
    assert!(g.metadata.genres.is_empty());
    assert_eq!(g.media.thumbnail, None);
    assert_eq!(g.stats.sessions_count, 0);
}

#[test]
fn missing_size_is_zero() {
    let scanner = EpicGameScanner::new(None);
    let g = scanner.create_game_from_manifest(&manifest("A", "A", Some(&["applications"]))).unwrap();
    assert_eq!(g.installation.size, 0);
    assert_eq!(g.installation.version, None);
}

#[test]
fn only_games_and_applications_are_included() {
    let scanner = EpicGameScanner::new(None);
    assert!(scanner.should_include_app(&manifest("A", "A", Some(&["games"]))));
    assert!(scanner.should_include_app(&manifest("A", "A", Some(&["x", "applications"]))));
    assert!(!scanner.should_include_app(&manifest("A", "A", Some(&["engines", "Games"]))));
    assert!(!scanner.should_include_app(&manifest("A", "A", Some(&[]))));
    assert!(!scanner.should_include_app(&manifest("A", "A", None)));
    let err = scanner.create_game_from_manifest(&manifest("UE", "Unreal Engine", Some(&["engines"]))).unwrap_err();
    assert_eq!(err.message, "Skipping non-game application: Unreal Engine");
}

#[test]
fn scan_skips_what_is_no_game() {
    let scanner = EpicGameScanner::new(None);
    let manifests = vec![
        manifest("A", "Game A", Some(&["games"])),
        manifest("UE", "Unreal Engine", Some(&["engines"])),
        manifest("B", "Game B", Some(&["applications"])),
        manifest("C", "Game C", None),
    ];
    let games = scanner.scan_games(&manifests);
    let ids: Vec<&str> = games.iter().map(|g| g.id.as_str()).collect();
    assert_eq!(ids, vec!["epic_A", "epic_B"]);
    assert!(scanner.scan_games(&Vec::new()).is_empty());
}

#[test]
fn scanner_paths() {
    let mut scanner = EpicGameScanner::new(None);
    assert_eq!(scanner.get_install_path(), "C:\\Program Files\\Epic Games");
    assert_eq!(EpicGameScanner::new(Some("/opt/epic".to_string())).get_install_path(), "/opt/epic");
    assert!(scanner.add_user_folder("/more".to_string()).is_ok());
    assert!(scanner.add_user_folder("/more".to_string()).is_ok());
    let expected = Path::new("/pd").join("Epic").join("EpicGamesLauncher").join("Data").join("Manifests");
    assert_eq!(EpicGameScanner::get_manifests_path(Some("/pd")).unwrap(), expected.to_string_lossy());
    assert_eq!(EpicGameScanner::get_manifests_path(None).unwrap_err().message, "Failed to get PROGRAMDATA path");
    assert!(EpicGameScanner::is_manifest_file("/pd/Manifests/0A1B.item"));
    assert!(!EpicGameScanner::is_manifest_file("/pd/Manifests/0A1B.json"));
    assert!(!EpicGameScanner::is_manifest_file("/pd/Manifests/item"));
}

#[test]
fn launch_goes_through_the_shell() {
    let launcher = EpicGameLauncher::new();
    let cmd = launcher.launch_command("epic_Fortnite").unwrap();
    assert_eq!(cmd.program, "cmd");
    assert_eq!(cmd.args, vec!["/C", "start", "", "com.epicgames.launcher://apps/Fortnite?action=launch"]);
    assert_eq!(launcher.launch_command("steam_1").unwrap_err().message, "Invalid Epic game ID format");
    assert_eq!(launcher.launch_command("epic").unwrap_err().message, "Invalid Epic game ID format");
    assert!(launcher.launch_command("epic_").is_ok());
}

#[test]
fn epic_platform_as_a_whole() {
    let mut platform = EpicPlatform::new(Some("/opt/epic".to_string()));
    assert_eq!(platform.platform_name(), "Epic Games");
    assert!(platform.supported_file_types().is_empty());
    assert!(platform.initialize().is_ok());
    assert_eq!(platform.get_library_paths(), vec!["/opt/epic".to_string()]);
    let disk = DiskSnapshot::new();
    assert!(platform.add_library_path("/more".to_string(), &disk).is_ok());
    let input = ScanInput {
        disk,
        battlenet_config: None,
        epic_manifests: vec![manifest("A", "Game A", Some(&["games"]))],
    };
    assert_eq!(platform.scan_games(&input).unwrap()[0].id, "epic_A");
    assert_eq!(platform.launch_game("epic_A").unwrap().args[3], "com.epicgames.launcher://apps/A?action=launch");
    assert_eq!(platform.stop_game("epic_A").unwrap(), None);
    assert_eq!(platform.is_game_running("epic_A", "A.exe").unwrap(), false);
}

use glaunch::models::{Game, GameInstallation, GameMedia, GameMetadata, GameStats, Platform};
use glaunch::monitor::{process_is_running, GameMonitor, WindowInfo, POLL_INTERVAL_SECS, STILL_ACTIVE};
use glaunch::snapshot::DiskSnapshot;

fn game(id: &str, platform: Platform, title: &str, executable: Option<&str>, install_path: &str) -> Game {
    Game {
        id: id.to_string(),
        platform_id: id.to_string(),
        platform,
        title: title.to_string(),
        installation: GameInstallation {
            install_path: install_path.to_string(),
            executable: executable.map(|s| s.to_string()),
            size: 0,
            version: None,
            last_updated: None,
        },
        metadata: GameMetadata::titled(title.to_string()),
        media: GameMedia::empty(),
        last_played: None,
        stats: GameStats::zero(),
    }
}

fn window(handle: isize, pid: u32, module: Option<&str>) -> WindowInfo {
    WindowInfo {
        handle,
        process_id: pid,
        module_name: module.map(|s| s.to_string()),
        visible: true,
        owned: false,
        title_length: 5,
    }
}

#[test]
fn command_is_stripped_of_arguments() {
    assert_eq!(GameMonitor::sanitize_command("  /games/x/game.exe  "), "/games/x/game.exe");
    assert_eq!(GameMonitor::sanitize_command("/games/x/game.exe --fullscreen --x"), "/games/x/game.exe");
    assert_eq!(GameMonitor::sanitize_command("/games/x/game.exe \"arg\""), "/games/x/game.exe");
    assert_eq!(
        GameMonitor::sanitize_command("cmd /c start \"\" \"C:/B/Battle.net.exe\" --exec=\"launch WoW\""),
        "cmd /c start"
    );
    assert_eq!(GameMonitor::sanitize_command(""), "");
}

#[test]
fn names_come_from_title_command_table_and_files() {
    let disk = DiskSnapshot::new();
    let custom = game("custom_1", Platform::Custom, "My Game 2", Some("/g/My/Launcher.EXE --x"), "/g/My");
    assert_eq!(GameMonitor::possible_names(&custom, &disk), vec!["mygame2.exe", "launcher.exe"]);
    let bare = game("epic_A", Platform::Epic, "A", None, "/g/a");
    assert_eq!(GameMonitor::possible_names(&bare, &disk), vec!["a.exe"]);
    let wow = game("battlenet_wow", Platform::BattleNet, "World of Warcraft", None, "/g/wow");
    assert_eq!(GameMonitor::possible_names(&wow, &disk), vec!["worldofwarcraft.exe", "wow.exe"]);
    let d4 = game("battlenet_d4", Platform::BattleNet, "Diablo IV", None, "/g/d4");
    assert_eq!(GameMonitor::possible_names(&d4, &disk), vec!["diabloiv.exe", "diablo iv.exe"]);
    let ow = game("battlenet_overwatch", Platform::BattleNet, "Overwatch 2", None, "/g/ow");
    assert_eq!(GameMonitor::possible_names(&ow, &disk), vec!["overwatch2.exe", "overwatch.exe"]);
    let other = game("battlenet_hs", Platform::BattleNet, "Hearthstone", None, "/g/hs");
    assert_eq!(GameMonitor::possible_names(&other, &disk), vec!["hearthstone.exe"]);
    // the table is for one platform only
    let fake = game("battlenet_wow", Platform::Epic, "W", None, "/g/w");
    assert_eq!(GameMonitor::possible_names(&fake, &disk), vec!["w.exe"]);
}

#[test]
fn steam_names_include_the_install_directory() {
    let mut disk = DiskSnapshot::new();
    disk.add_listing(
        "/s/common/GameX".to_string(),
        vec!["/s/common/GameX/bin.exe".to_string()],
        vec![
            "/s/common/GameX/GameX-Win64.exe".to_string(),
            "/s/common/GameX/unins000.exe".to_string(),
            "/s/common/GameX/CrashReporter.exe".to_string(),
            "/s/common/GameX/UnityPlayer.exe".to_string(),
            "/s/common/GameX/UE4Prereq.exe".to_string(),
            "/s/common/GameX/readme.txt".to_string(),
            "/s/common/GameX/Tool.exe".to_string(),
        ],
    );
    let g = game("steam_1", Platform::Steam, "Game X", Some("/s/common/GameX/GameX.exe"), "/s/common/GameX");
    assert_eq!(
        GameMonitor::possible_names(&g, &disk),
        vec!["gamex.exe", "gamex.exe", "gamex-win64.exe", "tool.exe"]
    );
    assert_eq!(GameMonitor::name_of_file("/a/B.exe"), Some("b.exe".to_string()));
    assert_eq!(GameMonitor::name_of_file("/a/B.EXE"), None);
    assert_eq!(GameMonitor::name_of_file("/a/UE4Game.exe"), None);
    // for another platform the directory is not looked at
    let e = game("epic_1", Platform::Epic, "Game X", None, "/s/common/GameX");
    assert_eq!(GameMonitor::possible_names(&e, &disk), vec!["gamex.exe"]);
}

#[test]
fn only_main_windows_match() {
    let ok = window(1, 10, Some("GameX.exe"));
    assert!(GameMonitor::is_main_window_of(&ok, "gamex.exe"));
    assert!(GameMonitor::is_main_window_of(&ok, "gamex"));
    assert!(!GameMonitor::is_main_window_of(&ok, "GameX.exe"));
    assert!(!GameMonitor::is_main_window_of(&ok, "other.exe"));
    assert!(!GameMonitor::is_main_window_of(&WindowInfo { visible: false, ..window(1, 10, Some("gamex.exe")) }, "gamex.exe"));
    assert!(!GameMonitor::is_main_window_of(&WindowInfo { owned: true, ..window(1, 10, Some("gamex.exe")) }, "gamex.exe"));
    assert!(!GameMonitor::is_main_window_of(&WindowInfo { title_length: 0, ..window(1, 10, Some("gamex.exe")) }, "gamex.exe"));
    assert!(!GameMonitor::is_main_window_of(&window(1, 10, None), "gamex.exe"));
}

#[test]
fn first_window_of_first_name_wins() {
    let windows = vec![
        window(1, 10, Some("explorer.exe")),
        window(2, 20, Some("Launcher.exe")),
        window(3, 30, Some("GameX.exe")),
        window(4, 40, Some("gamex.exe")),
    ];
    assert_eq!(GameMonitor::find_window(&windows, "gamex.exe").unwrap().handle, 3);
    assert!(GameMonitor::find_window(&windows, "nothing.exe").is_none());
    let names = vec!["nothing.exe".to_string(), "gamex.exe".to_string(), "launcher.exe".to_string()];
    assert_eq!(GameMonitor::correlate(&windows, &names).unwrap().process_id, 30);
    let names = vec!["launcher.exe".to_string(), "gamex.exe".to_string()];
    assert_eq!(GameMonitor::correlate(&windows, &names).unwrap().process_id, 20);
    assert!(GameMonitor::correlate(&windows, &Vec::new()).is_none());
    assert!(GameMonitor::correlate(&Vec::new(), &names).is_none());
}

#[test]
fn a_process_runs_only_if_it_is_reported_still_active() {
    assert_eq!(STILL_ACTIVE, 259);
    assert_eq!(POLL_INTERVAL_SECS, 1);
    let statuses = vec![(1, Some(259)), (2, Some(0)), (3, None), (1, Some(0))];
    assert!(process_is_running(&statuses, 1));
    assert!(!process_is_running(&statuses, 2));
    assert!(!process_is_running(&statuses, 3));
    assert!(!process_is_running(&statuses, 4));
    assert!(!process_is_running(&Vec::new(), 1));
}

#[test]
fn session_lives_until_the_process_exits() {
    let disk = DiskSnapshot::new();
    let mut monitor = GameMonitor::new();
    let g = game("custom_1", Platform::Custom, "Game X", Some("/g/GameX.exe"), "/g");
    let windows = vec![window(7, 4242, Some("GameX.exe"))];
    assert_eq!(monitor.get_active_game(&vec![(4242, Some(STILL_ACTIVE))]), None);
    let tracking = monitor.track_game(&g, &disk, &windows, 1_000);
    let session = tracking.session.unwrap();
    assert!(tracking.start_monitoring);
    assert_eq!(session.game_id, "custom_1");
    assert_eq!(session.start_time, 1_000);
    assert_eq!(session.process_id, 4242);
    assert_eq!(session.window_handle, 7);
    assert!(monitor.is_game_running("custom_1"));
    assert_eq!(monitor.active_count(), 1);
    assert_eq!(monitor.process_ids(), vec![4242]);
    let running = vec![(4242, Some(STILL_ACTIVE))];
    assert_eq!(monitor.get_active_game(&running).unwrap().game_id, "custom_1");
    let round = monitor.poll(&running, 1_010);
    assert!(round.ended.is_empty());
    assert!(round.keep_polling);
    assert_eq!(monitor.get_active_game(&running).unwrap().game_id, "custom_1");
    let exited = vec![(4242, Some(0))];
    assert_eq!(monitor.get_active_game(&exited), None);
    let round = monitor.poll(&exited, 1_075);
    assert!(!round.keep_polling);
    assert_eq!(round.ended.len(), 1);
    assert_eq!(round.ended[0].game_id, "custom_1");
    assert_eq!(round.ended[0].start_time, 1_000);
    assert_eq!(round.ended[0].duration_secs, Some(75));
    assert!(!monitor.is_game_running("custom_1"));
    assert_eq!(monitor.get_active_game(&running), None);
    assert_eq!(monitor.active_count(), 0);
    assert!(monitor.sessions().is_empty());
}

#[test]
fn no_window_means_no_session() {
    let disk = DiskSnapshot::new();
    let mut monitor = GameMonitor::new();
    let g = game("custom_1", Platform::Custom, "Game X", None, "/g");
    let windows = vec![window(7, 4242, Some("other.exe")), window(8, 1, None)];
    let tracking = monitor.track_game(&g, &disk, &windows, 1_000);
    assert_eq!(tracking.session, None);
    assert!(!tracking.start_monitoring);
    assert_eq!(monitor.active_count(), 0);
    assert!(!monitor.is_game_running("custom_1"));
}

#[test]
fn one_session_per_game_and_one_loop_for_all() {
    let disk = DiskSnapshot::new();
    let mut monitor = GameMonitor::new();
    let a = game("custom_a", Platform::Custom, "A", None, "/a");
    let b = game("custom_b", Platform::Custom, "B", None, "/b");
    let windows = vec![window(1, 100, Some("a.exe")), window(2, 200, Some("b.exe")), window(3, 300, Some("A.exe"))];
    assert!(monitor.track_game(&a, &disk, &windows, 10).start_monitoring);
    assert!(!monitor.track_game(&b, &disk, &windows, 20).start_monitoring);
    // tracked again: the session is replaced, not doubled
    let later = vec![window(3, 300, Some("A.exe"))];
    let again = monitor.track_game(&a, &disk, &later, 30);
    assert!(!again.start_monitoring);
    assert_eq!(again.session.unwrap().process_id, 300);
    let sessions = monitor.sessions();
    assert_eq!(sessions.len(), 2);
    assert_eq!((sessions[0].game_id.as_str(), sessions[0].start_time, sessions[0].process_id), ("custom_a", 30, 300));
    assert_eq!((sessions[1].game_id.as_str(), sessions[1].start_time, sessions[1].process_id), ("custom_b", 20, 200));
    // a failed query counts as an exit; b stays
    let statuses = vec![(300, None), (200, Some(STILL_ACTIVE))];
    assert_eq!(monitor.get_active_game(&statuses).unwrap().game_id, "custom_b");
    let round = monitor.poll(&statuses, 25);
    assert!(round.keep_polling);
    assert_eq!(round.ended.len(), 1);
    assert_eq!(round.ended[0].game_id, "custom_a");
    // the clock reads earlier than the start: no duration
    assert_eq!(round.ended[0].duration_secs, None);
    assert!(monitor.is_game_running("custom_b"));
    assert!(!monitor.is_game_running("custom_a"));
    let round = monitor.poll(&Vec::new(), 50);
    assert!(!round.keep_polling);
    assert_eq!(round.ended[0].duration_secs, Some(30));
}

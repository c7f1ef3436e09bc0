use glaunch::database::Database;
use glaunch::game_manager::{GameCache, GameManager};
use glaunch::launch::{LaunchAction, LaunchEvent, LaunchState, step};
use glaunch::models::{
    CustomGameConfig, Game, GameInstallation, GameMedia, GameMetadata, GameStats, Platform,
};
use glaunch::monitor::{EndedSession, GameMonitor, WindowInfo};
use glaunch::platforms::battlenet::{BattleNetPlatform, BnetConfig};
use glaunch::platforms::epic::{EpicManifest, EpicPlatform};
use glaunch::platforms::steam::SteamPlatform;
use glaunch::platforms::traits::ScanInput;
use glaunch::snapshot::DiskSnapshot;
use std::path::Path;

fn game(id: &str, platform: Platform, version: &str, path: &str) -> Game {
    Game {
        id: id.to_string(),
        platform_id: id.to_string(),
        platform,
        title: format!("Title of {}", id),
        installation: GameInstallation {
            install_path: path.to_string(),
            executable: Some(format!("{}/run.exe", path)),
            size: 10,
            version: Some(version.to_string()),
            last_updated: Some(1),
        },
        metadata: GameMetadata::titled(format!("Title of {}", id)),
        media: GameMedia::empty(),
        last_played: None,
        stats: GameStats::zero(),
    }
}

fn enriched(mut g: Game) -> Game {
    g.metadata.description = Some("described".to_string());
    g.metadata.genres = vec!["RPG".to_string()];
    g.media.cover = Some("media/cover.jpg".to_string());
    g.stats = GameStats { total_playtime: 500, last_session_duration: 20, sessions_count: 7, first_played: Some(3), last_played: Some(900) };
    g.last_played = Some(900);
    g
}

fn manager() -> GameManager {
    GameManager::new(Database::new(), GameMonitor::new())
}

fn disk_with(paths: &[&str]) -> DiskSnapshot {
    let mut disk = DiskSnapshot::new();
    for p in paths {
        disk.add_existing(p.to_string());
    }
    disk
}

#[test]
fn first_scan_stores_what_it_finds() {
    let mut m = manager();
    let scanned = vec![game("steam_1", Platform::Steam, "1", "/s/1"), game("epic_A", Platform::Epic, "1", "/e/A")];
    let result = m.scan_all_platforms(false, &scanned, &disk_with(&["/s/1", "/e/A"]));
    assert_eq!(result, scanned);
    // the stored games are listed by title
    assert_eq!(m.database.get_all_games(), vec![scanned[1].clone(), scanned[0].clone()]);
}

#[test]
fn rescan_without_changes_alters_nothing() {
    let mut m = manager();
    let stored = enriched(game("steam_1", Platform::Steam, "1", "/s/1"));
    m.database.upsert_game(&stored);
    let disk = disk_with(&["/s/1"]);
    let scanned = vec![game("steam_1", Platform::Steam, "1", "/s/1")];
    let result = m.scan_all_platforms(false, &scanned, &disk);
    assert_eq!(result, vec![stored.clone()]);
    assert_eq!(m.database.get_game("steam_1"), Some(stored.clone()));
    let again = m.scan_all_platforms(false, &scanned, &disk);
    assert_eq!(again, vec![stored.clone()]);
    assert_eq!(m.database.get_all_games(), vec![stored]);
}

#[test]
fn changed_installation_is_taken_over_and_enrichment_kept() {
    let mut m = manager();
    let stored = enriched(game("steam_1", Platform::Steam, "1", "/s/1"));
    m.database.upsert_game(&stored);
    let mut found = game("steam_1", Platform::Steam, "2", "/s/1");
    found.title = "Renamed".to_string();
    found.installation.size = 99;
    let result = m.scan_all_platforms(false, &vec![found.clone()], &disk_with(&["/s/1"]));
    assert_eq!(result.len(), 1);
    let merged = &result[0];
    assert_eq!(merged.installation, found.installation);
    assert_eq!(merged.title, "Renamed");
    assert_eq!(merged.metadata, stored.metadata);
    assert_eq!(merged.media, stored.media);
    assert_eq!(merged.stats, stored.stats);
    assert_eq!(merged.last_played, stored.last_played);
    assert_eq!(m.database.get_game("steam_1").as_ref(), Some(merged));
    // a moved install counts as a change too
    let moved = game("steam_1", Platform::Steam, "2", "/elsewhere/1");
    let result = m.scan_all_platforms(false, &vec![moved], &disk_with(&["/elsewhere/1"]));
    assert_eq!(result[0].installation.install_path, "/elsewhere/1");
    assert_eq!(result[0].stats, stored.stats);
}

#[test]
fn uninstalled_games_are_removed_but_custom_games_stay() {
    let mut m = manager();
    let gone = enriched(game("steam_1", Platform::Steam, "1", "/s/1"));
    let missed = game("steam_2", Platform::Steam, "1", "/s/2");
    let custom = game("custom_x", Platform::Custom, "1", "/c/x");
    let found = game("steam_3", Platform::Steam, "1", "/s/3");
    for g in [&gone, &missed, &custom, &found] {
        m.database.upsert_game(g);
    }
    // steam_2 was missed by the scan but is still on disk; steam_3 was
    // found although its path is not in the snapshot
    let disk = disk_with(&["/s/2"]);
    let result = m.scan_all_platforms(false, &vec![found.clone()], &disk);
    assert_eq!(result, vec![found.clone()]);
    assert_eq!(m.database.get_game("steam_1"), None);
    assert_eq!(m.database.get_game("steam_2"), Some(missed));
    assert_eq!(m.database.get_game("custom_x"), Some(custom));
    assert_eq!(m.database.get_game("steam_3"), Some(found));
}

#[test]
fn scanned_games_with_one_id_count_once() {
    let mut m = manager();
    let first = game("steam_1", Platform::Steam, "1", "/lib1/1");
    let second = game("steam_1", Platform::Steam, "2", "/lib2/1");
    let other = game("steam_2", Platform::Steam, "1", "/lib1/2");
    let result = m.scan_all_platforms(false, &vec![first.clone(), second, other.clone()], &DiskSnapshot::new());
    assert_eq!(result, vec![first.clone(), other]);
    assert_eq!(m.database.get_game("steam_1"), Some(first));
    let mut ids: Vec<&str> = result.iter().map(|g| g.id.as_str()).collect();
    ids.dedup();
    assert_eq!(ids.len(), result.len());
}

#[test]
fn cached_scan_reads_the_store_only() {
    let mut m = manager();
    let stored = game("steam_1", Platform::Steam, "1", "/gone");
    m.database.upsert_game(&stored);
    let result = m.scan_all_platforms(true, &vec![game("steam_9", Platform::Steam, "1", "/s/9")], &DiskSnapshot::new());
    assert_eq!(result, vec![stored.clone()]);
    assert_eq!(m.database.get_all_games(), vec![stored]);
}

#[test]
fn custom_game_is_added_under_a_fresh_id() {
    let mut m = manager();
    let mut disk = disk_with(&["/c/game/run.exe", "/c/game"]);
    disk.add_size("/c/game".to_string(), 4096);
    let config = CustomGameConfig {
        title: "Mine".to_string(),
        executable_path: "/c/game/run.exe".to_string(),
        install_path: "/c/game".to_string(),
        platform: "custom".to_string(),
        icon_path: Some("/c/game/icon.png".to_string()),
    };
    let g = m.add_custom_game_with_id(&config, "1234", &disk).unwrap();
    assert_eq!(g.id, "custom_1234");
    assert_eq!(g.platform_id, "custom_1234");
    assert_eq!(g.platform, Platform::Custom);
    assert_eq!(g.title, "Mine");
    assert_eq!(g.installation.install_path, "/c/game");
    assert_eq!(g.installation.executable.as_deref(), Some("/c/game/run.exe"));
    assert_eq!(g.installation.size, 4096);
    assert_eq!(g.installation.version, None);
    assert_eq!(g.metadata, GameMetadata::titled("Mine".to_string()));
    assert_eq!(g.media.thumbnail.as_deref(), Some("/c/game/icon.png"));
    assert_eq!(g.media.icon.as_deref(), Some("/c/game/icon.png"));
    assert_eq!(g.media.cover, None);
    assert_eq!(g.stats, GameStats::zero());
    assert_eq!(m.database.get_game("custom_1234"), Some(g));
    let a = m.add_custom_game(&config, &disk).unwrap();
    let b = m.add_custom_game(&config, &disk).unwrap();
    assert!(a.id.starts_with("custom_"));
    assert_eq!(a.id.len(), "custom_".len() + 36);
    assert_eq!(a.platform_id, a.id);
    assert_ne!(a.id, b.id);
    assert_eq!(m.database.game_count(), 3);
}

#[test]
fn custom_game_needs_its_files() {
    let mut m = manager();
    let config = CustomGameConfig {
        title: "Mine".to_string(),
        executable_path: "/c/game/run.exe".to_string(),
        install_path: "/c/game".to_string(),
        platform: "custom".to_string(),
        icon_path: None,
    };
    let err = m.add_custom_game_with_id(&config, "1", &DiskSnapshot::new()).unwrap_err();
    assert_eq!(err.message, "Executable not found: /c/game/run.exe");
    let err = m.add_custom_game_with_id(&config, "1", &disk_with(&["/c/game/run.exe"])).unwrap_err();
    assert_eq!(err.message, "Installation path not found: /c/game");
    let err = m.add_custom_game(&config, &disk_with(&["/c/game"])).unwrap_err();
    assert_eq!(err.message, "Executable not found: /c/game/run.exe");
    assert_eq!(m.database.game_count(), 0);
    // without an icon there is no thumbnail, and an unmeasured folder has size 0
    let g = m.add_custom_game_with_id(&config, "1", &disk_with(&["/c/game/run.exe", "/c/game"])).unwrap();
    assert_eq!(g.media, GameMedia::empty());
    assert_eq!(g.installation.size, 0);
}

#[test]
fn custom_game_is_not_added_under_a_stored_id() {
    let mut m = manager();
    let config = CustomGameConfig {
        title: "Mine".to_string(),
        executable_path: "/c/game/run.exe".to_string(),
        install_path: "/c/game".to_string(),
        platform: "custom".to_string(),
        icon_path: None,
    };
    let disk = disk_with(&["/c/game/run.exe", "/c/game"]);
    let first = m.add_custom_game_with_id(&config, "1", &disk).unwrap();
    let other = CustomGameConfig { title: "Other".to_string(), ..config };
    let err = m.add_custom_game_with_id(&other, "1", &disk).unwrap_err();
    assert_eq!(err.message, "Game id already in use: custom_1");
    assert_eq!(m.database.game_count(), 1);
    assert_eq!(m.get_game("custom_1"), Some(first));
    assert!(m.add_custom_game_with_id(&other, "2", &disk).is_ok());
}

#[test]
fn closed_sessions_are_recorded() {
    let mut m = manager();
    let a = game("custom_a", Platform::Custom, "1", "/a");
    let b = game("custom_b", Platform::Custom, "1", "/b");
    m.database.upsert_game(&a);
    m.database.upsert_game(&b);
    let disk = DiskSnapshot::new();
    let window = |handle: isize, pid: u32, module: &str| WindowInfo {
        handle,
        process_id: pid,
        module_name: Some(module.to_string()),
        visible: true,
        owned: false,
        title_length: 3,
    };
    let windows = vec![window(1, 100, "run.exe")];
    assert!(m.game_monitor.track_game(&a, &disk, &windows, 1_000).session.is_some());
    assert!(m.game_monitor.track_game(&b, &disk, &windows, 1_010).session.is_some());
    // nothing has exited: nothing is recorded
    let round = m.poll_sessions(&vec![(100, Some(259))], 1_020);
    assert!(round.keep_polling && round.ended.is_empty() && round.failed.is_empty());
    assert!(m.database.sessions().is_empty());
    // the process has exited: both sessions are closed and recorded
    let round = m.poll_sessions(&vec![(100, Some(0))], 1_075);
    assert!(!round.keep_polling);
    assert!(round.failed.is_empty());
    assert_eq!(round.ended.len(), 2);
    assert_eq!(m.game_monitor.active_count(), 0);
    assert_eq!(m.game_monitor.get_active_game(&vec![(100, Some(259))]), None);
    let history = m.database.sessions();
    assert_eq!(history.len(), 2);
    assert_eq!((history[0].id, history[0].game_id.as_str()), (1, "custom_a"));
    assert_eq!(history[0].start_time, 1_000);
    assert_eq!(history[0].end_time, Some(1_075));
    assert_eq!(history[0].duration, Some(75));
    assert_eq!((history[1].id, history[1].duration), (2, Some(65)));
    let stats = m.database.get_game_stats("custom_a").unwrap();
    assert_eq!(stats.total_playtime, 75);
    assert_eq!(stats.sessions_count, 1);
    assert_eq!(stats.first_played, Some(1_000));
    assert_eq!(stats.last_played, Some(1_075));
    assert_eq!(m.database.get_game_stats("custom_b").unwrap().total_playtime, 65);
}

#[test]
fn sessions_that_cannot_be_recorded_are_reported() {
    let mut m = manager();
    m.database.upsert_game(&game("custom_a", Platform::Custom, "1", "/a"));
    let ended = vec![
        EndedSession { game_id: "gone".to_string(), start_time: 10, duration_secs: Some(5) },
        EndedSession { game_id: "custom_a".to_string(), start_time: 20, duration_secs: None },
        EndedSession { game_id: "custom_a".to_string(), start_time: 30, duration_secs: Some(u64::MAX) },
        EndedSession { game_id: "custom_a".to_string(), start_time: 40, duration_secs: Some(7) },
    ];
    let failed = m.record_ended(&ended, 50);
    assert_eq!(failed.len(), 1);
    assert_eq!(failed[0].message, "Failed to update game stats");
    let history = m.database.sessions();
    assert_eq!(history.len(), 2);
    // the session of the game that is not stored stays in the history, open
    assert_eq!((history[0].game_id.as_str(), history[0].end_time, history[0].duration), ("gone", None, None));
    assert_eq!((history[1].game_id.as_str(), history[1].start_time, history[1].duration), ("custom_a", 40, Some(7)));
    assert_eq!(m.database.get_game_stats("custom_a").unwrap().total_playtime, 7);
    assert_eq!(glaunch::game_manager::clamp_time(5), 5);
    assert_eq!(glaunch::game_manager::clamp_time(u64::MAX), i64::MAX);
}

#[test]
fn custom_game_survives_rescans() {
    let mut m = manager();
    let config = CustomGameConfig {
        title: "Mine".to_string(),
        executable_path: "/c/game/run.exe".to_string(),
        install_path: "/c/game".to_string(),
        platform: "custom".to_string(),
        icon_path: None,
    };
    let g = m.add_custom_game_with_id(&config, "1", &disk_with(&["/c/game/run.exe", "/c/game"])).unwrap();
    let result = m.scan_all_platforms(false, &Vec::new(), &DiskSnapshot::new());
    assert!(result.is_empty());
    assert_eq!(m.get_game("custom_1"), Some(g));
    m.delete_game("custom_1");
    assert_eq!(m.get_game("custom_1"), None);
}

#[test]
fn fetched_metadata_is_stored() {
    let mut m = manager();
    m.database.upsert_game(&game("steam_1", Platform::Steam, "1", "/s/1"));
    let mut metadata = GameMetadata::titled("Better".to_string());
    metadata.genres = vec!["A".to_string(), "A".to_string()];
    let mut media = GameMedia::empty();
    media.logo = Some("media/l.jpg".to_string());
    m.update_game_metadata("steam_1", &metadata, &media);
    let stored = m.get_game("steam_1").unwrap();
    assert_eq!(stored.metadata.title, "Better");
    assert_eq!(stored.metadata.genres, vec!["A"]);
    assert_eq!(stored.media, media);
    m.update_game_metadata("nobody", &metadata, &media);
    assert_eq!(m.database.game_count(), 1);
}

#[test]
fn launch_needs_a_stored_game_with_something_to_run() {
    let mut m = manager();
    assert_eq!(m.launch_game("steam_1").unwrap_err().message, "Game not found");
    let g = game("steam_1", Platform::Steam, "1", "/s/1");
    m.database.upsert_game(&g);
    assert_eq!(m.launch_game("steam_1").unwrap(), g);
    let mut custom = game("custom_1", Platform::Custom, "1", "/c/1");
    custom.installation.executable = None;
    m.database.upsert_game(&custom);
    assert_eq!(m.launch_game("custom_1").unwrap_err().message, "No executable path found for custom game");
    let mut epic = game("epic_1", Platform::Epic, "1", "/e/1");
    epic.installation.executable = None;
    m.database.upsert_game(&epic);
    assert!(m.launch_game("epic_1").is_ok());
}

#[test]
fn launch_without_a_window_fails_and_opens_no_session() {
    let mut m = manager();
    let g = game("custom_1", Platform::Custom, "1", "/c/1");
    let disk = DiskSnapshot::new();
    let windows = vec![WindowInfo {
        handle: 1,
        process_id: 2,
        module_name: Some("explorer.exe".to_string()),
        visible: true,
        owned: false,
        title_length: 3,
    }];
    let (mut state, _) = step(LaunchState::Untracked, LaunchEvent::Requested);
    state = step(state, LaunchEvent::Launched).0;
    let mut actions = Vec::new();
    for attempt in 0..5u64 {
        let c = m.attempt_correlation(state, &g, &disk, &windows, 100 + attempt);
        assert!(!c.start_monitoring);
        assert_eq!(m.game_monitor.active_count(), 0);
        actions.push(c.action);
        state = c.state;
    }
    assert_eq!(
        actions,
        vec![
            LaunchAction::WaitThenCorrelate { seconds: 1 },
            LaunchAction::WaitThenCorrelate { seconds: 1 },
            LaunchAction::WaitThenCorrelate { seconds: 1 },
            LaunchAction::WaitThenCorrelate { seconds: 1 },
            LaunchAction::ReportFailure,
        ]
    );
    assert_eq!(state, LaunchState::Untracked);
    assert!(!m.game_monitor.is_game_running("custom_1"));
    assert_eq!(m.game_monitor.get_active_game(&vec![(2, Some(259))]), None);
    // a further attempt outside the starting state does nothing
    let c = m.attempt_correlation(state, &g, &disk, &windows, 200);
    assert_eq!((c.state, c.action), (LaunchState::Untracked, LaunchAction::Idle));
}

#[test]
fn launch_with_a_window_opens_the_session() {
    let mut m = manager();
    let g = game("custom_1", Platform::Custom, "1", "/c/1");
    let disk = DiskSnapshot::new();
    let none: Vec<WindowInfo> = Vec::new();
    let windows = vec![WindowInfo {
        handle: 11,
        process_id: 22,
        module_name: Some("Run.exe".to_string()),
        visible: true,
        owned: false,
        title_length: 3,
    }];
    let state = LaunchState::Starting { attempts_left: 5 };
    let miss = m.attempt_correlation(state, &g, &disk, &none, 100);
    assert_eq!(miss.state, LaunchState::Starting { attempts_left: 4 });
    // while the game is in place on disk, a window that is there is not missed
    let hit = m.attempt_correlation(miss.state, &g, &disk, &windows, 101);
    assert_eq!((hit.state, hit.action), (LaunchState::Active, LaunchAction::ReportSuccess));
    assert!(hit.start_monitoring);
    let active = m.game_monitor.get_active_game(&vec![(22, Some(259))]).unwrap();
    assert_eq!(active.game_id, "custom_1");
    assert_eq!(active.start_time, 101);
    assert_eq!(active.window_handle, 11);
}

#[test]
fn cache_keeps_what_it_was_given() {
    let games = vec![game("steam_1", Platform::Steam, "1", "/s/1")];
    let cache = GameCache::new(games.clone(), 1234);
    assert_eq!(cache.games(), &games);
    assert_eq!(cache.last_update(), 1234);
}

#[test]
fn every_scanner_is_run() {
    let join = |a: &str, b: &str| Path::new(a).join(b).to_string_lossy().into_owned();
    let mut disk = DiskSnapshot::new();
    // one game of the content-delivery client
    let library = join("/steam", "steamapps");
    let manifest = join(&library, "appmanifest_10.acf");
    disk.add_listing(library.clone(), vec![], vec![manifest.clone()]);
    disk.add_document(manifest, "\"appid\" \"10\"\n\"name\" \"Ten\"\n\"installdir\" \"Ten\"\n".to_string());
    disk.add_existing(join(&join(&library, "common"), "Ten"));
    // one title of the social-gaming client
    disk.add_existing(join(&join("C:\\Program Files", "Battle.net"), "Battle.net.exe"));
    disk.add_existing(join(&join(&join("/games", "Hearthstone"), "_retail_"), "Hearthstone.exe"));
    disk.add_existing(join("/games", "Hearthstone"));
    let config = BnetConfig {
        default_install_path: Some("/games".to_string()),
        games: vec![("hs".to_string(), None)],
        servers: Vec::new(),
    };
    // one title of the storefront, and a stored game that is gone
    let epic_manifest = EpicManifest {
        install_location: "/epic/A".to_string(),
        display_name: "Game A".to_string(),
        app_name: "A".to_string(),
        main_executable: None,
        install_size: Some(5),
        version: None,
        categories: Some(vec!["games".to_string()]),
    };
    let steam = SteamPlatform::new(Some("/steam".to_string()), &disk);
    let battlenet = BattleNetPlatform::new(None);
    let epic = EpicPlatform::new(None);
    let mut m = manager();
    m.database.upsert_game(&game("steam_99", Platform::Steam, "1", "/gone"));
    let input = ScanInput { disk, battlenet_config: Some(config), epic_manifests: vec![epic_manifest] };
    let result = m.scan_platforms(&steam, &battlenet, &epic, &input);
    let ids: Vec<&str> = result.iter().map(|g| g.id.as_str()).collect();
    assert_eq!(ids, vec!["steam_10", "battlenet_hs", "epic_A"]);
    assert_eq!(m.database.game_count(), 3);
    assert_eq!(m.get_game("steam_99"), None);
    let without = ScanInput { battlenet_config: None, ..input };
    let result = m.scan_platforms(&steam, &battlenet, &epic, &without);
    assert_eq!(result.len(), 2);
    // the title that was not scanned for is still installed: it stays
    assert_eq!(m.database.game_count(), 3);
}

#[test]
fn start_command_follows_the_platform() {
    let steam = SteamPlatform::new(None, &DiskSnapshot::new());
    let battlenet = BattleNetPlatform::new(Some("/c/Battle.net.exe".to_string()));
    let epic = EpicPlatform::new(None);
    let custom = game("custom_1", Platform::Custom, "1", "/c/1");
    let c = GameManager::start_command(&custom, &steam, &battlenet, &epic).unwrap();
    assert_eq!((c.program.as_str(), c.args.len()), ("/c/1/run.exe", 0));
    let s = game("steam_730", Platform::Steam, "1", "/s/730");
    let c = GameManager::start_command(&s, &steam, &battlenet, &epic).unwrap();
    assert_eq!(c.program, "cmd");
    assert_eq!(c.args, vec!["/C", "start steam://run/730"]);
    let b = game("battlenet_wow", Platform::BattleNet, "1", "/b/wow");
    let c = GameManager::start_command(&b, &steam, &battlenet, &epic).unwrap();
    assert_eq!(c.program, "/c/Battle.net.exe");
    assert_eq!(c.args, vec!["--exec", "launch WoW"]);
    let e = game("epic_A", Platform::Epic, "1", "/e/A");
    let c = GameManager::start_command(&e, &steam, &battlenet, &epic).unwrap();
    assert_eq!(c.args[3], "com.epicgames.launcher://apps/A?action=launch");
    // the id must fit the platform, whatever the stored executable says
    let odd = game("epic_A", Platform::Steam, "1", "/e/A");
    let err = GameManager::start_command(&odd, &steam, &battlenet, &epic).unwrap_err();
    assert_eq!(err.message, "Invalid Steam game ID format: epic_A");
    let lost = BattleNetPlatform::new(None);
    let err = GameManager::start_command(&b, &steam, &lost, &epic).unwrap_err();
    assert_eq!(err.message, "Battle.net launcher not found");
    let mut bare = game("custom_2", Platform::Custom, "1", "/c/2");
    bare.installation.executable = None;
    let err = GameManager::start_command(&bare, &steam, &battlenet, &epic).unwrap_err();
    assert_eq!(err.message, "No executable path found for custom game");
}

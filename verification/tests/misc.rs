use glaunch::auth::{AuthPlatform, AuthServer};
use glaunch::error::{to_app_error, AppError};
use glaunch::logger::{LogLevel, Logger};
use glaunch::migrations::{is_applied, pending_migrations, Migration};
use glaunch::models::{make_game_id, GameMedia, GameStats, Platform};
use glaunch::paths::{has_extension, join2, AppPaths};
use glaunch::platforms::custom::{CustomGameLauncher, CustomPlatform};
use glaunch::platforms::traits::{GameLauncher, LaunchCommand};
use glaunch::secrets::{CompiledSecrets, SecretsManager};
use glaunch::services::{
    assemble_media, image_url, IgdbCompany, IgdbCompanyInfo, IgdbGame, IgdbGenre, IgdbImage,
    MediaCache, RateLimiter, RawgCompany, RawgGame, RawgGenre, RawgTag, RATE_LIMIT_DELAY_MS,
};
use glaunch::settings::{AppSettings, AutostartAction, WS_MINIMIZE};
use glaunch::snapshot::{lookup, total_size, DiskSnapshot};
use glaunch::text::{concat2, concat3, contains_string, decimal, position, same_opt_text};
use glaunch::watcher::{event_for, FileChange, GameWatchEvent};
use std::path::Path;

#[test]
fn errors_carry_their_message() {
    let e = AppError::new("boom".to_string());
    assert_eq!(e.to_string(), "boom");
    assert_eq!(e.clone(), e);
    assert_eq!(AppError::from("x".to_string()).message, "x");
    let parse_error = "abc".parse::<u32>().unwrap_err();
    assert_eq!(to_app_error(parse_error).message, "invalid digit found in string");
}

#[test]
fn ids_carry_the_platform_prefix() {
    assert_eq!(make_game_id(Platform::Steam, "730"), "steam_730");
    assert_eq!(make_game_id(Platform::BattleNet, "wow"), "battlenet_wow");
    assert_eq!(make_game_id(Platform::Epic, "Fortnite"), "epic_Fortnite");
    assert_eq!(make_game_id(Platform::Custom, ""), "custom_");
    assert_eq!(Platform::Steam.prefix(), "steam_");
    for p in [Platform::Steam, Platform::BattleNet, Platform::Epic, Platform::Custom] {
        assert_eq!(Platform::from_stored(p.as_str()), p);
    }
    assert_eq!(Platform::BattleNet.as_str(), "BattleNet");
    assert_eq!(Platform::from_stored("steam"), Platform::Custom);
    assert_eq!(Platform::from_stored(""), Platform::Custom);
    assert_eq!(GameStats::zero().sessions_count, 0);
    assert_eq!(GameMedia::empty().screenshots.len(), 0);
}

#[test]
fn application_directories() {
    let paths = AppPaths::new("/data/app".to_string());
    let under = |name: &str| Path::new("/data/app").join(name).to_string_lossy().into_owned();
    assert_eq!(paths.root, "/data/app");
    assert_eq!(paths.media, under("media"));
    assert_eq!(paths.database, under("data"));
    assert_eq!(paths.logs, under("logs"));
    assert_eq!(paths.settings, under("config"));
    assert_eq!(paths.directories(), vec![under("media"), under("data"), under("logs"), under("config")]);
    assert_eq!(paths.get_database_path(), Path::new(&under("data")).join("games.db").to_string_lossy());
    assert_eq!(paths.get_settings_path(), Path::new(&under("config")).join("settings.json").to_string_lossy());
    assert_eq!(paths.get_log_path(), Path::new(&under("logs")).join("app.log").to_string_lossy());
    assert_eq!(join2("/a", "b", "c"), Path::new("/a").join("b").join("c").to_string_lossy());
    assert_eq!(join2("/a", "/b", "c"), Path::new("/b").join("c").to_string_lossy());
    assert!(has_extension("/a/b.acf", "acf"));
    assert!(!has_extension("/a/b.acf", "ACF"));
    assert!(!has_extension("/a/.acf", "acf"));
    assert!(!has_extension("/a/b", ""));
}

#[test]
fn snapshot_answers_from_what_was_recorded() {
    let mut disk = DiskSnapshot::new();
    assert!(!disk.has_path("/a"));
    assert_eq!(disk.folder_size("/a"), 0);
    assert_eq!(disk.document("/a/f"), None);
    assert!(disk.files_in("/a").is_empty());
    assert!(disk.directories_in("/a").is_empty());
    assert!(disk.walk("/a").is_empty());
    disk.add_existing("/a".to_string());
    disk.add_size("/a".to_string(), 7);
    disk.add_size("/a".to_string(), 8);
    disk.add_document("/a/f".to_string(), "text".to_string());
    disk.add_listing("/a".to_string(), vec!["/a/d".to_string()], vec!["/a/f".to_string()]);
    assert!(disk.has_path("/a"));
    assert!(!disk.has_path("/a/"));
    assert_eq!(disk.folder_size("/a"), 7);
    assert_eq!(disk.document("/a/f").map(|s| s.as_str()), Some("text"));
    assert_eq!(disk.files_in("/a"), vec!["/a/f"]);
    assert_eq!(disk.directories_in("/a"), vec!["/a/d"]);
    let pairs = vec![("k".to_string(), 1u64), ("k".to_string(), 2), ("l".to_string(), 3)];
    assert_eq!(lookup(&pairs, "k"), Some(&1));
    assert_eq!(lookup(&pairs, "l"), Some(&3));
    assert_eq!(lookup(&pairs, "m"), None);
}

#[test]
fn sizes_add_up_and_saturate() {
    assert_eq!(total_size(&Vec::new()), 0);
    assert_eq!(total_size(&vec![1, 2, 3]), 6);
    assert_eq!(total_size(&vec![u64::MAX - 1, 1]), u64::MAX);
    assert_eq!(total_size(&vec![u64::MAX, 1, 5]), u64::MAX);
}

#[test]
fn text_helpers() {
    let v: Vec<String> = ["a", "b", "a"].iter().map(|s| s.to_string()).collect();
    assert_eq!(position(&v, "a"), Some(0));
    assert_eq!(position(&v, "b"), Some(1));
    assert_eq!(position(&v, "c"), None);
    assert!(contains_string(&v, "b"));
    assert!(!contains_string(&v, "B"));
    assert_eq!(concat2("ab", "cd"), "abcd");
    assert_eq!(concat3("a", "", "c"), "ac");
    assert!(same_opt_text(&None, &None));
    assert!(same_opt_text(&Some("x".to_string()), &Some("x".to_string())));
    assert!(!same_opt_text(&Some("x".to_string()), &None));
    assert!(!same_opt_text(&Some("x".to_string()), &Some("y".to_string())));
}

#[test]
fn custom_games_are_started_directly() {
    let cmd = CustomGameLauncher::launch_executable(&Some("/c/run.exe".to_string())).unwrap();
    assert_eq!(cmd, LaunchCommand { program: "/c/run.exe".to_string(), args: Vec::new() });
    let err = CustomGameLauncher::launch_executable(&None).unwrap_err();
    assert_eq!(err.message, "No executable path found for custom game");
    let platform = CustomPlatform::new();
    assert_eq!(platform.platform_name(), "Custom");
    assert_eq!(platform.supported_file_types(), vec!["exe"]);
    assert!(platform.launch_game("custom_1").is_err());
    assert_eq!(platform.stop_game("custom_1").unwrap(), None);
    assert_eq!(platform.is_game_running("custom_1", "run.exe").unwrap(), false);
    let launcher = CustomGameLauncher::new();
    assert!(launcher.launch_game("custom_1").is_err());
    assert_eq!(launcher.stop_game("custom_1").unwrap(), None);
    assert_eq!(launcher.is_game_running("custom_1", "").unwrap(), false);
}

#[test]
fn secrets_are_handed_out_by_name() {
    let pairs = vec![
        ("IGDB_CLIENT_ID".to_string(), "id".to_string()),
        ("STEAM_API_KEY".to_string(), "key".to_string()),
        ("IGDB_CLIENT_ID".to_string(), "later".to_string()),
    ];
    let secrets = CompiledSecrets::from_pairs(&pairs);
    assert_eq!(secrets.igdb_client_id, "id");
    assert_eq!(secrets.igdb_client_secret, "");
    assert_eq!(secrets.steam_api_key, "key");
    assert_eq!(CompiledSecrets::names().len(), 7);
    let manager = SecretsManager::new("glaunch", secrets);
    assert_eq!(manager.app_name(), "glaunch");
    assert_eq!(manager.get_compiled_secret("IGDB_CLIENT_ID").unwrap(), "id");
    assert_eq!(manager.get_compiled_secret("STEAM_API_KEY").unwrap(), "key");
    assert_eq!(manager.get_compiled_secret("EPIC_CLIENT_ID").unwrap(), "");
    for name in CompiledSecrets::names() {
        assert!(manager.get_compiled_secret(name).is_ok());
    }
    let err = manager.get_compiled_secret("igdb_client_id").unwrap_err();
    assert_eq!(err.message, "Unknown compiled secret: igdb_client_id");
    let err = manager.validate_required_secrets().unwrap_err();
    assert_eq!(err.message, "Required secret IGDB_CLIENT_SECRET is missing");
    let none = SecretsManager::new("glaunch", CompiledSecrets::from_pairs(&Vec::new()));
    assert_eq!(none.validate_required_secrets().unwrap_err().message, "Required secret IGDB_CLIENT_ID is missing");
    let both = vec![
        ("IGDB_CLIENT_ID".to_string(), "id".to_string()),
        ("IGDB_CLIENT_SECRET".to_string(), "s".to_string()),
    ];
    assert!(SecretsManager::new("glaunch", CompiledSecrets::from_pairs(&both)).validate_required_secrets().is_ok());
}

#[test]
fn log_lines() {
    assert_eq!(Logger::format_line(LogLevel::Info, "2024-01-02 03:04:05", "hello"), "[2024-01-02 03:04:05] [INFO] hello");
    assert_eq!(Logger::format_line(LogLevel::Warning, "t", ""), "[t] [WARN] ");
    assert_eq!(Logger::level_name(LogLevel::Error), "ERROR");
    assert_eq!(Logger::level_name(LogLevel::Debug), "DEBUG");
}

#[test]
fn manifest_changes_become_events() {
    assert_eq!(event_for(FileChange::Created, "/l/appmanifest_1.acf"), Some(GameWatchEvent::NewGame("/l/appmanifest_1.acf".to_string())));
    assert_eq!(event_for(FileChange::Removed, "/l/a.acf"), Some(GameWatchEvent::GameRemoved("/l/a.acf".to_string())));
    assert_eq!(event_for(FileChange::Written, "/l/a.acf"), Some(GameWatchEvent::GameUpdated("/l/a.acf".to_string())));
    assert_eq!(event_for(FileChange::Other, "/l/a.acf"), None);
    assert_eq!(event_for(FileChange::Created, "/l/a.txt"), None);
    assert_eq!(event_for(FileChange::Created, "/l/acf"), None);
}

#[test]
fn pending_migrations_are_those_not_applied() {
    let all = vec![
        Migration { version: 1, description: "Initial schema", up_sql: "CREATE TABLE a (x);" },
        Migration { version: 2, description: "Second", up_sql: "CREATE TABLE b (x);" },
        Migration { version: 3, description: "Third", up_sql: "CREATE TABLE c (x);" },
    ];
    let versions = |applied: &[i32]| -> Vec<i32> {
        pending_migrations(&all, &applied.to_vec()).iter().map(|m| m.version).collect()
    };
    assert_eq!(versions(&[]), vec![1, 2, 3]);
    assert_eq!(versions(&[1]), vec![2, 3]);
    assert_eq!(versions(&[2, 9]), vec![1, 3]);
    assert_eq!(versions(&[3, 2, 1]), Vec::<i32>::new());
    assert!(is_applied(&vec![4, 5], 5));
    assert!(!is_applied(&vec![4, 5], 6));
}

#[test]
fn settings_decide_tray_and_autostart() {
    let s = AppSettings::default();
    assert_eq!(s, AppSettings { start_with_windows: false, minimize_to_tray: true, check_updates_on_startup: true });
    assert!(s.should_minimize_to_tray(0));
    assert!(s.should_minimize_to_tray(0x10CF0000));
    assert!(!s.should_minimize_to_tray(WS_MINIMIZE));
    assert!(!s.should_minimize_to_tray(0x30CF0000));
    let never = AppSettings { minimize_to_tray: false, ..s };
    assert!(!never.should_minimize_to_tray(0));
    let names = vec!["Other".to_string(), "GLaunch".to_string()];
    assert_eq!(s.autostart_action(&names), AutostartAction::Remove);
    assert_eq!(s.autostart_action(&vec!["Other".to_string()]), AutostartAction::Keep);
    let start = AppSettings { start_with_windows: true, ..s };
    assert_eq!(start.autostart_action(&names), AutostartAction::Register);
    assert_eq!(start.autostart_action(&Vec::new()), AutostartAction::Register);
}

#[test]
fn sign_in_requests_are_sent_on() {
    let server = AuthServer::new(11111);
    assert_eq!(server.port(), 11111);
    let steam = "GET /auth/steam/callback?openid.ns=x&openid.identity=https%3A%2F%2Fsteamcommunity.com%2Fopenid%2Fid%2F7656 HTTP/1.1";
    assert_eq!(server.extract_steam_identity(steam).as_deref(), Some("https://steamcommunity.com/openid/id/7656"));
    assert_eq!(server.extract_epic_code(steam), None);
    assert_eq!(
        server.redirect_url(steam).as_deref(),
        Some("glaunch://auth/steam/callback?openid.identity=https://steamcommunity.com/openid/id/7656")
    );
    let epic = "GET /auth/epic/callback?code=abc+def&state=1 HTTP/1.1";
    assert_eq!(server.extract_epic_code(epic).as_deref(), Some("abc def"));
    assert_eq!(server.extract_battlenet_code(epic), None);
    assert_eq!(server.redirect_url(epic).as_deref(), Some("glaunch://auth/epic/callback?code=abc def"));
    let bnet = "GET /auth/battlenet/callback?state=test&code=XYZ HTTP/1.1";
    assert_eq!(server.redirect_url(bnet).as_deref(), Some("glaunch://auth/battlenet/callback?code=XYZ"));
    let cb = server.callback(bnet).unwrap();
    assert_eq!((cb.platform, cb.code.as_str()), (AuthPlatform::BattleNet, "XYZ"));
    assert_eq!(server.callback(epic).unwrap().platform, AuthPlatform::Epic);
    assert_eq!(server.callback(steam).unwrap().platform, AuthPlatform::Steam);
    for line in ["POST /auth/epic/callback?code=abc HTTP/1.1", "GET /favicon.ico HTTP/1.1", "GET /auth/epic/callback HTTP/1.1", "GET", ""] {
        assert_eq!(server.redirect_url(line), None);
    }
    assert_eq!(server.callback("GET /other?code=1 HTTP/1.1"), None);
}

#[test]
fn redirect_page_holds_the_address() {
    let page = AuthServer::get_redirect_html("glaunch://auth/epic/callback?code=1");
    assert!(page.starts_with("<!DOCTYPE html>\n"));
    assert!(page.contains("<title>GLaunch - Authentification</title>"));
    assert!(page.contains("window.location.href = 'glaunch://auth/epic/callback?code=1';"));
    assert!(page.contains("body {\n"));
    assert!(page.contains("const countdown = setInterval(() => {\n"));
    assert!(page.trim_end().ends_with("</html>"));
    assert_eq!(page.matches("glaunch://").count(), 1);
    let empty = AuthServer::get_redirect_html("");
    assert_eq!(page.len(), empty.len() + "glaunch://auth/epic/callback?code=1".len());
}

fn image(id: &str) -> IgdbImage {
    IgdbImage { id: 1, image_id: id.to_string(), url_path: Some(format!("//images/{}.jpg", id)) }
}

fn company(name: &str, developer: bool, publisher: bool, logo: Option<&str>) -> IgdbCompany {
    IgdbCompany {
        company: IgdbCompanyInfo { id: 1, name: name.to_string(), logo: logo.map(image) },
        developer,
        publisher,
    }
}

#[test]
fn service_description_becomes_metadata() {
    let game = IgdbGame {
        id: 42,
        name: "Game X".to_string(),
        summary: Some("A game.".to_string()),
        cover: Some(image("cov")),
        artworks: Some(vec![image("art1"), image("art2")]),
        screenshots: Some(vec![image("s1"), image("s2")]),
        first_release_date: Some(1431648000),
        involved_companies: Some(vec![
            company("Porter", false, false, Some("plogo")),
            company("Pub", false, true, None),
            company("Dev", true, false, None),
            company("Dev2", true, true, None),
        ]),
        genres: Some(vec![IgdbGenre { id: 1, name: "RPG".to_string() }, IgdbGenre { id: 2, name: "Indie".to_string() }]),
    };
    let m = game.to_metadata();
    assert_eq!(m.title, "Game X");
    assert_eq!(m.description.as_deref(), Some("A game."));
    assert_eq!(m.developer.as_deref(), Some("Dev"));
    assert_eq!(m.publisher.as_deref(), Some("Pub"));
    assert_eq!(m.release_date.as_deref(), Some("2015-05-15"));
    assert_eq!(m.genres, vec!["RPG", "Indie"]);
    assert!(m.tags.is_empty());
    assert_eq!(m.media, None);
    let hit = game.to_search_result();
    assert_eq!(hit.id, 42);
    assert_eq!(hit.name, "Game X");
    assert_eq!(hit.release_date.as_deref(), Some("2015-05-15"));
    assert_eq!(hit.cover_url.as_deref(), Some("//images/cov.jpg"));
    assert_eq!(hit.company.as_deref(), Some("Porter"));
    let plan = game.media_plan();
    assert_eq!(plan.thumbnail.as_deref(), Some("https://images.igdb.com/igdb/image/upload/t_cover_big/cov.jpg"));
    assert_eq!(plan.logo.as_deref(), Some("https://images.igdb.com/igdb/image/upload/t_logo_med/art1.jpg"));
    assert_eq!(plan.icon.as_deref(), Some("https://images.igdb.com/igdb/image/upload/t_thumb/plogo.jpg"));
    assert_eq!(
        plan.screenshots,
        vec![
            "https://images.igdb.com/igdb/image/upload/t_screenshot_big/s1.jpg",
            "https://images.igdb.com/igdb/image/upload/t_screenshot_big/s2.jpg"
        ]
    );
    assert_eq!(image_url("abc", "thumb"), "https://images.igdb.com/igdb/image/upload/t_thumb/abc.jpg");
}

#[test]
fn sparse_service_description() {
    let game = IgdbGame {
        id: 1,
        name: "Bare".to_string(),
        summary: None,
        cover: None,
        artworks: Some(Vec::new()),
        screenshots: None,
        first_release_date: Some(i64::MAX),
        involved_companies: Some(Vec::new()),
        genres: None,
    };
    let m = game.to_metadata();
    assert_eq!(m.developer, None);
    assert_eq!(m.publisher, None);
    assert_eq!(m.release_date.as_deref(), Some(""));
    assert!(m.genres.is_empty());
    let plan = game.media_plan();
    assert_eq!((plan.thumbnail, plan.logo, plan.icon), (None, None, None));
    assert!(plan.screenshots.is_empty());
    assert_eq!(game.to_search_result().company, None);
    let epoch = IgdbGame { first_release_date: Some(0), ..game };
    assert_eq!(epoch.release_date().as_deref(), Some("1970-01-01"));
    let undated = IgdbGame { first_release_date: None, ..epoch };
    assert_eq!(undated.release_date(), None);
}

#[test]
fn media_is_put_together() {
    let m = assemble_media(
        Some("media/t.jpg".to_string()),
        Some("media/l.jpg".to_string()),
        None,
        vec!["media/s1.jpg".to_string(), "media/s2.jpg".to_string()],
    );
    assert_eq!(m.thumbnail.as_deref(), Some("media/t.jpg"));
    assert_eq!(m.cover.as_deref(), Some("media/t.jpg"));
    assert_eq!(m.logo.as_deref(), Some("media/l.jpg"));
    assert_eq!(m.icon, None);
    assert_eq!(m.background.as_deref(), Some("media/s1.jpg"));
    assert_eq!(m.screenshots.len(), 2);
    assert_eq!(assemble_media(None, None, None, Vec::new()), GameMedia::empty());
    let r = RawgGame::assemble_media(Some("media/b.jpg".to_string()), None, vec!["media/s.jpg".to_string()]);
    assert_eq!(r.thumbnail.as_deref(), Some("media/b.jpg"));
    assert_eq!(r.cover.as_deref(), Some("media/b.jpg"));
    assert_eq!(r.background.as_deref(), Some("media/b.jpg"));
    assert_eq!((r.icon.clone(), r.logo.clone()), (None, None));
    let r = RawgGame::assemble_media(Some("media/b.jpg".to_string()), Some("media/a.jpg".to_string()), Vec::new());
    assert_eq!(r.thumbnail.as_deref(), Some("media/a.jpg"));
    assert_eq!(r.cover.as_deref(), Some("media/b.jpg"));
}

#[test]
fn second_service_description_becomes_metadata() {
    let game = RawgGame {
        id: 5,
        name: "Game Y".to_string(),
        description: Some("<p>html</p>".to_string()),
        description_raw: Some("raw".to_string()),
        released: Some("2020-02-02".to_string()),
        background_image: None,
        background_image_additional: None,
        website: None,
        metacritic: Some(80),
        developers: vec![RawgCompany { id: 1, name: "D1".to_string() }, RawgCompany { id: 2, name: "D2".to_string() }],
        publishers: Vec::new(),
        genres: vec![RawgGenre { id: 1, name: "Action".to_string() }],
        tags: vec![RawgTag { id: 1, name: "solo".to_string() }, RawgTag { id: 2, name: "coop".to_string() }],
        screenshots: None,
    };
    let media = GameMedia::empty();
    let m = game.to_metadata(&media);
    assert_eq!(m.title, "Game Y");
    assert_eq!(m.description.as_deref(), Some("raw"));
    assert_eq!(m.developer.as_deref(), Some("D1"));
    assert_eq!(m.publisher, None);
    assert_eq!(m.release_date.as_deref(), Some("2020-02-02"));
    assert_eq!(m.genres, vec!["Action"]);
    assert_eq!(m.tags, vec!["solo", "coop"]);
    assert_eq!(m.media, Some(media));
}

#[test]
fn cached_media_is_named_after_its_address() {
    let key = MediaCache::cache_key("abc");
    assert_eq!(key, "ba7816bf8f01cfea414140de5dae2223b00361a396177a9cb410ff61f20015ad");
    assert_eq!(MediaCache::cache_key(""), "e3b0c44298fc1c149afbf4c8996fb92427ae41e4649b934ca495991b7852b855");
    assert_eq!(MediaCache::file_name(&key, ".png"), format!("{}.png", key));
    assert_eq!(MediaCache::relative_path("k", ".jpg"), "media/k.jpg");
    assert_eq!(MediaCache::extension_for(Some("image/png")), ".png");
    assert_eq!(MediaCache::extension_for(Some("image/gif")), ".gif");
    assert_eq!(MediaCache::extension_for(Some("image/webp")), ".webp");
    assert_eq!(MediaCache::extension_for(Some("image/jpeg")), ".jpg");
    assert_eq!(MediaCache::extension_for(Some("image/jpg")), ".jpg");
    assert_eq!(MediaCache::extension_for(Some("text/html")), ".jpg");
    assert_eq!(MediaCache::extension_for(None), ".jpg");
    assert!(MediaCache::is_fresh(10, 11));
    assert!(!MediaCache::is_fresh(11, 11));
    assert!(!MediaCache::is_expired(11, 11));
    assert!(MediaCache::is_expired(12, 11));
}

#[test]
fn numbers_are_written_in_decimal() {
    assert_eq!(decimal(0), "0");
    assert_eq!(decimal(7), "7");
    assert_eq!(decimal(10), "10");
    assert_eq!(decimal(1234567890), "1234567890");
    assert_eq!(decimal(u64::MAX), u64::MAX.to_string());
}

#[test]
fn page_is_sent_with_its_length_in_bytes() {
    let answer = AuthServer::response("<p>é</p>");
    assert_eq!(
        answer,
        "HTTP/1.1 200 OK\r\nContent-Type: text/html; charset=utf-8\r\nContent-Length: 9\r\n\r\n<p>é</p>"
    );
    assert!(AuthServer::response("").ends_with("Content-Length: 0\r\n\r\n"));
}

#[test]
fn requests_are_spaced_out() {
    assert_eq!(RATE_LIMIT_DELAY_MS, 250);
    let mut limiter = RateLimiter::new();
    assert_eq!(limiter.delay_before(1_000), 0);
    limiter.record(1_000);
    assert_eq!(limiter.delay_before(1_000), 250);
    assert_eq!(limiter.delay_before(1_100), 150);
    assert_eq!(limiter.delay_before(1_249), 1);
    assert_eq!(limiter.delay_before(1_250), 0);
    assert_eq!(limiter.delay_before(9_000), 0);
    // a clock that reads earlier than the last request waits in full
    assert_eq!(limiter.delay_before(900), 250);
    limiter.record(2_000);
    assert_eq!(limiter.delay_before(2_200), 50);
}

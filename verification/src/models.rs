//! The data model: games, their installation, metadata, media and play
//! statistics.
//!
//! Every record has a view: the same record with its strings as sequences of
//! characters. Contracts throughout the library are stated over views.

use vstd::prelude::*;
use crate::error::AppError;
use crate::text::{concat2, same_text};

verus! {

/// Result type of the library's fallible operations.
pub type GameResult<T> = Result<T, AppError>;

/// The distribution platform a game belongs to.
#[derive(Debug, Clone, Copy, PartialEq, Eq, Structural)]
pub enum Platform {
    Steam,
    BattleNet,
    Epic,
    Custom,
}

impl Platform {
    /// The prefix that marks a game's id as belonging to this platform.
    pub open spec fn id_prefix(self) -> Seq<char> {
        match self {
            Platform::Steam => "steam_"@,
            Platform::BattleNet => "battlenet_"@,
            Platform::Epic => "epic_"@,
            Platform::Custom => "custom_"@,
        }
    }

    /// The prefix that marks a game's id as belonging to this platform.
    pub fn prefix(self) -> (r: &'static str)
        ensures
            r@ == self.id_prefix(),
    {
        match self {
            Platform::Steam => "steam_",
            Platform::BattleNet => "battlenet_",
            Platform::Epic => "epic_",
            Platform::Custom => "custom_",
        }
    }

    /// The platform's name as it is stored.
    pub open spec fn stored_name(self) -> Seq<char> {
        match self {
            Platform::Steam => "Steam"@,
            Platform::BattleNet => "BattleNet"@,
            Platform::Epic => "Epic"@,
            Platform::Custom => "Custom"@,
        }
    }

    /// The platform's name as it is stored.
    pub fn as_str(self) -> (r: &'static str)
        ensures
            r@ == self.stored_name(),
    {
        match self {
            Platform::Steam => "Steam",
            Platform::BattleNet => "BattleNet",
            Platform::Epic => "Epic",
            Platform::Custom => "Custom",
        }
    }

    /// Reads a stored platform name. Any name other than those of the
    /// three storefront platforms denotes a user-added game.
    pub fn from_stored(name: &str) -> (r: Platform)
        ensures
            r == if name@ == "Steam"@ {
                Platform::Steam
            } else if name@ == "BattleNet"@ {
                Platform::BattleNet
            } else if name@ == "Epic"@ {
                Platform::Epic
            } else {
                Platform::Custom
            },
    {
        if same_text(name, "Steam") {
            Platform::Steam
        } else if same_text(name, "BattleNet") {
            Platform::BattleNet
        } else if same_text(name, "Epic") {
            Platform::Epic
        } else {
            Platform::Custom
        }
    }
}

/// The id of the game that a platform knows under `native_id`: the
/// platform's prefix followed by the native id.
pub open spec fn game_id_of(platform: Platform, native_id: Seq<char>) -> Seq<char> {
    platform.id_prefix() + native_id
}

/// Builds the id of the game that a platform knows under `native_id`.
pub fn make_game_id(platform: Platform, native_id: &str) -> (id: String)
    ensures
        id@ == game_id_of(platform, native_id@),
{
    concat2(platform.prefix(), native_id)
}

/// Ids are unique: two games have the same id only if they belong to the
/// same platform and have the same native id.
pub proof fn lemma_game_id_injective(p1: Platform, n1: Seq<char>, p2: Platform, n2: Seq<char>)
    requires
        game_id_of(p1, n1) == game_id_of(p2, n2),
    ensures
        p1 == p2,
        n1 == n2,
{
    reveal_strlit("steam_");
    reveal_strlit("battlenet_");
    reveal_strlit("epic_");
    reveal_strlit("custom_");
    let a = game_id_of(p1, n1);
    let b = game_id_of(p2, n2);
    assert(a[0] == p1.id_prefix()[0]);
    assert(b[0] == p2.id_prefix()[0]);
    assert(p1 == p2);
    let k = p1.id_prefix().len() as int;
    assert(n1 =~= a.subrange(k, a.len() as int));
    assert(n2 =~= b.subrange(k, b.len() as int));
}

/// Local media files attached to a game.
#[derive(Debug, PartialEq, Eq)]
pub struct GameMedia {
    pub thumbnail: Option<String>,
    pub cover: Option<String>,
    pub screenshots: Vec<String>,
    pub background: Option<String>,
    pub icon: Option<String>,
    pub logo: Option<String>,
}

/// What contracts say of a [`GameMedia`]: the same value with its strings
/// as sequences of characters.
pub struct GameMediaView {
    pub thumbnail: Option<Seq<char>>,
    pub cover: Option<Seq<char>>,
    pub screenshots: Seq<Seq<char>>,
    pub background: Option<Seq<char>>,
    pub icon: Option<Seq<char>>,
    pub logo: Option<Seq<char>>,
}

impl View for GameMedia {
    type V = GameMediaView;

    open spec fn view(&self) -> GameMediaView {
        GameMediaView {
            thumbnail: self.thumbnail.deep_view(),
            cover: self.cover.deep_view(),
            screenshots: self.screenshots.deep_view(),
            background: self.background.deep_view(),
            icon: self.icon.deep_view(),
            logo: self.logo.deep_view(),
        }
    }
}

impl DeepView for GameMedia {
    type V = GameMediaView;

    open spec fn deep_view(&self) -> GameMediaView {
        self@
    }
}

impl GameMediaView {
    /// The media record of a game for which nothing has been fetched.
    pub open spec fn empty() -> GameMediaView {
        GameMediaView {
            thumbnail: None,
            cover: None,
            screenshots: Seq::empty(),
            background: None,
            icon: None,
            logo: None,
        }
    }
}

impl GameMedia {
    /// A media record with no file at all.
    pub fn empty() -> (m: GameMedia)
        ensures
            m@ == GameMediaView::empty(),
    {
        let m = GameMedia {
            thumbnail: None,
            cover: None,
            screenshots: Vec::new(),
            background: None,
            icon: None,
            logo: None,
        };
        assert(m.screenshots.deep_view() =~= Seq::empty());
        m
    }
}

impl Clone for GameMedia {
    fn clone(&self) -> (m: GameMedia)
        ensures
            m@ == self@,
    {
        GameMedia {
            thumbnail: clone_opt_string(&self.thumbnail),
            cover: clone_opt_string(&self.cover),
            screenshots: clone_strings(&self.screenshots),
            background: clone_opt_string(&self.background),
            icon: clone_opt_string(&self.icon),
            logo: clone_opt_string(&self.logo),
        }
    }
}

/// Descriptive metadata of a game.
#[derive(Debug, PartialEq, Eq)]
pub struct GameMetadata {
    pub title: String,
    pub description: Option<String>,
    pub developer: Option<String>,
    pub publisher: Option<String>,
    pub release_date: Option<String>,
    pub genres: Vec<String>,
    pub tags: Vec<String>,
    pub media: Option<GameMedia>,
}

/// What contracts say of a [`GameMetadata`]: the same value with its strings
/// as sequences of characters.
pub struct GameMetadataView {
    pub title: Seq<char>,
    pub description: Option<Seq<char>>,
    pub developer: Option<Seq<char>>,
    pub publisher: Option<Seq<char>>,
    pub release_date: Option<Seq<char>>,
    pub genres: Seq<Seq<char>>,
    pub tags: Seq<Seq<char>>,
    pub media: Option<GameMediaView>,
}

impl View for GameMetadata {
    type V = GameMetadataView;

    open spec fn view(&self) -> GameMetadataView {
        GameMetadataView {
            title: self.title@,
            description: self.description.deep_view(),
            developer: self.developer.deep_view(),
            publisher: self.publisher.deep_view(),
            release_date: self.release_date.deep_view(),
            genres: self.genres.deep_view(),
            tags: self.tags.deep_view(),
            media: self.media.deep_view(),
        }
    }
}

impl DeepView for GameMetadata {
    type V = GameMetadataView;

    open spec fn deep_view(&self) -> GameMetadataView {
        self@
    }
}

impl GameMetadataView {
    /// The metadata of a freshly discovered game: its title and nothing else.
    pub open spec fn titled(title: Seq<char>) -> GameMetadataView {
        GameMetadataView {
            title,
            description: None,
            developer: None,
            publisher: None,
            release_date: None,
            genres: Seq::empty(),
            tags: Seq::empty(),
            media: None,
        }
    }
}

impl GameMetadata {
    /// Metadata holding a title and nothing else.
    pub fn titled(title: String) -> (m: GameMetadata)
        ensures
            m@ == GameMetadataView::titled(title@),
    {
        let m = GameMetadata {
            title,
            description: None,
            developer: None,
            publisher: None,
            release_date: None,
            genres: Vec::new(),
            tags: Vec::new(),
            media: None,
        };
        assert(m.genres.deep_view() =~= Seq::empty());
        assert(m.tags.deep_view() =~= Seq::empty());
        m
    }
}

impl Clone for GameMetadata {
    fn clone(&self) -> (m: GameMetadata)
        ensures
            m@ == self@,
    {
        let media = match &self.media {
            Some(x) => Some(x.clone()),
            None => None,
        };
        GameMetadata {
            title: self.title.clone(),
            description: clone_opt_string(&self.description),
            developer: clone_opt_string(&self.developer),
            publisher: clone_opt_string(&self.publisher),
            release_date: clone_opt_string(&self.release_date),
            genres: clone_strings(&self.genres),
            tags: clone_strings(&self.tags),
            media,
        }
    }
}

/// Where and how a game is installed.
#[derive(Debug, PartialEq, Eq)]
pub struct GameInstallation {
    pub install_path: String,
    pub executable: Option<String>,
    pub size: u64,
    pub version: Option<String>,
    pub last_updated: Option<i64>,
}

/// What contracts say of a [`GameInstallation`]: the same value with its strings
/// as sequences of characters.
pub struct GameInstallationView {
    pub install_path: Seq<char>,
    pub executable: Option<Seq<char>>,
    pub size: u64,
    pub version: Option<Seq<char>>,
    pub last_updated: Option<i64>,
}

impl View for GameInstallation {
    type V = GameInstallationView;

    open spec fn view(&self) -> GameInstallationView {
        GameInstallationView {
            install_path: self.install_path@,
            executable: self.executable.deep_view(),
            size: self.size,
            version: self.version.deep_view(),
            last_updated: self.last_updated,
        }
    }
}

impl DeepView for GameInstallation {
    type V = GameInstallationView;

    open spec fn deep_view(&self) -> GameInstallationView {
        self@
    }
}

impl Clone for GameInstallation {
    fn clone(&self) -> (i: GameInstallation)
        ensures
            i@ == self@,
    {
        GameInstallation {
            install_path: self.install_path.clone(),
            executable: clone_opt_string(&self.executable),
            size: self.size,
            version: clone_opt_string(&self.version),
            last_updated: self.last_updated,
        }
    }
}

/// Aggregate play statistics of a game. Times are seconds.
#[derive(Debug, Clone, Copy, PartialEq, Eq, Structural)]
pub struct GameStats {
    pub total_playtime: i64,
    pub last_session_duration: i64,
    pub sessions_count: i32,
    pub first_played: Option<i64>,
    pub last_played: Option<i64>,
}

impl GameStats {
    /// The statistics of a game that was never played.
    pub open spec fn spec_zero() -> GameStats {
        GameStats {
            total_playtime: 0,
            last_session_duration: 0,
            sessions_count: 0,
            first_played: None,
            last_played: None,
        }
    }

    /// The statistics of a game that was never played.
    #[verifier::when_used_as_spec(spec_zero)]
    pub fn zero() -> (s: GameStats)
        ensures
            s == GameStats::spec_zero(),
    {
        GameStats {
            total_playtime: 0,
            last_session_duration: 0,
            sessions_count: 0,
            first_played: None,
            last_played: None,
        }
    }
}

/// Whether a play session of `duration` seconds can be added to the
/// statistics: the duration is not negative and no counter overflows.
pub open spec fn can_record(stats: GameStats, duration: i64) -> bool {
    duration >= 0 && stats.total_playtime + duration <= i64::MAX && stats.sessions_count + 1
        <= i32::MAX
}

/// The statistics after a play session that started at `start_time`,
/// lasted `duration` seconds and was closed at `now`.
pub open spec fn after_session(stats: GameStats, start_time: i64, duration: i64, now: i64) -> GameStats {
    GameStats {
        total_playtime: (stats.total_playtime + duration) as i64,
        last_session_duration: duration,
        sessions_count: (stats.sessions_count + 1) as i32,
        first_played: match stats.first_played {
            Some(t) => Some(t),
            None => Some(start_time),
        },
        last_played: Some(now),
    }
}

/// Session accounting: a recorded session adds its duration to the total
/// playtime and one to the session count, never lowers either, and leaves
/// the time of the first session alone once it is set.
pub proof fn lemma_session_accounting(stats: GameStats, start_time: i64, duration: i64, now: i64)
    requires
        can_record(stats, duration),
    ensures
        after_session(stats, start_time, duration, now).total_playtime == stats.total_playtime
            + duration,
        after_session(stats, start_time, duration, now).sessions_count == stats.sessions_count + 1,
        after_session(stats, start_time, duration, now).total_playtime >= stats.total_playtime,
        after_session(stats, start_time, duration, now).sessions_count > stats.sessions_count,
        stats.first_played is Some ==> after_session(stats, start_time, duration, now).first_played
            == stats.first_played,
        stats.first_played is None ==> after_session(stats, start_time, duration, now).first_played
            == Some(start_time),
        after_session(stats, start_time, duration, now).last_session_duration == duration,
        after_session(stats, start_time, duration, now).last_played == Some(now),
{
}

impl GameStats {
    /// Adds a play session to the statistics.
    ///
    /// Fails, leaving nothing changed, exactly when the duration is
    /// negative or a counter would overflow.
    pub fn record_session(&self, start_time: i64, duration: i64, now: i64) -> (r: Result<
        GameStats,
        AppError,
    >)
        ensures
            match r {
                Ok(s) => can_record(*self, duration) && s == after_session(
                    *self,
                    start_time,
                    duration,
                    now,
                ),
                Err(e) => !can_record(*self, duration) && e@ == (if duration < 0 {
                    "Session duration is negative"@
                } else {
                    "Play statistics overflow"@
                }),
            },
    {
        if duration < 0 {
            return Err(AppError::new(String::from_str("Session duration is negative")));
        }
        let total = match self.total_playtime.checked_add(duration) {
            Some(t) => t,
            None => {
                return Err(AppError::new(String::from_str("Play statistics overflow")));
            },
        };
        let count = match self.sessions_count.checked_add(1) {
            Some(c) => c,
            None => {
                return Err(AppError::new(String::from_str("Play statistics overflow")));
            },
        };
        Ok(
            GameStats {
                total_playtime: total,
                last_session_duration: duration,
                sessions_count: count,
                first_played: match self.first_played {
                    Some(t) => Some(t),
                    None => Some(start_time),
                },
                last_played: Some(now),
            },
        )
    }
}

/// One game of the library.
#[derive(Debug, PartialEq, Eq)]
pub struct Game {
    pub id: String,
    pub platform_id: String,
    pub platform: Platform,
    pub title: String,
    pub installation: GameInstallation,
    pub metadata: GameMetadata,
    pub media: GameMedia,
    pub last_played: Option<i64>,
    pub stats: GameStats,
}

/// What contracts say of a [`Game`]: the same value with its strings
/// as sequences of characters.
pub struct GameView {
    pub id: Seq<char>,
    pub platform_id: Seq<char>,
    pub platform: Platform,
    pub title: Seq<char>,
    pub installation: GameInstallationView,
    pub metadata: GameMetadataView,
    pub media: GameMediaView,
    pub last_played: Option<i64>,
    pub stats: GameStats,
}

impl View for Game {
    type V = GameView;

    open spec fn view(&self) -> GameView {
        GameView {
            id: self.id@,
            platform_id: self.platform_id@,
            platform: self.platform,
            title: self.title@,
            installation: self.installation@,
            metadata: self.metadata@,
            media: self.media@,
            last_played: self.last_played,
            stats: self.stats,
        }
    }
}

impl DeepView for Game {
    type V = GameView;

    open spec fn deep_view(&self) -> GameView {
        self@
    }
}

impl Clone for Game {
    fn clone(&self) -> (g: Game)
        ensures
            g@ == self@,
    {
        Game {
            id: self.id.clone(),
            platform_id: self.platform_id.clone(),
            platform: self.platform,
            title: self.title.clone(),
            installation: self.installation.clone(),
            metadata: self.metadata.clone(),
            media: self.media.clone(),
            last_played: self.last_played,
            stats: self.stats,
        }
    }
}

/// What a user supplies to add an executable of their own to the library.
#[derive(Debug, PartialEq, Eq)]
pub struct CustomGameConfig {
    pub title: String,
    pub executable_path: String,
    pub install_path: String,
    pub platform: String,
    pub icon_path: Option<String>,
}

/// The state of the application's own update check.
#[derive(Debug, PartialEq, Eq)]
pub struct UpdateStatus {
    pub current_version: String,
    pub latest_version: Option<String>,
    pub update_available: bool,
    pub last_check: Option<i64>,
    pub download_url: Option<String>,
    pub release_notes: Option<String>,
    pub checking: bool,
}

/// Copies an optional string.
pub fn clone_opt_string(s: &Option<String>) -> (r: Option<String>)
    ensures
        r.deep_view() == s.deep_view(),
{
    match s {
        Some(x) => Some(x.clone()),
        None => None,
    }
}

/// Copies a list of strings, keeping their order.
pub fn clone_strings(v: &Vec<String>) -> (r: Vec<String>)
    ensures
        r.deep_view() == v.deep_view(),
{
    let mut r: Vec<String> = Vec::new();
    let mut i: usize = 0;
    while i < v.len()
        invariant
            i <= v.len(),
            r.len() == i,
            forall|j: int| 0 <= j < i ==> r[j]@ == v[j]@,
        decreases v.len() - i,
    {
        r.push(v[i].clone());
        i += 1;
    }
    assert(r.deep_view() =~= v.deep_view());
    r
}

} // verus!

//! The digital storefront: its installed titles are described by one small
//! manifest file each, and are launched through a protocol address.

use vstd::prelude::*;
use crate::error::AppError;
use crate::models::{
    game_id_of, make_game_id, Game, GameInstallation, GameInstallationView, GameMedia, GameMediaView,
    GameMetadata, GameMetadataView, GameResult, GameStats, GameView, Platform,
};
use crate::paths::{has_extension, join, joined, extension_of};
use crate::platforms::traits::{
    command, GameLauncher, GamePlatform, GameScanner, LaunchCommand, MetadataProvider, ScanInput,
};
use crate::snapshot::DiskSnapshot;
use crate::text::{concat2, concat3, contains_string, strip_prefix, stripped_prefix};

verus! {

/// What a manifest file says of one installed title.
#[derive(Debug, PartialEq, Eq)]
pub struct EpicManifest {
    pub install_location: String,
    pub display_name: String,
    pub app_name: String,
    pub main_executable: Option<String>,
    pub install_size: Option<u64>,
    pub version: Option<String>,
    pub categories: Option<Vec<String>>,
}

/// What contracts say of a [`EpicManifest`]: the same value with its strings
/// as sequences of characters.
pub struct EpicManifestView {
    pub install_location: Seq<char>,
    pub display_name: Seq<char>,
    pub app_name: Seq<char>,
    pub main_executable: Option<Seq<char>>,
    pub install_size: Option<u64>,
    pub version: Option<Seq<char>>,
    pub categories: Option<Seq<Seq<char>>>,
}

impl View for EpicManifest {
    type V = EpicManifestView;

    open spec fn view(&self) -> EpicManifestView {
        EpicManifestView {
            install_location: self.install_location@,
            display_name: self.display_name@,
            app_name: self.app_name@,
            main_executable: self.main_executable.deep_view(),
            install_size: self.install_size,
            version: self.version.deep_view(),
            categories: self.categories.deep_view(),
        }
    }
}

impl DeepView for EpicManifest {
    type V = EpicManifestView;

    open spec fn deep_view(&self) -> EpicManifestView {
        self@
    }
}

/// Discovers the installed titles of the storefront.
pub struct EpicGameScanner {
    install_path: String,
    user_added_folders: Vec<String>,
}

/// What contracts say of a [`EpicGameScanner`]: the same value with its strings
/// as sequences of characters.
pub struct EpicScannerView {
    pub install_path: Seq<char>,
    pub user_added_folders: Seq<Seq<char>>,
}

impl View for EpicGameScanner {
    type V = EpicScannerView;

    closed spec fn view(&self) -> EpicScannerView {
        EpicScannerView {
            install_path: self.install_path@,
            user_added_folders: self.user_added_folders.deep_view(),
        }
    }
}

/// The address that asks the storefront's client to start a title.
pub open spec fn launch_url_of(app_name: Seq<char>) -> Seq<char> {
    "com.epicgames.launcher://apps/"@ + app_name + "?action=launch"@
}

/// A manifest describes a game when it is tagged as a game or as an
/// application.
pub open spec fn is_included(m: EpicManifestView) -> bool {
    match m.categories {
        Some(c) => c.contains("games"@) || c.contains("applications"@),
        None => false,
    }
}

/// The record of the title that a manifest describes.
pub open spec fn game_of(m: EpicManifestView) -> GameView {
    GameView {
        id: game_id_of(Platform::Epic, m.app_name),
        platform_id: m.app_name,
        platform: Platform::Epic,
        title: m.display_name,
        installation: GameInstallationView {
            install_path: m.install_location,
            executable: Some(launch_url_of(m.app_name)),
            size: match m.install_size {
                Some(n) => n,
                None => 0,
            },
            version: m.version,
            last_updated: None,
        },
        metadata: GameMetadataView::titled(m.display_name),
        media: GameMediaView::empty(),
        last_played: None,
        stats: GameStats::spec_zero(),
    }
}

/// The records of the manifests that describe a game, in order.
pub open spec fn games_of(manifests: Seq<EpicManifestView>) -> Seq<GameView>
    decreases manifests.len(),
{
    if manifests.len() == 0 {
        Seq::empty()
    } else {
        let rest = games_of(manifests.drop_last());
        if is_included(manifests.last()) {
            rest.push(game_of(manifests.last()))
        } else {
            rest
        }
    }
}

/// Every record of a scan carries the id that the platform and the
/// title's application name determine.
pub proof fn lemma_games_of_ids(manifests: Seq<EpicManifestView>)
    ensures
        forall|i: int|
            0 <= i < games_of(manifests).len() ==> {
                let g = #[trigger] games_of(manifests)[i];
                g.platform == Platform::Epic && g.id == game_id_of(g.platform, g.platform_id)
            },
    decreases manifests.len(),
{
    if manifests.len() > 0 {
        lemma_games_of_ids(manifests.drop_last());
    }
}

/// Where the storefront's client keeps its manifests, under the machine's
/// program-data directory.
pub open spec fn manifests_dir_of(program_data: Seq<char>) -> Seq<char> {
    joined(
        joined(joined(joined(program_data, "Epic"@), "EpicGamesLauncher"@), "Data"@),
        "Manifests"@,
    )
}

impl EpicGameScanner {
    /// A scanner for a client installed at the path the registry records,
    /// or at the standard place where it records none.
    pub fn new(registry_path: Option<String>) -> (s: EpicGameScanner)
        ensures
            s@.install_path == match registry_path {
                Some(p) => p@,
                None => "C:\\Program Files\\Epic Games"@,
            },
            s@.user_added_folders == Seq::<Seq<char>>::empty(),
    {
        let install_path = match registry_path {
            Some(p) => p,
            None => String::from_str("C:\\Program Files\\Epic Games"),
        };
        let s = EpicGameScanner { install_path, user_added_folders: Vec::new() };
        assert(s.user_added_folders.deep_view() =~= Seq::empty());
        s
    }

    /// Where the client is installed.
    pub fn get_install_path(&self) -> (r: String)
        ensures
            r@ == self@.install_path,
    {
        self.install_path.clone()
    }

    /// Adds a folder to search, unless it is there already.
    pub fn add_user_folder(&mut self, path: String) -> (r: Result<(), AppError>)
        ensures
            r is Ok,
            final(self)@.install_path == old(self)@.install_path,
            final(self)@.user_added_folders == if old(self)@.user_added_folders.contains(path@) {
                old(self)@.user_added_folders
            } else {
                old(self)@.user_added_folders.push(path@)
            },
    {
        if !contains_string(&self.user_added_folders, path.as_str()) {
            let ghost before = self.user_added_folders.deep_view();
            self.user_added_folders.push(path);
            assert(self.user_added_folders.deep_view() =~= before.push(path@));
        }
        Ok(())
    }

    /// Where the client keeps its manifests. Fails exactly when the
    /// machine's program-data directory is not known.
    pub fn get_manifests_path(program_data: Option<&str>) -> (r: Result<String, AppError>)
        ensures
            match r {
                Ok(p) => program_data is Some && p@ == manifests_dir_of(program_data->0@),
                Err(e) => program_data is None && e@ == "Failed to get PROGRAMDATA path"@,
            },
    {
        match program_data {
            Some(base) => {
                let a = join(base, "Epic");
                let b = join(a.as_str(), "EpicGamesLauncher");
                let c = join(b.as_str(), "Data");
                Ok(join(c.as_str(), "Manifests"))
            },
            None => Err(AppError::new(String::from_str("Failed to get PROGRAMDATA path"))),
        }
    }

    /// Whether a file of the manifests directory is a manifest.
    pub fn is_manifest_file(path: &str) -> (r: bool)
        ensures
            r == (extension_of(path@) == Some("item"@)),
    {
        has_extension(path, "item")
    }

    /// Whether a manifest describes a game: see [`is_included`].
    pub fn should_include_app(&self, manifest: &EpicManifest) -> (r: bool)
        ensures
            r == is_included(manifest@),
    {
        match &manifest.categories {
            Some(categories) => contains_string(categories, "games") || contains_string(
                categories,
                "applications",
            ),
            None => false,
        }
    }

    /// Builds the record of the title that a manifest describes. Fails
    /// exactly when the manifest does not describe a game.
    pub fn create_game_from_manifest(&self, manifest: &EpicManifest) -> (r: Result<Game, AppError>)
        ensures
            match r {
                Ok(g) => is_included(manifest@) && g@ == game_of(manifest@),
                Err(e) => !is_included(manifest@) && e@ == "Skipping non-game application: "@
                    + manifest@.display_name,
            },
    {
        if !self.should_include_app(manifest) {
            return Err(
                AppError::new(
                    concat2("Skipping non-game application: ", manifest.display_name.as_str()),
                ),
            );
        }
        Ok(
            Game {
                id: make_game_id(Platform::Epic, manifest.app_name.as_str()),
                platform_id: manifest.app_name.clone(),
                platform: Platform::Epic,
                title: manifest.display_name.clone(),
                installation: GameInstallation {
                    install_path: manifest.install_location.clone(),
                    executable: Some(
                        concat3(
                            "com.epicgames.launcher://apps/",
                            manifest.app_name.as_str(),
                            "?action=launch",
                        ),
                    ),
                    size: match manifest.install_size {
                        Some(n) => n,
                        None => 0,
                    },
                    version: crate::models::clone_opt_string(&manifest.version),
                    last_updated: None,
                },
                metadata: GameMetadata::titled(manifest.display_name.clone()),
                media: GameMedia::empty(),
                last_played: None,
                stats: GameStats::zero(),
            },
        )
    }

    /// Scans the manifests that were read: each manifest that describes a
    /// game yields one record, in order; the others are skipped.
    pub fn scan_games(&self, manifests: &Vec<EpicManifest>) -> (games: Vec<Game>)
        ensures
            games.deep_view() == games_of(manifests.deep_view()),
            forall|i: int|
                0 <= i < games.len() ==> (#[trigger] games[i])@.id == game_id_of(
                    Platform::Epic,
                    games[i]@.platform_id,
                ) && games[i]@.platform == Platform::Epic,
    {
        let mut games: Vec<Game> = Vec::new();
        let mut i: usize = 0;
        assert(manifests.deep_view().take(0) =~= Seq::empty());
        assert(games.deep_view() =~= Seq::empty());
        while i < manifests.len()
            invariant
                i <= manifests.len(),
                games.deep_view() == games_of(manifests.deep_view().take(i as int)),
            decreases manifests.len() - i,
        {
            let ghost before = games.deep_view();
            proof {
                let next = manifests.deep_view().take(i + 1);
                assert(next.drop_last() =~= manifests.deep_view().take(i as int));
                assert(next.last() == manifests[i as int]@);
            }
            match self.create_game_from_manifest(&manifests[i]) {
                Ok(g) => {
                    games.push(g);
                    assert(games.deep_view() =~= before.push(g@));
                },
                Err(_) => {},
            }
            i += 1;
        }
        proof {
            assert(manifests.deep_view().take(manifests.len() as int) =~= manifests.deep_view());
            lemma_games_of_ids(manifests.deep_view());
            assert forall|k: int| 0 <= k < games.len() implies (#[trigger] games[k])@.id
                == game_id_of(Platform::Epic, games[k]@.platform_id) && games[k]@.platform
                == Platform::Epic by {
                assert(games.deep_view()[k] == games[k]@);
            }
        }
        games
    }
}

/// Launches the storefront's titles.
pub struct EpicGameLauncher;

/// The command that opens a title's launch address through the shell.
pub open spec fn launch_command_of(app_name: Seq<char>) -> crate::platforms::traits::LaunchCommandView {
    command("cmd"@, seq!["/C"@, "start"@, ""@, launch_url_of(app_name)])
}

impl EpicGameLauncher {
    /// A launcher.
    pub fn new() -> (l: EpicGameLauncher) {
        EpicGameLauncher
    }

    /// The command that starts a game. Fails exactly when the id does not
    /// carry the platform's prefix.
    pub fn launch_command(&self, game_id: &str) -> (r: Result<LaunchCommand, AppError>)
        ensures
            match r {
                Ok(c) => stripped_prefix(game_id@, "epic_"@) is Some && c@ == launch_command_of(
                    stripped_prefix(game_id@, "epic_"@)->0,
                ),
                Err(e) => stripped_prefix(game_id@, "epic_"@) is None && e@
                    == "Invalid Epic game ID format"@,
            },
    {
        match strip_prefix(game_id, "epic_") {
            Some(platform_id) => {
                let url = concat3(
                    "com.epicgames.launcher://apps/",
                    platform_id.as_str(),
                    "?action=launch",
                );
                Ok(
                    LaunchCommand::with4(
                        String::from_str("cmd"),
                        String::from_str("/C"),
                        String::from_str("start"),
                        String::from_str(""),
                        url,
                    ),
                )
            },
            None => Err(AppError::new(String::from_str("Invalid Epic game ID format"))),
        }
    }
}

/// The digital storefront as a platform.
pub struct EpicPlatform {
    pub scanner: EpicGameScanner,
    pub launcher: EpicGameLauncher,
}

impl EpicPlatform {
    /// The platform, for a client installed where the registry says.
    pub fn new(registry_path: Option<String>) -> (p: EpicPlatform)
        ensures
            p.scanner@.install_path == match registry_path {
                Some(x) => x@,
                None => "C:\\Program Files\\Epic Games"@,
            },
            p.scanner@.user_added_folders == Seq::<Seq<char>>::empty(),
    {
        EpicPlatform { scanner: EpicGameScanner::new(registry_path), launcher: EpicGameLauncher::new() }
    }
}

impl GameScanner for EpicPlatform {
    /// Scans the manifests that were read: see [`games_of`]. Never fails.
    fn scan_games(&self, input: &ScanInput) -> (r: GameResult<Vec<Game>>)
        ensures
            r is Ok,
            r->Ok_0.deep_view() == games_of(input.epic_manifests.deep_view()),
    {
        Ok(self.scanner.scan_games(&input.epic_manifests))
    }

    /// The client's install directory.
    fn get_library_paths(&self) -> (r: Vec<String>)
        ensures
            r.deep_view() == seq![self.scanner@.install_path],
    {
        let mut r: Vec<String> = Vec::new();
        r.push(self.scanner.get_install_path());
        assert(r.deep_view() =~= seq![self.scanner@.install_path]);
        r
    }

    /// Adds a folder to search, unless it is there already. Never fails.
    fn add_library_path(&mut self, path: String, disk: &DiskSnapshot) -> (r: GameResult<()>)
        ensures
            r is Ok,
            final(self).scanner@.install_path == old(self).scanner@.install_path,
            final(self).scanner@.user_added_folders == if old(
                self,
            ).scanner@.user_added_folders.contains(path@) {
                old(self).scanner@.user_added_folders
            } else {
                old(self).scanner@.user_added_folders.push(path@)
            },
    {
        self.scanner.add_user_folder(path)
    }
}

impl GameLauncher for EpicPlatform {
    fn launch_game(&self, game_id: &str) -> (r: GameResult<LaunchCommand>)
        ensures
            match r {
                Ok(c) => stripped_prefix(game_id@, "epic_"@) is Some && c@ == launch_command_of(
                    stripped_prefix(game_id@, "epic_"@)->0,
                ),
                Err(e) => stripped_prefix(game_id@, "epic_"@) is None && e@
                    == "Invalid Epic game ID format"@,
            },
    {
        self.launcher.launch_command(game_id)
    }

    /// The client offers no way to stop a title.
    fn stop_game(&self, game_id: &str) -> (r: GameResult<Option<LaunchCommand>>)
        ensures
            r matches Ok(None),
    {
        Ok(None)
    }

    /// The platform cannot tell whether a title runs: it never says so.
    fn is_game_running(&self, game_id: &str, processes: &str) -> (r: GameResult<bool>)
        ensures
            r == Ok::<bool, AppError>(false),
    {
        Ok(false)
    }
}

impl MetadataProvider for EpicPlatform {
    /// The platform has no metadata of its own to add.
    fn update_metadata(&self, game: &mut Game) -> (r: GameResult<()>)
        ensures
            r is Ok,
            *final(game) == *old(game),
    {
        Ok(())
    }
}

impl GamePlatform for EpicPlatform {
    fn platform_name(&self) -> (r: &'static str)
        ensures
            r@ == "Epic Games"@,
    {
        "Epic Games"
    }

    fn supported_file_types(&self) -> (r: Vec<&'static str>)
        ensures
            r.len() == 0,
    {
        Vec::new()
    }

    fn initialize(&mut self) -> (r: GameResult<()>)
        ensures
            r is Ok,
            final(self).scanner@ == old(self).scanner@,
    {
        Ok(())
    }
}

} // verus!

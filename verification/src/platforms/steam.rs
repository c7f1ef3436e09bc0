//! The content-delivery client: its games are described by one manifest
//! per application, kept in library folders, and are launched through a
//! protocol address.

use vstd::prelude::*;
use crate::acf::{entries_of, record_of, AcfData, AcfDataView, AcfParser};
use crate::error::AppError;
use crate::executable_finder::{default_ignored, eligible_of, ranked, ExecutableFinder};
use crate::models::{
    clone_strings, game_id_of, make_game_id, Game, GameInstallation, GameInstallationView, GameMedia,
    GameMediaView, GameMetadata, GameMetadataView, GameResult, GameStats, GameView, Platform,
};
use crate::paths::{extension_of, has_extension, join, join2, joined, joined2};
use crate::platforms::traits::{
    command, GameLauncher, GamePlatform, GameScanner, LaunchCommand, LaunchCommandView,
    MetadataProvider, ScanInput,
};
use crate::snapshot::{DiskSnapshot, DiskView};
use crate::text::{
    concat2, concat3, contains, contains_string, contains_text, dedup_strings, deduped, lines_of,
    strip_prefix, stripped_prefix,
};
use crate::vdf::{library_folders_of, LibraryFolderView, VdfParser};

verus! {

/// Discovers the installed games of the client.
pub struct SteamGameScanner {
    install_path: String,
    library_folders: Vec<String>,
    user_added_folders: Vec<String>,
}

/// What contracts say of a [`SteamGameScanner`]: the same value with its strings
/// as sequences of characters.
pub struct SteamScannerView {
    pub install_path: Seq<char>,
    pub library_folders: Seq<Seq<char>>,
    pub user_added_folders: Seq<Seq<char>>,
}

impl View for SteamGameScanner {
    type V = SteamScannerView;

    closed spec fn view(&self) -> SteamScannerView {
        SteamScannerView {
            install_path: self.install_path@,
            library_folders: self.library_folders.deep_view(),
            user_added_folders: self.user_added_folders.deep_view(),
        }
    }
}

/// Where the client is installed: where the registry says, or at the
/// standard place where it says nothing.
pub open spec fn install_path_of(registry_path: Option<Seq<char>>) -> Seq<char> {
    match registry_path {
        Some(p) => p,
        None => "C:\\Program Files (x86)\\Steam"@,
    }
}

/// The paths of the mounted folders among `folders`, in order.
pub open spec fn mounted_paths(folders: Seq<LibraryFolderView>) -> Seq<Seq<char>>
    decreases folders.len(),
{
    if folders.len() == 0 {
        Seq::empty()
    } else {
        let rest = mounted_paths(folders.drop_last());
        if folders.last().mounted {
            rest.push(folders.last().path)
        } else {
            rest
        }
    }
}

/// The library folders of a client installed at `install_path`: its own
/// games directory, then the mounted folders of its index, each once.
pub open spec fn libraries_at(install_path: Seq<char>, disk: DiskView) -> Seq<Seq<char>> {
    deduped(
        seq![joined(install_path, "steamapps"@)] + match library_folders_of(install_path, disk) {
            Ok(folders) => mounted_paths(folders),
            Err(_) => Seq::empty(),
        },
    )
}

/// Where a game's files would lie in a library folder.
pub open spec fn game_dir_in(library: Seq<char>, install_dir: Seq<char>) -> Seq<char> {
    joined2(library, "common"@, install_dir)
}

/// The first library folder in which the game's directory exists.
pub open spec fn found_in(disk: DiskView, libraries: Seq<Seq<char>>, install_dir: Seq<char>) -> Option<
    Seq<char>,
>
    decreases libraries.len(),
{
    if libraries.len() == 0 {
        None
    } else if disk.has_path(game_dir_in(libraries[0], install_dir)) {
        Some(game_dir_in(libraries[0], install_dir))
    } else {
        found_in(disk, libraries.drop_first(), install_dir)
    }
}

/// Where a game is installed: in the first library folder that holds its
/// directory, the user's folders coming after the client's.
pub open spec fn game_path_of(scanner: SteamScannerView, install_dir: Seq<char>, disk: DiskView) -> Option<
    Seq<char>,
> {
    match found_in(disk, scanner.library_folders, install_dir) {
        Some(p) => Some(p),
        None => found_in(disk, scanner.user_added_folders, install_dir),
    }
}

/// The record of the game that a manifest describes, found at
/// `game_path` with the given main executable.
pub open spec fn game_of(acf: AcfDataView, game_path: Seq<char>, executable: Option<Seq<char>>) -> GameView {
    GameView {
        id: game_id_of(Platform::Steam, acf.app_id),
        platform_id: acf.app_id,
        platform: Platform::Steam,
        title: acf.name,
        installation: GameInstallationView {
            install_path: game_path,
            executable,
            size: acf.size_on_disk,
            version: Some(acf.buildid),
            last_updated: acf.last_updated,
        },
        metadata: GameMetadataView::titled(acf.name),
        media: GameMediaView::empty(),
        last_played: None,
        stats: GameStats::spec_zero(),
    }
}

/// The game that a manifest file yields.
///
/// The file must have been read, hold the required fields, and name a
/// directory that exists in a library folder. The main executable is the
/// best-ranked candidate below that directory, if there is any; a game
/// without one is still a game.
pub open spec fn manifest_game(scanner: SteamScannerView, path: Seq<char>, disk: DiskView) -> Result<
    GameView,
    Seq<char>,
> {
    match disk.document(path) {
        None => Err("Failed to read ACF file"@),
        Some(content) => match record_of(entries_of(lines_of(content))) {
            Err(m) => Err(m),
            Ok(acf) => match game_path_of(scanner, acf.install_dir, disk) {
                None => Err("Could not find installation directory for game: "@ + acf.install_dir),
                Some(p) => Ok(
                    game_of(acf, p, ranked(eligible_of(default_ignored(), disk.walk(p)), acf.name)),
                ),
            },
        },
    }
}

/// The games that the manifests among `files` yield, in order. A file
/// that is no manifest, or whose manifest yields no game, is skipped.
pub open spec fn games_in_files(scanner: SteamScannerView, files: Seq<Seq<char>>, disk: DiskView) -> Seq<
    GameView,
>
    decreases files.len(),
{
    if files.len() == 0 {
        Seq::empty()
    } else {
        let rest = games_in_files(scanner, files.drop_last(), disk);
        if extension_of(files.last()) == Some("acf"@) {
            match manifest_game(scanner, files.last(), disk) {
                Ok(g) => rest.push(g),
                Err(_) => rest,
            }
        } else {
            rest
        }
    }
}

/// The games that the manifests of a run of folders yield, folder by
/// folder.
pub open spec fn games_in_folders(scanner: SteamScannerView, folders: Seq<Seq<char>>, disk: DiskView) -> Seq<
    GameView,
>
    decreases folders.len(),
{
    if folders.len() == 0 {
        Seq::empty()
    } else {
        games_in_folders(scanner, folders.drop_last(), disk) + games_in_files(
            scanner,
            disk.files_in(folders.last()),
            disk,
        )
    }
}

/// What a scan finds: the games of the client's library folders, then
/// those of the user's folders.
pub open spec fn scan_of(scanner: SteamScannerView, disk: DiskView) -> Seq<GameView> {
    games_in_folders(scanner, scanner.library_folders, disk) + games_in_folders(
        scanner,
        scanner.user_added_folders,
        disk,
    )
}

/// Every game that a manifest yields carries the id that the platform and
/// the application id determine.
pub proof fn lemma_manifest_game_id(scanner: SteamScannerView, path: Seq<char>, disk: DiskView)
    ensures
        manifest_game(scanner, path, disk) matches Ok(g) ==> g.platform == Platform::Steam && g.id
            == game_id_of(g.platform, g.platform_id),
{
}

/// Every record of a scan carries the id that the platform and the
/// application id determine.
pub proof fn lemma_scan_ids(scanner: SteamScannerView, disk: DiskView)
    ensures
        forall|i: int|
            0 <= i < scan_of(scanner, disk).len() ==> {
                let g = #[trigger] scan_of(scanner, disk)[i];
                g.platform == Platform::Steam && g.id == game_id_of(g.platform, g.platform_id)
            },
{
    lemma_folders_ids(scanner, scanner.library_folders, disk);
    lemma_folders_ids(scanner, scanner.user_added_folders, disk);
}

proof fn lemma_files_ids(scanner: SteamScannerView, files: Seq<Seq<char>>, disk: DiskView)
    ensures
        forall|i: int|
            0 <= i < games_in_files(scanner, files, disk).len() ==> {
                let g = #[trigger] games_in_files(scanner, files, disk)[i];
                g.platform == Platform::Steam && g.id == game_id_of(g.platform, g.platform_id)
            },
    decreases files.len(),
{
    if files.len() > 0 {
        lemma_files_ids(scanner, files.drop_last(), disk);
        lemma_manifest_game_id(scanner, files.last(), disk);
    }
}

proof fn lemma_folders_ids(scanner: SteamScannerView, folders: Seq<Seq<char>>, disk: DiskView)
    ensures
        forall|i: int|
            0 <= i < games_in_folders(scanner, folders, disk).len() ==> {
                let g = #[trigger] games_in_folders(scanner, folders, disk)[i];
                g.platform == Platform::Steam && g.id == game_id_of(g.platform, g.platform_id)
            },
    decreases folders.len(),
{
    if folders.len() > 0 {
        lemma_folders_ids(scanner, folders.drop_last(), disk);
        lemma_files_ids(scanner, disk.files_in(folders.last()), disk);
    }
}

impl SteamGameScanner {
    /// Where the client is installed: see [`install_path_of`].
    pub fn resolve_install_path(registry_path: Option<String>) -> (r: String)
        ensures
            r@ == install_path_of(registry_path.deep_view()),
    {
        match registry_path {
            Some(p) => p,
            None => String::from_str("C:\\Program Files (x86)\\Steam"),
        }
    }

    /// A scanner for the client that the registry and the disk describe:
    /// see [`libraries_at`] for its library folders.
    pub fn new(registry_path: Option<String>, disk: &DiskSnapshot) -> (s: SteamGameScanner)
        ensures
            s@.install_path == install_path_of(registry_path.deep_view()),
            s@.library_folders == libraries_at(s@.install_path, disk@),
            s@.user_added_folders == Seq::<Seq<char>>::empty(),
    {
        let install_path = Self::resolve_install_path(registry_path);
        let mut all: Vec<String> = Vec::new();
        all.push(join(install_path.as_str(), "steamapps"));
        let ghost first = seq![joined(install_path@, "steamapps"@)];
        assert(all.deep_view() =~= first);
        match VdfParser::parse_library_folders(install_path.as_str(), disk) {
            Ok(folders) => {
                let mut i: usize = 0;
                assert(folders.deep_view().take(0) =~= Seq::empty());
                assert(all.deep_view() =~= first + Seq::empty());
                while i < folders.len()
                    invariant
                        i <= folders.len(),
                        all.deep_view() == first + mounted_paths(folders.deep_view().take(i as int)),
                    decreases folders.len() - i,
                {
                    let ghost before = mounted_paths(folders.deep_view().take(i as int));
                    let ghost all_before = all.deep_view();
                    proof {
                        let next = folders.deep_view().take(i + 1);
                        assert(next.drop_last() =~= folders.deep_view().take(i as int));
                        assert(next.last() == folders[i as int]@);
                    }
                    if folders[i].mounted {
                        all.push(folders[i].path.clone());
                        assert(all.deep_view() =~= all_before.push(folders[i as int]@.path));
                        assert(all.deep_view() =~= first + before.push(folders[i as int]@.path));
                    }
                    i += 1;
                }
                assert(folders.deep_view().take(folders.len() as int) =~= folders.deep_view());
            },
            Err(_) => {
                assert(all.deep_view() =~= first + Seq::empty());
            },
        }
        let library_folders = dedup_strings(&all);
        let s = SteamGameScanner { install_path, library_folders, user_added_folders: Vec::new() };
        assert(s.user_added_folders.deep_view() =~= Seq::empty());
        s
    }

    /// Every folder that is searched: the client's library folders, then
    /// the user's.
    pub fn get_library_paths(&self) -> (r: Vec<String>)
        ensures
            r.deep_view() == self@.library_folders + self@.user_added_folders,
    {
        let mut paths = clone_strings(&self.library_folders);
        let mut i: usize = 0;
        assert(self.user_added_folders.deep_view().take(0) =~= Seq::empty());
        assert(paths.deep_view() =~= self.library_folders.deep_view() + Seq::empty());
        while i < self.user_added_folders.len()
            invariant
                i <= self.user_added_folders.len(),
                paths.deep_view() == self.library_folders.deep_view()
                    + self.user_added_folders.deep_view().take(i as int),
            decreases self.user_added_folders.len() - i,
        {
            let ghost before = paths.deep_view();
            paths.push(self.user_added_folders[i].clone());
            assert(paths.deep_view() =~= before.push(self.user_added_folders[i as int]@));
            assert(self.user_added_folders.deep_view().take(i + 1)
                =~= self.user_added_folders.deep_view().take(i as int).push(
                self.user_added_folders[i as int]@,
            ));
            assert(paths.deep_view() =~= self.library_folders.deep_view()
                + self.user_added_folders.deep_view().take(i + 1));
            i += 1;
        }
        assert(self.user_added_folders.deep_view().take(self.user_added_folders.len() as int)
            =~= self.user_added_folders.deep_view());
        paths
    }

    /// Adds a folder of the user's to search. Fails, changing nothing,
    /// exactly when the folder is not on disk; a folder that is searched
    /// already is not added twice.
    pub fn add_library_path(&mut self, path: String, disk: &DiskSnapshot) -> (r: Result<(), AppError>)
        ensures
            final(self)@.install_path == old(self)@.install_path,
            final(self)@.library_folders == old(self)@.library_folders,
            match r {
                Ok(_) => disk@.has_path(path@) && final(self)@.user_added_folders == if old(
                    self,
                )@.user_added_folders.contains(path@) {
                    old(self)@.user_added_folders
                } else {
                    old(self)@.user_added_folders.push(path@)
                },
                Err(e) => !disk@.has_path(path@) && final(self)@ == old(self)@ && e@
                    == "Path does not exist: "@ + path@,
            },
    {
        if !disk.has_path(path.as_str()) {
            return Err(AppError::new(concat2("Path does not exist: ", path.as_str())));
        }
        if !contains_string(&self.user_added_folders, path.as_str()) {
            let ghost before = self.user_added_folders.deep_view();
            self.user_added_folders.push(path);
            assert(self.user_added_folders.deep_view() =~= before.push(path@));
        }
        Ok(())
    }

    /// Where a game's files would lie in each searched folder: the paths
    /// whose existence [`Self::find_game_path`] asks about.
    pub fn game_path_candidates(&self, install_dir: &str) -> (r: Vec<String>)
        ensures
            r.len() == self@.library_folders.len() + self@.user_added_folders.len(),
            forall|i: int|
                0 <= i < r.len() ==> r[i]@ == game_dir_in(
                    (self@.library_folders + self@.user_added_folders)[i],
                    install_dir@,
                ),
    {
        let folders = self.get_library_paths();
        let mut out: Vec<String> = Vec::new();
        let mut i: usize = 0;
        assert(folders.deep_view().len() == folders.len());
        while i < folders.len()
            invariant
                i <= folders.len(),
                out.len() == i,
                folders.deep_view() == self@.library_folders + self@.user_added_folders,
                forall|j: int|
                    0 <= j < i ==> out[j]@ == game_dir_in(folders.deep_view()[j], install_dir@),
            decreases folders.len() - i,
        {
            assert(folders.deep_view()[i as int] == folders[i as int]@);
            out.push(join2(folders[i].as_str(), "common", install_dir));
            i += 1;
        }
        out
    }

    fn find_in(folders: &Vec<String>, install_dir: &str, disk: &DiskSnapshot) -> (r: Option<String>)
        ensures
            r.deep_view() == found_in(disk@, folders.deep_view(), install_dir@),
    {
        let mut i: usize = 0;
        assert(folders.deep_view().skip(0) =~= folders.deep_view());
        while i < folders.len()
            invariant
                i <= folders.len(),
                found_in(disk@, folders.deep_view(), install_dir@) == found_in(
                    disk@,
                    folders.deep_view().skip(i as int),
                    install_dir@,
                ),
            decreases folders.len() - i,
        {
            let ghost rest = folders.deep_view().skip(i as int);
            proof {
                assert(rest[0] == folders[i as int]@);
                assert(rest.drop_first() =~= folders.deep_view().skip(i + 1));
            }
            let game_path = join2(folders[i].as_str(), "common", install_dir);
            if disk.has_path(game_path.as_str()) {
                return Some(game_path);
            }
            i += 1;
        }
        None
    }

    /// Finds where a game is installed: see [`game_path_of`]. Fails
    /// exactly when its directory exists in no searched folder.
    pub fn find_game_path(&self, install_dir: &str, disk: &DiskSnapshot) -> (r: Result<String, AppError>)
        ensures
            match r {
                Ok(p) => game_path_of(self@, install_dir@, disk@) == Some(p@),
                Err(e) => game_path_of(self@, install_dir@, disk@) is None && e@
                    == "Could not find installation directory for game: "@ + install_dir@,
            },
    {
        match Self::find_in(&self.library_folders, install_dir, disk) {
            Some(p) => {
                return Ok(p);
            },
            None => {},
        }
        match Self::find_in(&self.user_added_folders, install_dir, disk) {
            Some(p) => Ok(p),
            None => Err(
                AppError::new(
                    concat2("Could not find installation directory for game: ", install_dir),
                ),
            ),
        }
    }

    /// Finds the main executable of a game among the files that were
    /// found below its directory.
    pub fn find_game_executable(&self, game_path: &str, game_name: &str, disk: &DiskSnapshot) -> (r:
        Option<String>)
        ensures
            r.deep_view() == ranked(
                eligible_of(default_ignored(), disk@.walk(game_path@)),
                game_name@,
            ),
    {
        let finder = ExecutableFinder::new();
        let files = disk.walk(game_path);
        proof {
            crate::executable_finder::lemma_best_is_first_maximum(
                crate::executable_finder::scores_of(
                    eligible_of(default_ignored(), disk@.walk(game_path@)),
                    game_name@,
                ),
            );
        }
        match finder.find_main_executable(&files, game_name) {
            Ok(p) => Some(p),
            Err(_) => None,
        }
    }

    /// Builds the record of the game that a manifest describes.
    pub fn describe(acf: AcfData, game_path: String, executable: Option<String>) -> (g: Game)
        ensures
            g@ == game_of(acf@, game_path@, executable.deep_view()),
    {
        Game {
            id: make_game_id(Platform::Steam, acf.app_id.as_str()),
            platform_id: acf.app_id,
            platform: Platform::Steam,
            title: acf.name.clone(),
            installation: GameInstallation {
                install_path: game_path,
                executable,
                size: acf.size_on_disk,
                version: Some(acf.buildid),
                last_updated: acf.last_updated,
            },
            metadata: GameMetadata::titled(acf.name),
            media: GameMedia::empty(),
            last_played: None,
            stats: GameStats::zero(),
        }
    }

    /// Reads the game that a manifest file describes: see
    /// [`manifest_game`].
    pub fn parse_acf_file(&self, path: &str, disk: &DiskSnapshot) -> (r: Result<Game, AppError>)
        ensures
            match r {
                Ok(g) => manifest_game(self@, path@, disk@) == Ok::<GameView, Seq<char>>(g@),
                Err(e) => manifest_game(self@, path@, disk@) == Err::<GameView, Seq<char>>(e@),
            },
    {
        let content = match disk.document(path) {
            Some(c) => c.clone(),
            None => {
                return Err(AppError::new(String::from_str("Failed to read ACF file")));
            },
        };
        let acf_parser = AcfParser::new(content);
        let acf_data = match acf_parser.parse() {
            Ok(d) => d,
            Err(e) => {
                return Err(e);
            },
        };
        let game_path = match self.find_game_path(acf_data.install_dir.as_str(), disk) {
            Ok(p) => p,
            Err(e) => {
                return Err(e);
            },
        };
        let executable = self.find_game_executable(
            game_path.as_str(),
            acf_data.name.as_str(),
            disk,
        );
        Ok(Self::describe(acf_data, game_path, executable))
    }

    fn scan_folders(&self, folders: &Vec<String>, disk: &DiskSnapshot, all_games: &mut Vec<Game>)
        ensures
            final(all_games).deep_view() == old(all_games).deep_view() + games_in_folders(
                self@,
                folders.deep_view(),
                disk@,
            ),
    {
        let ghost start = all_games.deep_view();
        let mut i: usize = 0;
        assert(folders.deep_view().take(0) =~= Seq::empty());
        assert(all_games.deep_view() =~= start + Seq::empty());
        while i < folders.len()
            invariant
                i <= folders.len(),
                all_games.deep_view() == start + games_in_folders(
                    self@,
                    folders.deep_view().take(i as int),
                    disk@,
                ),
            decreases folders.len() - i,
        {
            let ghost done = games_in_folders(self@, folders.deep_view().take(i as int), disk@);
            proof {
                let next = folders.deep_view().take(i + 1);
                assert(next.drop_last() =~= folders.deep_view().take(i as int));
                assert(next.last() == folders[i as int]@);
            }
            let files = disk.files_in(folders[i].as_str());
            let mut j: usize = 0;
            assert(files.deep_view().take(0) =~= Seq::empty());
            assert(all_games.deep_view() =~= start + done + Seq::empty());
            while j < files.len()
                invariant
                    j <= files.len(),
                    all_games.deep_view() == start + done + games_in_files(
                        self@,
                        files.deep_view().take(j as int),
                        disk@,
                    ),
                decreases files.len() - j,
            {
                let ghost inner = games_in_files(self@, files.deep_view().take(j as int), disk@);
                let ghost before = all_games.deep_view();
                proof {
                    let next = files.deep_view().take(j + 1);
                    assert(next.drop_last() =~= files.deep_view().take(j as int));
                    assert(next.last() == files[j as int]@);
                }
                if has_extension(files[j].as_str(), "acf") {
                    match self.parse_acf_file(files[j].as_str(), disk) {
                        Ok(game) => {
                            all_games.push(game);
                            assert(all_games.deep_view() =~= before.push(game@));
                            assert(all_games.deep_view() =~= start + done + inner.push(game@));
                        },
                        Err(_) => {},
                    }
                }
                j += 1;
            }
            proof {
                assert(files.deep_view().take(files.len() as int) =~= files.deep_view());
                let found = games_in_files(self@, files.deep_view(), disk@);
                assert(start + done + found =~= start + (done + found));
            }
            i += 1;
        }
        assert(folders.deep_view().take(folders.len() as int) =~= folders.deep_view());
    }

    /// Scans every searched folder for manifests: see [`scan_of`]. A
    /// manifest that cannot be read or yields no game is skipped; the scan
    /// itself never fails.
    pub fn scan_games(&self, disk: &DiskSnapshot) -> (games: Vec<Game>)
        ensures
            games.deep_view() == scan_of(self@, disk@),
            forall|i: int|
                0 <= i < games.len() ==> (#[trigger] games[i])@.id == game_id_of(
                    Platform::Steam,
                    games[i]@.platform_id,
                ) && games[i]@.platform == Platform::Steam,
    {
        let mut all_games: Vec<Game> = Vec::new();
        assert(all_games.deep_view() =~= Seq::empty());
        self.scan_folders(&self.library_folders, disk, &mut all_games);
        let ghost first = all_games.deep_view();
        assert(first =~= games_in_folders(self@, self@.library_folders, disk@));
        self.scan_folders(&self.user_added_folders, disk, &mut all_games);
        proof {
            lemma_scan_ids(self@, disk@);
            assert forall|k: int| 0 <= k < all_games.len() implies (#[trigger] all_games[k])@.id
                == game_id_of(Platform::Steam, all_games[k]@.platform_id) && all_games[k]@.platform
                == Platform::Steam by {
                assert(all_games.deep_view()[k] == all_games[k]@);
            }
        }
        all_games
    }
}

/// Launches the client's games.
pub struct SteamGameLauncher {
    steam_path: String,
}

/// How long the client is given to start, in seconds.
pub const CLIENT_STARTUP_SECS: u64 = 5;

/// The application id that a game id carries: what follows the platform's
/// prefix, provided it holds no further underscore.
pub open spec fn app_id_of(game_id: Seq<char>) -> Option<Seq<char>> {
    match stripped_prefix(game_id, "steam_"@) {
        Some(rest) => if contains_text(rest, "_"@) {
            None
        } else {
            Some(rest)
        },
        None => None,
    }
}

/// The command that hands a line to the shell.
pub open spec fn shell(line: Seq<char>) -> LaunchCommandView {
    command("cmd"@, seq!["/C"@, line])
}

impl SteamGameLauncher {
    /// Where the client's binary lies.
    pub closed spec fn client_path(&self) -> Seq<char> {
        self.steam_path@
    }

    /// A launcher for a client at the standard place.
    pub fn new() -> (l: SteamGameLauncher)
        ensures
            l.client_path() == "C:\\Program Files (x86)\\Steam\\steam.exe"@,
    {
        SteamGameLauncher { steam_path: String::from_str("C:\\Program Files (x86)\\Steam\\steam.exe") }
    }

    /// Whether the client shows in a listing of the running processes.
    pub fn check_steam_process(&self, processes: &str) -> (r: bool)
        ensures
            r == contains_text(processes@, "steam.exe"@),
    {
        contains(processes, "steam.exe")
    }

    /// The command that starts the client. Fails exactly when the
    /// client's binary is not on disk.
    pub fn start_steam(&self, disk: &DiskSnapshot) -> (r: Result<LaunchCommand, AppError>)
        ensures
            match r {
                Ok(c) => disk@.has_path(self.client_path()) && c@ == command(
                    self.client_path(),
                    Seq::empty(),
                ),
                Err(e) => !disk@.has_path(self.client_path()) && e@ == "Steam executable not found"@,
            },
    {
        if !disk.has_path(self.steam_path.as_str()) {
            return Err(AppError::new(String::from_str("Steam executable not found")));
        }
        Ok(LaunchCommand::bare(self.steam_path.clone()))
    }

    /// What has to run before a game can be launched: nothing where the
    /// client is running already, else the command that starts it, after
    /// which the client is given [`CLIENT_STARTUP_SECS`] seconds.
    pub fn ensure_steam_running(&self, processes: &str, disk: &DiskSnapshot) -> (r: Result<
        Option<LaunchCommand>,
        AppError,
    >)
        ensures
            match r {
                Ok(None) => contains_text(processes@, "steam.exe"@),
                Ok(Some(c)) => !contains_text(processes@, "steam.exe"@) && disk@.has_path(
                    self.client_path(),
                ) && c@ == command(self.client_path(), Seq::empty()),
                Err(e) => !contains_text(processes@, "steam.exe"@) && !disk@.has_path(
                    self.client_path(),
                ) && e@ == "Steam executable not found"@,
            },
    {
        if self.check_steam_process(processes) {
            Ok(None)
        } else {
            match self.start_steam(disk) {
                Ok(c) => Ok(Some(c)),
                Err(e) => Err(e),
            }
        }
    }

    /// Reads the application id off a game id: see [`app_id_of`].
    pub fn extract_app_id(&self, game_id: &str) -> (r: Result<String, AppError>)
        ensures
            match r {
                Ok(id) => app_id_of(game_id@) == Some(id@),
                Err(e) => app_id_of(game_id@) is None && e@ == "Invalid Steam game ID format: "@
                    + game_id@,
            },
    {
        match strip_prefix(game_id, "steam_") {
            Some(rest) => {
                if contains(rest.as_str(), "_") {
                    Err(AppError::new(concat2("Invalid Steam game ID format: ", game_id)))
                } else {
                    Ok(rest)
                }
            },
            None => Err(AppError::new(concat2("Invalid Steam game ID format: ", game_id))),
        }
    }

    /// The command that asks the client to run a game. It counts as
    /// launched only if the command succeeds.
    pub fn launch_command(&self, game_id: &str) -> (r: Result<LaunchCommand, AppError>)
        ensures
            match r {
                Ok(c) => app_id_of(game_id@) is Some && c@ == shell(
                    "start steam://run/"@ + app_id_of(game_id@)->0,
                ),
                Err(e) => app_id_of(game_id@) is None && e@ == "Invalid Steam game ID format: "@
                    + game_id@,
            },
    {
        match self.extract_app_id(game_id) {
            Ok(app_id) => Ok(
                LaunchCommand::with2(
                    String::from_str("cmd"),
                    String::from_str("/C"),
                    concat2("start steam://run/", app_id.as_str()),
                ),
            ),
            Err(e) => Err(e),
        }
    }

    /// The command that asks the client to stop a game.
    pub fn stop_command(&self, game_id: &str) -> (r: Result<LaunchCommand, AppError>)
        ensures
            match r {
                Ok(c) => app_id_of(game_id@) is Some && c@ == shell(
                    "start steam://stop/"@ + app_id_of(game_id@)->0,
                ),
                Err(e) => app_id_of(game_id@) is None && e@ == "Invalid Steam game ID format: "@
                    + game_id@,
            },
    {
        match self.extract_app_id(game_id) {
            Ok(app_id) => Ok(
                LaunchCommand::with2(
                    String::from_str("cmd"),
                    String::from_str("/C"),
                    concat2("start steam://stop/", app_id.as_str()),
                ),
            ),
            Err(e) => Err(e),
        }
    }

    /// Whether a game shows in a listing of the running processes, under
    /// the name the client gives its games' processes.
    pub fn game_is_listed(&self, game_id: &str, processes: &str) -> (r: Result<bool, AppError>)
        ensures
            match r {
                Ok(b) => app_id_of(game_id@) is Some && b == contains_text(
                    processes@,
                    "steam_app_"@ + app_id_of(game_id@)->0 + ".exe"@,
                ),
                Err(e) => app_id_of(game_id@) is None && e@ == "Invalid Steam game ID format: "@
                    + game_id@,
            },
    {
        match self.extract_app_id(game_id) {
            Ok(app_id) => {
                let name = concat3("steam_app_", app_id.as_str(), ".exe");
                Ok(contains(processes, name.as_str()))
            },
            Err(e) => Err(e),
        }
    }
}

/// The name of an application's manifest file.
pub open spec fn manifest_name_of(app_id: Seq<char>) -> Seq<char> {
    "appmanifest_"@ + app_id + ".acf"@
}

/// The game of the first folder whose manifest for the application exists
/// and yields a game.
pub open spec fn game_by_id_in(
    scanner: SteamScannerView,
    folders: Seq<Seq<char>>,
    app_id: Seq<char>,
    disk: DiskView,
) -> Option<GameView>
    decreases folders.len(),
{
    if folders.len() == 0 {
        None
    } else {
        let path = joined(folders[0], manifest_name_of(app_id));
        if disk.has_path(path) && manifest_game(scanner, path, disk) is Ok {
            Some(manifest_game(scanner, path, disk)->Ok_0)
        } else {
            game_by_id_in(scanner, folders.drop_first(), app_id, disk)
        }
    }
}

/// The content-delivery client as a platform.
pub struct SteamPlatform {
    pub scanner: SteamGameScanner,
    pub launcher: SteamGameLauncher,
}

impl SteamPlatform {
    /// The platform, for the client that the registry and the disk
    /// describe.
    pub fn new(registry_path: Option<String>, disk: &DiskSnapshot) -> (p: SteamPlatform)
        ensures
            p.scanner@.install_path == install_path_of(registry_path.deep_view()),
            p.scanner@.library_folders == libraries_at(p.scanner@.install_path, disk@),
            p.scanner@.user_added_folders == Seq::<Seq<char>>::empty(),
            p.launcher.client_path() == "C:\\Program Files (x86)\\Steam\\steam.exe"@,
    {
        SteamPlatform {
            scanner: SteamGameScanner::new(registry_path, disk),
            launcher: SteamGameLauncher::new(),
        }
    }

    /// Where the manifest of an application would lie in each searched
    /// folder: the paths that [`Self::get_game_by_id`] asks about.
    pub fn manifest_candidates(&self, platform_specific_id: &str) -> (r: Vec<String>)
        ensures
            r.len() == self.scanner@.library_folders.len() + self.scanner@.user_added_folders.len(),
            forall|i: int|
                0 <= i < r.len() ==> r[i]@ == joined(
                    (self.scanner@.library_folders + self.scanner@.user_added_folders)[i],
                    manifest_name_of(platform_specific_id@),
                ),
    {
        let name = concat3("appmanifest_", platform_specific_id, ".acf");
        let folders = self.scanner.get_library_paths();
        let mut out: Vec<String> = Vec::new();
        let mut i: usize = 0;
        assert(folders.deep_view().len() == folders.len());
        while i < folders.len()
            invariant
                i <= folders.len(),
                out.len() == i,
                name@ == manifest_name_of(platform_specific_id@),
                folders.deep_view() == self.scanner@.library_folders
                    + self.scanner@.user_added_folders,
                forall|j: int| 0 <= j < i ==> out[j]@ == joined(folders.deep_view()[j], name@),
            decreases folders.len() - i,
        {
            assert(folders.deep_view()[i as int] == folders[i as int]@);
            out.push(join(folders[i].as_str(), name.as_str()));
            i += 1;
        }
        out
    }

    /// Reads one game by its application id: from the first searched
    /// folder whose manifest for it exists and yields a game.
    pub fn get_game_by_id(&self, platform_specific_id: &str, disk: &DiskSnapshot) -> (r: Option<Game>)
        ensures
            r.deep_view() == game_by_id_in(
                self.scanner@,
                self.scanner@.library_folders + self.scanner@.user_added_folders,
                platform_specific_id@,
                disk@,
            ),
    {
        let name = concat3("appmanifest_", platform_specific_id, ".acf");
        let folders = self.scanner.get_library_paths();
        let mut i: usize = 0;
        assert(folders.deep_view().skip(0) =~= folders.deep_view());
        while i < folders.len()
            invariant
                i <= folders.len(),
                name@ == manifest_name_of(platform_specific_id@),
                folders.deep_view() == self.scanner@.library_folders
                    + self.scanner@.user_added_folders,
                game_by_id_in(self.scanner@, folders.deep_view(), platform_specific_id@, disk@)
                    == game_by_id_in(
                    self.scanner@,
                    folders.deep_view().skip(i as int),
                    platform_specific_id@,
                    disk@,
                ),
            decreases folders.len() - i,
        {
            let ghost rest = folders.deep_view().skip(i as int);
            proof {
                assert(rest[0] == folders[i as int]@);
                assert(rest.drop_first() =~= folders.deep_view().skip(i + 1));
            }
            let full_path = join(folders[i].as_str(), name.as_str());
            if disk.has_path(full_path.as_str()) {
                match self.scanner.parse_acf_file(full_path.as_str(), disk) {
                    Ok(game) => {
                        return Some(game);
                    },
                    Err(_) => {},
                }
            }
            i += 1;
        }
        None
    }
}

impl GameScanner for SteamPlatform {
    /// Scans the disk that was read: see [`scan_of`]. Never fails.
    fn scan_games(&self, input: &ScanInput) -> (r: GameResult<Vec<Game>>)
        ensures
            r is Ok,
            r->Ok_0.deep_view() == scan_of(self.scanner@, input.disk@),
    {
        Ok(self.scanner.scan_games(&input.disk))
    }

    fn get_library_paths(&self) -> (r: Vec<String>)
        ensures
            r.deep_view() == self.scanner@.library_folders + self.scanner@.user_added_folders,
    {
        self.scanner.get_library_paths()
    }

    fn add_library_path(&mut self, path: String, disk: &DiskSnapshot) -> (r: GameResult<()>)
        ensures
            final(self).scanner@.install_path == old(self).scanner@.install_path,
            final(self).scanner@.library_folders == old(self).scanner@.library_folders,
            final(self).launcher.client_path() == old(self).launcher.client_path(),
            match r {
                Ok(_) => disk@.has_path(path@) && final(self).scanner@.user_added_folders == if old(
                    self,
                ).scanner@.user_added_folders.contains(path@) {
                    old(self).scanner@.user_added_folders
                } else {
                    old(self).scanner@.user_added_folders.push(path@)
                },
                Err(e) => !disk@.has_path(path@) && final(self).scanner@ == old(self).scanner@ && e@
                    == "Path does not exist: "@ + path@,
            },
    {
        self.scanner.add_library_path(path, disk)
    }
}

impl GameLauncher for SteamPlatform {
    fn launch_game(&self, game_id: &str) -> (r: GameResult<LaunchCommand>)
        ensures
            match r {
                Ok(c) => app_id_of(game_id@) is Some && c@ == shell(
                    "start steam://run/"@ + app_id_of(game_id@)->0,
                ),
                Err(e) => app_id_of(game_id@) is None && e@ == "Invalid Steam game ID format: "@
                    + game_id@,
            },
    {
        self.launcher.launch_command(game_id)
    }

    fn stop_game(&self, game_id: &str) -> (r: GameResult<Option<LaunchCommand>>)
        ensures
            match r {
                Ok(c) => app_id_of(game_id@) is Some && c.deep_view() == Some(
                    shell("start steam://stop/"@ + app_id_of(game_id@)->0),
                ),
                Err(e) => app_id_of(game_id@) is None && e@ == "Invalid Steam game ID format: "@
                    + game_id@,
            },
    {
        match self.launcher.stop_command(game_id) {
            Ok(c) => Ok(Some(c)),
            Err(e) => Err(e),
        }
    }

    fn is_game_running(&self, game_id: &str, processes: &str) -> (r: GameResult<bool>)
        ensures
            match r {
                Ok(b) => app_id_of(game_id@) is Some && b == contains_text(
                    processes@,
                    "steam_app_"@ + app_id_of(game_id@)->0 + ".exe"@,
                ),
                Err(e) => app_id_of(game_id@) is None && e@ == "Invalid Steam game ID format: "@
                    + game_id@,
            },
    {
        self.launcher.game_is_listed(game_id, processes)
    }
}

impl MetadataProvider for SteamPlatform {
    /// The platform has no metadata of its own to add.
    fn update_metadata(&self, game: &mut Game) -> (r: GameResult<()>)
        ensures
            r is Ok,
            *final(game) == *old(game),
    {
        Ok(())
    }
}

impl GamePlatform for SteamPlatform {
    fn platform_name(&self) -> (r: &'static str)
        ensures
            r@ == "Steam"@,
    {
        "Steam"
    }

    fn supported_file_types(&self) -> (r: Vec<&'static str>)
        ensures
            r.len() == 1,
            r[0]@ == "acf"@,
    {
        let mut r: Vec<&'static str> = Vec::new();
        r.push("acf");
        r
    }

    fn initialize(&mut self) -> (r: GameResult<()>)
        ensures
            r is Ok,
            final(self).scanner@ == old(self).scanner@,
            final(self).launcher.client_path() == old(self).launcher.client_path(),
    {
        Ok(())
    }
}

} // verus!

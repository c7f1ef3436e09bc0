//! The social-gaming client: discovery of its installed titles.
//!
//! The client keeps a configuration file that lists the titles a user has
//! and hints at where they are installed. A title counts as installed only
//! if its binary is found on disk.

use vstd::prelude::*;
use crate::error::AppError;
use crate::models::{
    game_id_of, make_game_id, Game, GameInstallation, GameInstallationView, GameMedia, GameMediaView,
    GameMetadata, GameMetadataView, GameResult, GameStats, GameView, Platform,
};
use crate::paths::{ends_with, ends_with_components, join, join2, joined, joined2, parent, parent_of};
use crate::snapshot::{first_with_key, lookup, DiskSnapshot, DiskView};
use crate::platforms::traits::{
    command, GameLauncher, GamePlatform, GameScanner, LaunchCommand, MetadataProvider, ScanInput,
};
use crate::text::{
    concat2, concat3, contains, contains_string, contains_text, parse_i64, parsed_i64, replace,
    replaced, same_text, strip_prefix, stripped_prefix,
};

verus! {

/// What is known of one title of the client.
#[derive(Debug, Clone, Copy, PartialEq, Eq)]
pub struct BnetGameInfo {
    /// The title as shown to users.
    pub name: &'static str,
    /// The directory the title installs into.
    pub game_dir: &'static str,
    /// The title's own launcher.
    pub launcher_exe: &'static str,
    /// The code that asks the client to start the title.
    pub launch_code: &'static str,
    /// The title's binary.
    pub game_exe: &'static str,
    /// The subdirectory of the install directory that holds the binary.
    pub game_subdir: &'static str,
}

/// What contracts say of a [`BnetGameInfo`]: the same value with its strings
/// as sequences of characters.
pub struct BnetGameInfoView {
    pub name: Seq<char>,
    pub game_dir: Seq<char>,
    pub launcher_exe: Seq<char>,
    pub launch_code: Seq<char>,
    pub game_exe: Seq<char>,
    pub game_subdir: Seq<char>,
}

impl View for BnetGameInfo {
    type V = BnetGameInfoView;

    open spec fn view(&self) -> BnetGameInfoView {
        BnetGameInfoView {
            name: self.name@,
            game_dir: self.game_dir@,
            launcher_exe: self.launcher_exe@,
            launch_code: self.launch_code@,
            game_exe: self.game_exe@,
            game_subdir: self.game_subdir@,
        }
    }
}

impl DeepView for BnetGameInfo {
    type V = BnetGameInfoView;

    open spec fn deep_view(&self) -> BnetGameInfoView {
        self@
    }
}

/// What the library reads from the client's configuration file.
#[derive(Debug, PartialEq, Eq)]
pub struct BnetConfig {
    /// The directory new titles install into, where the file names one.
    pub default_install_path: Option<String>,
    /// The titles the file lists: each one's short code, and the time of
    /// the last action on it as the file writes it.
    pub games: Vec<(String, Option<String>)>,
    /// The file's other top-level sections: each one's name and the path
    /// it records, if any.
    pub servers: Vec<(String, Option<String>)>,
}

/// What contracts say of a [`BnetConfig`]: the same value with its strings
/// as sequences of characters.
pub struct BnetConfigView {
    pub default_install_path: Option<Seq<char>>,
    pub games: Seq<(Seq<char>, Option<Seq<char>>)>,
    pub servers: Seq<(Seq<char>, Option<Seq<char>>)>,
}

impl View for BnetConfig {
    type V = BnetConfigView;

    open spec fn view(&self) -> BnetConfigView {
        BnetConfigView {
            default_install_path: self.default_install_path.deep_view(),
            games: self.games.deep_view(),
            servers: self.servers.deep_view(),
        }
    }
}

/// Discovers the installed titles of the client.
#[derive(Debug)]
pub struct BattleNetGameScanner {
    known_games: Vec<(String, BnetGameInfo)>,
}

/// One row of the table of known titles. Every title keeps its binary in
/// the same subdirectory.
pub open spec fn title(
    name: Seq<char>,
    game_dir: Seq<char>,
    launcher_exe: Seq<char>,
    launch_code: Seq<char>,
    game_exe: Seq<char>,
) -> BnetGameInfoView {
    BnetGameInfoView { name, game_dir, launcher_exe, launch_code, game_exe, game_subdir: "_retail_"@ }
}

/// The titles the scanner knows, by short code.
pub open spec fn known_titles() -> Seq<(Seq<char>, BnetGameInfoView)> {
    seq![
        (
            "wow"@,
            title(
                "World of Warcraft"@,
                "World of Warcraft"@,
                "World of Warcraft Launcher.exe"@,
                "WoW"@,
                "Wow.exe"@,
            ),
        ),
        (
            "prometheus"@,
            title("Overwatch 2"@, "Overwatch"@, "Overwatch Launcher.exe"@, "Pro"@, "Overwatch.exe"@),
        ),
        ("d4"@, title("Diablo IV"@, "Diablo IV"@, "Diablo IV Launcher.exe"@, "D3"@, "Diablo IV.exe"@)),
        (
            "d3"@,
            title("Diablo III"@, "Diablo III"@, "Diablo III Launcher.exe"@, "Pro"@, "Diablo III.exe"@),
        ),
        (
            "hs"@,
            title("Hearthstone"@, "Hearthstone"@, "Hearthstone Launcher.exe"@, "Pro"@, "Hearthstone.exe"@),
        ),
        (
            "hots"@,
            title(
                "Heroes of the Storm"@,
                "Heroes of the Storm"@,
                "Heroes of the Storm Launcher.exe"@,
                "Pro"@,
                "Heroes of the Storm.exe"@,
            ),
        ),
        (
            "scr"@,
            title(
                "StarCraft: Remastered"@,
                "StarCraft"@,
                "StarCraft Launcher.exe"@,
                "Pro"@,
                "StarCraft.exe"@,
            ),
        ),
        (
            "s2"@,
            title(
                "StarCraft II"@,
                "StarCraft II"@,
                "StarCraft II Launcher.exe"@,
                "Pro"@,
                "StarCraft II.exe"@,
            ),
        ),
        (
            "w3"@,
            title(
                "Warcraft III: Reforged"@,
                "Warcraft III"@,
                "Warcraft III Launcher.exe"@,
                "Pro"@,
                "Warcraft III.exe"@,
            ),
        ),
        (
            "viper"@,
            title(
                "Call of Duty: Modern Warfare"@,
                "Call of Duty"@,
                "Call of Duty Launcher.exe"@,
                "Pro"@,
                "ModernWarfare.exe"@,
            ),
        ),
    ]
}

/// The directories that usually hold the client.
pub open spec fn program_directories() -> Seq<Seq<char>> {
    seq!["C:\\Program Files (x86)"@, "C:\\Program Files"@]
}

/// Where the client's binary lies under a base directory.
pub open spec fn launcher_under(base: Seq<char>) -> Seq<char> {
    joined2(base, "Battle.net"@, "Battle.net.exe"@)
}

/// The first base directory under which the client's binary exists.
pub open spec fn launcher_in(disk: DiskView, bases: Seq<Seq<char>>) -> Option<Seq<char>>
    decreases bases.len(),
{
    if bases.len() == 0 {
        None
    } else if disk.has_path(launcher_under(bases[0])) {
        Some(launcher_under(bases[0]))
    } else {
        launcher_in(disk, bases.drop_first())
    }
}

/// The command line that asks the client at `launcher_path` to start the
/// title with the given code.
pub open spec fn launch_command_of(launcher_path: Seq<char>, launch_code: Seq<char>) -> Seq<char> {
    "cmd /c start \"\" \""@ + replaced(launcher_path, "\\"@, "/"@) + "\" --exec=\"launch "@
        + launch_code + "\""@
}

/// Whether a path recorded in the configuration is the client's own
/// directory.
pub open spec fn is_client_dir(path: Seq<char>) -> bool {
    ends_with_components(path, "Battle.net"@)
}

/// The install roots after taking one section's path into account: the
/// client's own directory goes to the front, its parent to the back.
pub open spec fn with_section(roots: Seq<Seq<char>>, path: Option<Seq<char>>) -> Seq<Seq<char>> {
    match path {
        Some(p) => if is_client_dir(p) {
            let front = seq![p] + roots;
            match parent_of(p) {
                Some(q) => front.push(q),
                None => front,
            }
        } else {
            roots
        },
        None => roots,
    }
}

/// The install roots after taking every section into account, in order.
pub open spec fn with_sections(roots: Seq<Seq<char>>, sections: Seq<(Seq<char>, Option<Seq<char>>)>) -> Seq<
    Seq<char>,
>
    decreases sections.len(),
{
    if sections.len() == 0 {
        roots
    } else {
        with_section(with_sections(roots, sections.drop_last()), sections.last().1)
    }
}

/// Whether some section records the client's own directory.
pub open spec fn names_client_dir(sections: Seq<(Seq<char>, Option<Seq<char>>)>) -> bool {
    exists|i: int|
        0 <= i < sections.len() && (#[trigger] sections[i]).1 is Some && is_client_dir(
            sections[i].1->0,
        )
}

/// The standard places of the client's directory.
pub open spec fn standard_client_dirs() -> Seq<Seq<char>> {
    seq!["C:\\Program Files (x86)\\Battle.net"@, "C:\\Program Files\\Battle.net"@]
}

/// The install roots with the standard places that exist put in front,
/// the later one first.
pub open spec fn with_standard_dirs(roots: Seq<Seq<char>>, disk: DiskView) -> Seq<Seq<char>> {
    let a = standard_client_dirs()[0];
    let b = standard_client_dirs()[1];
    let first = if disk.has_path(a) {
        seq![a] + roots
    } else {
        roots
    };
    if disk.has_path(b) {
        seq![b] + first
    } else {
        first
    }
}

/// The directory of a file; the file's own path where it has none.
pub open spec fn directory_of(path: Seq<char>) -> Seq<char> {
    match parent_of(path) {
        Some(p) => p,
        None => path,
    }
}

/// The directories under which titles are looked for, in the order in
/// which they are tried.
///
/// The configured default directory comes first. Each section that
/// records the client's own directory puts that directory in front and its
/// parent at the back. If no section does, the standard places that exist
/// are put in front. The directory of the client's binary comes last.
pub open spec fn install_roots_of(config: BnetConfigView, launcher: Seq<char>, disk: DiskView) -> Seq<
    Seq<char>,
> {
    let initial = match config.default_install_path {
        Some(p) => seq![p],
        None => Seq::empty(),
    };
    let configured = with_sections(initial, config.servers);
    let all = if names_client_dir(config.servers) {
        configured
    } else {
        with_standard_dirs(configured, disk)
    };
    all.push(directory_of(launcher))
}

/// The install directories of a title that lie one level deeper than the
/// direct one, for the given subdirectories of a root.
pub open spec fn nested_installs(dirs: Seq<Seq<char>>, game_dir: Seq<char>, direct: Seq<char>) -> Seq<
    Seq<char>,
>
    decreases dirs.len(),
{
    if dirs.len() == 0 {
        Seq::empty()
    } else {
        let rest = nested_installs(dirs.drop_last(), game_dir, direct);
        let p = joined(dirs.last(), game_dir);
        if p != direct {
            rest.push(p)
        } else {
            rest
        }
    }
}

/// Where a title may be installed under a root: directly, or inside any of
/// the root's subdirectories.
pub open spec fn install_candidates(disk: DiskView, root: Seq<char>, game_dir: Seq<char>) -> Seq<
    Seq<char>,
> {
    let direct = joined(root, game_dir);
    seq![direct] + nested_installs(disk.directories_in(root), game_dir, direct)
}

/// Where a title's binary lies under an install directory.
pub open spec fn binary_under(install: Seq<char>, info: BnetGameInfoView) -> Seq<char> {
    joined2(install, info.game_subdir, info.game_exe)
}

/// The first of the candidate install directories that holds the title's
/// binary.
pub open spec fn first_installed(disk: DiskView, candidates: Seq<Seq<char>>, info: BnetGameInfoView) -> Option<
    Seq<char>,
>
    decreases candidates.len(),
{
    if candidates.len() == 0 {
        None
    } else if disk.has_path(binary_under(candidates[0], info)) {
        Some(candidates[0])
    } else {
        first_installed(disk, candidates.drop_first(), info)
    }
}

/// The install directory of a title: the first hit under the first root
/// that has one.
pub open spec fn located(disk: DiskView, roots: Seq<Seq<char>>, info: BnetGameInfoView) -> Option<
    Seq<char>,
>
    decreases roots.len(),
{
    if roots.len() == 0 {
        None
    } else {
        match first_installed(disk, install_candidates(disk, roots[0], info.game_dir), info) {
            Some(p) => Some(p),
            None => located(disk, roots.drop_first(), info),
        }
    }
}

/// The record of a title found at `install_path`.
pub open spec fn discovered(
    code: Seq<char>,
    info: BnetGameInfoView,
    install_path: Seq<char>,
    launcher: Seq<char>,
    last_actioned: Option<Seq<char>>,
    disk: DiskView,
) -> GameView {
    GameView {
        id: game_id_of(Platform::BattleNet, code),
        platform_id: code,
        platform: Platform::BattleNet,
        title: info.name,
        installation: GameInstallationView {
            install_path,
            executable: Some(launch_command_of(launcher, info.launch_code)),
            size: disk.size_of(install_path),
            version: None,
            last_updated: match last_actioned {
                Some(t) => parsed_i64(t),
                None => None,
            },
        },
        metadata: GameMetadataView {
            developer: Some("Blizzard Entertainment"@),
            publisher: Some("Blizzard Entertainment"@),
            ..GameMetadataView::titled(info.name)
        },
        media: GameMediaView::empty(),
        last_played: None,
        stats: GameStats::spec_zero(),
    }
}

/// The record of one listed title, if the title is known and installed.
pub open spec fn discovered_entry(
    known: Seq<(Seq<char>, BnetGameInfoView)>,
    entry: (Seq<char>, Option<Seq<char>>),
    roots: Seq<Seq<char>>,
    launcher: Seq<char>,
    disk: DiskView,
) -> Option<GameView> {
    match first_with_key(known, entry.0) {
        Some(info) => match located(disk, roots, info) {
            Some(p) => Some(discovered(entry.0, info, p, launcher, entry.1, disk)),
            None => None,
        },
        None => None,
    }
}

/// The short codes that a run of entries lists, in order.
pub open spec fn codes_of(entries: Seq<(Seq<char>, Option<Seq<char>>)>) -> Seq<Seq<char>> {
    Seq::new(entries.len(), |i: int| entries[i].0)
}

/// The records of the listed titles that are known and installed, in the
/// order in which the configuration lists them. A title counts where it is
/// listed first: an entry whose code was listed before is passed over.
pub open spec fn discovered_all(
    known: Seq<(Seq<char>, BnetGameInfoView)>,
    entries: Seq<(Seq<char>, Option<Seq<char>>)>,
    roots: Seq<Seq<char>>,
    launcher: Seq<char>,
    disk: DiskView,
) -> Seq<GameView>
    decreases entries.len(),
{
    if entries.len() == 0 {
        Seq::empty()
    } else {
        let rest = discovered_all(known, entries.drop_last(), roots, launcher, disk);
        if codes_of(entries.drop_last()).contains(entries.last().0) {
            rest
        } else {
            match discovered_entry(known, entries.last(), roots, launcher, disk) {
                Some(g) => rest.push(g),
                None => rest,
            }
        }
    }
}

/// What a scan finds: nothing where the client itself is absent;
/// otherwise the listed titles that are known and installed.
pub open spec fn scan_of(known: Seq<(Seq<char>, BnetGameInfoView)>, config: BnetConfigView, disk: DiskView) -> Seq<
    GameView,
> {
    match launcher_in(disk, program_directories()) {
        None => Seq::empty(),
        Some(launcher) => discovered_all(
            known,
            config.games,
            install_roots_of(config, launcher, disk),
            launcher,
            disk,
        ),
    }
}

/// What a scan reports: every record is a title of the platform under
/// the id that the platform and the title's short code determine; the code
/// is listed by the configuration and known to the scanner; and no two
/// records have the same id.
pub proof fn lemma_discovered_ids(
    known: Seq<(Seq<char>, BnetGameInfoView)>,
    entries: Seq<(Seq<char>, Option<Seq<char>>)>,
    roots: Seq<Seq<char>>,
    launcher: Seq<char>,
    disk: DiskView,
)
    ensures
        forall|i: int|
            0 <= i < discovered_all(known, entries, roots, launcher, disk).len() ==> {
                let g = #[trigger] discovered_all(known, entries, roots, launcher, disk)[i];
                &&& g.platform == Platform::BattleNet
                &&& g.id == game_id_of(g.platform, g.platform_id)
                &&& codes_of(entries).contains(g.platform_id)
                &&& first_with_key(known, g.platform_id) is Some
            },
        crate::database::unique_ids(discovered_all(known, entries, roots, launcher, disk)),
    decreases entries.len(),
{
    if entries.len() > 0 {
        let init = entries.drop_last();
        let last = entries.last();
        lemma_discovered_ids(known, init, roots, launcher, disk);
        let rest = discovered_all(known, init, roots, launcher, disk);
        let all = discovered_all(known, entries, roots, launcher, disk);
        assert forall|x: Seq<char>| codes_of(init).contains(x) implies codes_of(entries).contains(
            x,
        ) by {
            let k = choose|k: int| 0 <= k < codes_of(init).len() && codes_of(init)[k] == x;
            assert(codes_of(entries)[k] == x);
        }
        assert(codes_of(entries)[entries.len() - 1] == last.0);
        assert forall|i: int| 0 <= i < all.len() implies {
            let g = #[trigger] all[i];
            &&& g.platform == Platform::BattleNet
            &&& g.id == game_id_of(g.platform, g.platform_id)
            &&& codes_of(entries).contains(g.platform_id)
            &&& first_with_key(known, g.platform_id) is Some
        } by {
            if i < rest.len() {
                assert(all[i] == rest[i]);
            }
        }
        assert forall|a: int, b: int| 0 <= a < b < all.len() implies (#[trigger] all[a]).id != (
        #[trigger] all[b]).id by {
            if b < rest.len() {
                assert(rest[a].id != rest[b].id);
            } else {
                assert(all[a] == rest[a]);
                assert(codes_of(init).contains(rest[a].platform_id));
                if all[a].id == all[b].id {
                    crate::models::lemma_game_id_injective(
                        Platform::BattleNet,
                        all[a].platform_id,
                        Platform::BattleNet,
                        all[b].platform_id,
                    );
                }
            }
        }
    }
}

fn known_title(
    name: &'static str,
    game_dir: &'static str,
    launcher_exe: &'static str,
    launch_code: &'static str,
    game_exe: &'static str,
) -> (r: BnetGameInfo)
    ensures
        r@ == title(name@, game_dir@, launcher_exe@, launch_code@, game_exe@),
{
    BnetGameInfo { name, game_dir, launcher_exe, launch_code, game_exe, game_subdir: "_retail_" }
}

/// Puts a string in front of a list.
pub fn push_front(list: &mut Vec<String>, item: String)
    ensures
        final(list).deep_view() == seq![item@] + old(list).deep_view(),
{
    list.insert(0, item);
    assert(list.deep_view() =~= seq![item@] + old(list).deep_view());
}

/// Puts a string at the back of a list.
pub fn push_back(list: &mut Vec<String>, item: String)
    ensures
        final(list).deep_view() == old(list).deep_view().push(item@),
{
    list.push(item);
    assert(list.deep_view() =~= old(list).deep_view().push(item@));
}

impl BattleNetGameScanner {
    /// The titles this scanner knows, by short code.
    pub closed spec fn known(&self) -> Seq<(Seq<char>, BnetGameInfoView)> {
        self.known_games.deep_view()
    }

    /// A scanner that knows the standard table of titles.
    pub fn new() -> (s: BattleNetGameScanner)
        ensures
            s.known() == known_titles(),
    {
        let mut k: Vec<(String, BnetGameInfo)> = Vec::new();
        k.push(
            (
                String::from_str("wow"),
                known_title(
                    "World of Warcraft",
                    "World of Warcraft",
                    "World of Warcraft Launcher.exe",
                    "WoW",
                    "Wow.exe",
                ),
            ),
        );
        k.push(
            (
                String::from_str("prometheus"),
                known_title("Overwatch 2", "Overwatch", "Overwatch Launcher.exe", "Pro", "Overwatch.exe"),
            ),
        );
        k.push(
            (
                String::from_str("d4"),
                known_title("Diablo IV", "Diablo IV", "Diablo IV Launcher.exe", "D3", "Diablo IV.exe"),
            ),
        );
        k.push(
            (
                String::from_str("d3"),
                known_title("Diablo III", "Diablo III", "Diablo III Launcher.exe", "Pro", "Diablo III.exe"),
            ),
        );
        k.push(
            (
                String::from_str("hs"),
                known_title("Hearthstone", "Hearthstone", "Hearthstone Launcher.exe", "Pro", "Hearthstone.exe"),
            ),
        );
        k.push(
            (
                String::from_str("hots"),
                known_title(
                    "Heroes of the Storm",
                    "Heroes of the Storm",
                    "Heroes of the Storm Launcher.exe",
                    "Pro",
                    "Heroes of the Storm.exe",
                ),
            ),
        );
        k.push(
            (
                String::from_str("scr"),
                known_title(
                    "StarCraft: Remastered",
                    "StarCraft",
                    "StarCraft Launcher.exe",
                    "Pro",
                    "StarCraft.exe",
                ),
            ),
        );
        k.push(
            (
                String::from_str("s2"),
                known_title(
                    "StarCraft II",
                    "StarCraft II",
                    "StarCraft II Launcher.exe",
                    "Pro",
                    "StarCraft II.exe",
                ),
            ),
        );
        k.push(
            (
                String::from_str("w3"),
                known_title(
                    "Warcraft III: Reforged",
                    "Warcraft III",
                    "Warcraft III Launcher.exe",
                    "Pro",
                    "Warcraft III.exe",
                ),
            ),
        );
        k.push(
            (
                String::from_str("viper"),
                known_title(
                    "Call of Duty: Modern Warfare",
                    "Call of Duty",
                    "Call of Duty Launcher.exe",
                    "Pro",
                    "ModernWarfare.exe",
                ),
            ),
        );
        assert(k.deep_view() =~= known_titles());
        BattleNetGameScanner { known_games: k }
    }

    /// What the scanner knows of a title, by short code.
    pub fn known_game(&self, code: &str) -> (r: Option<&BnetGameInfo>)
        ensures
            r.deep_view() == first_with_key(self.known(), code@),
    {
        lookup(&self.known_games, code)
    }

    /// Where the client keeps its configuration, under the user's
    /// application-data directory. Fails exactly when that directory is not
    /// known.
    pub fn get_config_path(app_data: Option<&str>) -> (r: Result<String, AppError>)
        ensures
            match r {
                Ok(p) => app_data is Some && p@ == joined2(
                    app_data->0@,
                    "Battle.net"@,
                    "Battle.net.config"@,
                ),
                Err(e) => app_data is None && e@ == "Failed to get APPDATA path"@,
            },
    {
        match app_data {
            Some(base) => Ok(join2(base, "Battle.net", "Battle.net.config")),
            None => Err(AppError::new(String::from_str("Failed to get APPDATA path"))),
        }
    }

    /// The directories that usually hold the client.
    pub fn base_paths() -> (r: Vec<String>)
        ensures
            r.deep_view() == program_directories(),
    {
        let mut r: Vec<String> = Vec::new();
        r.push(String::from_str("C:\\Program Files (x86)"));
        r.push(String::from_str("C:\\Program Files"));
        assert(r.deep_view() =~= program_directories());
        r
    }

    /// Where the client's binary would lie under each base directory: the
    /// paths whose existence decides [`Self::find_battlenet_launcher`].
    pub fn launcher_candidates(base_paths: &Vec<String>) -> (r: Vec<String>)
        ensures
            r.len() == base_paths.len(),
            forall|i: int| 0 <= i < r.len() ==> r[i]@ == launcher_under(base_paths[i]@),
    {
        let mut r: Vec<String> = Vec::new();
        let mut i: usize = 0;
        while i < base_paths.len()
            invariant
                i <= base_paths.len(),
                r.len() == i,
                forall|j: int| 0 <= j < i ==> r[j]@ == launcher_under(base_paths[j]@),
            decreases base_paths.len() - i,
        {
            r.push(join2(base_paths[i].as_str(), "Battle.net", "Battle.net.exe"));
            i += 1;
        }
        r
    }

    /// Finds the client's binary: under the first base directory that
    /// holds it. Fails exactly when none does.
    pub fn find_battlenet_launcher(&self, base_paths: &Vec<String>, disk: &DiskSnapshot) -> (r: Result<
        String,
        AppError,
    >)
        ensures
            match r {
                Ok(p) => launcher_in(disk@, base_paths.deep_view()) == Some(p@),
                Err(e) => launcher_in(disk@, base_paths.deep_view()) is None && e@
                    == "Could not find Battle.net launcher"@,
            },
    {
        let mut i: usize = 0;
        assert(base_paths.deep_view().skip(0) =~= base_paths.deep_view());
        while i < base_paths.len()
            invariant
                i <= base_paths.len(),
                launcher_in(disk@, base_paths.deep_view()) == launcher_in(
                    disk@,
                    base_paths.deep_view().skip(i as int),
                ),
            decreases base_paths.len() - i,
        {
            let ghost rest = base_paths.deep_view().skip(i as int);
            assert(rest[0] == base_paths[i as int]@);
            assert(rest.drop_first() =~= base_paths.deep_view().skip(i + 1));
            let launcher_path = join2(base_paths[i].as_str(), "Battle.net", "Battle.net.exe");
            if disk.has_path(launcher_path.as_str()) {
                return Ok(launcher_path);
            }
            i += 1;
        }
        Err(AppError::new(String::from_str("Could not find Battle.net launcher")))
    }

    /// Builds the command line that asks the client to start a title.
    /// Backslashes of the client's path are written as slashes.
    pub fn create_launch_command(launcher_path: &str, launch_code: &str) -> (r: String)
        ensures
            r@ == launch_command_of(launcher_path@, launch_code@),
    {
        let launcher_str = replace(launcher_path, "\\", "/");
        let head = concat3("cmd /c start \"\" \"", launcher_str.as_str(), "\" --exec=\"launch ");
        concat3(head.as_str(), launch_code, "\"")
    }

    /// The standard places of the client's directory: paths whose
    /// existence [`Self::install_roots`] asks about.
    pub fn standard_paths() -> (r: Vec<String>)
        ensures
            r.deep_view() == standard_client_dirs(),
            r.len() == 2,
    {
        let mut r: Vec<String> = Vec::new();
        r.push(String::from_str("C:\\Program Files (x86)\\Battle.net"));
        r.push(String::from_str("C:\\Program Files\\Battle.net"));
        assert(r.deep_view() =~= standard_client_dirs());
        r
    }

    /// The directories under which titles are looked for, in the order in
    /// which they are tried: see [`install_roots_of`].
    pub fn install_roots(&self, config: &BnetConfig, launcher: &str, disk: &DiskSnapshot) -> (r: Vec<
        String,
    >)
        ensures
            r.deep_view() == install_roots_of(config@, launcher@, disk@),
    {
        let mut roots: Vec<String> = Vec::new();
        assert(roots.deep_view() =~= Seq::empty());
        match &config.default_install_path {
            Some(p) => {
                push_back(&mut roots, p.clone());
                assert(roots.deep_view() =~= seq![p@]);
            },
            None => {},
        }
        let ghost initial = roots.deep_view();
        let mut found = false;
        let mut i: usize = 0;
        assert(config@.servers.take(0) =~= Seq::empty());
        while i < config.servers.len()
            invariant
                i <= config.servers.len(),
                roots.deep_view() == with_sections(initial, config@.servers.take(i as int)),
                found == names_client_dir(config@.servers.take(i as int)),
            decreases config.servers.len() - i,
        {
            let ghost before = config@.servers.take(i as int);
            let ghost next = config@.servers.take(i + 1);
            proof {
                assert(next.drop_last() =~= before);
                assert(next.last() == config@.servers[i as int]);
                assert(config@.servers[i as int].1 == config.servers[i as int].1.deep_view());
                assert forall|j: int| 0 <= j < before.len() implies before[j] == next[j] by {}
            }
            let mut hit = false;
            match &config.servers[i].1 {
                Some(p) => {
                    if ends_with(p.as_str(), "Battle.net") {
                        hit = true;
                        push_front(&mut roots, p.clone());
                        match parent(p.as_str()) {
                            Some(q) => {
                                push_back(&mut roots, q);
                            },
                            None => {},
                        }
                    }
                },
                None => {},
            }
            proof {
                assert(hit == (next.last().1 is Some && is_client_dir(next.last().1->0)));
                if names_client_dir(next) {
                    let j = choose|j: int|
                        0 <= j < next.len() && (#[trigger] next[j]).1 is Some && is_client_dir(
                            next[j].1->0,
                        );
                    if j < before.len() {
                        assert(before[j] == next[j]);
                        assert(names_client_dir(before));
                    }
                }
                if names_client_dir(before) {
                    let j = choose|j: int|
                        0 <= j < before.len() && (#[trigger] before[j]).1 is Some && is_client_dir(
                            before[j].1->0,
                        );
                    assert(next[j] == before[j]);
                    assert(names_client_dir(next));
                }
                if hit {
                    assert(next[i as int] == next.last());
                    assert(names_client_dir(next));
                }
            }
            if hit {
                found = true;
            }
            i += 1;
        }
        assert(config@.servers.take(config.servers.len() as int) =~= config@.servers);
        if !found {
            let standard = Self::standard_paths();
            assert(standard.deep_view()[0] == standard[0]@);
            assert(standard.deep_view()[1] == standard[1]@);
            if disk.has_path(standard[0].as_str()) {
                push_front(&mut roots, standard[0].clone());
            }
            if disk.has_path(standard[1].as_str()) {
                push_front(&mut roots, standard[1].clone());
            }
        }
        let launcher_base = match parent(launcher) {
            Some(p) => p,
            None => String::from_str(launcher),
        };
        push_back(&mut roots, launcher_base);
        roots
    }

    /// Where a title may be installed under a root: see
    /// [`install_candidates`].
    pub fn candidate_installs(root: &str, game_dir: &str, disk: &DiskSnapshot) -> (r: Vec<String>)
        ensures
            r.deep_view() == install_candidates(disk@, root@, game_dir@),
    {
        let direct = join(root, game_dir);
        let mut out: Vec<String> = Vec::new();
        push_back(&mut out, direct.clone());
        assert(out.deep_view() =~= seq![direct@]);
        match lookup(&disk.listings, root) {
            Some(listing) => {
                let dirs = &listing.0;
                let mut i: usize = 0;
                assert(dirs.deep_view().take(0) =~= Seq::empty());
                assert(out.deep_view() =~= seq![direct@] + Seq::empty());
                while i < dirs.len()
                    invariant
                        i <= dirs.len(),
                        out.deep_view() == seq![direct@] + nested_installs(
                            dirs.deep_view().take(i as int),
                            game_dir@,
                            direct@,
                        ),
                    decreases dirs.len() - i,
                {
                    let ghost next = dirs.deep_view().take(i + 1);
                    let ghost before = nested_installs(
                        dirs.deep_view().take(i as int),
                        game_dir@,
                        direct@,
                    );
                    proof {
                        assert(next.drop_last() =~= dirs.deep_view().take(i as int));
                        assert(next.last() == dirs[i as int]@);
                    }
                    let p = join(dirs[i].as_str(), game_dir);
                    if !same_text(p.as_str(), direct.as_str()) {
                        push_back(&mut out, p);
                        assert(out.deep_view() =~= seq![direct@] + before.push(p@));
                    }
                    i += 1;
                }
                assert(dirs.deep_view().take(dirs.len() as int) =~= dirs.deep_view());
            },
            None => {
                assert(out.deep_view() =~= seq![direct@] + nested_installs(
                    Seq::empty(),
                    game_dir@,
                    direct@,
                ));
            },
        }
        out
    }

    /// Where a title's binary lies under an install directory.
    pub fn game_binary(install_path: &str, info: &BnetGameInfo) -> (r: String)
        ensures
            r@ == binary_under(install_path@, info@),
    {
        join2(install_path, info.game_subdir, info.game_exe)
    }

    /// The first of the candidate install directories that holds the
    /// title's binary.
    pub fn first_installed_in(candidates: &Vec<String>, info: &BnetGameInfo, disk: &DiskSnapshot) -> (r:
        Option<String>)
        ensures
            r.deep_view() == first_installed(disk@, candidates.deep_view(), info@),
    {
        let mut j: usize = 0;
        assert(candidates.deep_view().skip(0) =~= candidates.deep_view());
        while j < candidates.len()
            invariant
                j <= candidates.len(),
                first_installed(disk@, candidates.deep_view(), info@) == first_installed(
                    disk@,
                    candidates.deep_view().skip(j as int),
                    info@,
                ),
            decreases candidates.len() - j,
        {
            let ghost tail = candidates.deep_view().skip(j as int);
            proof {
                assert(tail[0] == candidates[j as int]@);
                assert(tail.drop_first() =~= candidates.deep_view().skip(j + 1));
            }
            let binary = Self::game_binary(candidates[j].as_str(), info);
            if disk.has_path(binary.as_str()) {
                return Some(candidates[j].clone());
            }
            j += 1;
        }
        None
    }

    /// Finds where a title is installed: see [`located`].
    pub fn locate(info: &BnetGameInfo, roots: &Vec<String>, disk: &DiskSnapshot) -> (r: Option<String>)
        ensures
            r.deep_view() == located(disk@, roots.deep_view(), info@),
    {
        let mut i: usize = 0;
        assert(roots.deep_view().skip(0) =~= roots.deep_view());
        while i < roots.len()
            invariant
                i <= roots.len(),
                located(disk@, roots.deep_view(), info@) == located(
                    disk@,
                    roots.deep_view().skip(i as int),
                    info@,
                ),
            decreases roots.len() - i,
        {
            let ghost rest = roots.deep_view().skip(i as int);
            proof {
                assert(rest[0] == roots[i as int]@);
                assert(rest.drop_first() =~= roots.deep_view().skip(i + 1));
            }
            let candidates = Self::candidate_installs(roots[i].as_str(), info.game_dir, disk);
            match Self::first_installed_in(&candidates, info, disk) {
                Some(p) => {
                    return Some(p);
                },
                None => {},
            }
            i += 1;
        }
        None
    }

    /// Builds the record of a title found at `install_path`.
    pub fn describe(
        code: &str,
        info: &BnetGameInfo,
        install_path: String,
        launcher: &str,
        last_actioned: &Option<String>,
        disk: &DiskSnapshot,
    ) -> (g: Game)
        ensures
            g@ == discovered(code@, info@, install_path@, launcher@, last_actioned.deep_view(), disk@),
    {
        let size = disk.folder_size(install_path.as_str());
        let last_updated: Option<i64> = match last_actioned {
            Some(t) => parse_i64(t.as_str()),
            None => None,
        };
        let base = GameMetadata::titled(String::from_str(info.name));
        let metadata = GameMetadata {
            title: base.title,
            description: None,
            developer: Some(String::from_str("Blizzard Entertainment")),
            publisher: Some(String::from_str("Blizzard Entertainment")),
            release_date: None,
            genres: base.genres,
            tags: base.tags,
            media: None,
        };
        Game {
            id: make_game_id(Platform::BattleNet, code),
            platform_id: String::from_str(code),
            platform: Platform::BattleNet,
            title: String::from_str(info.name),
            installation: GameInstallation {
                install_path,
                executable: Some(Self::create_launch_command(launcher, info.launch_code)),
                size,
                version: None,
                last_updated,
            },
            metadata,
            media: GameMedia::empty(),
            last_played: None,
            stats: GameStats::zero(),
        }
    }

    /// Scans for installed titles.
    ///
    /// Where the client's binary is found in no standard place, nothing
    /// is reported. Otherwise each title that the configuration lists, that
    /// the scanner knows and whose binary is on disk is reported once, in
    /// the configuration's order; a code that is listed again is passed
    /// over. A title that cannot be located is skipped; the scan itself
    /// never fails. No two of the reported games have the same id.
    pub fn scan_games(&self, config: &BnetConfig, disk: &DiskSnapshot) -> (games: Vec<Game>)
        ensures
            games.deep_view() == scan_of(self.known(), config@, disk@),
            forall|i: int|
                0 <= i < games.len() ==> {
                    &&& (#[trigger] games[i])@.id == game_id_of(
                        Platform::BattleNet,
                        games[i]@.platform_id,
                    )
                    &&& games[i]@.platform == Platform::BattleNet
                    &&& codes_of(config@.games).contains(games[i]@.platform_id)
                    &&& first_with_key(self.known(), games[i]@.platform_id) is Some
                },
            crate::database::unique_ids(games.deep_view()),
    {
        let mut games: Vec<Game> = Vec::new();
        assert(games.deep_view() =~= Seq::empty());
        let base_paths = Self::base_paths();
        let launcher = match self.find_battlenet_launcher(&base_paths, disk) {
            Ok(p) => p,
            Err(_) => {
                return games;
            },
        };
        let roots = self.install_roots(config, launcher.as_str(), disk);
        let mut seen: Vec<String> = Vec::new();
        let mut i: usize = 0;
        assert(config@.games.take(0) =~= Seq::empty());
        assert(seen.deep_view() =~= codes_of(config@.games.take(0)));
        while i < config.games.len()
            invariant
                i <= config.games.len(),
                seen.deep_view() == codes_of(config@.games.take(i as int)),
                games.deep_view() == discovered_all(
                    self.known(),
                    config@.games.take(i as int),
                    roots.deep_view(),
                    launcher@,
                    disk@,
                ),
            decreases config.games.len() - i,
        {
            let ghost before = games.deep_view();
            proof {
                let next = config@.games.take(i + 1);
                assert(next.drop_last() =~= config@.games.take(i as int));
                assert(next.last() == config@.games[i as int]);
                assert(config@.games[i as int] == (
                    config.games[i as int].0@,
                    config.games[i as int].1.deep_view(),
                ));
            }
            let code = config.games[i].0.as_str();
            let ghost seen_before = seen.deep_view();
            if !contains_string(&seen, code) {
                match self.known_game(code) {
                    Some(info) => {
                        match Self::locate(info, &roots, disk) {
                            Some(install_path) => {
                                let g = Self::describe(
                                    code,
                                    info,
                                    install_path,
                                    launcher.as_str(),
                                    &config.games[i].1,
                                    disk,
                                );
                                games.push(g);
                                assert(games.deep_view() =~= before.push(g@));
                            },
                            None => {},
                        }
                    },
                    None => {},
                }
            }
            seen.push(String::from_str(code));
            proof {
                assert(seen.deep_view() =~= seen_before.push(code@));
                assert(seen_before.push(code@) =~= codes_of(config@.games.take(i + 1)));
            }
            i += 1;
        }
        proof {
            assert(config@.games.take(config.games.len() as int) =~= config@.games);
            lemma_discovered_ids(self.known(), config@.games, roots.deep_view(), launcher@, disk@);
            assert forall|k: int| 0 <= k < games.len() implies {
                &&& (#[trigger] games[k])@.id == game_id_of(
                    Platform::BattleNet,
                    games[k]@.platform_id,
                )
                &&& games[k]@.platform == Platform::BattleNet
                &&& codes_of(config@.games).contains(games[k]@.platform_id)
                &&& first_with_key(self.known(), games[k]@.platform_id) is Some
            } by {
                assert(games.deep_view()[k] == games[k]@);
            }
        }
        games
    }
}

/// How a title is started through the client, and how its process is
/// recognised.
#[derive(Debug, Clone, Copy, PartialEq, Eq)]
pub struct GameLaunchInfo {
    pub game_id: &'static str,
    /// The code that asks the client to start the title.
    pub launch_code: &'static str,
    /// The name of the title's process.
    pub process_name: &'static str,
    /// Another name under which the process may run.
    pub process_name_alt: Option<&'static str>,
    /// How long the title takes to come up, in seconds.
    pub wait_secs: u64,
}

/// What contracts say of a [`GameLaunchInfo`]: the same value with its strings
/// as sequences of characters.
pub struct GameLaunchInfoView {
    pub game_id: Seq<char>,
    pub launch_code: Seq<char>,
    pub process_name: Seq<char>,
    pub process_name_alt: Option<Seq<char>>,
    pub wait_secs: u64,
}

impl View for GameLaunchInfo {
    type V = GameLaunchInfoView;

    open spec fn view(&self) -> GameLaunchInfoView {
        GameLaunchInfoView {
            game_id: self.game_id@,
            launch_code: self.launch_code@,
            process_name: self.process_name@,
            process_name_alt: match self.process_name_alt {
                Some(a) => Some(a@),
                None => None,
            },
            wait_secs: self.wait_secs,
        }
    }
}

/// How long a launched title is waited for, in seconds.
pub const LAUNCH_TIMEOUT_SECS: u64 = 30;

/// How long the client is given to start, in seconds.
pub const CLIENT_STARTUP_SECS: u64 = 5;

/// The pause between two looks at the process list, in seconds.
pub const POLL_INTERVAL_SECS: u64 = 1;

/// One row of the table of launchable titles.
pub open spec fn launchable(
    game_id: Seq<char>,
    launch_code: Seq<char>,
    process_name: Seq<char>,
    process_name_alt: Seq<char>,
    wait_secs: u64,
) -> GameLaunchInfoView {
    GameLaunchInfoView {
        game_id,
        launch_code,
        process_name,
        process_name_alt: Some(process_name_alt),
        wait_secs,
    }
}

/// How the title with the given short code is launched, if it can be.
pub open spec fn launch_info_for(code: Seq<char>) -> Option<GameLaunchInfoView> {
    if code == "wow"@ {
        Some(launchable("wow"@, "WoW"@, "Wow.exe"@, "Wow.exe"@, 5))
    } else if code == "prometheus"@ {
        Some(launchable("overwatch"@, "Pro"@, "Overwatch Application.exe"@, "Overwatch.exe"@, 3))
    } else if code == "fenris"@ {
        Some(launchable("diablo4"@, "OSI"@, "Diablo IV.exe"@, "Diablo.exe"@, 5))
    } else if code == "d3"@ {
        Some(launchable("d3"@, "D3"@, "Diablo III.exe"@, "Diablo III.exe"@, 3))
    } else if code == "hs"@ {
        Some(launchable("hearthstone"@, "WTCG"@, "Hearthstone.exe"@, "Hearthstone.exe"@, 3))
    } else {
        None
    }
}

/// How a game is launched: its id must carry the platform's prefix and a
/// launchable short code.
pub open spec fn launch_info_of(game_id: Seq<char>) -> Option<GameLaunchInfoView> {
    match stripped_prefix(game_id, "battlenet_"@) {
        Some(code) => launch_info_for(code),
        None => None,
    }
}

/// Where the client's binary lies: in the first standard place that
/// exists, else under the directory that the registry records.
pub open spec fn client_path_of(disk: DiskView, registry_path: Option<Seq<char>>) -> Result<
    Seq<char>,
    Seq<char>,
> {
    let a = "C:\\Program Files (x86)\\Battle.net\\Battle.net.exe"@;
    let b = "C:\\Program Files\\Battle.net\\Battle.net.exe"@;
    if disk.has_path(a) {
        Ok(a)
    } else if disk.has_path(b) {
        Ok(b)
    } else {
        match registry_path {
            None => Err("Failed to find Battle.net in registry"@),
            Some(p) => if disk.has_path(joined(p, "Battle.net.exe"@)) {
                Ok(joined(p, "Battle.net.exe"@))
            } else {
                Err("Battle.net launcher not found"@)
            },
        }
    }
}

/// Whether a title's process shows in a listing of the running
/// processes, under either of its names.
pub open spec fn has_appeared(info: GameLaunchInfoView, processes: Seq<char>) -> bool {
    contains_text(processes, info.process_name) || (info.process_name_alt is Some && contains_text(
        processes,
        info.process_name_alt->0,
    ))
}

/// Where the wait for a launched title stands.
#[derive(Debug, Clone, Copy, PartialEq, Eq, Structural)]
pub enum WaitOutcome {
    /// The title's process is there.
    Appeared,
    /// Look again after [`POLL_INTERVAL_SECS`].
    KeepWaiting,
    /// The title did not come up in time: the launch has failed.
    TimedOut,
}

/// Where the wait stands after `elapsed_secs`: once the timeout has
/// passed the wait is over, whatever the process list shows.
pub open spec fn wait_outcome(info: GameLaunchInfoView, processes: Seq<char>, elapsed_secs: u64) -> WaitOutcome {
    if elapsed_secs >= LAUNCH_TIMEOUT_SECS {
        WaitOutcome::TimedOut
    } else if has_appeared(info, processes) {
        WaitOutcome::Appeared
    } else {
        WaitOutcome::KeepWaiting
    }
}

/// Launches the client's titles.
#[derive(Debug)]
pub struct BattleNetGameLauncher {
    client_path: Option<String>,
}

impl BattleNetGameLauncher {
    /// Where the client's binary was found, if it was.
    pub closed spec fn client(&self) -> Option<Seq<char>> {
        self.client_path.deep_view()
    }

    /// A launcher for the client whose binary lies at `client_path`; see
    /// [`Self::get_battlenet_path`] for finding it.
    pub fn new(client_path: Option<String>) -> (l: BattleNetGameLauncher)
        ensures
            l.client() == client_path.deep_view(),
    {
        BattleNetGameLauncher { client_path }
    }

    /// How a game is launched: see [`launch_info_of`].
    pub fn get_launch_info(game_id: &str) -> (r: Option<GameLaunchInfo>)
        ensures
            match r {
                Some(i) => launch_info_of(game_id@) == Some(i@),
                None => launch_info_of(game_id@) is None,
            },
    {
        let code = match strip_prefix(game_id, "battlenet_") {
            Some(c) => c,
            None => {
                return None;
            },
        };
        if same_text(code.as_str(), "wow") {
            Some(
                GameLaunchInfo {
                    game_id: "wow",
                    launch_code: "WoW",
                    process_name: "Wow.exe",
                    process_name_alt: Some("Wow.exe"),
                    wait_secs: 5,
                },
            )
        } else if same_text(code.as_str(), "prometheus") {
            Some(
                GameLaunchInfo {
                    game_id: "overwatch",
                    launch_code: "Pro",
                    process_name: "Overwatch Application.exe",
                    process_name_alt: Some("Overwatch.exe"),
                    wait_secs: 3,
                },
            )
        } else if same_text(code.as_str(), "fenris") {
            Some(
                GameLaunchInfo {
                    game_id: "diablo4",
                    launch_code: "OSI",
                    process_name: "Diablo IV.exe",
                    process_name_alt: Some("Diablo.exe"),
                    wait_secs: 5,
                },
            )
        } else if same_text(code.as_str(), "d3") {
            Some(
                GameLaunchInfo {
                    game_id: "d3",
                    launch_code: "D3",
                    process_name: "Diablo III.exe",
                    process_name_alt: Some("Diablo III.exe"),
                    wait_secs: 3,
                },
            )
        } else if same_text(code.as_str(), "hs") {
            Some(
                GameLaunchInfo {
                    game_id: "hearthstone",
                    launch_code: "WTCG",
                    process_name: "Hearthstone.exe",
                    process_name_alt: Some("Hearthstone.exe"),
                    wait_secs: 3,
                },
            )
        } else {
            None
        }
    }

    /// The places where the client's binary is looked for before the
    /// registry is asked.
    pub fn standard_launcher_paths() -> (r: Vec<String>)
        ensures
            r.deep_view() == seq![
                "C:\\Program Files (x86)\\Battle.net\\Battle.net.exe"@,
                "C:\\Program Files\\Battle.net\\Battle.net.exe"@,
            ],
    {
        let mut r: Vec<String> = Vec::new();
        r.push(String::from_str("C:\\Program Files (x86)\\Battle.net\\Battle.net.exe"));
        r.push(String::from_str("C:\\Program Files\\Battle.net\\Battle.net.exe"));
        assert(r.deep_view() =~= seq![
            "C:\\Program Files (x86)\\Battle.net\\Battle.net.exe"@,
            "C:\\Program Files\\Battle.net\\Battle.net.exe"@,
        ]);
        r
    }

    /// Finds the client's binary: see [`client_path_of`].
    pub fn get_battlenet_path(disk: &DiskSnapshot, registry_path: Option<&str>) -> (r: Result<
        String,
        AppError,
    >)
        ensures
            match r {
                Ok(p) => client_path_of(
                    disk@,
                    match registry_path {
                        Some(x) => Some(x@),
                        None => None,
                    },
                ) == Ok::<Seq<char>, Seq<char>>(p@),
                Err(e) => client_path_of(
                    disk@,
                    match registry_path {
                        Some(x) => Some(x@),
                        None => None,
                    },
                ) == Err::<Seq<char>, Seq<char>>(e@),
            },
    {
        if disk.has_path("C:\\Program Files (x86)\\Battle.net\\Battle.net.exe") {
            return Ok(String::from_str("C:\\Program Files (x86)\\Battle.net\\Battle.net.exe"));
        }
        if disk.has_path("C:\\Program Files\\Battle.net\\Battle.net.exe") {
            return Ok(String::from_str("C:\\Program Files\\Battle.net\\Battle.net.exe"));
        }
        match registry_path {
            None => Err(AppError::new(String::from_str("Failed to find Battle.net in registry"))),
            Some(p) => {
                let launcher_path = join(p, "Battle.net.exe");
                if disk.has_path(launcher_path.as_str()) {
                    Ok(launcher_path)
                } else {
                    Err(AppError::new(String::from_str("Battle.net launcher not found")))
                }
            },
        }
    }

    /// Whether the client shows in a listing of the running processes.
    pub fn client_is_running(processes: &str) -> (r: bool)
        ensures
            r == contains_text(processes@, "Battle.net.exe"@),
    {
        contains(processes, "Battle.net.exe")
    }

    /// What has to run before a title can be launched: nothing where the
    /// client is running already, else the command that starts it, after
    /// which the client is given [`CLIENT_STARTUP_SECS`] seconds.
    pub fn ensure_battlenet_running(&self, processes: &str) -> (r: Result<Option<LaunchCommand>, AppError>)
        ensures
            match r {
                Ok(None) => contains_text(processes@, "Battle.net.exe"@),
                Ok(Some(c)) => !contains_text(processes@, "Battle.net.exe"@) && self.client() is Some
                    && c@ == command(self.client()->0, Seq::empty()),
                Err(e) => !contains_text(processes@, "Battle.net.exe"@) && self.client() is None
                    && e@ == "Battle.net launcher not found"@,
            },
    {
        if Self::client_is_running(processes) {
            return Ok(None);
        }
        match &self.client_path {
            Some(p) => Ok(Some(LaunchCommand::bare(p.clone()))),
            None => Err(AppError::new(String::from_str("Battle.net launcher not found"))),
        }
    }

    /// The command that asks the client to start a title.
    ///
    /// Fails with `Unsupported Battle.net game` exactly when the id is not
    /// launchable, and otherwise with `Battle.net launcher not found`
    /// exactly when the client's binary was not found.
    pub fn launch_command(&self, game_id: &str) -> (r: Result<LaunchCommand, AppError>)
        ensures
            match r {
                Ok(c) => launch_info_of(game_id@) is Some && self.client() is Some && c@ == command(
                    self.client()->0,
                    seq!["--exec"@, "launch "@ + launch_info_of(game_id@)->0.launch_code],
                ),
                Err(e) => if launch_info_of(game_id@) is None {
                    e@ == "Unsupported Battle.net game: "@ + game_id@
                } else {
                    self.client() is None && e@ == "Battle.net launcher not found"@
                },
            },
    {
        let launch_info = match Self::get_launch_info(game_id) {
            Some(i) => i,
            None => {
                return Err(AppError::new(concat2("Unsupported Battle.net game: ", game_id)));
            },
        };
        match &self.client_path {
            Some(p) => Ok(
                LaunchCommand::with2(
                    p.clone(),
                    String::from_str("--exec"),
                    concat2("launch ", launch_info.launch_code),
                ),
            ),
            None => Err(AppError::new(String::from_str("Battle.net launcher not found"))),
        }
    }

    /// Whether a title's process shows in a listing of the running
    /// processes: see [`has_appeared`].
    pub fn process_appeared(launch_info: &GameLaunchInfo, processes: &str) -> (r: bool)
        ensures
            r == has_appeared(launch_info@, processes@),
    {
        if contains(processes, launch_info.process_name) {
            return true;
        }
        match launch_info.process_name_alt {
            Some(alt) => contains(processes, alt),
            None => false,
        }
    }

    /// Where the wait for a launched title stands: see [`wait_outcome`].
    pub fn wait_for_game_process(launch_info: &GameLaunchInfo, processes: &str, elapsed_secs: u64) -> (r:
        WaitOutcome)
        ensures
            r == wait_outcome(launch_info@, processes@, elapsed_secs),
    {
        if elapsed_secs >= LAUNCH_TIMEOUT_SECS {
            WaitOutcome::TimedOut
        } else if Self::process_appeared(launch_info, processes) {
            WaitOutcome::Appeared
        } else {
            WaitOutcome::KeepWaiting
        }
    }

    /// The failure to report when a launched title did not come up in
    /// time.
    pub fn timeout_error(launch_info: &GameLaunchInfo) -> (e: AppError)
        ensures
            e@ == "Game process "@ + launch_info@.process_name + " did not start"@,
    {
        AppError::new(concat3("Game process ", launch_info.process_name, " did not start"))
    }

    /// Whether a game shows in a listing of the running processes. A game
    /// that is not launchable never does.
    pub fn game_is_listed(game_id: &str, processes: &str) -> (r: bool)
        ensures
            r == match launch_info_of(game_id@) {
                Some(i) => contains_text(processes@, i.process_name),
                None => false,
            },
    {
        match Self::get_launch_info(game_id) {
            Some(i) => contains(processes, i.process_name),
            None => false,
        }
    }
}

/// The social-gaming client as a platform.
pub struct BattleNetPlatform {
    pub scanner: BattleNetGameScanner,
    pub launcher: BattleNetGameLauncher,
}

impl BattleNetPlatform {
    /// The platform, for a client whose binary lies at `client_path`.
    pub fn new(client_path: Option<String>) -> (p: BattleNetPlatform)
        ensures
            p.scanner.known() == known_titles(),
            p.launcher.client() == client_path.deep_view(),
    {
        BattleNetPlatform {
            scanner: BattleNetGameScanner::new(),
            launcher: BattleNetGameLauncher::new(client_path),
        }
    }
}

impl GameScanner for BattleNetPlatform {
    /// Scans with the configuration that was read; without one nothing is
    /// found. Never fails.
    fn scan_games(&self, input: &ScanInput) -> (r: GameResult<Vec<Game>>)
        ensures
            r is Ok,
            r->Ok_0.deep_view() == match input.battlenet_config {
                Some(c) => scan_of(self.scanner.known(), c@, input.disk@),
                None => Seq::empty(),
            },
    {
        match &input.battlenet_config {
            Some(c) => Ok(self.scanner.scan_games(c, &input.disk)),
            None => {
                let none: Vec<Game> = Vec::new();
                assert(none.deep_view() =~= Seq::empty());
                Ok(none)
            },
        }
    }

    /// The client keeps track of its own install paths: there is nothing
    /// to list.
    fn get_library_paths(&self) -> (r: Vec<String>)
        ensures
            r.len() == 0,
    {
        Vec::new()
    }

    /// The client keeps track of its own install paths: there is nothing
    /// to add.
    fn add_library_path(&mut self, path: String, disk: &DiskSnapshot) -> (r: GameResult<()>)
        ensures
            r is Ok,
            final(self).scanner.known() == old(self).scanner.known(),
            final(self).launcher.client() == old(self).launcher.client(),
    {
        Ok(())
    }
}

impl GameLauncher for BattleNetPlatform {
    fn launch_game(&self, game_id: &str) -> (r: GameResult<LaunchCommand>)
        ensures
            match r {
                Ok(c) => launch_info_of(game_id@) is Some && self.launcher.client() is Some && c@
                    == command(
                    self.launcher.client()->0,
                    seq!["--exec"@, "launch "@ + launch_info_of(game_id@)->0.launch_code],
                ),
                Err(e) => if launch_info_of(game_id@) is None {
                    e@ == "Unsupported Battle.net game: "@ + game_id@
                } else {
                    self.launcher.client() is None && e@ == "Battle.net launcher not found"@
                },
            },
    {
        self.launcher.launch_command(game_id)
    }

    /// The client offers no way to stop a title.
    fn stop_game(&self, game_id: &str) -> (r: GameResult<Option<LaunchCommand>>)
        ensures
            r matches Ok(None),
    {
        Ok(None)
    }

    fn is_game_running(&self, game_id: &str, processes: &str) -> (r: GameResult<bool>)
        ensures
            r is Ok,
            r->Ok_0 == match launch_info_of(game_id@) {
                Some(i) => contains_text(processes@, i.process_name),
                None => false,
            },
    {
        Ok(BattleNetGameLauncher::game_is_listed(game_id, processes))
    }
}

impl MetadataProvider for BattleNetPlatform {
    /// The platform has no metadata of its own to add.
    fn update_metadata(&self, game: &mut Game) -> (r: GameResult<()>)
        ensures
            r is Ok,
            *final(game) == *old(game),
    {
        Ok(())
    }
}

impl GamePlatform for BattleNetPlatform {
    fn platform_name(&self) -> (r: &'static str)
        ensures
            r@ == "Battle.net"@,
    {
        "Battle.net"
    }

    fn supported_file_types(&self) -> (r: Vec<&'static str>)
        ensures
            r.len() == 0,
    {
        Vec::new()
    }

    fn initialize(&mut self) -> (r: GameResult<()>)
        ensures
            r is Ok,
            final(self).scanner.known() == old(self).scanner.known(),
            final(self).launcher.client() == old(self).launcher.client(),
    {
        Ok(())
    }
}

} // verus!

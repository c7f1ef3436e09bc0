//! What every platform offers: scanning for games, launching them, and
//! enriching their metadata.

use vstd::prelude::*;
use crate::models::{Game, GameResult};
use crate::platforms::battlenet::BnetConfig;
use crate::snapshot::DiskSnapshot;

verus! {

/// A program to run, with its arguments. Running it is the caller's
/// business.
#[derive(Debug, PartialEq, Eq)]
pub struct LaunchCommand {
    pub program: String,
    pub args: Vec<String>,
}

/// What contracts say of a [`LaunchCommand`]: the same value with its strings
/// as sequences of characters.
pub struct LaunchCommandView {
    pub program: Seq<char>,
    pub args: Seq<Seq<char>>,
}

impl View for LaunchCommand {
    type V = LaunchCommandView;

    open spec fn view(&self) -> LaunchCommandView {
        LaunchCommandView { program: self.program@, args: self.args.deep_view() }
    }
}

impl DeepView for LaunchCommand {
    type V = LaunchCommandView;

    open spec fn deep_view(&self) -> LaunchCommandView {
        self@
    }
}

/// The command that runs `program` with the given arguments.
pub open spec fn command(program: Seq<char>, args: Seq<Seq<char>>) -> LaunchCommandView {
    LaunchCommandView { program, args }
}

impl LaunchCommand {
    /// A command without arguments.
    pub fn bare(program: String) -> (c: LaunchCommand)
        ensures
            c@ == command(program@, Seq::empty()),
    {
        let c = LaunchCommand { program, args: Vec::new() };
        assert(c.args.deep_view() =~= Seq::empty());
        c
    }

    /// A command with two arguments.
    pub fn with2(program: String, a: String, b: String) -> (c: LaunchCommand)
        ensures
            c@ == command(program@, seq![a@, b@]),
    {
        let mut args: Vec<String> = Vec::new();
        args.push(a);
        args.push(b);
        assert(args.deep_view() =~= seq![a@, b@]);
        LaunchCommand { program, args }
    }

    /// A command with four arguments.
    pub fn with4(program: String, a: String, b: String, c: String, d: String) -> (r: LaunchCommand)
        ensures
            r@ == command(program@, seq![a@, b@, c@, d@]),
    {
        let mut args: Vec<String> = Vec::new();
        args.push(a);
        args.push(b);
        args.push(c);
        args.push(d);
        assert(args.deep_view() =~= seq![a@, b@, c@, d@]);
        LaunchCommand { program, args }
    }
}

/// Everything a scan reads: the disk, and the client configuration where
/// one was found and parsed.
pub struct ScanInput {
    pub disk: DiskSnapshot,
    pub battlenet_config: Option<BnetConfig>,
    pub epic_manifests: Vec<crate::platforms::epic::EpicManifest>,
}

/// Discovers installed games.
pub trait GameScanner {
    /// The games found in what was read.
    fn scan_games(&self, input: &ScanInput) -> GameResult<Vec<Game>>;

    /// The directories that are searched for games.
    fn get_library_paths(&self) -> Vec<String>;

    /// Adds a directory to search.
    fn add_library_path(&mut self, path: String, disk: &DiskSnapshot) -> GameResult<()>;
}

/// Starts and stops games.
pub trait GameLauncher {
    /// The command that starts a game.
    fn launch_game(&self, game_id: &str) -> GameResult<LaunchCommand>;

    /// The command that stops a game, if the platform has one.
    fn stop_game(&self, game_id: &str) -> GameResult<Option<LaunchCommand>>;

    /// Whether a game shows in a listing of the running processes.
    fn is_game_running(&self, game_id: &str, processes: &str) -> GameResult<bool>;
}

/// Enriches a game's metadata.
pub trait MetadataProvider {
    /// Updates the metadata of a game in place.
    fn update_metadata(&self, game: &mut Game) -> GameResult<()>;
}

/// A platform: a scanner, a launcher and a metadata provider under one
/// name.
pub trait GamePlatform: GameScanner + GameLauncher + MetadataProvider {
    /// The platform's display name.
    fn platform_name(&self) -> &'static str;

    /// The extensions of the manifest files the platform's scanner reads.
    fn supported_file_types(&self) -> Vec<&'static str>;

    /// Prepares the platform for use.
    fn initialize(&mut self) -> GameResult<()>;
}

} // verus!

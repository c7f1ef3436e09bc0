//! User-added executables: they are started directly, and nothing scans
//! for them.

use vstd::prelude::*;
use crate::error::AppError;
use crate::models::{Game, GameResult};
use crate::platforms::traits::{command, GameLauncher, LaunchCommand, LaunchCommandView};
use crate::snapshot::{first_with_key, lookup};

verus! {

/// Launches user-added games: each by the executable registered for it.
pub struct CustomGameLauncher {
    executables: Vec<(String, Option<String>)>,
}

/// The command that starts a user-added game, given the executable that
/// is stored for it.
pub open spec fn direct_command(executable: Option<Seq<char>>) -> Result<LaunchCommandView, Seq<char>> {
    match executable {
        Some(exe) => Ok(command(exe, Seq::empty())),
        None => Err("No executable path found for custom game"@),
    }
}

impl CustomGameLauncher {
    /// The executables registered so far, by game id.
    pub closed spec fn registered(&self) -> Seq<(Seq<char>, Option<Seq<char>>)> {
        self.executables.deep_view()
    }

    /// A launcher that knows no game yet.
    pub fn new() -> (l: CustomGameLauncher)
        ensures
            l.registered() == Seq::<(Seq<char>, Option<Seq<char>>)>::empty(),
    {
        let l = CustomGameLauncher { executables: Vec::new() };
        assert(l.executables.deep_view() =~= Seq::empty());
        l
    }

    /// Registers the executable of a game. Where a game is registered
    /// more than once, its first registration counts.
    pub fn register(&mut self, game: &Game)
        ensures
            final(self).registered() == old(self).registered().push(
                (game@.id, game@.installation.executable),
            ),
    {
        let ghost before = self.executables.deep_view();
        let entry = (game.id.clone(), crate::models::clone_opt_string(&game.installation.executable));
        self.executables.push(entry);
        assert(self.executables.deep_view() =~= before.push(
            (game@.id, game@.installation.executable),
        ));
    }

    /// The command that starts a game directly. Fails exactly when no
    /// executable is stored for it.
    pub fn launch_executable(executable: &Option<String>) -> (r: Result<LaunchCommand, AppError>)
        ensures
            match r {
                Ok(c) => direct_command(executable.deep_view()) == Ok::<
                    LaunchCommandView,
                    Seq<char>,
                >(c@),
                Err(e) => direct_command(executable.deep_view()) == Err::<
                    LaunchCommandView,
                    Seq<char>,
                >(e@),
            },
    {
        match executable {
            Some(exe) => Ok(LaunchCommand::bare(exe.clone())),
            None => Err(AppError::new(String::from_str("No executable path found for custom game"))),
        }
    }
}

/// The executable registered for a game, if the game is registered with
/// one.
pub open spec fn registered_executable(registered: Seq<(Seq<char>, Option<Seq<char>>)>, game_id: Seq<char>) -> Option<
    Seq<char>,
> {
    match first_with_key(registered, game_id) {
        Some(e) => e,
        None => None,
    }
}

impl GameLauncher for CustomGameLauncher {
    /// The command that starts a registered game. Fails exactly when the
    /// game is not registered or has no executable.
    fn launch_game(&self, game_id: &str) -> (r: GameResult<LaunchCommand>)
        ensures
            match r {
                Ok(c) => direct_command(registered_executable(self.registered(), game_id@)) == Ok::<
                    LaunchCommandView,
                    Seq<char>,
                >(c@),
                Err(e) => direct_command(registered_executable(self.registered(), game_id@)) == Err::<
                    LaunchCommandView,
                    Seq<char>,
                >(e@),
            },
    {
        match lookup(&self.executables, game_id) {
            Some(e) => Self::launch_executable(e),
            None => Err(AppError::new(String::from_str("No executable path found for custom game"))),
        }
    }

    /// A user-added game is not stopped by the library.
    fn stop_game(&self, game_id: &str) -> (r: GameResult<Option<LaunchCommand>>)
        ensures
            r matches Ok(None),
    {
        Ok(None)
    }

    /// The launcher cannot tell whether a game runs: it never says so.
    fn is_game_running(&self, game_id: &str, processes: &str) -> (r: GameResult<bool>)
        ensures
            r == Ok::<bool, AppError>(false),
    {
        Ok(false)
    }
}

/// User-added games as a platform.
pub struct CustomPlatform {
    pub launcher: CustomGameLauncher,
}

impl CustomPlatform {
    /// The platform, knowing no game yet.
    pub fn new() -> (p: CustomPlatform)
        ensures
            p.launcher.registered() == Seq::<(Seq<char>, Option<Seq<char>>)>::empty(),
    {
        CustomPlatform { launcher: CustomGameLauncher::new() }
    }

    /// The platform's display name.
    pub fn platform_name(&self) -> (r: &'static str)
        ensures
            r@ == "Custom"@,
    {
        "Custom"
    }

    /// The extensions of the files a user may add.
    pub fn supported_file_types(&self) -> (r: Vec<&'static str>)
        ensures
            r.len() == 1,
            r[0]@ == "exe"@,
    {
        let mut r: Vec<&'static str> = Vec::new();
        r.push("exe");
        r
    }
}

impl GameLauncher for CustomPlatform {
    fn launch_game(&self, game_id: &str) -> (r: GameResult<LaunchCommand>)
        ensures
            match r {
                Ok(c) => direct_command(registered_executable(self.launcher.registered(), game_id@))
                    == Ok::<LaunchCommandView, Seq<char>>(c@),
                Err(e) => direct_command(registered_executable(self.launcher.registered(), game_id@))
                    == Err::<LaunchCommandView, Seq<char>>(e@),
            },
    {
        self.launcher.launch_game(game_id)
    }

    /// A user-added game is not stopped by the library.
    fn stop_game(&self, game_id: &str) -> (r: GameResult<Option<LaunchCommand>>)
        ensures
            r matches Ok(None),
    {
        Ok(None)
    }

    /// The platform cannot tell whether a game runs: it never says so.
    fn is_game_running(&self, game_id: &str, processes: &str) -> (r: GameResult<bool>)
        ensures
            r == Ok::<bool, AppError>(false),
    {
        Ok(false)
    }
}

} // verus!

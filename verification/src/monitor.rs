//! Session tracking: matching a launched game to a live window, keeping
//! the set of active sessions, and closing sessions whose process has
//! exited.
//!
//! The monitor holds no handle to the operating system. The caller
//! enumerates windows, queries exit codes and reads the clock; the monitor
//! decides what they mean.

use vstd::prelude::*;
use crate::models::{Game, GameView, Platform};
use crate::paths::{extension_of, file_name, file_name_of, has_extension};
use crate::snapshot::{lookup, DiskSnapshot, DiskView};
use crate::text::{
    before_first, concat2, contains, contains_text, lowercase_of, replace, replaced, same_text,
    split_first, to_lowercase, trim, trimmed,
};

verus! {

/// The exit code that the operating system reports for a process that has
/// not exited.
pub const STILL_ACTIVE: u32 = 259;

/// The pause between two rounds of the monitoring loop, in seconds.
pub const POLL_INTERVAL_SECS: u64 = 1;

/// A running process and its main window.
#[derive(Debug, PartialEq, Eq)]
pub struct ProcessInfo {
    pub process_name: String,
    pub process_id: u32,
    pub window_handle: isize,
}

/// A game believed to be running.
#[derive(Debug, PartialEq, Eq)]
pub struct GameSession {
    pub game_id: String,
    /// When the session was first seen, in seconds since the epoch.
    pub start_time: u64,
    pub process_id: u32,
    pub window_handle: isize,
}

/// What contracts say of a [`GameSession`]: the same value with its strings
/// as sequences of characters.
pub struct SessionView {
    pub game_id: Seq<char>,
    pub start_time: u64,
    pub process_id: u32,
    pub window_handle: isize,
}

impl View for GameSession {
    type V = SessionView;

    open spec fn view(&self) -> SessionView {
        SessionView {
            game_id: self.game_id@,
            start_time: self.start_time,
            process_id: self.process_id,
            window_handle: self.window_handle,
        }
    }
}

impl DeepView for GameSession {
    type V = SessionView;

    open spec fn deep_view(&self) -> SessionView {
        self@
    }
}

impl Clone for GameSession {
    fn clone(&self) -> (s: GameSession)
        ensures
            s@ == self@,
    {
        GameSession {
            game_id: self.game_id.clone(),
            start_time: self.start_time,
            process_id: self.process_id,
            window_handle: self.window_handle,
        }
    }
}

/// What the caller saw of one top-level window.
#[derive(Debug, PartialEq, Eq)]
pub struct WindowInfo {
    pub handle: isize,
    /// The process that owns the window.
    pub process_id: u32,
    /// The base name of that process's module, where it could be read.
    pub module_name: Option<String>,
    pub visible: bool,
    /// Whether the window has an owner window.
    pub owned: bool,
    /// The length of the window's title.
    pub title_length: i32,
}

/// What contracts say of a [`WindowInfo`]: the same value with its strings
/// as sequences of characters.
pub struct WindowView {
    pub handle: isize,
    pub process_id: u32,
    pub module_name: Option<Seq<char>>,
    pub visible: bool,
    pub owned: bool,
    pub title_length: i32,
}

impl View for WindowInfo {
    type V = WindowView;

    open spec fn view(&self) -> WindowView {
        WindowView {
            handle: self.handle,
            process_id: self.process_id,
            module_name: self.module_name.deep_view(),
            visible: self.visible,
            owned: self.owned,
            title_length: self.title_length,
        }
    }
}

impl DeepView for WindowInfo {
    type V = WindowView;

    open spec fn deep_view(&self) -> WindowView {
        self@
    }
}

/// A session that the monitor has closed.
#[derive(Debug, PartialEq, Eq)]
pub struct EndedSession {
    pub game_id: String,
    pub start_time: u64,
    /// How long the session lasted, in seconds; `None` where the clock
    /// reads earlier than the session's start.
    pub duration_secs: Option<u64>,
}

/// What contracts say of a [`EndedSession`]: the same value with its strings
/// as sequences of characters.
pub struct EndedView {
    pub game_id: Seq<char>,
    pub start_time: u64,
    pub duration_secs: Option<u64>,
}

impl View for EndedSession {
    type V = EndedView;

    open spec fn view(&self) -> EndedView {
        EndedView {
            game_id: self.game_id@,
            start_time: self.start_time,
            duration_secs: self.duration_secs,
        }
    }
}

impl DeepView for EndedSession {
    type V = EndedView;

    open spec fn deep_view(&self) -> EndedView {
        self@
    }
}

/// The outcome of an attempt to match a game to a window.
#[derive(Debug, PartialEq, Eq)]
pub struct Tracking {
    /// The session that was opened, if a window matched.
    pub session: Option<GameSession>,
    /// Whether the monitoring loop has to be started: a session was opened
    /// and none was active before.
    pub start_monitoring: bool,
}

/// The outcome of one round of the monitoring loop.
#[derive(Debug, PartialEq, Eq)]
pub struct Polling {
    /// The sessions that were closed in this round, oldest first.
    pub ended: Vec<EndedSession>,
    /// Whether the loop goes on: some session is still active.
    pub keep_polling: bool,
}

/// A command line without its arguments: what precedes the first `--`,
/// cut at the first double quote, and trimmed.
pub open spec fn sanitized(executable: Seq<char>) -> Seq<char> {
    trimmed(before_first(before_first(executable, "--"@), "\""@))
}

/// The process name that a game's title suggests: the title in lowercase
/// without its spaces, with `.exe` appended.
pub open spec fn name_from_title(title: Seq<char>) -> Seq<char> {
    lowercase_of(replaced(title, " "@, ""@)) + ".exe"@
}

/// The process name that a game's launch command suggests: the lowercase
/// file name of the command without its arguments.
pub open spec fn name_from_executable(executable: Option<Seq<char>>) -> Option<Seq<char>> {
    match executable {
        Some(exe) => match file_name_of(sanitized(exe)) {
            Some(n) => Some(lowercase_of(n)),
            None => None,
        },
        None => None,
    }
}

/// The process name under which a title of the social-gaming client is
/// known to run.
pub open spec fn name_from_table(id: Seq<char>) -> Option<Seq<char>> {
    if id == "battlenet_overwatch"@ {
        Some("overwatch.exe"@)
    } else if id == "battlenet_wow"@ {
        Some("wow.exe"@)
    } else if id == "battlenet_d4"@ {
        Some("diablo iv.exe"@)
    } else {
        None
    }
}

/// Whether a lowercase file name belongs to an uninstaller, a crash
/// handler or an engine's support binary.
pub open spec fn is_support_binary(lower_name: Seq<char>) -> bool {
    contains_text(lower_name, "unins"@) || contains_text(lower_name, "crash"@) || contains_text(
        lower_name,
        "unity"@,
    ) || contains_text(lower_name, "ue4"@)
}

/// The process name that a file of the install directory suggests: its
/// lowercase name, if it is an `exe` and no support binary.
pub open spec fn name_from_file(path: Seq<char>) -> Option<Seq<char>> {
    if extension_of(path) == Some("exe"@) {
        match file_name_of(path) {
            Some(n) => if is_support_binary(lowercase_of(n)) {
                None
            } else {
                Some(lowercase_of(n))
            },
            None => None,
        }
    } else {
        None
    }
}

/// The process names that a run of files suggests, in order.
pub open spec fn names_from_files(files: Seq<Seq<char>>) -> Seq<Seq<char>>
    decreases files.len(),
{
    if files.len() == 0 {
        Seq::empty()
    } else {
        let rest = names_from_files(files.drop_last());
        match name_from_file(files.last()) {
            Some(n) => rest.push(n),
            None => rest,
        }
    }
}

/// A sequence holding an optional item.
pub open spec fn optional(item: Option<Seq<char>>) -> Seq<Seq<char>> {
    match item {
        Some(n) => seq![n],
        None => Seq::empty(),
    }
}

/// The process names under which a game may be running, in the order in
/// which they are tried: from the title, from the launch command, from
/// the table of known names for the social-gaming client, and, for the
/// content-delivery client, from the executables of the install directory.
pub open spec fn candidate_names(game: GameView, disk: DiskView) -> Seq<Seq<char>> {
    seq![name_from_title(game.title)] + optional(name_from_executable(game.installation.executable))
        + (if game.platform == Platform::BattleNet {
        optional(name_from_table(game.id))
    } else {
        Seq::empty()
    }) + (if game.platform == Platform::Steam {
        names_from_files(disk.files_in(game.installation.install_path))
    } else {
        Seq::empty()
    })
}

/// Whether a window is the main window of a process called `name`: the
/// window is visible, has no owner and a title, and the lowercase name of
/// its process's module contains `name`.
pub open spec fn window_matches(w: WindowView, name: Seq<char>) -> bool {
    w.module_name is Some && w.visible && !w.owned && w.title_length > 0 && contains_text(
        lowercase_of(w.module_name->0),
        name,
    )
}

/// The first window that matches a process name.
pub open spec fn first_match(windows: Seq<WindowView>, name: Seq<char>) -> Option<WindowView>
    decreases windows.len(),
{
    if windows.len() == 0 {
        None
    } else if window_matches(windows[0], name) {
        Some(windows[0])
    } else {
        first_match(windows.drop_first(), name)
    }
}

/// The window matched by the first process name that matches any.
pub open spec fn correlated(windows: Seq<WindowView>, names: Seq<Seq<char>>) -> Option<WindowView>
    decreases names.len(),
{
    if names.len() == 0 {
        None
    } else {
        match first_match(windows, names[0]) {
            Some(w) => Some(w),
            None => correlated(windows, names.drop_first()),
        }
    }
}

/// A match is a window of the enumeration that matches one of the names;
/// no match means that no window matches any name.
pub proof fn lemma_correlated(windows: Seq<WindowView>, names: Seq<Seq<char>>)
    ensures
        match correlated(windows, names) {
            Some(w) => exists|i: int, k: int|
                0 <= i < windows.len() && 0 <= k < names.len() && windows[i] == w
                    && window_matches(w, names[k]),
            None => forall|i: int, k: int|
                0 <= i < windows.len() && 0 <= k < names.len() ==> !window_matches(
                    windows[i],
                    names[k],
                ),
        },
    decreases names.len(),
{
    if names.len() > 0 {
        lemma_first_match(windows, names[0]);
        lemma_correlated(windows, names.drop_first());
        match first_match(windows, names[0]) {
            Some(w) => {
                let i = choose|i: int| 0 <= i < windows.len() && windows[i] == w;
                assert(0 <= i < windows.len() && 0 <= 0 < names.len() && windows[i] == w
                    && window_matches(w, names[0]));
            },
            None => {
                match correlated(windows, names.drop_first()) {
                    Some(w) => {
                        let (i, k) = choose|i: int, k: int|
                            0 <= i < windows.len() && 0 <= k < names.drop_first().len()
                                && windows[i] == w && window_matches(w, names.drop_first()[k]);
                        assert(names.drop_first()[k] == names[k + 1]);
                        assert(0 <= i < windows.len() && 0 <= k + 1 < names.len() && windows[i]
                            == w && window_matches(w, names[k + 1]));
                    },
                    None => {
                        assert forall|i: int, k: int|
                            0 <= i < windows.len() && 0 <= k < names.len() implies !window_matches(
                            windows[i],
                            names[k],
                        ) by {
                            if k > 0 {
                                assert(names.drop_first()[k - 1] == names[k]);
                            }
                        }
                    },
                }
            },
        }
    }
}

/// The first match is a matching window of the enumeration; there is none
/// exactly when no window matches.
pub proof fn lemma_first_match(windows: Seq<WindowView>, name: Seq<char>)
    ensures
        match first_match(windows, name) {
            Some(w) => window_matches(w, name) && exists|i: int|
                0 <= i < windows.len() && windows[i] == w,
            None => forall|i: int| 0 <= i < windows.len() ==> !window_matches(windows[i], name),
        },
    decreases windows.len(),
{
    if windows.len() > 0 {
        if window_matches(windows[0], name) {
            assert(0 <= 0 < windows.len() && windows[0] == windows[0]);
        } else {
            lemma_first_match(windows.drop_first(), name);
            match first_match(windows.drop_first(), name) {
                Some(w) => {
                    let i = choose|i: int|
                        0 <= i < windows.drop_first().len() && windows.drop_first()[i] == w;
                    assert(windows[i + 1] == w);
                },
                None => {
                    assert forall|i: int| 0 <= i < windows.len() implies !window_matches(
                        windows[i],
                        name,
                    ) by {
                        if i > 0 {
                            assert(windows.drop_first()[i - 1] == windows[i]);
                        }
                    }
                },
            }
        }
    }
}

/// The exit code reported for a process; `None` where the query failed or
/// the process was not queried.
pub open spec fn exit_code_of(statuses: Seq<(u32, Option<u32>)>, process_id: u32) -> Option<u32>
    decreases statuses.len(),
{
    if statuses.len() == 0 {
        None
    } else if statuses[0].0 == process_id {
        statuses[0].1
    } else {
        exit_code_of(statuses.drop_first(), process_id)
    }
}

/// A process counts as running only if the query for its exit code
/// succeeded and reported that it is still active.
pub open spec fn is_running(statuses: Seq<(u32, Option<u32>)>, process_id: u32) -> bool {
    exit_code_of(statuses, process_id) == Some(STILL_ACTIVE)
}

/// Whether a process counts as running, given what the caller's queries
/// reported.
pub fn process_is_running(statuses: &Vec<(u32, Option<u32>)>, process_id: u32) -> (r: bool)
    ensures
        r == is_running(statuses@, process_id),
{
    let mut i: usize = 0;
    assert(statuses@.skip(0) =~= statuses@);
    while i < statuses.len()
        invariant
            i <= statuses.len(),
            exit_code_of(statuses@, process_id) == exit_code_of(statuses@.skip(i as int), process_id),
        decreases statuses.len() - i,
    {
        let ghost rest = statuses@.skip(i as int);
        assert(rest[0] == statuses@[i as int]);
        assert(rest.drop_first() =~= statuses@.skip(i + 1));
        if statuses[i].0 == process_id {
            return match statuses[i].1 {
                Some(code) => code == STILL_ACTIVE,
                None => false,
            };
        }
        i += 1;
    }
    false
}

/// No two sessions belong to the same game.
pub open spec fn distinct_ids(sessions: Seq<SessionView>) -> bool {
    forall|i: int, j: int|
        0 <= i < j < sessions.len() ==> (#[trigger] sessions[i]).game_id != (
        #[trigger] sessions[j]).game_id
}

/// The position of a game's session.
pub open spec fn index_of_game(sessions: Seq<SessionView>, game_id: Seq<char>) -> Option<int>
    decreases sessions.len(),
{
    if sessions.len() == 0 {
        None
    } else {
        match index_of_game(sessions.drop_last(), game_id) {
            Some(i) => Some(i),
            None => if sessions.last().game_id == game_id {
                Some(sessions.len() - 1)
            } else {
                None
            },
        }
    }
}

/// `index_of_game` finds a session of the game, and finds nothing exactly
/// when the game has no session.
pub proof fn lemma_index_of_game(sessions: Seq<SessionView>, game_id: Seq<char>)
    ensures
        match index_of_game(sessions, game_id) {
            Some(i) => 0 <= i < sessions.len() && sessions[i].game_id == game_id,
            None => forall|j: int| 0 <= j < sessions.len() ==> sessions[j].game_id != game_id,
        },
    decreases sessions.len(),
{
    if sessions.len() > 0 {
        lemma_index_of_game(sessions.drop_last(), game_id);
        match index_of_game(sessions.drop_last(), game_id) {
            Some(i) => {
                assert(sessions.drop_last()[i] == sessions[i]);
            },
            None => {
                assert forall|j: int| 0 <= j < sessions.len() - 1 implies sessions[j].game_id
                    != game_id by {
                    assert(sessions.drop_last()[j] == sessions[j]);
                }
            },
        }
    }
}

/// The sessions after one is opened: it replaces the game's earlier
/// session if there is one, and is added otherwise.
pub open spec fn with_session(sessions: Seq<SessionView>, s: SessionView) -> Seq<SessionView> {
    match index_of_game(sessions, s.game_id) {
        Some(i) => sessions.update(i, s),
        None => sessions.push(s),
    }
}

/// Opening a session keeps the games of the sessions distinct.
pub proof fn lemma_with_session_distinct(sessions: Seq<SessionView>, s: SessionView)
    requires
        distinct_ids(sessions),
    ensures
        distinct_ids(with_session(sessions, s)),
        index_of_game(with_session(sessions, s), s.game_id) is Some,
        with_session(sessions, s)[index_of_game(with_session(sessions, s), s.game_id)->0] == s,
{
    lemma_index_of_game(sessions, s.game_id);
    let after = with_session(sessions, s);
    lemma_index_of_game(after, s.game_id);
    match index_of_game(sessions, s.game_id) {
        Some(i) => {
            assert(after[i] == s);
            assert forall|a: int, b: int| 0 <= a < b < after.len() implies (#[trigger] after[a]).game_id
                != (#[trigger] after[b]).game_id by {
                assert(sessions[a].game_id != sessions[b].game_id);
            }
        },
        None => {
            assert(after[sessions.len() as int] == s);
            assert forall|a: int, b: int| 0 <= a < b < after.len() implies (#[trigger] after[a]).game_id
                != (#[trigger] after[b]).game_id by {
                if b < sessions.len() {
                    assert(sessions[a].game_id != sessions[b].game_id);
                }
            }
        },
    }
    let k = index_of_game(after, s.game_id)->0;
    if after[k] != s {
        let m = match index_of_game(sessions, s.game_id) {
            Some(i) => i,
            None => sessions.len() as int,
        };
        assert(after[m] == s);
        if k < m {
            assert(after[k].game_id != after[m].game_id);
        } else {
            assert(after[m].game_id != after[k].game_id);
        }
    }
}

/// The first session whose process is running.
pub open spec fn active_of(sessions: Seq<SessionView>, statuses: Seq<(u32, Option<u32>)>) -> Option<
    SessionView,
>
    decreases sessions.len(),
{
    if sessions.len() == 0 {
        None
    } else if is_running(statuses, sessions[0].process_id) {
        Some(sessions[0])
    } else {
        active_of(sessions.drop_first(), statuses)
    }
}

/// The sessions whose process is running, in order.
pub open spec fn still_running(sessions: Seq<SessionView>, statuses: Seq<(u32, Option<u32>)>) -> Seq<
    SessionView,
>
    decreases sessions.len(),
{
    if sessions.len() == 0 {
        Seq::empty()
    } else {
        let rest = still_running(sessions.drop_last(), statuses);
        if is_running(statuses, sessions.last().process_id) {
            rest.push(sessions.last())
        } else {
            rest
        }
    }
}

/// The time between a session's start and now, in seconds; `None` where
/// the clock reads earlier than the start.
pub open spec fn duration_of(start_time: u64, now: u64) -> Option<u64> {
    if now >= start_time {
        Some((now - start_time) as u64)
    } else {
        None
    }
}

/// The closing record of a session.
pub open spec fn ended(s: SessionView, now: u64) -> EndedView {
    EndedView {
        game_id: s.game_id,
        start_time: s.start_time,
        duration_secs: duration_of(s.start_time, now),
    }
}

/// The closing records of the sessions whose process is not running, in
/// order.
pub open spec fn ended_of(sessions: Seq<SessionView>, statuses: Seq<(u32, Option<u32>)>, now: u64) -> Seq<
    EndedView,
>
    decreases sessions.len(),
{
    if sessions.len() == 0 {
        Seq::empty()
    } else {
        let rest = ended_of(sessions.drop_last(), statuses, now);
        if is_running(statuses, sessions.last().process_id) {
            rest
        } else {
            rest.push(ended(sessions.last(), now))
        }
    }
}

/// What one round of monitoring does to each session: a session whose
/// process runs stays, in place among those that stay; any other is closed
/// with the time elapsed since its start, and no session is closed that
/// was not there.
pub proof fn lemma_polling(sessions: Seq<SessionView>, statuses: Seq<(u32, Option<u32>)>, now: u64)
    requires
        distinct_ids(sessions),
    ensures
        distinct_ids(still_running(sessions, statuses)),
        forall|i: int|
            0 <= i < sessions.len() ==> if is_running(statuses, (#[trigger] sessions[i]).process_id) {
                still_running(sessions, statuses).contains(sessions[i])
            } else {
                ended_of(sessions, statuses, now).contains(ended(sessions[i], now))
                    && index_of_game(still_running(sessions, statuses), sessions[i].game_id) is None
            },
        forall|k: int|
            0 <= k < still_running(sessions, statuses).len() ==> sessions.contains(
                #[trigger] still_running(sessions, statuses)[k],
            ) && is_running(statuses, still_running(sessions, statuses)[k].process_id),
        forall|k: int|
            0 <= k < ended_of(sessions, statuses, now).len() ==> exists|i: int|
                0 <= i < sessions.len() && !is_running(statuses, sessions[i].process_id)
                    && #[trigger] ended_of(sessions, statuses, now)[k] == ended(sessions[i], now),
    decreases sessions.len(),
{
    if sessions.len() > 0 {
        let init = sessions.drop_last();
        let last = sessions.last();
        assert forall|i: int, j: int| 0 <= i < j < init.len() implies (#[trigger] init[i]).game_id != (
        #[trigger] init[j]).game_id by {
            assert(sessions[i].game_id != sessions[j].game_id);
        }
        lemma_polling(init, statuses, now);
        let kept0 = still_running(init, statuses);
        let kept = still_running(sessions, statuses);
        let gone0 = ended_of(init, statuses, now);
        let gone = ended_of(sessions, statuses, now);
        // members of what stays come from the sessions
        assert forall|k: int| 0 <= k < kept.len() implies sessions.contains(#[trigger] kept[k])
            && is_running(statuses, kept[k].process_id) by {
            if k < kept0.len() {
                assert(kept[k] == kept0[k]);
                let i = choose|i: int| 0 <= i < init.len() && init[i] == kept0[k];
                assert(sessions[i] == kept[k]);
            } else {
                assert(kept[k] == last);
                assert(sessions[sessions.len() - 1] == last);
            }
        }
        assert forall|a: int, b: int| 0 <= a < b < kept.len() implies (#[trigger] kept[a]).game_id != (
        #[trigger] kept[b]).game_id by {
            if b < kept0.len() {
                assert(kept0[a].game_id != kept0[b].game_id);
            } else {
                assert(kept[a] == kept0[a]);
                let i = choose|i: int| 0 <= i < init.len() && init[i] == kept0[a];
                assert(sessions[i].game_id != sessions[sessions.len() - 1].game_id);
            }
        }
        assert forall|k: int| 0 <= k < gone.len() implies exists|i: int|
            0 <= i < sessions.len() && !is_running(statuses, sessions[i].process_id)
                && #[trigger] gone[k] == ended(sessions[i], now) by {
            if k < gone0.len() {
                assert(gone[k] == gone0[k]);
                let i = choose|i: int|
                    0 <= i < init.len() && !is_running(statuses, init[i].process_id) && gone0[k]
                        == ended(init[i], now);
                assert(sessions[i] == init[i]);
            } else {
                assert(gone[k] == ended(last, now));
                assert(sessions[sessions.len() - 1] == last);
            }
        }
        assert forall|i: int| 0 <= i < sessions.len() implies if is_running(
            statuses,
            (#[trigger] sessions[i]).process_id,
        ) {
            kept.contains(sessions[i])
        } else {
            gone.contains(ended(sessions[i], now)) && index_of_game(kept, sessions[i].game_id) is None
        } by {
            lemma_index_of_game(kept, sessions[i].game_id);
            if i < init.len() {
                assert(init[i] == sessions[i]);
                if is_running(statuses, sessions[i].process_id) {
                    let k = choose|k: int| 0 <= k < kept0.len() && kept0[k] == init[i];
                    assert(kept[k] == sessions[i]);
                } else {
                    let k = choose|k: int| 0 <= k < gone0.len() && gone0[k] == ended(init[i], now);
                    assert(gone[k] == ended(sessions[i], now));
                    lemma_index_of_game(kept0, sessions[i].game_id);
                    if index_of_game(kept, sessions[i].game_id) is Some {
                        let m = index_of_game(kept, sessions[i].game_id)->0;
                        if m < kept0.len() {
                            assert(kept0[m] == kept[m]);
                        } else {
                            assert(kept[m] == last);
                            assert(sessions[i].game_id != sessions[sessions.len() - 1].game_id);
                        }
                    }
                }
            } else {
                assert(sessions[i] == last);
                if is_running(statuses, last.process_id) {
                    assert(kept[kept.len() - 1] == last);
                } else {
                    assert(gone[gone.len() - 1] == ended(last, now));
                    if index_of_game(kept, last.game_id) is Some {
                        let m = index_of_game(kept, last.game_id)->0;
                        assert(kept0[m] == kept[m]);
                        let j = choose|j: int| 0 <= j < init.len() && init[j] == kept0[m];
                        assert(sessions[j].game_id != sessions[sessions.len() - 1].game_id);
                    }
                }
            }
        }
    }
}

/// The first active session is a session whose process runs; there is none
/// exactly when no session's process runs.
pub proof fn lemma_active_of(sessions: Seq<SessionView>, statuses: Seq<(u32, Option<u32>)>)
    ensures
        match active_of(sessions, statuses) {
            Some(s) => sessions.contains(s) && is_running(statuses, s.process_id),
            None => forall|i: int|
                0 <= i < sessions.len() ==> !is_running(statuses, sessions[i].process_id),
        },
        sessions.len() > 0 && is_running(statuses, sessions[0].process_id) ==> active_of(
            sessions,
            statuses,
        ) == Some(sessions[0]),
    decreases sessions.len(),
{
    if sessions.len() > 0 {
        if is_running(statuses, sessions[0].process_id) {
            assert(sessions[0] == sessions[0]);
        } else {
            lemma_active_of(sessions.drop_first(), statuses);
            match active_of(sessions.drop_first(), statuses) {
                Some(s) => {
                    let i = choose|i: int|
                        0 <= i < sessions.drop_first().len() && sessions.drop_first()[i] == s;
                    assert(sessions[i + 1] == s);
                },
                None => {
                    assert forall|i: int| 0 <= i < sessions.len() implies !is_running(
                        statuses,
                        sessions[i].process_id,
                    ) by {
                        if i > 0 {
                            assert(sessions.drop_first()[i - 1] == sessions[i]);
                        }
                    }
                },
            }
        }
    }
}

/// A session's life, from the monitor's point of view.
///
/// Once a game is matched to a window while no other session is active,
/// the game is the active one for as long as its process is reported
/// running. In the round in which the process is no longer reported
/// running the session is closed with the time elapsed since its start,
/// and nothing is active any more.
pub proof fn lemma_session_lifecycle(
    s: SessionView,
    running: Seq<(u32, Option<u32>)>,
    exited: Seq<(u32, Option<u32>)>,
    now: u64,
)
    requires
        is_running(running, s.process_id),
        !is_running(exited, s.process_id),
        now >= s.start_time,
    ensures
        with_session(Seq::empty(), s) == seq![s],
        active_of(seq![s], running) == Some(s),
        still_running(seq![s], running) == seq![s],
        ended_of(seq![s], running, now) == Seq::<EndedView>::empty(),
        still_running(seq![s], exited) == Seq::<SessionView>::empty(),
        active_of(still_running(seq![s], exited), exited) is None,
        ended_of(seq![s], exited, now) == seq![
            EndedView {
                game_id: s.game_id,
                start_time: s.start_time,
                duration_secs: Some((now - s.start_time) as u64),
            },
        ],
{
    let one = seq![s];
    let none = Seq::<SessionView>::empty();
    assert(one.drop_last() =~= none);
    assert(one.drop_first() =~= none);
    assert(one.last() == s);
    assert(none.push(s) =~= one);
    assert(still_running(none, running) =~= none);
    assert(still_running(none, exited) =~= none);
    assert(ended_of(none, running, now) =~= Seq::<EndedView>::empty());
    assert(ended_of(none, exited, now) =~= Seq::<EndedView>::empty());
    assert(still_running(one, running) =~= one);
    assert(still_running(one, exited) =~= none);
    assert(ended_of(one, running, now) =~= Seq::<EndedView>::empty());
    assert(ended_of(one, exited, now) =~= seq![ended(s, now)]);
    assert(active_of(none, exited) is None);
}

/// Tracks which games are running.
pub struct GameMonitor {
    active_games: Vec<GameSession>,
}

impl View for GameMonitor {
    type V = Seq<SessionView>;

    closed spec fn view(&self) -> Seq<SessionView> {
        self.active_games.deep_view()
    }
}

impl GameMonitor {
    #[verifier::type_invariant]
    spec fn well_formed(&self) -> bool {
        distinct_ids(self.active_games.deep_view())
    }

    /// A monitor with no active session.
    pub fn new() -> (m: GameMonitor)
        ensures
            m@ == Seq::<SessionView>::empty(),
    {
        let m = GameMonitor { active_games: Vec::new() };
        assert(m.active_games.deep_view() =~= Seq::empty());
        m
    }

    /// The active sessions, oldest first. At most one is active per game.
    pub fn sessions(&self) -> (r: Vec<GameSession>)
        ensures
            r.deep_view() == self@,
            distinct_ids(self@),
    {
        proof {
            use_type_invariant(self);
        }
        let mut r: Vec<GameSession> = Vec::new();
        let mut i: usize = 0;
        while i < self.active_games.len()
            invariant
                i <= self.active_games.len(),
                r.len() == i,
                forall|j: int| 0 <= j < i ==> r[j]@ == self.active_games[j]@,
            decreases self.active_games.len() - i,
        {
            r.push(self.active_games[i].clone());
            i += 1;
        }
        assert(r.deep_view() =~= self.active_games.deep_view());
        r
    }

    /// Strips a launch command of its arguments: see [`sanitized`].
    pub fn sanitize_command(executable: &str) -> (r: String)
        ensures
            r@ == sanitized(executable@),
    {
        let head = split_first(executable, "--");
        let unquoted = split_first(head.as_str(), "\"");
        trim(unquoted.as_str())
    }

    /// The process names under which a game may be running: see
    /// [`candidate_names`].
    pub fn possible_names(game: &Game, disk: &DiskSnapshot) -> (names: Vec<String>)
        ensures
            names.deep_view() == candidate_names(game@, disk@),
    {
        let mut names: Vec<String> = Vec::new();
        let spaceless = replace(game.title.as_str(), " ", "");
        let from_title = concat2(to_lowercase(spaceless.as_str()).as_str(), ".exe");
        names.push(from_title);
        assert(names.deep_view() =~= seq![name_from_title(game@.title)]);
        let ghost first = names.deep_view();
        match &game.installation.executable {
            Some(exe) => {
                let clean = Self::sanitize_command(exe.as_str());
                match file_name(clean.as_str()) {
                    Some(n) => {
                        let lowered = to_lowercase(n.as_str());
                        names.push(lowered);
                        assert(names.deep_view() =~= first + seq![lowered@]);
                    },
                    None => {
                        assert(names.deep_view() =~= first + Seq::empty());
                    },
                }
            },
            None => {
                assert(names.deep_view() =~= first + Seq::empty());
            },
        }
        let ghost second = names.deep_view();
        assert(second == first + optional(name_from_executable(game@.installation.executable)));
        if game.platform == Platform::BattleNet {
            if same_text(game.id.as_str(), "battlenet_overwatch") {
                names.push(String::from_str("overwatch.exe"));
                assert(names.deep_view() =~= second + seq!["overwatch.exe"@]);
            } else if same_text(game.id.as_str(), "battlenet_wow") {
                names.push(String::from_str("wow.exe"));
                assert(names.deep_view() =~= second + seq!["wow.exe"@]);
            } else if same_text(game.id.as_str(), "battlenet_d4") {
                names.push(String::from_str("diablo iv.exe"));
                assert(names.deep_view() =~= second + seq!["diablo iv.exe"@]);
            } else {
                assert(names.deep_view() =~= second + Seq::empty());
            }
        } else {
            assert(names.deep_view() =~= second + Seq::empty());
        }
        let ghost third = names.deep_view();
        if game.platform == Platform::Steam {
            match lookup(&disk.listings, game.installation.install_path.as_str()) {
                Some(listing) => {
                    let files = &listing.1;
                    let mut i: usize = 0;
                    assert(files.deep_view().take(0) =~= Seq::empty());
                    assert(names.deep_view() =~= third + Seq::empty());
                    while i < files.len()
                        invariant
                            i <= files.len(),
                            names.deep_view() == third + names_from_files(
                                files.deep_view().take(i as int),
                            ),
                        decreases files.len() - i,
                    {
                        let ghost before = names_from_files(files.deep_view().take(i as int));
                        proof {
                            let next = files.deep_view().take(i + 1);
                            assert(next.drop_last() =~= files.deep_view().take(i as int));
                            assert(next.last() == files[i as int]@);
                        }
                        let ghost names_before = names.deep_view();
                        match Self::name_of_file(files[i].as_str()) {
                            Some(n) => {
                                names.push(n);
                                assert(names.deep_view() =~= names_before.push(n@));
                                assert(names.deep_view() =~= third + before.push(n@));
                            },
                            None => {},
                        }
                        i += 1;
                    }
                    assert(files.deep_view().take(files.len() as int) =~= files.deep_view());
                },
                None => {
                    assert(names.deep_view() =~= third + Seq::empty());
                },
            }
        } else {
            assert(names.deep_view() =~= third + Seq::empty());
        }
        names
    }

    /// The process name that a file of the install directory suggests:
    /// see [`name_from_file`].
    pub fn name_of_file(path: &str) -> (r: Option<String>)
        ensures
            r.deep_view() == name_from_file(path@),
    {
        if !has_extension(path, "exe") {
            return None;
        }
        match file_name(path) {
            Some(n) => {
                let lowered = to_lowercase(n.as_str());
                if contains(lowered.as_str(), "unins") || contains(lowered.as_str(), "crash")
                    || contains(lowered.as_str(), "unity") || contains(lowered.as_str(), "ue4") {
                    None
                } else {
                    Some(lowered)
                }
            },
            None => None,
        }
    }

    /// Whether a window is the main window of a process called `name`:
    /// see [`window_matches`].
    pub fn is_main_window_of(window: &WindowInfo, name: &str) -> (r: bool)
        ensures
            r == window_matches(window@, name@),
    {
        match &window.module_name {
            Some(module) => {
                if window.visible && !window.owned && window.title_length > 0 {
                    let current = to_lowercase(module.as_str());
                    contains(current.as_str(), name)
                } else {
                    false
                }
            },
            None => false,
        }
    }

    /// Finds the first window of an enumeration that matches a process
    /// name.
    pub fn find_window<'a>(windows: &'a Vec<WindowInfo>, name: &str) -> (r: Option<&'a WindowInfo>)
        ensures
            r.deep_view() == first_match(windows.deep_view(), name@),
    {
        let mut i: usize = 0;
        assert(windows.deep_view().skip(0) =~= windows.deep_view());
        while i < windows.len()
            invariant
                i <= windows.len(),
                first_match(windows.deep_view(), name@) == first_match(
                    windows.deep_view().skip(i as int),
                    name@,
                ),
            decreases windows.len() - i,
        {
            let ghost rest = windows.deep_view().skip(i as int);
            proof {
                assert(rest[0] == windows[i as int]@);
                assert(rest.drop_first() =~= windows.deep_view().skip(i + 1));
            }
            if Self::is_main_window_of(&windows[i], name) {
                return Some(&windows[i]);
            }
            i += 1;
        }
        None
    }

    /// Matches process names against an enumeration of windows: the names
    /// are tried in order, and the first window that matches a name wins.
    pub fn correlate<'a>(windows: &'a Vec<WindowInfo>, names: &Vec<String>) -> (r: Option<
        &'a WindowInfo,
    >)
        ensures
            r.deep_view() == correlated(windows.deep_view(), names.deep_view()),
    {
        let mut i: usize = 0;
        assert(names.deep_view().skip(0) =~= names.deep_view());
        while i < names.len()
            invariant
                i <= names.len(),
                correlated(windows.deep_view(), names.deep_view()) == correlated(
                    windows.deep_view(),
                    names.deep_view().skip(i as int),
                ),
            decreases names.len() - i,
        {
            let ghost rest = names.deep_view().skip(i as int);
            proof {
                assert(rest[0] == names[i as int]@);
                assert(rest.drop_first() =~= names.deep_view().skip(i + 1));
            }
            match Self::find_window(windows, names[i].as_str()) {
                Some(w) => {
                    return Some(w);
                },
                None => {},
            }
            i += 1;
        }
        None
    }

    /// Tries to match a game to a live window and, on a match, opens its
    /// session.
    ///
    /// On a match the session starts now, belongs to the matched window
    /// and its process, and replaces any earlier session of the same game.
    /// The monitoring loop has to be started exactly when a session was
    /// opened and none was active before. Without a match nothing changes.
    pub fn track_game(
        &mut self,
        game: &Game,
        disk: &DiskSnapshot,
        windows: &Vec<WindowInfo>,
        now: u64,
    ) -> (r: Tracking)
        ensures
            match correlated(windows.deep_view(), candidate_names(game@, disk@)) {
                Some(w) => {
                    let s = SessionView {
                        game_id: game@.id,
                        start_time: now,
                        process_id: w.process_id,
                        window_handle: w.handle,
                    };
                    &&& r.session.deep_view() == Some(s)
                    &&& final(self)@ == with_session(old(self)@, s)
                    &&& r.start_monitoring == (old(self)@.len() == 0)
                },
                None => r.session is None && !r.start_monitoring && final(self)@ == old(self)@,
            },
    {
        let names = Self::possible_names(game, disk);
        match Self::correlate(windows, &names) {
            Some(w) => {
                let session = GameSession {
                    game_id: game.id.clone(),
                    start_time: now,
                    process_id: w.process_id,
                    window_handle: w.handle,
                };
                let was_empty = self.active_games.len() == 0;
                self.insert(session.clone());
                Tracking { session: Some(session), start_monitoring: was_empty }
            },
            None => Tracking { session: None, start_monitoring: false },
        }
    }

    /// Opens a session, replacing the game's earlier session if any.
    fn insert(&mut self, session: GameSession)
        ensures
            final(self)@ == with_session(old(self)@, session@),
    {
        proof {
            use_type_invariant(&*self);
            lemma_with_session_distinct(self@, session@);
        }
        let n = self.active_games.len();
        let ghost all = self.active_games.deep_view();
        let mut next: Vec<GameSession> = Vec::new();
        let mut found = false;
        let mut i: usize = 0;
        assert(all.take(0) =~= Seq::empty());
        assert(next.deep_view() =~= Seq::empty());
        while i < n
            invariant
                i <= n,
                n == self.active_games.len(),
                all == self.active_games.deep_view(),
                found == (index_of_game(all.take(i as int), session@.game_id) is Some),
                next.deep_view() == match index_of_game(all.take(i as int), session@.game_id) {
                    Some(k) => all.take(i as int).update(k, session@),
                    None => all.take(i as int),
                },
            decreases n - i,
        {
            let ghost before = next.deep_view();
            let ghost prev = all.take(i as int);
            let ghost upto = all.take(i + 1);
            proof {
                assert(upto.drop_last() =~= prev);
                assert(upto.last() == self.active_games[i as int]@);
                assert(upto =~= prev.push(all[i as int]));
                lemma_index_of_game(prev, session@.game_id);
            }
            if !found && same_text(self.active_games[i].game_id.as_str(), session.game_id.as_str()) {
                found = true;
                next.push(session.clone());
                assert(next.deep_view() =~= before.push(session@));
                assert(next.deep_view() =~= upto.update(i as int, session@));
            } else {
                next.push(self.active_games[i].clone());
                assert(next.deep_view() =~= before.push(all[i as int]));
                proof {
                    match index_of_game(prev, session@.game_id) {
                        Some(k) => {
                            assert(0 <= k < i);
                            assert(prev.update(k, session@).push(all[i as int]) =~= upto.update(
                                k,
                                session@,
                            ));
                        },
                        None => {},
                    }
                }
            }
            i += 1;
        }
        assert(all.take(n as int) =~= all);
        if !found {
            let ghost before = next.deep_view();
            next.push(session);
            assert(next.deep_view() =~= before.push(session@));
        }
        self.active_games = next;
    }

    /// The processes whose exit codes the next round of monitoring asks
    /// about: those of the active sessions, in order.
    pub fn process_ids(&self) -> (r: Vec<u32>)
        ensures
            r.len() == self@.len(),
            forall|i: int| 0 <= i < r.len() ==> r[i] == self@[i].process_id,
    {
        let mut r: Vec<u32> = Vec::new();
        let mut i: usize = 0;
        while i < self.active_games.len()
            invariant
                i <= self.active_games.len(),
                r.len() == i,
                forall|j: int| 0 <= j < i ==> r[j] == self.active_games[j].process_id,
            decreases self.active_games.len() - i,
        {
            r.push(self.active_games[i].process_id);
            i += 1;
        }
        r
    }

    /// One round of the monitoring loop.
    ///
    /// `statuses` pairs each queried process with the exit code the
    /// operating system reported, or `None` where the query failed. A
    /// session stays exactly when its process is reported still active;
    /// every other session is closed with the time elapsed since its
    /// start. The loop goes on exactly while a session stays.
    pub fn poll(&mut self, statuses: &Vec<(u32, Option<u32>)>, now: u64) -> (r: Polling)
        ensures
            final(self)@ == still_running(old(self)@, statuses@),
            r.ended.deep_view() == ended_of(old(self)@, statuses@, now),
            r.keep_polling == (final(self)@.len() > 0),
    {
        proof {
            use_type_invariant(&*self);
            lemma_polling(self@, statuses@, now);
        }
        let mut kept: Vec<GameSession> = Vec::new();
        let mut closed: Vec<EndedSession> = Vec::new();
        let mut i: usize = 0;
        assert(self.active_games.deep_view().take(0) =~= Seq::empty());
        assert(kept.deep_view() =~= Seq::empty());
        assert(closed.deep_view() =~= Seq::empty());
        while i < self.active_games.len()
            invariant
                i <= self.active_games.len(),
                kept.deep_view() == still_running(
                    self.active_games.deep_view().take(i as int),
                    statuses@,
                ),
                closed.deep_view() == ended_of(
                    self.active_games.deep_view().take(i as int),
                    statuses@,
                    now,
                ),
            decreases self.active_games.len() - i,
        {
            let ghost kept_before = kept.deep_view();
            let ghost closed_before = closed.deep_view();
            proof {
                let next = self.active_games.deep_view().take(i + 1);
                assert(next.drop_last() =~= self.active_games.deep_view().take(i as int));
                assert(next.last() == self.active_games[i as int]@);
            }
            let s = &self.active_games[i];
            if process_is_running(statuses, s.process_id) {
                kept.push(s.clone());
                assert(kept.deep_view() =~= kept_before.push(s@));
            } else {
                let duration_secs: Option<u64> = if now >= s.start_time {
                    Some(now - s.start_time)
                } else {
                    None
                };
                let e = EndedSession {
                    game_id: s.game_id.clone(),
                    start_time: s.start_time,
                    duration_secs,
                };
                closed.push(e);
                assert(closed.deep_view() =~= closed_before.push(ended(s@, now)));
            }
            i += 1;
        }
        assert(self.active_games.deep_view().take(self.active_games.len() as int)
            =~= self.active_games.deep_view());
        let keep_polling = kept.len() > 0;
        self.active_games = kept;
        Polling { ended: closed, keep_polling }
    }

    /// The game that is being played: the first active session whose
    /// process is reported still active.
    pub fn get_active_game(&self, statuses: &Vec<(u32, Option<u32>)>) -> (r: Option<GameSession>)
        ensures
            r.deep_view() == active_of(self@, statuses@),
    {
        let mut i: usize = 0;
        assert(self.active_games.deep_view().skip(0) =~= self.active_games.deep_view());
        while i < self.active_games.len()
            invariant
                i <= self.active_games.len(),
                active_of(self.active_games.deep_view(), statuses@) == active_of(
                    self.active_games.deep_view().skip(i as int),
                    statuses@,
                ),
            decreases self.active_games.len() - i,
        {
            let ghost rest = self.active_games.deep_view().skip(i as int);
            proof {
                assert(rest[0] == self.active_games[i as int]@);
                assert(rest.drop_first() =~= self.active_games.deep_view().skip(i + 1));
            }
            if process_is_running(statuses, self.active_games[i].process_id) {
                return Some(self.active_games[i].clone());
            }
            i += 1;
        }
        None
    }

    /// Whether a game has an active session.
    pub fn is_game_running(&self, game_id: &str) -> (r: bool)
        ensures
            r == (index_of_game(self@, game_id@) is Some),
    {
        let mut i: usize = 0;
        assert(self.active_games.deep_view().take(0) =~= Seq::empty());
        while i < self.active_games.len()
            invariant
                i <= self.active_games.len(),
                index_of_game(self.active_games.deep_view().take(i as int), game_id@) is None,
            decreases self.active_games.len() - i,
        {
            proof {
                let next = self.active_games.deep_view().take(i + 1);
                assert(next.drop_last() =~= self.active_games.deep_view().take(i as int));
                assert(next.last() == self.active_games[i as int]@);
            }
            if same_text(self.active_games[i].game_id.as_str(), game_id) {
                proof {
                    lemma_index_stable(self.active_games.deep_view(), i as int, game_id@);
                }
                return true;
            }
            i += 1;
        }
        assert(self.active_games.deep_view().take(self.active_games.len() as int)
            =~= self.active_games.deep_view());
        false
    }

    /// How many sessions are active.
    pub fn active_count(&self) -> (r: usize)
        ensures
            r == self@.len(),
    {
        self.active_games.len()
    }
}

/// If a game has no session before position `i` and the session at `i` is
/// the game's, then `i` is the position of the game's session.
pub proof fn lemma_index_stable(sessions: Seq<SessionView>, i: int, game_id: Seq<char>)
    requires
        0 <= i < sessions.len(),
        index_of_game(sessions.take(i), game_id) is None,
        sessions[i].game_id == game_id,
    ensures
        index_of_game(sessions, game_id) == Some(i),
    decreases sessions.len() - i,
{
    let upto = sessions.take(i + 1);
    assert(upto.drop_last() =~= sessions.take(i));
    assert(upto.last() == sessions[i]);
    assert(index_of_game(upto, game_id) == Some(i));
    lemma_index_prefix(sessions, i + 1, game_id);
}

/// A session found in a prefix is found at the same position in the whole.
pub proof fn lemma_index_prefix(sessions: Seq<SessionView>, n: int, game_id: Seq<char>)
    requires
        0 <= n <= sessions.len(),
        index_of_game(sessions.take(n), game_id) is Some,
    ensures
        index_of_game(sessions, game_id) == index_of_game(sessions.take(n), game_id),
    decreases sessions.len() - n,
{
    if n < sessions.len() {
        let next = sessions.take(n + 1);
        assert(next.drop_last() =~= sessions.take(n));
        lemma_index_prefix(sessions, n + 1, game_id);
    } else {
        assert(sessions.take(n) =~= sessions);
    }
}

} // verus!

//! The persisted state of the library, as the rest of the library sees
//! it: a table of games keyed by id, and the history of play sessions.
//!
//! This is the model that the reconciliation and accounting rules are
//! stated over. Writing it to disk is the caller's business.

use vstd::prelude::*;
use crate::error::AppError;
use crate::models::{
    after_session, can_record, Game, GameMedia, GameMediaView, GameMetadata, GameMetadataView, GameStats, GameView,
};
use crate::text::{
    dedup_strings, deduped, lemma_text_before_irreflexive, lemma_text_before_transitive, precedes,
    same_text, text_before,
};

verus! {

/// One play session of the history.
#[derive(Debug, PartialEq, Eq)]
pub struct SessionRecord {
    pub id: u64,
    pub game_id: String,
    pub start_time: i64,
    pub end_time: Option<i64>,
    pub duration: Option<i64>,
}

/// What contracts say of a [`SessionRecord`]: the same value with its strings
/// as sequences of characters.
pub struct SessionRecordView {
    pub id: u64,
    pub game_id: Seq<char>,
    pub start_time: i64,
    pub end_time: Option<i64>,
    pub duration: Option<i64>,
}

impl View for SessionRecord {
    type V = SessionRecordView;

    open spec fn view(&self) -> SessionRecordView {
        SessionRecordView {
            id: self.id,
            game_id: self.game_id@,
            start_time: self.start_time,
            end_time: self.end_time,
            duration: self.duration,
        }
    }
}

impl DeepView for SessionRecord {
    type V = SessionRecordView;

    open spec fn deep_view(&self) -> SessionRecordView {
        self@
    }
}

impl Clone for SessionRecord {
    fn clone(&self) -> (r: SessionRecord)
        ensures
            r@ == self@,
    {
        SessionRecord {
            id: self.id,
            game_id: self.game_id.clone(),
            start_time: self.start_time,
            end_time: self.end_time,
            duration: self.duration,
        }
    }
}

/// No two games have the same id.
pub open spec fn unique_ids(games: Seq<GameView>) -> bool {
    forall|i: int, j: int|
        0 <= i < j < games.len() ==> (#[trigger] games[i]).id != (#[trigger] games[j]).id
}

/// The table that a list of games stands for: each game under its id.
pub open spec fn as_table(games: Seq<GameView>) -> Map<Seq<char>, GameView>
    decreases games.len(),
{
    if games.len() == 0 {
        Map::empty()
    } else {
        as_table(games.drop_last()).insert(games.last().id, games.last())
    }
}

/// A list of games lists a table when its games have distinct ids, each is
/// the table's entry under its id, and every entry of the table is listed.
pub open spec fn lists(games: Seq<GameView>, table: Map<Seq<char>, GameView>) -> bool {
    &&& unique_ids(games)
    &&& forall|i: int|
        0 <= i < games.len() ==> table.dom().contains((#[trigger] games[i]).id) && table[games[i].id]
            == games[i]
    &&& forall|id: Seq<char>| #[trigger]
        table.dom().contains(id) ==> exists|i: int| 0 <= i < games.len() && games[i].id == id
}

/// A list of games with distinct ids lists the table it stands for.
pub proof fn lemma_as_table(games: Seq<GameView>)
    requires
        unique_ids(games),
    ensures
        lists(games, as_table(games)),
    decreases games.len(),
{
    if games.len() > 0 {
        let init = games.drop_last();
        let last = games.last();
        assert forall|i: int, j: int| 0 <= i < j < init.len() implies (#[trigger] init[i]).id != (
        #[trigger] init[j]).id by {
            assert(games[i].id != games[j].id);
        }
        lemma_as_table(init);
        let table = as_table(games);
        assert forall|i: int| 0 <= i < games.len() implies table.dom().contains(
            (#[trigger] games[i]).id,
        ) && table[games[i].id] == games[i] by {
            if i < init.len() {
                assert(init[i] == games[i]);
                assert(games[i].id != games[games.len() - 1].id);
            }
        }
        assert forall|id: Seq<char>| #[trigger] table.dom().contains(id) implies exists|i: int|
            0 <= i < games.len() && games[i].id == id by {
            if id == last.id {
                assert(games[games.len() - 1].id == id);
            } else {
                assert(as_table(init).dom().contains(id));
                let i = choose|i: int| 0 <= i < init.len() && init[i].id == id;
                assert(games[i].id == id);
            }
        }
    }
}

/// A table has at most one list entry per id: two lists of distinct ids
/// that agree entry by entry stand for the same table.
pub proof fn lemma_lists_determines(games: Seq<GameView>, table: Map<Seq<char>, GameView>)
    requires
        lists(games, table),
    ensures
        as_table(games) == table,
{
    lemma_as_table(games);
    let t = as_table(games);
    assert forall|id: Seq<char>| t.dom().contains(id) <==> table.dom().contains(id) by {
        if t.dom().contains(id) {
            let i = choose|i: int| 0 <= i < games.len() && games[i].id == id;
            assert(table.dom().contains(games[i].id));
        }
        if table.dom().contains(id) {
            let i = choose|i: int| 0 <= i < games.len() && games[i].id == id;
            assert(t.dom().contains(games[i].id));
        }
    }
    assert forall|id: Seq<char>| t.dom().contains(id) implies t[id] == table[id] by {
        let i = choose|i: int| 0 <= i < games.len() && games[i].id == id;
        assert(t[games[i].id] == games[i]);
        assert(table[games[i].id] == games[i]);
    }
    assert(t =~= table);
}

/// Every game of a table is stored under its own id.
pub open spec fn keyed(table: Map<Seq<char>, GameView>) -> bool {
    forall|id: Seq<char>| #[trigger] table.dom().contains(id) ==> table[id].id == id
}

/// A table that a list of games lists is keyed by id.
pub proof fn lemma_lists_keyed(games: Seq<GameView>, table: Map<Seq<char>, GameView>)
    requires
        lists(games, table),
    ensures
        keyed(table),
{
    assert forall|id: Seq<char>| #[trigger] table.dom().contains(id) implies table[id].id == id by {
        let i = choose|i: int| 0 <= i < games.len() && games[i].id == id;
        assert(table[games[i].id] == games[i]);
    }
}

/// The table that a list of games stands for is keyed by id, whatever the
/// list.
pub proof fn lemma_as_table_keyed(games: Seq<GameView>)
    ensures
        keyed(as_table(games)),
    decreases games.len(),
{
    if games.len() > 0 {
        lemma_as_table_keyed(games.drop_last());
    }
}

/// The games of a list are in the order of their titles: none comes
/// before a game that stands earlier in the list.
pub open spec fn sorted_by_title(games: Seq<GameView>) -> bool {
    forall|i: int, j: int|
        0 <= i < j < games.len() ==> !text_before(
            (#[trigger] games[j]).title,
            (#[trigger] games[i]).title,
        )
}

/// A game put into a sorted list behind the games it does not come before,
/// and in front of one it comes before, leaves the list sorted.
pub proof fn lemma_sorted_insert(games: Seq<GameView>, k: int, g: GameView)
    requires
        sorted_by_title(games),
        0 <= k <= games.len(),
        forall|j: int| 0 <= j < k ==> !text_before(g.title, (#[trigger] games[j]).title),
        k < games.len() ==> text_before(g.title, games[k].title),
    ensures
        sorted_by_title(games.insert(k, g)),
{
    let next = games.insert(k, g);
    assert forall|i: int, j: int| 0 <= i < j < next.len() implies !text_before(
        (#[trigger] next[j]).title,
        (#[trigger] next[i]).title,
    ) by {
        if i == k {
            let m = j - 1;
            assert(next[j] == games[m]);
            if text_before(games[m].title, g.title) {
                lemma_text_before_transitive(games[m].title, g.title, games[k].title);
                if m == k {
                    lemma_text_before_irreflexive(games[k].title);
                } else {
                    assert(!text_before(games[m].title, games[k].title));
                }
            }
        } else if j == k {
            assert(next[i] == games[i]);
        } else {
            let a = if i < k {
                i
            } else {
                i - 1
            };
            let b = if j < k {
                j
            } else {
                j - 1
            };
            assert(next[i] == games[a]);
            assert(next[j] == games[b]);
        }
    }
}

/// Putting a game with a new id anywhere into a list adds its entry.
pub proof fn lemma_table_insert(games: Seq<GameView>, k: int, g: GameView)
    requires
        unique_ids(games),
        0 <= k <= games.len(),
        forall|j: int| 0 <= j < games.len() ==> games[j].id != g.id,
    ensures
        unique_ids(games.insert(k, g)),
        as_table(games.insert(k, g)) == as_table(games).insert(g.id, g),
{
    lemma_as_table(games);
    let next = games.insert(k, g);
    let table = as_table(games).insert(g.id, g);
    assert forall|a: int| 0 <= a < next.len() && a != k implies #[trigger] next[a] == games[if a < k {
        a
    } else {
        a - 1
    }] by {}
    assert(next[k] == g);
    assert forall|a: int, b: int| 0 <= a < b < next.len() implies (#[trigger] next[a]).id != (
    #[trigger] next[b]).id by {
        let a0 = if a < k {
            a
        } else {
            a - 1
        };
        let b0 = if b < k {
            b
        } else {
            b - 1
        };
        if a != k && b != k {
            assert(games[a0].id != games[b0].id);
        } else if a == k {
            assert(games[b0].id != g.id);
        } else {
            assert(games[a0].id != g.id);
        }
    }
    assert forall|a: int| 0 <= a < next.len() implies table.dom().contains((#[trigger] next[a]).id)
        && table[next[a].id] == next[a] by {
        if a != k {
            let a0 = if a < k {
                a
            } else {
                a - 1
            };
            assert(next[a] == games[a0]);
            assert(games[a0].id != g.id);
        }
    }
    assert forall|id: Seq<char>| #[trigger] table.dom().contains(id) implies exists|a: int|
        0 <= a < next.len() && next[a].id == id by {
        if id == g.id {
            assert(next[k].id == id);
        } else {
            let a0 = choose|a0: int| 0 <= a0 < games.len() && games[a0].id == id;
            let a = if a0 < k {
                a0
            } else {
                a0 + 1
            };
            assert(next[a] == games[a0]);
        }
    }
    lemma_lists_determines(next, table);
}

/// What storing a scanned or edited game does to the record under its id:
/// a game that is stored keeps everything but its installation; a new
/// game is stored as it is given.
pub open spec fn upserted(stored: Option<GameView>, game: GameView) -> GameView {
    match stored {
        Some(e) => GameView { installation: game.installation, ..e },
        None => game,
    }
}

/// The entry of a table under an id, if there is one.
pub open spec fn entry(table: Map<Seq<char>, GameView>, id: Seq<char>) -> Option<GameView> {
    if table.dom().contains(id) {
        Some(table[id])
    } else {
        None
    }
}

/// Session ids count from 1 in the order in which sessions were started.
pub open spec fn numbered(sessions: Seq<SessionRecordView>) -> bool {
    forall|i: int| 0 <= i < sessions.len() ==> (#[trigger] sessions[i]).id == i + 1
}

/// What contracts say of a [`Database`]: the same value with its strings
/// as sequences of characters.
pub struct DatabaseView {
    pub games: Map<Seq<char>, GameView>,
    pub sessions: Seq<SessionRecordView>,
}

/// The table of games and the history of sessions.
pub struct Database {
    games: Vec<Game>,
    sessions: Vec<SessionRecord>,
}

impl View for Database {
    type V = DatabaseView;

    closed spec fn view(&self) -> DatabaseView {
        DatabaseView { games: as_table(self.games.deep_view()), sessions: self.sessions.deep_view() }
    }
}

/// Replacing a game by one of the same id replaces its entry.
pub proof fn lemma_table_update(games: Seq<GameView>, i: int, g: GameView)
    requires
        unique_ids(games),
        0 <= i < games.len(),
        games[i].id == g.id,
    ensures
        unique_ids(games.update(i, g)),
        as_table(games.update(i, g)) == as_table(games).insert(g.id, g),
{
    lemma_as_table(games);
    let next = games.update(i, g);
    let table = as_table(games).insert(g.id, g);
    assert forall|a: int, b: int| 0 <= a < b < next.len() implies (#[trigger] next[a]).id != (
    #[trigger] next[b]).id by {
        assert(games[a].id != games[b].id);
    }
    assert forall|k: int| 0 <= k < next.len() implies table.dom().contains((#[trigger] next[k]).id)
        && table[next[k].id] == next[k] by {
        if k != i {
            assert(next[k] == games[k]);
            if k < i {
                assert(games[k].id != games[i].id);
            } else {
                assert(games[i].id != games[k].id);
            }
        }
    }
    assert forall|id: Seq<char>| #[trigger] table.dom().contains(id) implies exists|k: int|
        0 <= k < next.len() && next[k].id == id by {
        if id == g.id {
            assert(next[i].id == id);
        } else {
            let k = choose|k: int| 0 <= k < games.len() && games[k].id == id;
            assert(next[k].id == id);
        }
    }
    lemma_lists_determines(next, table);
}

/// Adding a game with a new id adds its entry.
pub proof fn lemma_table_push(games: Seq<GameView>, g: GameView)
    requires
        unique_ids(games),
        forall|j: int| 0 <= j < games.len() ==> games[j].id != g.id,
    ensures
        unique_ids(games.push(g)),
        as_table(games.push(g)) == as_table(games).insert(g.id, g),
{
    let next = games.push(g);
    assert(next.drop_last() =~= games);
    assert forall|a: int, b: int| 0 <= a < b < next.len() implies (#[trigger] next[a]).id != (
    #[trigger] next[b]).id by {
        if b < games.len() {
            assert(games[a].id != games[b].id);
        } else {
            assert(next[a] == games[a]);
        }
    }
}

/// Removing a game removes its entry.
pub proof fn lemma_table_remove(games: Seq<GameView>, i: int)
    requires
        unique_ids(games),
        0 <= i < games.len(),
    ensures
        unique_ids(games.remove(i)),
        as_table(games.remove(i)) == as_table(games).remove(games[i].id),
{
    lemma_as_table(games);
    let next = games.remove(i);
    let table = as_table(games).remove(games[i].id);
    assert forall|k: int| 0 <= k < next.len() implies #[trigger] next[k] == games[if k < i {
        k
    } else {
        k + 1
    }] by {}
    assert forall|a: int, b: int| 0 <= a < b < next.len() implies (#[trigger] next[a]).id != (
    #[trigger] next[b]).id by {
        let a0 = if a < i {
            a
        } else {
            a + 1
        };
        let b0 = if b < i {
            b
        } else {
            b + 1
        };
        assert(games[a0].id != games[b0].id);
    }
    assert forall|k: int| 0 <= k < next.len() implies table.dom().contains((#[trigger] next[k]).id)
        && table[next[k].id] == next[k] by {
        let k0 = if k < i {
            k
        } else {
            k + 1
        };
        assert(next[k] == games[k0]);
        if k0 < i {
            assert(games[k0].id != games[i].id);
        } else {
            assert(games[i].id != games[k0].id);
        }
    }
    assert forall|id: Seq<char>| #[trigger] table.dom().contains(id) implies exists|k: int|
        0 <= k < next.len() && next[k].id == id by {
        let k0 = choose|k: int| 0 <= k < games.len() && games[k].id == id;
        let k = if k0 < i {
            k0
        } else {
            k0 - 1
        };
        assert(next[k] == games[k0]);
    }
    lemma_lists_determines(next, table);
}

/// The metadata that is stored when `metadata` is written: genres and
/// tags lose their repetitions, and no media is nested.
pub open spec fn stored_metadata(metadata: GameMetadataView) -> GameMetadataView {
    GameMetadataView {
        genres: deduped(metadata.genres),
        tags: deduped(metadata.tags),
        media: None,
        ..metadata
    }
}

/// A game after its metadata, and possibly its media, are rewritten.
pub open spec fn with_metadata(game: GameView, metadata: GameMetadataView, media: Option<GameMediaView>) -> GameView {
    GameView {
        metadata: stored_metadata(metadata),
        media: match media {
            Some(m) => m,
            None => game.media,
        },
        ..game
    }
}

/// The table after a run of games is stored into it, one after the other:
/// of several games with one id the last one stays.
pub open spec fn stored_all(table: Map<Seq<char>, GameView>, games: Seq<GameView>) -> Map<
    Seq<char>,
    GameView,
>
    decreases games.len(),
{
    if games.len() == 0 {
        table
    } else {
        stored_all(table, games.drop_last()).insert(games.last().id, games.last())
    }
}

/// A history with its sessions numbered from 1 in order.
pub open spec fn renumbered(sessions: Seq<SessionRecordView>) -> Seq<SessionRecordView> {
    Seq::new(sessions.len(), |i: int| SessionRecordView { id: (i + 1) as u64, ..sessions[i] })
}

/// The record of a session that was just started.
pub open spec fn started(id: u64, game_id: Seq<char>, now: i64) -> SessionRecordView {
    SessionRecordView { id, game_id, start_time: now, end_time: None, duration: None }
}

/// Whether a session can be closed: the session exists, its game is in
/// the table, and the duration can be added to the game's statistics.
pub open spec fn can_end(db: DatabaseView, session_id: u64, duration: i64) -> bool {
    &&& 1 <= session_id <= db.sessions.len()
    &&& db.games.dom().contains(db.sessions[session_id - 1].game_id)
    &&& can_record(db.games[db.sessions[session_id - 1].game_id].stats, duration)
}

/// Why a session cannot be closed: the first of the reasons that apply,
/// in the order in which they are looked at.
pub open spec fn end_failure(db: DatabaseView, session_id: u64, duration: i64) -> Seq<char> {
    if !(1 <= session_id <= db.sessions.len()) {
        "Failed to end game session"@
    } else if !db.games.dom().contains(db.sessions[session_id - 1].game_id) {
        "Failed to update game stats"@
    } else if duration < 0 {
        "Session duration is negative"@
    } else {
        "Play statistics overflow"@
    }
}

/// The state after a session is closed: the session's record holds its
/// end and duration, and the game's statistics account for it.
pub open spec fn after_end(db: DatabaseView, session_id: u64, duration: i64, now: i64) -> DatabaseView {
    let record = db.sessions[session_id - 1];
    let game = db.games[record.game_id];
    DatabaseView {
        games: db.games.insert(
            record.game_id,
            GameView { stats: after_session(game.stats, record.start_time, duration, now), ..game },
        ),
        sessions: db.sessions.update(
            session_id - 1,
            SessionRecordView { end_time: Some(now), duration: Some(duration), ..record },
        ),
    }
}

impl Database {
    #[verifier::type_invariant]
    spec fn well_formed(&self) -> bool {
        unique_ids(self.games.deep_view()) && numbered(self.sessions.deep_view())
    }

    /// An empty database.
    pub fn new() -> (db: Database)
        ensures
            db@.games == Map::<Seq<char>, GameView>::empty(),
            db@.sessions == Seq::<SessionRecordView>::empty(),
    {
        let db = Database { games: Vec::new(), sessions: Vec::new() };
        assert(db.games.deep_view() =~= Seq::empty());
        assert(db.sessions.deep_view() =~= Seq::empty());
        db
    }

    /// A database holding the given games and history, as they were read
    /// back from storage. Of several games with one id the last one stays;
    /// the sessions are numbered from 1 in the order given.
    pub fn load(games: &Vec<Game>, sessions: &Vec<SessionRecord>) -> (db: Database)
        ensures
            db@.games == stored_all(Map::empty(), games.deep_view()),
            db@.sessions == renumbered(sessions.deep_view()),
    {
        let mut db = Database::new();
        let mut i: usize = 0;
        assert(games.deep_view().take(0) =~= Seq::empty());
        while i < games.len()
            invariant
                i <= games.len(),
                db@.games == stored_all(Map::empty(), games.deep_view().take(i as int)),
                db@.sessions == Seq::<SessionRecordView>::empty(),
            decreases games.len() - i,
        {
            proof {
                let next = games.deep_view().take(i + 1);
                assert(next.drop_last() =~= games.deep_view().take(i as int));
                assert(next.last() == games[i as int]@);
            }
            db.store_game(&games[i]);
            i += 1;
        }
        assert(games.deep_view().take(games.len() as int) =~= games.deep_view());
        let mut history: Vec<SessionRecord> = Vec::new();
        let mut k: usize = 0;
        while k < sessions.len()
            invariant
                k <= sessions.len(),
                history.len() == k,
                forall|j: int|
                    0 <= j < k ==> history[j]@ == (SessionRecordView {
                        id: (j + 1) as u64,
                        ..sessions[j]@
                    }),
            decreases sessions.len() - k,
        {
            let id: u64 = (k as u64) + 1;
            history.push(
                SessionRecord {
                    id,
                    game_id: sessions[k].game_id.clone(),
                    start_time: sessions[k].start_time,
                    end_time: sessions[k].end_time,
                    duration: sessions[k].duration,
                },
            );
            k += 1;
        }
        proof {
            assert(history.deep_view() =~= renumbered(sessions.deep_view()));
            use_type_invariant(&db);
        }
        let games_kept = db.copy_games();
        let loaded = Database { games: games_kept, sessions: history };
        loaded
    }

    fn find_index(&self, game_id: &str) -> (r: Option<usize>)
        ensures
            match r {
                Some(i) => i < self.games.len() && self.games[i as int]@.id == game_id@,
                None => forall|j: int| 0 <= j < self.games.len() ==> self.games[j]@.id != game_id@,
            },
            unique_ids(self.games.deep_view()),
            lists(self.games.deep_view(), self@.games),
            r is Some <==> self@.games.dom().contains(game_id@),
            r is Some ==> self@.games[game_id@] == self.games[r->0 as int]@,
    {
        proof {
            use_type_invariant(self);
            lemma_as_table(self.games.deep_view());
        }
        let mut i: usize = 0;
        while i < self.games.len()
            invariant
                i <= self.games.len(),
                forall|j: int| 0 <= j < i ==> self.games[j]@.id != game_id@,
                lists(self.games.deep_view(), self@.games),
            decreases self.games.len() - i,
        {
            if same_text(self.games[i].id.as_str(), game_id) {
                assert(self.games.deep_view()[i as int] == self.games[i as int]@);
                return Some(i);
            }
            i += 1;
        }
        proof {
            if self@.games.dom().contains(game_id@) {
                let k = choose|k: int|
                    0 <= k < self.games.deep_view().len() && self.games.deep_view()[k].id == game_id@;
                assert(self.games.deep_view()[k] == self.games[k]@);
            }
        }
        None
    }

    fn copy_games(&self) -> (r: Vec<Game>)
        ensures
            r.deep_view() == self.games.deep_view(),
            r.len() == self.games.len(),
    {
        let mut r: Vec<Game> = Vec::new();
        let mut i: usize = 0;
        while i < self.games.len()
            invariant
                i <= self.games.len(),
                r.len() == i,
                forall|j: int| 0 <= j < i ==> r[j]@ == self.games[j]@,
            decreases self.games.len() - i,
        {
            r.push(self.games[i].clone());
            i += 1;
        }
        assert(r.deep_view() =~= self.games.deep_view());
        r
    }

    fn copy_sessions(&self) -> (r: Vec<SessionRecord>)
        ensures
            r.deep_view() == self.sessions.deep_view(),
            r.len() == self.sessions.len(),
    {
        let mut r: Vec<SessionRecord> = Vec::new();
        let mut i: usize = 0;
        while i < self.sessions.len()
            invariant
                i <= self.sessions.len(),
                r.len() == i,
                forall|j: int| 0 <= j < i ==> r[j]@ == self.sessions[j]@,
            decreases self.sessions.len() - i,
        {
            r.push(self.sessions[i].clone());
            i += 1;
        }
        assert(r.deep_view() =~= self.sessions.deep_view());
        r
    }

    /// The game stored under an id.
    pub fn get_game(&self, game_id: &str) -> (r: Option<Game>)
        ensures
            r.deep_view() == entry(self@.games, game_id@),
            r is Some ==> r->0@.id == game_id@,
    {
        match self.find_index(game_id) {
            Some(i) => Some(self.games[i].clone()),
            None => None,
        }
    }

    /// Every stored game, each exactly once, in the order of their titles.
    pub fn get_all_games(&self) -> (r: Vec<Game>)
        ensures
            lists(r.deep_view(), self@.games),
            sorted_by_title(r.deep_view()),
            keyed(self@.games),
    {
        proof {
            use_type_invariant(self);
            lemma_as_table(self.games.deep_view());
            lemma_lists_keyed(self.games.deep_view(), self@.games);
        }
        let ghost all = self.games.deep_view();
        let mut out: Vec<Game> = Vec::new();
        let mut i: usize = 0;
        proof {
            assert(all.take(0) =~= Seq::empty());
            assert(out.deep_view() =~= Seq::empty());
        }
        while i < self.games.len()
            invariant
                i <= self.games.len(),
                all == self.games.deep_view(),
                unique_ids(all),
                lists(out.deep_view(), as_table(all.take(i as int))),
                sorted_by_title(out.deep_view()),
            decreases self.games.len() - i,
        {
            let g = &self.games[i];
            let ghost before = out.deep_view();
            let mut k: usize = 0;
            while k < out.len()
                invariant
                    k <= out.len(),
                    before == out.deep_view(),
                    forall|j: int| 0 <= j < k ==> !text_before(g@.title, (#[trigger] before[j]).title),
                ensures
                    k <= out.len(),
                    forall|j: int| 0 <= j < k ==> !text_before(g@.title, (#[trigger] before[j]).title),
                    k < out.len() ==> text_before(g@.title, before[k as int].title),
                decreases out.len() - k,
            {
                assert(before[k as int] == out[k as int]@);
                if precedes(g.title.as_str(), out[k].title.as_str()) {
                    break;
                }
                k += 1;
            }
            proof {
                let upto = all.take(i as int);
                let next = all.take(i + 1);
                assert(next.drop_last() =~= upto);
                assert(next.last() == g@);
                assert forall|a: int, b: int| 0 <= a < b < upto.len() implies (#[trigger] upto[a]).id != (
                #[trigger] upto[b]).id by {
                    assert(all[a].id != all[b].id);
                }
                lemma_as_table(upto);
                assert forall|j: int| 0 <= j < before.len() implies before[j].id != g@.id by {
                    assert(as_table(upto).dom().contains(before[j].id));
                    let m = choose|m: int| 0 <= m < upto.len() && upto[m].id == before[j].id;
                    assert(all[m].id != all[i as int].id);
                }
                lemma_lists_determines(before, as_table(upto));
                lemma_table_insert(before, k as int, g@);
                lemma_sorted_insert(before, k as int, g@);
                lemma_as_table(before.insert(k as int, g@));
            }
            out.insert(k, g.clone());
            assert(out.deep_view() =~= before.insert(k as int, g@));
            i += 1;
        }
        assert(all.take(self.games.len() as int) =~= all);
        out
    }

    /// How many games are stored.
    pub fn game_count(&self) -> (r: usize)
        ensures
            lists(self.listed(), self@.games),
            keyed(self@.games),
            r == self.listed().len(),
    {
        proof {
            use_type_invariant(self);
            lemma_as_table(self.games.deep_view());
            lemma_lists_keyed(self.games.deep_view(), self@.games);
        }
        self.games.len()
    }

    /// The stored games in the order in which they are kept.
    pub closed spec fn listed(&self) -> Seq<GameView> {
        self.games.deep_view()
    }

    /// Learns, without looking, that every game is stored under its id.
    pub proof fn lemma_keyed(&self)
        ensures
            keyed(self@.games),
    {
        lemma_as_table_keyed(self.games.deep_view());
    }

    /// Stores what a scan or an edit says of a game: see [`upserted`].
    ///
    /// Of a game that is stored already only the installation is
    /// rewritten: its path, executable, size, version and time of last
    /// update. Its title, metadata, media, statistics and time of last play
    /// stay. A game that is not stored yet is stored as it is given. No
    /// other game changes.
    pub fn upsert_game(&mut self, game: &Game)
        ensures
            final(self)@.games == old(self)@.games.insert(
                game@.id,
                upserted(entry(old(self)@.games, game@.id), game@),
            ),
            final(self)@.sessions == old(self)@.sessions,
    {
        match self.get_game(game.id.as_str()) {
            Some(stored) => {
                let mut stored = stored;
                stored.installation = game.installation.clone();
                self.store_game(&stored);
            },
            None => {
                self.store_game(game);
            },
        }
    }

    /// Stores a whole record under its id, replacing the record stored
    /// there.
    pub(crate) fn store_game(&mut self, game: &Game)
        ensures
            final(self)@.games == old(self)@.games.insert(game@.id, game@),
            final(self)@.sessions == old(self)@.sessions,
    {
        let found = self.find_index(game.id.as_str());
        let mut next = self.copy_games();
        let ghost before = next.deep_view();
        match found {
            Some(i) => {
                next.set(i, game.clone());
                proof {
                    assert(next.deep_view() =~= before.update(i as int, game@));
                    assert(before[i as int] == self.games[i as int]@);
                    lemma_table_update(before, i as int, game@);
                }
            },
            None => {
                next.push(game.clone());
                proof {
                    assert(next.deep_view() =~= before.push(game@));
                    assert forall|j: int| 0 <= j < before.len() implies before[j].id != game@.id by {
                        assert(before[j] == self.games[j]@);
                    }
                    lemma_table_push(before, game@);
                }
            },
        }
        proof {
            use_type_invariant(&*self);
        }
        self.games = next;
    }

    /// Removes the game stored under an id, if any.
    pub fn delete_game(&mut self, game_id: &str)
        ensures
            final(self)@.games == old(self)@.games.remove(game_id@),
            final(self)@.sessions == old(self)@.sessions,
    {
        match self.find_index(game_id) {
            Some(i) => {
                let mut next = self.copy_games();
                let ghost before = next.deep_view();
                let _ = next.remove(i);
                proof {
                    assert(next.deep_view() =~= before.remove(i as int));
                    assert(before[i as int] == self.games[i as int]@);
                    lemma_table_remove(before, i as int);
                    use_type_invariant(&*self);
                }
                self.games = next;
            },
            None => {
                assert(self@.games.remove(game_id@) =~= self@.games);
            },
        }
    }

    /// Records when a game was last played. Nothing changes for an id
    /// that is not stored.
    pub fn update_last_played(&mut self, game_id: &str, timestamp: i64)
        ensures
            final(self)@.sessions == old(self)@.sessions,
            final(self)@.games == match entry(old(self)@.games, game_id@) {
                Some(g) => old(self)@.games.insert(
                    game_id@,
                    GameView { last_played: Some(timestamp), ..g },
                ),
                None => old(self)@.games,
            },
    {
        match self.get_game(game_id) {
            Some(g) => {
                let mut g = g;
                g.last_played = Some(timestamp);
                self.store_game(&g);
            },
            None => {},
        }
    }

    /// The statistics of a stored game.
    pub fn get_game_stats(&self, game_id: &str) -> (r: Option<GameStats>)
        ensures
            r == match entry(self@.games, game_id@) {
                Some(g) => Some(g.stats),
                None => None,
            },
    {
        match self.find_index(game_id) {
            Some(i) => Some(self.games[i].stats),
            None => None,
        }
    }

    /// The metadata of a stored game.
    pub fn get_metadata(&self, game_id: &str) -> (r: Option<GameMetadata>)
        ensures
            r.deep_view() == match entry(self@.games, game_id@) {
                Some(g) => Some(g.metadata),
                None => None,
            },
    {
        match self.find_index(game_id) {
            Some(i) => Some(self.games[i].metadata.clone()),
            None => None,
        }
    }

    /// Rewrites the metadata of a stored game and, where media is given,
    /// its media. Genres and tags are stored without repetitions. Fails,
    /// changing nothing, exactly when the id is not stored.
    pub fn update_metadata(
        &mut self,
        game_id: &str,
        metadata: &GameMetadata,
        media: Option<&GameMedia>,
    ) -> (r: Result<(), AppError>)
        ensures
            final(self)@.sessions == old(self)@.sessions,
            match r {
                Ok(_) => old(self)@.games.dom().contains(game_id@) && final(self)@.games == old(
                    self,
                )@.games.insert(
                    game_id@,
                    with_metadata(old(self)@.games[game_id@], metadata@, media.deep_view()),
                ),
                Err(e) => !old(self)@.games.dom().contains(game_id@) && final(self)@ == old(self)@
                    && e@ == "Game not found in database"@,
            },
    {
        match self.get_game(game_id) {
            Some(g) => {
                let mut g = g;
                g.metadata = GameMetadata {
                    title: metadata.title.clone(),
                    description: crate::models::clone_opt_string(&metadata.description),
                    developer: crate::models::clone_opt_string(&metadata.developer),
                    publisher: crate::models::clone_opt_string(&metadata.publisher),
                    release_date: crate::models::clone_opt_string(&metadata.release_date),
                    genres: dedup_strings(&metadata.genres),
                    tags: dedup_strings(&metadata.tags),
                    media: None,
                };
                match media {
                    Some(m) => {
                        g.media = m.clone();
                    },
                    None => {},
                }
                self.store_game(&g);
                Ok(())
            },
            None => Err(AppError::new(String::from_str("Game not found in database"))),
        }
    }

    /// The history of sessions, oldest first.
    pub fn sessions(&self) -> (r: Vec<SessionRecord>)
        ensures
            r.deep_view() == self@.sessions,
            numbered(self@.sessions),
    {
        proof {
            use_type_invariant(self);
        }
        self.copy_sessions()
    }

    /// Starts a session of a game at `now` and returns the session's id.
    /// Ids count from 1. Fails, changing nothing, only when ids run out.
    pub fn start_session(&mut self, game_id: &str, now: i64) -> (r: Result<u64, AppError>)
        ensures
            final(self)@.games == old(self)@.games,
            match r {
                Ok(id) => id == old(self)@.sessions.len() + 1 && final(self)@.sessions == old(
                    self,
                )@.sessions.push(started(id, game_id@, now)),
                Err(e) => old(self)@.sessions.len() + 1 > u64::MAX && final(self)@ == old(self)@
                    && e@ == "Failed to start game session"@,
            },
    {
        let count: u64 = self.sessions.len() as u64;
        let id = match count.checked_add(1) {
            Some(n) => n,
            None => {
                return Err(AppError::new(String::from_str("Failed to start game session")));
            },
        };
        let mut next = self.copy_sessions();
        let ghost before = next.deep_view();
        let record = SessionRecord {
            id,
            game_id: String::from_str(game_id),
            start_time: now,
            end_time: None,
            duration: None,
        };
        next.push(record);
        proof {
            use_type_invariant(&*self);
            assert(next.deep_view() =~= before.push(started(id, game_id@, now)));
        }
        self.sessions = next;
        Ok(id)
    }

    /// Closes a session that lasted `duration_secs` seconds, at `now`.
    ///
    /// On success the game's total playtime grows by the duration, its
    /// session count by one, the duration and `now` become the last
    /// session's, and the time of the first session is set to the session's
    /// start unless it was set before. Fails, changing nothing, exactly
    /// when the session is unknown, its game is not stored, the duration is
    /// negative or a counter would overflow.
    pub fn end_session(&mut self, session_id: u64, duration_secs: i64, now: i64) -> (r: Result<
        (),
        AppError,
    >)
        ensures
            match r {
                Ok(_) => can_end(old(self)@, session_id, duration_secs) && final(self)@ == after_end(
                    old(self)@,
                    session_id,
                    duration_secs,
                    now,
                ),
                Err(e) => !can_end(old(self)@, session_id, duration_secs) && final(self)@ == old(
                    self,
                )@ && e@ == end_failure(old(self)@, session_id, duration_secs),
            },
    {
        if session_id < 1 || session_id > self.sessions.len() as u64 {
            return Err(AppError::new(String::from_str("Failed to end game session")));
        }
        let index: usize = (session_id - 1) as usize;
        assert(self.sessions.deep_view()[index as int] == self.sessions[index as int]@);
        let record = self.sessions[index].clone();
        let game = match self.get_game(record.game_id.as_str()) {
            Some(g) => g,
            None => {
                return Err(AppError::new(String::from_str("Failed to update game stats")));
            },
        };
        let stats = match game.stats.record_session(record.start_time, duration_secs, now) {
            Ok(s) => s,
            Err(e) => {
                return Err(e);
            },
        };
        let mut sessions = self.copy_sessions();
        let ghost before = sessions.deep_view();
        let closed = SessionRecord {
            id: record.id,
            game_id: record.game_id.clone(),
            start_time: record.start_time,
            end_time: Some(now),
            duration: Some(duration_secs),
        };
        sessions.set(index, closed);
        proof {
            use_type_invariant(&*self);
            assert(sessions.deep_view() =~= before.update(
                index as int,
                SessionRecordView {
                    end_time: Some(now),
                    duration: Some(duration_secs),
                    ..before[index as int]
                },
            ));
        }
        self.sessions = sessions;
        let mut game = game;
        game.stats = stats;
        self.store_game(&game);
        Ok(())
    }
}

} // verus!

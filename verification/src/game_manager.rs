//! The orchestrator: reconciles what the scanners found with what is
//! stored, adds user-supplied games, and keeps the stored library and the
//! session monitor together.

use vstd::prelude::*;
use crate::database::{
    after_end, can_end, end_failure, entry, keyed, lists, started, unique_ids, Database, DatabaseView,
};
use crate::error::AppError;
use crate::models::{
    after_session, game_id_of, CustomGameConfig, Game, GameInstallation, GameInstallationView,
    GameMedia, GameMediaView, GameMetadata, GameMetadataView, GameStats, GameView, Platform,
};
use crate::launch::{transition, step, LaunchAction, LaunchEvent, LaunchState};
use crate::monitor::{
    candidate_names, correlated, ended_of, still_running, with_session, EndedSession, EndedView,
    GameMonitor, SessionView, WindowInfo,
};
use crate::platforms::battlenet::BattleNetPlatform;
use crate::platforms::epic::EpicPlatform;
use crate::platforms::steam::SteamPlatform;
use crate::platforms::custom::{direct_command, CustomGameLauncher};
use crate::platforms::traits::{command, LaunchCommand, LaunchCommandView, ScanInput};
use crate::snapshot::{DiskSnapshot, DiskView};
use crate::text::{
    concat2, contains_string, first_index_of, has_prefix, lemma_first_index_of, same_opt_text,
    same_text, stripped_prefix,
};

verus! {

/// The ids of a run of games, in order.
pub open spec fn ids_of(games: Seq<GameView>) -> Seq<Seq<char>> {
    Seq::new(games.len(), |i: int| games[i].id)
}

/// Whether a scan found a game installed otherwise than it is stored: in
/// another version or at another path.
pub open spec fn installation_changed(stored: GameView, scanned: GameView) -> bool {
    stored.installation.version != scanned.installation.version
        || stored.installation.install_path != scanned.installation.install_path
}

/// The record that results from a scanned game and what is stored under
/// its id.
///
/// A new game is taken as scanned. A stored game whose installation has
/// not changed stays as it is stored. One whose installation has changed
/// takes the scanned identity, title and installation, and keeps its
/// stored metadata, media, statistics and time of last play.
pub open spec fn reconciled(stored: Option<GameView>, scanned: GameView) -> GameView {
    match stored {
        Some(e) => if installation_changed(e, scanned) {
            GameView {
                installation: scanned.installation,
                metadata: e.metadata,
                media: e.media,
                stats: e.stats,
                last_played: e.last_played,
                ..scanned
            }
        } else {
            e
        },
        None => scanned,
    }
}

/// The table after the scanned games are merged into it, in order. Of
/// several scanned games with the same id only the first counts.
pub open spec fn merged(table: Map<Seq<char>, GameView>, scanned: Seq<GameView>) -> Map<
    Seq<char>,
    GameView,
>
    decreases scanned.len(),
{
    if scanned.len() == 0 {
        table
    } else {
        let prev = merged(table, scanned.drop_last());
        let s = scanned.last();
        if ids_of(scanned.drop_last()).contains(s.id) {
            prev
        } else {
            prev.insert(s.id, reconciled(entry(prev, s.id), s))
        }
    }
}

/// The games that a scan reports: one record per scanned id, in the order
/// of first appearance.
pub open spec fn merge_results(table: Map<Seq<char>, GameView>, scanned: Seq<GameView>) -> Seq<
    GameView,
>
    decreases scanned.len(),
{
    if scanned.len() == 0 {
        Seq::empty()
    } else {
        let prev = merged(table, scanned.drop_last());
        let rest = merge_results(table, scanned.drop_last());
        let s = scanned.last();
        if ids_of(scanned.drop_last()).contains(s.id) {
            rest
        } else {
            rest.push(reconciled(entry(prev, s.id), s))
        }
    }
}

/// A stored game is stale when it is no user-added game, the scan did not
/// find it, and its install path is gone from the disk.
pub open spec fn is_stale(g: GameView, scanned_ids: Seq<Seq<char>>, disk: DiskView) -> bool {
    g.platform != Platform::Custom && !scanned_ids.contains(g.id) && !disk.has_path(
        g.installation.install_path,
    )
}

/// The table without its stale games.
pub open spec fn swept(table: Map<Seq<char>, GameView>, scanned_ids: Seq<Seq<char>>, disk: DiskView) -> Map<
    Seq<char>,
    GameView,
> {
    Map::new(
        |id: Seq<char>| table.dom().contains(id) && !is_stale(table[id], scanned_ids, disk),
        |id: Seq<char>| table[id],
    )
}

/// The table after a scan: the scanned games merged in, the stale ones
/// removed.
pub open spec fn rescanned(table: Map<Seq<char>, GameView>, scanned: Seq<GameView>, disk: DiskView) -> Map<
    Seq<char>,
    GameView,
> {
    swept(merged(table, scanned), ids_of(scanned), disk)
}

/// The table after the stale games among `candidates` are removed one by
/// one.
pub open spec fn swept_each(
    table: Map<Seq<char>, GameView>,
    candidates: Seq<GameView>,
    scanned_ids: Seq<Seq<char>>,
    disk: DiskView,
) -> Map<Seq<char>, GameView>
    decreases candidates.len(),
{
    if candidates.len() == 0 {
        table
    } else {
        let prev = swept_each(table, candidates.drop_last(), scanned_ids, disk);
        if is_stale(candidates.last(), scanned_ids, disk) {
            prev.remove(candidates.last().id)
        } else {
            prev
        }
    }
}

/// An id is among the ids of a run of games exactly when it is the last
/// game's or among the others'.
pub proof fn lemma_ids_of_last(games: Seq<GameView>, id: Seq<char>)
    requires
        games.len() > 0,
    ensures
        ids_of(games).contains(id) <==> (ids_of(games.drop_last()).contains(id) || games.last().id
            == id),
{
    let all = ids_of(games);
    let init = ids_of(games.drop_last());
    if all.contains(id) {
        let i = choose|i: int| 0 <= i < all.len() && all[i] == id;
        if i < games.len() - 1 {
            assert(init[i] == id);
        }
    }
    if init.contains(id) {
        let i = choose|i: int| 0 <= i < init.len() && init[i] == id;
        assert(all[i] == id);
    }
    if games.last().id == id {
        assert(all[games.len() - 1] == id);
    }
}

/// What merging does to one id.
///
/// The id is in the merged table exactly when it was stored or scanned. A
/// game that was stored and not scanned is untouched. A game that was
/// stored keeps its metadata, media, statistics and time of last play
/// whatever the scan found. In a table keyed by id, every merged game is
/// stored under its own id.
pub proof fn lemma_merged_at(table: Map<Seq<char>, GameView>, scanned: Seq<GameView>, id: Seq<char>)
    ensures
        merged(table, scanned).dom().contains(id) <==> (table.dom().contains(id) || ids_of(
            scanned,
        ).contains(id)),
        table.dom().contains(id) && !ids_of(scanned).contains(id) ==> merged(table, scanned)[id]
            == table[id],
        table.dom().contains(id) ==> {
            &&& merged(table, scanned)[id].metadata == table[id].metadata
            &&& merged(table, scanned)[id].media == table[id].media
            &&& merged(table, scanned)[id].stats == table[id].stats
            &&& merged(table, scanned)[id].last_played == table[id].last_played
        },
        keyed(table) && merged(table, scanned).dom().contains(id) ==> merged(table, scanned)[id].id
            == id,
    decreases scanned.len(),
{
    if scanned.len() > 0 {
        lemma_merged_at(table, scanned.drop_last(), id);
        lemma_ids_of_last(scanned, id);
    }
}

/// Merging keeps a table keyed by id.
pub proof fn lemma_merged_keyed(table: Map<Seq<char>, GameView>, scanned: Seq<GameView>)
    requires
        keyed(table),
    ensures
        keyed(merged(table, scanned)),
{
    assert forall|id: Seq<char>| #[trigger]
        merged(table, scanned).dom().contains(id) implies merged(table, scanned)[id].id == id by {
        lemma_merged_at(table, scanned, id);
    }
}

/// What a scan reports for a run of games with distinct ids: one record
/// per scanned game, in order, each reconciled with what was stored under
/// its id before the scan; and that record is what the table then holds.
pub proof fn lemma_merge_results(table: Map<Seq<char>, GameView>, scanned: Seq<GameView>)
    requires
        unique_ids(scanned),
    ensures
        merge_results(table, scanned).len() == scanned.len(),
        forall|i: int|
            0 <= i < scanned.len() ==> #[trigger] merge_results(table, scanned)[i] == reconciled(
                entry(table, scanned[i].id),
                scanned[i],
            ) && merged(table, scanned).dom().contains(scanned[i].id) && merged(
                table,
                scanned,
            )[scanned[i].id] == merge_results(table, scanned)[i],
    decreases scanned.len(),
{
    if scanned.len() > 0 {
        let init = scanned.drop_last();
        let s = scanned.last();
        assert forall|i: int, j: int| 0 <= i < j < init.len() implies (#[trigger] init[i]).id != (
        #[trigger] init[j]).id by {
            assert(scanned[i].id != scanned[j].id);
        }
        lemma_merge_results(table, init);
        if ids_of(init).contains(s.id) {
            let i = choose|i: int| 0 <= i < ids_of(init).len() && ids_of(init)[i] == s.id;
            assert(scanned[i].id != scanned[scanned.len() - 1].id);
        }
        lemma_merged_at(table, init, s.id);
        assert forall|i: int| 0 <= i < scanned.len() implies #[trigger] merge_results(
            table,
            scanned,
        )[i] == reconciled(entry(table, scanned[i].id), scanned[i]) && merged(
            table,
            scanned,
        ).dom().contains(scanned[i].id) && merged(table, scanned)[scanned[i].id] == merge_results(
            table,
            scanned,
        )[i] by {
            if i < init.len() {
                assert(init[i] == scanned[i]);
                assert(merge_results(table, scanned)[i] == merge_results(table, init)[i]);
                assert(scanned[i].id != scanned[scanned.len() - 1].id);
            }
        }
    }
}

/// The reported games have distinct ids, whatever was scanned, provided
/// the table is keyed by id.
pub proof fn lemma_results_unique(table: Map<Seq<char>, GameView>, scanned: Seq<GameView>)
    requires
        keyed(table),
    ensures
        unique_ids(merge_results(table, scanned)),
        forall|k: int|
            0 <= k < merge_results(table, scanned).len() ==> ids_of(scanned).contains(
                (#[trigger] merge_results(table, scanned)[k]).id,
            ),
    decreases scanned.len(),
{
    if scanned.len() > 0 {
        let init = scanned.drop_last();
        let s = scanned.last();
        lemma_results_unique(table, init);
        lemma_merged_keyed(table, init);
        let rest = merge_results(table, init);
        let all = merge_results(table, scanned);
        assert forall|k: int| 0 <= k < all.len() implies ids_of(scanned).contains(
            (#[trigger] all[k]).id,
        ) by {
            if k < rest.len() {
                assert(all[k] == rest[k]);
                lemma_ids_of_last(scanned, all[k].id);
            } else {
                assert(all[k].id == s.id);
                lemma_ids_of_last(scanned, s.id);
            }
        }
        assert forall|a: int, b: int| 0 <= a < b < all.len() implies (#[trigger] all[a]).id != (
        #[trigger] all[b]).id by {
            if b < rest.len() {
                assert(rest[a].id != rest[b].id);
            } else {
                assert(all[a] == rest[a]);
                assert(ids_of(init).contains(rest[a].id));
            }
        }
    }
}

/// Removing the stale games one by one, over a list of the whole table,
/// leaves exactly the table without its stale games.
pub proof fn lemma_swept_each(
    table: Map<Seq<char>, GameView>,
    candidates: Seq<GameView>,
    scanned_ids: Seq<Seq<char>>,
    disk: DiskView,
)
    requires
        forall|i: int|
            0 <= i < candidates.len() ==> table.dom().contains((#[trigger] candidates[i]).id)
                && table[candidates[i].id] == candidates[i],
    ensures
        forall|id: Seq<char>| #[trigger]
            swept_each(table, candidates, scanned_ids, disk).dom().contains(id) <==> (
            table.dom().contains(id) && !(exists|i: int|
                0 <= i < candidates.len() && candidates[i].id == id && is_stale(
                    candidates[i],
                    scanned_ids,
                    disk,
                ))),
        forall|id: Seq<char>| #[trigger]
            swept_each(table, candidates, scanned_ids, disk).dom().contains(id) ==> swept_each(
                table,
                candidates,
                scanned_ids,
                disk,
            )[id] == table[id],
    decreases candidates.len(),
{
    if candidates.len() > 0 {
        let init = candidates.drop_last();
        let last = candidates.last();
        assert forall|i: int| 0 <= i < init.len() implies table.dom().contains(
            (#[trigger] init[i]).id,
        ) && table[init[i].id] == init[i] by {
            assert(init[i] == candidates[i]);
        }
        lemma_swept_each(table, init, scanned_ids, disk);
        let prev = swept_each(table, init, scanned_ids, disk);
        let now = swept_each(table, candidates, scanned_ids, disk);
        assert forall|id: Seq<char>| #[trigger] now.dom().contains(id) <==> (table.dom().contains(id)
            && !(exists|i: int|
            0 <= i < candidates.len() && candidates[i].id == id && is_stale(
                candidates[i],
                scanned_ids,
                disk,
            ))) by {
            let hit_init = exists|i: int|
                0 <= i < init.len() && init[i].id == id && is_stale(init[i], scanned_ids, disk);
            let hit_all = exists|i: int|
                0 <= i < candidates.len() && candidates[i].id == id && is_stale(
                    candidates[i],
                    scanned_ids,
                    disk,
                );
            assert(prev.dom().contains(id) <==> (table.dom().contains(id) && !hit_init));
            if hit_init {
                let i = choose|i: int|
                    0 <= i < init.len() && init[i].id == id && is_stale(init[i], scanned_ids, disk);
                assert(candidates[i] == init[i]);
                assert(hit_all);
            }
            if last.id == id && is_stale(last, scanned_ids, disk) {
                assert(candidates[candidates.len() - 1] == last);
                assert(hit_all);
            }
            if hit_all {
                let i = choose|i: int|
                    0 <= i < candidates.len() && candidates[i].id == id && is_stale(
                        candidates[i],
                        scanned_ids,
                        disk,
                    );
                if i < init.len() {
                    assert(init[i] == candidates[i]);
                    assert(hit_init);
                }
            }
        }
    }
}

/// Over a list of the whole table, one-by-one removal and the table
/// without its stale games agree.
pub proof fn lemma_swept_each_is_swept(
    table: Map<Seq<char>, GameView>,
    candidates: Seq<GameView>,
    scanned_ids: Seq<Seq<char>>,
    disk: DiskView,
)
    requires
        lists(candidates, table),
    ensures
        swept_each(table, candidates, scanned_ids, disk) == swept(table, scanned_ids, disk),
{
    lemma_swept_each(table, candidates, scanned_ids, disk);
    let a = swept_each(table, candidates, scanned_ids, disk);
    let b = swept(table, scanned_ids, disk);
    assert forall|id: Seq<char>| a.dom().contains(id) <==> b.dom().contains(id) by {
        if table.dom().contains(id) {
            let i = choose|i: int| 0 <= i < candidates.len() && candidates[i].id == id;
            assert(table[candidates[i].id] == candidates[i]);
            if is_stale(table[id], scanned_ids, disk) {
                assert(0 <= i < candidates.len() && candidates[i].id == id && is_stale(
                    candidates[i],
                    scanned_ids,
                    disk,
                ));
            }
            if a.dom().contains(id) && is_stale(table[id], scanned_ids, disk) {
                assert(false);
            }
            if !a.dom().contains(id) {
                let k = choose|k: int|
                    0 <= k < candidates.len() && candidates[k].id == id && is_stale(
                        candidates[k],
                        scanned_ids,
                        disk,
                    );
                assert(table[candidates[k].id] == candidates[k]);
            }
        }
    }
    assert(a =~= b);
}

/// Rescanning never alters what was added to a stored game after its
/// discovery: a game that is stored before a scan and still stored after
/// it has the same metadata, media, statistics and time of last play.
pub proof fn lemma_rescan_keeps_enrichment(
    table: Map<Seq<char>, GameView>,
    scanned: Seq<GameView>,
    disk: DiskView,
    id: Seq<char>,
)
    requires
        table.dom().contains(id),
        rescanned(table, scanned, disk).dom().contains(id),
    ensures
        rescanned(table, scanned, disk)[id].metadata == table[id].metadata,
        rescanned(table, scanned, disk)[id].media == table[id].media,
        rescanned(table, scanned, disk)[id].stats == table[id].stats,
        rescanned(table, scanned, disk)[id].last_played == table[id].last_played,
{
    lemma_merged_at(table, scanned, id);
}

/// A stored game that a scan does not find and whose install path is gone
/// is removed by the scan, unless it is a user-added game: that one stays
/// as it is.
pub proof fn lemma_rescan_drops_uninstalled(
    table: Map<Seq<char>, GameView>,
    scanned: Seq<GameView>,
    disk: DiskView,
    id: Seq<char>,
)
    requires
        keyed(table),
        table.dom().contains(id),
        !ids_of(scanned).contains(id),
        !disk.has_path(table[id].installation.install_path),
    ensures
        table[id].platform != Platform::Custom ==> !rescanned(table, scanned, disk).dom().contains(
            id,
        ),
        table[id].platform == Platform::Custom ==> rescanned(table, scanned, disk).dom().contains(id)
            && rescanned(table, scanned, disk)[id] == table[id],
{
    lemma_merged_at(table, scanned, id);
}

/// A stored game is never removed while its install path exists or a scan
/// finds it.
pub proof fn lemma_rescan_keeps_installed(
    table: Map<Seq<char>, GameView>,
    scanned: Seq<GameView>,
    disk: DiskView,
    id: Seq<char>,
)
    requires
        keyed(table),
        table.dom().contains(id),
        ids_of(scanned).contains(id) || disk.has_path(table[id].installation.install_path),
    ensures
        rescanned(table, scanned, disk).dom().contains(id),
{
    lemma_merged_at(table, scanned, id);
    lemma_merged_keyed(table, scanned);
    if !ids_of(scanned).contains(id) {
        assert(merged(table, scanned)[id] == table[id]);
    }
}

/// A scan that finds a stored game where and as it is stored reports the
/// stored record itself, and stores nothing else under its id.
pub proof fn lemma_unchanged_rescan(
    table: Map<Seq<char>, GameView>,
    scanned: Seq<GameView>,
    disk: DiskView,
    i: int,
)
    requires
        keyed(table),
        unique_ids(scanned),
        0 <= i < scanned.len(),
        table.dom().contains(scanned[i].id),
        !installation_changed(table[scanned[i].id], scanned[i]),
    ensures
        merge_results(table, scanned).len() == scanned.len(),
        merge_results(table, scanned)[i] == table[scanned[i].id],
        rescanned(table, scanned, disk).dom().contains(scanned[i].id),
        rescanned(table, scanned, disk)[scanned[i].id] == table[scanned[i].id],
{
    lemma_merge_results(table, scanned);
    assert(ids_of(scanned)[i] == scanned[i].id);
    lemma_merged_keyed(table, scanned);
}

/// What the three scanners find in what was read: the content-delivery
/// client's games, then the social-gaming client's, then the storefront's.
/// Without a configuration the social-gaming client has none.
pub open spec fn scanned_by_all(steam: SteamPlatform, battlenet: BattleNetPlatform, input: ScanInput) -> Seq<
    GameView,
> {
    crate::platforms::steam::scan_of(steam.scanner@, input.disk@) + (match input.battlenet_config {
        Some(c) => crate::platforms::battlenet::scan_of(battlenet.scanner.known(), c@, input.disk@),
        None => Seq::empty(),
    }) + crate::platforms::epic::games_of(input.epic_manifests.deep_view())
}

/// What merging stores under a scanned id: the first scanned game of that
/// id, reconciled with what was stored under the id before.
pub proof fn lemma_merged_first(table: Map<Seq<char>, GameView>, scanned: Seq<GameView>, id: Seq<char>)
    requires
        ids_of(scanned).contains(id),
    ensures
        first_index_of(ids_of(scanned), id) is Some,
        0 <= first_index_of(ids_of(scanned), id)->0 < scanned.len(),
        scanned[first_index_of(ids_of(scanned), id)->0].id == id,
        merged(table, scanned).dom().contains(id),
        merged(table, scanned)[id] == reconciled(
            entry(table, id),
            scanned[first_index_of(ids_of(scanned), id)->0],
        ),
    decreases scanned.len(),
{
    lemma_first_index_of(ids_of(scanned), id);
    if scanned.len() > 0 {
        let init = scanned.drop_last();
        assert(ids_of(scanned).drop_last() =~= ids_of(init));
        lemma_ids_of_last(scanned, id);
        lemma_merged_at(table, init, id);
        if ids_of(init).contains(id) {
            lemma_merged_first(table, init, id);
            lemma_first_index_of(ids_of(init), id);
            let i = first_index_of(ids_of(init), id)->0;
            assert(init[i] == scanned[i]);
            if scanned.last().id != id {
                lemma_merged_at(table, init, scanned.last().id);
            }
        } else {
            lemma_first_index_of(ids_of(init), id);
            assert(first_index_of(ids_of(init), id) is None);
        }
    }
}

/// Rescanning is idempotent: a second scan that finds what the first one
/// found, on the same disk, changes nothing.
pub proof fn lemma_rescan_idempotent(table: Map<Seq<char>, GameView>, scanned: Seq<GameView>, disk: DiskView)
    requires
        keyed(table),
    ensures
        rescanned(rescanned(table, scanned, disk), scanned, disk) == rescanned(table, scanned, disk),
{
    let ids = ids_of(scanned);
    let once = rescanned(table, scanned, disk);
    let again = merged(once, scanned);
    lemma_merged_keyed(table, scanned);
    assert forall|id: Seq<char>| again.dom().contains(id) <==> once.dom().contains(id) by {
        lemma_merged_at(once, scanned, id);
        lemma_merged_at(table, scanned, id);
        if ids.contains(id) {
            assert(merged(table, scanned)[id].id == id);
        }
    }
    assert forall|id: Seq<char>| once.dom().contains(id) implies again[id] == once[id] by {
        lemma_merged_at(once, scanned, id);
        if ids.contains(id) {
            lemma_merged_first(table, scanned, id);
            lemma_merged_first(once, scanned, id);
        }
    }
    assert(again =~= once);
    assert(swept(once, ids, disk) =~= once);
}

/// The command that starts a game, or the reason why there is none.
///
/// A user-added game is started from its executable. A game of the
/// content-delivery client or of the storefront is started through a
/// protocol address that carries its native id; a title of the
/// social-gaming client is started by the client, given its launch code.
pub open spec fn start_command_of(game: Game, steam: SteamPlatform, battlenet: BattleNetPlatform) -> Result<
    LaunchCommandView,
    Seq<char>,
> {
    match game.platform {
        Platform::Custom => direct_command(game@.installation.executable),
        Platform::Steam => match crate::platforms::steam::app_id_of(game@.id) {
            Some(app_id) => Ok(crate::platforms::steam::shell("start steam://run/"@ + app_id)),
            None => Err("Invalid Steam game ID format: "@ + game@.id),
        },
        Platform::BattleNet => match crate::platforms::battlenet::launch_info_of(game@.id) {
            None => Err("Unsupported Battle.net game: "@ + game@.id),
            Some(info) => match battlenet.launcher.client() {
                Some(client) => Ok(command(client, seq!["--exec"@, "launch "@ + info.launch_code])),
                None => Err("Battle.net launcher not found"@),
            },
        },
        Platform::Epic => match stripped_prefix(game@.id, "epic_"@) {
            Some(name) => Ok(crate::platforms::epic::launch_command_of(name)),
            None => Err("Invalid Epic game ID format"@),
        },
    }
}

/// A scanned game carries the id that its platform and its native id
/// determine, and is no user-added game.
pub open spec fn is_platform_game(g: GameView) -> bool {
    g.platform != Platform::Custom && g.id == game_id_of(g.platform, g.platform_id)
}

/// A game's id has the form that its kind calls for: the fixed prefix for
/// a user-added game, and the platform's prefix with the native id for any
/// other.
pub open spec fn id_fits(g: GameView) -> bool {
    if g.platform == Platform::Custom {
        has_prefix(g.id, "custom_"@)
    } else {
        g.id == game_id_of(g.platform, g.platform_id)
    }
}

/// Every game of a table has an id of the form its kind calls for.
pub open spec fn table_fits(table: Map<Seq<char>, GameView>) -> bool {
    forall|id: Seq<char>| #[trigger] table.dom().contains(id) ==> id_fits(table[id])
}

/// The id of a platform's game never has the form of a user-added game's.
pub proof fn lemma_platform_id_is_no_custom_id(g: GameView)
    requires
        is_platform_game(g),
    ensures
        !has_prefix(g.id, "custom_"@),
{
    reveal_strlit("steam_");
    reveal_strlit("battlenet_");
    reveal_strlit("epic_");
    reveal_strlit("custom_");
    assert(g.id[0] == g.platform.id_prefix()[0]);
    if has_prefix(g.id, "custom_"@) {
        assert(g.id.subrange(0, 7)[0] == 'c');
    }
}

/// Ids keep their form across scans: where the stored games and the
/// scanned games have ids of the form their kind calls for, so have the
/// games that a scan reports and the games that are stored after it.
pub proof fn lemma_rescan_keeps_id_form(
    table: Map<Seq<char>, GameView>,
    scanned: Seq<GameView>,
    disk: DiskView,
)
    requires
        table_fits(table),
        forall|i: int| 0 <= i < scanned.len() ==> id_fits(#[trigger] scanned[i]),
    ensures
        table_fits(merged(table, scanned)),
        table_fits(rescanned(table, scanned, disk)),
        forall|k: int|
            0 <= k < merge_results(table, scanned).len() ==> id_fits(
                #[trigger] merge_results(table, scanned)[k],
            ),
    decreases scanned.len(),
{
    if scanned.len() > 0 {
        let init = scanned.drop_last();
        assert forall|i: int| 0 <= i < init.len() implies id_fits(#[trigger] init[i]) by {
            assert(init[i] == scanned[i]);
        }
        lemma_rescan_keeps_id_form(table, init, disk);
        let s = scanned.last();
        assert(id_fits(scanned[scanned.len() - 1]));
        let prev = merged(table, init);
        let rest = merge_results(table, init);
        let all = merge_results(table, scanned);
        assert forall|k: int| 0 <= k < all.len() implies id_fits(#[trigger] all[k]) by {
            if k < rest.len() {
                assert(all[k] == rest[k]);
            }
        }
    }
}

/// What a scan of the platforms reports, in a keyed table whose ids have
/// their form: every reported game is a game of a platform, under the id
/// that the platform and its native id determine.
pub proof fn lemma_scan_reports_platform_games(table: Map<Seq<char>, GameView>, scanned: Seq<GameView>)
    requires
        keyed(table),
        table_fits(table),
        forall|i: int| 0 <= i < scanned.len() ==> is_platform_game(#[trigger] scanned[i]),
    ensures
        forall|k: int|
            0 <= k < merge_results(table, scanned).len() ==> is_platform_game(
                #[trigger] merge_results(table, scanned)[k],
            ),
    decreases scanned.len(),
{
    if scanned.len() > 0 {
        let init = scanned.drop_last();
        assert forall|i: int| 0 <= i < init.len() implies is_platform_game(#[trigger] init[i]) by {
            assert(init[i] == scanned[i]);
        }
        assert forall|i: int| 0 <= i < init.len() implies id_fits(#[trigger] init[i]) by {}
        lemma_scan_reports_platform_games(table, init);
        lemma_rescan_keeps_id_form(table, init, DiskView::empty());
        lemma_merged_keyed(table, init);
        let s = scanned.last();
        assert(is_platform_game(scanned[scanned.len() - 1]));
        lemma_platform_id_is_no_custom_id(s);
        let prev = merged(table, init);
        let rest = merge_results(table, init);
        let all = merge_results(table, scanned);
        assert forall|k: int| 0 <= k < all.len() implies is_platform_game(#[trigger] all[k]) by {
            if k < rest.len() {
                assert(all[k] == rest[k]);
            } else {
                if prev.dom().contains(s.id) {
                    assert(prev[s.id].id == s.id);
                    assert(id_fits(prev[s.id]));
                }
            }
        }
    }
}

/// A user-added game is never rewritten nor removed by a scan of the
/// platforms: no platform's game carries its id.
pub proof fn lemma_rescan_keeps_custom(
    table: Map<Seq<char>, GameView>,
    scanned: Seq<GameView>,
    disk: DiskView,
    id: Seq<char>,
)
    requires
        table.dom().contains(id),
        table[id].platform == Platform::Custom,
        has_prefix(id, "custom_"@),
        forall|i: int| 0 <= i < scanned.len() ==> is_platform_game(#[trigger] scanned[i]),
    ensures
        rescanned(table, scanned, disk).dom().contains(id),
        rescanned(table, scanned, disk)[id] == table[id],
{
    if ids_of(scanned).contains(id) {
        let i = choose|i: int| 0 <= i < ids_of(scanned).len() && ids_of(scanned)[i] == id;
        lemma_platform_id_is_no_custom_id(scanned[i]);
    }
    lemma_merged_at(table, scanned, id);
}

/// The id of the user-added game that is made with an identifier.
pub open spec fn custom_id_of(unique: Seq<char>) -> Seq<char> {
    "custom_"@ + unique
}

/// A time of the monitor's clock as the database writes it: the same
/// count of seconds, or the largest count the database holds.
pub open spec fn as_time(t: u64) -> i64 {
    if t <= i64::MAX {
        t as i64
    } else {
        i64::MAX
    }
}

/// A closed session is recorded when its duration is known and is a
/// count the database holds.
pub open spec fn is_recordable(e: EndedView) -> bool {
    e.duration_secs is Some && e.duration_secs->0 <= i64::MAX
}

/// The database with a session of the closed game opened at its start.
pub open spec fn opened(db: DatabaseView, e: EndedView) -> DatabaseView {
    DatabaseView {
        games: db.games,
        sessions: db.sessions.push(
            started((db.sessions.len() + 1) as u64, e.game_id, as_time(e.start_time)),
        ),
    }
}

/// The database after a closed session is recorded.
///
/// A session whose duration is not known is not recorded. Any other is
/// entered in the history with its start; then it is closed with its
/// duration, which adds it to the statistics of its game. Where it cannot
/// be closed it stays in the history, open.
pub open spec fn recorded(db: DatabaseView, e: EndedView, now: u64) -> DatabaseView {
    if !is_recordable(e) || db.sessions.len() + 1 > u64::MAX {
        db
    } else {
        let id = (db.sessions.len() + 1) as u64;
        let duration = e.duration_secs->0 as i64;
        if can_end(opened(db, e), id, duration) {
            after_end(opened(db, e), id, duration, as_time(now))
        } else {
            opened(db, e)
        }
    }
}

/// Why a closed session could not be recorded, if it could not.
pub open spec fn record_failure(db: DatabaseView, e: EndedView) -> Option<Seq<char>> {
    if !is_recordable(e) {
        None
    } else if db.sessions.len() + 1 > u64::MAX {
        Some("Failed to start game session"@)
    } else {
        let id = (db.sessions.len() + 1) as u64;
        let duration = e.duration_secs->0 as i64;
        if can_end(opened(db, e), id, duration) {
            None
        } else {
            Some(end_failure(opened(db, e), id, duration))
        }
    }
}

/// The database after a run of closed sessions is recorded, in order.
pub open spec fn recorded_all(db: DatabaseView, ended: Seq<EndedView>, now: u64) -> DatabaseView
    decreases ended.len(),
{
    if ended.len() == 0 {
        db
    } else {
        recorded(recorded_all(db, ended.drop_last(), now), ended.last(), now)
    }
}

/// The reasons why sessions of a run could not be recorded, in order.
pub open spec fn record_failures(db: DatabaseView, ended: Seq<EndedView>, now: u64) -> Seq<Seq<char>>
    decreases ended.len(),
{
    if ended.len() == 0 {
        Seq::empty()
    } else {
        let rest = record_failures(db, ended.drop_last(), now);
        match record_failure(recorded_all(db, ended.drop_last(), now), ended.last()) {
            Some(m) => rest.push(m),
            None => rest,
        }
    }
}

/// What recording a closed session leaves behind, where its game is
/// stored and its statistics have room: the history ends with the
/// session's record, which holds its start, its end and its duration, and
/// the game's statistics account for it.
pub proof fn lemma_recorded_session(db: DatabaseView, e: EndedView, now: u64)
    requires
        is_recordable(e),
        db.sessions.len() + 1 <= u64::MAX,
        db.games.dom().contains(e.game_id),
        crate::models::can_record(db.games[e.game_id].stats, e.duration_secs->0 as i64),
    ensures
        record_failure(db, e) is None,
        recorded(db, e, now).sessions.len() == db.sessions.len() + 1,
        recorded(db, e, now).sessions.last() == (crate::database::SessionRecordView {
            id: (db.sessions.len() + 1) as u64,
            game_id: e.game_id,
            start_time: as_time(e.start_time),
            end_time: Some(as_time(now)),
            duration: Some(e.duration_secs->0 as i64),
        }),
        recorded(db, e, now).games.dom().contains(e.game_id),
        recorded(db, e, now).games[e.game_id].stats == after_session(
            db.games[e.game_id].stats,
            as_time(e.start_time),
            e.duration_secs->0 as i64,
            as_time(now),
        ),
        forall|id: Seq<char>|
            id != e.game_id ==> entry(recorded(db, e, now).games, id) == entry(db.games, id),
{
    let o = opened(db, e);
    let id = (db.sessions.len() + 1) as u64;
    assert(o.sessions[id - 1] == started(id, e.game_id, as_time(e.start_time)));
}

/// From exit to record: when the one active session's process is seen to
/// have exited, the round closes it with the time elapsed since its start,
/// and recording the round leaves a session record with that duration and
/// statistics that account for it.
pub proof fn lemma_exit_is_recorded(
    db: DatabaseView,
    s: SessionView,
    statuses: Seq<(u32, Option<u32>)>,
    now: u64,
)
    requires
        !crate::monitor::is_running(statuses, s.process_id),
        now >= s.start_time,
        now - s.start_time <= i64::MAX,
        db.sessions.len() + 1 <= u64::MAX,
        db.games.dom().contains(s.game_id),
        crate::models::can_record(db.games[s.game_id].stats, (now - s.start_time) as i64),
    ensures
        still_running(seq![s], statuses) == Seq::<SessionView>::empty(),
        recorded_all(db, ended_of(seq![s], statuses, now), now).sessions.last().duration == Some(
            (now - s.start_time) as i64,
        ),
        recorded_all(db, ended_of(seq![s], statuses, now), now).sessions.last().game_id
            == s.game_id,
        recorded_all(db, ended_of(seq![s], statuses, now), now).games[s.game_id].stats.total_playtime
            == db.games[s.game_id].stats.total_playtime + (now - s.start_time),
{
    let one = seq![s];
    let none = Seq::<SessionView>::empty();
    let e = crate::monitor::ended(s, now);
    assert(one.drop_last() =~= none);
    assert(one.last() == s);
    assert(still_running(none, statuses) =~= none);
    assert(ended_of(none, statuses, now) =~= Seq::<EndedView>::empty());
    assert(still_running(one, statuses) =~= none);
    let closed = ended_of(one, statuses, now);
    assert(closed =~= seq![e]);
    assert(closed.drop_last() =~= Seq::<EndedView>::empty());
    assert(closed.last() == e);
    assert(recorded_all(db, closed.drop_last(), now) == db);
    lemma_recorded_session(db, e, now);
}

/// The outcome of one round of monitoring and recording.
#[derive(Debug)]
pub struct MonitorRound {
    /// The sessions that were closed in this round, oldest first.
    pub ended: Vec<EndedSession>,
    /// Why sessions of this round could not be recorded, in order.
    pub failed: Vec<AppError>,
    /// Whether the loop goes on: some session is still active.
    pub keep_polling: bool,
}

/// The record of a user-added game.
///
/// Its id is the fixed prefix followed by the fresh identifier, and serves
/// as its native id as well. The icon, if any, doubles as thumbnail.
pub open spec fn custom_game(
    title: Seq<char>,
    executable_path: Seq<char>,
    install_path: Seq<char>,
    icon_path: Option<Seq<char>>,
    unique: Seq<char>,
    disk: DiskView,
) -> GameView {
    GameView {
        id: custom_id_of(unique),
        platform_id: custom_id_of(unique),
        platform: Platform::Custom,
        title,
        installation: GameInstallationView {
            install_path,
            executable: Some(executable_path),
            size: disk.size_of(install_path),
            version: None,
            last_updated: None,
        },
        metadata: GameMetadataView::titled(title),
        media: GameMediaView { thumbnail: icon_path, icon: icon_path, ..GameMediaView::empty() },
        last_played: None,
        stats: GameStats::spec_zero(),
    }
}

/// Calls `uuid::Uuid::new_v4` and writes the identifier out in its
/// hyphenated lowercase form. The identifier is random: nothing is promised
/// of it.
#[verifier::external_body]
fn fresh_identifier() -> (r: String) {
    uuid::Uuid::new_v4().to_string()
}

/// Games kept in memory between scans, with the time they were read.
pub struct GameCache {
    games: Vec<Game>,
    last_update: u64,
}

impl GameCache {
    /// A cache of `games` as read at `last_update`, in seconds since the
    /// epoch.
    pub fn new(games: Vec<Game>, last_update: u64) -> (c: GameCache)
        ensures
            c.cached() == games.deep_view(),
            c.updated_at() == last_update,
    {
        GameCache { games, last_update }
    }

    /// The cached games.
    pub closed spec fn cached(&self) -> Seq<GameView> {
        self.games.deep_view()
    }

    /// When the cache was filled.
    pub closed spec fn updated_at(&self) -> u64 {
        self.last_update
    }

    /// The cached games.
    pub fn games(&self) -> (r: &Vec<Game>)
        ensures
            r.deep_view() == self.cached(),
    {
        &self.games
    }

    /// When the cache was filled.
    pub fn last_update(&self) -> (r: u64)
        ensures
            r == self.updated_at(),
    {
        self.last_update
    }
}

/// The stored library together with the session monitor.
pub struct GameManager {
    pub database: Database,
    pub game_monitor: GameMonitor,
}

impl GameManager {
    /// A manager over a database and a monitor.
    pub fn new(database: Database, game_monitor: GameMonitor) -> (m: GameManager)
        ensures
            m.database@ == database@,
            m.game_monitor@ == game_monitor@,
    {
        GameManager { database, game_monitor }
    }

    /// Brings the stored library up to date with what the scanners found.
    ///
    /// With `use_cache` nothing is merged: the stored games are returned
    /// as they are. Otherwise each scanned game is reconciled with the game
    /// stored under its id (see [`reconciled`]); of several scanned games
    /// with one id only the first counts. Then every stored game that is
    /// stale (see [`is_stale`]) is removed. The reconciled games are
    /// returned, one per scanned id, in the order of first appearance.
    pub fn scan_all_platforms(&mut self, use_cache: bool, scanned: &Vec<Game>, disk: &DiskSnapshot) -> (r:
        Vec<Game>)
        ensures
            final(self).game_monitor@ == old(self).game_monitor@,
            final(self).database@.sessions == old(self).database@.sessions,
            use_cache ==> final(self).database@ == old(self).database@ && lists(
                r.deep_view(),
                old(self).database@.games,
            ),
            !use_cache ==> final(self).database@.games == rescanned(
                old(self).database@.games,
                scanned.deep_view(),
                disk@,
            ) && r.deep_view() == merge_results(old(self).database@.games, scanned.deep_view())
                && unique_ids(r.deep_view()),
    {
        if use_cache {
            return self.database.get_all_games();
        }
        let ghost table = self.database@.games;
        let ghost all_scanned = scanned.deep_view();
        proof {
            self.database.lemma_keyed();
        }
        let mut found: Vec<String> = Vec::new();
        let mut results: Vec<Game> = Vec::new();
        let mut i: usize = 0;
        proof {
            assert(all_scanned.take(0) =~= Seq::empty());
            assert(found.deep_view() =~= ids_of(all_scanned.take(0)));
            assert(results.deep_view() =~= Seq::empty());
        }
        while i < scanned.len()
            invariant
                i <= scanned.len(),
                all_scanned == scanned.deep_view(),
                keyed(table),
                self.game_monitor@ == old(self).game_monitor@,
                self.database@.sessions == old(self).database@.sessions,
                self.database@.games == merged(table, all_scanned.take(i as int)),
                results.deep_view() == merge_results(table, all_scanned.take(i as int)),
                found.deep_view() == ids_of(all_scanned.take(i as int)),
            decreases scanned.len() - i,
        {
            let ghost prev = self.database@.games;
            let ghost results_before = results.deep_view();
            let ghost found_before = found.deep_view();
            proof {
                let next = all_scanned.take(i + 1);
                assert(next.drop_last() =~= all_scanned.take(i as int));
                assert(next.last() == scanned[i as int]@);
                lemma_merged_keyed(table, all_scanned.take(i as int));
            }
            let s = &scanned[i];
            if !contains_string(&found, s.id.as_str()) {
                match self.database.get_game(s.id.as_str()) {
                    Some(existing) => {
                        if !same_opt_text(&existing.installation.version, &s.installation.version)
                            || !same_text(
                            existing.installation.install_path.as_str(),
                            s.installation.install_path.as_str(),
                        ) {
                            let updated = Game {
                                id: s.id.clone(),
                                platform_id: s.platform_id.clone(),
                                platform: s.platform,
                                title: s.title.clone(),
                                installation: s.installation.clone(),
                                metadata: existing.metadata,
                                media: existing.media,
                                last_played: existing.last_played,
                                stats: existing.stats,
                            };
                            self.database.store_game(&updated);
                            results.push(updated);
                            assert(results.deep_view() =~= results_before.push(updated@));
                        } else {
                            assert(prev.insert(s@.id, existing@) =~= prev);
                            results.push(existing);
                            assert(results.deep_view() =~= results_before.push(existing@));
                        }
                    },
                    None => {
                        self.database.upsert_game(s);
                        results.push(s.clone());
                        assert(results.deep_view() =~= results_before.push(s@));
                    },
                }
            }
            found.push(s.id.clone());
            proof {
                assert(found.deep_view() =~= found_before.push(s@.id));
                assert(found_before.push(s@.id) =~= ids_of(all_scanned.take(i + 1)));
            }
            i += 1;
        }
        proof {
            assert(all_scanned.take(scanned.len() as int) =~= all_scanned);
            lemma_results_unique(table, all_scanned);
        }
        let all = self.database.get_all_games();
        let ghost merged_table = self.database@.games;
        let ghost ids = found.deep_view();
        let mut k: usize = 0;
        assert(all.deep_view().take(0) =~= Seq::empty());
        while k < all.len()
            invariant
                k <= all.len(),
                ids == found.deep_view(),
                self.game_monitor@ == old(self).game_monitor@,
                self.database@.sessions == old(self).database@.sessions,
                self.database@.games == swept_each(
                    merged_table,
                    all.deep_view().take(k as int),
                    ids,
                    disk@,
                ),
            decreases all.len() - k,
        {
            proof {
                let next = all.deep_view().take(k + 1);
                assert(next.drop_last() =~= all.deep_view().take(k as int));
                assert(next.last() == all[k as int]@);
            }
            let g = &all[k];
            let custom = match g.platform {
                Platform::Custom => true,
                _ => false,
            };
            if !custom && !contains_string(&found, g.id.as_str()) && !disk.has_path(
                g.installation.install_path.as_str(),
            ) {
                self.database.delete_game(g.id.as_str());
            }
            k += 1;
        }
        proof {
            assert(all.deep_view().take(all.len() as int) =~= all.deep_view());
            lemma_swept_each_is_swept(merged_table, all.deep_view(), ids, disk@);
        }
        results
    }

    /// Runs every scanner on what was read and brings the stored library
    /// up to date with what they find: see [`scanned_by_all`] and
    /// [`Self::scan_all_platforms`]. No scanner can make the scan fail.
    pub fn scan_platforms(
        &mut self,
        steam: &SteamPlatform,
        battlenet: &BattleNetPlatform,
        epic: &EpicPlatform,
        input: &ScanInput,
    ) -> (r: Vec<Game>)
        ensures
            final(self).game_monitor@ == old(self).game_monitor@,
            final(self).database@.sessions == old(self).database@.sessions,
            final(self).database@.games == rescanned(
                old(self).database@.games,
                scanned_by_all(*steam, *battlenet, *input),
                input.disk@,
            ),
            r.deep_view() == merge_results(
                old(self).database@.games,
                scanned_by_all(*steam, *battlenet, *input),
            ),
            unique_ids(r.deep_view()),
            table_fits(old(self).database@.games) ==> table_fits(final(self).database@.games)
                && forall|k: int| 0 <= k < r.len() ==> is_platform_game(#[trigger] r.deep_view()[k]),
    {
        let mut scanned = steam.scanner.scan_games(&input.disk);
        let ghost first = scanned.deep_view();
        assert forall|i: int| 0 <= i < first.len() implies is_platform_game(#[trigger] first[i]) by {
            assert(first[i] == scanned[i]@);
        }
        match &input.battlenet_config {
            Some(config) => {
                let mut found = battlenet.scanner.scan_games(config, &input.disk);
                let ghost second = found.deep_view();
                assert forall|i: int| 0 <= i < second.len() implies is_platform_game(
                    #[trigger] second[i],
                ) by {
                    assert(second[i] == found[i]@);
                }
                scanned.append(&mut found);
                assert(scanned.deep_view() =~= first + second);
            },
            None => {
                assert(scanned.deep_view() =~= first + Seq::empty());
            },
        }
        let ghost both = scanned.deep_view();
        let mut found = epic.scanner.scan_games(&input.epic_manifests);
        let ghost third = found.deep_view();
        assert forall|i: int| 0 <= i < third.len() implies is_platform_game(#[trigger] third[i]) by {
            assert(third[i] == found[i]@);
        }
        scanned.append(&mut found);
        assert(scanned.deep_view() =~= both + third);
        proof {
            let all = scanned.deep_view();
            let table = self.database@.games;
            self.database.lemma_keyed();
            assert forall|i: int| 0 <= i < all.len() implies is_platform_game(#[trigger] all[i]) by {
                if i < both.len() {
                    assert(all[i] == both[i]);
                } else {
                    assert(all[i] == third[i - both.len()]);
                }
            }
            if table_fits(table) {
                assert forall|i: int| 0 <= i < all.len() implies id_fits(#[trigger] all[i]) by {}
                lemma_rescan_keeps_id_form(table, all, input.disk@);
                lemma_scan_reports_platform_games(table, all);
            }
        }
        self.scan_all_platforms(false, &scanned, &input.disk)
    }

    /// The game stored under an id.
    pub fn get_game(&self, game_id: &str) -> (r: Option<Game>)
        ensures
            r.deep_view() == entry(self.database@.games, game_id@),
    {
        self.database.get_game(game_id)
    }

    /// Removes the game stored under an id, if any.
    pub fn delete_game(&mut self, game_id: &str)
        ensures
            final(self).database@.games == old(self).database@.games.remove(game_id@),
            final(self).database@.sessions == old(self).database@.sessions,
            final(self).game_monitor@ == old(self).game_monitor@,
    {
        self.database.delete_game(game_id);
    }

    /// Stores the metadata and media that were fetched for a game. For an
    /// id that is not stored nothing happens.
    pub fn update_game_metadata(&mut self, game_id: &str, metadata: &GameMetadata, media: &GameMedia)
        ensures
            final(self).game_monitor@ == old(self).game_monitor@,
            final(self).database@.sessions == old(self).database@.sessions,
            final(self).database@.games == match entry(old(self).database@.games, game_id@) {
                Some(g) => old(self).database@.games.insert(
                    game_id@,
                    crate::database::with_metadata(g, metadata@, Some(media@)),
                ),
                None => old(self).database@.games,
            },
    {
        let _ = self.database.update_metadata(game_id, metadata, Some(media));
    }

    /// Adds a user's own executable to the library under the id made of
    /// the fixed prefix and `unique`.
    ///
    /// Fails, storing nothing, exactly when the executable or the install
    /// directory is not on disk, or a game is stored under that id already;
    /// the three are looked at in that order. The size is the measured size
    /// of the install directory.
    pub fn add_custom_game_with_id(&mut self, config: &CustomGameConfig, unique: &str, disk: &DiskSnapshot) -> (r:
        Result<Game, AppError>)
        ensures
            final(self).game_monitor@ == old(self).game_monitor@,
            final(self).database@.sessions == old(self).database@.sessions,
            match r {
                Ok(g) => {
                    &&& disk@.has_path(config.executable_path@)
                    &&& disk@.has_path(config.install_path@)
                    &&& g@ == custom_game(
                        config.title@,
                        config.executable_path@,
                        config.install_path@,
                        config.icon_path.deep_view(),
                        unique@,
                        disk@,
                    )
                    &&& !old(self).database@.games.dom().contains(g@.id)
                    &&& final(self).database@.games == old(self).database@.games.insert(g@.id, g@)
                },
                Err(e) => {
                    &&& final(self).database@ == old(self).database@
                    &&& if !disk@.has_path(config.executable_path@) {
                        e@ == "Executable not found: "@ + config.executable_path@
                    } else if !disk@.has_path(config.install_path@) {
                        e@ == "Installation path not found: "@ + config.install_path@
                    } else {
                        old(self).database@.games.dom().contains(custom_id_of(unique@)) && e@
                            == "Game id already in use: "@ + custom_id_of(unique@)
                    }
                },
            },
    {
        if !disk.has_path(config.executable_path.as_str()) {
            return Err(
                AppError::new(concat2("Executable not found: ", config.executable_path.as_str())),
            );
        }
        if !disk.has_path(config.install_path.as_str()) {
            return Err(
                AppError::new(concat2("Installation path not found: ", config.install_path.as_str())),
            );
        }
        let custom_id = concat2("custom_", unique);
        if self.database.get_game(custom_id.as_str()).is_some() {
            return Err(AppError::new(concat2("Game id already in use: ", custom_id.as_str())));
        }
        let base = GameMedia::empty();
        let game = Game {
            id: custom_id.clone(),
            platform_id: custom_id,
            platform: Platform::Custom,
            title: config.title.clone(),
            installation: GameInstallation {
                install_path: config.install_path.clone(),
                executable: Some(config.executable_path.clone()),
                size: disk.folder_size(config.install_path.as_str()),
                version: None,
                last_updated: None,
            },
            metadata: GameMetadata::titled(config.title.clone()),
            media: GameMedia {
                thumbnail: crate::models::clone_opt_string(&config.icon_path),
                cover: None,
                screenshots: base.screenshots,
                background: None,
                icon: crate::models::clone_opt_string(&config.icon_path),
                logo: None,
            },
            last_played: None,
            stats: GameStats::zero(),
        };
        self.database.upsert_game(&game);
        Ok(game)
    }

    /// Adds a user's own executable to the library under a fresh random
    /// id: see [`Self::add_custom_game_with_id`], which this calls with an
    /// identifier it draws. The id that is given is new to the library: a
    /// draw that hits a stored id fails.
    pub fn add_custom_game(&mut self, config: &CustomGameConfig, disk: &DiskSnapshot) -> (r: Result<
        Game,
        AppError,
    >)
        ensures
            final(self).game_monitor@ == old(self).game_monitor@,
            final(self).database@.sessions == old(self).database@.sessions,
            match r {
                Ok(g) => {
                    &&& disk@.has_path(config.executable_path@)
                    &&& disk@.has_path(config.install_path@)
                    &&& exists|unique: Seq<char>|
                        g@ == custom_game(
                            config.title@,
                            config.executable_path@,
                            config.install_path@,
                            config.icon_path.deep_view(),
                            unique,
                            disk@,
                        )
                    &&& !old(self).database@.games.dom().contains(g@.id)
                    &&& final(self).database@.games == old(self).database@.games.insert(g@.id, g@)
                },
                Err(e) => {
                    &&& final(self).database@ == old(self).database@
                    &&& if !disk@.has_path(config.executable_path@) {
                        e@ == "Executable not found: "@ + config.executable_path@
                    } else if !disk@.has_path(config.install_path@) {
                        e@ == "Installation path not found: "@ + config.install_path@
                    } else {
                        exists|unique: Seq<char>|
                            old(self).database@.games.dom().contains(custom_id_of(unique)) && e@
                                == "Game id already in use: "@ + custom_id_of(unique)
                    }
                },
            },
    {
        let unique = fresh_identifier();
        self.add_custom_game_with_id(config, unique.as_str(), disk)
    }

    /// Records the sessions that a round of monitoring has closed: see
    /// [`recorded_all`]. Each session whose duration is known is entered
    /// in the history and added to the statistics of its game. A session
    /// that cannot be recorded does not stop the others; the reasons are
    /// returned in order.
    pub fn record_ended(&mut self, ended: &Vec<EndedSession>, now: u64) -> (failed: Vec<AppError>)
        ensures
            final(self).game_monitor@ == old(self).game_monitor@,
            final(self).database@ == recorded_all(old(self).database@, ended.deep_view(), now),
            failed.deep_view() == record_failures(old(self).database@, ended.deep_view(), now),
    {
        let ghost start = self.database@;
        let ghost all = ended.deep_view();
        let closed_at: i64 = clamp_time(now);
        let mut failed: Vec<AppError> = Vec::new();
        let mut i: usize = 0;
        proof {
            assert(all.take(0) =~= Seq::empty());
            assert(failed.deep_view() =~= Seq::empty());
        }
        while i < ended.len()
            invariant
                i <= ended.len(),
                all == ended.deep_view(),
                closed_at == as_time(now),
                self.game_monitor@ == old(self).game_monitor@,
                self.database@ == recorded_all(start, all.take(i as int), now),
                failed.deep_view() == record_failures(start, all.take(i as int), now),
            decreases ended.len() - i,
        {
            let ghost before = self.database@;
            let ghost failed_before = failed.deep_view();
            proof {
                let next = all.take(i + 1);
                assert(next.drop_last() =~= all.take(i as int));
                assert(next.last() == ended[i as int]@);
            }
            let e = &ended[i];
            match e.duration_secs {
                Some(d) => {
                    if d <= i64::MAX as u64 {
                        let duration: i64 = d as i64;
                        match self.database.start_session(e.game_id.as_str(), clamp_time(e.start_time)) {
                            Ok(id) => {
                                assert(self.database@ == opened(before, e@));
                                match self.database.end_session(id, duration, closed_at) {
                                    Ok(_) => {},
                                    Err(err) => {
                                        failed.push(err);
                                        assert(failed.deep_view() =~= failed_before.push(err@));
                                    },
                                }
                            },
                            Err(err) => {
                                failed.push(err);
                                assert(failed.deep_view() =~= failed_before.push(err@));
                            },
                        }
                    }
                },
                None => {},
            }
            i += 1;
        }
        assert(all.take(ended.len() as int) =~= all);
        failed
    }

    /// One round of the monitoring loop, with its bookkeeping: the
    /// sessions whose process is no longer reported active are closed (see
    /// [`GameMonitor::poll`]) and recorded (see [`Self::record_ended`]).
    pub fn poll_sessions(&mut self, statuses: &Vec<(u32, Option<u32>)>, now: u64) -> (r: MonitorRound)
        ensures
            final(self).game_monitor@ == still_running(old(self).game_monitor@, statuses@),
            r.ended.deep_view() == ended_of(old(self).game_monitor@, statuses@, now),
            final(self).database@ == recorded_all(
                old(self).database@,
                ended_of(old(self).game_monitor@, statuses@, now),
                now,
            ),
            r.failed.deep_view() == record_failures(
                old(self).database@,
                ended_of(old(self).game_monitor@, statuses@, now),
                now,
            ),
            r.keep_polling == (final(self).game_monitor@.len() > 0),
    {
        let round = self.game_monitor.poll(statuses, now);
        let failed = self.record_ended(&round.ended, now);
        MonitorRound { ended: round.ended, failed, keep_polling: round.keep_polling }
    }

    /// Looks up the game that is to be launched.
    ///
    /// Fails with `Game not found` exactly when no game is stored under
    /// the id, and with `No executable path found for custom game` exactly
    /// when the game is a user-added one without an executable. The game
    /// that is returned is started directly from its executable if it is
    /// user-added, and through its platform's launcher otherwise.
    pub fn launch_game(&self, game_id: &str) -> (r: Result<Game, AppError>)
        ensures
            match r {
                Ok(g) => entry(self.database@.games, game_id@) == Some(g@) && !(g@.platform
                    == Platform::Custom && g@.installation.executable is None),
                Err(e) => match entry(self.database@.games, game_id@) {
                    None => e@ == "Game not found"@,
                    Some(g) => g.platform == Platform::Custom && g.installation.executable is None
                        && e@ == "No executable path found for custom game"@,
                },
            },
    {
        match self.database.get_game(game_id) {
            Some(game) => {
                let custom = match game.platform {
                    Platform::Custom => true,
                    _ => false,
                };
                if custom && game.installation.executable.is_none() {
                    Err(AppError::new(String::from_str("No executable path found for custom game")))
                } else {
                    Ok(game)
                }
            },
            None => Err(AppError::new(String::from_str("Game not found"))),
        }
    }

    /// The command that starts a game: the game's own executable for a
    /// user-added game, and what its platform's launcher says for any
    /// other.
    pub fn start_command(
        game: &Game,
        steam: &SteamPlatform,
        battlenet: &BattleNetPlatform,
        epic: &EpicPlatform,
    ) -> (r: Result<LaunchCommand, AppError>)
        ensures
            match r {
                Ok(c) => start_command_of(*game, *steam, *battlenet) == Ok::<
                    LaunchCommandView,
                    Seq<char>,
                >(c@),
                Err(e) => start_command_of(*game, *steam, *battlenet) == Err::<
                    LaunchCommandView,
                    Seq<char>,
                >(e@),
            },
    {
        match game.platform {
            Platform::Custom => CustomGameLauncher::launch_executable(&game.installation.executable),
            Platform::Steam => steam.launcher.launch_command(game.id.as_str()),
            Platform::BattleNet => battlenet.launcher.launch_command(game.id.as_str()),
            Platform::Epic => epic.launcher.launch_command(game.id.as_str()),
        }
    }

    /// One attempt to match a launched game to a window.
    ///
    /// Outside the starting state nothing happens. In it, a match opens
    /// the game's session and makes the game active; without a match no
    /// session is opened, and either another attempt or the failure of the
    /// launch follows, as [`transition`] says.
    pub fn attempt_correlation(
        &mut self,
        state: LaunchState,
        game: &Game,
        disk: &DiskSnapshot,
        windows: &Vec<WindowInfo>,
        now: u64,
    ) -> (r: Correlation)
        ensures
            final(self).database@ == old(self).database@,
            !(state is Starting) ==> final(self).game_monitor@ == old(self).game_monitor@ && r.state
                == state && r.action == LaunchAction::Idle && !r.start_monitoring,
            state is Starting ==> match correlated(
                windows.deep_view(),
                candidate_names(game@, disk@),
            ) {
                Some(w) => {
                    &&& final(self).game_monitor@ == with_session(
                        old(self).game_monitor@,
                        SessionView {
                            game_id: game@.id,
                            start_time: now,
                            process_id: w.process_id,
                            window_handle: w.handle,
                        },
                    )
                    &&& (r.state, r.action) == transition(state, LaunchEvent::Matched)
                    &&& r.start_monitoring == (old(self).game_monitor@.len() == 0)
                },
                None => {
                    &&& final(self).game_monitor@ == old(self).game_monitor@
                    &&& (r.state, r.action) == transition(state, LaunchEvent::NotMatched)
                    &&& !r.start_monitoring
                },
            },
    {
        let starting = match state {
            LaunchState::Starting { attempts_left } => true,
            _ => false,
        };
        if !starting {
            return Correlation { state, action: LaunchAction::Idle, start_monitoring: false };
        }
        let tracking = self.game_monitor.track_game(game, disk, windows, now);
        let event = if tracking.session.is_some() {
            LaunchEvent::Matched
        } else {
            LaunchEvent::NotMatched
        };
        let next = step(state, event);
        Correlation { state: next.0, action: next.1, start_monitoring: tracking.start_monitoring }
    }
}

/// The outcome of one attempt to match a launched game to a window.
#[derive(Debug, Clone, Copy)]
pub struct Correlation {
    /// Where the game stands now.
    pub state: LaunchState,
    /// What the caller has to do next.
    pub action: LaunchAction,
    /// Whether the monitoring loop has to be started.
    pub start_monitoring: bool,
}

/// A time of the monitor's clock as the database writes it: see
/// [`as_time`].
pub fn clamp_time(t: u64) -> (r: i64)
    ensures
        r == as_time(t),
{
    if t <= i64::MAX as u64 {
        t as i64
    } else {
        i64::MAX
    }
}

} // verus!

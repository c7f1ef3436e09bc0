//! Schema migrations: which of them are still to be applied.

use vstd::prelude::*;

verus! {

/// One step of the database schema's history.
#[derive(Debug, Clone, Copy)]
pub struct Migration {
    pub version: i32,
    pub description: &'static str,
    pub up_sql: &'static str,
}

/// The migrations among `all` whose version is not among the applied
/// ones, in order.
pub open spec fn pending_of(all: Seq<Migration>, applied: Seq<i32>) -> Seq<Migration>
    decreases all.len(),
{
    if all.len() == 0 {
        Seq::empty()
    } else {
        let rest = pending_of(all.drop_last(), applied);
        if applied.contains(all.last().version) {
            rest
        } else {
            rest.push(all.last())
        }
    }
}

/// Whether a version is among the applied ones.
pub fn is_applied(applied: &Vec<i32>, version: i32) -> (r: bool)
    ensures
        r == applied@.contains(version),
{
    let mut i: usize = 0;
    while i < applied.len()
        invariant
            i <= applied.len(),
            forall|j: int| 0 <= j < i ==> applied[j] != version,
        decreases applied.len() - i,
    {
        if applied[i] == version {
            return true;
        }
        i += 1;
    }
    false
}

/// The migrations that are still to be applied, in order: those whose
/// version is not among the applied ones.
pub fn pending_migrations(all: &Vec<Migration>, applied: &Vec<i32>) -> (r: Vec<Migration>)
    ensures
        r@ == pending_of(all@, applied@),
{
    let mut out: Vec<Migration> = Vec::new();
    let mut i: usize = 0;
    assert(all@.take(0) =~= Seq::empty());
    while i < all.len()
        invariant
            i <= all.len(),
            out@ == pending_of(all@.take(i as int), applied@),
        decreases all.len() - i,
    {
        proof {
            let next = all@.take(i + 1);
            assert(next.drop_last() =~= all@.take(i as int));
            assert(next.last() == all[i as int]);
        }
        if !is_applied(applied, all[i].version) {
            out.push(all[i]);
        }
        i += 1;
    }
    assert(all@.take(all.len() as int) =~= all@);
    out
}

} // verus!

//! The session table as a mathematical object: a sequence of records in the
//! order in which they were inserted, and what each store operation makes
//! of it.

use vstd::prelude::*;
use crate::error::AuthError;
use crate::session::SessionView;
use crate::session::live;
use crate::session::row_wf;

verus! {

/// Whether some record of the table carries the identifier.
pub open spec fn has_id(t: Seq<SessionView>, id: Seq<char>) -> bool {
    exists|i: int| 0 <= i < t.len() && (#[trigger] t[i]).session_id == id
}

/// No two records share an identifier.
pub open spec fn unique_ids(t: Seq<SessionView>) -> bool {
    forall|i: int, j: int|
        0 <= i < j < t.len() ==> (#[trigger] t[i]).session_id != (#[trigger] t[j]).session_id
}

/// What every table of a store satisfies: identifiers are unique, and each
/// record expires after it was created.
pub open spec fn table_wf(t: Seq<SessionView>) -> bool {
    &&& unique_ids(t)
    &&& forall|i: int| 0 <= i < t.len() ==> row_wf(#[trigger] t[i])
}

/// What inserting a record does to the table.
///
/// A record that does not expire after its creation is invalid input; one
/// whose identifier is taken is refused by the store.
pub open spec fn inserted(t: Seq<SessionView>, s: SessionView) -> (
    Seq<SessionView>,
    Result<(), AuthError>,
) {
    if !row_wf(s) {
        (t, Err(AuthError::InvalidInput))
    } else if has_id(t, s.session_id) {
        (t, Err(AuthError::StorageError))
    } else {
        (t.push(s), Ok(()))
    }
}

/// Whether record `i` is the live record with the identifier.
pub open spec fn is_live_match(t: Seq<SessionView>, id: Seq<char>, now: i64, i: int) -> bool {
    0 <= i < t.len() && t[i].session_id == id && live(t[i], now)
}

/// The live record with the identifier, if there is one.
pub open spec fn find_live(t: Seq<SessionView>, id: Seq<char>, now: i64) -> Option<SessionView> {
    if exists|i: int| is_live_match(t, id, now, i) {
        Some(t[choose|i: int| is_live_match(t, id, now, i)])
    } else {
        None
    }
}

/// The record, invalidated.
pub open spec fn inactive(s: SessionView) -> SessionView {
    SessionView { is_active: false, ..s }
}

/// Whether every record with the identifier has been invalidated.
pub open spec fn invalidated(t: Seq<SessionView>, id: Seq<char>) -> bool {
    forall|i: int| 0 <= i < t.len() && (#[trigger] t[i]).session_id == id ==> !t[i].is_active
}

/// The table with the record of that identifier invalidated.
pub open spec fn deactivated(t: Seq<SessionView>, id: Seq<char>) -> Seq<SessionView> {
    Seq::new(t.len(), |i: int| if t[i].session_id == id { inactive(t[i]) } else { t[i] })
}

/// The table with every record of the account invalidated.
pub open spec fn account_deactivated(t: Seq<SessionView>, account_id: i32) -> Seq<SessionView> {
    Seq::new(t.len(), |i: int| if t[i].account_id == account_id { inactive(t[i]) } else { t[i] })
}

/// The record after an access at `now`. The time of last access never
/// moves back.
pub open spec fn accessed(s: SessionView, now: i64) -> SessionView {
    SessionView { last_accessed: if now > s.last_accessed { now } else { s.last_accessed }, ..s }
}

/// The table after an access at `now` to the record of that identifier,
/// which counts only while the record has not been invalidated.
pub open spec fn touched(t: Seq<SessionView>, id: Seq<char>, now: i64) -> Seq<SessionView> {
    Seq::new(
        t.len(),
        |i: int| if t[i].session_id == id && t[i].is_active { accessed(t[i], now) } else { t[i] },
    )
}

/// Whether a purge at `now` removes the record: it expired before `now`, or
/// was invalidated.
pub open spec fn dead(s: SessionView, now: i64) -> bool {
    s.expires_at < now || !s.is_active
}

/// The table after a purge at `now`: the records that are not dead, in order.
pub open spec fn purged(t: Seq<SessionView>, now: i64) -> Seq<SessionView> {
    t.filter(|s: SessionView| !dead(s, now))
}

/// The live records of an account at `now`, in table order.
pub open spec fn live_of(t: Seq<SessionView>, account_id: i32, now: i64) -> Seq<SessionView> {
    t.filter(|s: SessionView| s.account_id == account_id && live(s, now))
}

/// The account's live record count at `now`, as far as a `u32` can tell it.
pub open spec fn live_count(t: Seq<SessionView>, account_id: i32, now: i64) -> int {
    let n = live_of(t, account_id, now).len();
    if n <= u32::MAX {
        n as int
    } else {
        u32::MAX as int
    }
}

/// Most recently accessed first.
pub open spec fn sorted_by_recency(l: Seq<SessionView>) -> bool {
    forall|i: int, j: int|
        0 <= i < j < l.len() ==> (#[trigger] l[i]).last_accessed >= (#[trigger] l[j]).last_accessed
}

/// Whether `l` lists the account's live records at `now`, each once, the
/// most recently accessed first.
pub open spec fn is_listing(
    l: Seq<SessionView>,
    t: Seq<SessionView>,
    account_id: i32,
    now: i64,
) -> bool {
    &&& l.to_multiset() == live_of(t, account_id, now).to_multiset()
    &&& sorted_by_recency(l)
}

/// Whether record `i` is the oldest of the account's records that have not
/// been invalidated: none was created earlier, and none as early stands
/// before it in the table.
pub open spec fn is_oldest_active(t: Seq<SessionView>, account_id: i32, i: int) -> bool {
    &&& 0 <= i < t.len()
    &&& t[i].account_id == account_id
    &&& t[i].is_active
    &&& forall|j: int|
        0 <= j < t.len() && (#[trigger] t[j]).account_id == account_id && t[j].is_active ==> {
            &&& t[i].created_at <= t[j].created_at
            &&& j < i ==> t[i].created_at < t[j].created_at
        }
}

/// The place of the account's oldest record that has not been invalidated.
pub open spec fn oldest_active(t: Seq<SessionView>, account_id: i32) -> Option<int> {
    if exists|i: int| is_oldest_active(t, account_id, i) {
        Some(choose|i: int| is_oldest_active(t, account_id, i))
    } else {
        None
    }
}

/// The account's oldest record that has not been invalidated, if it has one.
pub open spec fn oldest_record(t: Seq<SessionView>, account_id: i32) -> Option<SessionView> {
    match oldest_active(t, account_id) {
        Some(i) => Some(t[i]),
        None => None,
    }
}

/// The table with the account's oldest record invalidated, if it has one
/// that has not been yet.
pub open spec fn evicted(t: Seq<SessionView>, account_id: i32) -> Seq<SessionView> {
    match oldest_active(t, account_id) {
        Some(i) => t.update(i, inactive(t[i])),
        None => t,
    }
}

/// At most one record is the oldest.
pub proof fn lemma_oldest_active_unique(t: Seq<SessionView>, account_id: i32, i: int, j: int)
    requires
        is_oldest_active(t, account_id, i),
        is_oldest_active(t, account_id, j),
    ensures
        i == j,
{
    if i < j {
        assert(t[j].created_at < t[i].created_at);
    } else if j < i {
        assert(t[i].created_at < t[j].created_at);
    }
}

/// With unique identifiers, at most one record is the live match.
pub proof fn lemma_live_match_unique(t: Seq<SessionView>, id: Seq<char>, now: i64, i: int, j: int)
    requires
        unique_ids(t),
        is_live_match(t, id, now, i),
        is_live_match(t, id, now, j),
    ensures
        i == j,
{
    if i < j {
        assert(t[i].session_id != t[j].session_id);
    } else if j < i {
        assert(t[j].session_id != t[i].session_id);
    }
}

/// Invalidating a record keeps the table well formed.
pub proof fn lemma_deactivated_wf(t: Seq<SessionView>, id: Seq<char>)
    requires
        table_wf(t),
    ensures
        table_wf(deactivated(t, id)),
{
    let d = deactivated(t, id);
    assert forall|i: int, j: int| 0 <= i < j < d.len() implies (#[trigger] d[i]).session_id != (
    #[trigger] d[j]).session_id by {
        assert(t[i].session_id != t[j].session_id);
    }
    assert forall|i: int| 0 <= i < d.len() implies row_wf(#[trigger] d[i]) by {
        assert(row_wf(t[i]));
    }
}

/// Invalidating an account's records keeps the table well formed.
pub proof fn lemma_account_deactivated_wf(t: Seq<SessionView>, account_id: i32)
    requires
        table_wf(t),
    ensures
        table_wf(account_deactivated(t, account_id)),
{
    let d = account_deactivated(t, account_id);
    assert forall|i: int, j: int| 0 <= i < j < d.len() implies (#[trigger] d[i]).session_id != (
    #[trigger] d[j]).session_id by {
        assert(t[i].session_id != t[j].session_id);
    }
    assert forall|i: int| 0 <= i < d.len() implies row_wf(#[trigger] d[i]) by {
        assert(row_wf(t[i]));
    }
}

/// An access keeps the table well formed.
pub proof fn lemma_touched_wf(t: Seq<SessionView>, id: Seq<char>, now: i64)
    requires
        table_wf(t),
    ensures
        table_wf(touched(t, id, now)),
{
    let d = touched(t, id, now);
    assert forall|i: int, j: int| 0 <= i < j < d.len() implies (#[trigger] d[i]).session_id != (
    #[trigger] d[j]).session_id by {
        assert(t[i].session_id != t[j].session_id);
    }
    assert forall|i: int| 0 <= i < d.len() implies row_wf(#[trigger] d[i]) by {
        assert(row_wf(t[i]));
    }
}

/// How a filter treats the record that one more step takes in.
pub proof fn lemma_filter_step(t: Seq<SessionView>, keep: spec_fn(SessionView) -> bool, i: int)
    requires
        0 <= i < t.len(),
    ensures
        t.take(i + 1).filter(keep) == if keep(t[i]) {
            t.take(i).filter(keep).push(t[i])
        } else {
            t.take(i).filter(keep)
        },
{
    reveal(Seq::filter);
    assert(t.take(i + 1).drop_last() =~= t.take(i));
    assert(t.take(i + 1).last() == t[i]);
}

/// The records that a filter keeps come from the table, in its order.
pub proof fn lemma_filter_source(t: Seq<SessionView>, keep: spec_fn(SessionView) -> bool)
    ensures
        t.filter(keep).len() <= t.len(),
        forall|k: int|
            0 <= k < t.filter(keep).len() ==> keep(#[trigger] t.filter(keep)[k]) && exists|i: int|
                k <= i < t.len() && t[i] == t.filter(keep)[k],
    decreases t.len(),
{
    reveal(Seq::filter);
    if t.len() > 0 {
        let rest = t.drop_last();
        lemma_filter_source(rest, keep);
        let f = t.filter(keep);
        assert forall|k: int| 0 <= k < f.len() implies keep(#[trigger] f[k]) && exists|i: int|
            k <= i < t.len() && t[i] == f[k] by {
            if k < rest.filter(keep).len() {
                let i = choose|i: int| k <= i < rest.len() && rest[i] == rest.filter(keep)[k];
                assert(t[i] == f[k]);
            } else {
                assert(t[t.len() - 1] == f[k]);
            }
        }
    }
}

/// A filter keeps a well-formed table well formed.
pub proof fn lemma_filter_wf(t: Seq<SessionView>, keep: spec_fn(SessionView) -> bool)
    requires
        table_wf(t),
    ensures
        table_wf(t.filter(keep)),
    decreases t.len(),
{
    reveal(Seq::filter);
    if t.len() > 0 {
        let rest = t.drop_last();
        assert(table_wf(rest)) by {
            assert forall|i: int, j: int| 0 <= i < j < rest.len() implies (
            #[trigger] rest[i]).session_id != (#[trigger] rest[j]).session_id by {
                assert(t[i].session_id != t[j].session_id);
            }
            assert forall|i: int| 0 <= i < rest.len() implies row_wf(#[trigger] rest[i]) by {
                assert(row_wf(t[i]));
            }
        }
        lemma_filter_wf(rest, keep);
        lemma_filter_source(rest, keep);
        let f = t.filter(keep);
        let g = rest.filter(keep);
        if keep(t.last()) {
            assert(f == g.push(t.last()));
            assert forall|i: int, j: int| 0 <= i < j < f.len() implies (#[trigger] f[i]).session_id
                != (#[trigger] f[j]).session_id by {
                if j < g.len() {
                    assert(g[i].session_id != g[j].session_id);
                } else {
                    let a = choose|a: int| i <= a < rest.len() && rest[a] == g[i];
                    assert(t[a].session_id != t[t.len() - 1].session_id);
                }
            }
            assert forall|i: int| 0 <= i < f.len() implies row_wf(#[trigger] f[i]) by {
                if i < g.len() {
                    assert(row_wf(g[i]));
                } else {
                    assert(row_wf(t[t.len() - 1]));
                }
            }
        }
    }
}

/// Invalidating the record at a place is invalidating the record with that
/// place's identifier, where identifiers are unique.
pub proof fn lemma_update_is_deactivated(t: Seq<SessionView>, i: int)
    requires
        unique_ids(t),
        0 <= i < t.len(),
    ensures
        t.update(i, inactive(t[i])) == deactivated(t, t[i].session_id),
{
    let d = deactivated(t, t[i].session_id);
    assert forall|k: int| 0 <= k < t.len() implies #[trigger] t.update(i, inactive(t[i]))[k]
        == d[k] by {
        if k < i {
            assert(t[k].session_id != t[i].session_id);
        } else if i < k {
            assert(t[i].session_id != t[k].session_id);
        }
    }
    assert(t.update(i, inactive(t[i])) =~= d);
}

/// Evicting the oldest record keeps the table well formed.
pub proof fn lemma_evicted_wf(t: Seq<SessionView>, account_id: i32)
    requires
        table_wf(t),
    ensures
        table_wf(evicted(t, account_id)),
{
    match oldest_active(t, account_id) {
        Some(i) => {
            lemma_update_is_deactivated(t, i);
            lemma_deactivated_wf(t, t[i].session_id);
        },
        None => {},
    }
}

/// Eviction changes no identifier.
pub proof fn lemma_evicted_keeps_ids(t: Seq<SessionView>, account_id: i32, id: Seq<char>)
    ensures
        has_id(evicted(t, account_id), id) == has_id(t, id),
{
    let e = evicted(t, account_id);
    assert(e.len() == t.len());
    assert forall|i: int| 0 <= i < t.len() implies (#[trigger] e[i]).session_id
        == t[i].session_id by {}
    if has_id(t, id) {
        let i = choose|i: int| 0 <= i < t.len() && (#[trigger] t[i]).session_id == id;
        assert(e[i].session_id == id);
    }
    if has_id(e, id) {
        let i = choose|i: int| 0 <= i < e.len() && (#[trigger] e[i]).session_id == id;
        assert(t[i].session_id == id);
    }
}

} // verus!

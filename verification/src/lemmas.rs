//! Facts about tables that the laws are proved from.

use vstd::prelude::*;
use crate::laws::law_purge_removes_only_dead_records;
use crate::manager::swept;
use crate::manager::validated;
use crate::manager::with_room;
use crate::session::SessionConfig;
use crate::session::SessionView;
use crate::session::accepted;
use crate::session::live;
use crate::session::row_wf;
use crate::table::deactivated;
use crate::table::dead;
use crate::table::find_live;
use crate::table::has_id;
use crate::table::invalidated;
use crate::table::is_live_match;
use crate::table::lemma_deactivated_wf;
use crate::table::lemma_evicted_wf;
use crate::table::lemma_filter_wf;
use crate::table::lemma_live_match_unique;
use crate::table::lemma_touched_wf;
use crate::table::table_wf;
use crate::table::unique_ids;

verus! {

/// A record that a filter's test accepts is among those it keeps.
pub proof fn lemma_filter_keeps(t: Seq<SessionView>, keep: spec_fn(SessionView) -> bool, i: int)
    requires
        0 <= i < t.len(),
        keep(t[i]),
    ensures
        exists|k: int| 0 <= k < t.filter(keep).len() && #[trigger] t.filter(keep)[k] == t[i],
    decreases t.len(),
{
    reveal(Seq::filter);
    let f = t.filter(keep);
    let rest = t.drop_last();
    if i == t.len() - 1 {
        assert(f == rest.filter(keep).push(t[i]));
        assert(f[f.len() - 1] == t[i]);
    } else {
        lemma_filter_keeps(rest, keep, i);
        let k = choose|k: int|
            0 <= k < rest.filter(keep).len() && #[trigger] rest.filter(keep)[k] == rest[i];
        assert(f[k] == t[i]);
    }
}

/// In a table with unique identifiers, the live record with an identifier
/// is what a lookup finds.
pub proof fn lemma_find_live_is(t: Seq<SessionView>, id: Seq<char>, now: i64, i: int)
    requires
        unique_ids(t),
        is_live_match(t, id, now, i),
    ensures
        find_live(t, id, now) == Some(t[i]),
{
    let c = choose|k: int| is_live_match(t, id, now, k);
    lemma_live_match_unique(t, id, now, i, c);
}

/// Appending a well-formed record under an identifier that is free keeps
/// the table well formed.
pub proof fn lemma_push_keeps_wf(t: Seq<SessionView>, s: SessionView)
    requires
        table_wf(t),
        row_wf(s),
        !has_id(t, s.session_id),
    ensures
        table_wf(t.push(s)),
{
    let p = t.push(s);
    assert forall|i: int, j: int| 0 <= i < j < p.len() implies (#[trigger] p[i]).session_id != (
    #[trigger] p[j]).session_id by {
        if j < t.len() {
            assert(t[i].session_id != t[j].session_id);
        } else {
            assert(t[i].session_id != s.session_id);
        }
    }
    assert forall|i: int| 0 <= i < p.len() implies row_wf(#[trigger] p[i]) by {
        if i < t.len() {
            assert(row_wf(t[i]));
        }
    }
}

/// Making room keeps the table well formed and changes no identifier.
pub proof fn lemma_with_room(t: Seq<SessionView>, config: SessionConfig, account_id: i32, now: i64)
    requires
        table_wf(t),
    ensures
        table_wf(with_room(t, config, account_id, now)),
        forall|id: Seq<char>|
            has_id(with_room(t, config, account_id, now), id) == #[trigger] has_id(t, id),
{
    lemma_evicted_wf(t, account_id);
    assert forall|id: Seq<char>|
        has_id(with_room(t, config, account_id, now), id) == #[trigger] has_id(t, id) by {
        crate::table::lemma_evicted_keeps_ids(t, account_id, id);
    }
}

/// What the table that validation looks into has in common with the table
/// it was given: it is well formed, and its records are records of that one.
pub proof fn lemma_swept(t: Seq<SessionView>, config: SessionConfig, now: i64)
    requires
        table_wf(t),
    ensures
        table_wf(swept(t, config, now)),
        forall|k: int|
            0 <= k < swept(t, config, now).len() ==> t.contains(
                #[trigger] swept(t, config, now)[k],
            ),
        forall|i: int|
            0 <= i < t.len() && live(#[trigger] t[i], now) ==> swept(t, config, now).contains(t[i]),
{
    let sw = swept(t, config, now);
    if config.cleanup_expired {
        lemma_filter_wf(t, |s: SessionView| !dead(s, now));
        law_purge_removes_only_dead_records(t, now);
    } else {
        assert forall|k: int| 0 <= k < sw.len() implies t.contains(#[trigger] sw[k]) by {
            assert(t[k] == sw[k]);
        }
        assert forall|i: int| 0 <= i < t.len() && live(#[trigger] t[i], now) implies sw.contains(
            t[i],
        ) by {
            assert(sw[i] == t[i]);
        }
    }
}

/// A live session that is not accepted is turned down and invalidated.
pub proof fn lemma_rejection(
    t: Seq<SessionView>,
    config: SessionConfig,
    now: i64,
    id: Seq<char>,
    ip: Option<Seq<char>>,
    user_agent: Option<Seq<char>>,
    i: int,
)
    requires
        table_wf(t),
        0 <= i < t.len(),
        t[i].session_id == id,
        live(t[i], now),
        !accepted(t[i], config, now, ip, user_agent),
    ensures
        validated(t, config, now, id, ip, user_agent) == (
            deactivated(swept(t, config, now), id),
            None::<SessionView>,
        ),
        invalidated(validated(t, config, now, id, ip, user_agent).0, id),
        table_wf(validated(t, config, now, id, ip, user_agent).0),
{
    let sw = swept(t, config, now);
    lemma_swept(t, config, now);
    assert(sw.contains(t[i]));
    let k = choose|k: int| 0 <= k < sw.len() && sw[k] == t[i];
    lemma_find_live_is(sw, id, now, k);
    lemma_deactivated_wf(sw, id);
}

/// Replacing a record that a filter keeps by one that it drops shortens
/// what it keeps by one.
pub proof fn lemma_filter_loses_one(
    t: Seq<SessionView>,
    keep: spec_fn(SessionView) -> bool,
    k: int,
    x: SessionView,
)
    requires
        0 <= k < t.len(),
        keep(t[k]),
        !keep(x),
    ensures
        t.update(k, x).filter(keep).len() == t.filter(keep).len() - 1,
    decreases t.len(),
{
    reveal(Seq::filter);
    let u = t.update(k, x);
    if k == t.len() - 1 {
        assert(u.drop_last() =~= t.drop_last());
    } else {
        assert(u.drop_last() =~= t.drop_last().update(k, x));
        lemma_filter_loses_one(t.drop_last(), keep, k, x);
    }
}

/// Among the first `n` records, if one belongs to the account and has not
/// been invalidated, one of those is the oldest.
pub proof fn lemma_oldest_among(t: Seq<SessionView>, account_id: i32, n: int) -> (b: int)
    requires
        0 <= n <= t.len(),
        exists|j: int| 0 <= j < n && (#[trigger] t[j]).account_id == account_id && t[j].is_active,
    ensures
        0 <= b < n,
        t[b].account_id == account_id,
        t[b].is_active,
        forall|j: int|
            0 <= j < n && (#[trigger] t[j]).account_id == account_id && t[j].is_active ==> {
                &&& t[b].created_at <= t[j].created_at
                &&& j < b ==> t[b].created_at < t[j].created_at
            },
    decreases n,
{
    let last = n - 1;
    if exists|j: int|
        0 <= j < last && (#[trigger] t[j]).account_id == account_id && t[j].is_active {
        let b = lemma_oldest_among(t, account_id, last);
        if t[last].account_id == account_id && t[last].is_active && t[last].created_at
            < t[b].created_at {
            last
        } else {
            b
        }
    } else {
        let j = choose|j: int|
            0 <= j < n && (#[trigger] t[j]).account_id == account_id && t[j].is_active;
        assert(j == last);
        last
    }
}

/// Validation keeps the table well formed.
pub proof fn lemma_validated_wf(
    t: Seq<SessionView>,
    config: SessionConfig,
    now: i64,
    id: Seq<char>,
    ip: Option<Seq<char>>,
    user_agent: Option<Seq<char>>,
)
    requires
        table_wf(t),
    ensures
        table_wf(validated(t, config, now, id, ip, user_agent).0),
{
    let sw = swept(t, config, now);
    lemma_swept(t, config, now);
    lemma_touched_wf(sw, id, now);
    lemma_deactivated_wf(sw, id);
}

/// What the literal pieces of a cookie text begin with.
pub proof fn lemma_cookie_literals()
    ensures
        "="@ == seq!['='],
        "; Path="@.len() == 7,
        "; Path="@[0] == ';',
{
    reveal_strlit("=");
    reveal_strlit("; Path=");
    assert("="@ =~= seq!['=']);
}

} // verus!

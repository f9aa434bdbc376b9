//! The session store: the table of session records and the operations that
//! read and change it.

use vstd::prelude::*;
use crate::error::AuthError;
use crate::session::Session;
use crate::session::SessionView;
use crate::session::live;
use crate::session::row_wf;
use crate::session::session_found;
use crate::table::account_deactivated;
use crate::table::accessed;
use crate::table::dead;
use crate::table::deactivated;
use crate::table::evicted;
use crate::table::find_live;
use crate::table::has_id;
use crate::table::inactive;
use crate::table::inserted;
use crate::table::is_listing;
use crate::table::is_live_match;
use crate::table::is_oldest_active;
use crate::table::lemma_account_deactivated_wf;
use crate::table::lemma_deactivated_wf;
use crate::table::lemma_evicted_wf;
use crate::table::lemma_filter_step;
use crate::table::lemma_filter_wf;
use crate::table::lemma_live_match_unique;
use crate::table::lemma_oldest_active_unique;
use crate::table::lemma_touched_wf;
use crate::table::live_count;
use crate::table::sorted_by_recency;
use crate::table::oldest_active;
use crate::table::oldest_record;
use crate::table::purged;
use crate::table::table_wf;
use crate::table::touched;

verus! {

/// The table of session records, in the order in which they were inserted.
///
/// Two records never share an identifier, and a record always expires after
/// it was created.
pub struct SessionStore {
    rows: Vec<Session>,
}

/// The records of a vector, as mathematical values.
pub open spec fn views_of(rows: Seq<Session>) -> Seq<SessionView> {
    Seq::new(rows.len(), |i: int| rows[i]@)
}

impl View for SessionStore {
    type V = Seq<SessionView>;

    closed spec fn view(&self) -> Seq<SessionView> {
        let t = views_of(self.rows@);
        if table_wf(t) {
            t
        } else {
            Seq::empty()
        }
    }
}

/// The table of a store is always well formed.
pub proof fn lemma_store_wf(store: SessionStore)
    ensures
        table_wf(store@),
{
}

impl SessionStore {
    #[verifier::type_invariant]
    spec fn inv(self) -> bool {
        table_wf(views_of(self.rows@))
    }

    /// A store without records.
    pub fn new() -> (store: SessionStore)
        ensures
            store@ == Seq::<SessionView>::empty(),
    {
        SessionStore { rows: Vec::new() }
    }

    /// How many records the table holds, dead ones included.
    pub fn len(&self) -> (n: usize)
        ensures
            n == self@.len(),
    {
        proof {
            use_type_invariant(self);
        }
        self.rows.len()
    }

    /// A copy of every record, in table order.
    pub fn rows(&self) -> (rows: Vec<Session>)
        ensures
            views_of(rows@) == self@,
    {
        proof {
            use_type_invariant(self);
        }
        let n = self.rows.len();
        let mut rows: Vec<Session> = Vec::new();
        let mut i: usize = 0;
        while i < n
            invariant
                n == self.rows.len(),
                i <= n,
                self@ == views_of(self.rows@),
                rows@.len() == i,
                forall|k: int| 0 <= k < i ==> (#[trigger] rows@[k])@ == self@[k],
            decreases n - i,
        {
            rows.push(self.rows[i].clone());
            i += 1;
        }
        assert(views_of(rows@) =~= self@);
        rows
    }

    /// Inserts a record.
    ///
    /// A record that does not expire after its creation is refused as invalid
    /// input; one whose identifier is taken, as a storage error.
    pub fn insert(&mut self, session: Session) -> (result: Result<(), AuthError>)
        ensures
            table_wf(final(self)@),
            (final(self)@, result) == inserted(old(self)@, session@),
    {
        proof {
            use_type_invariant(&*self);
        }
        if session.expires_at <= session.created_at {
            return Err(AuthError::InvalidInput);
        }
        let n = self.rows.len();
        let mut i: usize = 0;
        while i < n
            invariant
                n == self.rows.len(),
                i <= n,
                self@ == views_of(self.rows@),
                *self == *old(self),
                table_wf(self@),
                row_wf(session@),
                forall|k: int|
                    0 <= k < i ==> (#[trigger] self@[k]).session_id != session@.session_id,
            decreases n - i,
        {
            if self.rows[i].session_id == session.session_id {
                assert(self@[i as int].session_id == session@.session_id);
                return Err(AuthError::StorageError);
            }
            i += 1;
        }
        let ghost before = self@;
        let mut rows: Vec<Session> = Vec::new();
        std::mem::swap(&mut rows, &mut self.rows);
        rows.push(session);
        assert(views_of(rows@) =~= before.push(session@));
        self.rows = rows;
        Ok(())
    }

    /// Looks up the live record with the identifier: not invalidated, and
    /// expiring after `now`.
    pub fn find_active_unexpired(&self, session_id: &String, now: i64) -> (found: Option<Session>)
        ensures
            table_wf(self@),
            session_found(found) == find_live(self@, session_id@, now),
    {
        proof {
            use_type_invariant(self);
        }
        let n = self.rows.len();
        let mut i: usize = 0;
        while i < n
            invariant
                n == self.rows.len(),
                i <= n,
                self@ == views_of(self.rows@),
                table_wf(self@),
                forall|k: int| 0 <= k < i ==> !is_live_match(self@, session_id@, now, k),
            decreases n - i,
        {
            let row = &self.rows[i];
            if row.session_id == *session_id && row.is_active && row.expires_at > now {
                proof {
                    assert(is_live_match(self@, session_id@, now, i as int));
                    let c = choose|k: int| is_live_match(self@, session_id@, now, k);
                    lemma_live_match_unique(self@, session_id@, now, i as int, c);
                }
                return Some(row.clone());
            }
            i += 1;
        }
        None
    }

    /// Invalidates the record with the identifier. Nothing changes if there
    /// is none, or if it was invalidated before.
    pub fn set_inactive(&mut self, session_id: &String)
        ensures
            table_wf(final(self)@),
            final(self)@ == deactivated(old(self)@, session_id@),
    {
        proof {
            use_type_invariant(&*self);
        }
        let ghost before = self@;
        let mut rows: Vec<Session> = Vec::new();
        std::mem::swap(&mut rows, &mut self.rows);
        let n = rows.len();
        let mut i: usize = 0;
        while i < n
            invariant
                n == rows.len(),
                i <= n,
                before.len() == n,
                forall|k: int|
                    0 <= k < i ==> (#[trigger] rows@[k])@ == deactivated(before, session_id@)[k],
                forall|k: int| i <= k < n ==> (#[trigger] rows@[k])@ == before[k],
            decreases n - i,
        {
            if rows[i].session_id == *session_id {
                let mut row = rows[i].clone();
                row.is_active = false;
                rows.set(i, row);
            }
            i += 1;
        }
        proof {
            assert(views_of(rows@) =~= deactivated(before, session_id@));
            lemma_deactivated_wf(before, session_id@);
        }
        self.rows = rows;
    }

    /// Invalidates every record of the account.
    pub fn set_inactive_for_account(&mut self, account_id: i32)
        ensures
            table_wf(final(self)@),
            final(self)@ == account_deactivated(old(self)@, account_id),
    {
        proof {
            use_type_invariant(&*self);
        }
        let ghost before = self@;
        let mut rows: Vec<Session> = Vec::new();
        std::mem::swap(&mut rows, &mut self.rows);
        let n = rows.len();
        let mut i: usize = 0;
        while i < n
            invariant
                n == rows.len(),
                i <= n,
                before.len() == n,
                forall|k: int|
                    0 <= k < i ==> (#[trigger] rows@[k])@ == account_deactivated(
                        before,
                        account_id,
                    )[k],
                forall|k: int| i <= k < n ==> (#[trigger] rows@[k])@ == before[k],
            decreases n - i,
        {
            if rows[i].account_id == account_id {
                let mut row = rows[i].clone();
                row.is_active = false;
                rows.set(i, row);
            }
            i += 1;
        }
        proof {
            assert(views_of(rows@) =~= account_deactivated(before, account_id));
            lemma_account_deactivated_wf(before, account_id);
        }
        self.rows = rows;
    }

    /// Records an access at `now` to the record with the identifier, unless
    /// it has been invalidated. The time of last access never moves back.
    pub fn update_last_accessed(&mut self, session_id: &String, now: i64)
        ensures
            table_wf(final(self)@),
            final(self)@ == touched(old(self)@, session_id@, now),
    {
        proof {
            use_type_invariant(&*self);
        }
        let ghost before = self@;
        let mut rows: Vec<Session> = Vec::new();
        std::mem::swap(&mut rows, &mut self.rows);
        let n = rows.len();
        let mut i: usize = 0;
        while i < n
            invariant
                n == rows.len(),
                i <= n,
                before.len() == n,
                forall|k: int|
                    0 <= k < i ==> (#[trigger] rows@[k])@ == touched(before, session_id@, now)[k],
                forall|k: int| i <= k < n ==> (#[trigger] rows@[k])@ == before[k],
            decreases n - i,
        {
            if rows[i].session_id == *session_id && rows[i].is_active {
                if now > rows[i].last_accessed {
                    let mut row = rows[i].clone();
                    row.last_accessed = now;
                    rows.set(i, row);
                }
            }
            i += 1;
        }
        proof {
            assert(views_of(rows@) =~= touched(before, session_id@, now));
            lemma_touched_wf(before, session_id@, now);
        }
        self.rows = rows;
    }

    /// Removes every record that expired before `now` or was invalidated,
    /// and tells how many went.
    pub fn delete_expired_or_inactive(&mut self, now: i64) -> (removed: u64)
        ensures
            table_wf(final(self)@),
            final(self)@ == purged(old(self)@, now),
            removed == old(self)@.len() - final(self)@.len(),
    {
        proof {
            use_type_invariant(&*self);
        }
        let ghost before = self@;
        let ghost keep = |s: SessionView| !dead(s, now);
        let mut rows: Vec<Session> = Vec::new();
        std::mem::swap(&mut rows, &mut self.rows);
        let mut kept: Vec<Session> = Vec::new();
        let n = rows.len();
        let mut gone: usize = 0;
        let mut i: usize = 0;
        proof {
            assert(before.take(0) =~= Seq::<SessionView>::empty());
            reveal(Seq::filter);
        }
        while i < n
            invariant
                n == rows.len(),
                i <= n,
                before == views_of(rows@),
                keep == |s: SessionView| !dead(s, now),
                views_of(kept@) == before.take(i as int).filter(keep),
                kept@.len() + gone == i,
            decreases n - i,
        {
            proof {
                lemma_filter_step(before, keep, i as int);
            }
            if rows[i].expires_at < now || !rows[i].is_active {
                gone += 1;
            } else {
                let ghost so_far = views_of(kept@);
                kept.push(rows[i].clone());
                assert(views_of(kept@) =~= so_far.push(before[i as int]));
            }
            i += 1;
        }
        proof {
            assert(before.take(n as int) =~= before);
            lemma_filter_wf(before, keep);
        }
        self.rows = kept;
        gone as u64
    }

    /// Counts the account's live records at `now`. The count stops at the
    /// largest `u32`.
    pub fn count_active_for_account(&self, account_id: i32, now: i64) -> (count: u32)
        ensures
            table_wf(self@),
            count == live_count(self@, account_id, now),
    {
        proof {
            use_type_invariant(self);
        }
        let ghost t = self@;
        let ghost wanted = |s: SessionView| s.account_id == account_id && live(s, now);
        let n = self.rows.len();
        let mut count: usize = 0;
        let mut i: usize = 0;
        proof {
            assert(t.take(0) =~= Seq::<SessionView>::empty());
            reveal(Seq::filter);
        }
        while i < n
            invariant
                n == self.rows.len(),
                i <= n,
                self@ == views_of(self.rows@),
                t == self@,
                wanted == |s: SessionView| s.account_id == account_id && live(s, now),
                count == t.take(i as int).filter(wanted).len(),
                count <= i,
            decreases n - i,
        {
            proof {
                lemma_filter_step(t, wanted, i as int);
            }
            let row = &self.rows[i];
            if row.account_id == account_id && row.is_active && row.expires_at > now {
                count += 1;
            }
            i += 1;
        }
        proof {
            assert(t.take(n as int) =~= t);
        }
        if count > u32::MAX as usize {
            u32::MAX
        } else {
            count as u32
        }
    }

    /// Finds the place of the account's oldest record that has not been
    /// invalidated.
    fn oldest_active_place(&self, account_id: i32) -> (place: Option<usize>)
        ensures
            match place {
                Some(i) => oldest_active(self@, account_id) == Some(i as int) && is_oldest_active(
                    self@,
                    account_id,
                    i as int,
                ),
                None => oldest_active(self@, account_id).is_none(),
            },
    {
        proof {
            use_type_invariant(self);
        }
        let n = self.rows.len();
        let mut best: Option<usize> = None;
        let mut i: usize = 0;
        while i < n
            invariant
                n == self.rows.len(),
                i <= n,
                self@ == views_of(self.rows@),
                match best {
                    Some(b) => {
                        &&& b < i
                        &&& self@[b as int].account_id == account_id
                        &&& self@[b as int].is_active
                        &&& forall|j: int|
                            0 <= j < i && (#[trigger] self@[j]).account_id == account_id
                                && self@[j].is_active ==> {
                                &&& self@[b as int].created_at <= self@[j].created_at
                                &&& j < b ==> self@[b as int].created_at < self@[j].created_at
                            }
                    },
                    None => forall|j: int|
                        0 <= j < i ==> !((#[trigger] self@[j]).account_id == account_id
                            && self@[j].is_active),
                },
            decreases n - i,
        {
            let row = &self.rows[i];
            if row.account_id == account_id && row.is_active {
                match best {
                    Some(b) => {
                        if row.created_at < self.rows[b].created_at {
                            best = Some(i);
                        }
                    },
                    None => {
                        best = Some(i);
                    },
                }
            }
            i += 1;
        }
        proof {
            match best {
                Some(b) => {
                    assert(is_oldest_active(self@, account_id, b as int));
                    let c = choose|k: int| is_oldest_active(self@, account_id, k);
                    lemma_oldest_active_unique(self@, account_id, b as int, c);
                },
                None => {
                    assert forall|k: int| !is_oldest_active(self@, account_id, k) by {
                        if 0 <= k < self@.len() {
                            assert(!(self@[k].account_id == account_id && self@[k].is_active));
                        }
                    }
                },
            }
        }
        best
    }

    /// Finds the account's oldest record that has not been invalidated: the
    /// one created first, and of several created together the one inserted
    /// first.
    pub fn find_oldest_active_for_account(&self, account_id: i32) -> (found: Option<Session>)
        ensures
            table_wf(self@),
            session_found(found) == oldest_record(self@, account_id),
    {
        proof {
            use_type_invariant(self);
        }
        match self.oldest_active_place(account_id) {
            Some(i) => Some(self.rows[i].clone()),
            None => None,
        }
    }

    /// Invalidates the account's oldest record that has not been invalidated
    /// yet, if there is one.
    pub fn invalidate_oldest(&mut self, account_id: i32)
        ensures
            table_wf(final(self)@),
            final(self)@ == evicted(old(self)@, account_id),
    {
        proof {
            use_type_invariant(&*self);
            lemma_evicted_wf(self@, account_id);
        }
        let ghost before = self@;
        match self.oldest_active_place(account_id) {
            Some(i) => {
                let mut rows: Vec<Session> = Vec::new();
                std::mem::swap(&mut rows, &mut self.rows);
                let mut row = rows[i].clone();
                row.is_active = false;
                rows.set(i, row);
                assert(views_of(rows@) =~= before.update(i as int, inactive(before[i as int])));
                self.rows = rows;
            },
            None => {},
        }
    }

    /// Lists the account's live records at `now`, the most recently accessed
    /// first.
    pub fn list_active_for_account(&self, account_id: i32, now: i64) -> (list: Vec<Session>)
        ensures
            table_wf(self@),
            is_listing(views_of(list@), self@, account_id, now),
    {
        proof {
            use_type_invariant(self);
        }
        let ghost t = self@;
        let ghost wanted = |s: SessionView| s.account_id == account_id && live(s, now);
        let n = self.rows.len();
        let mut list: Vec<Session> = Vec::new();
        let mut i: usize = 0;
        proof {
            assert(t.take(0) =~= Seq::<SessionView>::empty());
            assert(views_of(list@) =~= Seq::<SessionView>::empty());
            reveal(Seq::filter);
        }
        while i < n
            invariant
                n == self.rows.len(),
                i <= n,
                self@ == views_of(self.rows@),
                t == self@,
                wanted == |s: SessionView| s.account_id == account_id && live(s, now),
                views_of(list@).to_multiset() == t.take(i as int).filter(wanted).to_multiset(),
                sorted_by_recency(views_of(list@)),
            decreases n - i,
        {
            proof {
                lemma_filter_step(t, wanted, i as int);
            }
            let row = &self.rows[i];
            if row.account_id == account_id && row.is_active && row.expires_at > now {
                let m = list.len();
                let mut p: usize = 0;
                while p < m && list[p].last_accessed >= row.last_accessed
                    invariant
                        m == list.len(),
                        p <= m,
                        forall|k: int|
                            0 <= k < p ==> (#[trigger] list@[k]).last_accessed >= row.last_accessed,
                    decreases m - p,
                {
                    p += 1;
                }
                let ghost so_far = views_of(list@);
                list.insert(p, row.clone());
                proof {
                    let after = views_of(list@);
                    let earlier = t.take(i as int).filter(wanted);
                    assert(after =~= so_far.insert(p as int, row@));
                    assert(t[i as int] == row@);
                    vstd::seq_lib::to_multiset_insert(so_far, p as int, row@);
                    vstd::seq_lib::to_multiset_build(earlier, row@);
                    assert forall|a: int, b: int| 0 <= a < b < after.len() implies (
                    #[trigger] after[a]).last_accessed >= (#[trigger] after[b]).last_accessed by {
                        if b < p {
                            assert(so_far[a].last_accessed >= so_far[b].last_accessed);
                        } else if b == p {
                            assert(so_far[a].last_accessed >= row.last_accessed);
                        } else if a < p {
                            assert(so_far[a].last_accessed >= so_far[b - 1].last_accessed);
                        } else if a == p {
                            assert(so_far[p as int].last_accessed < row.last_accessed);
                            if p < b - 1 {
                                assert(so_far[p as int].last_accessed >= so_far[b
                                    - 1].last_accessed);
                            }
                        } else {
                            assert(so_far[a - 1].last_accessed >= so_far[b - 1].last_accessed);
                        }
                    }
                }
            }
            i += 1;
        }
        proof {
            assert(t.take(n as int) =~= t);
        }
        list
    }
}

} // verus!

//! The entity store for users: rows held in memory, newest first, with the
//! uniqueness rules of the persisted schema.

use vstd::prelude::*;
use crate::errors::{StoreFailure, StoreFailureView};
use crate::models::{User, UserView, user_views};

verus! {

/// Some row carries the identifier `id`.
pub open spec fn has_id(rows: Seq<UserView>, id: Seq<char>) -> bool {
    exists|i: int| 0 <= i < rows.len() && (#[trigger] rows[i]).id == id
}

/// Some row carries the address `email`.
pub open spec fn has_email(rows: Seq<UserView>, email: Seq<char>) -> bool {
    exists|i: int| 0 <= i < rows.len() && (#[trigger] rows[i]).email == email
}

/// The row with identifier `id`, if there is one.
pub open spec fn with_id(rows: Seq<UserView>, id: Seq<char>) -> Option<UserView> {
    if has_id(rows, id) {
        Some(rows[choose|i: int| 0 <= i < rows.len() && (#[trigger] rows[i]).id == id])
    } else {
        None
    }
}

/// The row with address `email`, if there is one.
pub open spec fn with_email(rows: Seq<UserView>, email: Seq<char>) -> Option<UserView> {
    if has_email(rows, email) {
        Some(rows[choose|i: int| 0 <= i < rows.len() && (#[trigger] rows[i]).email == email])
    } else {
        None
    }
}

/// No two rows share an identifier.
pub open spec fn distinct_ids(rows: Seq<UserView>) -> bool {
    forall|i: int, j: int|
        0 <= i < rows.len() && 0 <= j < rows.len() && i != j ==> (#[trigger] rows[i]).id != (
        #[trigger] rows[j]).id
}

/// No two rows share an address.
pub open spec fn distinct_emails(rows: Seq<UserView>) -> bool {
    forall|i: int, j: int|
        0 <= i < rows.len() && 0 <= j < rows.len() && i != j ==> (#[trigger] rows[i]).email != (
        #[trigger] rows[j]).email
}

/// Rows stand in the order of the listing: by creation time, most recent
/// first.
pub open spec fn newest_first(rows: Seq<UserView>) -> bool {
    forall|i: int, j: int|
        0 <= i < j < rows.len() ==> (#[trigger] rows[i]).created_at >= (
        #[trigger] rows[j]).created_at
}

/// The invariant of the table.
pub open spec fn well_formed(rows: Seq<UserView>) -> bool {
    &&& distinct_ids(rows)
    &&& distinct_emails(rows)
    &&& newest_first(rows)
}

/// No row was last updated before it was created.
pub open spec fn chronological(rows: Seq<UserView>) -> bool {
    forall|i: int| 0 <= i < rows.len() ==> (#[trigger] rows[i]).created_at <= rows[i].updated_at
}

/// Where a row created at `at` goes: behind every row that is as recent or
/// more recent.
pub open spec fn slot(rows: Seq<UserView>, at: i64) -> int
    decreases rows.len(),
{
    if rows.len() > 0 && rows.first().created_at >= at {
        1 + slot(rows.drop_first(), at)
    } else {
        0
    }
}

/// The table after a row went in.
pub open spec fn placed(rows: Seq<UserView>, row: UserView) -> Seq<UserView> {
    rows.insert(slot(rows, row.created_at), row)
}

/// A write of `row` would break a uniqueness rule.
pub open spec fn collides(rows: Seq<UserView>, row: UserView) -> bool {
    has_id(rows, row.id) || has_email(rows, row.email)
}

/// The store's words for a row whose identifier is in use.
pub open spec fn key_in_use() -> Seq<char> {
    "UNIQUE constraint failed: users.id"@
}

/// Why the store refuses to insert `row`, if it does: an address in use is
/// a uniqueness violation; an identifier in use, with the address free, is
/// a failure of another kind, in the store's own words.
pub open spec fn insert_failure(rows: Seq<UserView>, row: UserView) -> Option<StoreFailureView> {
    if has_email(rows, row.email) {
        Some(StoreFailureView::UniqueViolation)
    } else if has_id(rows, row.id) {
        Some(StoreFailureView::Other(key_in_use()))
    } else {
        None
    }
}

/// A row after an update at `now`: the fields that are present replace the
/// old ones, the last-update instant moves to `now` unless that lies in its
/// past, and the rest stays.
pub open spec fn changed(
    row: UserView,
    name: Option<Seq<char>>,
    email: Option<Seq<char>>,
    now: i64,
) -> UserView {
    UserView {
        id: row.id,
        name: match name {
            Some(text) => text,
            None => row.name,
        },
        email: match email {
            Some(text) => text,
            None => row.email,
        },
        created_at: row.created_at,
        updated_at: if now >= row.updated_at {
            now
        } else {
            row.updated_at
        },
    }
}

/// Another row than the one with identifier `id` carries the address
/// `email`.
pub open spec fn taken_by_other(rows: Seq<UserView>, id: Seq<char>, email: Seq<char>) -> bool {
    exists|i: int| 0 <= i < rows.len() && (#[trigger] rows[i]).email == email && rows[i].id != id
}

/// The rows that a listing with `limit` and `offset` returns: a negative
/// offset skips nothing, a negative limit takes all that is left.
pub open spec fn window(rows: Seq<UserView>, limit: i32, offset: i32) -> Seq<UserView> {
    let skip = if offset < 0 {
        0
    } else if offset > rows.len() {
        rows.len() as int
    } else {
        offset as int
    };
    let rest = rows.len() - skip;
    let take = if limit < 0 || limit > rest {
        rest
    } else {
        limit as int
    };
    rows.subrange(skip, skip + take)
}

/// The slot of a row lies behind all rows that are at least as recent and
/// before all older ones.
pub proof fn lemma_slot(rows: Seq<UserView>, at: i64)
    requires
        newest_first(rows),
    ensures
        0 <= slot(rows, at) <= rows.len(),
        forall|i: int| 0 <= i < slot(rows, at) ==> (#[trigger] rows[i]).created_at >= at,
        forall|i: int| slot(rows, at) <= i < rows.len() ==> (#[trigger] rows[i]).created_at < at,
    decreases rows.len(),
{
    if rows.len() > 0 && rows.first().created_at >= at {
        let rest = rows.drop_first();
        assert forall|i: int, j: int| 0 <= i < j < rest.len() implies (
        #[trigger] rest[i]).created_at >= (#[trigger] rest[j]).created_at by {
            assert(rest[i] == rows[i + 1]);
            assert(rest[j] == rows[j + 1]);
        }
        lemma_slot(rest, at);
        assert forall|i: int| 0 <= i < slot(rows, at) implies (#[trigger] rows[i]).created_at
            >= at by {
            if i > 0 {
                assert(rows[i] == rest[i - 1]);
            }
        }
        assert forall|i: int| slot(rows, at) <= i < rows.len() implies (
        #[trigger] rows[i]).created_at < at by {
            assert(rows[i] == rest[i - 1]);
        }
    } else if rows.len() > 0 {
        assert forall|i: int| 0 <= i < rows.len() implies (#[trigger] rows[i]).created_at < at by {
            if i > 0 {
                assert(rows[0].created_at >= rows[i].created_at);
            }
        }
    }
}

/// A row that collides with none keeps the table well-formed when placed.
pub proof fn lemma_placed_well_formed(rows: Seq<UserView>, row: UserView)
    requires
        well_formed(rows),
        !collides(rows, row),
    ensures
        well_formed(placed(rows, row)),
        placed(rows, row).len() == rows.len() + 1,
        has_id(placed(rows, row), row.id),
        has_email(placed(rows, row), row.email),
        forall|id: Seq<char>| has_id(placed(rows, row), id) <==> (id == row.id || has_id(rows, id)),
        forall|email: Seq<char>|
            has_email(placed(rows, row), email) <==> (email == row.email || has_email(rows, email)),
{
    lemma_slot(rows, row.created_at);
    let p = slot(rows, row.created_at);
    let out = placed(rows, row);
    assert(out[p] == row);
    assert forall|i: int| 0 <= i < out.len() && i != p implies #[trigger] out[i] == rows[if i
        < p {
        i
    } else {
        i - 1
    }] by {}
    assert forall|i: int, j: int| 0 <= i < out.len() && 0 <= j < out.len() && i != j implies (
    #[trigger] out[i]).id != (#[trigger] out[j]).id by {
        let a = if i < p {
            i
        } else {
            i - 1
        };
        let b = if j < p {
            j
        } else {
            j - 1
        };
        if i == p {
            assert(out[j] == rows[b]);
        } else if j == p {
            assert(out[i] == rows[a]);
        } else {
            assert(out[i] == rows[a]);
            assert(out[j] == rows[b]);
        }
    }
    assert forall|i: int, j: int| 0 <= i < out.len() && 0 <= j < out.len() && i != j implies (
    #[trigger] out[i]).email != (#[trigger] out[j]).email by {
        let a = if i < p {
            i
        } else {
            i - 1
        };
        let b = if j < p {
            j
        } else {
            j - 1
        };
        if i == p {
            assert(out[j] == rows[b]);
        } else if j == p {
            assert(out[i] == rows[a]);
        } else {
            assert(out[i] == rows[a]);
            assert(out[j] == rows[b]);
        }
    }
    assert forall|i: int, j: int| 0 <= i < j < out.len() implies (#[trigger] out[i]).created_at >= (
    #[trigger] out[j]).created_at by {
        let a = if i < p {
            i
        } else {
            i - 1
        };
        let b = if j < p {
            j
        } else {
            j - 1
        };
        if i == p {
            assert(out[j] == rows[b]);
        } else if j == p {
            assert(out[i] == rows[a]);
        } else {
            assert(out[i] == rows[a]);
            assert(out[j] == rows[b]);
        }
    }
    assert forall|id: Seq<char>| has_id(out, id) <==> (id == row.id || has_id(rows, id)) by {
        if has_id(out, id) && id != row.id {
            let i = choose|i: int| 0 <= i < out.len() && (#[trigger] out[i]).id == id;
            let a = if i < p {
                i
            } else {
                i - 1
            };
            assert(out[i] == rows[a]);
        }
        if has_id(rows, id) {
            let a = choose|a: int| 0 <= a < rows.len() && (#[trigger] rows[a]).id == id;
            let i = if a < p {
                a
            } else {
                a + 1
            };
            assert(out[i] == rows[a]);
        }
    }
    assert forall|email: Seq<char>|
        has_email(out, email) <==> (email == row.email || has_email(rows, email)) by {
        if has_email(out, email) && email != row.email {
            let i = choose|i: int| 0 <= i < out.len() && (#[trigger] out[i]).email == email;
            let a = if i < p {
                i
            } else {
                i - 1
            };
            assert(out[i] == rows[a]);
        }
        if has_email(rows, email) {
            let a = choose|a: int| 0 <= a < rows.len() && (#[trigger] rows[a]).email == email;
            let i = if a < p {
                a
            } else {
                a + 1
            };
            assert(out[i] == rows[a]);
        }
    }
}

/// In a well-formed table the row found for an identifier is the only one
/// that carries it.
pub proof fn lemma_with_id(rows: Seq<UserView>, i: int)
    requires
        distinct_ids(rows),
        0 <= i < rows.len(),
    ensures
        with_id(rows, rows[i].id) == Some(rows[i]),
{
    let id = rows[i].id;
    assert(has_id(rows, id));
    let k = choose|k: int| 0 <= k < rows.len() && (#[trigger] rows[k]).id == id;
    assert(k == i);
}

/// In a well-formed table the row found for an address is the only one that
/// carries it.
pub proof fn lemma_with_email(rows: Seq<UserView>, i: int)
    requires
        distinct_emails(rows),
        0 <= i < rows.len(),
    ensures
        with_email(rows, rows[i].email) == Some(rows[i]),
{
    let email = rows[i].email;
    assert(has_email(rows, email));
    let k = choose|k: int| 0 <= k < rows.len() && (#[trigger] rows[k]).email == email;
    assert(k == i);
}

/// The users of the service, held in memory.
pub struct UserTable {
    rows: Vec<User>,
}

impl View for UserTable {
    type V = Seq<UserView>;

    closed spec fn view(&self) -> Seq<UserView> {
        user_views(self.rows@)
    }
}

impl UserTable {
    /// The invariant: identifiers and addresses are unique and the rows
    /// stand newest first.
    pub open spec fn wf(&self) -> bool {
        well_formed(self@)
    }

    /// An empty table.
    pub fn new() -> (r: UserTable)
        ensures
            r@ == Seq::<UserView>::empty(),
            r.wf(),
    {
        let r = UserTable { rows: Vec::new() };
        assert(r@ =~= Seq::<UserView>::empty());
        r
    }

    /// The number of rows.
    pub fn len(&self) -> (r: usize)
        ensures
            r == self@.len(),
    {
        self.rows.len()
    }

    fn position_of_id(&self, id: &String) -> (r: Option<usize>)
        ensures
            match r {
                Some(i) => i < self@.len() && self@[i as int].id == id@,
                None => !has_id(self@, id@),
            },
    {
        let n = self.rows.len();
        let mut i: usize = 0;
        while i < n
            invariant
                i <= n,
                n == self.rows@.len(),
                forall|j: int| 0 <= j < i ==> (#[trigger] self@[j]).id != id@,
            decreases n - i,
        {
            if self.rows[i].id == *id {
                return Some(i);
            }
            i += 1;
        }
        None
    }

    fn position_of_email(&self, email: &String) -> (r: Option<usize>)
        ensures
            match r {
                Some(i) => i < self@.len() && self@[i as int].email == email@,
                None => !has_email(self@, email@),
            },
    {
        let n = self.rows.len();
        let mut i: usize = 0;
        while i < n
            invariant
                i <= n,
                n == self.rows@.len(),
                forall|j: int| 0 <= j < i ==> (#[trigger] self@[j]).email != email@,
            decreases n - i,
        {
            if self.rows[i].email == *email {
                return Some(i);
            }
            i += 1;
        }
        None
    }

    /// The row with the given identifier.
    pub fn select_by_id(&self, id: &str) -> (r: Option<User>)
        requires
            self.wf(),
        ensures
            crate::models::opt_user(r) == with_id(self@, id@),
    {
        let needle = String::from_str(id);
        match self.position_of_id(&needle) {
            Some(i) => {
                proof {
                    lemma_with_id(self@, i as int);
                }
                Some(self.rows[i].clone())
            },
            None => None,
        }
    }

    /// The row with the given address.
    pub fn select_by_email(&self, email: &str) -> (r: Option<User>)
        requires
            self.wf(),
        ensures
            crate::models::opt_user(r) == with_email(self@, email@),
    {
        let needle = String::from_str(email);
        match self.position_of_email(&needle) {
            Some(i) => {
                proof {
                    lemma_with_email(self@, i as int);
                }
                Some(self.rows[i].clone())
            },
            None => None,
        }
    }

    /// One page of the listing, newest first.
    pub fn select_page(&self, limit: i32, offset: i32) -> (r: Vec<User>)
        ensures
            user_views(r@) == window(self@, limit, offset),
    {
        let n = self.rows.len();
        let skip: usize = if offset < 0 {
            0
        } else if offset as usize > n {
            n
        } else {
            offset as usize
        };
        let rest: usize = n - skip;
        let take: usize = if limit < 0 || limit as usize > rest {
            rest
        } else {
            limit as usize
        };
        let mut out: Vec<User> = Vec::new();
        let mut k: usize = 0;
        while k < take
            invariant
                k <= take,
                skip + take <= n,
                n == self.rows@.len(),
                out@.len() == k,
                forall|j: int| 0 <= j < k ==> (#[trigger] out@[j])@ == self@[skip + j],
            decreases take - k,
        {
            out.push(self.rows[skip + k].clone());
            k += 1;
        }
        proof {
            assert(user_views(out@) =~= window(self@, limit, offset));
        }
        out
    }

    /// Adds a row. A row whose address is already in the table is refused
    /// as a uniqueness violation; a row whose identifier is already in the
    /// table, with its address free, is refused as a failure of another
    /// kind. Either way the table stays as it was. Any other row goes in
    /// behind the rows that are as recent or more recent.
    pub fn insert(&mut self, user: User) -> (r: Result<(), StoreFailure>)
        requires
            old(self).wf(),
        ensures
            final(self).wf(),
            match insert_failure(old(self)@, user@) {
                Some(failure) => (r matches Err(e) && e@ == failure) && final(self)@ == old(self)@,
                None => r is Ok && final(self)@ == placed(old(self)@, user@),
            },
    {
        if self.position_of_email(&user.email).is_some() {
            return Err(StoreFailure::UniqueViolation);
        }
        if self.position_of_id(&user.id).is_some() {
            return Err(StoreFailure::Other(String::from_str("UNIQUE constraint failed: users.id")));
        }
        let n = self.rows.len();
        let mut p: usize = 0;
        proof {
            assert(self@.subrange(0, n as int) == self@);
        }
        while p < n && self.rows[p].created_at >= user.created_at
            invariant
                p <= n,
                n == self.rows@.len(),
                slot(self@, user.created_at) == p + slot(
                    self@.subrange(p as int, n as int),
                    user.created_at,
                ),
            decreases n - p,
        {
            proof {
                let tail = self@.subrange(p as int, n as int);
                assert(tail.first() == self@[p as int]);
                assert(tail.drop_first() == self@.subrange(p + 1, n as int));
            }
            p += 1;
        }
        proof {
            let tail = self@.subrange(p as int, n as int);
            if p < n {
                assert(tail.first() == self@[p as int]);
            }
            assert(slot(tail, user.created_at) == 0);
            lemma_placed_well_formed(self@, user@);
        }
        let ghost before = self@;
        let ghost row = user@;
        self.rows.insert(p, user);
        proof {
            assert(self@ =~= before.insert(p as int, row));
        }
        Ok(())
    }

    /// Changes the row with identifier `id`: the fields that are present
    /// replace the old ones and the last-update instant is refreshed.
    /// Returns the number of rows changed: 0 if no row has that identifier.
    /// A new address that another row carries is refused and the table stays
    /// as it was.
    pub fn update(
        &mut self,
        id: &str,
        name: Option<String>,
        email: Option<String>,
        now: i64,
    ) -> (r: Result<u64, StoreFailure>)
        requires
            old(self).wf(),
        ensures
            final(self).wf(),
            final(self)@ == updated_rows(
                old(self)@,
                id@,
                crate::text::opt_text(name),
                crate::text::opt_text(email),
                now,
            ),
            match update_outcome(old(self)@, id@, crate::text::opt_text(email)) {
                Some(count) => r == Ok::<u64, StoreFailure>(count),
                None => (r matches Err(e) && e@ == StoreFailureView::UniqueViolation),
            },
    {
        let needle = String::from_str(id);
        let ghost before = self@;
        let ghost name_text = crate::text::opt_text(name);
        let ghost email_text = crate::text::opt_text(email);
        let i = match self.position_of_id(&needle) {
            Some(i) => i,
            None => {
                return Ok(0);
            },
        };
        proof {
            lemma_with_id(before, i as int);
            lemma_position(before, id@, i as int);
        }
        match &email {
            Some(address) => {
                match self.position_of_email(address) {
                    Some(j) => {
                        if j != i {
                            proof {
                                assert(before[j as int].email == address@);
                                assert(before[j as int].id != id@);
                                assert(taken_by_other(before, id@, address@));
                            }
                            return Err(StoreFailure::UniqueViolation);
                        }
                        proof {
                            lemma_not_taken(before, i as int, address@);
                        }
                    },
                    None => {
                        assert(!taken_by_other(before, id@, address@));
                    },
                }
            },
            None => {},
        }
        let old_row = self.rows[i].clone();
        let updated_at = if now >= old_row.updated_at {
            now
        } else {
            old_row.updated_at
        };
        let new_row = User {
            id: old_row.id,
            name: match name {
                Some(text) => text,
                None => old_row.name,
            },
            email: match email {
                Some(text) => text,
                None => old_row.email,
            },
            created_at: old_row.created_at,
            updated_at,
        };
        proof {
            assert(new_row@ == changed(before[i as int], name_text, email_text, now));
            lemma_update_well_formed(before, i as int, name_text, email_text, now);
        }
        let ghost row = new_row@;
        self.rows.set(i, new_row);
        proof {
            assert(self@ =~= before.update(i as int, row));
        }
        Ok(1)
    }

    /// Removes the row with identifier `id`. Returns the number of rows
    /// removed: 0 if no row has that identifier.
    pub fn delete(&mut self, id: &str) -> (r: u64)
        requires
            old(self).wf(),
        ensures
            final(self).wf(),
            final(self)@ == without_id(old(self)@, id@),
            r == if has_id(old(self)@, id@) {
                1u64
            } else {
                0u64
            },
    {
        let needle = String::from_str(id);
        let ghost before = self@;
        match self.position_of_id(&needle) {
            Some(i) => {
                proof {
                    lemma_position(before, id@, i as int);
                    lemma_remove_well_formed(before, i as int);
                }
                let gone = self.rows.remove(i);
                proof {
                    assert(self@ =~= before.remove(i as int));
                }
                1
            },
            None => 0,
        }
    }
}

/// The index of the row with identifier `id`.
pub open spec fn position(rows: Seq<UserView>, id: Seq<char>) -> int {
    choose|i: int| 0 <= i < rows.len() && (#[trigger] rows[i]).id == id
}

/// The table after the row with identifier `id`, if there is one, was
/// removed.
pub open spec fn without_id(rows: Seq<UserView>, id: Seq<char>) -> Seq<UserView> {
    if has_id(rows, id) {
        rows.remove(position(rows, id))
    } else {
        rows
    }
}

/// How many rows an update of `id` changes, or `None` where the new address
/// belongs to another row.
pub open spec fn update_outcome(
    rows: Seq<UserView>,
    id: Seq<char>,
    email: Option<Seq<char>>,
) -> Option<u64> {
    if !has_id(rows, id) {
        Some(0)
    } else if email matches Some(address) && taken_by_other(rows, id, address) {
        None
    } else {
        Some(1)
    }
}

/// The table after an update of `id` at `now`.
pub open spec fn updated_rows(
    rows: Seq<UserView>,
    id: Seq<char>,
    name: Option<Seq<char>>,
    email: Option<Seq<char>>,
    now: i64,
) -> Seq<UserView> {
    if update_outcome(rows, id, email) == Some(1u64) {
        rows.update(position(rows, id), changed(rows[position(rows, id)], name, email, now))
    } else {
        rows
    }
}

/// With unique identifiers, the position of an identifier is the index of
/// any row that carries it.
pub proof fn lemma_position(rows: Seq<UserView>, id: Seq<char>, i: int)
    requires
        distinct_ids(rows),
        0 <= i < rows.len(),
        rows[i].id == id,
    ensures
        has_id(rows, id),
        position(rows, id) == i,
{
    assert(has_id(rows, id));
    let k = position(rows, id);
    assert(k == i);
}

/// An update keeps the table well-formed; where it changes a row, that row
/// is afterwards the one found for the identifier.
pub proof fn lemma_updated_rows(
    rows: Seq<UserView>,
    id: Seq<char>,
    name: Option<Seq<char>>,
    email: Option<Seq<char>>,
    now: i64,
)
    requires
        well_formed(rows),
    ensures
        well_formed(updated_rows(rows, id, name, email, now)),
        update_outcome(rows, id, email) == Some(1u64) ==> with_id(
            updated_rows(rows, id, name, email, now),
            id,
        ) == Some(changed(rows[position(rows, id)], name, email, now)),
        update_outcome(rows, id, email) == Some(1u64) ==> 0 <= position(rows, id) < rows.len(),
{
    if update_outcome(rows, id, email) == Some(1u64) {
        let p = position(rows, id);
        assert(has_id(rows, id));
        lemma_update_well_formed(rows, p, name, email, now);
        let out = updated_rows(rows, id, name, email, now);
        assert(out[p] == changed(rows[p], name, email, now));
        lemma_with_id(out, p);
    }
}

/// With unique addresses, another user owns an address exactly when the
/// row found for the address has another identifier.
pub proof fn lemma_owner(rows: Seq<UserView>, id: Seq<char>, email: Seq<char>)
    requires
        distinct_emails(rows),
    ensures
        taken_by_other(rows, id, email) <==> (with_email(rows, email) matches Some(owner)
            && owner.id != id),
{
    if taken_by_other(rows, id, email) {
        let k = choose|k: int|
            0 <= k < rows.len() && (#[trigger] rows[k]).email == email && rows[k].id != id;
        lemma_with_email(rows, k);
    }
    if has_email(rows, email) {
        let k = choose|k: int| 0 <= k < rows.len() && (#[trigger] rows[k]).email == email;
        if rows[k].id != id {
            assert(taken_by_other(rows, id, email));
        }
    }
}

/// An address that stands only in row `i` is not taken by another row.
proof fn lemma_not_taken(rows: Seq<UserView>, i: int, email: Seq<char>)
    requires
        well_formed(rows),
        0 <= i < rows.len(),
        rows[i].email == email,
    ensures
        !taken_by_other(rows, rows[i].id, email),
{
    if taken_by_other(rows, rows[i].id, email) {
        let k = choose|k: int|
            0 <= k < rows.len() && (#[trigger] rows[k]).email == email && rows[k].id != rows[i].id;
        assert(k != i);
        assert(rows[k].email != rows[i].email);
    }
}

/// An update that no other row's address stands against keeps the table
/// well-formed.
proof fn lemma_update_well_formed(
    rows: Seq<UserView>,
    i: int,
    name: Option<Seq<char>>,
    email: Option<Seq<char>>,
    now: i64,
)
    requires
        well_formed(rows),
        0 <= i < rows.len(),
        email matches Some(address) ==> !taken_by_other(rows, rows[i].id, address),
    ensures
        well_formed(rows.update(i, changed(rows[i], name, email, now))),
{
    let row = changed(rows[i], name, email, now);
    let out = rows.update(i, row);
    assert forall|a: int, b: int| 0 <= a < out.len() && 0 <= b < out.len() && a != b implies (
    #[trigger] out[a]).id != (#[trigger] out[b]).id by {
        assert(out[a].id == rows[a].id);
        assert(out[b].id == rows[b].id);
    }
    assert forall|a: int, b: int| 0 <= a < out.len() && 0 <= b < out.len() && a != b implies (
    #[trigger] out[a]).email != (#[trigger] out[b]).email by {
        if a != i && b != i {
            assert(out[a] == rows[a]);
            assert(out[b] == rows[b]);
        } else {
            let other = if a == i {
                b
            } else {
                a
            };
            assert(out[other] == rows[other]);
            assert(rows[other].id != rows[i].id);
            assert(rows[other].email != rows[i].email);
            match email {
                Some(address) => {
                    if rows[other].email == address {
                        assert(taken_by_other(rows, rows[i].id, address));
                    }
                },
                None => {},
            }
        }
    }
    assert forall|a: int, b: int| 0 <= a < b < out.len() implies (#[trigger] out[a]).created_at >= (
    #[trigger] out[b]).created_at by {
        assert(out[a].created_at == rows[a].created_at);
        assert(out[b].created_at == rows[b].created_at);
    }
}

/// Removing a row keeps the table well-formed.
proof fn lemma_remove_well_formed(rows: Seq<UserView>, i: int)
    requires
        well_formed(rows),
        0 <= i < rows.len(),
    ensures
        well_formed(rows.remove(i)),
        !has_id(rows.remove(i), rows[i].id),
{
    let out = rows.remove(i);
    assert forall|a: int| 0 <= a < out.len() implies #[trigger] out[a] == rows[if a < i {
        a
    } else {
        a + 1
    }] by {}
    assert forall|a: int, b: int| 0 <= a < out.len() && 0 <= b < out.len() && a != b implies (
    #[trigger] out[a]).id != (#[trigger] out[b]).id by {
        assert(out[a] == rows[if a < i { a } else { a + 1 }]);
        assert(out[b] == rows[if b < i { b } else { b + 1 }]);
    }
    assert forall|a: int, b: int| 0 <= a < out.len() && 0 <= b < out.len() && a != b implies (
    #[trigger] out[a]).email != (#[trigger] out[b]).email by {
        assert(out[a] == rows[if a < i { a } else { a + 1 }]);
        assert(out[b] == rows[if b < i { b } else { b + 1 }]);
    }
    assert forall|a: int, b: int| 0 <= a < b < out.len() implies (#[trigger] out[a]).created_at >= (
    #[trigger] out[b]).created_at by {
        assert(out[a] == rows[if a < i { a } else { a + 1 }]);
        assert(out[b] == rows[if b < i { b } else { b + 1 }]);
    }
    if has_id(out, rows[i].id) {
        let k = choose|k: int| 0 <= k < out.len() && (#[trigger] out[k]).id == rows[i].id;
        assert(out[k] == rows[if k < i { k } else { k + 1 }]);
    }
}

} // verus!

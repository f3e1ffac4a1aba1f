//! What holds of the user service on every table and every request.

use vstd::prelude::*;
use crate::errors::{AppErrorView, missing_user_text, public_text, status_of};
use crate::models::UserView;
use crate::repositories::found;
use crate::services::{
    change_result,
    create_result,
    delete_result,
    rows_after_change,
    rows_after_create,
    shaped,
};
use crate::text::all_spaces;
use crate::user_table::{
    chronological,
    has_email,
    has_id,
    key_in_use,
    lemma_placed_well_formed,
    lemma_slot,
    newest_first,
    placed,
    position,
    slot,
    taken_by_other,
    well_formed,
    window,
    with_id,
    without_id,
};
use crate::validation::{create_failures, domain_of, update_failures};

verus! {

/// A create-request whose name is empty or blank fails with
/// `ValidationFailed`, and no row is stored.
pub proof fn blank_name_is_refused(
    rows: Seq<UserView>,
    name: Seq<char>,
    email: Seq<char>,
    grammar_ok: bool,
    id: Seq<char>,
    now: i64,
)
    requires
        all_spaces(name),
    ensures
        create_result(rows, name, email, grammar_ok, id, now) matches Err(
            AppErrorView::ValidationFailed(_),
        ),
        rows_after_create(rows, name, email, grammar_ok, id, now) == rows,
{
    assert(create_failures(name, email, grammar_ok).len() > 0);
}

/// A create-request whose address holds no `@`, or no dot in its domain,
/// fails with `ValidationFailed`, and no row is stored.
pub proof fn malformed_email_is_refused(
    rows: Seq<UserView>,
    name: Seq<char>,
    email: Seq<char>,
    grammar_ok: bool,
    id: Seq<char>,
    now: i64,
)
    requires
        !email.contains('@') || !domain_of(email).contains('.'),
    ensures
        create_result(rows, name, email, grammar_ok, id, now) matches Err(
            AppErrorView::ValidationFailed(_),
        ),
        rows_after_create(rows, name, email, grammar_ok, id, now) == rows,
{
    assert(create_failures(name, email, grammar_ok).len() > 0);
}

/// After a user was created with an address, a second valid create-request
/// with the same address fails with `Conflict` and changes nothing, and
/// exactly one row carries the address.
pub proof fn second_create_conflicts(
    rows: Seq<UserView>,
    first_name: Seq<char>,
    second_name: Seq<char>,
    email: Seq<char>,
    grammar_ok: bool,
    first_id: Seq<char>,
    second_id: Seq<char>,
    first_now: i64,
    second_now: i64,
)
    requires
        well_formed(rows),
        create_result(rows, first_name, email, grammar_ok, first_id, first_now) is Ok,
        !all_spaces(second_name),
    ensures
        ({
            let after = rows_after_create(rows, first_name, email, grammar_ok, first_id, first_now);
            &&& well_formed(after)
            &&& after.len() == rows.len() + 1
            &&& create_result(after, second_name, email, grammar_ok, second_id, second_now) == Err::<
                UserView,
                AppErrorView,
            >(AppErrorView::Conflict)
            &&& rows_after_create(after, second_name, email, grammar_ok, second_id, second_now)
                == after
            &&& exists|i: int|
                0 <= i < after.len() && (#[trigger] after[i]).email == email && forall|j: int|
                    0 <= j < after.len() && (#[trigger] after[j]).email == email ==> j == i
        }),
{
    let user = UserView {
        id: first_id,
        name: first_name,
        email,
        created_at: first_now,
        updated_at: first_now,
    };
    let after = placed(rows, user);
    assert(create_failures(first_name, email, grammar_ok).len() == 0);
    assert(create_failures(second_name, email, grammar_ok) =~= create_failures(
        first_name,
        email,
        grammar_ok,
    ));
    lemma_placed_well_formed(rows, user);
    let i = choose|i: int| 0 <= i < after.len() && (#[trigger] after[i]).email == email;
    assert forall|j: int| 0 <= j < after.len() && (#[trigger] after[j]).email == email implies j
        == i by {
        if j != i {
            assert(after[i].email != after[j].email);
        }
    }
}

/// A valid create-request whose identifier is in use, while its address is
/// free, fails with a store error, which is answered with status 500 and a
/// message that holds none of the store's words; no row is stored.
pub proof fn identifier_clash_is_a_store_error(
    rows: Seq<UserView>,
    name: Seq<char>,
    email: Seq<char>,
    grammar_ok: bool,
    id: Seq<char>,
    now: i64,
)
    requires
        create_failures(name, email, grammar_ok).len() == 0,
        has_id(rows, id),
        !has_email(rows, email),
    ensures
        create_result(rows, name, email, grammar_ok, id, now) == Err::<UserView, AppErrorView>(
            AppErrorView::StoreError(key_in_use()),
        ),
        rows_after_create(rows, name, email, grammar_ok, id, now) == rows,
        status_of(AppErrorView::StoreError(key_in_use())) == 500,
        public_text(AppErrorView::StoreError(key_in_use())) == "Internal server error"@,
{
}

/// A valid update that sets the address to one that another user owns
/// fails with `Conflict` and changes nothing.
pub proof fn update_to_foreign_email_conflicts(
    rows: Seq<UserView>,
    id: Seq<char>,
    name: Option<Seq<char>>,
    email: Seq<char>,
    grammar_ok: bool,
    now: i64,
)
    requires
        has_id(rows, id),
        taken_by_other(rows, id, email),
        update_failures(name, Some(email), grammar_ok).len() == 0,
    ensures
        change_result(rows, id, name, Some(email), grammar_ok, now) == Err::<
            UserView,
            AppErrorView,
        >(AppErrorView::Conflict),
        rows_after_change(rows, id, name, Some(email), grammar_ok, now) == rows,
{
}

/// A valid update that sets a user's address to the one it has succeeds:
/// the user's own row does not stand against it.
pub proof fn update_to_own_email_succeeds(
    rows: Seq<UserView>,
    id: Seq<char>,
    name: Option<Seq<char>>,
    grammar_ok: bool,
    now: i64,
)
    requires
        well_formed(rows),
        has_id(rows, id),
        update_failures(name, Some(rows[position(rows, id)].email), grammar_ok).len() == 0,
    ensures
        ({
            let own = rows[position(rows, id)].email;
            &&& change_result(rows, id, name, Some(own), grammar_ok, now) matches Ok(user)
            &&& user.id == id
            &&& user.email == own
            &&& well_formed(rows_after_change(rows, id, name, Some(own), grammar_ok, now))
        }),
{
    let p = position(rows, id);
    let own = rows[p].email;
    if taken_by_other(rows, id, own) {
        let k = choose|k: int|
            0 <= k < rows.len() && (#[trigger] rows[k]).email == own && rows[k].id != id;
        assert(k != p);
        assert(rows[k].email != rows[p].email);
    }
    let row = crate::user_table::changed(rows[p], name, Some(own), now);
    let out = rows.update(p, row);
    assert forall|a: int, b: int| 0 <= a < out.len() && 0 <= b < out.len() && a != b implies (
    #[trigger] out[a]).id != (#[trigger] out[b]).id by {
        assert(out[a].id == rows[a].id);
        assert(out[b].id == rows[b].id);
    }
    assert forall|a: int, b: int| 0 <= a < out.len() && 0 <= b < out.len() && a != b implies (
    #[trigger] out[a]).email != (#[trigger] out[b]).email by {
        assert(out[a].email == rows[a].email);
        assert(out[b].email == rows[b].email);
    }
    assert forall|a: int, b: int| 0 <= a < b < out.len() implies (#[trigger] out[a]).created_at >= (
    #[trigger] out[b]).created_at by {
        assert(out[a].created_at == rows[a].created_at);
        assert(out[b].created_at == rows[b].created_at);
    }
}

/// Deleting an identifier that no row carries fails with `NotFound` and
/// changes nothing, so that deleting it again fails in the same way.
pub proof fn delete_of_missing_is_not_found(rows: Seq<UserView>, id: Seq<char>)
    requires
        !has_id(rows, id),
    ensures
        delete_result(rows, id) == Err::<(), AppErrorView>(
            AppErrorView::NotFound(missing_user_text(id)),
        ),
        without_id(rows, id) == rows,
        delete_result(without_id(rows, id), id) == delete_result(rows, id),
{
}

/// Whatever the first delete of an identifier did, a second one fails with
/// `NotFound`: a delete never succeeds twice.
pub proof fn delete_never_succeeds_twice(rows: Seq<UserView>, id: Seq<char>)
    requires
        well_formed(rows),
    ensures
        delete_result(without_id(rows, id), id) == Err::<(), AppErrorView>(
            AppErrorView::NotFound(missing_user_text(id)),
        ),
{
    if has_id(rows, id) {
        let p = position(rows, id);
        let out = rows.remove(p);
        if has_id(out, id) {
            let k = choose|k: int| 0 <= k < out.len() && (#[trigger] out[k]).id == id;
            let j = if k < p {
                k
            } else {
                k + 1
            };
            assert(out[k] == rows[j]);
            assert(rows[j].id != rows[p].id);
        }
    }
}

/// A user that was created can be read by its identifier: the row found is
/// the one created, with the name and address of the request, and the
/// response is the one that the creation returned.
pub proof fn created_user_can_be_read(
    rows: Seq<UserView>,
    name: Seq<char>,
    email: Seq<char>,
    grammar_ok: bool,
    id: Seq<char>,
    now: i64,
)
    requires
        well_formed(rows),
        create_result(rows, name, email, grammar_ok, id, now) is Ok,
    ensures
        ({
            let created = create_result(rows, name, email, grammar_ok, id, now);
            let after = rows_after_create(rows, name, email, grammar_ok, id, now);
            &&& created matches Ok(user) && user.id == id && user.name == name && user.email
                == email
            &&& found(id, with_id(after, id)) == created
            &&& shaped(found(id, with_id(after, id))) == shaped(created)
        }),
{
    let user = UserView { id, name, email, created_at: now, updated_at: now };
    let after = placed(rows, user);
    lemma_placed_well_formed(rows, user);
    lemma_slot(rows, now);
    let p = slot(rows, now);
    assert(after[p] == user);
    crate::user_table::lemma_with_id(after, p);
}

/// Every page of the user listing is a run of rows of the table, most
/// recently created first, and no longer than a limit that is not
/// negative.
pub proof fn page_is_newest_first(rows: Seq<UserView>, limit: i32, offset: i32)
    requires
        newest_first(rows),
    ensures
        newest_first(window(rows, limit, offset)),
        forall|i: int|
            0 <= i < window(rows, limit, offset).len() ==> rows.contains(
                #[trigger] window(rows, limit, offset)[i],
            ),
        limit >= 0 ==> window(rows, limit, offset).len() <= limit,
        window(rows, limit, offset).len() <= rows.len(),
{
    let page = window(rows, limit, offset);
    let skip = if offset < 0 {
        0
    } else if offset > rows.len() {
        rows.len() as int
    } else {
        offset as int
    };
    assert forall|i: int, j: int| 0 <= i < j < page.len() implies (#[trigger] page[i]).created_at >= (
    #[trigger] page[j]).created_at by {
        assert(page[i] == rows[skip + i]);
        assert(page[j] == rows[skip + j]);
    }
    assert forall|i: int| 0 <= i < page.len() implies rows.contains(#[trigger] page[i]) by {
        assert(page[i] == rows[skip + i]);
    }
}

/// The service keeps every row's last update at or after its creation: a
/// created user starts with both instants equal, and an update never moves
/// the last update back.
pub proof fn timestamps_stay_ordered(
    rows: Seq<UserView>,
    id: Seq<char>,
    name: Seq<char>,
    email: Seq<char>,
    new_name: Option<Seq<char>>,
    new_email: Option<Seq<char>>,
    grammar_ok: bool,
    now: i64,
)
    requires
        well_formed(rows),
        chronological(rows),
    ensures
        chronological(rows_after_create(rows, name, email, grammar_ok, id, now)),
        chronological(rows_after_change(rows, id, new_name, new_email, grammar_ok, now)),
        chronological(without_id(rows, id)),
{
    let user = UserView { id, name, email, created_at: now, updated_at: now };
    if create_result(rows, name, email, grammar_ok, id, now) is Ok {
        let after = placed(rows, user);
        lemma_slot(rows, now);
        let p = slot(rows, now);
        assert forall|i: int| 0 <= i < after.len() implies (#[trigger] after[i]).created_at
            <= after[i].updated_at by {
            if i < p {
                assert(after[i] == rows[i]);
            } else if i > p {
                assert(after[i] == rows[i - 1]);
            }
        }
    }
    let changed_rows = rows_after_change(rows, id, new_name, new_email, grammar_ok, now);
    if changed_rows != rows {
        let p = position(rows, id);
        assert forall|i: int| 0 <= i < changed_rows.len() implies (
        #[trigger] changed_rows[i]).created_at <= changed_rows[i].updated_at by {
            if i != p {
                assert(changed_rows[i] == rows[i]);
            } else {
                assert(rows[p].created_at <= rows[p].updated_at);
            }
        }
    }
    if has_id(rows, id) {
        let p = position(rows, id);
        let out = rows.remove(p);
        assert forall|i: int| 0 <= i < out.len() implies (#[trigger] out[i]).created_at
            <= out[i].updated_at by {
            assert(out[i] == rows[if i < p { i } else { i + 1 }]);
        }
    }
}

} // verus!

//! The user repository: typed queries and commands over the entity store,
//! with the store's outcomes turned into the service's errors.

use vstd::prelude::*;
use crate::errors::{AppError, AppErrorView, StoreFailure, StoreFailureView, missing_user_text};
use crate::flows::{UserAnswer, UserAnswerView, UserQuery, UserQueryView};
use crate::models::{User, UserListQuery, UserView, limit_of, offset_of, opt_user, user_views};
use crate::text::{contains, has_sub, opt_text};
use crate::user_table::{
    UserTable,
    changed,
    has_email,
    has_id,
    insert_failure,
    key_in_use,
    lemma_with_id,
    placed,
    position,
    update_outcome,
    updated_rows,
    well_formed,
    window,
    with_email,
    with_id,
    without_id,
};

verus! {

/// The columns that an update statement sets besides the last-update
/// instant: one fixed statement for each case.
#[derive(Clone, Copy, Debug, PartialEq, Eq, Structural)]
pub enum Assignments {
    /// Only the last-update instant.
    Touch,
    /// The name.
    Name,
    /// The address.
    Email,
    /// The name and the address.
    NameAndEmail,
}

/// What a lookup by identifier gives: the row, or `NotFound` naming the
/// identifier.
pub open spec fn found(id: Seq<char>, row: Option<UserView>) -> Result<UserView, AppErrorView> {
    match row {
        Some(user) => Ok(user),
        None => Err(AppErrorView::NotFound(missing_user_text(id))),
    }
}

/// What a statement that should change one row gives: the store's failure
/// as the service's error, `NotFound` where no row was changed.
pub open spec fn effect(id: Seq<char>, outcome: Result<u64, StoreFailureView>) -> Result<
    (),
    AppErrorView,
> {
    match outcome {
        Err(StoreFailureView::UniqueViolation) => Err(AppErrorView::Conflict),
        Err(StoreFailureView::Other(detail)) => Err(AppErrorView::StoreError(detail)),
        Ok(count) => if count == 0 {
            Err(AppErrorView::NotFound(missing_user_text(id)))
        } else {
            Ok(())
        },
    }
}

/// The view of a user result.
pub open spec fn user_result(r: Result<User, AppError>) -> Result<UserView, AppErrorView> {
    match r {
        Ok(user) => Ok(user@),
        Err(e) => Err(e@),
    }
}

/// The view of a result without a value.
pub open spec fn unit_result(r: Result<(), AppError>) -> Result<(), AppErrorView> {
    match r {
        Ok(_) => Ok(()),
        Err(e) => Err(e@),
    }
}

/// The view of a store's count or failure.
pub open spec fn count_result(r: Result<u64, StoreFailure>) -> Result<u64, StoreFailureView> {
    match r {
        Ok(count) => Ok(count),
        Err(e) => Err(e@),
    }
}

/// The limit and offset that a listing statement binds: the query's, or the
/// defaults.
pub fn page_bounds(query: UserListQuery) -> (r: (i32, i32))
    ensures
        r.0 == limit_of(query),
        r.1 == offset_of(query),
{
    (query.limit_or_default(), query.offset_or_default())
}

/// Turns the row that a lookup by identifier returned into its result.
pub fn row_or_missing(id: &str, row: Option<User>) -> (r: Result<User, AppError>)
    ensures
        user_result(r) == found(id@, opt_user(row)),
{
    match row {
        Some(user) => Ok(user),
        None => Err(AppError::missing_user(id)),
    }
}

/// Turns the outcome of an insert into its result: the user that went in,
/// `Conflict` for a uniqueness violation, `StoreError` for anything else.
pub fn written(user: User, outcome: Result<(), StoreFailure>) -> (r: Result<User, AppError>)
    ensures
        user_result(r) == match outcome {
            Ok(_) => Ok::<UserView, AppErrorView>(user@),
            Err(e) => match e@ {
                StoreFailureView::UniqueViolation => Err(AppErrorView::Conflict),
                StoreFailureView::Other(detail) => Err(AppErrorView::StoreError(detail)),
            },
        },
{
    match outcome {
        Ok(_) => Ok(user),
        Err(failure) => Err(AppError::from_store(failure)),
    }
}

/// Turns the outcome of an update or delete statement into its result:
/// `NotFound` where no row was affected.
pub fn affected_or_missing(id: &str, outcome: Result<u64, StoreFailure>) -> (r: Result<
    (),
    AppError,
>)
    ensures
        unit_result(r) == effect(id@, count_result(outcome)),
{
    match outcome {
        Err(failure) => Err(AppError::from_store(failure)),
        Ok(count) => if count == 0 {
            Err(AppError::missing_user(id))
        } else {
            Ok(())
        },
    }
}

/// A database message that reports a uniqueness violation on the address:
/// it holds `UNIQUE` and names the column `email`.
pub open spec fn reports_taken_address(message: Seq<char>) -> bool {
    has_sub(message, "UNIQUE"@) && has_sub(message, "email"@)
}

/// Reads a failed write: a database error whose message reports a
/// uniqueness violation on the address is one; any other failure, a clash of
/// identifiers among them, keeps `detail`.
pub fn classify_write_failure(database_message: Option<&str>, detail: String) -> (r: StoreFailure)
    ensures
        r@ == if database_message matches Some(m) && reports_taken_address(m@) {
            StoreFailureView::UniqueViolation
        } else {
            StoreFailureView::Other(detail@)
        },
{
    match database_message {
        Some(message) => if contains(message, "UNIQUE") && contains(message, "email") {
            StoreFailure::UniqueViolation
        } else {
            StoreFailure::Other(detail)
        },
        None => StoreFailure::Other(detail),
    }
}

/// Picks the update statement for the fields that a request supplies.
pub fn assignments(name: &Option<String>, email: &Option<String>) -> (r: Assignments)
    ensures
        r == match (name, email) {
            (None, None) => Assignments::Touch,
            (Some(_), None) => Assignments::Name,
            (None, Some(_)) => Assignments::Email,
            (Some(_), Some(_)) => Assignments::NameAndEmail,
        },
{
    match (name, email) {
        (None, None) => Assignments::Touch,
        (Some(_), None) => Assignments::Name,
        (None, Some(_)) => Assignments::Email,
        (Some(_), Some(_)) => Assignments::NameAndEmail,
    }
}

/// What `UserRepository::update` returns on a table.
pub open spec fn update_result(
    rows: Seq<UserView>,
    id: Seq<char>,
    name: Option<Seq<char>>,
    email: Option<Seq<char>>,
    now: i64,
) -> Result<UserView, AppErrorView> {
    match update_outcome(rows, id, email) {
        None => Err(AppErrorView::Conflict),
        Some(count) => if count == 0 {
            Err(AppErrorView::NotFound(missing_user_text(id)))
        } else {
            Ok(changed(rows[position(rows, id)], name, email, now))
        },
    }
}

/// What the store does with a statement: the rows afterwards, and its
/// answer.
pub open spec fn executed(rows: Seq<UserView>, query: UserQueryView) -> (
    Seq<UserView>,
    UserAnswerView,
) {
    match query {
        UserQueryView::SelectPage { limit, offset } => (
            rows,
            UserAnswerView::Rows(window(rows, limit, offset)),
        ),
        UserQueryView::SelectById { id } => (rows, UserAnswerView::Row(with_id(rows, id))),
        UserQueryView::SelectByEmail { email } => (
            rows,
            UserAnswerView::Row(with_email(rows, email)),
        ),
        UserQueryView::Insert { user } => match insert_failure(rows, user) {
            Some(failure) => (rows, UserAnswerView::Failed(failure)),
            None => (placed(rows, user), UserAnswerView::Written),
        },
        UserQueryView::Update { id, name, email, now } => (
            updated_rows(rows, id, name, email, now),
            match update_outcome(rows, id, email) {
                Some(count) => UserAnswerView::Affected(count),
                None => UserAnswerView::Failed(StoreFailureView::UniqueViolation),
            },
        ),
        UserQueryView::Delete { id } => (
            without_id(rows, id),
            UserAnswerView::Affected(
                if has_id(rows, id) {
                    1
                } else {
                    0
                },
            ),
        ),
    }
}

/// What storing a new user gives: `Conflict` where the address is in use,
/// a store error where only the identifier is, else the user.
pub open spec fn create_outcome(rows: Seq<UserView>, user: UserView) -> Result<
    UserView,
    AppErrorView,
> {
    if has_email(rows, user.email) {
        Err(AppErrorView::Conflict)
    } else if has_id(rows, user.id) {
        Err(AppErrorView::StoreError(key_in_use()))
    } else {
        Ok(user)
    }
}

/// The repository over the in-memory entity store.
pub struct UserRepository {
    table: UserTable,
}

impl View for UserRepository {
    type V = Seq<UserView>;

    closed spec fn view(&self) -> Seq<UserView> {
        self.table@
    }
}

impl UserRepository {
    /// The invariant of the rows.
    pub open spec fn wf(&self) -> bool {
        well_formed(self@)
    }

    /// A repository over `table`.
    pub fn new(table: UserTable) -> (r: UserRepository)
        requires
            table.wf(),
        ensures
            r@ == table@,
            r.wf(),
    {
        UserRepository { table }
    }

    /// Runs one statement on the store and returns the store's answer.
    pub fn run(&mut self, query: UserQuery) -> (r: UserAnswer)
        requires
            old(self).wf(),
        ensures
            final(self).wf(),
            (final(self)@, r@) == executed(old(self)@, query@),
    {
        match query {
            UserQuery::SelectPage { limit, offset } => UserAnswer::Rows(
                self.table.select_page(limit, offset),
            ),
            UserQuery::SelectById { id } => UserAnswer::Row(self.table.select_by_id(id.as_str())),
            UserQuery::SelectByEmail { email } => UserAnswer::Row(
                self.table.select_by_email(email.as_str()),
            ),
            UserQuery::Insert { user } => match self.table.insert(user) {
                Ok(_) => UserAnswer::Written,
                Err(failure) => UserAnswer::Failed(failure),
            },
            UserQuery::Update { id, name, email, now } => match self.table.update(
                id.as_str(),
                name,
                email,
                now,
            ) {
                Ok(count) => UserAnswer::Affected(count),
                Err(failure) => UserAnswer::Failed(failure),
            },
            UserQuery::Delete { id } => UserAnswer::Affected(self.table.delete(id.as_str())),
        }
    }

    /// One page of users, most recently created first. Limit and offset
    /// default to 100 and 0; no upper bound is put on the limit.
    pub fn find_all(&self, query: UserListQuery) -> (r: Result<Vec<User>, AppError>)
        ensures
            r matches Ok(users) && user_views(users@) == window(
                self@,
                limit_of(query),
                offset_of(query),
            ),
    {
        let (limit, offset) = page_bounds(query);
        Ok(self.table.select_page(limit, offset))
    }

    /// The user with the given identifier, or `NotFound`.
    pub fn find_by_id(&self, id: &str) -> (r: Result<User, AppError>)
        requires
            self.wf(),
        ensures
            user_result(r) == found(id@, with_id(self@, id@)),
    {
        row_or_missing(id, self.table.select_by_id(id))
    }

    /// The user with the given address, if there is one.
    pub fn find_by_email(&self, email: &str) -> (r: Result<Option<User>, AppError>)
        requires
            self.wf(),
        ensures
            r matches Ok(row) && opt_user(row) == with_email(self@, email@),
    {
        Ok(self.table.select_by_email(email))
    }

    /// Stores a new user. Fails with `Conflict` where the address is
    /// already in use, and with a store error where the identifier is in use
    /// and the address free; either way nothing is stored.
    pub fn create(&mut self, user: User) -> (r: Result<User, AppError>)
        requires
            old(self).wf(),
        ensures
            final(self).wf(),
            user_result(r) == create_outcome(old(self)@, user@),
            final(self)@ == if create_outcome(old(self)@, user@) is Ok {
                placed(old(self)@, user@)
            } else {
                old(self)@
            },
    {
        let copy = user.clone();
        let outcome = self.table.insert(user);
        written(copy, outcome)
    }

    /// Changes the fields that are present and refreshes the last-update
    /// instant, then reads the row again and returns it. Fails with
    /// `NotFound` where no row has the identifier and with `Conflict` where
    /// the new address belongs to another user; the rows then stay as they
    /// were.
    pub fn update(&mut self, id: &str, name: Option<String>, email: Option<String>, now: i64) -> (r:
        Result<User, AppError>)
        requires
            old(self).wf(),
        ensures
            final(self).wf(),
            final(self)@ == updated_rows(old(self)@, id@, opt_text(name), opt_text(email), now),
            user_result(r) == update_result(old(self)@, id@, opt_text(name), opt_text(email), now),
    {
        let ghost before = self@;
        let ghost name_text = opt_text(name);
        let ghost email_text = opt_text(email);
        let outcome = self.table.update(id, name, email, now);
        match affected_or_missing(id, outcome) {
            Err(e) => Err(e),
            Ok(_) => {
                proof {
                    let p = position(before, id@);
                    assert(has_id(before, id@));
                    let row = changed(before[p], name_text, email_text, now);
                    assert(self@ == before.update(p, row));
                    assert(self@[p] == row);
                    lemma_with_id(self@, p);
                }
                self.find_by_id(id)
            },
        }
    }

    /// Removes the user with the given identifier, or fails with `NotFound`
    /// where there is none.
    pub fn delete(&mut self, id: &str) -> (r: Result<(), AppError>)
        requires
            old(self).wf(),
        ensures
            final(self).wf(),
            final(self)@ == without_id(old(self)@, id@),
            unit_result(r) == if has_id(old(self)@, id@) {
                Ok::<(), AppErrorView>(())
            } else {
                Err::<(), AppErrorView>(AppErrorView::NotFound(missing_user_text(id@)))
            },
    {
        let count = self.table.delete(id);
        affected_or_missing(id, Ok(count))
    }
}

} // verus!

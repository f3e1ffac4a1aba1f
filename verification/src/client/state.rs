//! The state of the user list in the client, and how it moves.

use vstd::prelude::*;
use crate::models::{UserResponse, UserResponseView, response_views};
use crate::text::{copy_text, opt_text};

verus! {

/// The users shown, whether a request is under way, and the last error.
#[derive(Debug, PartialEq, Eq)]
pub struct UsersState {
    pub users: Vec<UserResponse>,
    pub loading: bool,
    pub error: Option<String>,
}

/// The mathematical value of a [`UsersState`].
pub struct UsersStateView {
    pub users: Seq<UserResponseView>,
    pub loading: bool,
    pub error: Option<Seq<char>>,
}

impl View for UsersState {
    type V = UsersStateView;

    open spec fn view(&self) -> UsersStateView {
        UsersStateView {
            users: response_views(self.users@),
            loading: self.loading,
            error: opt_text(self.error),
        }
    }
}

/// What can happen to the user list.
#[derive(Debug, PartialEq, Eq)]
pub enum UsersAction {
    SetLoading(bool),
    SetUsers(Vec<UserResponse>),
    AddUser(UserResponse),
    UpdateUser(UserResponse),
    RemoveUser(String),
    SetError(Option<String>),
}

/// The mathematical value of a [`UsersAction`].
pub enum UsersActionView {
    SetLoading(bool),
    SetUsers(Seq<UserResponseView>),
    AddUser(UserResponseView),
    UpdateUser(UserResponseView),
    RemoveUser(Seq<char>),
    SetError(Option<Seq<char>>),
}

impl View for UsersAction {
    type V = UsersActionView;

    open spec fn view(&self) -> UsersActionView {
        match self {
            UsersAction::SetLoading(loading) => UsersActionView::SetLoading(*loading),
            UsersAction::SetUsers(users) => UsersActionView::SetUsers(response_views(users@)),
            UsersAction::AddUser(user) => UsersActionView::AddUser(user@),
            UsersAction::UpdateUser(user) => UsersActionView::UpdateUser(user@),
            UsersAction::RemoveUser(id) => UsersActionView::RemoveUser(id@),
            UsersAction::SetError(error) => UsersActionView::SetError(opt_text(*error)),
        }
    }
}

/// The index of the first user with identifier `id`; the length of the
/// list where there is none.
pub open spec fn first_with_id(users: Seq<UserResponseView>, id: Seq<char>) -> int
    decreases users.len(),
{
    if users.len() == 0 {
        0
    } else if users.first().id == id {
        0
    } else {
        1 + first_with_id(users.drop_first(), id)
    }
}

/// The user has another identifier than `id`.
pub open spec fn other_than(id: Seq<char>) -> spec_fn(UserResponseView) -> bool {
    |user: UserResponseView| user.id != id
}

/// The list with the first user that has the identifier of `user` replaced
/// by `user`; the same list where no user has it.
pub open spec fn with_replaced(users: Seq<UserResponseView>, user: UserResponseView) -> Seq<
    UserResponseView,
> {
    let at = first_with_id(users, user.id);
    if at < users.len() {
        users.update(at, user)
    } else {
        users
    }
}

/// The state after an action.
pub open spec fn reduced(state: UsersStateView, action: UsersActionView) -> UsersStateView {
    match action {
        UsersActionView::SetLoading(loading) => UsersStateView { loading, ..state },
        UsersActionView::SetUsers(users) => UsersStateView { users, loading: false, error: None },
        UsersActionView::AddUser(user) => UsersStateView {
            users: state.users.push(user),
            error: None,
            ..state
        },
        UsersActionView::UpdateUser(user) => UsersStateView {
            users: with_replaced(state.users, user),
            error: None,
            ..state
        },
        UsersActionView::RemoveUser(id) => UsersStateView {
            users: state.users.filter(other_than(id)),
            error: None,
            ..state
        },
        UsersActionView::SetError(error) => UsersStateView { error, loading: false, ..state },
    }
}

impl Default for UsersState {
    fn default() -> (r: UsersState)
        ensures
            r@ == (UsersStateView { users: Seq::empty(), loading: false, error: None }),
    {
        let r = UsersState { users: Vec::new(), loading: false, error: None };
        assert(r@.users =~= Seq::<UserResponseView>::empty());
        r
    }
}

impl Clone for UsersState {
    fn clone(&self) -> (r: UsersState)
        ensures
            r@ == self@,
    {
        let n = self.users.len();
        let mut users: Vec<UserResponse> = Vec::new();
        let mut i: usize = 0;
        while i < n
            invariant
                i <= n,
                n == self.users@.len(),
                users@.len() == i,
                forall|j: int| 0 <= j < i ==> (#[trigger] users@[j])@ == self.users@[j]@,
            decreases n - i,
        {
            users.push(self.users[i].clone());
            i += 1;
        }
        let r = UsersState { users, loading: self.loading, error: copy_text(&self.error) };
        assert(r@.users =~= self@.users);
        r
    }
}

fn position_of(users: &Vec<UserResponse>, id: &String) -> (r: usize)
    ensures
        r == first_with_id(response_views(users@), id@),
        r <= users@.len(),
{
    let n = users.len();
    let ghost all = response_views(users@);
    let mut i: usize = 0;
    proof {
        assert(all.subrange(0, n as int) == all);
    }
    while i < n
        invariant
            i <= n,
            n == users@.len(),
            all == response_views(users@),
            first_with_id(all, id@) == i + first_with_id(all.subrange(i as int, n as int), id@),
        decreases n - i,
    {
        let ghost tail = all.subrange(i as int, n as int);
        proof {
            assert(tail.first() == all[i as int]);
            assert(tail.drop_first() == all.subrange(i + 1, n as int));
        }
        if users[i].id == *id {
            return i;
        }
        i += 1;
    }
    proof {
        assert(all.subrange(n as int, n as int).len() == 0);
    }
    n
}

fn without_user(users: &Vec<UserResponse>, id: &String) -> (r: Vec<UserResponse>)
    ensures
        response_views(r@) == response_views(users@).filter(other_than(id@)),
{
    let n = users.len();
    let ghost all = response_views(users@);
    let mut out: Vec<UserResponse> = Vec::new();
    let mut i: usize = 0;
    proof {
        reveal(Seq::filter);
        assert(response_views(out@) =~= all.subrange(0, 0).filter(other_than(id@)));
    }
    while i < n
        invariant
            i <= n,
            n == users@.len(),
            all == response_views(users@),
            response_views(out@) == all.subrange(0, i as int).filter(other_than(id@)),
        decreases n - i,
    {
        proof {
            reveal(Seq::filter);
            let next = all.subrange(0, i + 1);
            assert(next.drop_last() == all.subrange(0, i as int));
            assert(next.last() == all[i as int]);
        }
        if users[i].id != *id {
            let ghost before = response_views(out@);
            out.push(users[i].clone());
            proof {
                assert(response_views(out@) =~= before.push(all[i as int]));
            }
        }
        i += 1;
    }
    proof {
        assert(all.subrange(0, n as int) == all);
    }
    out
}

impl UsersState {
    /// The state after an action: loading is switched; the list is
    /// replaced, which ends loading and clears the error; a user is added,
    /// replaced by identifier or removed by identifier, each of which clears
    /// the error; or the error is set, which ends loading.
    pub fn reduce(self, action: UsersAction) -> (r: UsersState)
        ensures
            r@ == reduced(self@, action@),
    {
        let mut state = self;
        match action {
            UsersAction::SetLoading(loading) => {
                state.loading = loading;
            },
            UsersAction::SetUsers(users) => {
                state.users = users;
                state.loading = false;
                state.error = None;
            },
            UsersAction::AddUser(user) => {
                let ghost before = state@.users;
                let ghost added = user@;
                state.users.push(user);
                state.error = None;
                assert(state@.users =~= before.push(added));
            },
            UsersAction::UpdateUser(user) => {
                let at = position_of(&state.users, &user.id);
                if at < state.users.len() {
                    let ghost before = state@.users;
                    let ghost updated = user@;
                    state.users.set(at, user);
                    assert(state@.users =~= before.update(at as int, updated));
                }
                state.error = None;
            },
            UsersAction::RemoveUser(id) => {
                state.users = without_user(&state.users, &id);
                state.error = None;
            },
            UsersAction::SetError(error) => {
                state.error = error;
                state.loading = false;
            },
        }
        state
    }
}

/// The view of the outcome of a request that returns users.
pub open spec fn users_outcome(r: Result<Vec<UserResponse>, String>) -> Result<
    Seq<UserResponseView>,
    Seq<char>,
> {
    match r {
        Ok(users) => Ok(response_views(users@)),
        Err(e) => Err(e@),
    }
}

/// The view of the outcome of a request that returns one user.
pub open spec fn user_outcome(r: Result<UserResponse, String>) -> Result<
    UserResponseView,
    Seq<char>,
> {
    match r {
        Ok(user) => Ok(user@),
        Err(e) => Err(e@),
    }
}

/// The views of a run of actions, in order.
pub open spec fn action_views(actions: Seq<UsersAction>) -> Seq<UsersActionView> {
    actions.map_values(|a: UsersAction| a@)
}

/// The action that is dispatched before a request that shows progress.
pub fn on_request() -> (r: UsersAction)
    ensures
        r@ == UsersActionView::SetLoading(true),
{
    UsersAction::SetLoading(true)
}

/// The action for the outcome of loading the users: the list, or the
/// error.
pub fn on_loaded(outcome: Result<Vec<UserResponse>, String>) -> (r: UsersAction)
    ensures
        r@ == match users_outcome(outcome) {
            Ok(users) => UsersActionView::SetUsers(users),
            Err(e) => UsersActionView::SetError(Some(e)),
        },
{
    match outcome {
        Ok(users) => UsersAction::SetUsers(users),
        Err(e) => UsersAction::SetError(Some(e)),
    }
}

/// The actions for the outcome of creating a user: the user is added and
/// loading ends, or the error is set.
pub fn on_created(outcome: Result<UserResponse, String>) -> (r: Vec<UsersAction>)
    ensures
        action_views(r@) == match user_outcome(outcome) {
            Ok(user) => seq![UsersActionView::AddUser(user), UsersActionView::SetLoading(false)],
            Err(e) => seq![UsersActionView::SetError(Some(e))],
        },
{
    let mut actions: Vec<UsersAction> = Vec::new();
    match outcome {
        Ok(user) => {
            let ghost added = user@;
            actions.push(UsersAction::AddUser(user));
            actions.push(UsersAction::SetLoading(false));
            assert(action_views(actions@) =~= seq![
                UsersActionView::AddUser(added),
                UsersActionView::SetLoading(false),
            ]);
        },
        Err(e) => {
            let ghost text = e@;
            actions.push(UsersAction::SetError(Some(e)));
            assert(action_views(actions@) =~= seq![UsersActionView::SetError(Some(text))]);
        },
    }
    actions
}

/// The actions for the outcome of updating a user: the user is replaced
/// and loading ends, or the error is set.
pub fn on_updated(outcome: Result<UserResponse, String>) -> (r: Vec<UsersAction>)
    ensures
        action_views(r@) == match user_outcome(outcome) {
            Ok(user) => seq![UsersActionView::UpdateUser(user), UsersActionView::SetLoading(false)],
            Err(e) => seq![UsersActionView::SetError(Some(e))],
        },
{
    let mut actions: Vec<UsersAction> = Vec::new();
    match outcome {
        Ok(user) => {
            let ghost updated = user@;
            actions.push(UsersAction::UpdateUser(user));
            actions.push(UsersAction::SetLoading(false));
            assert(action_views(actions@) =~= seq![
                UsersActionView::UpdateUser(updated),
                UsersActionView::SetLoading(false),
            ]);
        },
        Err(e) => {
            let ghost text = e@;
            actions.push(UsersAction::SetError(Some(e)));
            assert(action_views(actions@) =~= seq![UsersActionView::SetError(Some(text))]);
        },
    }
    actions
}

/// The action for the outcome of deleting the user `id`: the user is
/// removed, or the error is set.
pub fn on_deleted(id: String, outcome: Result<(), String>) -> (r: UsersAction)
    ensures
        r@ == match outcome {
            Ok(_) => UsersActionView::RemoveUser(id@),
            Err(e) => UsersActionView::SetError(Some(e@)),
        },
{
    match outcome {
        Ok(_) => UsersAction::RemoveUser(id),
        Err(e) => UsersAction::SetError(Some(e)),
    }
}

/// The action that clears the error.
pub fn clear_error() -> (r: UsersAction)
    ensures
        r@ == UsersActionView::SetError(None),
{
    UsersAction::SetError(None)
}

} // verus!

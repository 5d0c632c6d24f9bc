//! Accounts: first setup, login, and what administrators change.

use vstd::prelude::*;

use crate::config::{User, UserView};
use crate::error::{passed_on, status_of, APIError};
use crate::step::{run, Step};

verus! {

/// What a client learns about a server before anyone can log in.
#[derive(Debug)]
pub struct InitialSetup {
    /// Whether there is an administrator.
    pub has_any_users: bool,
}

/// What a client logs in with.
#[derive(Debug)]
pub struct Credentials {
    pub username: String,
    pub password: String,
}

/// What a client that has logged in is given.
#[derive(Debug)]
pub struct Authorization {
    pub username: String,
    pub token: String,
    pub is_admin: bool,
}

/// An account to be created.
#[derive(Debug)]
pub struct NewUser {
    pub name: String,
    pub password: String,
    pub admin: bool,
}

/// What is to change about an account; `None` leaves it as it is.
#[derive(Debug)]
pub struct UserUpdate {
    pub new_password: Option<String>,
    pub new_is_admin: Option<bool>,
}

/// The account on whose behalf a request is made.
#[derive(Debug)]
pub struct Auth {
    pub username: String,
}

/// The right to administer the server. It comes with an account, except on a
/// server that is not set up yet.
#[derive(Debug)]
pub struct AdminRights {
    pub auth: Option<Auth>,
}

/// One of `users` is known to be an administrator.
pub open spec fn has_admin(users: Seq<UserView>) -> bool {
    exists|i: int| 0 <= i < users.len() && (#[trigger] users[i]).admin == Some(true)
}

/// The views of `users`.
pub open spec fn users_view(users: Seq<User>) -> Seq<UserView> {
    Seq::new(users.len(), |i: int| users[i]@)
}

/// What a client learns where these are the accounts.
pub fn get_initial_setup(users: &Vec<User>) -> (setup: InitialSetup)
    ensures
        setup.has_any_users == has_admin(users_view(users@)),
{
    let mut i: usize = 0;
    while i < users.len()
        invariant
            i <= users@.len(),
            forall|j: int|
                0 <= j < i ==> (#[trigger] users_view(users@)[j]).admin != Some(true),
        decreases users@.len() - i,
    {
        if let Some(true) = users[i].admin {
            proof {
                assert(users_view(users@)[i as int].admin == Some(true));
            }
            return InitialSetup { has_any_users: true };
        }
        i = i + 1;
    }
    InitialSetup { has_any_users: false }
}

/// A setup is seen as complete exactly from the first administrator on: adding
/// an account completes it if and only if that account is an administrator.
pub proof fn law_adding_a_user_to_the_setup(users: Seq<UserView>, user: UserView)
    ensures
        !has_admin(Seq::empty()),
        has_admin(users.push(user)) <==> has_admin(users) || user.admin == Some(true),
{
    let more = users.push(user);
    if has_admin(users) {
        let i = choose|i: int| 0 <= i < users.len() && (#[trigger] users[i]).admin == Some(true);
        assert(more[i].admin == Some(true));
    }
    if user.admin == Some(true) {
        assert(more[users.len() as int].admin == Some(true));
    }
    if has_admin(more) {
        let i = choose|i: int| 0 <= i < more.len() && (#[trigger] more[i]).admin == Some(true);
        if i < users.len() {
            assert(users[i].admin == Some(true));
        }
    }
}

/// The call that checks a password.
#[derive(Debug)]
pub struct Login {
    pub username: String,
    pub password: String,
}

/// The call that looks an account up.
#[derive(Debug)]
pub struct GetUser {
    pub name: String,
}

/// A login whose password is being checked.
#[derive(Debug)]
pub struct LoggingIn {
    pub username: String,
}

/// A login whose account is being looked up.
#[derive(Debug)]
pub struct LookingUp {
    pub username: String,
    pub token: String,
}

/// Starts a login: the password is checked first.
pub fn post_auth(credentials: Credentials) -> (start: (Login, LoggingIn))
    ensures
        start.0 == (Login { username: credentials.username, password: credentials.password }),
        start.1 == (LoggingIn { username: credentials.username }),
{
    let username = credentials.username.clone();
    (
        Login { username: credentials.username, password: credentials.password },
        LoggingIn { username },
    )
}

/// The step that follows the check of a password.
pub open spec fn login_step<E>(username: String, token: Result<String, E>) -> Step<
    GetUser,
    LookingUp,
    Result<Authorization, APIError<E>>,
> {
    match token {
        Ok(token) => Step::Call(GetUser { name: username }, LookingUp { username, token }),
        Err(e) => Step::Reply(Err(APIError::Manager(e))),
    }
}

/// The answer to a login whose account has been looked up.
pub open spec fn lookup_answer<E>(
    username: String,
    token: String,
    is_admin: Result<bool, E>,
) -> Result<Authorization, APIError<E>> {
    match is_admin {
        Ok(is_admin) => Ok(Authorization { username, token, is_admin }),
        Err(e) => Err(APIError::Manager(e)),
    }
}

impl LoggingIn {
    /// Goes on with the token that a right password gives.
    pub fn resume<E>(self, token: Result<String, E>) -> (step: Step<
        GetUser,
        LookingUp,
        Result<Authorization, APIError<E>>,
    >)
        ensures
            step == login_step(self.username, token),
    {
        match token {
            Ok(token) => Step::Call(
                GetUser { name: self.username.clone() },
                LookingUp { username: self.username, token },
            ),
            Err(e) => Step::Reply(Err(APIError::Manager(e))),
        }
    }
}

impl LookingUp {
    /// Answers the login, knowing whether the account is an administrator.
    pub fn resume<E>(self, is_admin: Result<bool, E>) -> (answer: Result<
        Authorization,
        APIError<E>,
    >)
        ensures
            answer == lookup_answer(self.username, self.token, is_admin),
    {
        match is_admin {
            Ok(is_admin) => Ok(
                Authorization { username: self.username, token: self.token, is_admin },
            ),
            Err(e) => Err(APIError::Manager(e)),
        }
    }
}

/// The answer to a login, when its calls have these outcomes.
pub open spec fn post_auth_run<E>(
    username: String,
    token: Result<String, E>,
    is_admin: Result<bool, E>,
) -> Result<Authorization, APIError<E>> {
    match login_step(username, token) {
        Step::Call(_, state) => lookup_answer(state.username, state.token, is_admin),
        Step::Reply(answer) => answer,
    }
}

/// A login is granted if and only if both the password and the account are
/// found good. The client is then given the token that the password check gave,
/// under the name it logged in with; else it is told the first refusal.
pub proof fn law_login_answer<E>(
    username: String,
    token: Result<String, E>,
    is_admin: Result<bool, E>,
)
    ensures
        post_auth_run(username, token, is_admin) is Ok <==> token is Ok && is_admin is Ok,
        post_auth_run(username, token, is_admin) matches Ok(a) ==> a == (Authorization {
            username,
            token: token->Ok_0,
            is_admin: is_admin->Ok_0,
        }),
        token matches Err(e) ==> post_auth_run(username, token, is_admin) == Err::<
            Authorization,
            _,
        >(APIError::Manager(e)),
        token is Ok ==> (is_admin matches Err(e) ==> post_auth_run(username, token, is_admin)
            == Err::<Authorization, _>(APIError::Manager(e))),
{
}

/// A call that changes accounts.
#[derive(Debug)]
pub enum UserCall {
    Create { name: String, password: String, admin: bool },
    SetPassword { name: String, password: String },
    SetIsAdmin { name: String, is_admin: bool },
    Delete { name: String },
}

/// A request to change accounts that awaits the outcome of a call.
#[derive(Debug)]
pub enum UserChange {
    /// The password is being set; the administrator rights come next.
    SettingPassword { name: String, new_is_admin: Option<bool> },
    /// The last call is being made.
    Finishing,
}

/// Starts to create an account.
pub fn post_user<E>(new_user: NewUser) -> (step: Step<UserCall, UserChange, Result<(), APIError<E>>>)
    ensures
        step == Step::<_, _, Result<(), APIError<E>>>::Call(
            UserCall::Create {
                name: new_user.name,
                password: new_user.password,
                admin: new_user.admin,
            },
            UserChange::Finishing,
        ),
{
    Step::Call(
        UserCall::Create {
            name: new_user.name,
            password: new_user.password,
            admin: new_user.admin,
        },
        UserChange::Finishing,
    )
}

/// The request is made by the account it is about.
pub open spec fn is_about_self(rights: AdminRights, name: String) -> bool {
    rights.auth matches Some(auth) && auth.username@ == name@
}

/// The step that sets administrator rights, where they are to change.
pub open spec fn admin_step<E>(name: String, new_is_admin: Option<bool>) -> Step<
    UserCall,
    UserChange,
    Result<(), APIError<E>>,
> {
    match new_is_admin {
        Some(is_admin) => Step::Call(
            UserCall::SetIsAdmin { name, is_admin },
            UserChange::Finishing,
        ),
        None => Step::Reply(Ok(())),
    }
}

/// The first step of a request to change an account.
pub open spec fn put_user_step<E>(rights: AdminRights, name: String, update: UserUpdate) -> Step<
    UserCall,
    UserChange,
    Result<(), APIError<E>>,
> {
    if is_about_self(rights, name) && update.new_is_admin == Some(false) {
        Step::Reply(Err(APIError::OwnAdminPrivilegeRemoval))
    } else {
        match update.new_password {
            Some(password) => Step::Call(
                UserCall::SetPassword { name, password },
                UserChange::SettingPassword { name, new_is_admin: update.new_is_admin },
            ),
            None => admin_step(name, update.new_is_admin),
        }
    }
}

/// The first step of a request to delete an account.
pub open spec fn delete_user_step<E>(rights: AdminRights, name: String) -> Step<
    UserCall,
    UserChange,
    Result<(), APIError<E>>,
> {
    if is_about_self(rights, name) {
        Step::Reply(Err(APIError::DeletingOwnAccount))
    } else {
        Step::Call(UserCall::Delete { name }, UserChange::Finishing)
    }
}

/// The step that follows the outcome of a call.
pub open spec fn user_change_step<E>(state: UserChange, outcome: Result<(), E>) -> Step<
    UserCall,
    UserChange,
    Result<(), APIError<E>>,
> {
    match outcome {
        Err(e) => Step::Reply(Err(APIError::Manager(e))),
        Ok(_) => match state {
            UserChange::SettingPassword { name, new_is_admin } => admin_step(name, new_is_admin),
            UserChange::Finishing => Step::Reply(Ok(())),
        },
    }
}

fn is_self(rights: &AdminRights, name: &String) -> (r: bool)
    ensures
        r == is_about_self(*rights, *name),
{
    match &rights.auth {
        Some(auth) => auth.username == *name,
        None => false,
    }
}

fn set_is_admin<E>(name: String, new_is_admin: Option<bool>) -> (step: Step<
    UserCall,
    UserChange,
    Result<(), APIError<E>>,
>)
    ensures
        step == admin_step::<E>(name, new_is_admin),
{
    match new_is_admin {
        Some(is_admin) => Step::Call(
            UserCall::SetIsAdmin { name, is_admin },
            UserChange::Finishing,
        ),
        None => Step::Reply(Ok(())),
    }
}

/// Starts to change the account `name`: the password first, then the
/// administrator rights. Nobody takes their own rights away.
pub fn put_user<E>(rights: &AdminRights, name: String, update: UserUpdate) -> (step: Step<
    UserCall,
    UserChange,
    Result<(), APIError<E>>,
>)
    ensures
        step == put_user_step::<E>(*rights, name, update),
{
    if is_self(rights, &name) {
        if let Some(false) = update.new_is_admin {
            return Step::Reply(Err(APIError::OwnAdminPrivilegeRemoval));
        }
    }
    match update.new_password {
        Some(password) => Step::Call(
            UserCall::SetPassword { name: name.clone(), password },
            UserChange::SettingPassword { name, new_is_admin: update.new_is_admin },
        ),
        None => set_is_admin(name, update.new_is_admin),
    }
}

/// Starts to delete the account `name`. Nobody deletes their own.
pub fn delete_user<E>(rights: &AdminRights, name: String) -> (step: Step<
    UserCall,
    UserChange,
    Result<(), APIError<E>>,
>)
    ensures
        step == delete_user_step::<E>(*rights, name),
{
    if is_self(rights, &name) {
        Step::Reply(Err(APIError::DeletingOwnAccount))
    } else {
        Step::Call(UserCall::Delete { name }, UserChange::Finishing)
    }
}

impl UserChange {
    /// Goes on with the outcome of the call that was made last.
    pub fn resume<E>(self, outcome: Result<(), E>) -> (step: Step<
        UserCall,
        UserChange,
        Result<(), APIError<E>>,
    >)
        ensures
            step == user_change_step(self, outcome),
    {
        match outcome {
            Err(e) => Step::Reply(Err(APIError::Manager(e))),
            Ok(_) => match self {
                UserChange::SettingPassword { name, new_is_admin } => set_is_admin(
                    name,
                    new_is_admin,
                ),
                UserChange::Finishing => Step::Reply(Ok(())),
            },
        }
    }
}

/// The calls that a request makes from `step` on, and its answer, when the
/// calls have `outcomes`.
pub open spec fn user_change_run<E>(
    step: Step<UserCall, UserChange, Result<(), APIError<E>>>,
    outcomes: Seq<Result<(), E>>,
) -> (Seq<UserCall>, Option<Result<(), APIError<E>>>) {
    run(
        |state: UserChange, outcome: Result<(), E>| user_change_step(state, outcome),
        step,
        outcomes,
    )
}

/// The calls that an update takes.
pub open spec fn update_calls(name: String, update: UserUpdate) -> Seq<UserCall> {
    (match update.new_password {
        Some(password) => seq![UserCall::SetPassword { name, password }],
        None => Seq::empty(),
    }) + (match update.new_is_admin {
        Some(is_admin) => seq![UserCall::SetIsAdmin { name, is_admin }],
        None => Seq::empty(),
    })
}

/// The update would take the rights of the account that asks for it.
pub open spec fn removes_own_rights(rights: AdminRights, name: String, update: UserUpdate) -> bool {
    is_about_self(rights, name) && update.new_is_admin == Some(false)
}

/// When every call succeeds, an update that leaves its own author's rights
/// alone makes the changes it asked for, the password first, and is granted.
pub proof fn law_user_updates_are_made<E>(
    rights: AdminRights,
    name: String,
    update: UserUpdate,
    outcomes: Seq<Result<(), E>>,
)
    requires
        !removes_own_rights(rights, name, update),
        outcomes.len() >= update_calls(name, update).len(),
        forall|i: int| 0 <= i < outcomes.len() ==> #[trigger] outcomes[i] is Ok,
    ensures
        user_change_run(put_user_step(rights, name, update), outcomes) == (
            update_calls(name, update),
            Some(Ok::<(), APIError<E>>(())),
        ),
{
    reveal_with_fuel(run, 4);
    assert(user_change_run(put_user_step(rights, name, update), outcomes).0 =~= update_calls(
        name,
        update,
    ));
}

/// The first call that fails ends an update: no call follows it, and its error
/// is the answer.
pub proof fn law_failed_call_ends_put_user<E>(
    rights: AdminRights,
    name: String,
    update: UserUpdate,
    outcomes: Seq<Result<(), E>>,
    failed: int,
)
    requires
        !removes_own_rights(rights, name, update),
        0 <= failed < update_calls(name, update).len(),
        failed < outcomes.len(),
        forall|i: int| 0 <= i < failed ==> #[trigger] outcomes[i] is Ok,
        outcomes[failed] is Err,
    ensures
        user_change_run(put_user_step(rights, name, update), outcomes) == (
            update_calls(name, update).take(failed + 1),
            Some(Err::<(), APIError<E>>(APIError::Manager(outcomes[failed]->Err_0))),
        ),
{
    reveal_with_fuel(run, 4);
    assert(failed > 0 ==> outcomes[0] is Ok);
    assert(user_change_run(put_user_step(rights, name, update), outcomes).0 =~= update_calls(
        name,
        update,
    ).take(failed + 1));
}

/// A request by which administrators would lose their own rights is refused
/// whole: not even its password is set.
pub proof fn law_own_rights_are_kept<E>(
    rights: AdminRights,
    name: String,
    update: UserUpdate,
    outcomes: Seq<Result<(), E>>,
)
    requires
        removes_own_rights(rights, name, update),
    ensures
        user_change_run(put_user_step(rights, name, update), outcomes) == (
            Seq::<UserCall>::empty(),
            Some(Err::<(), APIError<E>>(APIError::OwnAdminPrivilegeRemoval)),
        ),
{
    reveal_with_fuel(run, 2);
}

/// Creating an account, or deleting that of somebody else, takes one call, and
/// is answered with its outcome.
pub proof fn law_one_call_creates_or_deletes<E>(
    rights: AdminRights,
    name: String,
    outcomes: Seq<Result<(), E>>,
    created: UserCall,
)
    requires
        outcomes.len() > 0,
    ensures
        !is_about_self(rights, name) ==> user_change_run(
            delete_user_step(rights, name),
            outcomes,
        ) == (seq![UserCall::Delete { name }], Some(passed_on(outcomes[0]))),
        user_change_run(
            Step::<_, _, Result<(), APIError<E>>>::Call(created, UserChange::Finishing),
            outcomes,
        ) == (seq![created], Some(passed_on(outcomes[0]))),
{
    reveal_with_fuel(run, 3);
    assert(seq![created] + Seq::<UserCall>::empty() == seq![created]);
    assert(seq![UserCall::Delete { name }] + Seq::<UserCall>::empty() == seq![
        UserCall::Delete { name },
    ]);
}

/// Administrators who would take away their own rights, or delete their own
/// account, are told of a conflict, and no call is made.
pub proof fn law_turning_on_oneself_is_a_conflict<E>(
    rights: AdminRights,
    name: String,
    update: UserUpdate,
    outcomes: Seq<Result<(), E>>,
)
    ensures
        removes_own_rights(rights, name, update) ==> ({
            let (calls, answer) = user_change_run(put_user_step(rights, name, update), outcomes);
            &&& calls.len() == 0
            &&& answer matches Some(Err(e)) && status_of::<E>(e) == Some(409u16)
        }),
        is_about_self(rights, name) ==> ({
            let (calls, answer) = user_change_run(delete_user_step(rights, name), outcomes);
            &&& calls.len() == 0
            &&& answer matches Some(Err(e)) && status_of::<E>(e) == Some(409u16)
        }),
{
    reveal_with_fuel(run, 2);
}

/// `call` takes the rights or the account of `username` away.
pub open spec fn harms(call: UserCall, username: Seq<char>) -> bool {
    match call {
        UserCall::SetIsAdmin { name, is_admin } => name@ == username && !is_admin,
        UserCall::Delete { name } => name@ == username,
        _ => false,
    }
}

/// Whatever administrators ask for, and whatever their calls meet with, no
/// call takes their own rights or their own account away.
pub proof fn law_admins_do_not_lock_themselves_out<E>(
    auth: Auth,
    name: String,
    update: UserUpdate,
    outcomes: Seq<Result<(), E>>,
    i: int,
)
    ensures
        0 <= i < user_change_run(
            put_user_step(AdminRights { auth: Some(auth) }, name, update),
            outcomes,
        ).0.len() ==> !harms(
            user_change_run(
                put_user_step(AdminRights { auth: Some(auth) }, name, update),
                outcomes,
            ).0[i],
            auth.username@,
        ),
        0 <= i < user_change_run(
            delete_user_step(AdminRights { auth: Some(auth) }, name),
            outcomes,
        ).0.len() ==> !harms(
            user_change_run(
                delete_user_step(AdminRights { auth: Some(auth) }, name),
                outcomes,
            ).0[i],
            auth.username@,
        ),
{
    reveal_with_fuel(run, 4);
}

} // verus!

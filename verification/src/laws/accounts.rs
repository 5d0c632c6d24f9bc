//! Logging in, and administering accounts.

use vstd::prelude::*;

use crate::config::User;
use crate::error::{pass_on, status, APIError};
use crate::step::Step;
use crate::users::{
    delete_user, get_initial_setup, post_auth, post_user, put_user, AdminRights, Authorization,
    Credentials, GetUser, InitialSetup, LoggingIn, Login, LookingUp, NewUser, UserCall, UserChange,
    UserUpdate,
};

verus! {

/// A server is set up if and only if one of its accounts is an administrator.
pub proof fn law_setup_needs_an_admin(users: Vec<User>, setup: InitialSetup)
    requires
        call_ensures(get_initial_setup, (&users,), setup),
    ensures
        setup.has_any_users <==> exists|i: int|
            0 <= i < users@.len() && (#[trigger] users@[i]).admin == Some(true),
{
    if setup.has_any_users {
        let views = crate::users::users_view(users@);
        let i = choose|i: int| 0 <= i < views.len() && (#[trigger] views[i]).admin == Some(true);
        assert(users@[i].admin == Some(true));
    }
    if exists|i: int| 0 <= i < users@.len() && (#[trigger] users@[i]).admin == Some(true) {
        let i = choose|i: int| 0 <= i < users@.len() && (#[trigger] users@[i]).admin == Some(true);
        assert(crate::users::users_view(users@)[i].admin == Some(true));
    }
}

/// A login is checked with the name and the password of the client. Whatever
/// token a right password gives, the account looked up next is the one that
/// logs in; a wrong password ends the login with the error of its check.
pub proof fn law_login_looks_its_account_up<E>(
    credentials: Credentials,
    start: (Login, LoggingIn),
    token: Result<String, E>,
    step: Step<GetUser, LookingUp, Result<Authorization, APIError<E>>>,
)
    requires
        call_ensures(post_auth, (credentials,), start),
        call_ensures(LoggingIn::resume::<E>, (start.1, token), step),
    ensures
        start.0.username@ == credentials.username@,
        start.0.password@ == credentials.password@,
        match token {
            Ok(_) => step matches Step::Call(call, _) && call.name@ == credentials.username@,
            Err(e) => step == Step::<GetUser, LookingUp, _>::Reply(
                Err::<Authorization, APIError<E>>(APIError::Manager(e)),
            ),
        },
{
}

/// Who logs in is given the token that the password check gave, under the name
/// of the account, and told whether the account is an administrator; or else
/// why the account could not be looked up.
pub proof fn law_login_gives_the_token<E>(
    credentials: Credentials,
    start: (Login, LoggingIn),
    token: String,
    step: Step<GetUser, LookingUp, Result<Authorization, APIError<E>>>,
    is_admin: Result<bool, E>,
    answer: Result<Authorization, APIError<E>>,
)
    requires
        call_ensures(post_auth, (credentials,), start),
        call_ensures(LoggingIn::resume::<E>, (start.1, Ok::<String, E>(token)), step),
        step matches Step::Call(_, state) ==> call_ensures(
            LookingUp::resume::<E>,
            (state, is_admin),
            answer,
        ),
    ensures
        match is_admin {
            Ok(admin) => answer matches Ok(authorization) && authorization.username@
                == credentials.username@ && authorization.token@ == token@
                && authorization.is_admin == admin,
            Err(e) => answer == Err::<Authorization, APIError<E>>(APIError::Manager(e)),
        },
{
}

/// An account is created with the name, the password and the rights asked for,
/// and the answer is the outcome of that.
pub proof fn law_accounts_are_created<E>(
    new_user: NewUser,
    step: Step<UserCall, UserChange, Result<(), APIError<E>>>,
    outcome: Result<(), E>,
    last: Step<UserCall, UserChange, Result<(), APIError<E>>>,
)
    requires
        call_ensures(post_user::<E>, (new_user,), step),
        step matches Step::Call(_, state) ==> call_ensures(
            UserChange::resume::<E>,
            (state, outcome),
            last,
        ),
    ensures
        step matches Step::Call(UserCall::Create { name, password, admin }, _) && name@
            == new_user.name@ && password@ == new_user.password@ && admin == new_user.admin,
        match outcome {
            Ok(_) => last == Step::<UserCall, UserChange, _>::Reply(Ok::<(), APIError<E>>(())),
            Err(e) => last == Step::<UserCall, UserChange, _>::Reply(
                Err::<(), APIError<E>>(APIError::Manager(e)),
            ),
        },
{
}

/// Administrators can delete every account that does not have their own name,
/// and the answer is the outcome of that. Their own they cannot.
pub proof fn law_other_accounts_can_be_deleted<E>(
    rights: AdminRights,
    name: String,
    step: Step<UserCall, UserChange, Result<(), APIError<E>>>,
    outcome: Result<(), E>,
    last: Step<UserCall, UserChange, Result<(), APIError<E>>>,
)
    requires
        call_ensures(delete_user::<E>, (&rights, name), step),
        step matches Step::Call(_, state) ==> call_ensures(
            UserChange::resume::<E>,
            (state, outcome),
            last,
        ),
    ensures
        (rights.auth matches Some(auth) && auth.username@ == name@) ==> step == Step::<
            UserCall,
            UserChange,
            _,
        >::Reply(Err::<(), APIError<E>>(APIError::DeletingOwnAccount)),
        (rights.auth matches Some(auth) ==> auth.username@ != name@) ==> {
            &&& step matches Step::Call(UserCall::Delete { name: deleted }, _) && deleted@ == name@
            &&& match outcome {
                Ok(_) => last == Step::<UserCall, UserChange, _>::Reply(Ok::<(), APIError<E>>(())),
                Err(e) => last == Step::<UserCall, UserChange, _>::Reply(
                    Err::<(), APIError<E>>(APIError::Manager(e)),
                ),
            }
        },
{
}

/// Administrators can change every account that does not have their own name,
/// and their own unless they would lose their rights: the password first, where
/// one is asked for, and else the rights.
pub proof fn law_accounts_can_be_changed<E>(
    rights: AdminRights,
    name: String,
    update: UserUpdate,
    step: Step<UserCall, UserChange, Result<(), APIError<E>>>,
)
    requires
        call_ensures(put_user::<E>, (&rights, name, update), step),
    ensures
        (rights.auth matches Some(auth) && auth.username@ == name@ && update.new_is_admin == Some(
            false,
        )) ==> step == Step::<UserCall, UserChange, _>::Reply(
            Err::<(), APIError<E>>(APIError::OwnAdminPrivilegeRemoval),
        ),
        (rights.auth matches Some(auth) ==> auth.username@ != name@ || update.new_is_admin != Some(
            false,
        )) ==> match (update.new_password, update.new_is_admin) {
            (Some(password), _) => step matches Step::Call(
                UserCall::SetPassword { name: changed, password: set },
                _,
            ) && changed@ == name@ && set@ == password@,
            (None, Some(admin)) => step matches Step::Call(
                UserCall::SetIsAdmin { name: changed, is_admin },
                _,
            ) && changed@ == name@ && is_admin == admin,
            (None, None) => step == Step::<UserCall, UserChange, _>::Reply(
                Ok::<(), APIError<E>>(()),
            ),
        },
{
}

/// Once a password has been set, the rights of the same account are set, where
/// they are to change, and then the request is granted.
pub proof fn law_rights_follow_the_password<E>(
    rights: AdminRights,
    name: String,
    update: UserUpdate,
    step: Step<UserCall, UserChange, Result<(), APIError<E>>>,
    next: Step<UserCall, UserChange, Result<(), APIError<E>>>,
    last: Step<UserCall, UserChange, Result<(), APIError<E>>>,
)
    requires
        call_ensures(put_user::<E>, (&rights, name, update), step),
        step matches Step::Call(_, state) && call_ensures(
            UserChange::resume::<E>,
            (state, Ok::<(), E>(())),
            next,
        ),
        next matches Step::Call(_, state) ==> call_ensures(
            UserChange::resume::<E>,
            (state, Ok::<(), E>(())),
            last,
        ),
    ensures
        match (update.new_password, update.new_is_admin) {
            (Some(_), Some(admin)) => {
                &&& next matches Step::Call(
                    UserCall::SetIsAdmin { name: changed, is_admin },
                    _,
                ) && changed@ == name@ && is_admin == admin
                &&& last == Step::<UserCall, UserChange, _>::Reply(Ok::<(), APIError<E>>(()))
            },
            _ => next == Step::<UserCall, UserChange, _>::Reply(Ok::<(), APIError<E>>(())),
        },
{
}

/// Whichever call that changes accounts fails, its error is the answer.
pub proof fn law_failed_account_call_is_reported<E>(
    state: UserChange,
    error: E,
    step: Step<UserCall, UserChange, Result<(), APIError<E>>>,
)
    requires
        call_ensures(UserChange::resume::<E>, (state, Err::<(), E>(error)), step),
    ensures
        step == Step::<UserCall, UserChange, _>::Reply(
            Err::<(), APIError<E>>(APIError::Manager(error)),
        ),
{
}

/// Turning on oneself is a conflict, a request that cannot be read is a bad
/// one, a file that cannot be read is not found; what a manager refuses has no
/// status of its own, and is passed on as it is.
pub proof fn law_refusals<T, E>(
    error: APIError<E>,
    code: Option<u16>,
    outcome: Result<T, E>,
    answer: Result<T, APIError<E>>,
)
    requires
        call_ensures(status::<E>, (&error,), code),
        call_ensures(pass_on::<T, E>, (outcome,), answer),
    ensures
        code == Some(409u16) <==> (error is OwnAdminPrivilegeRemoval || error
            is DeletingOwnAccount),
        code == Some(400u16) <==> (error is InvalidAlbumArtPattern || error is InvalidDDNSURL),
        code == Some(404u16) <==> (error is AudioFileIOError || error is ThumbnailFileIOError),
        code is None <==> error is Manager,
        match outcome {
            Ok(value) => answer == Ok::<T, APIError<E>>(value),
            Err(e) => answer == Err::<T, APIError<E>>(APIError::Manager(e)),
        },
{
}

} // verus!

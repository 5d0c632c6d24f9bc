use polaris::error::{pass_on, status, APIError};
use polaris::step::Step;
use polaris::users::{
    delete_user, post_auth, post_user, put_user, AdminRights, Auth, Credentials, NewUser, UserCall,
    UserChange, UserUpdate,
};

type Reply = Result<(), APIError<&'static str>>;

fn rights(username: &str) -> AdminRights {
    AdminRights { auth: Some(Auth { username: username.to_owned() }) }
}

fn describe(call: &UserCall) -> String {
    match call {
        UserCall::Create { name, password, admin } => format!("create {name} {password} {admin}"),
        UserCall::SetPassword { name, password } => format!("password {name} {password}"),
        UserCall::SetIsAdmin { name, is_admin } => format!("admin {name} {is_admin}"),
        UserCall::Delete { name } => format!("delete {name}"),
    }
}

fn run(
    mut step: Step<UserCall, UserChange, Reply>,
    outcomes: &[Result<(), &'static str>],
) -> (Vec<String>, Option<Reply>) {
    let mut calls = Vec::new();
    for outcome in outcomes {
        match step {
            Step::Reply(reply) => return (calls, Some(reply)),
            Step::Call(call, state) => {
                calls.push(describe(&call));
                step = state.resume(*outcome);
            }
        }
    }
    match step {
        Step::Reply(reply) => (calls, Some(reply)),
        Step::Call(call, _) => {
            calls.push(describe(&call));
            (calls, None)
        }
    }
}

fn update(new_password: Option<&str>, new_is_admin: Option<bool>) -> UserUpdate {
    UserUpdate { new_password: new_password.map(|p| p.to_owned()), new_is_admin }
}

#[test]
fn user_is_created() {
    let new_user =
        NewUser { name: "walter".to_owned(), password: "pw".to_owned(), admin: true };
    let (calls, reply) = run(post_user(new_user), &[Ok(())]);
    assert_eq!(calls, vec!["create walter pw true"]);
    assert!(matches!(reply, Some(Ok(()))));
}

#[test]
fn refused_user_is_reported() {
    let new_user = NewUser { name: "".to_owned(), password: "pw".to_owned(), admin: false };
    let (_, reply) = run(post_user(new_user), &[Err("empty name")]);
    assert!(matches!(reply, Some(Err(APIError::Manager("empty name")))));
}

#[test]
fn update_sets_the_password_and_then_the_rights() {
    let step = put_user(&rights("walter"), "donny".to_owned(), update(Some("pw"), Some(false)));
    let (calls, reply) = run(step, &[Ok(()), Ok(())]);
    assert_eq!(calls, vec!["password donny pw", "admin donny false"]);
    assert!(matches!(reply, Some(Ok(()))));
    let (calls, reply) =
        run(put_user(&rights("walter"), "donny".to_owned(), update(None, None)), &[]);
    assert!(calls.is_empty());
    assert!(matches!(reply, Some(Ok(()))));
}

#[test]
fn failed_update_stops() {
    let step = put_user(&rights("walter"), "donny".to_owned(), update(Some("pw"), Some(true)));
    let (calls, reply) = run(step, &[Err("no such user"), Ok(())]);
    assert_eq!(calls, vec!["password donny pw"]);
    assert!(matches!(reply, Some(Err(APIError::Manager("no such user")))));
}

#[test]
fn own_rights_cannot_be_removed() {
    let step = put_user(&rights("walter"), "walter".to_owned(), update(Some("pw"), Some(false)));
    let (calls, reply) = run(step, &[Ok(()), Ok(())]);
    assert!(calls.is_empty());
    assert!(matches!(&reply, Some(Err(APIError::OwnAdminPrivilegeRemoval))));
    assert!(matches!(&reply, Some(Err(e)) if status(e) == Some(409)));
    let step = put_user(&rights("walter"), "walter".to_owned(), update(Some("pw"), Some(true)));
    let (calls, _) = run(step, &[Ok(()), Ok(())]);
    assert_eq!(calls, vec!["password walter pw", "admin walter true"]);
    let nobody = AdminRights { auth: None };
    let (calls, _) = run(put_user(&nobody, "walter".to_owned(), update(None, Some(false))), &[Ok(())]);
    assert_eq!(calls, vec!["admin walter false"]);
}

#[test]
fn own_account_cannot_be_deleted() {
    let (calls, reply) = run(delete_user(&rights("walter"), "walter".to_owned()), &[Ok(())]);
    assert!(calls.is_empty());
    assert!(matches!(&reply, Some(Err(APIError::DeletingOwnAccount))));
    assert!(matches!(&reply, Some(Err(e)) if status(e) == Some(409)));
    let (calls, reply) = run(delete_user(&rights("walter"), "donny".to_owned()), &[Ok(())]);
    assert_eq!(calls, vec!["delete donny"]);
    assert!(matches!(reply, Some(Ok(()))));
}

#[test]
fn login_gives_the_token() {
    let credentials = Credentials { username: "walter".to_owned(), password: "pw".to_owned() };
    let (login, state) = post_auth(credentials);
    assert_eq!(login.username, "walter");
    assert_eq!(login.password, "pw");
    match state.resume::<()>(Ok("token".to_owned())) {
        Step::Call(call, state) => {
            assert_eq!(call.name, "walter");
            let authorization = state.resume::<()>(Ok(true)).unwrap();
            assert_eq!(authorization.username, "walter");
            assert_eq!(authorization.token, "token");
            assert!(authorization.is_admin);
        }
        Step::Reply(_) => panic!("no lookup"),
    }
}

#[test]
fn wrong_password_ends_the_login() {
    let credentials = Credentials { username: "walter".to_owned(), password: "pw".to_owned() };
    let (_, state) = post_auth(credentials);
    assert!(matches!(
        state.resume(Err("incorrect password")),
        Step::Reply(Err(APIError::Manager("incorrect password")))
    ));
}

#[test]
fn refusals_are_passed_on() {
    assert!(matches!(pass_on::<u8, u8>(Ok(3)), Ok(3)));
    assert!(matches!(pass_on::<u8, u8>(Err(4)), Err(APIError::Manager(4))));
}

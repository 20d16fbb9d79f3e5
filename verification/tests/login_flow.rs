use nextory::api::Error;
use nextory::client::{AccountList, AccountType, Client, LoginData, SaltData, SubAccount};
use nextory::login::{Awaited, LoginEvent, LoginState};
use nextory::request::Method;

fn sub(loginkey: &str, status: &str) -> SubAccount {
    SubAccount { loginkey: loginkey.to_string(), status: status.to_string() }
}

fn salt(value: &str) -> LoginEvent {
    LoginEvent::Salt(Ok(SaltData { salt: value.to_string() }))
}

fn login(token: &str, accounttype: u8) -> LoginEvent {
    LoginEvent::Login(Ok(LoginData { token: token.to_string(), accounttype }))
}

fn accounts(list: Vec<SubAccount>) -> LoginEvent {
    LoginEvent::Accounts(Ok(AccountList { accounts: list }))
}

#[test]
fn login_begins_by_asking_for_a_salt() {
    let step = Client::from_credentials("alice", "secret");
    match &step.state {
        LoginState::Unauthenticated { username, password } => {
            assert_eq!(username, "alice");
            assert_eq!(password, "secret");
        }
        other => panic!("unexpected state {:?}", other),
    }
    let request = step.request.unwrap();
    assert_eq!(request.method, Method::Get);
    assert_eq!(request.url, "https://api.nextory.se/api/app/catalogue/7.5/salt");
    assert_eq!(step.unexpected_account_type, None);
    assert!(!step.state.ended());
}

#[test]
fn login_walks_through_all_states_to_a_session() {
    let step = Client::from_credentials("alice", "secret");

    let step = step.state.step(salt("salty"));
    assert!(matches!(&step.state, LoginState::SaltFetched { salt } if salt == "salty"));
    let request = step.request.unwrap();
    assert_eq!(request.method, Method::Post);
    assert_eq!(request.url, "https://api.nextory.se/api/app/user/7.5/login");
    assert_eq!(request.form[2].1, "B5ADE9995AAA7815F9D12A2AF0B3674D");

    let step = step.state.step(login("primary", 1));
    assert!(matches!(
        &step.state,
        LoginState::PrimaryLoginComplete { salt, client }
            if salt == "salty" && client.token == "primary"
    ));
    assert_eq!(step.unexpected_account_type, None);
    let request = step.request.unwrap();
    assert_eq!(request.url, "https://api.nextory.se/api/app/user/7.5/accounts/list");
    assert_eq!(request.headers, vec![("token".to_string(), "primary".to_string())]);

    let step = step.state.step(accounts(vec![
        sub("key0", "inactive"),
        sub("key1", "active"),
        sub("key2", "active"),
    ]));
    assert!(matches!(
        &step.state,
        LoginState::SubaccountSelected { client } if client.token == "primary"
    ));
    let request = step.request.unwrap();
    assert_eq!(request.method, Method::Get);
    assert_eq!(
        request.url,
        "https://api.nextory.se/api/app/user/7.5/login?loginkey=key1&checksum=1ED448F45FB081445627628A896C6F0F"
    );
    assert_eq!(request.headers, vec![("token".to_string(), "primary".to_string())]);

    let step = step.state.step(login("session", 3));
    assert!(step.request.is_none());
    assert_eq!(step.unexpected_account_type, None);
    assert!(step.state.ended());
    let client = step.state.finish().unwrap();
    assert_eq!(client.token, "session");
    assert_eq!(client.random.len(), 62);
}

#[test]
fn unexpected_account_type_is_reported_and_the_login_goes_on() {
    let step = Client::from_credentials("a", "b").state.step(salt("s"));
    let step = step.state.step(login("primary", 4));
    assert_eq!(step.unexpected_account_type, Some(4));
    assert!(matches!(step.state, LoginState::PrimaryLoginComplete { .. }));
    assert!(step.request.is_some());
}

#[test]
fn login_without_an_active_subaccount_fails() {
    let step = Client::from_credentials("a", "b").state.step(salt("s"));
    let step = step.state.step(login("primary", 1));
    let step = step.state.step(accounts(vec![sub("k", "inactive"), sub("l", "Active")]));
    assert!(step.request.is_none());
    assert_eq!(
        step.state.finish().unwrap_err(),
        Error::Status("Couldn't find loginkey for active subacccount".to_string())
    );
}

#[test]
fn login_with_no_subaccounts_fails() {
    let step = Client::from_credentials("a", "b").state.step(salt("s"));
    let step = step.state.step(login("primary", 1));
    let step = step.state.step(accounts(Vec::new()));
    assert!(matches!(step.state, LoginState::Failed { error: Error::Status(_) }));
}

#[test]
fn a_failed_salt_ends_the_login() {
    let step = Client::from_credentials("a", "b");
    let step = step.state.step(LoginEvent::Salt(Err(Error::Api(503, "down".to_string()))));
    assert!(step.request.is_none());
    assert!(step.state.ended());
    assert_eq!(step.state.finish().unwrap_err(), Error::Api(503, "down".to_string()));
}

#[test]
fn a_failed_primary_login_ends_the_login() {
    let step = Client::from_credentials("a", "b").state.step(salt("s"));
    let step = step.state.step(LoginEvent::Login(Err(Error::Api(401, "wrong".to_string()))));
    assert!(step.request.is_none());
    assert_eq!(step.state.finish().unwrap_err(), Error::Api(401, "wrong".to_string()));
}

#[test]
fn a_transport_failure_ends_the_login() {
    let step = Client::from_credentials("a", "b").state.step(salt("s"));
    let step = step.state.step(login("primary", 1));
    let step = step.state.step(LoginEvent::Accounts(Err(Error::Reqwest("timeout".to_string()))));
    assert!(step.request.is_none());
    assert_eq!(step.state.finish().unwrap_err(), Error::Reqwest("timeout".to_string()));
}

#[test]
fn a_failed_subaccount_login_ends_the_login() {
    let step = Client::from_credentials("a", "b").state.step(salt("s"));
    let step = step.state.step(login("primary", 1));
    let step = step.state.step(accounts(vec![sub("k", "active")]));
    let step = step.state.step(LoginEvent::Login(Err(Error::Unknown)));
    assert!(step.request.is_none());
    assert_eq!(step.state.finish().unwrap_err(), Error::Unknown);
}

#[test]
fn an_answer_out_of_turn_ends_the_login() {
    let step = Client::from_credentials("a", "b").state.step(login("primary", 1));
    assert!(step.request.is_none());
    assert_eq!(step.state.finish().unwrap_err(), Error::Unknown);
    let step = Client::from_credentials("a", "b").state.step(salt("s"));
    let step = step.state.step(salt("again"));
    assert_eq!(step.state.finish().unwrap_err(), Error::Unknown);
}

#[test]
fn a_finished_login_stays_finished() {
    let step = Client::from_credentials("a", "b");
    let step = step.state.step(LoginEvent::Salt(Err(Error::Api(500, "x".to_string()))));
    let step = step.state.step(salt("late"));
    assert!(step.request.is_none());
    assert_eq!(step.state.finish().unwrap_err(), Error::Api(500, "x".to_string()));
}

#[test]
fn an_unfinished_login_has_no_session() {
    let step = Client::from_credentials("a", "b");
    assert_eq!(step.state.finish().unwrap_err(), Error::Unknown);
}

#[test]
fn active_loginkey_is_the_first_active_one() {
    let list = AccountList {
        accounts: vec![sub("a", "canceled"), sub("b", "active"), sub("c", "active")],
    };
    assert_eq!(list.active_loginkey(), Some("b"));
    let none = AccountList { accounts: vec![sub("a", "canceled"), sub("b", "ACTIVE")] };
    assert_eq!(none.active_loginkey(), None);
    assert_eq!(AccountList { accounts: Vec::new() }.active_loginkey(), None);
}

#[test]
fn account_type_codes() {
    assert_eq!(AccountType::Member.code(), 1);
    assert_eq!(AccountType::Canceled.code(), 2);
    assert_eq!(AccountType::NonMember.code(), 3);
    assert_eq!(AccountType::Visitor.code(), 4);
    assert!(LoginData { token: String::new(), accounttype: 1 }.is_member());
    assert!(!LoginData { token: String::new(), accounttype: 2 }.is_member());
}

#[test]
fn each_state_says_which_answer_it_waits_for() {
    let step = Client::from_credentials("a", "b");
    assert_eq!(step.state.awaits(), Some(Awaited::Salt));
    let step = step.state.step(salt("s"));
    assert_eq!(step.state.awaits(), Some(Awaited::Login));
    let step = step.state.step(login("primary", 1));
    assert_eq!(step.state.awaits(), Some(Awaited::Accounts));
    let step = step.state.step(accounts(vec![sub("k", "active")]));
    assert_eq!(step.state.awaits(), Some(Awaited::Login));
    let step = step.state.step(login("session", 1));
    assert_eq!(step.state.awaits(), None);
    let failed =
        Client::from_credentials("a", "b").state.step(LoginEvent::Salt(Err(Error::Unknown)));
    assert_eq!(failed.state.awaits(), None);
}

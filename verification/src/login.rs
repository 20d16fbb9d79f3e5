//! The login handshake as a state machine: salt, primary login, choice of
//! the active sub-account, sub-account login.
//!
//! Each step takes the answer to the request that the step before asked
//! for. No step is tried twice: the first failure ends the attempt.
use vstd::prelude::*;
use crate::api::{Error, ErrorView, Result};
use crate::client::{
    active_loginkey, get_request, salt_request, session, subaccount_login_url,
    user_login_request, AccountList, AccountType, Client, ClientView, LoginData, SaltData,
    SubAccount, USER_ACCOUNTS_LIST_URL,
};
use crate::request::{Request, RequestView};

verus! {

/// The message of the failure when no sub-account is active.
pub const NO_ACTIVE_SUBACCOUNT: &'static str = "Couldn't find loginkey for active subacccount";

/// How far a login attempt has come.
#[derive(Debug)]
pub enum LoginState {
    /// Nothing is known yet; the salt has been asked for.
    Unauthenticated { username: String, password: String },
    /// The salt is known; the primary login has been asked for.
    SaltFetched { salt: String },
    /// The primary account is logged in; its sub-accounts have been asked
    /// for.
    PrimaryLoginComplete { salt: String, client: Client },
    /// The active sub-account is chosen; its login has been asked for.
    SubaccountSelected { client: Client },
    /// The attempt has succeeded: `client` is the session.
    Authenticated { client: Client },
    /// The attempt has failed.
    Failed { error: Error },
}

/// The mathematical content of a [`LoginState`]. Of the primary account
/// it holds the token alone.
pub enum LoginStateView {
    Unauthenticated { username: Seq<char>, password: Seq<char> },
    SaltFetched { salt: Seq<char> },
    PrimaryLoginComplete { salt: Seq<char>, token: Seq<char> },
    SubaccountSelected { token: Seq<char> },
    Authenticated { client: ClientView },
    Failed { error: ErrorView },
}

impl View for LoginState {
    type V = LoginStateView;

    open spec fn view(&self) -> LoginStateView {
        match *self {
            LoginState::Unauthenticated { username, password } => LoginStateView::Unauthenticated {
                username: username@,
                password: password@,
            },
            LoginState::SaltFetched { salt } => LoginStateView::SaltFetched { salt: salt@ },
            LoginState::PrimaryLoginComplete { salt, client } => {
                LoginStateView::PrimaryLoginComplete { salt: salt@, token: client.token@ }
            },
            LoginState::SubaccountSelected { client } => LoginStateView::SubaccountSelected {
                token: client.token@,
            },
            LoginState::Authenticated { client } => LoginStateView::Authenticated {
                client: client@,
            },
            LoginState::Failed { error } => LoginStateView::Failed { error: error@ },
        }
    }
}

/// The kind of answer that a login attempt waits for.
#[derive(Clone, Copy, Debug, PartialEq, Eq, Structural)]
pub enum Awaited {
    /// The answer to the request for a salt.
    Salt,
    /// The answer to a login, primary or sub-account.
    Login,
    /// The answer to the request for the sub-accounts.
    Accounts,
}

impl LoginStateView {
    /// Whether the attempt is over, well or badly.
    pub open spec fn ended(self) -> bool {
        self is Authenticated || self is Failed
    }

    /// The kind of answer that the attempt waits for, or `None` when it is
    /// over.
    pub open spec fn awaits(self) -> Option<Awaited> {
        match self {
            LoginStateView::Unauthenticated { .. } => Some(Awaited::Salt),
            LoginStateView::SaltFetched { .. } => Some(Awaited::Login),
            LoginStateView::PrimaryLoginComplete { .. } => Some(Awaited::Accounts),
            LoginStateView::SubaccountSelected { .. } => Some(Awaited::Login),
            LoginStateView::Authenticated { .. } => None,
            LoginStateView::Failed { .. } => None,
        }
    }
}

/// The answer to the request that the last step asked for.
#[derive(Debug)]
pub enum LoginEvent {
    /// The answer to the request for a salt.
    Salt(Result<SaltData>),
    /// The answer to a login, primary or sub-account.
    Login(Result<LoginData>),
    /// The answer to the request for the sub-accounts.
    Accounts(Result<AccountList>),
}

/// The mathematical content of a [`LoginEvent`].
pub enum LoginEventView {
    Salt(std::result::Result<Seq<char>, ErrorView>),
    Login(std::result::Result<(Seq<char>, u8), ErrorView>),
    Accounts(std::result::Result<Seq<SubAccount>, ErrorView>),
}

impl View for LoginEvent {
    type V = LoginEventView;

    open spec fn view(&self) -> LoginEventView {
        match *self {
            LoginEvent::Salt(Ok(data)) => LoginEventView::Salt(Ok(data.salt@)),
            LoginEvent::Salt(Err(error)) => LoginEventView::Salt(Err(error@)),
            LoginEvent::Login(Ok(data)) => LoginEventView::Login(
                Ok((data.token@, data.accounttype)),
            ),
            LoginEvent::Login(Err(error)) => LoginEventView::Login(Err(error@)),
            LoginEvent::Accounts(Ok(list)) => LoginEventView::Accounts(Ok(list.accounts@)),
            LoginEvent::Accounts(Err(error)) => LoginEventView::Accounts(Err(error@)),
        }
    }
}

impl LoginEventView {
    /// The kind of this answer.
    pub open spec fn kind(self) -> Awaited {
        match self {
            LoginEventView::Salt(_) => Awaited::Salt,
            LoginEventView::Login(_) => Awaited::Login,
            LoginEventView::Accounts(_) => Awaited::Accounts,
        }
    }
}

/// What a step of the login leaves behind.
#[derive(Debug)]
pub struct LoginStep {
    /// The state after the step.
    pub state: LoginState,
    /// The request to send next, or `None` when the attempt is over.
    pub request: Option<Request>,
    /// The account type that the primary login reported, where it is not
    /// the expected one. The attempt goes on all the same.
    pub unexpected_account_type: Option<u8>,
}

/// The mathematical content of a [`LoginStep`].
pub struct LoginStepView {
    pub state: LoginStateView,
    pub request: Option<RequestView>,
    pub unexpected_account_type: Option<u8>,
}

impl View for LoginStep {
    type V = LoginStepView;

    open spec fn view(&self) -> LoginStepView {
        LoginStepView {
            state: self.state@,
            request: match self.request {
                Some(request) => Some(request@),
                None => None,
            },
            unexpected_account_type: self.unexpected_account_type,
        }
    }
}

/// The step that goes on to `state` and asks for `request`.
pub open spec fn go_on(state: LoginStateView, request: RequestView) -> LoginStepView {
    LoginStepView { state: state, request: Some(request), unexpected_account_type: None }
}

/// The step that ends the attempt with `error`.
pub open spec fn give_up(error: ErrorView) -> LoginStepView {
    LoginStepView {
        state: LoginStateView::Failed { error: error },
        request: None,
        unexpected_account_type: None,
    }
}

/// The first step of a login with `username` and `password`: the salt is
/// asked for.
pub open spec fn login_start(username: Seq<char>, password: Seq<char>) -> LoginStepView {
    go_on(
        LoginStateView::Unauthenticated { username: username, password: password },
        salt_request(),
    )
}

/// The step that `event` causes in `state`.
///
/// An answer that reports a failure ends the attempt with that failure. So
/// does a list of sub-accounts without an active one. An answer that is not
/// the one waited for ends the attempt with [`ErrorView::Unknown`]. An
/// attempt that is over stays as it is and asks for nothing.
pub open spec fn login_step(state: LoginStateView, event: LoginEventView) -> LoginStepView {
    match state {
        LoginStateView::Unauthenticated { username, password } => match event {
            LoginEventView::Salt(Ok(salt)) => go_on(
                LoginStateView::SaltFetched { salt: salt },
                user_login_request(username, password, salt),
            ),
            LoginEventView::Salt(Err(error)) => give_up(error),
            _ => give_up(ErrorView::Unknown),
        },
        LoginStateView::SaltFetched { salt } => match event {
            LoginEventView::Login(Ok((token, accounttype))) => LoginStepView {
                state: LoginStateView::PrimaryLoginComplete { salt: salt, token: token },
                request: Some(get_request(token, USER_ACCOUNTS_LIST_URL@)),
                unexpected_account_type: if accounttype == AccountType::Member.spec_code() {
                    None
                } else {
                    Some(accounttype)
                },
            },
            LoginEventView::Login(Err(error)) => give_up(error),
            _ => give_up(ErrorView::Unknown),
        },
        LoginStateView::PrimaryLoginComplete { salt, token } => match event {
            LoginEventView::Accounts(Ok(accounts)) => match active_loginkey(accounts) {
                Some(loginkey) => go_on(
                    LoginStateView::SubaccountSelected { token: token },
                    get_request(token, subaccount_login_url(loginkey, salt)),
                ),
                None => give_up(ErrorView::Status(NO_ACTIVE_SUBACCOUNT@)),
            },
            LoginEventView::Accounts(Err(error)) => give_up(error),
            _ => give_up(ErrorView::Unknown),
        },
        LoginStateView::SubaccountSelected { token } => match event {
            LoginEventView::Login(Ok((token, _))) => LoginStepView {
                state: LoginStateView::Authenticated { client: session(token) },
                request: None,
                unexpected_account_type: None,
            },
            LoginEventView::Login(Err(error)) => give_up(error),
            _ => give_up(ErrorView::Unknown),
        },
        LoginStateView::Authenticated { .. } => LoginStepView {
            state: state,
            request: None,
            unexpected_account_type: None,
        },
        LoginStateView::Failed { .. } => LoginStepView {
            state: state,
            request: None,
            unexpected_account_type: None,
        },
    }
}

fn failure(error: Error) -> (step: LoginStep)
    ensures
        step@ == give_up(error@),
{
    LoginStep { state: LoginState::Failed { error }, request: None, unexpected_account_type: None }
}

impl LoginState {
    /// Whether the attempt is over, well or badly.
    pub fn ended(&self) -> (over: bool)
        ensures
            over == self@.ended(),
    {
        match self {
            LoginState::Authenticated { .. } => true,
            LoginState::Failed { .. } => true,
            _ => false,
        }
    }

    /// The kind of answer that the attempt waits for, or `None` when it is
    /// over.
    pub fn awaits(&self) -> (kind: Option<Awaited>)
        ensures
            kind == self@.awaits(),
    {
        match self {
            LoginState::Unauthenticated { .. } => Some(Awaited::Salt),
            LoginState::SaltFetched { .. } => Some(Awaited::Login),
            LoginState::PrimaryLoginComplete { .. } => Some(Awaited::Accounts),
            LoginState::SubaccountSelected { .. } => Some(Awaited::Login),
            LoginState::Authenticated { .. } => None,
            LoginState::Failed { .. } => None,
        }
    }

    /// Takes the answer `event` and moves on.
    pub fn step(self, event: LoginEvent) -> (step: LoginStep)
        ensures
            step@ == login_step(self@, event@),
    {
        match self {
            LoginState::Unauthenticated { username, password } => match event {
                LoginEvent::Salt(Ok(data)) => {
                    let request = Client::user_login(
                        username.as_str(),
                        password.as_str(),
                        data.salt.as_str(),
                    );
                    LoginStep {
                        state: LoginState::SaltFetched { salt: data.salt },
                        request: Some(request),
                        unexpected_account_type: None,
                    }
                },
                LoginEvent::Salt(Err(error)) => failure(error),
                _ => failure(Error::Unknown),
            },
            LoginState::SaltFetched { salt } => match event {
                LoginEvent::Login(Ok(data)) => {
                    let unexpected = if data.is_member() {
                        None
                    } else {
                        Some(data.accounttype)
                    };
                    let client = Client::from_token(data.token);
                    let request = client.user_accounts_list();
                    LoginStep {
                        state: LoginState::PrimaryLoginComplete { salt, client },
                        request: Some(request),
                        unexpected_account_type: unexpected,
                    }
                },
                LoginEvent::Login(Err(error)) => failure(error),
                _ => failure(Error::Unknown),
            },
            LoginState::PrimaryLoginComplete { salt, client } => match event {
                LoginEvent::Accounts(Ok(list)) => match list.active_loginkey() {
                    Some(loginkey) => {
                        let request = client.user_login_subaccount(loginkey, salt.as_str());
                        LoginStep {
                            state: LoginState::SubaccountSelected { client },
                            request: Some(request),
                            unexpected_account_type: None,
                        }
                    },
                    None => failure(Error::Status(String::from_str(NO_ACTIVE_SUBACCOUNT))),
                },
                LoginEvent::Accounts(Err(error)) => failure(error),
                _ => failure(Error::Unknown),
            },
            LoginState::SubaccountSelected { client } => match event {
                LoginEvent::Login(Ok(data)) => LoginStep {
                    state: LoginState::Authenticated { client: client.update_token(data.token) },
                    request: None,
                    unexpected_account_type: None,
                },
                LoginEvent::Login(Err(error)) => failure(error),
                _ => failure(Error::Unknown),
            },
            LoginState::Authenticated { client } => LoginStep {
                state: LoginState::Authenticated { client },
                request: None,
                unexpected_account_type: None,
            },
            LoginState::Failed { error } => LoginStep {
                state: LoginState::Failed { error },
                request: None,
                unexpected_account_type: None,
            },
        }
    }

    /// The session of a successful attempt, or the failure of a failed one.
    /// An attempt that is still under way has neither: it counts as failed
    /// with [`Error::Unknown`].
    pub fn finish(self) -> (session: Result<Client>)
        ensures
            match session {
                Ok(client) => self@ == (LoginStateView::Authenticated { client: client@ }),
                Err(error) => match self@ {
                    LoginStateView::Failed { error: reason } => error@ == reason,
                    LoginStateView::Authenticated { .. } => false,
                    _ => error@ == ErrorView::Unknown,
                },
            },
    {
        match self {
            LoginState::Authenticated { client } => Ok(client),
            LoginState::Failed { error } => Err(error),
            _ => Err(Error::Unknown),
        }
    }
}

impl Client {
    /// Begins a login with `username` and `password`: the attempt starts
    /// unauthenticated and asks for a salt.
    pub fn from_credentials(username: &str, password: &str) -> (step: LoginStep)
        ensures
            step@ == login_start(username@, password@),
    {
        LoginStep {
            state: LoginState::Unauthenticated {
                username: String::from_str(username),
                password: String::from_str(password),
            },
            request: Some(Client::salt()),
            unexpected_account_type: None,
        }
    }
}

/// A step asks for a request exactly when it does not end the attempt, and
/// an attempt that is over is never taken up again. An answer of another
/// kind than the one waited for ends the attempt.
pub proof fn login_asks_until_it_ends(state: LoginStateView, event: LoginEventView)
    ensures
        login_step(state, event).request is None <==> login_step(state, event).state.ended(),
        login_step(state, event).request is Some <==> login_step(state, event).state.awaits()
            is Some,
        state.ended() ==> login_step(state, event).state == state,
        !state.ended() && state.awaits() != Some(event.kind()) ==> login_step(state, event)
            == give_up(ErrorView::Unknown),
{
}

/// Any failure that an answer reports ends the attempt with that failure,
/// at whatever step it arrives.
pub proof fn login_failure_is_final(state: LoginStateView, error: ErrorView)
    requires
        !state.ended(),
    ensures
        state is Unauthenticated ==> login_step(state, LoginEventView::Salt(Err(error)))
            == give_up(error),
        state is SaltFetched ==> login_step(state, LoginEventView::Login(Err(error))) == give_up(
            error,
        ),
        state is PrimaryLoginComplete ==> login_step(state, LoginEventView::Accounts(Err(error)))
            == give_up(error),
        state is SubaccountSelected ==> login_step(state, LoginEventView::Login(Err(error)))
            == give_up(error),
{
}

/// When every answer is a success and some sub-account is active, the four
/// steps lead from the credentials to a session under the token of the
/// last answer, through the states in their order.
pub proof fn login_succeeds_step_by_step(
    username: Seq<char>,
    password: Seq<char>,
    salt: Seq<char>,
    primary: (Seq<char>, u8),
    accounts: Seq<SubAccount>,
    last: (Seq<char>, u8),
)
    requires
        active_loginkey(accounts) is Some,
    ensures
        ({
            let s0 = login_start(username, password).state;
            let s1 = login_step(s0, LoginEventView::Salt(Ok(salt))).state;
            let s2 = login_step(s1, LoginEventView::Login(Ok(primary))).state;
            let s3 = login_step(s2, LoginEventView::Accounts(Ok(accounts))).state;
            let s4 = login_step(s3, LoginEventView::Login(Ok(last))).state;
            &&& s0 is Unauthenticated
            &&& s1 is SaltFetched
            &&& s2 is PrimaryLoginComplete
            &&& s3 is SubaccountSelected
            &&& s4 == (LoginStateView::Authenticated { client: session(last.0) })
        }),
{
}

} // verus!

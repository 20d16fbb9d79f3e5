//! The session, the wire format of answers and the requests of the login
//! handshake.
use vstd::prelude::*;
use md5::Digest;
use crate::api::{Error, ErrorView, Result};
use crate::library::File;
use crate::randomstring::{alphanum, RandomString};
use crate::request::{push_pair, Method, Pairs, Request, RequestView};
use crate::text::{hex_upper, hex_upper_is_upper_hex, is_upper_hex, to_hex_upper};

verus! {

pub const USER_AGENT: &'static str = "okhttp/4.9.3";

pub const USER_AGENT_DOWNLOAD: &'static str =
    "Dalvik/2.1.0 (Linux; U; Android 10; ONEPLUS A5000 Build/QKQ1.191014.012)";

pub const API_VERSION: &'static str = "7.5";

pub const SALT_URL: &'static str = "https://api.nextory.se/api/app/catalogue/7.5/salt";

pub const USER_LOGIN_URL: &'static str = "https://api.nextory.se/api/app/user/7.5/login";

pub const USER_ACCOUNTS_LIST_URL: &'static str =
    "https://api.nextory.se/api/app/user/7.5/accounts/list";

/// Seconds between TCP keep-alive probes: fifteen minutes.
pub const KEEPALIVE_SECS: u64 = 900;

/// The status that marks the sub-account to log in with.
pub const ACTIVE_STATUS: &'static str = "active";

/// The envelope of every answer of the application endpoint.
#[derive(Debug, PartialEq, Eq)]
pub struct Response<T> {
    pub data: Option<T>,
    pub error: Option<NextoryError>,
}

/// The error that the service reports inside an envelope.
#[derive(Debug, PartialEq, Eq)]
pub struct NextoryError {
    pub msg: String,
    pub code: u16,
}

impl From<NextoryError> for Error {
    fn from(value: NextoryError) -> (error: Self) {
        Error::Api(value.code, value.msg)
    }
}

impl vstd::std_specs::convert::FromSpecImpl<NextoryError> for Error {
    open spec fn obeys_from_spec() -> bool {
        true
    }

    open spec fn from_spec(value: NextoryError) -> Self {
        Error::Api(value.code, value.msg)
    }
}

/// The single-use salt of a login attempt.
#[derive(Debug, PartialEq, Eq)]
pub struct SaltData {
    pub salt: String,
}

/// What a successful login step returns.
#[derive(Debug, PartialEq, Eq)]
pub struct LoginData {
    pub token: String,
    pub accounttype: u8,
}

/// The kinds of account that the service knows.
#[derive(Clone, Copy, Debug, PartialEq, Eq, Structural)]
pub enum AccountType {
    Member,
    Canceled,
    NonMember,
    Visitor,
}

impl AccountType {
    /// The number by which the service reports this kind.
    pub open spec fn spec_code(self) -> u8 {
        match self {
            AccountType::Member => 1,
            AccountType::Canceled => 2,
            AccountType::NonMember => 3,
            AccountType::Visitor => 4,
        }
    }

    /// The number by which the service reports this kind.
    #[verifier::when_used_as_spec(spec_code)]
    pub fn code(self) -> (code: u8)
        ensures
            code == self.spec_code(),
    {
        match self {
            AccountType::Member => 1,
            AccountType::Canceled => 2,
            AccountType::NonMember => 3,
            AccountType::Visitor => 4,
        }
    }
}

impl LoginData {
    /// Whether the account is of the expected kind, a member.
    pub open spec fn spec_is_member(&self) -> bool {
        self.accounttype == AccountType::Member.spec_code()
    }

    /// Whether the account is of the expected kind, a member.
    #[verifier::when_used_as_spec(spec_is_member)]
    pub fn is_member(&self) -> (member: bool)
        ensures
            member == self.spec_is_member(),
    {
        self.accounttype == AccountType::Member.code()
    }
}

/// One profile under the primary account.
#[derive(Debug, PartialEq, Eq)]
pub struct SubAccount {
    pub loginkey: String,
    pub status: String,
}

/// The profiles under the primary account, in the order of the service.
#[derive(Debug, PartialEq, Eq)]
pub struct AccountList {
    pub accounts: Vec<SubAccount>,
}

/// The position of the first sub-account among the first `n` whose status
/// is `active`, if there is one.
pub open spec fn first_active(accounts: Seq<SubAccount>, n: nat) -> Option<int>
    recommends
        n <= accounts.len(),
    decreases n,
{
    if n == 0 {
        None
    } else {
        match first_active(accounts, (n - 1) as nat) {
            Some(i) => Some(i),
            None => if accounts[n - 1].status@ == ACTIVE_STATUS@ {
                Some(n - 1)
            } else {
                None
            },
        }
    }
}

/// The login key of the first sub-account whose status is `active`.
pub open spec fn active_loginkey(accounts: Seq<SubAccount>) -> Option<Seq<char>> {
    match first_active(accounts, accounts.len()) {
        Some(i) => Some(accounts[i].loginkey@),
        None => None,
    }
}

/// What `first_active` returns is the least position with an active status.
pub proof fn first_active_is_least(accounts: Seq<SubAccount>, n: nat)
    requires
        n <= accounts.len(),
    ensures
        match first_active(accounts, n) {
            Some(i) => {
                &&& 0 <= i < n
                &&& accounts[i].status@ == ACTIVE_STATUS@
                &&& forall|j: int| 0 <= j < i ==> accounts[j].status@ != ACTIVE_STATUS@
            },
            None => forall|j: int| 0 <= j < n ==> accounts[j].status@ != ACTIVE_STATUS@,
        },
    decreases n,
{
    if n > 0 {
        first_active_is_least(accounts, (n - 1) as nat);
    }
}

impl AccountList {
    /// The login key of the first sub-account whose status is `active`, or
    /// `None` when no sub-account is active.
    pub fn active_loginkey(&self) -> (key: Option<&str>)
        ensures
            match key {
                Some(k) => active_loginkey(self.accounts@) == Some(k@),
                None => active_loginkey(self.accounts@) is None,
            },
    {
        let wanted = String::from_str(ACTIVE_STATUS);
        let mut i: usize = 0;
        while i < self.accounts.len()
            invariant
                i <= self.accounts@.len(),
                wanted@ == ACTIVE_STATUS@,
                first_active(self.accounts@, i as nat) is None,
            decreases self.accounts@.len() - i,
        {
            if self.accounts[i].status == wanted {
                proof {
                    first_active_extends(self.accounts@, (i + 1) as nat, self.accounts@.len());
                }
                return Some(self.accounts[i].loginkey.as_str());
            }
            i += 1;
        }
        None
    }
}

/// Once found among the first `n`, the first active sub-account stays the
/// same however many more are considered.
proof fn first_active_extends(accounts: Seq<SubAccount>, n: nat, m: nat)
    requires
        n <= m <= accounts.len(),
        first_active(accounts, n) is Some,
    ensures
        first_active(accounts, m) == first_active(accounts, n),
    decreases m,
{
    if m > n {
        first_active_extends(accounts, n, (m - 1) as nat);
    }
}

/// The settings with which the transport is built.
#[derive(Debug, PartialEq, Eq)]
pub struct Transport {
    pub user_agent: String,
    pub keepalive_secs: u64,
    pub headers: Pairs,
}

/// The headers that every request carries, in order.
pub open spec fn default_headers() -> Seq<(Seq<char>, Seq<char>)> {
    seq![
        ("canary"@, ""@),
        ("appid"@, "200"@),
        ("model"@, "OnePlus+ONEPLUS+A5000"@),
        ("locale"@, "en_GB"@),
        ("version"@, "4.34.6"@),
        ("deviceid"@, "eSsnwXyvS4qK4vMzu79tGh"@),
        ("osinfo"@, "Android 10"@),
    ]
}

/// The MD5 digest of `data`, as the `md-5` crate computes it.
pub uninterp spec fn md5_of(data: Seq<u8>) -> Seq<u8>;

/// Calls `md5::Md5::digest` (the `Digest` trait's one-shot hash) on `data`.
///
/// Trusted: the 16 bytes returned are a function of `data` alone.
#[verifier::external_body]
fn md5_digest(data: &[u8]) -> (digest: [u8; 16])
    ensures
        digest@ == md5_of(data@),
{
    md5::Md5::digest(data).into()
}

/// The checksum that the service expects for `text`: the MD5 digest of its
/// UTF-8 bytes in upper-case hexadecimal.
pub open spec fn checksum_of(text: Seq<char>) -> Seq<char> {
    hex_upper(md5_of(vstd::utf8::encode_utf8(text)))
}

/// The checksum depends on the text alone: equal texts have equal
/// checksums, on every call. It is written in upper-case hexadecimal
/// digits, two for each byte of the digest.
pub proof fn checksum_is_deterministic(first: Seq<char>, second: Seq<char>)
    requires
        first == second,
    ensures
        checksum_of(first) == checksum_of(second),
        checksum_of(first).len() == 2 * md5_of(vstd::utf8::encode_utf8(first)).len(),
        forall|i: int|
            0 <= i < checksum_of(first).len() ==> is_upper_hex(#[trigger] checksum_of(first)[i]),
{
    hex_upper_is_upper_hex(md5_of(vstd::utf8::encode_utf8(first)));
}

/// Computes the checksum of `text`.
pub fn checksum(text: &str) -> (sum: String)
    ensures
        sum@ == checksum_of(text@),
        sum@.len() == 32,
{
    let digest = md5_digest(text.as_bytes());
    to_hex_upper(digest.as_slice())
}

/// Computes the checksum of the login form: of user name, salt and password
/// written one after the other.
pub fn login_checksum(username: &str, salt: &str, password: &str) -> (sum: String)
    ensures
        sum@ == checksum_of(username@ + salt@ + password@),
        sum@.len() == 32,
{
    let mut hashable = String::from_str(username);
    hashable.append(salt);
    hashable.append(password);
    checksum(hashable.as_str())
}

/// The request that fetches a salt.
pub open spec fn salt_request() -> RequestView {
    RequestView {
        method: Method::Get,
        url: SALT_URL@,
        query: Seq::empty(),
        headers: Seq::empty(),
        form: Seq::empty(),
    }
}

/// The request that logs the primary account in.
pub open spec fn user_login_request(
    username: Seq<char>,
    password: Seq<char>,
    salt: Seq<char>,
) -> RequestView {
    RequestView {
        method: Method::Post,
        url: USER_LOGIN_URL@,
        query: Seq::empty(),
        headers: Seq::empty(),
        form: seq![
            ("username"@, username),
            ("password"@, password),
            ("checksum"@, checksum_of(username + salt + password)),
        ],
    }
}

/// `request` with the session token as its last header.
pub open spec fn with_auth(token: Seq<char>, request: RequestView) -> RequestView {
    RequestView { headers: request.headers.push(("token"@, token)), ..request }
}

/// The authenticated `GET` of `url`.
pub open spec fn get_request(token: Seq<char>, url: Seq<char>) -> RequestView {
    RequestView {
        method: Method::Get,
        url: url,
        query: Seq::empty(),
        headers: seq![("token"@, token)],
        form: Seq::empty(),
    }
}

/// The address at which a sub-account logs in.
pub open spec fn subaccount_login_url(loginkey: Seq<char>, salt: Seq<char>) -> Seq<char> {
    USER_LOGIN_URL@ + "?loginkey="@ + loginkey + "&checksum="@ + checksum_of(loginkey + salt)
}

/// The request that fetches a book's file.
pub open spec fn download_request(token: Seq<char>, url: Seq<char>) -> RequestView {
    RequestView {
        method: Method::Get,
        url: url,
        query: Seq::empty(),
        headers: seq![
            ("token"@, token),
            ("User-Agent"@, USER_AGENT_DOWNLOAD@),
            ("apiver"@, API_VERSION@),
        ],
        form: Seq::empty(),
    }
}

/// An authenticated session: the bearer token and the source of trace ids.
#[derive(Debug)]
pub struct Client {
    pub token: String,
    pub random: RandomString,
}

/// The mathematical content of a [`Client`]: the token and the alphabet of
/// its trace ids.
pub struct ClientView {
    pub token: Seq<char>,
    pub symbols: Seq<char>,
}

impl View for Client {
    type V = ClientView;

    open spec fn view(&self) -> ClientView {
        ClientView { token: self.token@, symbols: self.random@ }
    }
}

/// The session that a login gives for `token`: its trace ids are
/// alphanumeric.
pub open spec fn session(token: Seq<char>) -> ClientView {
    ClientView { token: token, symbols: alphanum() }
}

impl Client {
    /// What the transport has to be built with: the user agent, the
    /// keep-alive interval and the default headers.
    pub fn inner() -> (transport: Transport)
        ensures
            transport.user_agent@ == USER_AGENT@,
            transport.keepalive_secs == KEEPALIVE_SECS,
            transport.headers.deep_view() == default_headers(),
    {
        let mut headers: Pairs = Vec::new();
        assert(headers.deep_view() =~= Seq::empty());
        push_pair(&mut headers, "canary", "");
        push_pair(&mut headers, "appid", "200");
        push_pair(&mut headers, "model", "OnePlus+ONEPLUS+A5000");
        push_pair(&mut headers, "locale", "en_GB");
        push_pair(&mut headers, "version", "4.34.6");
        push_pair(&mut headers, "deviceid", "eSsnwXyvS4qK4vMzu79tGh");
        push_pair(&mut headers, "osinfo", "Android 10");
        Transport {
            user_agent: String::from_str(USER_AGENT),
            keepalive_secs: KEEPALIVE_SECS,
            headers,
        }
    }

    /// A session around a token obtained earlier. The token is taken as it
    /// is; whether the service still accepts it shows on the first request.
    pub fn from_token(token: String) -> (client: Client)
        ensures
            client@ == session(token@),
    {
        Client { token, random: RandomString::new(None) }
    }

    /// The same session under another token, with a fresh source of trace
    /// ids.
    pub fn update_token(self, token: String) -> (client: Client)
        ensures
            client@ == session(token@),
    {
        Client { token, random: RandomString::new(None) }
    }

    /// Opens an envelope: the reported error if there is one, else the data
    /// if there is any, else [`Error::Unknown`].
    pub fn parse<T>(response: Response<T>) -> (parsed: Result<T>)
        ensures
            match response.error {
                Some(reported) => parsed is Err && parsed->Err_0@ == ErrorView::Api(
                    reported.code,
                    reported.msg@,
                ),
                None => match response.data {
                    Some(data) => parsed == Ok::<T, Error>(data),
                    None => parsed is Err && parsed->Err_0@ == ErrorView::Unknown,
                },
            },
    {
        match response.error {
            Some(reported) => Err(Error::from(reported)),
            None => match response.data {
                Some(data) => Ok(data),
                None => Err(Error::Unknown),
            },
        }
    }

    /// The request that fetches a salt.
    pub fn salt() -> (request: Request)
        ensures
            request@ == salt_request(),
    {
        Request::get(SALT_URL)
    }

    /// The request that logs the primary account in: a form with the user
    /// name, the password and the checksum over both and the salt.
    pub fn user_login(username: &str, password: &str, salt: &str) -> (request: Request)
        ensures
            request@ == user_login_request(username@, password@, salt@),
    {
        let sum = login_checksum(username, salt, password);
        let request = Request::post(USER_LOGIN_URL).text("username", username).text(
            "password",
            password,
        ).text("checksum", sum.as_str());
        assert(request@.form =~= user_login_request(username@, password@, salt@).form);
        request
    }

    /// `request` with this session's token as its last header.
    pub fn request_with_auth(&self, request: Request) -> (authorized: Request)
        ensures
            authorized@ == with_auth(self.token@, request@),
    {
        request.header("token", self.token.as_str())
    }

    /// The authenticated `GET` of `url`.
    pub fn get_with_auth(&self, url: &str) -> (request: Request)
        ensures
            request@ == get_request(self.token@, url@),
    {
        self.request_with_auth(Request::get(url))
    }

    /// The request that lists the sub-accounts of the primary account.
    pub fn user_accounts_list(&self) -> (request: Request)
        ensures
            request@ == get_request(self.token@, USER_ACCOUNTS_LIST_URL@),
    {
        self.get_with_auth(USER_ACCOUNTS_LIST_URL)
    }

    /// The request that logs a sub-account in: its login key and the
    /// checksum over the key and the salt, both in the address.
    pub fn user_login_subaccount(&self, loginkey: &str, salt: &str) -> (request: Request)
        ensures
            request@ == get_request(self.token@, subaccount_login_url(loginkey@, salt@)),
    {
        let mut hashable = String::from_str(loginkey);
        hashable.append(salt);
        let sum = checksum(hashable.as_str());
        let mut url = String::from_str(USER_LOGIN_URL);
        url.append("?loginkey=");
        url.append(loginkey);
        url.append("&checksum=");
        url.append(sum.as_str());
        self.get_with_auth(url.as_str())
    }

    /// The request that fetches the file of a book, with the headers that
    /// the file endpoint asks for.
    pub fn start_download(&self, file: &File) -> (request: Request)
        ensures
            request@ == download_request(self.token@, file.url@),
    {
        let request = Request::get(file.url.as_str()).header("token", self.token.as_str()).header(
            "User-Agent",
            USER_AGENT_DOWNLOAD,
        ).header("apiver", API_VERSION);
        assert(request@.headers =~= download_request(self.token@, file.url@).headers);
        request
    }
}

} // verus!

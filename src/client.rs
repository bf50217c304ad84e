use vstd::prelude::*;

use vstd::utf8::encode_utf8;

use crate::error::{api_error_of, FtError};
use crate::models::token::AccessToken;

verus! {

#[verifier::external_type_specification]
#[verifier::external_body]
pub struct ExHttpClient(reqwest::Client);

/// The base of every endpoint of the API.
pub const API_URL: &'static str = "https://api.intra.42.fr";

/// The `User-Agent` that every request carries: the library's name and version.
pub const USER_AGENT: &'static str = "ft_rs/0.1.0";

/// The seconds that the HTTP client waits for a connection.
pub const CONNECT_TIMEOUT_SECS: u64 = 30;

/// The credentials that a client authenticates with, fixed when it is built.
pub enum AuthType {
    /// An application, with the token that it last obtained, if any.
    App { uid: String, secret: String, last_token: Option<AccessToken> },
    /// A user, through a token issued on their behalf.
    User { token: AccessToken },
}

/// A client of the API, in application or in user mode.
pub struct FtClient {
    auth_type: AuthType,
    client: reqwest::Client,
}

/// A form body: its fields, in order, as names and values.
pub open spec fn form_view(form: Seq<(String, String)>) -> Seq<(Seq<char>, Seq<char>)> {
    form.map_values(|p: (String, String)| (p.0@, p.1@))
}

/// The words of `parts` joined by single spaces.
pub open spec fn joined(parts: Seq<Seq<char>>) -> Seq<char>
    decreases parts.len(),
{
    if parts.len() == 0 {
        Seq::empty()
    } else if parts.len() == 1 {
        parts[0]
    } else {
        joined(parts.drop_last()) + seq![' '] + parts.last()
    }
}

/// The views of a list of string slices.
pub open spec fn str_views(parts: Seq<&str>) -> Seq<Seq<char>> {
    parts.map_values(|s: &str| s@)
}

/// The address that sends a user's browser to authorise the application `uid`:
/// the callback and the scopes, joined by spaces, are percent-encoded.
pub open spec fn authorization_url(uid: Seq<char>, callback_url: Seq<char>, scopes: Seq<Seq<char>>) -> Seq<char> {
    API_URL@ + "/oauth/authorize?client_id="@ + uid + "&redirect_uri="@ + url_encoded(callback_url)
        + "&scope="@ + url_encoded(joined(scopes)) + "&response_type=code"@
}

/// Whether percent-encoding keeps a byte as it is: ASCII letters and digits,
/// and `-`, `.`, `_`, `~`.
pub open spec fn is_unreserved(b: u8) -> bool {
    ||| 0x30 <= b <= 0x39
    ||| 0x41 <= b <= 0x5a
    ||| 0x61 <= b <= 0x7a
    ||| b == 0x2d
    ||| b == 0x2e
    ||| b == 0x5f
    ||| b == 0x7e
}

/// The upper-case hexadecimal digit of a value below 16.
pub open spec fn hex_digit(d: u8) -> char {
    if d < 10 {
        (0x30 + d) as char
    } else {
        (0x41 + d - 10) as char
    }
}

/// Percent-encoding of bytes: an unreserved byte stays as its character, any
/// other becomes `%` and its two hexadecimal digits.
pub open spec fn percent_encoded(bytes: Seq<u8>) -> Seq<char>
    decreases bytes.len(),
{
    if bytes.len() == 0 {
        Seq::empty()
    } else {
        let b = bytes[0];
        let head = if is_unreserved(b) {
            seq![b as char]
        } else {
            seq!['%', hex_digit(b / 16), hex_digit(b % 16)]
        };
        head + percent_encoded(bytes.drop_first())
    }
}

/// The percent-encoding of the UTF-8 bytes of a text.
pub open spec fn url_encoded(s: Seq<char>) -> Seq<char> {
    percent_encoded(encode_utf8(s))
}

/// Whether serde_json reads a text as a JSON document.
pub uninterp spec fn json_accepts(text: Seq<char>) -> bool;

/// Relies on reqwest::ClientBuilder: builds an HTTP client that sends the given
/// `User-Agent` and gives up connecting after the given seconds.
#[verifier::external_body]
fn build_http_client(user_agent: &str, connect_timeout_secs: u64) -> (r: Result<reqwest::Client, reqwest::Error>) {
    reqwest::ClientBuilder::new()
        .user_agent(user_agent)
        .connect_timeout(std::time::Duration::from_secs(connect_timeout_secs))
        .build()
}

/// Relies on urlencoding::encode: percent-encodes every byte of the UTF-8 form
/// of a string but ASCII letters, digits, `-`, `.`, `_` and `~`, with upper-case
/// hexadecimal digits.
#[verifier::external_body]
fn url_encode(s: &str) -> (r: String)
    ensures
        r@ == url_encoded(s@),
{
    urlencoding::encode(s).into_owned()
}

/// Relies on serde_json::from_str: reads a text as a JSON document, and hands
/// back the error when it is none.
#[verifier::external_body]
fn json_error(text: &str) -> (r: Option<serde_json::Error>)
    ensures
        r is None == json_accepts(text@),
{
    serde_json::from_str::<serde_json::Value>(text).err()
}

/// The text of the string member `key` of the JSON document `text`, if the text
/// is a JSON object with such a member.
pub uninterp spec fn json_str_member(text: Seq<char>, key: Seq<char>) -> Option<Seq<char>>;

/// The value of the member `key` of the JSON document `text`, if the text is a
/// JSON object with such a member and it is a number that fits a u64.
pub uninterp spec fn json_u64_member(text: Seq<char>, key: Seq<char>) -> Option<u64>;

/// Relies on serde_json::from_str, Value::get and Value::as_str: the string
/// member `key` of the JSON document `text`.
#[verifier::external_body]
fn json_str_field(text: &str, key: &str) -> (r: Option<String>)
    ensures
        match r {
            Some(v) => json_str_member(text@, key@) == Some(v@),
            None => json_str_member(text@, key@) is None,
        },
{
    serde_json::from_str::<serde_json::Value>(text).ok()?.get(key)?.as_str().map(String::from)
}

/// Relies on serde_json::from_str, Value::get and Value::as_u64: the member
/// `key` of the JSON document `text`, read as a u64.
#[verifier::external_body]
fn json_u64_field(text: &str, key: &str) -> (r: Option<u64>)
    ensures
        r == json_u64_member(text@, key@),
{
    serde_json::from_str::<serde_json::Value>(text).ok()?.get(key)?.as_u64()
}

impl FtClient {
    /// The credentials of the client.
    pub closed spec fn auth(&self) -> AuthType {
        self.auth_type
    }

    /// A client for the application `app_uid`, holding no token yet. Fails only
    /// when the HTTP client cannot be built.
    pub fn from_app(app_uid: &str, app_secret: &str) -> (r: Result<FtClient, FtError>)
        ensures
            match r {
                Ok(c) => c.auth() matches AuthType::App { uid, secret, last_token }
                    && uid@ == app_uid@ && secret@ == app_secret@ && last_token is None,
                Err(e) => e is ReqwestBuilderError,
            },
    {
        match build_http_client(USER_AGENT, CONNECT_TIMEOUT_SECS) {
            Ok(client) => Ok(
                FtClient {
                    auth_type: AuthType::App {
                        uid: String::from_str(app_uid),
                        secret: String::from_str(app_secret),
                        last_token: None,
                    },
                    client,
                },
            ),
            Err(err) => Err(FtError::ReqwestBuilderError(err)),
        }
    }

    /// A client that acts for the user of `token`, taken as it is. Fails only
    /// when the HTTP client cannot be built.
    pub fn from_user(token: AccessToken) -> (r: Result<FtClient, FtError>)
        ensures
            match r {
                Ok(c) => c.auth() == (AuthType::User { token }),
                Err(e) => e is ReqwestBuilderError,
            },
    {
        match build_http_client(USER_AGENT, CONNECT_TIMEOUT_SECS) {
            Ok(client) => Ok(FtClient { auth_type: AuthType::User { token }, client }),
            Err(err) => Err(FtError::ReqwestBuilderError(err)),
        }
    }

    /// The HTTP client that requests go through.
    pub fn http(&self) -> &reqwest::Client {
        &self.client
    }

    /// The form of a client-credentials grant for the application's own token.
    /// Extra introspection data is not offered yet, and asking for it is an error.
    pub fn app_token_request(&self, extra_data: bool) -> (r: Result<Vec<(String, String)>, FtError>)
        ensures
            match self.auth() {
                AuthType::User { .. } => r matches Err(FtError::InvalidAuthType),
                AuthType::App { uid, secret, .. } => if extra_data {
                    r matches Err(FtError::NotImplemented)
                } else {
                    r matches Ok(form) && form_view(form@) == seq![
                        ("grant_type"@, "client_credentials"@),
                        ("client_id"@, uid@),
                        ("client_secret"@, secret@),
                    ]
                },
            },
    {
        match &self.auth_type {
            AuthType::User { .. } => Err(FtError::InvalidAuthType),
            AuthType::App { uid, secret, .. } => {
                if extra_data {
                    return Err(FtError::NotImplemented);
                }
                let mut form: Vec<(String, String)> = Vec::new();
                form.push((String::from_str("grant_type"), String::from_str("client_credentials")));
                form.push((String::from_str("client_id"), uid.clone()));
                form.push((String::from_str("client_secret"), secret.clone()));
                assert(form_view(form@) =~= seq![
                    ("grant_type"@, "client_credentials"@),
                    ("client_id"@, uid@),
                    ("client_secret"@, secret@),
                ]);
                Ok(form)
            },
        }
    }

    /// The form of an authorization-code grant, which trades the `code` that the
    /// API handed to `callback_url` for a token of the user.
    pub fn access_token_request(&self, code: &str, callback_url: &str) -> (r: Result<Vec<(String, String)>, FtError>)
        ensures
            match self.auth() {
                AuthType::User { .. } => r matches Err(FtError::InvalidAuthType),
                AuthType::App { uid, secret, .. } => r matches Ok(form) && form_view(form@)
                    == seq![
                    ("grant_type"@, "authorization_code"@),
                    ("client_id"@, uid@),
                    ("client_secret"@, secret@),
                    ("code"@, code@),
                    ("redirect_uri"@, callback_url@),
                ],
            },
    {
        match &self.auth_type {
            AuthType::User { .. } => Err(FtError::InvalidAuthType),
            AuthType::App { uid, secret, .. } => {
                let mut form: Vec<(String, String)> = Vec::new();
                form.push((String::from_str("grant_type"), String::from_str("authorization_code")));
                form.push((String::from_str("client_id"), uid.clone()));
                form.push((String::from_str("client_secret"), secret.clone()));
                form.push((String::from_str("code"), String::from_str(code)));
                form.push((String::from_str("redirect_uri"), String::from_str(callback_url)));
                assert(form_view(form@) =~= seq![
                    ("grant_type"@, "authorization_code"@),
                    ("client_id"@, uid@),
                    ("client_secret"@, secret@),
                    ("code"@, code@),
                    ("redirect_uri"@, callback_url@),
                ]);
                Ok(form)
            },
        }
    }

    /// The address that sends a user's browser to authorise this application for
    /// `scopes`, after which the API calls back `callback_url`. The callback and
    /// the space-separated scopes are percent-encoded.
    pub fn get_authorization_url(&self, callback_url: &str, scopes: &[&str]) -> (r: Result<String, FtError>)
        ensures
            match self.auth() {
                AuthType::User { .. } => r matches Err(FtError::InvalidAuthType),
                AuthType::App { uid, .. } => r matches Ok(url) && url@ == authorization_url(
                    uid@,
                    callback_url@,
                    str_views(scopes@),
                ),
            },
    {
        match &self.auth_type {
            AuthType::User { .. } => Err(FtError::InvalidAuthType),
            AuthType::App { uid, .. } => {
                let mut url = String::from_str(API_URL);
                url.append("/oauth/authorize?client_id=");
                url.append(uid.as_str());
                url.append("&redirect_uri=");
                let encoded = url_encode(callback_url);
                url.append(encoded.as_str());
                url.append("&scope=");
                let scope = url_encode(join_words(scopes).as_str());
                url.append(scope.as_str());
                url.append("&response_type=code");
                Ok(url)
            },
        }
    }

    /// Whether the application must fetch a token before a request at `now`:
    /// it holds none, or the one it holds is expired.
    pub fn needs_app_token(&self, now: u64) -> (r: Result<bool, FtError>)
        ensures
            match self.auth() {
                AuthType::User { .. } => r matches Err(FtError::InvalidAuthType),
                AuthType::App { last_token, .. } => r matches Ok(b) && b == match last_token {
                    Some(t) => t.expired_at(now),
                    None => true,
                },
            },
    {
        match &self.auth_type {
            AuthType::User { .. } => Err(FtError::InvalidAuthType),
            AuthType::App { last_token, .. } => match last_token {
                Some(t) => Ok(t.is_expired(now)),
                None => Ok(true),
            },
        }
    }

    /// Keeps `token` as the application's current token, in place of the one
    /// it held.
    pub fn set_app_token(&mut self, token: AccessToken) -> (r: Result<(), FtError>)
        ensures
            match old(self).auth() {
                AuthType::User { .. } => r matches Err(FtError::InvalidAuthType) && final(self).auth()
                    == old(self).auth(),
                AuthType::App { uid, secret, .. } => r is Ok && final(self).auth() == (AuthType::App {
                    uid,
                    secret,
                    last_token: Some(token),
                }),
            },
    {
        match &self.auth_type {
            AuthType::User { .. } => Err(FtError::InvalidAuthType),
            AuthType::App { uid, secret, .. } => {
                let uid = uid.clone();
                let secret = secret.clone();
                self.auth_type = AuthType::App { uid, secret, last_token: Some(token) };
                Ok(())
            },
        }
    }

    /// The error that a rejected request's response stands for, from its HTTP
    /// status and body: a body that is not JSON is a decoding error, any other
    /// body an API error.
    pub fn handle_error(status: u16, body: &str) -> (r: FtError)
        ensures
            json_accepts(body@) ==> (r matches FtError::ApiError {
                error: e,
                error_status: st,
                error_description: d,
            } && (e, st, d@) == api_error_of(
                status,
                json_str_member(body@, "error"@),
                json_str_member(body@, "error_description"@),
                json_u64_member(body@, "status"@),
            )),
            !json_accepts(body@) ==> r is SerdeError,
    {
        match json_error(body) {
            Some(source) => FtError::SerdeError { source },
            None => {
                let error = json_str_field(body, "error");
                let description = json_str_field(body, "error_description");
                let body_status = json_u64_field(body, "status");
                let error_ref = match &error {
                    Some(e) => Some(e.as_str()),
                    None => None,
                };
                let description_ref = match &description {
                    Some(d) => Some(d.as_str()),
                    None => None,
                };
                FtError::from_error_fields(status, error_ref, description_ref, body_status)
            },
        }
    }
}

/// The words of `parts` joined by single spaces.
fn join_words(parts: &[&str]) -> (r: String)
    ensures
        r@ == joined(str_views(parts@)),
{
    let mut out = String::new();
    let mut i: usize = 0;
    while i < parts.len()
        invariant
            0 <= i <= parts@.len(),
            out@ == joined(str_views(parts@).take(i as int)),
        decreases parts@.len() - i,
    {
        if i > 0 {
            out.append(" ");
        }
        out.append(parts[i]);
        proof {
            let views = str_views(parts@);
            assert(views.take(i + 1).drop_last() =~= views.take(i as int));
            reveal_strlit(" ");
            assert(" "@ =~= seq![' ']);
        }
        i = i + 1;
    }
    assert(str_views(parts@).take(parts@.len() as int) =~= str_views(parts@));
    out
}

} // verus!

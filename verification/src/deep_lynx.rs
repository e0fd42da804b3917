//! The DeepLynx client: its credentials and bearer token, when a new token
//! is needed, and the requests it builds for an import.
//!
//! The HTTP exchanges themselves (fetching a token, posting a file) are made
//! by the binary with the `ureq` agent that this client holds.

use vstd::prelude::*;
use crate::decimal::{append_decimal, decimal, digit_value, lemma_decimal_digits, lemma_decimal_injective, lemma_digits_then_separator};
use crate::timestamps::current_unix_time;

verus! {

/// `ureq::Agent`, the HTTP agent; carried through unchanged.
#[verifier::external_type_specification]
#[verifier::external_body]
pub struct ExAgent(ureq::Agent);

/// `Clone` of `ureq::Agent`: the copy shares the connection pool and
/// settings of the agent it is made from.  Nothing is stated of it, as the
/// agent is opaque here.
pub assume_specification [<ureq::Agent as std::clone::Clone>::clone] (agent: &ureq::Agent) -> (copy: ureq::Agent);

/// `ureq::Error`, carried through unchanged.
#[verifier::external_type_specification]
#[verifier::external_body]
pub struct ExUreqError(ureq::Error);

/// `tokio::task::JoinError`, carried through unchanged.
#[verifier::external_type_specification]
#[verifier::external_body]
pub struct ExJoinError(tokio::task::JoinError);

/// `jwt::error::Error`, carried through unchanged.
#[verifier::external_type_specification]
#[verifier::external_body]
pub struct ExJwtError(jwt::error::Error);

/// `std::num::ParseIntError`, carried through unchanged.
#[verifier::external_type_specification]
#[verifier::external_body]
pub struct ExParseIntError(std::num::ParseIntError);

/// Errors of the DeepLynx client.
#[derive(Debug)]
pub enum APIError {
    Unknown,
    /// Required fields are missing (named, where known).
    MissingFields(Option<Vec<String>>),
    JWTParsingError(jwt::error::Error),
    /// The bearer token carries no expiration claim.
    MissingIATError,
    ParseIntError(std::num::ParseIntError),
    IOError(std::io::Error),
    Join(tokio::task::JoinError),
    UreqError(ureq::Error),
}

/// The view of an optional string.
pub open spec fn opt_chars(o: Option<String>) -> Option<Seq<char>> {
    match o {
        Some(s) => Some(s@),
        None => None,
    }
}

/// What the client knows, as plain values.
pub struct DeepLynxView {
    pub server: Seq<char>,
    pub bearer_token: Option<Seq<char>>,
    pub api_key: Option<Seq<char>>,
    pub api_secret: Option<Seq<char>>,
    pub secured: bool,
}

/// A client of one DeepLynx server.  It is `secured` exactly when both an
/// API key and an API secret were given.
#[derive(Debug)]
pub struct DeepLynxAPI {
    client: ureq::Agent,
    server: String,
    bearer_token: Option<String>,
    api_key: Option<String>,
    api_secret: Option<String>,
    secured: bool,
}

impl View for DeepLynxAPI {
    type V = DeepLynxView;

    closed spec fn view(&self) -> DeepLynxView {
        DeepLynxView {
            server: self.server@,
            bearer_token: opt_chars(self.bearer_token),
            api_key: opt_chars(self.api_key),
            api_secret: opt_chars(self.api_secret),
            secured: self.secured,
        }
    }
}

/// `ureq::AgentBuilder::new().build()`: a fresh agent with default settings.
/// Nothing is stated of the agent, which only the binary uses.
#[verifier::external_body]
fn default_agent() -> (agent: ureq::Agent) {
    ureq::AgentBuilder::new().build()
}

/// A token body is accepted when it is at least two characters long and
/// its first and last characters are ASCII (the quotes around the token),
/// so that removing them cuts at character boundaries.
pub open spec fn acceptable_token_body(body: Seq<char>) -> bool {
    &&& body.len() >= 2
    &&& (body[0] as u32) < 128
    &&& (body[body.len() - 1] as u32) < 128
}

/// The bearer token carried by a token body: the body without its first and
/// last character.
pub open spec fn token_of_body(body: Seq<char>) -> Seq<char> {
    body.subrange(1, body.len() - 1)
}

/// The expiration claim (seconds since the epoch) that
/// `jwt::Token::<Header, Claims, Unverified>::parse_unverified` reads from
/// `token`: `None` where parsing fails, `Some(None)` where the claims carry
/// no expiration.
pub uninterp spec fn jwt_unverified_expiration(token: Seq<char>) -> Option<Option<u64>>;

/// How many `.` separators a text holds.
pub open spec fn dot_count(s: Seq<char>) -> nat
    decreases s.len(),
{
    if s.len() == 0 {
        0
    } else {
        dot_count(s.drop_last()) + if s.last() == '.' { 1nat } else { 0nat }
    }
}

/// `jwt::Token::parse_unverified` with the default `Header` and `Claims`,
/// then `claims().registered.expiration`.  The result is the named one; the
/// crate splits the text at `.` and refuses it unless it has exactly three
/// parts, so a text without exactly two dots fails.
#[verifier::external_body]
fn parse_jwt_expiration(token: &str) -> (r: Result<Option<u64>, jwt::error::Error>)
    ensures
        (r is Ok) == (jwt_unverified_expiration(token@) is Some),
        r matches Ok(e) ==> jwt_unverified_expiration(token@) == Some(e),
        dot_count(token@) != 2 ==> r is Err,
{
    match jwt::Token::<jwt::Header, jwt::Claims, jwt::Unverified<'_>>::parse_unverified(token) {
        Ok(t) => Ok(t.claims().registered.expiration),
        Err(e) => Err(e),
    }
}

/// A bearer token that cannot be a JWT at all: its text does not have
/// exactly three `.`-separated parts.
pub open spec fn malformed_token(bearer: Option<Seq<char>>) -> bool {
    match bearer {
        Some(t) => dot_count(t) != 2,
        None => false,
    }
}

/// What deciding expiry answers, given the bearer token and the time `now`:
/// no token is not expired; a token that does not parse, or that has no
/// expiration claim, is an error; otherwise it is expired once its
/// expiration is at most `now` (read as an unsigned number).
pub open spec fn expiry_answer(r: Result<bool, APIError>, bearer: Option<Seq<char>>, now: i64) -> bool {
    match bearer {
        None => r == Ok::<bool, APIError>(false),
        Some(t) => match jwt_unverified_expiration(t) {
            None => r matches Err(APIError::JWTParsingError(_)),
            Some(None) => r matches Err(APIError::MissingIATError),
            Some(Some(exp)) => r == Ok::<bool, APIError>(exp <= now as u64),
        },
    }
}

/// What deciding on a token refresh answers at time `now`: a secured client
/// without a token needs one; otherwise the expiry decision is taken (its
/// errors pass through) and a token is needed when it is expired and the
/// client is secured.
pub open spec fn refresh_answer(r: Result<bool, APIError>, api: DeepLynxView, now: i64) -> bool {
    if api.secured && api.bearer_token is None {
        r == Ok::<bool, APIError>(true)
    } else {
        match api.bearer_token {
            None => r == Ok::<bool, APIError>(false),
            Some(t) => match jwt_unverified_expiration(t) {
                None => r matches Err(APIError::JWTParsingError(_)),
                Some(None) => r matches Err(APIError::MissingIATError),
                Some(Some(exp)) => r == Ok::<bool, APIError>(exp <= now as u64 && api.secured),
            },
        }
    }
}

/// Whether a token whose parse gave `parsed` is expired at `now`.
pub fn expiry_from_claims(parsed: Result<Option<u64>, jwt::error::Error>, now: i64) -> (r: Result<bool, APIError>)
    ensures
        match parsed {
            Err(e) => r == Err::<bool, APIError>(APIError::JWTParsingError(e)),
            Ok(None) => r matches Err(APIError::MissingIATError),
            Ok(Some(exp)) => r == Ok::<bool, APIError>(exp <= now as u64),
        },
{
    match parsed {
        Err(e) => Err(APIError::JWTParsingError(e)),
        Ok(None) => Err(APIError::MissingIATError),
        Ok(Some(exp)) => Ok(exp <= now as u64),
    }
}

/// The route that imports into `data_source_id` of `container_id`.
pub open spec fn import_route_of(server: Seq<char>, container_id: u64, data_source_id: u64) -> Seq<char> {
    server + "/containers/"@ + decimal(container_id as nat) + "/import/datasources/"@
        + decimal(data_source_id as nat) + "/imports"@
}

/// `new_mime_guess::from_path(path).first()`, as text: the first MIME type
/// registered for the path's extension, if any.
pub uninterp spec fn guessed_mime(path: Seq<char>) -> Option<Seq<char>>;

/// `new_mime_guess::from_path(path).first()`, rendered with `to_string`.
/// The result is the named one; the crate looks only at the extension, so a
/// path without any `.` has no guess.
#[verifier::external_body]
fn guess_mime(path: &str) -> (r: Option<String>)
    ensures
        opt_chars(r) == guessed_mime(path@),
        !path@.contains('.') ==> r is None,
{
    match new_mime_guess::from_path(path).first() {
        Some(m) => Some(m.to_string()),
        None => None,
    }
}

/// Everything needed to post one file to a data source.
pub struct UploadRequest {
    pub route: String,
    pub authorization: Option<String>,
    pub file_path: String,
    pub mime: String,
}

/// The `Authorization` header for a bearer token.
pub open spec fn bearer_header(token: Seq<char>) -> Seq<char> {
    "Bearer "@ + token
}

/// The `Content-Type` of a multipart body with `boundary`.
pub open spec fn multipart_content_type_of(boundary: Seq<char>) -> Seq<char> {
    "multipart/form-data; boundary="@ + boundary
}

/// The `Content-Type` header of a multipart body with `boundary`.
pub fn multipart_content_type(boundary: &str) -> (s: String)
    ensures
        s@ == multipart_content_type_of(boundary@),
{
    let mut s = String::from_str("multipart/form-data; boundary=");
    s.append(boundary);
    s
}

/// Whether a token body can be accepted (see `acceptable_token_body`).
pub fn is_acceptable_token_body(body: &str) -> (b: bool)
    ensures
        b == acceptable_token_body(body@),
{
    let n = body.unicode_len();
    if n < 2 {
        return false;
    }
    let first = body.get_char(0);
    let last = body.get_char(n - 1);
    (first as u32) < 128 && (last as u32) < 128
}

/// A copy of an optional string.
fn clone_opt(o: &Option<String>) -> (c: Option<String>)
    ensures
        opt_chars(c) == opt_chars(*o),
{
    match o {
        Some(s) => Some(s.clone()),
        None => None,
    }
}

impl Clone for DeepLynxAPI {
    /// A client with the same server, credentials and token, sharing the
    /// HTTP agent's connection pool.
    fn clone(&self) -> (c: Self)
        ensures
            c@ == self@,
    {
        proof { use_type_invariant(self); }
        DeepLynxAPI {
            client: self.client.clone(),
            server: self.server.clone(),
            bearer_token: clone_opt(&self.bearer_token),
            api_key: clone_opt(&self.api_key),
            api_secret: clone_opt(&self.api_secret),
            secured: self.secured,
        }
    }
}

impl DeepLynxAPI {
    #[verifier::type_invariant]
    spec fn secured_means_credentials(self) -> bool {
        self.secured == (self.api_key is Some && self.api_secret is Some)
    }

    /// A client of `server`; it is secured exactly when both an API key and
    /// an API secret are given.  Creating it never fails.
    pub fn new(server: String, api_key: Option<String>, api_secret: Option<String>) -> (r: Result<DeepLynxAPI, APIError>)
        ensures
            r matches Ok(api) && api@ == (DeepLynxView {
                server: server@,
                bearer_token: None,
                api_key: opt_chars(api_key),
                api_secret: opt_chars(api_secret),
                secured: api_key is Some && api_secret is Some,
            }),
    {
        let client = default_agent();
        let secured = api_key.is_some() && api_secret.is_some();
        Ok(DeepLynxAPI { client, server, secured, api_key, api_secret, bearer_token: None })
    }

    /// The HTTP agent of this client (opaque: only its identity is known).
    pub closed spec fn agent(&self) -> ureq::Agent {
        self.client
    }

    /// The HTTP agent that the client's requests go through.
    pub fn client(&self) -> (a: &ureq::Agent)
        ensures
            *a == self.agent(),
    {
        &self.client
    }

    /// The server's base URL.
    pub fn server(&self) -> (s: &String)
        ensures
            s@ == self@.server,
    {
        &self.server
    }

    /// The current bearer token, if any.
    pub fn bearer_token(&self) -> (t: Option<&String>)
        ensures
            match t {
                Some(s) => self@.bearer_token == Some(s@),
                None => self@.bearer_token is None,
            },
    {
        self.bearer_token.as_ref()
    }

    /// Whether the client authenticates with a bearer token.
    pub fn secured(&self) -> (b: bool)
        ensures
            b == self@.secured,
            b == (self@.api_key is Some && self@.api_secret is Some),
    {
        proof { use_type_invariant(self); }
        self.secured
    }

    /// The API key and secret for a token request, or which of them is
    /// missing (the key is checked first).
    pub fn token_credentials(&self) -> (r: Result<(String, String), APIError>)
        ensures
            match (self@.api_key, self@.api_secret) {
                (Some(k), Some(s)) => r matches Ok((rk, rs)) && rk@ == k && rs@ == s,
                (None, _) => r matches Err(APIError::MissingFields(Some(v)))
                    && v@.len() == 1 && v@[0]@ == "api_key"@,
                (Some(_), None) => r matches Err(APIError::MissingFields(Some(v)))
                    && v@.len() == 1 && v@[0]@ == "api_secret"@,
            },
    {
        let api_key = match &self.api_key {
            None => {
                let mut v: Vec<String> = Vec::new();
                v.push(String::from_str("api_key"));
                return Err(APIError::MissingFields(Some(v)));
            },
            Some(k) => k,
        };
        let api_secret = match &self.api_secret {
            None => {
                let mut v: Vec<String> = Vec::new();
                v.push(String::from_str("api_secret"));
                return Err(APIError::MissingFields(Some(v)));
            },
            Some(s) => s,
        };
        Ok((api_key.clone(), api_secret.clone()))
    }

    /// The URL a token is requested from.
    pub fn token_url(&self) -> (u: String)
        ensures
            u@ == self@.server + "/oauth/token"@,
    {
        let mut u = self.server.clone();
        u.append("/oauth/token");
        u
    }

    /// Keeps the token carried by the body of a token response: the body
    /// without the quotes around it.
    pub fn accept_token(&mut self, body: &str)
        requires
            acceptable_token_body(body@),
        ensures
            final(self)@ == (DeepLynxView { bearer_token: Some(token_of_body(body@)), ..old(self)@ }),
    {
        proof { use_type_invariant(&*self); }
        let n = body.unicode_len();
        let token = body.substring_char(1, n - 1);
        self.bearer_token = Some(String::from_str(token));
    }

    /// Whether the bearer token is expired at `now` (seconds since the epoch).
    pub fn token_expired_at(&self, now: i64) -> (r: Result<bool, APIError>)
        ensures
            expiry_answer(r, self@.bearer_token, now),
            malformed_token(self@.bearer_token) ==> r matches Err(APIError::JWTParsingError(_)),
    {
        match &self.bearer_token {
            None => Ok(false),
            Some(token) => expiry_from_claims(parse_jwt_expiration(token.as_str()), now),
        }
    }

    /// Whether the bearer token is expired now.  The answer is the one of
    /// `token_expired_at` for the time the clock gave.
    pub fn token_expired(&self) -> (r: Result<bool, APIError>)
        ensures
            exists|now: i64| expiry_answer(r, self@.bearer_token, now),
            self@.bearer_token is None ==> r == Ok::<bool, APIError>(false),
            malformed_token(self@.bearer_token) ==> r matches Err(APIError::JWTParsingError(_)),
    {
        let now = current_unix_time();
        self.token_expired_at(now)
    }

    /// Whether a new token has to be fetched before a request at `now`.
    pub fn needs_token_refresh_at(&self, now: i64) -> (r: Result<bool, APIError>)
        ensures
            refresh_answer(r, self@, now),
            malformed_token(self@.bearer_token) ==> r matches Err(APIError::JWTParsingError(_)),
    {
        if self.secured && self.bearer_token.is_none() {
            return Ok(true);
        }
        let expired = self.token_expired_at(now)?;
        Ok(expired && self.secured)
    }

    /// Whether a new token has to be fetched before a request now.
    pub fn needs_token_refresh(&self) -> (r: Result<bool, APIError>)
        ensures
            exists|now: i64| refresh_answer(r, self@, now),
            self@.secured && self@.bearer_token is None ==> r == Ok::<bool, APIError>(true),
            self@.bearer_token is None && !self@.secured ==> r == Ok::<bool, APIError>(false),
            malformed_token(self@.bearer_token) ==> r matches Err(APIError::JWTParsingError(_)),
    {
        let now = current_unix_time();
        self.needs_token_refresh_at(now)
    }

    /// The route that imports into `data_source_id` of `container_id`.
    pub fn import_route(&self, container_id: u64, data_source_id: u64) -> (r: String)
        ensures
            r@ == import_route_of(self@.server, container_id, data_source_id),
    {
        let mut r = self.server.clone();
        r.append("/containers/");
        append_decimal(&mut r, container_id);
        r.append("/import/datasources/");
        append_decimal(&mut r, data_source_id);
        r.append("/imports");
        r
    }

    /// The `Authorization` header of the client's requests: `Bearer` and the
    /// token, or none without a token.
    pub fn authorization_header(&self) -> (h: Option<String>)
        ensures
            match self@.bearer_token {
                Some(t) => h matches Some(s) && s@ == bearer_header(t),
                None => h is None,
            },
    {
        match &self.bearer_token {
            None => None,
            Some(t) => {
                let mut s = String::from_str("Bearer ");
                s.append(t.as_str());
                Some(s)
            },
        }
    }

    /// The request that posts the file at `path` to `data_source_id` of
    /// `container_id`, given the MIME type guessed for the path: without a
    /// guess the upload fails with `Unknown`.
    pub fn upload_request(&self, container_id: u64, data_source_id: u64, path: String, guessed: Option<String>) -> (r: Result<UploadRequest, APIError>)
        ensures
            match guessed {
                None => r matches Err(APIError::Unknown),
                Some(m) => r matches Ok(u) && u.mime@ == m@ && u.file_path@ == path@
                    && u.route@ == import_route_of(self@.server, container_id, data_source_id)
                    && opt_chars(u.authorization) == (match self@.bearer_token {
                        Some(t) => Some(bearer_header(t)),
                        None => None::<Seq<char>>,
                    }),
            },
    {
        let route = self.import_route(container_id, data_source_id);
        let authorization = self.authorization_header();
        match guessed {
            None => Err(APIError::Unknown),
            Some(mime) => Ok(UploadRequest { route, authorization, file_path: path, mime }),
        }
    }

    /// Prepares an import of `file` into `data_source_id` of `container_id`.
    /// Without a file there is nothing to import (`MissingFields(None)`); the
    /// raw `data` is not supported and is ignored.  Otherwise the request of
    /// `upload_request` for the MIME type guessed from the file's path.
    pub fn prepare_upload(
        &self,
        container_id: u64,
        data_source_id: u64,
        file: Option<String>,
        data: Option<Vec<u8>>,
    ) -> (r: Result<UploadRequest, APIError>)
        ensures
            match file {
                None => r matches Err(APIError::MissingFields(None)),
                Some(f) => match guessed_mime(f@) {
                    None => r matches Err(APIError::Unknown),
                    Some(m) => r matches Ok(u) && u.mime@ == m && u.file_path@ == f@
                        && u.route@ == import_route_of(self@.server, container_id, data_source_id)
                        && opt_chars(u.authorization) == (match self@.bearer_token {
                            Some(t) => Some(bearer_header(t)),
                            None => None::<Seq<char>>,
                        }),
                },
            },
            (match file {
                Some(f) => !f@.contains('.'),
                None => false,
            }) ==> r matches Err(APIError::Unknown),
    {
        match file {
            None => Err(APIError::MissingFields(None)),
            Some(f) => {
                let guessed = guess_mime(f.as_str());
                self.upload_request(container_id, data_source_id, f, guessed)
            },
        }
    }
}

/// A client without credentials never fetches a token.
pub proof fn lemma_unsecured_never_refreshes(api: DeepLynxView, r: Result<bool, APIError>, now: i64)
    requires
        !api.secured,
        refresh_answer(r, api, now),
    ensures
        r != Ok::<bool, APIError>(true),
{
}

/// Once a secured client holds a token, it fetches another exactly when
/// that token is expired; a token that cannot be read, or has no
/// expiration claim, makes the request fail.
pub proof fn lemma_refresh_with_token(api: DeepLynxView, r: Result<bool, APIError>, now: i64)
    requires
        api.secured,
        api.bearer_token is Some,
        refresh_answer(r, api, now),
    ensures
        r == Ok::<bool, APIError>(true) <==> (jwt_unverified_expiration(api.bearer_token->0) matches Some(Some(exp))
            && exp <= now as u64),
        r is Err <==> !(jwt_unverified_expiration(api.bearer_token->0) matches Some(Some(_))),
{
}

/// Distinct imports go to distinct routes: on one server, the route tells
/// the container and the data source apart, each in its own place.
pub proof fn lemma_import_route_injective(server: Seq<char>, c1: u64, d1: u64, c2: u64, d2: u64)
    requires
        import_route_of(server, c1, d1) == import_route_of(server, c2, d2),
    ensures
        c1 == c2,
        d1 == d2,
{
    reveal_strlit("/containers/");
    reveal_strlit("/import/datasources/");
    reveal_strlit("/imports");
    let p = server + "/containers/"@;
    let x = "/import/datasources/"@;
    let tail = "/imports"@;
    let dc1 = decimal(c1 as nat);
    let dc2 = decimal(c2 as nat);
    let dd1 = decimal(d1 as nat);
    let dd2 = decimal(d2 as nat);
    let rest1 = x + (dd1 + tail);
    let rest2 = x + (dd2 + tail);
    let r1 = import_route_of(server, c1, d1);
    let r2 = import_route_of(server, c2, d2);
    assert(r1 =~= p + (dc1 + rest1));
    assert(r2 =~= p + (dc2 + rest2));
    assert(r1.subrange(p.len() as int, r1.len() as int) =~= dc1 + rest1);
    assert(r2.subrange(p.len() as int, r2.len() as int) =~= dc2 + rest2);
    lemma_decimal_digits(c1 as nat);
    lemma_decimal_digits(c2 as nat);
    assert(rest1[0] == '/');
    assert(rest2[0] == '/');
    assert(digit_value('/') == 10);
    lemma_digits_then_separator(dc1, rest1, dc2, rest2);
    lemma_decimal_injective(c1 as nat, c2 as nat);
    assert(dd1 + tail =~= rest1.subrange(x.len() as int, rest1.len() as int));
    assert(dd2 + tail =~= rest2.subrange(x.len() as int, rest2.len() as int));
    assert(dd1 =~= (dd1 + tail).subrange(0, dd1.len() as int));
    assert(dd2 =~= (dd2 + tail).subrange(0, dd2.len() as int));
    lemma_decimal_injective(d1 as nat, d2 as nat);
}

/// The answer of the expiry decision only moves from "not expired" to
/// "expired" as time goes on: a token expired at one time is expired at
/// every later non-negative time.
pub proof fn lemma_expiry_monotone(bearer: Option<Seq<char>>, now1: i64, now2: i64, r1: Result<bool, APIError>, r2: Result<bool, APIError>)
    requires
        0 <= now1 <= now2,
        expiry_answer(r1, bearer, now1),
        expiry_answer(r2, bearer, now2),
        r1 == Ok::<bool, APIError>(true),
    ensures
        r2 == Ok::<bool, APIError>(true),
{
}

/// A token is expired exactly when its expiration claim is at most the
/// (non-negative) time asked about, and never when there is no token.
pub proof fn lemma_expired_iff_reached(bearer: Option<Seq<char>>, exp: u64, now: i64, r: Result<bool, APIError>)
    requires
        0 <= now,
        expiry_answer(r, bearer, now),
    ensures
        bearer is None ==> r == Ok::<bool, APIError>(false),
        (bearer matches Some(t) && jwt_unverified_expiration(t) == Some(Some(exp)))
            ==> (r == Ok::<bool, APIError>(true) <==> exp <= now),
        (bearer matches Some(t) && jwt_unverified_expiration(t) == Some(Some(exp)))
            ==> (r == Ok::<bool, APIError>(false) <==> now < exp),
{
}

} // verus!

//! Identity-provider side of the credential chain: the device-code grant,
//! its polling decisions, and token refresh.

use vstd::prelude::*;

verus! {

/// Client identifier presented to the identity provider.
pub open spec fn client_id() -> Seq<char> {
    "2000ea79-d993-4591-b9c4-e678f82ae1db"@
}

/// Scope requested from the identity provider.
pub open spec fn scope() -> Seq<char> {
    "XboxLive.signin offline_access"@
}

pub open spec fn device_code_url() -> Seq<char> {
    "https://login.microsoftonline.com/consumers/oauth2/v2.0/devicecode"@
}

pub open spec fn token_url() -> Seq<char> {
    "https://login.microsoftonline.com/consumers/oauth2/v2.0/token"@
}

/// Form-encoding (`application/x-www-form-urlencoded`) of name/value pairs.
pub uninterp spec fn form_encoded(pairs: Seq<(Seq<char>, Seq<char>)>) -> Seq<char>;

/// Relies on url's form_urlencoded::Serializer: the pairs, percent-encoded and
/// joined with `&` and `=`, in the order given.
#[verifier::external_body]
fn form_encode(pairs: &Vec<(String, String)>) -> (r: String)
    ensures
        r@ == form_encoded(pair_views(pairs@)),
{
    url::form_urlencoded::Serializer::new(String::new()).extend_pairs(pairs.iter()).finish()
}

pub open spec fn pair_views(v: Seq<(String, String)>) -> Seq<(Seq<char>, Seq<char>)> {
    v.map_values(|p: (String, String)| (p.0@, p.1@))
}

#[derive(Clone, Copy, Debug, PartialEq, Eq, Structural)]
pub enum Method {
    Get,
    Post,
}

/// A request for the transport to send.
#[derive(Debug)]
pub struct HttpRequest {
    pub method: Method,
    pub url: String,
    pub headers: Vec<(String, String)>,
    pub body: String,
}

/// Why the credential chain failed.
#[derive(Debug, PartialEq, Eq)]
pub enum AuthError {
    /// The transport failed before an HTTP response came back.
    Network,
    /// The identity provider refused, with its error code.
    Denied(String),
    /// The device grant ran out before the user authorized it.
    Expired,
    /// The second federation hop returned no user claims.
    MissingClaims,
    /// A response was not a document of the expected shape.
    Decode,
}

/// A device-code grant in progress.
#[derive(Debug)]
pub struct DeviceGrant {
    pub device_code: String,
    pub user_code: String,
    pub verification_uri: String,
    /// Seconds between two polls.
    pub poll_interval: u64,
    /// Unix time after which the grant is void.
    pub expires_at: i64,
}

/// Identity-provider token of an account.
#[derive(Debug)]
pub struct IdentityToken {
    pub access_token: String,
    pub refresh_token: String,
    pub expires_at: i64,
}

/// The device-authorization endpoint's answer.
#[derive(Debug)]
pub struct DeviceCodeResponse {
    pub device_code: String,
    pub user_code: String,
    pub verification_uri: String,
    pub expires_in: i64,
    pub interval: Option<u64>,
}

/// The token endpoint's answer: a token, or an error code.
#[derive(Debug)]
pub enum TokenResponse {
    Token { access_token: String, refresh_token: String, expires_in: i64 },
    Error(String),
}

/// One poll of the device grant, decoded.
#[derive(Debug)]
pub enum DeviceFlowOutcome {
    Pending,
    Denied(String),
    Success(IdentityToken),
}

/// What the polling loop does next.
#[derive(Debug)]
pub enum PollStep {
    /// Sleep this many seconds, then poll again.
    Wait(u64),
    Done(IdentityToken),
    Fail(AuthError),
}

/// Poll interval used when the provider names none.
pub open spec fn default_poll_interval() -> u64 {
    5
}

/// `now + seconds`, held to the range of `i64`.
pub open spec fn expiry(now: i64, seconds: i64) -> i64 {
    if now + seconds > i64::MAX {
        i64::MAX
    } else if now + seconds < i64::MIN {
        i64::MIN
    } else {
        (now + seconds) as i64
    }
}

/// Turns a lifetime in seconds into an absolute Unix time.
pub fn expiry_time(now: i64, seconds: i64) -> (r: i64)
    ensures
        r == expiry(now, seconds),
{
    match now.checked_add(seconds) {
        Some(t) => t,
        None => if seconds > 0 {
            i64::MAX
        } else {
            i64::MIN
        },
    }
}

/// Whether `r` posts the form `pairs` to `url`.
pub open spec fn is_form_post(r: HttpRequest, url: Seq<char>, pairs: Seq<(Seq<char>, Seq<char>)>) -> bool {
    &&& r.method == Method::Post
    &&& r.url@ == url
    &&& pair_views(r.headers@) == seq![("Content-Type"@, "application/x-www-form-urlencoded"@)]
    &&& r.body@ == form_encoded(pairs)
}

pub open spec fn device_code_form() -> Seq<(Seq<char>, Seq<char>)> {
    seq![("client_id"@, client_id()), ("scope"@, scope())]
}

pub open spec fn poll_form(device_code: Seq<char>) -> Seq<(Seq<char>, Seq<char>)> {
    seq![
        ("grant_type"@, "urn:ietf:params:oauth:grant-type:device_code"@),
        ("client_id"@, client_id()),
        ("device_code"@, device_code),
    ]
}

pub open spec fn refresh_form(refresh_token: Seq<char>) -> Seq<(Seq<char>, Seq<char>)> {
    seq![
        ("client_id"@, client_id()),
        ("scope"@, scope()),
        ("refresh_token"@, refresh_token),
        ("grant_type"@, "refresh_token"@),
    ]
}

fn form_post(url: &str, pairs: &Vec<(String, String)>) -> (r: HttpRequest)
    ensures
        is_form_post(r, url@, pair_views(pairs@)),
{
    let mut headers: Vec<(String, String)> = Vec::new();
    headers.push(
        (String::from_str("Content-Type"), String::from_str("application/x-www-form-urlencoded")),
    );
    assert(pair_views(headers@) =~= seq![("Content-Type"@, "application/x-www-form-urlencoded"@)]);
    HttpRequest { method: Method::Post, url: url.to_owned(), headers, body: form_encode(pairs) }
}

fn pair(a: &str, b: &str) -> (r: (String, String))
    ensures
        r.0@ == a@,
        r.1@ == b@,
{
    (String::from_str(a), String::from_str(b))
}

/// Step 1 of the chain: asks the identity provider for a device code.
pub fn begin_device_flow_request() -> (r: HttpRequest)
    ensures
        is_form_post(r, device_code_url(), device_code_form()),
{
    let mut pairs: Vec<(String, String)> = Vec::new();
    pairs.push(pair("client_id", "2000ea79-d993-4591-b9c4-e678f82ae1db"));
    pairs.push(pair("scope", "XboxLive.signin offline_access"));
    assert(pair_views(pairs@) =~= device_code_form());
    form_post("https://login.microsoftonline.com/consumers/oauth2/v2.0/devicecode", &pairs)
}

/// The grant that a device-code answer opens, received at Unix time `now`.
pub fn begin_device_flow(resp: DeviceCodeResponse, now: i64) -> (r: DeviceGrant)
    ensures
        r.device_code == resp.device_code,
        r.user_code == resp.user_code,
        r.verification_uri == resp.verification_uri,
        r.poll_interval == match resp.interval {
            Some(i) => i,
            None => default_poll_interval(),
        },
        r.expires_at == expiry(now, resp.expires_in),
{
    let poll_interval = match resp.interval {
        Some(i) => i,
        None => 5,
    };
    DeviceGrant {
        device_code: resp.device_code,
        user_code: resp.user_code,
        verification_uri: resp.verification_uri,
        poll_interval,
        expires_at: expiry_time(now, resp.expires_in),
    }
}

/// Step 2 of the chain: one poll of the token endpoint for the grant.
pub fn poll_request(grant: &DeviceGrant) -> (r: HttpRequest)
    ensures
        is_form_post(r, token_url(), poll_form(grant.device_code@)),
{
    let mut pairs: Vec<(String, String)> = Vec::new();
    pairs.push(pair("grant_type", "urn:ietf:params:oauth:grant-type:device_code"));
    pairs.push(pair("client_id", "2000ea79-d993-4591-b9c4-e678f82ae1db"));
    pairs.push((String::from_str("device_code"), grant.device_code.clone()));
    assert(pair_views(pairs@) =~= poll_form(grant.device_code@));
    form_post("https://login.microsoftonline.com/consumers/oauth2/v2.0/token", &pairs)
}

/// Error code under which the provider says the user has not acted yet.
pub open spec fn pending_code() -> Seq<char> {
    "authorization_pending"@
}

/// Decodes an answer of the token endpoint received at Unix time `now`.
pub fn classify_poll(resp: TokenResponse, now: i64) -> (r: DeviceFlowOutcome)
    ensures
        match resp {
            TokenResponse::Token { access_token, refresh_token, expires_in } => r
                == DeviceFlowOutcome::Success(
                IdentityToken { access_token, refresh_token, expires_at: expiry(now, expires_in) },
            ),
            TokenResponse::Error(code) => if code@ == pending_code() {
                r is Pending
            } else {
                r == DeviceFlowOutcome::Denied(code)
            },
        },
{
    match resp {
        TokenResponse::Token { access_token, refresh_token, expires_in } => {
            DeviceFlowOutcome::Success(
                IdentityToken { access_token, refresh_token, expires_at: expiry_time(now, expires_in) },
            )
        },
        TokenResponse::Error(code) => {
            if code == String::from_str("authorization_pending") {
                DeviceFlowOutcome::Pending
            } else {
                DeviceFlowOutcome::Denied(code)
            }
        },
    }
}

/// What the polling loop does with one outcome at Unix time `now`: a token
/// ends it, a refusal fails it, and a pending answer waits the grant's
/// interval, unless the grant has run out.
pub fn poll_decision(grant: &DeviceGrant, outcome: DeviceFlowOutcome, now: i64) -> (r: PollStep)
    ensures
        match outcome {
            DeviceFlowOutcome::Success(t) => r == PollStep::Done(t),
            DeviceFlowOutcome::Denied(code) => r == PollStep::Fail(AuthError::Denied(code)),
            DeviceFlowOutcome::Pending => if now >= grant.expires_at {
                r == PollStep::Fail(AuthError::Expired)
            } else {
                r == PollStep::Wait(grant.poll_interval)
            },
        },
{
    match outcome {
        DeviceFlowOutcome::Success(t) => PollStep::Done(t),
        DeviceFlowOutcome::Denied(code) => PollStep::Fail(AuthError::Denied(code)),
        DeviceFlowOutcome::Pending => {
            if now >= grant.expires_at {
                PollStep::Fail(AuthError::Expired)
            } else {
                PollStep::Wait(grant.poll_interval)
            }
        },
    }
}

/// Whether a stored identity token has run out at Unix time `now` and must
/// be refreshed before use.
pub fn needs_refresh(token: &IdentityToken, now: i64) -> (r: bool)
    ensures
        r == (now >= token.expires_at),
{
    now >= token.expires_at
}

/// Step 6: asks the token endpoint for a fresh token.
pub fn refresh_request(token: &IdentityToken) -> (r: HttpRequest)
    ensures
        is_form_post(r, token_url(), refresh_form(token.refresh_token@)),
{
    let mut pairs: Vec<(String, String)> = Vec::new();
    pairs.push(pair("client_id", "2000ea79-d993-4591-b9c4-e678f82ae1db"));
    pairs.push(pair("scope", "XboxLive.signin offline_access"));
    pairs.push((String::from_str("refresh_token"), token.refresh_token.clone()));
    pairs.push(pair("grant_type", "refresh_token"));
    assert(pair_views(pairs@) =~= refresh_form(token.refresh_token@));
    form_post("https://login.microsoftonline.com/consumers/oauth2/v2.0/token", &pairs)
}

/// The token that a refresh answer received at Unix time `now` yields.
pub fn refresh_outcome(resp: TokenResponse, now: i64) -> (r: Result<IdentityToken, AuthError>)
    ensures
        match resp {
            TokenResponse::Token { access_token, refresh_token, expires_in } => r == Ok::<
                IdentityToken,
                AuthError,
            >(IdentityToken { access_token, refresh_token, expires_at: expiry(now, expires_in) }),
            TokenResponse::Error(code) => r == Err::<IdentityToken, AuthError>(AuthError::Denied(code)),
        },
{
    match resp {
        TokenResponse::Token { access_token, refresh_token, expires_in } => {
            Ok(IdentityToken { access_token, refresh_token, expires_at: expiry_time(now, expires_in) })
        },
        TokenResponse::Error(code) => Err(AuthError::Denied(code)),
    }
}

} // verus!

//! Federation hops of the credential chain and the game-service profile.

use vstd::prelude::*;

use crate::msa::{expiry, expiry_time, pair_views, AuthError, HttpRequest, Method};

verus! {

/// Lower-case hexadecimal digit of a value below 16.
pub open spec fn hex_digit(n: u32) -> char {
    "0123456789abcdef"@[n as int]
}

/// How a JSON string literal spells one character: `"` and `\\` behind a
/// backslash, the control characters with a short escape as such, the other
/// control characters as `\u00xx`, every other character as itself.
pub open spec fn json_escape(c: char) -> Seq<char> {
    if c == '"' {
        seq!['\\', '"']
    } else if c == '\\' {
        seq!['\\', '\\']
    } else if c == '\u{8}' {
        seq!['\\', 'b']
    } else if c == '\t' {
        seq!['\\', 't']
    } else if c == '\n' {
        seq!['\\', 'n']
    } else if c == '\u{c}' {
        seq!['\\', 'f']
    } else if c == '\r' {
        seq!['\\', 'r']
    } else if (c as u32) < 0x20 {
        seq!['\\', 'u', '0', '0', hex_digit((c as u32) / 16), hex_digit((c as u32) % 16)]
    } else {
        seq![c]
    }
}

/// The characters of a text, each spelled as in a JSON string literal.
pub open spec fn json_escaped(s: Seq<char>) -> Seq<char>
    decreases s.len(),
{
    if s.len() == 0 {
        Seq::empty()
    } else {
        json_escaped(s.drop_last()) + json_escape(s.last())
    }
}

/// JSON string literal (quotes included) that encodes a text.
pub open spec fn json_quoted(s: Seq<char>) -> Seq<char> {
    seq!['"'] + json_escaped(s) + seq!['"']
}

/// Relies on serde_json::to_string on a `str`: the text between quotes, with
/// the characters that its escape table names escaped (format_escaped_str).
/// Serialising a `str` into memory does not fail; the empty-string fallback
/// is never taken.
#[verifier::external_body]
fn json_string(s: &str) -> (r: String)
    ensures
        r@ == json_quoted(s@),
{
    serde_json::to_string(s).unwrap_or_default()
}

pub open spec fn xbl_url() -> Seq<char> {
    "https://user.auth.xboxlive.com/user/authenticate"@
}

pub open spec fn xsts_url() -> Seq<char> {
    "https://xsts.auth.xboxlive.com/xsts/authorize"@
}

pub open spec fn login_url() -> Seq<char> {
    "https://api.minecraftservices.com/authentication/login_with_xbox"@
}

pub open spec fn profile_url() -> Seq<char> {
    "https://api.minecraftservices.com/minecraft/profile"@
}

pub open spec fn json_headers() -> Seq<(Seq<char>, Seq<char>)> {
    seq![("Content-Type"@, "application/json"@), ("Accept"@, "application/json"@)]
}

/// Body of the first federation hop.
pub open spec fn xbl_body(identity_token: Seq<char>) -> Seq<char> {
    "{\"Properties\":{\"AuthMethod\":\"RPS\",\"SiteName\":\"user.auth.xboxlive.com\",\"RpsTicket\":"@
        + json_quoted("d="@ + identity_token)
        + "},\"RelyingParty\":\"http://auth.xboxlive.com\",\"TokenType\":\"JWT\"}"@
}

/// Body of the second federation hop.
pub open spec fn xsts_body(first_hop_token: Seq<char>) -> Seq<char> {
    "{\"Properties\":{\"SandboxId\":\"RETAIL\",\"UserTokens\":["@ + json_quoted(first_hop_token)
        + "]},\"RelyingParty\":\"rp://api.minecraftservices.com/\",\"TokenType\":\"JWT\"}"@
}

/// Identity string that the game service's login takes.
pub open spec fn identity_string(subject_hash: Seq<char>, token: Seq<char>) -> Seq<char> {
    "XBL3.0 x="@ + subject_hash + ";"@ + token
}

/// Body of the final hop.
pub open spec fn login_body(subject_hash: Seq<char>, token: Seq<char>) -> Seq<char> {
    "{\"identityToken\":"@ + json_quoted(identity_string(subject_hash, token)) + "}"@
}

/// Token of a federation hop; the second hop also names the user's hash.
#[derive(Debug)]
pub struct FederatedToken {
    pub token: String,
    pub subject_hash: Option<String>,
}

/// Answer of the first federation hop.
#[derive(Debug)]
pub struct XblResponse {
    pub token: String,
}

/// Answer of the second federation hop: its token and the user hashes of its
/// claims, in order.
#[derive(Debug)]
pub struct XstsResponse {
    pub token: String,
    pub user_hashes: Vec<String>,
}

/// Answer of the game service's login.
#[derive(Debug)]
pub struct LoginResponse {
    pub access_token: String,
    pub token_type: Option<String>,
    pub expires_in: Option<i64>,
}

/// Access token of the game service.
#[derive(Debug)]
pub struct McAccount {
    pub access_token: String,
    pub token_type: String,
    pub expires_at: Option<i64>,
}

/// Profile of the player.
#[derive(Debug)]
pub struct UserProfile {
    pub id: String,
    pub name: String,
}

/// The chain's result: a game-service session.
#[derive(Debug)]
pub struct ServiceSession {
    pub access_token: String,
    pub token_type: String,
    pub subject_id: String,
    pub display_name: String,
    pub expires_at: Option<i64>,
}

/// Whether `r` posts the JSON document `body` to `url`.
pub open spec fn is_json_post(r: HttpRequest, url: Seq<char>, body: Seq<char>) -> bool {
    &&& r.method == Method::Post
    &&& r.url@ == url
    &&& pair_views(r.headers@) == json_headers()
    &&& r.body@ == body
}

/// Whether `r` asks for the profile with the game-service token.
pub open spec fn is_profile_request(r: HttpRequest, mca: McAccount) -> bool {
    &&& r.method == Method::Get
    &&& r.url@ == profile_url()
    &&& pair_views(r.headers@) == seq![("Authorization"@, mca.token_type@ + " "@ + mca.access_token@)]
    &&& r.body@.len() == 0
}

fn json_post(url: &str, body: String) -> (r: HttpRequest)
    ensures
        r.method == Method::Post,
        r.url@ == url@,
        pair_views(r.headers@) == json_headers(),
        r.body == body,
{
    let mut headers: Vec<(String, String)> = Vec::new();
    headers.push((String::from_str("Content-Type"), String::from_str("application/json")));
    headers.push((String::from_str("Accept"), String::from_str("application/json")));
    assert(pair_views(headers@) =~= json_headers());
    HttpRequest { method: Method::Post, url: url.to_owned(), headers, body }
}

/// Step 3: presents the identity token to the first federation service.
pub fn authenticate_with_xbl(ms_access_token: &str) -> (r: HttpRequest)
    ensures
        is_json_post(r, xbl_url(), xbl_body(ms_access_token@)),
{
    let mut ticket = String::from_str("d=");
    ticket.append(ms_access_token);
    let mut body = String::from_str(
        "{\"Properties\":{\"AuthMethod\":\"RPS\",\"SiteName\":\"user.auth.xboxlive.com\",\"RpsTicket\":",
    );
    body.append(json_string(ticket.as_str()).as_str());
    body.append("},\"RelyingParty\":\"http://auth.xboxlive.com\",\"TokenType\":\"JWT\"}");
    json_post("https://user.auth.xboxlive.com/user/authenticate", body)
}

/// The token that the first hop yields.
pub fn exchange_first_hop(resp: XblResponse) -> (r: FederatedToken)
    ensures
        r.token == resp.token,
        r.subject_hash.is_none(),
{
    FederatedToken { token: resp.token, subject_hash: None }
}

/// Step 4: presents the first hop's token to the second federation service.
pub fn authenticate_with_xsts(xbl_token: &str) -> (r: HttpRequest)
    ensures
        is_json_post(r, xsts_url(), xsts_body(xbl_token@)),
{
    let mut body = String::from_str("{\"Properties\":{\"SandboxId\":\"RETAIL\",\"UserTokens\":[");
    body.append(json_string(xbl_token).as_str());
    body.append("]},\"RelyingParty\":\"rp://api.minecraftservices.com/\",\"TokenType\":\"JWT\"}");
    json_post("https://xsts.auth.xboxlive.com/xsts/authorize", body)
}

/// The token and user hash that the second hop yields: the hash is the first
/// claim's, and an answer without claims fails.
pub fn exchange_second_hop(resp: XstsResponse) -> (r: Result<FederatedToken, AuthError>)
    ensures
        resp.user_hashes@.len() == 0 ==> r == Err::<FederatedToken, AuthError>(
            AuthError::MissingClaims,
        ),
        resp.user_hashes@.len() > 0 ==> r == Ok::<FederatedToken, AuthError>(
            FederatedToken { token: resp.token, subject_hash: Some(resp.user_hashes@[0]) },
        ),
{
    let XstsResponse { token, user_hashes } = resp;
    if user_hashes.len() == 0 {
        return Err(AuthError::MissingClaims);
    }
    let hash = user_hashes[0].clone();
    Ok(FederatedToken { token, subject_hash: Some(hash) })
}

/// Step 5: logs in to the game service with the second hop's token and hash.
pub fn authenticate_with_minecraft(xsts_token: &str, user_hash: &str) -> (r: HttpRequest)
    ensures
        is_json_post(r, login_url(), login_body(user_hash@, xsts_token@)),
{
    let mut identity = String::from_str("XBL3.0 x=");
    identity.append(user_hash);
    identity.append(";");
    identity.append(xsts_token);
    let mut body = String::from_str("{\"identityToken\":");
    body.append(json_string(identity.as_str()).as_str());
    body.append("}");
    json_post("https://api.minecraftservices.com/authentication/login_with_xbox", body)
}

/// The game-service token that a login answer received at Unix time `now`
/// yields; the token type is "Bearer" when the answer names none.
pub fn exchange_final_hop(resp: LoginResponse, now: i64) -> (r: McAccount)
    ensures
        r.access_token == resp.access_token,
        r.token_type@ == match resp.token_type {
            Some(t) => t@,
            None => "Bearer"@,
        },
        r.expires_at == match resp.expires_in {
            Some(s) => Some(expiry(now, s)),
            None => None,
        },
{
    let token_type = match resp.token_type {
        Some(t) => t,
        None => String::from_str("Bearer"),
    };
    let expires_at = match resp.expires_in {
        Some(s) => Some(expiry_time(now, s)),
        None => None,
    };
    McAccount { access_token: resp.access_token, token_type, expires_at }
}

/// Step 7: asks the game service for the player's profile.
pub fn profile_request(mca: &McAccount) -> (r: HttpRequest)
    ensures
        is_profile_request(r, *mca),
{
    let mut auth = mca.token_type.clone();
    auth.append(" ");
    auth.append(mca.access_token.as_str());
    let mut headers: Vec<(String, String)> = Vec::new();
    headers.push((String::from_str("Authorization"), auth));
    assert(pair_views(headers@) =~= seq![("Authorization"@, mca.token_type@ + " "@ + mca.access_token@)]);
    HttpRequest {
        method: Method::Get,
        url: String::from_str("https://api.minecraftservices.com/minecraft/profile"),
        headers,
        body: String::new(),
    }
}

/// The session that a game-service token and the player's profile make.
pub fn service_session(mca: McAccount, profile: UserProfile) -> (r: ServiceSession)
    ensures
        r.access_token == mca.access_token,
        r.token_type == mca.token_type,
        r.subject_id == profile.id,
        r.display_name == profile.name,
        r.expires_at == mca.expires_at,
{
    ServiceSession {
        access_token: mca.access_token,
        token_type: mca.token_type,
        subject_id: profile.id,
        display_name: profile.name,
        expires_at: mca.expires_at,
    }
}

} // verus!

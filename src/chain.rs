//! The credential chain as a state machine: from the device-code grant
//! through the federation hops to a game-service session. The caller performs
//! each action (sends the request, sleeps) and hands back what came of it.

use vstd::prelude::*;

use crate::msa::{
    begin_device_flow, begin_device_flow_request, classify_poll, device_code_form, device_code_url,
    expiry, is_form_post, pending_code, poll_decision, poll_form, poll_request, token_url, AuthError, DeviceCodeResponse,
    DeviceGrant, HttpRequest, IdentityToken, PollStep, TokenResponse,
};
use crate::profile::{
    authenticate_with_minecraft, authenticate_with_xbl, authenticate_with_xsts, exchange_final_hop,
    exchange_first_hop, exchange_second_hop, is_json_post, is_profile_request, login_body,
    login_url, profile_request, service_session, xbl_body, xbl_url, xsts_body, xsts_url,
    LoginResponse, McAccount, ServiceSession, UserProfile, XblResponse, XstsResponse,
};

verus! {

/// The exchange that a failure happened in.
#[derive(Clone, Copy, Debug, PartialEq, Eq, Structural)]
pub enum Hop {
    DeviceGrant,
    IdentityToken,
    FirstHop,
    SecondHop,
    FinalHop,
    Profile,
}

/// Where the chain stands.
#[derive(Debug)]
pub enum ChainState {
    Idle,
    /// The device-code request is out.
    AwaitingDeviceCode,
    /// A poll of the token endpoint is out.
    Polling { grant: DeviceGrant },
    /// Waiting out the poll interval.
    Sleeping { grant: DeviceGrant },
    /// The first federation request is out.
    AwaitingFirstHop { identity: IdentityToken },
    /// The second federation request is out.
    AwaitingSecondHop { identity: IdentityToken },
    /// The game-service login is out.
    AwaitingServiceToken { identity: IdentityToken },
    /// The profile request is out.
    AwaitingProfile { identity: IdentityToken, account: McAccount },
    Authorized { identity: IdentityToken, session: ServiceSession },
    Failed { hop: Hop, error: AuthError },
    Cancelled,
}

/// What came of the last action.
#[derive(Debug)]
pub enum ChainEvent {
    Start,
    DeviceCode(DeviceCodeResponse),
    TokenAnswer(TokenResponse),
    Woke,
    FirstHop(XblResponse),
    SecondHop(XstsResponse),
    ServiceToken(LoginResponse),
    Profile(UserProfile),
    /// The transport failed before a response came back.
    NetworkFailure,
    /// A response did not decode.
    DecodeFailure,
    Cancel,
}

/// What the caller does next.
#[derive(Debug)]
pub enum ChainAction {
    Send(HttpRequest),
    /// Show the user code and where to enter it, then send the request.
    Authorize { user_code: String, verification_uri: String, request: HttpRequest },
    /// Sleep this many seconds, then report `Woke`.
    Sleep(u64),
    /// The chain reached its end; the state holds the session or the failure.
    Stop,
    /// The event does not fit the state; nothing changed.
    Ignore,
}

impl ChainState {
    pub open spec fn is_terminal(self) -> bool {
        self is Authorized || self is Failed || self is Cancelled
    }

    /// The exchange that the state waits on.
    pub open spec fn waiting_hop(self) -> Option<Hop> {
        match self {
            ChainState::AwaitingDeviceCode => Some(Hop::DeviceGrant),
            ChainState::Polling { .. } => Some(Hop::IdentityToken),
            ChainState::AwaitingFirstHop { .. } => Some(Hop::FirstHop),
            ChainState::AwaitingSecondHop { .. } => Some(Hop::SecondHop),
            ChainState::AwaitingServiceToken { .. } => Some(Hop::FinalHop),
            ChainState::AwaitingProfile { .. } => Some(Hop::Profile),
            _ => None,
        }
    }
}

/// Whether `a` sends the first federation request for `identity`.
pub open spec fn sends_first_hop(s: ChainState, a: ChainAction, identity: IdentityToken) -> bool {
    &&& s == ChainState::AwaitingFirstHop { identity }
    &&& a matches ChainAction::Send(r) && is_json_post(r, xbl_url(), xbl_body(identity.access_token@))
}

/// One transition: the state `s2` and action `a` that event `e`, at Unix time
/// `now`, takes state `s` to.
pub open spec fn transition(s: ChainState, e: ChainEvent, now: i64, s2: ChainState, a: ChainAction) -> bool {
    if e is Cancel && !s.is_terminal() {
        s2 == ChainState::Cancelled && a == ChainAction::Stop
    } else if (e is NetworkFailure || e is DecodeFailure) && s.waiting_hop().is_some() {
        &&& s2 == ChainState::Failed {
            hop: s.waiting_hop().unwrap(),
            error: if e is NetworkFailure {
                AuthError::Network
            } else {
                AuthError::Decode
            },
        }
        &&& a == ChainAction::Stop
    } else {
        match (s, e) {
            (ChainState::Idle, ChainEvent::Start) => {
                &&& s2 == ChainState::AwaitingDeviceCode
                &&& a matches ChainAction::Send(r) && is_form_post(r, device_code_url(), device_code_form())
            },
            (ChainState::AwaitingDeviceCode, ChainEvent::DeviceCode(resp)) => {
                &&& s2 matches ChainState::Polling { grant } && grant.device_code == resp.device_code
                    && grant.user_code == resp.user_code && grant.verification_uri
                    == resp.verification_uri && grant.poll_interval == match resp.interval {
                    Some(i) => i,
                    None => 5,
                } && grant.expires_at == expiry(now, resp.expires_in)
                &&& a matches ChainAction::Authorize { user_code, verification_uri, request }
                    && user_code == resp.user_code && verification_uri == resp.verification_uri
                    && is_form_post(request, token_url(), poll_form(resp.device_code@))
            },
            (ChainState::Polling { grant }, ChainEvent::TokenAnswer(resp)) => match resp {
                TokenResponse::Token { access_token, refresh_token, expires_in } => sends_first_hop(
                    s2,
                    a,
                    IdentityToken { access_token, refresh_token, expires_at: expiry(now, expires_in) },
                ),
                TokenResponse::Error(code) => if code@ != pending_code() {
                    s2 == ChainState::Failed { hop: Hop::IdentityToken, error: AuthError::Denied(code) }
                        && a == ChainAction::Stop
                } else if now >= grant.expires_at {
                    s2 == ChainState::Failed { hop: Hop::IdentityToken, error: AuthError::Expired }
                        && a == ChainAction::Stop
                } else {
                    s2 == ChainState::Sleeping { grant } && a == ChainAction::Sleep(grant.poll_interval)
                },
            },
            (ChainState::Sleeping { grant }, ChainEvent::Woke) => if now >= grant.expires_at {
                s2 == ChainState::Failed { hop: Hop::IdentityToken, error: AuthError::Expired }
                    && a == ChainAction::Stop
            } else {
                &&& s2 == ChainState::Polling { grant }
                &&& a matches ChainAction::Send(r) && is_form_post(r, token_url(), poll_form(grant.device_code@))
            },
            (ChainState::AwaitingFirstHop { identity }, ChainEvent::FirstHop(resp)) => {
                &&& s2 == ChainState::AwaitingSecondHop { identity }
                &&& a matches ChainAction::Send(r) && is_json_post(r, xsts_url(), xsts_body(resp.token@))
            },
            (ChainState::AwaitingSecondHop { identity }, ChainEvent::SecondHop(resp)) => if resp.user_hashes@.len() == 0 {
                s2 == ChainState::Failed { hop: Hop::SecondHop, error: AuthError::MissingClaims }
                    && a == ChainAction::Stop
            } else {
                &&& s2 == ChainState::AwaitingServiceToken { identity }
                &&& a matches ChainAction::Send(r) && is_json_post(
                    r,
                    login_url(),
                    login_body(resp.user_hashes@[0]@, resp.token@),
                )
            },
            (ChainState::AwaitingServiceToken { identity }, ChainEvent::ServiceToken(resp)) => {
                &&& s2 matches ChainState::AwaitingProfile { identity: id2, account } && id2 == identity
                    && account.access_token == resp.access_token && account.token_type@ == match resp.token_type {
                    Some(t) => t@,
                    None => "Bearer"@,
                } && account.expires_at == match resp.expires_in {
                    Some(x) => Some(expiry(now, x)),
                    None => None,
                }
                &&& a matches ChainAction::Send(r) && s2 matches ChainState::AwaitingProfile { account, .. }
                    && is_profile_request(r, account)
            },
            (ChainState::AwaitingProfile { identity, account }, ChainEvent::Profile(p)) => {
                &&& s2 == ChainState::Authorized {
                    identity,
                    session: ServiceSession {
                        access_token: account.access_token,
                        token_type: account.token_type,
                        subject_id: p.id,
                        display_name: p.name,
                        expires_at: account.expires_at,
                    },
                }
                &&& a == ChainAction::Stop
            },
            _ => s2 == s && a == ChainAction::Ignore,
        }
    }
}

impl ChainState {
    /// A chain that starts from an identity token already held (a stored or
    /// refreshed one): it goes straight to the first federation hop.
    pub fn from_identity(identity: IdentityToken) -> (r: (ChainState, ChainAction))
        ensures
            sends_first_hop(r.0, r.1, identity),
    {
        let request = authenticate_with_xbl(identity.access_token.as_str());
        (ChainState::AwaitingFirstHop { identity }, ChainAction::Send(request))
    }

    /// The session, once authorized.
    pub fn session(&self) -> (r: Option<&ServiceSession>)
        ensures
            match self {
                ChainState::Authorized { session, .. } => r == Some(session),
                _ => r.is_none(),
            },
    {
        match self {
            ChainState::Authorized { session, .. } => Some(session),
            _ => None,
        }
    }

    /// Takes the chain one step.
    pub fn step(self, event: ChainEvent, now: i64) -> (r: (ChainState, ChainAction))
        ensures
            transition(self, event, now, r.0, r.1),
    {
        let terminal = match &self {
            ChainState::Authorized { .. } | ChainState::Failed { .. } | ChainState::Cancelled => true,
            _ => false,
        };
        if matches!(event, ChainEvent::Cancel) && !terminal {
            return (ChainState::Cancelled, ChainAction::Stop);
        }
        let hop = match &self {
            ChainState::AwaitingDeviceCode => Some(Hop::DeviceGrant),
            ChainState::Polling { .. } => Some(Hop::IdentityToken),
            ChainState::AwaitingFirstHop { .. } => Some(Hop::FirstHop),
            ChainState::AwaitingSecondHop { .. } => Some(Hop::SecondHop),
            ChainState::AwaitingServiceToken { .. } => Some(Hop::FinalHop),
            ChainState::AwaitingProfile { .. } => Some(Hop::Profile),
            _ => None,
        };
        if let Some(h) = hop {
            if matches!(event, ChainEvent::NetworkFailure) {
                return (ChainState::Failed { hop: h, error: AuthError::Network }, ChainAction::Stop);
            }
            if matches!(event, ChainEvent::DecodeFailure) {
                return (ChainState::Failed { hop: h, error: AuthError::Decode }, ChainAction::Stop);
            }
        }
        match (self, event) {
            (ChainState::Idle, ChainEvent::Start) => {
                (ChainState::AwaitingDeviceCode, ChainAction::Send(begin_device_flow_request()))
            },
            (ChainState::AwaitingDeviceCode, ChainEvent::DeviceCode(resp)) => {
                let grant = begin_device_flow(resp, now);
                let request = poll_request(&grant);
                let action = ChainAction::Authorize {
                    user_code: grant.user_code.clone(),
                    verification_uri: grant.verification_uri.clone(),
                    request,
                };
                (ChainState::Polling { grant }, action)
            },
            (ChainState::Polling { grant }, ChainEvent::TokenAnswer(resp)) => {
                let outcome = classify_poll(resp, now);
                match poll_decision(&grant, outcome, now) {
                    PollStep::Wait(secs) => (ChainState::Sleeping { grant }, ChainAction::Sleep(secs)),
                    PollStep::Done(identity) => ChainState::from_identity(identity),
                    PollStep::Fail(error) => (ChainState::Failed { hop: Hop::IdentityToken, error }, ChainAction::Stop),
                }
            },
            (ChainState::Sleeping { grant }, ChainEvent::Woke) => {
                if now >= grant.expires_at {
                    return (
                        ChainState::Failed { hop: Hop::IdentityToken, error: AuthError::Expired },
                        ChainAction::Stop,
                    );
                }
                let request = poll_request(&grant);
                (ChainState::Polling { grant }, ChainAction::Send(request))
            },
            (ChainState::AwaitingFirstHop { identity }, ChainEvent::FirstHop(resp)) => {
                let first = exchange_first_hop(resp);
                let request = authenticate_with_xsts(first.token.as_str());
                (ChainState::AwaitingSecondHop { identity }, ChainAction::Send(request))
            },
            (ChainState::AwaitingSecondHop { identity }, ChainEvent::SecondHop(resp)) => {
                match exchange_second_hop(resp) {
                    Err(error) => (ChainState::Failed { hop: Hop::SecondHop, error }, ChainAction::Stop),
                    Ok(second) => {
                        let hash = match &second.subject_hash {
                            Some(h) => h.as_str(),
                            None => "",
                        };
                        let request = authenticate_with_minecraft(second.token.as_str(), hash);
                        (ChainState::AwaitingServiceToken { identity }, ChainAction::Send(request))
                    },
                }
            },
            (ChainState::AwaitingServiceToken { identity }, ChainEvent::ServiceToken(resp)) => {
                let account = exchange_final_hop(resp, now);
                let request = profile_request(&account);
                (ChainState::AwaitingProfile { identity, account }, ChainAction::Send(request))
            },
            (ChainState::AwaitingProfile { identity, account }, ChainEvent::Profile(p)) => {
                let session = service_session(account, p);
                (ChainState::Authorized { identity, session }, ChainAction::Stop)
            },
            (state, _) => (state, ChainAction::Ignore),
        }
    }
}

} // verus!

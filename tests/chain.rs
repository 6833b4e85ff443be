use mc_launcher_core::chain::{ChainAction, ChainEvent, ChainState, Hop};
use mc_launcher_core::msa::{
    begin_device_flow, begin_device_flow_request, classify_poll, expiry_time, needs_refresh, poll_decision,
    poll_request, refresh_outcome, refresh_request, AuthError, DeviceCodeResponse,
    DeviceFlowOutcome, IdentityToken, Method, PollStep, TokenResponse,
};
use mc_launcher_core::profile::{
    authenticate_with_minecraft, authenticate_with_xbl, authenticate_with_xsts,
    exchange_final_hop, exchange_second_hop, profile_request, LoginResponse, McAccount,
    UserProfile, XblResponse, XstsResponse,
};

fn device_code() -> DeviceCodeResponse {
    DeviceCodeResponse {
        device_code: "DEV".to_string(),
        user_code: "ABCD-EFGH".to_string(),
        verification_uri: "https://microsoft.com/devicelogin".to_string(),
        expires_in: 900,
        interval: None,
    }
}

fn pending() -> ChainEvent {
    ChainEvent::TokenAnswer(TokenResponse::Error("authorization_pending".to_string()))
}

fn success() -> ChainEvent {
    ChainEvent::TokenAnswer(TokenResponse::Token {
        access_token: "MS".to_string(),
        refresh_token: "R".to_string(),
        expires_in: 3600,
    })
}

/// Drives the chain to the point where it polls, returning the state.
fn polling(now: i64) -> ChainState {
    let (s, a) = ChainState::Idle.step(ChainEvent::Start, now);
    assert!(matches!(a, ChainAction::Send(_)));
    let (s, a) = s.step(ChainEvent::DeviceCode(device_code()), now);
    match a {
        ChainAction::Authorize { user_code, request, .. } => {
            assert_eq!(user_code, "ABCD-EFGH");
            assert!(request.body.contains("device_code=DEV"));
        }
        _ => panic!("expected the user code to be shown"),
    }
    s
}

#[test]
fn two_pending_polls_sleep_twice_then_token() {
    let mut s = polling(1000);
    let mut sleeps = 0;
    let answers = vec![pending(), pending(), success()];
    let mut sent_first_hop = None;
    for answer in answers {
        let (next, action) = s.step(answer, 1000);
        s = next;
        match action {
            ChainAction::Sleep(secs) => {
                assert_eq!(secs, 5);
                sleeps += 1;
                let (next, action) = s.step(ChainEvent::Woke, 1005);
                s = next;
                assert!(matches!(action, ChainAction::Send(_)));
            }
            ChainAction::Send(request) => sent_first_hop = Some(request),
            _ => panic!("unexpected action"),
        }
    }
    assert_eq!(sleeps, 2);
    let request = sent_first_hop.unwrap();
    assert!(request.body.contains("\"RpsTicket\":\"d=MS\""));
    match s {
        ChainState::AwaitingFirstHop { identity } => {
            assert_eq!(identity.access_token, "MS");
            assert_eq!(identity.refresh_token, "R");
            assert_eq!(identity.expires_at, 4600);
        }
        _ => panic!("expected the first hop"),
    }
}

#[test]
fn device_grant_to_final_session() {
    let mut s = polling(0);
    for _ in 0..2 {
        let (next, action) = s.step(pending(), 0);
        assert!(matches!(action, ChainAction::Sleep(5)));
        let (next, _) = next.step(ChainEvent::Woke, 0);
        s = next;
    }
    let (s, _) = s.step(success(), 0);
    let (s, a) = s.step(ChainEvent::FirstHop(XblResponse { token: "T1".to_string() }), 0);
    match a {
        ChainAction::Send(r) => assert!(r.body.contains("\"UserTokens\":[\"T1\"]")),
        _ => panic!("expected the second hop"),
    }
    let (s, a) = s.step(
        ChainEvent::SecondHop(XstsResponse { token: "T2".to_string(), user_hashes: vec!["H1".to_string()] }),
        0,
    );
    match a {
        ChainAction::Send(r) => {
            assert_eq!(r.body, "{\"identityToken\":\"XBL3.0 x=H1;T2\"}");
            assert_eq!(r.url, "https://api.minecraftservices.com/authentication/login_with_xbox");
        }
        _ => panic!("expected the final hop"),
    }
    let (s, a) = s.step(
        ChainEvent::ServiceToken(LoginResponse {
            access_token: "FINAL".to_string(),
            token_type: Some("Bearer".to_string()),
            expires_in: Some(86400),
        }),
        10,
    );
    match a {
        ChainAction::Send(r) => {
            assert_eq!(r.method, Method::Get);
            assert_eq!(r.headers, vec![("Authorization".to_string(), "Bearer FINAL".to_string())]);
        }
        _ => panic!("expected the profile request"),
    }
    let (s, a) = s.step(ChainEvent::Profile(UserProfile { id: "uuid".to_string(), name: "Steve".to_string() }), 10);
    assert!(matches!(a, ChainAction::Stop));
    let session = s.session().unwrap();
    assert_eq!(session.access_token, "FINAL");
    assert_eq!(session.subject_id, "uuid");
    assert_eq!(session.display_name, "Steve");
    assert_eq!(session.expires_at, Some(86410));
}

#[test]
fn denied_poll_fails_the_identity_hop() {
    let s = polling(0);
    let (s, a) = s.step(ChainEvent::TokenAnswer(TokenResponse::Error("expired_token".to_string())), 0);
    assert!(matches!(a, ChainAction::Stop));
    match s {
        ChainState::Failed { hop, error } => {
            assert_eq!(hop, Hop::IdentityToken);
            assert_eq!(error, AuthError::Denied("expired_token".to_string()));
        }
        _ => panic!("expected failure"),
    }
}

#[test]
fn pending_past_expiry_fails() {
    let s = polling(0);
    let (s, a) = s.step(pending(), 900);
    assert!(matches!(a, ChainAction::Stop));
    assert!(matches!(s, ChainState::Failed { hop: Hop::IdentityToken, error: AuthError::Expired }));
}

#[test]
fn waking_past_expiry_fails_without_polling() {
    let s = polling(0);
    let (s, a) = s.step(pending(), 890);
    assert!(matches!(a, ChainAction::Sleep(5)));
    let (s, a) = s.step(ChainEvent::Woke, 900);
    assert!(matches!(a, ChainAction::Stop));
    assert!(matches!(s, ChainState::Failed { hop: Hop::IdentityToken, error: AuthError::Expired }));
}

#[test]
fn waking_before_expiry_polls_again() {
    let s = polling(0);
    let (s, _) = s.step(pending(), 10);
    let (s, a) = s.step(ChainEvent::Woke, 15);
    assert!(matches!(a, ChainAction::Send(_)));
    assert!(matches!(s, ChainState::Polling { .. }));
}

#[test]
fn network_failure_names_the_hop() {
    let (s, _) = ChainState::from_identity(IdentityToken {
        access_token: "MS".to_string(),
        refresh_token: "R".to_string(),
        expires_at: 0,
    });
    let (s, _) = s.step(ChainEvent::FirstHop(XblResponse { token: "T1".to_string() }), 0);
    let (s, a) = s.step(ChainEvent::NetworkFailure, 0);
    assert!(matches!(a, ChainAction::Stop));
    assert!(matches!(s, ChainState::Failed { hop: Hop::SecondHop, error: AuthError::Network }));
}

#[test]
fn empty_claims_fail_the_second_hop() {
    let (s, _) = ChainState::from_identity(IdentityToken {
        access_token: "MS".to_string(),
        refresh_token: "R".to_string(),
        expires_at: 0,
    });
    let (s, _) = s.step(ChainEvent::FirstHop(XblResponse { token: "T1".to_string() }), 0);
    let (s, _) = s.step(ChainEvent::SecondHop(XstsResponse { token: "T2".to_string(), user_hashes: vec![] }), 0);
    assert!(matches!(s, ChainState::Failed { hop: Hop::SecondHop, error: AuthError::MissingClaims }));
    let direct = exchange_second_hop(XstsResponse { token: "T2".to_string(), user_hashes: vec![] });
    assert_eq!(direct.unwrap_err(), AuthError::MissingClaims);
}

#[test]
fn cancel_and_unexpected_events() {
    let s = polling(0);
    let (s, a) = s.step(ChainEvent::Cancel, 0);
    assert!(matches!(a, ChainAction::Stop));
    assert!(matches!(s, ChainState::Cancelled));
    let (s, a) = s.step(ChainEvent::Woke, 0);
    assert!(matches!(a, ChainAction::Ignore));
    assert!(matches!(s, ChainState::Cancelled));
    let (s, a) = ChainState::Idle.step(ChainEvent::DecodeFailure, 0);
    assert!(matches!(a, ChainAction::Ignore));
    assert!(matches!(s, ChainState::Idle));
}

#[test]
fn request_bodies_are_encoded() {
    let r = begin_device_flow_request();
    assert_eq!(r.url, "https://login.microsoftonline.com/consumers/oauth2/v2.0/devicecode");
    assert_eq!(r.body, "client_id=2000ea79-d993-4591-b9c4-e678f82ae1db&scope=XboxLive.signin+offline_access");
    let grant = begin_device_flow(device_code(), 100);
    assert_eq!(grant.poll_interval, 5);
    assert_eq!(grant.expires_at, 1000);
    let p = poll_request(&grant);
    assert_eq!(
        p.body,
        "grant_type=urn%3Aietf%3Aparams%3Aoauth%3Agrant-type%3Adevice_code&client_id=2000ea79-d993-4591-b9c4-e678f82ae1db&device_code=DEV"
    );
    let x = authenticate_with_xbl("a\"b");
    assert_eq!(
        x.body,
        "{\"Properties\":{\"AuthMethod\":\"RPS\",\"SiteName\":\"user.auth.xboxlive.com\",\"RpsTicket\":\"d=a\\\"b\"},\"RelyingParty\":\"http://auth.xboxlive.com\",\"TokenType\":\"JWT\"}"
    );
    let y = authenticate_with_xsts("T1");
    assert_eq!(
        y.body,
        "{\"Properties\":{\"SandboxId\":\"RETAIL\",\"UserTokens\":[\"T1\"]},\"RelyingParty\":\"rp://api.minecraftservices.com/\",\"TokenType\":\"JWT\"}"
    );
    let z = authenticate_with_minecraft("T2", "H1");
    assert_eq!(z.body, "{\"identityToken\":\"XBL3.0 x=H1;T2\"}");
    assert_eq!(z.headers[0], ("Content-Type".to_string(), "application/json".to_string()));
}

#[test]
fn poll_outcomes() {
    assert!(matches!(
        classify_poll(TokenResponse::Error("authorization_pending".to_string()), 0),
        DeviceFlowOutcome::Pending
    ));
    assert!(matches!(
        classify_poll(TokenResponse::Error("slow_down".to_string()), 0),
        DeviceFlowOutcome::Denied(ref c) if c == "slow_down"
    ));
    let grant = begin_device_flow(device_code(), 0);
    assert!(matches!(poll_decision(&grant, DeviceFlowOutcome::Pending, 10), PollStep::Wait(5)));
    assert!(matches!(poll_decision(&grant, DeviceFlowOutcome::Pending, 900), PollStep::Fail(AuthError::Expired)));
}

#[test]
fn refresh_round() {
    let token = IdentityToken { access_token: "A".to_string(), refresh_token: "R1".to_string(), expires_at: 0 };
    let r = refresh_request(&token);
    assert_eq!(r.method, Method::Post);
    assert_eq!(
        r.body,
        "client_id=2000ea79-d993-4591-b9c4-e678f82ae1db&scope=XboxLive.signin+offline_access&refresh_token=R1&grant_type=refresh_token"
    );
    let fresh = refresh_outcome(
        TokenResponse::Token { access_token: "B".to_string(), refresh_token: "R2".to_string(), expires_in: 60 },
        5,
    )
    .unwrap();
    assert_eq!(fresh.refresh_token, "R2");
    assert_eq!(fresh.expires_at, 65);
    let err = refresh_outcome(TokenResponse::Error("invalid_grant".to_string()), 5).unwrap_err();
    assert_eq!(err, AuthError::Denied("invalid_grant".to_string()));
}

#[test]
fn refresh_needed_once_expired() {
    let token = IdentityToken { access_token: "A".to_string(), refresh_token: "R".to_string(), expires_at: 100 };
    assert!(!needs_refresh(&token, 99));
    assert!(needs_refresh(&token, 100));
}

#[test]
fn expiry_saturates() {
    assert_eq!(expiry_time(10, 20), 30);
    assert_eq!(expiry_time(i64::MAX - 1, 5), i64::MAX);
    assert_eq!(expiry_time(i64::MIN + 1, -5), i64::MIN);
}

#[test]
fn final_hop_defaults() {
    let a = exchange_final_hop(
        LoginResponse { access_token: "X".to_string(), token_type: None, expires_in: None },
        0,
    );
    assert_eq!(a.token_type, "Bearer");
    assert_eq!(a.expires_at, None);
    let m = McAccount { access_token: "X".to_string(), token_type: "Bearer".to_string(), expires_at: None };
    let r = profile_request(&m);
    assert_eq!(r.url, "https://api.minecraftservices.com/minecraft/profile");
    assert!(r.body.is_empty());
}

use spotify_banger::oauth::{
    basic_authorization, build_request, exchange_outcome, AccessTokenRequest, AccessTokenResponse, Authorization,
    CodeGrantRequest, CodeGrantResponse, CodeGrantResponseInner, ImplicitGrantRequest,
    ImplicitGrantResponse, MalformedCallback, RejectionReason, SPOTIFY_AUTH_URL, SPOTIFY_SCOPE,
    SPOTIFY_TOKEN_URL,
};
use spotify_banger::token::{OAuthStateStorage, State};

fn pairs(list: &[(&str, &str)]) -> Vec<(String, String)> {
    list.iter().map(|(k, v)| (k.to_string(), v.to_string())).collect()
}

fn token_response(token_type: &str, expires_in: i32) -> AccessTokenResponse {
    AccessTokenResponse {
        access_token: "BQDtoken".to_string(),
        token_type: token_type.to_string(),
        scope: SPOTIFY_SCOPE.to_string(),
        expires_in,
        refresh_token: "AQDrefresh".to_string(),
    }
}

#[test]
fn endpoints() {
    assert_eq!(SPOTIFY_AUTH_URL, "https://accounts.spotify.com/authorize");
    assert_eq!(SPOTIFY_TOKEN_URL, "https://accounts.spotify.com/api/token");
    assert_eq!(SPOTIFY_SCOPE, "user-read-currently-playing");
}

#[test]
fn credential_accessors() {
    let authorization = Authorization::new("tok".to_string(), 1_000);
    assert_eq!(authorization.access_token(), "tok");
    assert_eq!(authorization.expires_at(), 1_000);
    let copy = authorization.clone();
    assert!(copy.same(&authorization));
    assert!(!copy.same(&Authorization::new("tok".to_string(), 1_001)));
    assert!(!copy.same(&Authorization::new("tok2".to_string(), 1_000)));
}

#[test]
fn credential_expires_at_its_instant() {
    let authorization = Authorization::new("tok".to_string(), 1_000);
    assert!(!authorization.is_expired(0));
    assert!(!authorization.is_expired(999));
    assert!(authorization.is_expired(1_000));
    assert!(authorization.is_expired(1_001));
    assert!(authorization.is_expired(u64::MAX));
}

#[test]
fn implicit_request_query() {
    let request = ImplicitGrantRequest {
        client_id: "be6201c1e3154c51b50ffb302e770db5",
        scope: "user-read-currently-playing",
        redirect_uri: "http://127.0.0.1:8080",
        state: "a b+c/d=",
    };
    assert_eq!(
        request.to_query().unwrap(),
        "response_type=token&client_id=be6201c1e3154c51b50ffb302e770db5&scope=user-read-currently-playing&redirect_uri=http%3A%2F%2F127.0.0.1%3A8080&state=a+b%2Bc%2Fd%3D"
    );
    assert_eq!(
        request.authorize_url().unwrap(),
        "https://accounts.spotify.com/authorize?response_type=token&client_id=be6201c1e3154c51b50ffb302e770db5&scope=user-read-currently-playing&redirect_uri=http%3A%2F%2F127.0.0.1%3A8080&state=a+b%2Bc%2Fd%3D"
    );
}

#[test]
fn code_request_query() {
    let state = State { state: [0_u8; 128] };
    let request = CodeGrantRequest {
        client_id: "client",
        scope: SPOTIFY_SCOPE,
        redirect_uri: "http://127.0.0.1:8080/api/auth/spotify/redirect",
        state,
        show_dialog: true,
    };
    let expected = format!(
        "response_type=code&client_id=client&scope=user-read-currently-playing&redirect_uri=http%3A%2F%2F127.0.0.1%3A8080%2Fapi%2Fauth%2Fspotify%2Fredirect&state={}%3D&show_dialog=true",
        "A".repeat(171)
    );
    assert_eq!(request.to_query().unwrap(), expected);
    assert_eq!(
        request.authorize_url().unwrap(),
        format!("https://accounts.spotify.com/authorize?{}", expected)
    );
    let quiet = CodeGrantRequest { show_dialog: false, ..request };
    assert!(quiet.to_query().unwrap().ends_with("&show_dialog=false"));
}

#[test]
fn token_request_form() {
    let request = AccessTokenRequest {
        code: "abc/def".to_string(),
        redirect_uri: "http://127.0.0.1:8080/api/auth/spotify/redirect",
    };
    assert_eq!(
        request.to_form().unwrap(),
        "grant_type=authorization_code&code=abc%2Fdef&redirect_uri=http%3A%2F%2F127.0.0.1%3A8080%2Fapi%2Fauth%2Fspotify%2Fredirect"
    );
}

#[test]
fn basic_header() {
    assert_eq!(basic_authorization("id", "secret"), "Basic aWQ6c2VjcmV0");
    assert_eq!(basic_authorization("", ""), "Basic Og==");
    assert_eq!(basic_authorization("\u{00e9}", "?>"), "Basic w6k6Pz4=");
}

#[test]
fn implicit_callback_is_read() {
    let grant =
        ImplicitGrantResponse::parse("access_token=BQD%2Ftok&token_type=Bearer&state=x+y&expires_in=3600")
            .unwrap();
    assert_eq!(grant.access_token, "BQD/tok");
    assert_eq!(grant.state, "x y");
    assert_eq!(grant.expires_in, 3600);
    let reordered =
        ImplicitGrantResponse::parse("expires_in=1&extra=1&state=s&token_type=Bearer&access_token=t")
            .unwrap();
    assert_eq!(reordered.access_token, "t");
    assert_eq!(reordered.state, "s");
    assert_eq!(reordered.expires_in, 1);
}

#[test]
fn malformed_implicit_callback_is_refused() {
    for fragment in [
        "",
        "token_type=Bearer&state=s&expires_in=1",
        "access_token=t&state=s&expires_in=1",
        "access_token=t&token_type=Bearer&expires_in=1",
        "access_token=t&token_type=Bearer&state=s",
        "access_token=t&token_type=bearer&state=s&expires_in=1",
        "access_token=t&token_type=Basic&state=s&expires_in=1",
        "access_token=t&token_type=Bearer&state=s&expires_in=soon",
        "access_token=t&token_type=Bearer&state=s&expires_in=-1",
        "access_token=t&token_type=Bearer&state=s&expires_in=18446744073709551616",
        "access_token=t&access_token=u&token_type=Bearer&state=s&expires_in=1",
        "access_token=t&token_type=Bearer&state=s&state=s&expires_in=1",
    ] {
        assert_eq!(ImplicitGrantResponse::parse(fragment).err(), Some(MalformedCallback {}));
    }
    assert!(ImplicitGrantResponse::from_pairs(&pairs(&[("access_token", "t")])).is_err());
}

#[test]
fn implicit_grant_becomes_credential() {
    let grant = ImplicitGrantResponse {
        access_token: "tok".to_string(),
        state: "known".to_string(),
        expires_in: 3600,
    };
    let authorization = grant.into_authorization("known", 1_650_000_000_000).unwrap();
    assert_eq!(authorization.access_token(), "tok");
    assert_eq!(authorization.expires_at(), 1_650_003_600_000);
}

#[test]
fn implicit_grant_with_other_state_is_dropped() {
    let grant = ImplicitGrantResponse {
        access_token: "tok".to_string(),
        state: "forged".to_string(),
        expires_in: 3600,
    };
    assert!(grant.into_authorization("known", 0).is_none());
    let grant = ImplicitGrantResponse {
        access_token: "tok".to_string(),
        state: "known".to_string(),
        expires_in: 0,
    };
    assert!(grant.into_authorization("", 0).is_none());
}

#[test]
fn code_callback_is_read() {
    let state = State::random();
    let query = format!("code=abc&state={}", state.to_string().replace('=', "%3D"));
    let grant = CodeGrantResponse::parse(&query).unwrap();
    assert_eq!(grant.state, state);
    assert!(matches!(grant.inner, CodeGrantResponseInner::Success { ref code } if code == "abc"));

    let query = format!("state={}&error=access_denied", state.to_string());
    let grant = CodeGrantResponse::parse(&query).unwrap();
    assert_eq!(grant.state, state);
    assert!(
        matches!(grant.inner, CodeGrantResponseInner::Failure { ref error } if error == "access_denied")
    );

    let query = format!("error=access_denied&code=abc&state={}", state.to_string());
    let grant = CodeGrantResponse::parse(&query).unwrap();
    assert!(matches!(grant.inner, CodeGrantResponseInner::Success { ref code } if code == "abc"));
}

#[test]
fn malformed_code_callback_is_refused() {
    let state = State::random().to_string();
    assert!(CodeGrantResponse::parse("code=abc").is_err());
    assert!(CodeGrantResponse::parse("code=abc&state=AAAA").is_err());
    assert!(CodeGrantResponse::parse("code=abc&state=%21%21").is_err());
    assert!(CodeGrantResponse::parse(&format!("state={}", state)).is_err());
    assert!(CodeGrantResponse::parse(&format!("code=a&state={}&state={}", state, state)).is_err());
    assert!(CodeGrantResponse::parse("").is_err());
}

#[test]
fn state_is_checked_before_anything_else() {
    let mut store = OAuthStateStorage::new();
    let issued = store.create_state().unwrap();
    let never_issued = State { state: [9_u8; 128] };

    let forged = CodeGrantResponse {
        inner: CodeGrantResponseInner::Success { code: "abc".to_string() },
        state: never_issued,
    };
    assert_eq!(forged.into_code(&mut store), Err(RejectionReason::StateMismatch));

    let forged_failure = CodeGrantResponse {
        inner: CodeGrantResponseInner::Failure { error: "access_denied".to_string() },
        state: never_issued,
    };
    assert_eq!(forged_failure.into_code(&mut store), Err(RejectionReason::StateMismatch));
    assert!(store.contains(&issued));
}

#[test]
fn provider_refusal_is_passed_on() {
    let mut store = OAuthStateStorage::new();
    let issued = store.create_state().unwrap();
    let denied = CodeGrantResponse {
        inner: CodeGrantResponseInner::Failure { error: "access_denied".to_string() },
        state: issued,
    };
    assert_eq!(
        denied.into_code(&mut store),
        Err(RejectionReason::ProviderDenied("access_denied".to_string()))
    );
    assert!(!store.contains(&issued));
}

#[test]
fn replayed_callback_is_a_mismatch() {
    let mut store = OAuthStateStorage::new();
    let issued = store.create_state().unwrap();
    let query = format!("code=abc&state={}", issued.to_string());
    let first = CodeGrantResponse::parse(&query).unwrap();
    assert_eq!(first.into_code(&mut store), Ok("abc".to_string()));
    let second = CodeGrantResponse::parse(&query).unwrap();
    assert_eq!(second.into_code(&mut store), Err(RejectionReason::StateMismatch));
    assert_eq!(store.len(), 0);
}

#[test]
fn exchange_yields_credential() {
    let now = 1_650_000_000_000;
    let authorization = exchange_outcome(200, Some(token_response("Bearer", 3600)), now).unwrap();
    assert_eq!(authorization.access_token(), "BQDtoken");
    assert_eq!(authorization.expires_at(), now + 3_600_000);
    let authorization = exchange_outcome(299, Some(token_response("Bearer", 0)), 5).unwrap();
    assert_eq!(authorization.expires_at(), 5);
}

#[test]
fn failed_exchange_is_reported() {
    for status in [0, 100, 199, 300, 301, 401, 500, u16::MAX] {
        assert_eq!(
            exchange_outcome(status, Some(token_response("Bearer", 3600)), 0).err(),
            Some(RejectionReason::ExchangeFailed)
        );
    }
    assert_eq!(exchange_outcome(200, None, 0).err(), Some(RejectionReason::ExchangeFailed));
    assert_eq!(
        exchange_outcome(200, Some(token_response("bearer", 3600)), 0).err(),
        Some(RejectionReason::ExchangeFailed)
    );
    assert_eq!(
        exchange_outcome(200, Some(token_response("Bearer", -1)), 0).err(),
        Some(RejectionReason::ExchangeFailed)
    );
    assert_eq!(
        exchange_outcome(200, Some(token_response("Bearer", 1)), u64::MAX - 999).err(),
        Some(RejectionReason::ExchangeFailed)
    );
    assert!(exchange_outcome(200, Some(token_response("Bearer", 1)), u64::MAX - 1000).is_ok());
}

#[test]
fn request_on_an_empty_store_is_built() {
    let mut store = OAuthStateStorage::new();
    let (url, token) = build_request(
        &mut store,
        SPOTIFY_SCOPE,
        "http://127.0.0.1:8080/api/auth/spotify/redirect",
        "client",
    )
    .expect("a store that holds no token issues one");
    assert_eq!(store.len(), 1);
    assert!(store.contains(&token));
    let expected = CodeGrantRequest {
        client_id: "client",
        scope: SPOTIFY_SCOPE,
        redirect_uri: "http://127.0.0.1:8080/api/auth/spotify/redirect",
        state: token,
        show_dialog: true,
    }
    .authorize_url()
    .unwrap();
    assert_eq!(url, expected);
    assert!(url.starts_with("https://accounts.spotify.com/authorize?response_type=code&client_id=client&"));
    assert!(url.ends_with("&show_dialog=true"));

    let (_, second) = build_request(&mut store, SPOTIFY_SCOPE, "http://localhost", "client").unwrap();
    assert_ne!(token, second);
    assert_eq!(store.len(), 2);
    assert!(store.validate_state(token));
    assert!(store.validate_state(second));
}

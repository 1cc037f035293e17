use spotify_banger::token::{OAuthStateStorage, State, StateParseError};

const ZEROS: &str = "AAAAAAAAAAAAAAAAAAAAAAAAAAAAAAAAAAAAAAAAAAAAAAAAAAAAAAAAAAAAAAAAAAAAAAAAAAAAAAAAAAAAAAAAAAAAAAAAAAAAAAAAAAAAAAAAAAAAAAAAAAAAAAAAAAAAAAAAAAAAAAAAAAAAAAAAAAAAAAAAAAAAAAAAAAA=";

fn token_of(first: u8) -> State {
    let mut state = [0_u8; 128];
    state[0] = first;
    State { state }
}

#[test]
fn issued_token_validates_once() {
    let mut store = OAuthStateStorage::new();
    let token = store.create_state().expect("a fresh store issues a token");
    assert!(store.contains(&token));
    assert!(store.validate_state(token));
    assert!(!store.validate_state(token));
    assert!(!store.validate_state(token));
    assert_eq!(store.len(), 0);
}

#[test]
fn never_issued_token_is_rejected() {
    let mut store = OAuthStateStorage::new();
    assert!(!store.validate_state(token_of(1)));
    let issued = store.create_state().unwrap();
    let mut other = issued;
    other.state[127] ^= 0x01;
    assert!(!store.validate_state(other));
    assert_eq!(store.len(), 1);
    assert!(store.validate_state(issued));
}

#[test]
fn many_issued_tokens_are_distinct() {
    let mut store = OAuthStateStorage::default();
    let mut tokens: Vec<State> = Vec::new();
    for _ in 0..64 {
        tokens.push(store.create_state().unwrap());
    }
    assert_eq!(store.len(), 64);
    for i in 0..tokens.len() {
        for j in 0..i {
            assert_ne!(tokens[i], tokens[j]);
        }
    }
    for token in tokens {
        assert!(store.validate_state(token));
    }
    assert_eq!(store.len(), 0);
}

#[test]
fn colliding_candidate_is_not_issued() {
    let mut store = OAuthStateStorage::new();
    assert!(store.try_issue(token_of(7)));
    assert!(!store.try_issue(token_of(7)));
    assert_eq!(store.len(), 1);
    assert!(store.try_issue(token_of(8)));
    assert_eq!(store.len(), 2);
    assert!(store.validate_state(token_of(7)));
    assert!(!store.contains(&token_of(7)));
    assert!(store.contains(&token_of(8)));
}

#[test]
fn stores_of_two_providers_are_independent() {
    let mut spotify = OAuthStateStorage::new();
    let mut github = OAuthStateStorage::new();
    let token = spotify.create_state().unwrap();
    assert!(!github.validate_state(token));
    assert!(spotify.validate_state(token));
}

#[test]
fn random_tokens_differ() {
    let a = State::random();
    let b = State::random();
    assert_ne!(a, b);
    assert!(a.same(&a));
    assert!(!a.same(&b));
}

#[test]
fn token_text_is_url_safe_base64() {
    assert_eq!(token_of(0).to_string(), ZEROS);
    let mut state = [0_u8; 128];
    state[0] = 0xfb;
    state[1] = 0xff;
    let text = State { state }.to_string();
    assert_eq!(text.len(), 172);
    assert!(text.starts_with("-_8AAAAA"));
}

#[test]
fn token_text_reads_back() {
    assert_eq!(State::from_str(ZEROS), Ok(token_of(0)));
    let token = State::random();
    assert_eq!(State::from_str(&token.to_string()), Ok(token));
    let mut state = [0_u8; 128];
    state[0] = 0xfb;
    state[1] = 0xff;
    let text = format!("-_8{}", &ZEROS[3..]);
    assert_eq!(State::from_str(&text), Ok(State { state }));
}

#[test]
fn bad_token_text_is_refused() {
    assert_eq!(State::from_str("not base64!"), Err(StateParseError::InvalidEncoding));
    assert_eq!(State::from_str("+/8A"), Err(StateParseError::InvalidEncoding));
    assert_eq!(State::from_str("AAAA"), Err(StateParseError::InvalidLength));
    assert_eq!(State::from_str(""), Err(StateParseError::InvalidLength));
    let long = format!("AAAA{}", ZEROS);
    assert_eq!(State::from_str(&long), Err(StateParseError::InvalidLength));
}

#[test]
fn token_from_bytes_wants_128() {
    assert_eq!(State::from_bytes(&vec![0_u8; 128]), Ok(token_of(0)));
    assert_eq!(State::from_bytes(&vec![0_u8; 127]), Err(StateParseError::InvalidLength));
    assert_eq!(State::from_bytes(&vec![0_u8; 129]), Err(StateParseError::InvalidLength));
}

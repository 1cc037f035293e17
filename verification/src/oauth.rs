//! The authorization exchange: the request that sends the user to the
//! provider, the callback that brings the user back, and the credential that
//! a successful exchange yields.

use vstd::prelude::*;
use vstd::string::StringExecFns;
use crate::decimal::{decimal_u64, parse_u64};
use crate::encoding::{
    base64_standard, base64_url_safe, base64_url_safe_decoded, decode_form, encode_form,
    encode_standard, form_decoded, form_encoded, pairs_view,
};
use crate::form::{field, get_field};
use crate::token::{issued, store_holds_no_duplicates, validated, OAuthStateStorage, State};

verus! {

/// The provider's authorization endpoint.
pub const SPOTIFY_AUTH_URL: &'static str = "https://accounts.spotify.com/authorize";

/// The provider's token endpoint.
pub const SPOTIFY_TOKEN_URL: &'static str = "https://accounts.spotify.com/api/token";

/// The scope that this application asks for.
pub const SPOTIFY_SCOPE: &'static str = "user-read-currently-playing";

/// What a credential holds: the access token and the instant, in
/// milliseconds since the Unix epoch, from which it is no longer accepted.
pub ghost struct Credential {
    pub access_token: Seq<char>,
    pub expires_at: u64,
}

/// The instant at which a token obtained at `now` (milliseconds since the Unix
/// epoch) and valid for `expires_in` seconds expires.
pub open spec fn expiry(now: u64, expires_in: int) -> int {
    now + expires_in * 1000
}

/// A credential: an access token and the absolute instant at which it
/// expires. The expiry is an instant, never a duration, so that it keeps its
/// meaning when it is stored and read back later.
#[derive(Debug)]
pub struct Authorization {
    access_token: String,
    expires_at: u64,
}

impl View for Authorization {
    type V = Credential;

    closed spec fn view(&self) -> Credential {
        Credential { access_token: self.access_token@, expires_at: self.expires_at }
    }
}

impl Clone for Authorization {
    fn clone(&self) -> (copy: Authorization)
        ensures
            copy@ == self@,
    {
        Authorization { access_token: self.access_token.clone(), expires_at: self.expires_at }
    }
}

impl Authorization {
    pub fn new(access_token: String, expires_at: u64) -> (authorization: Authorization)
        ensures
            authorization@ == (Credential { access_token: access_token@, expires_at }),
    {
        Authorization { access_token, expires_at }
    }

    pub fn access_token(&self) -> (token: &str)
        ensures
            token@ == self@.access_token,
    {
        self.access_token.as_str()
    }

    pub fn expires_at(&self) -> (instant: u64)
        ensures
            instant == self@.expires_at,
    {
        self.expires_at
    }

    /// Whether the credential has expired at `now`: from the instant of
    /// expiry on, it has.
    pub fn is_expired(&self, now: u64) -> (expired: bool)
        ensures
            expired == (self@.expires_at <= now),
    {
        self.expires_at <= now
    }

    /// Whether two credentials hold the same token and the same expiry.
    pub fn same(&self, other: &Authorization) -> (same: bool)
        ensures
            same == (self@ == other@),
    {
        self.expires_at == other.expires_at && self.access_token.as_str().eq(
            other.access_token.as_str(),
        )
    }
}

/// Why an authorization attempt was turned down.
#[derive(Debug, PartialEq, Eq)]
pub enum RejectionReason {
    /// The state of the callback is not outstanding: it was never issued, or
    /// it has been consumed. The request is taken for forged or replayed.
    StateMismatch,
    /// The provider itself refused, with this reason.
    ProviderDenied(String),
    /// The exchange of the code for a token failed.
    ExchangeFailed,
}

/// A callback that does not have the expected shape: a field is missing or
/// stands twice, or a field with a fixed value holds another.
#[derive(Debug, Clone, Copy, PartialEq, Eq, Structural)]
pub struct MalformedCallback {}

/// The address that sends the user to the provider: the authorization
/// endpoint, a question mark, and the encoded request.
pub open spec fn authorize_url_of(query: Seq<char>) -> Seq<char> {
    SPOTIFY_AUTH_URL@ + "?"@ + query
}

/// The address for an encoded request, if there is one.
fn authorize_url(query: Option<String>) -> (url: Option<String>)
    ensures
        match query {
            Some(q) => url.is_some() && url.unwrap()@ == authorize_url_of(q@),
            None => url.is_none(),
        },
{
    match query {
        None => None,
        Some(q) => {
            let mut url = SPOTIFY_AUTH_URL.to_owned();
            url.append("?");
            url.append(q.as_str());
            Some(url)
        },
    }
}

/// The fields of an implicit-grant request, in the order in which they are
/// sent. The response type is always `token`.
pub open spec fn implicit_request_pairs(
    client_id: Seq<char>,
    scope: Seq<char>,
    redirect_uri: Seq<char>,
    state: Seq<char>,
) -> Seq<(Seq<char>, Seq<char>)> {
    seq![
        ("response_type"@, "token"@),
        ("client_id"@, client_id),
        ("scope"@, scope),
        ("redirect_uri"@, redirect_uri),
        ("state"@, state),
    ]
}

/// A request for an access token that the provider hands to the client
/// directly, in the fragment of the redirect.
#[derive(Debug)]
pub struct ImplicitGrantRequest<'a> {
    pub client_id: &'a str,
    pub scope: &'a str,
    pub redirect_uri: &'a str,
    pub state: &'a str,
}

impl<'a> ImplicitGrantRequest<'a> {
    /// The fields of this request.
    pub open spec fn pairs(&self) -> Seq<(Seq<char>, Seq<char>)> {
        implicit_request_pairs(self.client_id@, self.scope@, self.redirect_uri@, self.state@)
    }

    /// The request as a query string.
    pub fn to_query(&self) -> (query: Option<String>)
        ensures
            match query {
                Some(q) => form_encoded(self.pairs()) == Some(q@),
                None => form_encoded(self.pairs()).is_none(),
            },
    {
        let mut pairs: Vec<(String, String)> = Vec::new();
        pairs.push(("response_type".to_owned(), "token".to_owned()));
        pairs.push(("client_id".to_owned(), self.client_id.to_owned()));
        pairs.push(("scope".to_owned(), self.scope.to_owned()));
        pairs.push(("redirect_uri".to_owned(), self.redirect_uri.to_owned()));
        pairs.push(("state".to_owned(), self.state.to_owned()));
        assert(pairs_view(pairs@) =~= self.pairs());
        encode_form(&pairs)
    }

    /// The address to navigate to: the provider's authorization endpoint with
    /// this request as its query.
    pub fn authorize_url(&self) -> (url: Option<String>)
        ensures
            match form_encoded(self.pairs()) {
                Some(q) => url.is_some() && url.unwrap()@ == authorize_url_of(q),
                None => url.is_none(),
            },
    {
        authorize_url(self.to_query())
    }
}

/// What a well-formed implicit-grant callback says: the access token, the
/// state and the lifetime in seconds. The token type must be there and be
/// `Bearer`; every field must stand exactly once.
pub open spec fn implicit_grant_of(pairs: Seq<(Seq<char>, Seq<char>)>) -> Option<
    (Seq<char>, Seq<char>, u64),
> {
    let access_token = field(pairs, "access_token"@);
    let token_type = field(pairs, "token_type"@);
    let state = field(pairs, "state"@);
    let expires_in = field(pairs, "expires_in"@);
    if access_token.is_some() && token_type == Some("Bearer"@) && state.is_some()
        && expires_in.is_some() && decimal_u64(expires_in.unwrap()).is_some() {
        Some((access_token.unwrap(), state.unwrap(), decimal_u64(expires_in.unwrap()).unwrap()))
    } else {
        None
    }
}

/// The provider's answer to an implicit-grant request.
#[derive(Debug)]
pub struct ImplicitGrantResponse {
    pub access_token: String,
    pub state: String,
    pub expires_in: u64,
}

impl ImplicitGrantResponse {
    /// What this answer says, as [`implicit_grant_of`] gives it.
    pub open spec fn fields(&self) -> (Seq<char>, Seq<char>, u64) {
        (self.access_token@, self.state@, self.expires_in)
    }

    /// Reads the answer from the fields of a callback.
    pub fn from_pairs(pairs: &Vec<(String, String)>) -> (parsed: Result<
        ImplicitGrantResponse,
        MalformedCallback,
    >)
        ensures
            match parsed {
                Ok(grant) => implicit_grant_of(pairs_view(pairs@)) == Some(grant.fields()),
                Err(_) => implicit_grant_of(pairs_view(pairs@)).is_none(),
            },
    {
        let access_token = match get_field(pairs, "access_token") {
            Some(v) => v,
            None => { return Err(MalformedCallback {}); },
        };
        let token_type = match get_field(pairs, "token_type") {
            Some(v) => v,
            None => { return Err(MalformedCallback {}); },
        };
        if !token_type.as_str().eq("Bearer") {
            return Err(MalformedCallback {});
        }
        let state = match get_field(pairs, "state") {
            Some(v) => v,
            None => { return Err(MalformedCallback {}); },
        };
        let expires_in = match get_field(pairs, "expires_in") {
            Some(v) => match parse_u64(v.as_str()) {
                Some(n) => n,
                None => { return Err(MalformedCallback {}); },
            },
            None => { return Err(MalformedCallback {}); },
        };
        Ok(
            ImplicitGrantResponse {
                access_token: access_token.clone(),
                state: state.clone(),
                expires_in,
            },
        )
    }

    /// Reads the answer from the fragment of the redirect, without its `#`.
    pub fn parse(fragment: &str) -> (parsed: Result<ImplicitGrantResponse, MalformedCallback>)
        ensures
            match parsed {
                Ok(grant) => form_decoded(fragment@).is_some() && implicit_grant_of(
                    form_decoded(fragment@).unwrap(),
                ) == Some(grant.fields()),
                Err(_) => form_decoded(fragment@).is_none() || implicit_grant_of(
                    form_decoded(fragment@).unwrap(),
                ).is_none(),
            },
    {
        match decode_form(fragment) {
            Some(pairs) => ImplicitGrantResponse::from_pairs(&pairs),
            None => Err(MalformedCallback {}),
        }
    }

    /// Turns the answer into a credential, if it carries the state that was
    /// issued for the request. The lifetime becomes an absolute instant here
    /// and now: `now` is the current time in milliseconds since the Unix
    /// epoch.
    pub fn into_authorization(self, known_state: &str, now: u64) -> (authorization: Option<
        Authorization,
    >)
        requires
            expiry(now, self.expires_in as int) <= u64::MAX,
        ensures
            match authorization {
                Some(a) => self.state@ == known_state@ && a@ == (Credential {
                    access_token: self.access_token@,
                    expires_at: expiry(now, self.expires_in as int) as u64,
                }),
                None => self.state@ != known_state@,
            },
    {
        if !self.state.as_str().eq(known_state) {
            return None;
        }
        Some(Authorization::new(self.access_token, now + self.expires_in * 1000))
    }
}

/// How a flag is written in a request.
pub open spec fn flag_text(flag: bool) -> Seq<char> {
    if flag {
        "true"@
    } else {
        "false"@
    }
}

/// The fields of an authorization-code request, in the order in which they
/// are sent. The response type is always `code`; the state travels as
/// URL-safe base64.
pub open spec fn code_request_pairs(
    client_id: Seq<char>,
    scope: Seq<char>,
    redirect_uri: Seq<char>,
    state: Seq<u8>,
    show_dialog: bool,
) -> Seq<(Seq<char>, Seq<char>)> {
    seq![
        ("response_type"@, "code"@),
        ("client_id"@, client_id),
        ("scope"@, scope),
        ("redirect_uri"@, redirect_uri),
        ("state"@, base64_url_safe(state)),
        ("show_dialog"@, flag_text(show_dialog)),
    ]
}

/// A request for an authorization code, which the server then exchanges for
/// an access token.
#[derive(Debug)]
pub struct CodeGrantRequest<'s> {
    pub client_id: &'s str,
    pub scope: &'s str,
    pub redirect_uri: &'s str,
    pub state: State,
    pub show_dialog: bool,
}

impl<'s> CodeGrantRequest<'s> {
    /// The fields of this request.
    pub open spec fn pairs(&self) -> Seq<(Seq<char>, Seq<char>)> {
        code_request_pairs(
            self.client_id@,
            self.scope@,
            self.redirect_uri@,
            self.state@,
            self.show_dialog,
        )
    }

    /// The request as a query string.
    pub fn to_query(&self) -> (query: Option<String>)
        ensures
            match query {
                Some(q) => form_encoded(self.pairs()) == Some(q@),
                None => form_encoded(self.pairs()).is_none(),
            },
    {
        let show_dialog = if self.show_dialog {
            "true"
        } else {
            "false"
        };
        let mut pairs: Vec<(String, String)> = Vec::new();
        pairs.push(("response_type".to_owned(), "code".to_owned()));
        pairs.push(("client_id".to_owned(), self.client_id.to_owned()));
        pairs.push(("scope".to_owned(), self.scope.to_owned()));
        pairs.push(("redirect_uri".to_owned(), self.redirect_uri.to_owned()));
        pairs.push(("state".to_owned(), self.state.to_string()));
        pairs.push(("show_dialog".to_owned(), show_dialog.to_owned()));
        assert(pairs_view(pairs@) =~= self.pairs());
        encode_form(&pairs)
    }

    /// The address to redirect the user to: the provider's authorization
    /// endpoint with this request as its query.
    pub fn authorize_url(&self) -> (url: Option<String>)
        ensures
            match form_encoded(self.pairs()) {
                Some(q) => url.is_some() && url.unwrap()@ == authorize_url_of(q),
                None => url.is_none(),
            },
    {
        authorize_url(self.to_query())
    }
}

/// Starts an authorization on the server: issues a state token from `store`
/// and gives the address to redirect the user to, together with the token.
/// The provider is always asked to show its dialog. Nothing is issued where
/// no fresh token could be drawn, which can only be where a token is
/// outstanding, or where the encoder rejects the request that carries the
/// fresh token.
pub fn build_request(
    store: &mut OAuthStateStorage,
    scope: &str,
    redirect_uri: &str,
    client_id: &str,
) -> (request: Option<(String, State)>)
    requires
        old(store).wf(),
    ensures
        final(store).wf(),
        match request {
            Some((url, token)) => {
                let query = form_encoded(
                    code_request_pairs(client_id@, scope@, redirect_uri@, token@, true),
                );
                &&& issued(old(store)@, token@, final(store)@)
                &&& final(store).tokens() == old(store).tokens().push(token@)
                &&& query.is_some()
                &&& url@ == authorize_url_of(query.unwrap())
            },
            None => {
                &&& final(store)@ == old(store)@
                &&& final(store).tokens() == old(store).tokens()
                &&& (old(store).tokens().len() > 0 || exists|token: Seq<u8>|
                    token.len() == 128 && !old(store)@.contains(token) && form_encoded(
                        #[trigger] code_request_pairs(
                            client_id@,
                            scope@,
                            redirect_uri@,
                            token,
                            true,
                        ),
                    ).is_none())
            },
        },
{
    let token = match store.create_state() {
        Some(token) => token,
        None => { return None; },
    };
    let request =
        CodeGrantRequest { client_id, scope, redirect_uri, state: token, show_dialog: true };
    match request.authorize_url() {
        Some(url) => Some((url, token)),
        None => {
            let ghost issued_tokens = store.tokens();
            store.validate_state(token);
            proof {
                store_holds_no_duplicates(old(store));
                let i = choose|i: int|
                    0 <= i < issued_tokens.len() && issued_tokens[i] == token@ && store.tokens()
                        == issued_tokens.remove(i);
                if i < old(store).tokens().len() {
                    assert(old(store).tokens()[i] == token@);
                    assert(old(store).tokens().to_set().contains(token@));
                }
                assert(store.tokens() =~= old(store).tokens());
                assert(form_encoded(
                    code_request_pairs(client_id@, scope@, redirect_uri@, token@, true),
                ).is_none());
            }
            None
        },
    }
}

/// What the provider decided: a code to exchange, or a refusal.
#[derive(Debug)]
pub enum CodeGrantResponseInner {
    Success { code: String },
    Failure { error: String },
}

/// What the provider decided, as plain values.
pub ghost enum CodeGrant {
    Success { code: Seq<char> },
    Failure { error: Seq<char> },
}

impl View for CodeGrantResponseInner {
    type V = CodeGrant;

    open spec fn view(&self) -> CodeGrant {
        match self {
            CodeGrantResponseInner::Success { code } => CodeGrant::Success { code: code@ },
            CodeGrantResponseInner::Failure { error } => CodeGrant::Failure { error: error@ },
        }
    }
}

/// What a well-formed authorization-code callback says: the decision and the
/// state. A callback with a code is a success, whatever else it holds; one
/// without a code and with an error is a failure. The state must stand
/// exactly once and be the transport form of 128 bytes.
pub open spec fn code_grant_of(pairs: Seq<(Seq<char>, Seq<char>)>) -> Option<
    (CodeGrant, Seq<u8>),
> {
    let code = field(pairs, "code"@);
    let error = field(pairs, "error"@);
    let state = field(pairs, "state"@);
    let token = if state.is_some() {
        base64_url_safe_decoded(state.unwrap())
    } else {
        None
    };
    if token.is_some() && token.unwrap().len() == 128 {
        if code.is_some() {
            Some((CodeGrant::Success { code: code.unwrap() }, token.unwrap()))
        } else if error.is_some() {
            Some((CodeGrant::Failure { error: error.unwrap() }, token.unwrap()))
        } else {
            None
        }
    } else {
        None
    }
}

/// The provider's answer to an authorization-code request.
#[derive(Debug)]
pub struct CodeGrantResponse {
    pub inner: CodeGrantResponseInner,
    pub state: State,
}

impl CodeGrantResponse {
    /// What this answer says, as [`code_grant_of`] gives it.
    pub open spec fn fields(&self) -> (CodeGrant, Seq<u8>) {
        (self.inner@, self.state@)
    }

    /// Reads the answer from the fields of a callback.
    pub fn from_pairs(pairs: &Vec<(String, String)>) -> (parsed: Result<
        CodeGrantResponse,
        MalformedCallback,
    >)
        ensures
            match parsed {
                Ok(grant) => code_grant_of(pairs_view(pairs@)) == Some(grant.fields()),
                Err(_) => code_grant_of(pairs_view(pairs@)).is_none(),
            },
    {
        let state = match get_field(pairs, "state") {
            Some(text) => match State::from_str(text.as_str()) {
                Ok(state) => state,
                Err(_) => { return Err(MalformedCallback {}); },
            },
            None => { return Err(MalformedCallback {}); },
        };
        let inner = match get_field(pairs, "code") {
            Some(code) => CodeGrantResponseInner::Success { code: code.clone() },
            None => match get_field(pairs, "error") {
                Some(error) => CodeGrantResponseInner::Failure { error: error.clone() },
                None => { return Err(MalformedCallback {}); },
            },
        };
        Ok(CodeGrantResponse { inner, state })
    }

    /// Reads the answer from the query of the redirect, without its `?`.
    pub fn parse(query: &str) -> (parsed: Result<CodeGrantResponse, MalformedCallback>)
        ensures
            match parsed {
                Ok(grant) => form_decoded(query@).is_some() && code_grant_of(
                    form_decoded(query@).unwrap(),
                ) == Some(grant.fields()),
                Err(_) => form_decoded(query@).is_none() || code_grant_of(
                    form_decoded(query@).unwrap(),
                ).is_none(),
            },
    {
        match decode_form(query) {
            Some(pairs) => CodeGrantResponse::from_pairs(&pairs),
            None => Err(MalformedCallback {}),
        }
    }

    /// Checks the answer against the store and gives the code to exchange.
    /// The state is consumed first, whatever the answer says: a callback whose
    /// state is not outstanding is turned down as a mismatch even where it
    /// reports a failure of the provider. Only then is the provider's refusal
    /// passed on.
    pub fn into_code(self, store: &mut OAuthStateStorage) -> (code: Result<String, RejectionReason>)
        requires
            old(store).wf(),
        ensures
            final(store).wf(),
            validated(old(store)@, self.state@, old(store)@.contains(self.state@), final(store)@),
            !old(store)@.contains(self.state@) ==> code == Err::<String, RejectionReason>(
                RejectionReason::StateMismatch,
            ),
            match code {
                Ok(c) => old(store)@.contains(self.state@) && self.inner@ == (CodeGrant::Success {
                    code: c@,
                }),
                Err(RejectionReason::StateMismatch) => !old(store)@.contains(self.state@),
                Err(RejectionReason::ProviderDenied(e)) => old(store)@.contains(self.state@)
                    && self.inner@ == (CodeGrant::Failure { error: e@ }),
                Err(RejectionReason::ExchangeFailed) => false,
            },
    {
        if !store.validate_state(self.state) {
            return Err(RejectionReason::StateMismatch);
        }
        match self.inner {
            CodeGrantResponseInner::Failure { error } => {
                Err(RejectionReason::ProviderDenied(error))
            },
            CodeGrantResponseInner::Success { code } => Ok(code),
        }
    }
}

/// The fields of a token request, in the order in which they are sent. The
/// grant type is always `authorization_code`.
pub open spec fn token_request_pairs(code: Seq<char>, redirect_uri: Seq<char>) -> Seq<
    (Seq<char>, Seq<char>),
> {
    seq![
        ("grant_type"@, "authorization_code"@),
        ("code"@, code),
        ("redirect_uri"@, redirect_uri),
    ]
}

/// The request that exchanges an authorization code for an access token.
#[derive(Debug)]
pub struct AccessTokenRequest {
    pub code: String,
    pub redirect_uri: &'static str,
}

impl AccessTokenRequest {
    /// The request as the body of a form.
    pub fn to_form(&self) -> (body: Option<String>)
        ensures
            match body {
                Some(b) => form_encoded(token_request_pairs(self.code@, self.redirect_uri@))
                    == Some(b@),
                None => form_encoded(token_request_pairs(self.code@, self.redirect_uri@)).is_none(),
            },
    {
        let mut pairs: Vec<(String, String)> = Vec::new();
        pairs.push(("grant_type".to_owned(), "authorization_code".to_owned()));
        pairs.push(("code".to_owned(), self.code.clone()));
        pairs.push(("redirect_uri".to_owned(), self.redirect_uri.to_owned()));
        assert(pairs_view(pairs@) =~= token_request_pairs(self.code@, self.redirect_uri@));
        encode_form(&pairs)
    }
}

/// The value of the `Authorization` header of a token request: the word
/// `Basic`, a space, and the standard base64 of the client's identifier, a
/// colon and the client's secret.
pub open spec fn basic_authorization_of(client_id: Seq<char>, client_secret: Seq<char>) -> Seq<
    char,
> {
    "Basic "@ + base64_standard(vstd::utf8::encode_utf8(client_id + ":"@ + client_secret))
}

/// The value of the `Authorization` header that identifies this client to
/// the provider's token endpoint.
pub fn basic_authorization(client_id: &str, client_secret: &str) -> (header: String)
    ensures
        header@ == basic_authorization_of(client_id@, client_secret@),
{
    let mut credentials = client_id.to_owned();
    credentials.append(":");
    credentials.append(client_secret);
    let encoded = encode_standard(credentials.as_str().as_bytes());
    let mut header = "Basic ".to_owned();
    header.append(encoded.as_str());
    header
}

/// The provider's answer to a token request.
#[derive(Debug)]
pub struct AccessTokenResponse {
    pub access_token: String,
    pub token_type: String,
    pub scope: String,
    pub expires_in: i32,
    pub refresh_token: String,
}

/// Whether a token request succeeded: the provider answered with a status
/// from 200 to 299 and a body that could be read, the token is a `Bearer`
/// token, and its lifetime gives an instant that can be represented.
pub open spec fn exchange_succeeded(status: u16, body: Option<AccessTokenResponse>, now: u64)
    -> bool {
    &&& 200 <= status < 300
    &&& body.is_some()
    &&& body.unwrap().token_type@ == "Bearer"@
    &&& 0 <= body.unwrap().expires_in
    &&& expiry(now, body.unwrap().expires_in as int) <= u64::MAX
}

/// Decides what a token request has yielded. `status` is the status of the
/// provider's answer, `body` what could be read of it, `now` the current time
/// in milliseconds since the Unix epoch. The lifetime becomes an absolute
/// instant here and now.
pub fn exchange_outcome(status: u16, body: Option<AccessTokenResponse>, now: u64) -> (outcome:
    Result<Authorization, RejectionReason>)
    ensures
        match outcome {
            Ok(a) => exchange_succeeded(status, body, now) && a@ == (Credential {
                access_token: body.unwrap().access_token@,
                expires_at: expiry(now, body.unwrap().expires_in as int) as u64,
            }),
            Err(RejectionReason::ExchangeFailed) => !exchange_succeeded(status, body, now),
            Err(_) => false,
        },
{
    if status < 200 || status >= 300 {
        return Err(RejectionReason::ExchangeFailed);
    }
    let body = match body {
        Some(body) => body,
        None => { return Err(RejectionReason::ExchangeFailed); },
    };
    if !body.token_type.as_str().eq("Bearer") || body.expires_in < 0 {
        return Err(RejectionReason::ExchangeFailed);
    }
    let lifetime: u64 = (body.expires_in as u64) * 1000;
    if now > u64::MAX - lifetime {
        return Err(RejectionReason::ExchangeFailed);
    }
    Ok(Authorization::new(body.access_token, now + lifetime))
}

} // verus!

//! The session of the client: what is known of the user's authorization, the
//! state that is shown for it, and the steps that change it.

use vstd::prelude::*;
use vstd::string::StringExecFns;
use crate::encoding::{base64_standard, encode_standard, form_decoded, form_encoded, random_bytes};
use crate::model::{Me, USER_TYPE};
use crate::oauth::{
    authorize_url_of, expiry, implicit_grant_of, implicit_request_pairs, Authorization, Credential,
    ImplicitGrantRequest, ImplicitGrantResponse,
};

verus! {

/// The key under which the credential is kept in durable storage.
pub const SPOTIFY_STORAGE: &'static str = "spotify_banger_spotify_auth";

/// The key under which the one outstanding state token is kept in durable
/// storage.
pub const SPOTIFY_STATE_STORAGE: &'static str = "spotify_banger_spotify_auth_state";

/// The identifier of this application at the provider.
pub const SPOTIFY_CLIENT_ID: &'static str = "be6201c1e3154c51b50ffb302e770db5";

/// How far the fetch of the profile has come for the current credential.
#[derive(Debug)]
pub enum ProfileFetch {
    /// No fetch has been asked for.
    NotStarted,
    /// A fetch has been asked for and has not come back.
    InFlight,
    /// The provider has answered with the profile.
    Fetched(Me),
    /// The provider has refused the credential.
    Refused,
}

/// Why a callback did not yield a credential.
#[derive(Debug, Clone, Copy, PartialEq, Eq, Structural)]
pub enum CallbackError {
    /// The callback does not have the expected shape, or its lifetime gives no
    /// instant that can be represented.
    MalformedCallback,
    /// The state of the callback is not the one that was issued, or none is
    /// outstanding.
    StateMismatch,
}

/// What the client knows: the credential and the one outstanding state
/// token, both of which are kept in durable storage, and the profile, which
/// is not.
#[derive(Debug)]
pub struct SpotifyClient {
    pub credentials: Option<Authorization>,
    pub known_state: Option<String>,
    pub profile: ProfileFetch,
}

/// The four states that a session can be seen in.
pub ghost enum SessionKind {
    Unauthorized,
    Unknown,
    Valid,
    Invalid,
}

/// The state that follows from a credential, the progress of the fetch and
/// the time. Expiry is looked at before the profile: an expired credential is
/// invalid whatever has been fetched.
pub open spec fn derived(credentials: Option<Credential>, profile: ProfileFetch, now: u64)
    -> SessionKind {
    match credentials {
        None => SessionKind::Unauthorized,
        Some(c) => if c.expires_at <= now {
            SessionKind::Invalid
        } else {
            match profile {
                ProfileFetch::Fetched(_) => SessionKind::Valid,
                ProfileFetch::Refused => SessionKind::Invalid,
                _ => SessionKind::Unknown,
            }
        },
    }
}

/// Whether a fetch of the profile is due: there is a credential, it has not
/// expired, and no fetch has been asked for.
pub open spec fn fetch_due(credentials: Option<Credential>, profile: ProfileFetch, now: u64)
    -> bool {
    credentials.is_some() && credentials.unwrap().expires_at > now
        && profile == ProfileFetch::NotStarted
}

/// What a callback yields for a client that holds `known_state`: the
/// credential, or the reason why there is none. The shape is checked first,
/// then the state, then the lifetime.
pub open spec fn callback_outcome(
    fragment: Seq<char>,
    known_state: Option<Seq<char>>,
    now: u64,
) -> Result<Credential, CallbackError> {
    let grant = if form_decoded(fragment).is_some() {
        implicit_grant_of(form_decoded(fragment).unwrap())
    } else {
        None
    };
    if grant.is_none() {
        Err(CallbackError::MalformedCallback)
    } else if known_state != Some(grant.unwrap().1) {
        Err(CallbackError::StateMismatch)
    } else if expiry(now, grant.unwrap().2 as int) > u64::MAX {
        Err(CallbackError::MalformedCallback)
    } else {
        Ok(
            Credential {
                access_token: grant.unwrap().0,
                expires_at: expiry(now, grant.unwrap().2 as int) as u64,
            },
        )
    }
}

/// The value of the `Authorization` header of a profile request: the word
/// `Bearer`, a space, and the access token.
pub fn bearer_authorization(authorization: &Authorization) -> (header: String)
    ensures
        header@ == "Bearer "@ + authorization@.access_token,
{
    let mut header = "Bearer ".to_owned();
    header.append(authorization.access_token());
    header
}

/// Whether a fetch of the profile succeeded: the provider answered with a
/// status from 200 to 299 and a body that could be read, and the body is the
/// profile of a user.
pub open spec fn profile_fetched(status: u16, body: Option<Me>) -> bool {
    200 <= status < 300 && body.is_some() && body.unwrap().ty@ == USER_TYPE@
}

/// Decides what a fetch of the profile has yielded: the profile where the
/// fetch succeeded, a refusal in every other case.
pub fn profile_outcome(status: u16, body: Option<Me>) -> (outcome: Result<Me, ()>)
    ensures
        outcome == if profile_fetched(status, body) {
            Ok::<Me, ()>(body.unwrap())
        } else {
            Err::<Me, ()>(())
        },
{
    if status < 200 || status >= 300 {
        return Err(());
    }
    match body {
        Some(me) => if me.ty.as_str().eq(USER_TYPE) {
            Ok(me)
        } else {
            Err(())
        },
        None => Err(()),
    }
}

/// A step that a session offers to whoever looks at it. The session itself
/// only names the step; [`SpotifyClient::perform`] takes it.
#[derive(Debug, Clone, Copy, PartialEq, Eq, Structural)]
pub enum SessionRequest {
    /// Send the user to the provider for a new credential.
    Authorize,
    /// Forget the credential.
    Unauthorize,
}

/// The session is not authorized.
#[derive(Debug)]
pub struct Unauthorized {}

/// The session is authorized and the provider has vouched for it.
#[derive(Debug)]
pub struct ValidSession<'state> {
    authorization: &'state Authorization,
    me: &'state Me,
}

/// The session is authorized, but the credential has expired or the provider
/// has refused it.
#[derive(Debug)]
pub struct InvalidSession<'state> {
    authorization: &'state Authorization,
}

#[derive(Debug)]
pub enum SpotifySession<'state> {
    Unknown,
    Valid(ValidSession<'state>),
    Invalid(InvalidSession<'state>),
}

#[derive(Debug)]
pub enum SpotifyState<'state> {
    Unauthorized(Unauthorized),
    Authorized(SpotifySession<'state>),
}

impl Unauthorized {
    pub fn authorize(&self) -> (request: SessionRequest)
        ensures
            request == SessionRequest::Authorize,
    {
        SessionRequest::Authorize
    }
}

impl<'state> ValidSession<'state> {
    pub closed spec fn credential(&self) -> Credential {
        self.authorization@
    }

    pub fn reauthorize(&self) -> (request: SessionRequest)
        ensures
            request == SessionRequest::Authorize,
    {
        SessionRequest::Authorize
    }

    pub fn unauthorize(&self) -> (request: SessionRequest)
        ensures
            request == SessionRequest::Unauthorize,
    {
        SessionRequest::Unauthorize
    }

    pub closed spec fn profile(&self) -> Me {
        *self.me
    }

    pub fn authorization(&self) -> (authorization: &'state Authorization)
        ensures
            authorization@ == self.credential(),
    {
        self.authorization
    }

    pub fn me(&self) -> (me: &'state Me)
        ensures
            *me == self.profile(),
    {
        self.me
    }
}

impl<'state> InvalidSession<'state> {
    pub closed spec fn credential(&self) -> Credential {
        self.authorization@
    }

    pub fn reauthorize(&self) -> (request: SessionRequest)
        ensures
            request == SessionRequest::Authorize,
    {
        SessionRequest::Authorize
    }

    pub fn unauthorize(&self) -> (request: SessionRequest)
        ensures
            request == SessionRequest::Unauthorize,
    {
        SessionRequest::Unauthorize
    }

    pub fn authorization(&self) -> (authorization: &'state Authorization)
        ensures
            authorization@ == self.credential(),
    {
        self.authorization
    }
}

impl<'state> SpotifyState<'state> {
    /// Which of the four states this is.
    pub open spec fn kind(&self) -> SessionKind {
        match self {
            SpotifyState::Unauthorized(_) => SessionKind::Unauthorized,
            SpotifyState::Authorized(SpotifySession::Unknown) => SessionKind::Unknown,
            SpotifyState::Authorized(SpotifySession::Valid(_)) => SessionKind::Valid,
            SpotifyState::Authorized(SpotifySession::Invalid(_)) => SessionKind::Invalid,
        }
    }
}

impl SpotifyClient {
    /// The credential as plain values.
    pub open spec fn credential(&self) -> Option<Credential> {
        match self.credentials {
            Some(a) => Some(a@),
            None => None,
        }
    }

    /// The outstanding state token as plain text.
    pub open spec fn state_text(&self) -> Option<Seq<char>> {
        match self.known_state {
            Some(s) => Some(s@),
            None => None,
        }
    }

    /// The state that this client is in at `now`.
    pub open spec fn kind(&self, now: u64) -> SessionKind {
        derived(self.credential(), self.profile, now)
    }

    /// A client as it is built from durable storage: with what was stored of
    /// the credential and of the state token, and with no profile.
    pub fn new(credentials: Option<Authorization>, known_state: Option<String>) -> (client:
        SpotifyClient)
        ensures
            client.credentials == credentials,
            client.known_state == known_state,
            client.profile == ProfileFetch::NotStarted,
    {
        SpotifyClient { credentials, known_state, profile: ProfileFetch::NotStarted }
    }

    /// The state of the session at `now`, in milliseconds since the Unix
    /// epoch. Nothing changes: the state is derived anew at every look.
    pub fn state(&self, now: u64) -> (state: SpotifyState<'_>)
        ensures
            state.kind() == self.kind(now),
            match state {
                SpotifyState::Authorized(SpotifySession::Valid(session)) => Some(
                    session.credential(),
                ) == self.credential() && self.profile == ProfileFetch::Fetched(
                    session.profile(),
                ),
                SpotifyState::Authorized(SpotifySession::Invalid(session)) => Some(
                    session.credential(),
                ) == self.credential(),
                _ => true,
            },
    {
        match &self.credentials {
            None => SpotifyState::Unauthorized(Unauthorized {}),
            Some(authorization) => {
                if authorization.is_expired(now) {
                    return SpotifyState::Authorized(
                        SpotifySession::Invalid(InvalidSession { authorization }),
                    );
                }
                SpotifyState::Authorized(
                    match &self.profile {
                        ProfileFetch::Fetched(me) => SpotifySession::Valid(
                            ValidSession { authorization, me },
                        ),
                        ProfileFetch::Refused => SpotifySession::Invalid(
                            InvalidSession { authorization },
                        ),
                        _ => SpotifySession::Unknown,
                    },
                )
            },
        }
    }

    /// Asks for the fetch of the profile where one is due at `now`, and marks
    /// it as under way, so that it is asked for once. The caller fetches the
    /// profile with the credential that is returned, and reports the answer
    /// to [`SpotifyClient::fetch_resolved`] together with that credential.
    pub fn begin_fetch(&mut self, now: u64) -> (request: Option<Authorization>)
        ensures
            final(self).credentials == old(self).credentials,
            final(self).known_state == old(self).known_state,
            match request {
                Some(tag) => fetch_due(old(self).credential(), old(self).profile, now) && Some(tag@)
                    == old(self).credential() && final(self).profile == ProfileFetch::InFlight,
                None => !fetch_due(old(self).credential(), old(self).profile, now)
                    && final(self).profile == old(self).profile,
            },
    {
        let due = match (&self.credentials, &self.profile) {
            (Some(authorization), ProfileFetch::NotStarted) => if authorization.is_expired(now) {
                None
            } else {
                Some(authorization.clone())
            },
            _ => None,
        };
        if due.is_some() {
            self.profile = ProfileFetch::InFlight;
        }
        due
    }

    /// Whether the answer to a fetch that was made with `tag` still counts:
    /// a fetch is under way, and the credential is still the one it was made
    /// with.
    pub open spec fn accepts(&self, tag: Credential) -> bool {
        self.credential() == Some(tag) && self.profile == ProfileFetch::InFlight
    }

    /// Takes the answer to a fetch of the profile that was made with the
    /// credential `tag`. An answer that belongs to a credential that has been
    /// replaced or cleared since is dropped, and changes nothing.
    pub fn fetch_resolved(&mut self, tag: &Authorization, outcome: Result<Me, ()>) -> (accepted:
        bool)
        ensures
            accepted == old(self).accepts(tag@),
            final(self).credentials == old(self).credentials,
            final(self).known_state == old(self).known_state,
            final(self).profile == if accepted {
                match outcome {
                    Ok(me) => ProfileFetch::Fetched(me),
                    Err(_) => ProfileFetch::Refused,
                }
            } else {
                old(self).profile
            },
    {
        let accepted = match (&self.credentials, &self.profile) {
            (Some(authorization), ProfileFetch::InFlight) => authorization.same(tag),
            _ => false,
        };
        if accepted {
            self.profile = match outcome {
                Ok(me) => ProfileFetch::Fetched(me),
                Err(_) => ProfileFetch::Refused,
            };
        }
        accepted
    }

    /// Clears the credential and the profile: the session is unauthorized
    /// from the next look on.
    pub fn unauthorize(&mut self)
        ensures
            final(self).credentials.is_none(),
            final(self).profile == ProfileFetch::NotStarted,
            final(self).known_state == old(self).known_state,
    {
        self.credentials = None;
        self.profile = ProfileFetch::NotStarted;
    }

    /// Consumes the outstanding state token: answers whether `state` is that
    /// token, and forgets the token whatever the answer, so that no state is
    /// accepted twice.
    pub fn validate_state(&mut self, state: &str) -> (accepted: bool)
        ensures
            accepted == (old(self).state_text() == Some(state@)),
            final(self).known_state.is_none(),
            final(self).credentials == old(self).credentials,
            final(self).profile == old(self).profile,
    {
        match self.known_state.take() {
            Some(known_state) => known_state.as_str().eq(state),
            None => false,
        }
    }

    /// Handles the callback from the provider: `fragment` is the fragment of
    /// the redirect without its `#`, `now` the current time in milliseconds
    /// since the Unix epoch. The outstanding state token is consumed whatever
    /// the outcome. On success the new credential replaces the old one and
    /// the profile is dropped, so that it is fetched anew; on failure the
    /// credential and the profile stay as they were.
    pub fn complete_callback(&mut self, fragment: &str, now: u64) -> (outcome: Result<
        (),
        CallbackError,
    >)
        ensures
            final(self).known_state.is_none(),
            match callback_outcome(fragment@, old(self).state_text(), now) {
                Ok(credential) => {
                    &&& outcome.is_ok()
                    &&& final(self).credential() == Some(credential)
                    &&& final(self).profile == ProfileFetch::NotStarted
                },
                Err(reason) => {
                    &&& outcome == Err::<(), CallbackError>(reason)
                    &&& final(self).credentials == old(self).credentials
                    &&& final(self).profile == old(self).profile
                },
            },
    {
        let grant = match ImplicitGrantResponse::parse(fragment) {
            Ok(grant) => grant,
            Err(_) => {
                self.known_state = None;
                return Err(CallbackError::MalformedCallback);
            },
        };
        if !self.validate_state(grant.state.as_str()) {
            return Err(CallbackError::StateMismatch);
        }
        if grant.expires_in > (u64::MAX - now) / 1000 {
            return Err(CallbackError::MalformedCallback);
        }
        self.credentials = Some(
            Authorization::new(grant.access_token, now + grant.expires_in * 1000),
        );
        self.profile = ProfileFetch::NotStarted;
        Ok(())
    }

    /// Starts an authorization with the state token `state`: the token is
    /// kept as the one outstanding token, in place of any earlier one, and
    /// the address to navigate to is returned.
    pub fn authorize_with(
        &mut self,
        state: String,
        client_id: &str,
        scope: &str,
        redirect_uri: &str,
    ) -> (url: Option<String>)
        ensures
            final(self).known_state == Some(state),
            final(self).credentials == old(self).credentials,
            final(self).profile == old(self).profile,
            match form_encoded(
                implicit_request_pairs(client_id@, scope@, redirect_uri@, state@),
            ) {
                Some(q) => url.is_some() && url.unwrap()@ == authorize_url_of(q),
                None => url.is_none(),
            },
    {
        let request =
            ImplicitGrantRequest { client_id, scope, redirect_uri, state: state.as_str() };
        let url = request.authorize_url();
        self.known_state = Some(state);
        url
    }

    /// Starts an authorization with a fresh state token: 128 random bytes in
    /// standard base64. This is the one way to authorize and to authorize
    /// again: a full round trip through the provider, nothing is refreshed in
    /// silence.
    pub fn authorize(&mut self, client_id: &str, scope: &str, redirect_uri: &str) -> (url: Option<
        String,
    >)
        ensures
            final(self).known_state.is_some(),
            exists|bytes: Seq<u8>|
                bytes.len() == 128 && final(self).state_text() == Some(
                    #[trigger] base64_standard(bytes),
                ),
            final(self).credentials == old(self).credentials,
            final(self).profile == old(self).profile,
            match form_encoded(
                implicit_request_pairs(
                    client_id@,
                    scope@,
                    redirect_uri@,
                    final(self).state_text().unwrap(),
                ),
            ) {
                Some(q) => url.is_some() && url.unwrap()@ == authorize_url_of(q),
                None => url.is_none(),
            },
    {
        let bytes = random_bytes();
        let state = encode_standard(bytes.as_slice());
        self.authorize_with(state, client_id, scope, redirect_uri)
    }

    /// Takes a step that a session has offered. To authorize is to start an
    /// authorization as [`SpotifyClient::authorize`] does, and gives the
    /// address to navigate to; to unauthorize is to clear the credential as
    /// [`SpotifyClient::unauthorize`] does, and gives no address.
    pub fn perform(
        &mut self,
        request: SessionRequest,
        client_id: &str,
        scope: &str,
        redirect_uri: &str,
    ) -> (url: Option<String>)
        ensures
            match request {
                SessionRequest::Authorize => {
                    &&& final(self).known_state.is_some()
                    &&& exists|bytes: Seq<u8>|
                        bytes.len() == 128 && final(self).state_text() == Some(
                            #[trigger] base64_standard(bytes),
                        )
                    &&& final(self).credentials == old(self).credentials
                    &&& final(self).profile == old(self).profile
                    &&& match form_encoded(
                        implicit_request_pairs(
                            client_id@,
                            scope@,
                            redirect_uri@,
                            final(self).state_text().unwrap(),
                        ),
                    ) {
                        Some(q) => url.is_some() && url.unwrap()@ == authorize_url_of(q),
                        None => url.is_none(),
                    }
                },
                SessionRequest::Unauthorize => {
                    &&& url.is_none()
                    &&& final(self).credentials.is_none()
                    &&& final(self).profile == ProfileFetch::NotStarted
                    &&& final(self).known_state == old(self).known_state
                },
            },
    {
        match request {
            SessionRequest::Authorize => self.authorize(client_id, scope, redirect_uri),
            SessionRequest::Unauthorize => {
                self.unauthorize();
                None
            },
        }
    }
}

/// An expired credential makes the session invalid whatever has been
/// fetched, and no fetch of the profile is due for it.
pub proof fn expired_is_invalid(credential: Credential, profile: ProfileFetch, now: u64)
    requires
        credential.expires_at <= now,
    ensures
        derived(Some(credential), profile, now) == SessionKind::Invalid,
        !fetch_due(Some(credential), profile, now),
{
}

/// A fetch is asked for once: while one is under way, or has come back, none
/// is due.
pub proof fn fetch_is_due_once(credentials: Option<Credential>, profile: ProfileFetch, now: u64)
    requires
        profile != ProfileFetch::NotStarted,
    ensures
        !fetch_due(credentials, profile, now),
{
}

/// The answer to a fetch that was made with a credential other than the
/// current one is not accepted, and neither is any answer that arrives when
/// no fetch is under way, as after a callback has brought a new credential
/// or after the credential was cleared: the state stays what the current
/// credential makes it.
pub proof fn stale_answer_is_dropped(client: SpotifyClient, tag: Credential)
    requires
        client.credential() != Some(tag) || client.profile != ProfileFetch::InFlight,
    ensures
        !client.accepts(tag),
{
}

/// A callback whose state is not the outstanding one is turned down as a
/// mismatch, however well-formed it is otherwise.
pub proof fn unknown_state_is_mismatch(
    fragment: Seq<char>,
    known_state: Option<Seq<char>>,
    now: u64,
)
    requires
        form_decoded(fragment).is_some(),
        implicit_grant_of(form_decoded(fragment).unwrap()).is_some(),
        known_state != Some(implicit_grant_of(form_decoded(fragment).unwrap()).unwrap().1),
    ensures
        callback_outcome(fragment, known_state, now) == Err::<Credential, CallbackError>(
            CallbackError::StateMismatch,
        ),
{
}

/// Once the state token has been consumed, no callback yields a credential:
/// a second callback with the same state is turned down.
pub proof fn consumed_state_yields_nothing(fragment: Seq<char>, now: u64)
    ensures
        callback_outcome(fragment, None, now).is_err(),
{
}

/// Without a credential the session is unauthorized, whatever the fetch of
/// the profile had come to.
pub proof fn cleared_is_unauthorized(profile: ProfileFetch, now: u64)
    ensures
        derived(None, profile, now) == SessionKind::Unauthorized,
{
}

} // verus!

//! Anti-forgery state tokens and the stores that issue and consume them.

use vstd::prelude::*;
use crate::encoding::{
    base64_url_safe, base64_url_safe_decoded, decode_url_safe, encode_url_safe, random_bytes,
};

verus! {

/// How many random candidates [`OAuthStateStorage::create_state`] draws before
/// it gives up.
pub const MAX_ISSUE_ATTEMPTS: usize = 16;

/// A state token: 128 random bytes that bind an authorization request to its
/// callback. Two tokens are the same token exactly when their bytes agree.
#[derive(Clone, Copy, Debug, PartialEq, Eq, Hash)]
pub struct State {
    pub state: [u8; 128],
}

/// Why a text is not the transport form of a state token.
#[derive(Clone, Copy, Debug, PartialEq, Eq, Structural)]
pub enum StateParseError {
    /// The text is not URL-safe base64.
    InvalidEncoding,
    /// The text decodes to a number of bytes other than 128.
    InvalidLength,
}

impl View for State {
    type V = Seq<u8>;

    open spec fn view(&self) -> Seq<u8> {
        self.state@
    }
}

impl State {
    /// A token of 128 bytes from the thread-local random generator.
    pub fn random() -> (token: State)
        ensures
            token@.len() == 128,
    {
        State { state: random_bytes() }
    }

    /// Whether two tokens hold the same bytes.
    pub fn same(&self, other: &State) -> (same: bool)
        ensures
            same == (self@ == other@),
    {
        let mut i: usize = 0;
        while i < 128
            invariant
                i <= 128,
                forall|j: int| 0 <= j < i ==> self.state@[j] == other.state@[j],
            decreases 128 - i,
        {
            if self.state[i] != other.state[i] {
                return false;
            }
            i += 1;
        }
        assert(self@ =~= other@);
        true
    }

    /// The transport form of the token: its bytes in padded URL-safe base64.
    pub fn to_string(&self) -> (text: String)
        ensures
            text@ == base64_url_safe(self@),
    {
        encode_url_safe(self.state.as_slice())
    }

    /// Reads a token back from its transport form. The text must decode, as
    /// URL-safe base64, to exactly 128 bytes.
    pub fn from_str(text: &str) -> (parsed: Result<State, StateParseError>)
        ensures
            match parsed {
                Ok(token) => base64_url_safe_decoded(text@) == Some(token@),
                Err(StateParseError::InvalidEncoding) => base64_url_safe_decoded(text@).is_none(),
                Err(StateParseError::InvalidLength) => base64_url_safe_decoded(text@).is_some()
                    && base64_url_safe_decoded(text@).unwrap().len() != 128,
            },
    {
        match decode_url_safe(text) {
            None => Err(StateParseError::InvalidEncoding),
            Some(bytes) => State::from_bytes(&bytes),
        }
    }

    /// The token that holds exactly `bytes`, where there are 128 of them.
    pub fn from_bytes(bytes: &Vec<u8>) -> (parsed: Result<State, StateParseError>)
        ensures
            match parsed {
                Ok(token) => token@ == bytes@,
                Err(e) => e == StateParseError::InvalidLength && bytes@.len() != 128,
            },
    {
        if bytes.len() != 128 {
            return Err(StateParseError::InvalidLength);
        }
        let mut state = [0_u8; 128];
        let mut i: usize = 0;
        while i < 128
            invariant
                i <= 128,
                bytes@.len() == 128,
                forall|j: int| 0 <= j < i ==> state@[j] == bytes@[j],
            decreases 128 - i,
        {
            state[i] = bytes[i];
            i += 1;
        }
        Ok(State { state })
    }
}

/// One step in the life of a store: a token is issued, or a token is
/// presented for validation.
pub ghost enum StoreEvent {
    Issued(Seq<u8>),
    Validated(Seq<u8>),
}

/// The outstanding tokens after one step.
pub open spec fn step(before: Set<Seq<u8>>, event: StoreEvent) -> Set<Seq<u8>> {
    match event {
        StoreEvent::Issued(token) => before.insert(token),
        StoreEvent::Validated(token) => before.remove(token),
    }
}

/// The outstanding tokens of a store that started empty and went through
/// `history`.
pub open spec fn outstanding_after(history: Seq<StoreEvent>) -> Set<Seq<u8>>
    decreases history.len(),
{
    if history.len() == 0 {
        Set::empty()
    } else {
        step(outstanding_after(history.drop_last()), history.last())
    }
}

/// Every token of `history` was issued at a moment at which it was not
/// outstanding, as [`issued`] demands.
pub open spec fn issues_fresh_tokens(history: Seq<StoreEvent>) -> bool {
    forall|k: int|
        0 <= k < history.len() ==> match #[trigger] history[k] {
            StoreEvent::Issued(token) => !outstanding_after(history.take(k)).contains(token),
            StoreEvent::Validated(_) => true,
        }
}

/// What issuing does to the set of outstanding tokens: `token` was not
/// outstanding before, and is the one token that has been added.
pub open spec fn issued(before: Set<Seq<u8>>, token: Seq<u8>, after: Set<Seq<u8>>) -> bool {
    !before.contains(token) && after == step(before, StoreEvent::Issued(token))
}

/// What validating does to the set of outstanding tokens: the answer says
/// whether `token` was outstanding, and afterwards it is not.
pub open spec fn validated(
    before: Set<Seq<u8>>,
    token: Seq<u8>,
    accepted: bool,
    after: Set<Seq<u8>>,
) -> bool {
    accepted == before.contains(token) && after == step(before, StoreEvent::Validated(token))
}

/// The tokens of one identity provider that have been issued and not yet
/// consumed. The store is an owned value: whoever shares it between requests
/// guards it with a lock, so that issuing and validating exclude each other.
pub struct OAuthStateStorage {
    storage: Vec<State>,
}

impl View for OAuthStateStorage {
    type V = Set<Seq<u8>>;

    /// The set of outstanding tokens.
    closed spec fn view(&self) -> Set<Seq<u8>> {
        Set::new(
            |token: Seq<u8>|
                exists|i: int| 0 <= i < self.storage@.len() && self.storage@[i]@ == token,
        )
    }
}

impl OAuthStateStorage {
    /// The invariant of the store: no token is held twice. Every store that
    /// this module hands out satisfies it, and every operation keeps it.
    pub closed spec fn wf(&self) -> bool {
        forall|i: int, j: int|
            0 <= i < j < self.storage@.len() ==> self.storage@[i]@ != self.storage@[j]@
    }

    /// The outstanding tokens, oldest first.
    pub closed spec fn tokens(&self) -> Seq<Seq<u8>> {
        Seq::new(self.storage@.len(), |i: int| self.storage@[i]@)
    }

    /// A store with no outstanding token.
    pub fn new() -> (store: OAuthStateStorage)
        ensures
            store.wf(),
            store@ == Set::<Seq<u8>>::empty(),
            store.tokens() == Seq::<Seq<u8>>::empty(),
    {
        let store = OAuthStateStorage { storage: Vec::new() };
        store
    }

    /// The number of outstanding tokens.
    pub fn len(&self) -> (n: usize)
        ensures
            n == self.tokens().len(),
    {
        self.storage.len()
    }

    /// Where `token` is held, if it is outstanding.
    fn position(&self, token: &State) -> (found: Option<usize>)
        ensures
            match found {
                Some(i) => i < self.storage@.len() && self.storage@[i as int]@ == token@,
                None => forall|i: int| 0 <= i < self.storage@.len() ==> self.storage@[i]@ != token@,
            },
    {
        let mut i: usize = 0;
        while i < self.storage.len()
            invariant
                i <= self.storage@.len(),
                forall|j: int| 0 <= j < i ==> self.storage@[j]@ != token@,
            decreases self.storage@.len() - i,
        {
            if self.storage[i].same(token) {
                return Some(i);
            }
            i += 1;
        }
        None
    }

    /// Whether `token` is outstanding. Nothing changes.
    pub fn contains(&self, token: &State) -> (outstanding: bool)
        ensures
            outstanding == self@.contains(token@),
    {
        self.position(token).is_some()
    }

    /// Makes `candidate` outstanding unless it already is. The answer says
    /// whether it was new; a candidate that collides leaves the store as it
    /// was.
    pub fn try_issue(&mut self, candidate: State) -> (fresh: bool)
        requires
            old(self).wf(),
        ensures
            final(self).wf(),
            fresh == !old(self)@.contains(candidate@),
            fresh ==> issued(old(self)@, candidate@, final(self)@),
            fresh ==> final(self).tokens() == old(self).tokens().push(candidate@),
            !fresh ==> final(self)@ == old(self)@ && final(self).tokens() == old(self).tokens(),
    {
        if self.position(&candidate).is_some() {
            return false;
        }
        self.storage.push(candidate);
        assert(self@ =~= old(self)@.insert(candidate@)) by {
            assert forall|t: Seq<u8>|
                old(self)@.insert(candidate@).contains(t) implies self@.contains(t) by {
                if t == candidate@ {
                    assert(self.storage@[self.storage@.len() - 1]@ == t);
                } else {
                    let i = choose|i: int|
                        0 <= i < old(self).storage@.len() && old(self).storage@[i]@ == t;
                    assert(self.storage@[i]@ == t);
                }
            }
        }
        true
    }

    /// Issues a token: draws 128 random bytes, draws again while the
    /// candidate collides with an outstanding token, and makes the first
    /// fresh candidate outstanding. Gives up, leaving the store as it was,
    /// when [`MAX_ISSUE_ATTEMPTS`] candidates in a row have collided. A draw
    /// can only collide with a token that is outstanding: a store that holds
    /// none issues the first candidate it draws.
    pub fn create_state(&mut self) -> (token: Option<State>)
        requires
            old(self).wf(),
        ensures
            final(self).wf(),
            old(self).tokens().len() == 0 ==> token.is_some(),
            match token {
                Some(t) => {
                    &&& issued(old(self)@, t@, final(self)@)
                    &&& final(self).tokens() == old(self).tokens().push(t@)
                },
                None => final(self)@ == old(self)@ && final(self).tokens() == old(self).tokens(),
            },
    {
        let mut attempt: usize = 0;
        while attempt < MAX_ISSUE_ATTEMPTS
            invariant
                self.wf(),
                self@ == old(self)@,
                self.tokens() == old(self).tokens(),
                attempt <= MAX_ISSUE_ATTEMPTS,
                attempt > 0 ==> self.tokens().len() > 0,
            decreases MAX_ISSUE_ATTEMPTS - attempt,
        {
            let candidate = State::random();
            if self.try_issue(candidate) {
                return Some(candidate);
            }
            attempt += 1;
        }
        None
    }

    /// Consumes `state`: answers whether it was outstanding, and removes it
    /// if so. A token that is not outstanding, for whatever reason, is
    /// answered with `false` and nothing else.
    pub fn validate_state(&mut self, state: State) -> (accepted: bool)
        requires
            old(self).wf(),
        ensures
            final(self).wf(),
            validated(old(self)@, state@, accepted, final(self)@),
            !accepted ==> final(self).tokens() == old(self).tokens(),
            accepted ==> exists|i: int|
                0 <= i < old(self).tokens().len() && old(self).tokens()[i] == state@
                    && final(self).tokens() == old(self).tokens().remove(i),
    {
        match self.position(&state) {
            None => {
                assert(self@ =~= old(self)@.remove(state@));
                false
            },
            Some(i) => {
                self.storage.remove(i);
                assert(self.tokens() =~= old(self).tokens().remove(i as int));
                assert(self@ =~= old(self)@.remove(state@)) by {
                    assert forall|t: Seq<u8>|
                        old(self)@.remove(state@).contains(t) implies self@.contains(t) by {
                        let k = choose|k: int|
                            0 <= k < old(self).storage@.len() && old(self).storage@[k]@ == t;
                        if k < i {
                            assert(self.storage@[k]@ == t);
                        } else {
                            assert(self.storage@[k - 1]@ == t);
                        }
                    }
                }
                true
            },
        }
    }
}

impl Default for OAuthStateStorage {
    fn default() -> (store: OAuthStateStorage)
        ensures
            store.wf(),
            store@ == Set::<Seq<u8>>::empty(),
            store.tokens() == Seq::<Seq<u8>>::empty(),
    {
        OAuthStateStorage::new()
    }
}

/// A store never holds a token twice: in the list of outstanding tokens no
/// value stands at two places, and the list holds exactly the outstanding
/// tokens.
pub proof fn store_holds_no_duplicates(store: &OAuthStateStorage)
    requires
        store.wf(),
    ensures
        store.tokens().no_duplicates(),
        store.tokens().to_set() == store@,
        store@.finite(),
        store@.len() == store.tokens().len(),
{
    let tokens = store.tokens();
    assert forall|t: Seq<u8>| tokens.to_set().contains(t) <==> store@.contains(t) by {
        if store@.contains(t) {
            let i = choose|i: int| 0 <= i < store.storage@.len() && store.storage@[i]@ == t;
            assert(tokens[i] == t);
        }
    }
    tokens.unique_seq_to_set();
}

/// A token that was never issued is not outstanding, whatever else the store
/// went through: validating it answers `false`.
pub proof fn never_issued_is_not_outstanding(history: Seq<StoreEvent>, token: Seq<u8>)
    requires
        forall|k: int| 0 <= k < history.len() ==> history[k] != StoreEvent::Issued(token),
    ensures
        !outstanding_after(history).contains(token),
    decreases history.len(),
{
    if history.len() > 0 {
        never_issued_is_not_outstanding(history.drop_last(), token);
    }
}

/// A token that was issued and has not been presented since is outstanding:
/// the first validation of it answers `true`.
pub proof fn issued_is_outstanding(history: Seq<StoreEvent>, k: int, token: Seq<u8>)
    requires
        0 <= k < history.len(),
        history[k] == StoreEvent::Issued(token),
        forall|j: int| k < j < history.len() ==> history[j] != StoreEvent::Validated(token),
    ensures
        outstanding_after(history).contains(token),
    decreases history.len(),
{
    if k < history.len() - 1 {
        issued_is_outstanding(history.drop_last(), k, token);
    }
}

/// A token is good for one validation: once it has been presented it is not
/// outstanding, and stays so unless it is issued again, so that every later
/// validation of it answers `false`.
pub proof fn validated_is_not_outstanding(history: Seq<StoreEvent>, k: int, token: Seq<u8>)
    requires
        0 <= k < history.len(),
        history[k] == StoreEvent::Validated(token),
        forall|j: int| k < j < history.len() ==> history[j] != StoreEvent::Issued(token),
    ensures
        !outstanding_after(history).contains(token),
    decreases history.len(),
{
    if k < history.len() - 1 {
        validated_is_not_outstanding(history.drop_last(), k, token);
    }
}

/// Tokens that are outstanding together are distinct: where a store issues
/// two tokens and the first has not been presented in between, the two
/// differ.
pub proof fn issued_tokens_differ(
    history: Seq<StoreEvent>,
    i: int,
    j: int,
    first: Seq<u8>,
    second: Seq<u8>,
)
    requires
        issues_fresh_tokens(history),
        0 <= i < j < history.len(),
        history[i] == StoreEvent::Issued(first),
        history[j] == StoreEvent::Issued(second),
        forall|k: int| i < k < j ==> history[k] != StoreEvent::Validated(first),
    ensures
        first != second,
{
    issued_is_outstanding(history.take(j), i, first);
}

} // verus!

//! The session store: which tokens are valid, and until when.
//!
//! A session is born when a token is issued and dies when its time is up.
//! There is no way to end one earlier. Tokens are looked up by key, never
//! compared one by one against what a client sent.
//!
//! Times are milliseconds on a clock that does not run backwards.

use vstd::prelude::*;
use vstd::string::*;
use vstd::hash_map::*;
use crate::auth::{unit_result_view, AuthError, AuthErrorView};
use crate::auth::token::{generate_token, is_token};

verus! {

/// Lifetime of a session, in milliseconds: fifteen minutes.
pub const TOKEN_EXPIRY_MS: u64 = 900_000;

/// Whether `token` names a session that is valid at `now`: it is in the
/// store and its time is not up.
pub open spec fn is_valid(sessions: Map<Seq<char>, u64>, token: Seq<char>, now: u64) -> bool {
    sessions.contains_key(token) && sessions[token] > now
}

/// The sessions that are valid at `now`.
pub open spec fn live_sessions(sessions: Map<Seq<char>, u64>, now: u64) -> Map<Seq<char>, u64> {
    Map::new(|token: Seq<char>| is_valid(sessions, token, now), |token: Seq<char>| sessions[token])
}

/// The store after `token` was issued at `now`: what had expired by then
/// is gone, and `token` is valid for one lifetime.
pub open spec fn after_issue(sessions: Map<Seq<char>, u64>, token: Seq<char>, now: u64) -> Map<
    Seq<char>,
    u64,
> {
    live_sessions(sessions, now).insert(token, (now + TOKEN_EXPIRY_MS) as u64)
}

/// What [`SessionStore::validate`] answers.
pub open spec fn validate_spec(sessions: Map<Seq<char>, u64>, token: Seq<char>, now: u64) -> Result<
    (),
    AuthErrorView,
> {
    if is_valid(sessions, token, now) {
        Ok(())
    } else {
        Err(AuthErrorView::InvalidToken)
    }
}

/// A token is valid from the moment it is issued until one lifetime has
/// passed, and not any longer.
pub proof fn law_issued_token_is_valid_for_one_lifetime(
    sessions: Map<Seq<char>, u64>,
    token: Seq<char>,
    issued_at: u64,
    now: u64,
)
    requires
        issued_at + TOKEN_EXPIRY_MS <= u64::MAX,
    ensures
        is_valid(after_issue(sessions, token, issued_at), token, now) <==> now < issued_at
            + TOKEN_EXPIRY_MS,
        validate_spec(after_issue(sessions, token, issued_at), token, now) is Ok <==> now
            - issued_at < TOKEN_EXPIRY_MS,
{
}

/// A token that was never issued and one whose time is up are turned down
/// in the same words.
pub proof fn law_unknown_and_expired_are_alike(
    sessions: Map<Seq<char>, u64>,
    unknown: Seq<char>,
    expired: Seq<char>,
    now: u64,
)
    requires
        !sessions.contains_key(unknown),
        sessions.contains_key(expired),
        sessions[expired] <= now,
    ensures
        validate_spec(sessions, unknown, now) == validate_spec(sessions, expired, now),
        validate_spec(sessions, unknown, now) == Err::<(), AuthErrorView>(
            AuthErrorView::InvalidToken,
        ),
{
}

/// Only issuing brings a token into the store: after an issue the store
/// holds the token issued and, of the others, none that it did not hold
/// before and none with another time of expiry.
pub proof fn law_tokens_come_from_issue(
    sessions: Map<Seq<char>, u64>,
    issued: Seq<char>,
    issued_at: u64,
    other: Seq<char>,
)
    requires
        other != issued,
        after_issue(sessions, issued, issued_at).contains_key(other),
    ensures
        sessions.contains_key(other),
        after_issue(sessions, issued, issued_at)[other] == sessions[other],
{
}

/// Issuing a token takes no session away that is still valid: what was
/// valid at a time stays valid at that time when another token is issued
/// at or before it.
pub proof fn law_issue_keeps_valid_sessions(
    sessions: Map<Seq<char>, u64>,
    token: Seq<char>,
    issued: Seq<char>,
    issued_at: u64,
    now: u64,
)
    requires
        is_valid(sessions, token, now),
        issued_at <= now,
        issued != token,
    ensures
        is_valid(after_issue(sessions, issued, issued_at), token, now),
{
}

/// One issue of a token: which, and when.
pub ghost struct Issue {
    pub token: Seq<char>,
    pub at: u64,
}

/// The store that starts empty and has seen the issues of `history`, in
/// order.
pub open spec fn after_issues(history: Seq<Issue>) -> Map<Seq<char>, u64>
    decreases history.len(),
{
    if history.len() == 0 {
        Map::empty()
    } else {
        after_issue(after_issues(history.drop_last()), history.last().token, history.last().at)
    }
}

/// Whether every issue of `history` lies a lifetime before the end of the
/// clock.
pub open spec fn within_clock(history: Seq<Issue>) -> bool {
    forall|i: int|
        0 <= i < history.len() ==> (#[trigger] history[i]).at + TOKEN_EXPIRY_MS <= u64::MAX
}

/// Whether the times of `history` never go back.
pub open spec fn in_order(history: Seq<Issue>) -> bool {
    forall|i: int, j: int|
        0 <= i <= j < history.len() ==> (#[trigger] history[i]).at <= (#[trigger] history[j]).at
}

/// A token that is valid was issued, and less than one lifetime ago.
pub proof fn law_valid_token_was_issued(history: Seq<Issue>, token: Seq<char>, now: u64)
    requires
        within_clock(history),
        is_valid(after_issues(history), token, now),
    ensures
        exists|i: int|
            0 <= i < history.len() && (#[trigger] history[i]).token == token && now
                < history[i].at + TOKEN_EXPIRY_MS,
    decreases history.len(),
{
    if history.len() > 0 {
        let earlier = history.drop_last();
        let last = history.last();
        if last.token == token {
            assert(history[history.len() - 1].token == token);
        } else {
            assert(is_valid(after_issues(earlier), token, now));
            law_valid_token_was_issued(earlier, token, now);
            let i = choose|i: int|
                0 <= i < earlier.len() && (#[trigger] earlier[i]).token == token && now
                    < earlier[i].at + TOKEN_EXPIRY_MS;
            assert(history[i] == earlier[i]);
        }
    }
}

/// A token that was issued less than one lifetime ago is valid, whatever
/// was issued since, as long as the clock has not gone back.
pub proof fn law_issued_token_is_valid(history: Seq<Issue>, i: int, now: u64)
    requires
        within_clock(history),
        in_order(history),
        0 <= i < history.len(),
        history.last().at <= now,
        now < history[i].at + TOKEN_EXPIRY_MS,
    ensures
        is_valid(after_issues(history), history[i].token, now),
    decreases history.len(),
{
    let earlier = history.drop_last();
    let last = history.last();
    if i < history.len() - 1 {
        assert(earlier[i] == history[i]);
        assert(earlier.last() == history[history.len() - 2]);
        assert forall|a: int, b: int| 0 <= a <= b < earlier.len() implies (#[trigger] earlier[a]).at
            <= (#[trigger] earlier[b]).at by {
            assert(earlier[a] == history[a]);
            assert(earlier[b] == history[b]);
        }
        assert forall|a: int| 0 <= a < earlier.len() implies (#[trigger] earlier[a]).at
            + TOKEN_EXPIRY_MS <= u64::MAX by {
            assert(earlier[a] == history[a]);
        }
        law_issued_token_is_valid(earlier, i, now);
        assert(history[i].at <= last.at);
    }
}

/// Whether `token` stands in `list`.
pub open spec fn listed(list: Seq<String>, token: Seq<char>) -> bool {
    exists|i: int| 0 <= i < list.len() && (#[trigger] list[i])@ == token
}

/// The session store. Its value is the map from each token it holds to the
/// time at which that token expires.
pub struct SessionStore {
    table: StringHashMap<u64>,
    tokens: Vec<String>,
}

impl View for SessionStore {
    type V = Map<Seq<char>, u64>;

    closed spec fn view(&self) -> Map<Seq<char>, u64> {
        self.table@
    }
}

impl SessionStore {
    /// Whether every token of the table is on the list by which expired
    /// sessions are found. It holds of every store that this module hands
    /// out.
    pub closed spec fn wf(&self) -> bool {
        forall|token: Seq<char>| #[trigger]
            self.table@.contains_key(token) ==> listed(self.tokens@, token)
    }

    /// A store without sessions.
    pub fn new() -> (store: SessionStore)
        ensures
            store@ == Map::<Seq<char>, u64>::empty(),
            store.wf(),
    {
        SessionStore { table: StringHashMap::new(), tokens: Vec::new() }
    }

    /// Drops the sessions whose time is up at `now`.
    pub fn sweep(&mut self, now: u64)
        requires
            old(self).wf(),
        ensures
            final(self).wf(),
            final(self)@ == live_sessions(old(self)@, now),
    {
        let mut kept: Vec<String> = Vec::new();
        let ghost before = self.table@;
        let ghost listing = self.tokens@;
        while self.tokens.len() > 0
            invariant
                self.tokens@ == listing.take(self.tokens@.len() as int),
                self.tokens@.len() <= listing.len(),
                listing == old(self).tokens@,
                before == old(self).table@,
                forall|token: Seq<char>| #[trigger]
                    before.contains_key(token) ==> listed(listing, token),
                forall|token: Seq<char>| #[trigger]
                    self.table@.contains_key(token) ==> before.contains_key(token)
                        && self.table@[token] == before[token],
                forall|token: Seq<char>|
                    is_valid(before, token, now) ==> #[trigger] self.table@.contains_key(token),
                forall|j: int|
                    self.tokens@.len() <= j < listing.len() && !is_valid(
                        before,
                        (#[trigger] listing[j])@,
                        now,
                    ) ==> !self.table@.contains_key(listing[j]@),
                forall|j: int|
                    self.tokens@.len() <= j < listing.len() && is_valid(
                        before,
                        (#[trigger] listing[j])@,
                        now,
                    ) ==> listed(kept@, listing[j]@),
            decreases self.tokens.len(),
        {
            let ghost at = self.tokens@.len() - 1;
            let ghost kept_before = kept@;
            let token = self.tokens.pop().unwrap();
            proof {
                assert(token == listing[at]);
            }
            let live = match self.table.get(token.as_str()) {
                Some(expires_at) => *expires_at > now,
                None => false,
            };
            if live {
                kept.push(token);
                proof {
                    assert(kept@[kept_before.len() as int]@ == listing[at]@);
                }
            } else {
                self.table.remove(token.as_str());
            }
            proof {
                assert(self.tokens@ =~= listing.take(at));
                assert forall|j: int|
                    at <= j < listing.len() && is_valid(
                        before,
                        (#[trigger] listing[j])@,
                        now,
                    ) implies listed(kept@, listing[j]@) by {
                    if j > at {
                        let a = choose|a: int|
                            0 <= a < kept_before.len() && (#[trigger] kept_before[a])@
                                == listing[j]@;
                        assert(kept@[a]@ == listing[j]@);
                    }
                }
            }
        }
        self.tokens = kept;
        proof {
            assert forall|token: Seq<char>| #[trigger]
                self.table@.contains_key(token) implies is_valid(before, token, now) by {
                let j = choose|j: int|
                    0 <= j < old(self).tokens@.len() && (#[trigger] old(self).tokens@[j])@
                        == token;
                assert(old(self).tokens@[j]@ == token);
            }
            assert(self.table@ =~= live_sessions(before, now));
            assert forall|token: Seq<char>| #[trigger]
                self.table@.contains_key(token) implies listed(self.tokens@, token) by {
                let j = choose|j: int|
                    0 <= j < old(self).tokens@.len() && (#[trigger] old(self).tokens@[j])@
                        == token;
                assert(old(self).tokens@[j]@ == token);
            }
        }
    }

    /// Takes `token` in as issued at `now`, after dropping what has
    /// expired. A token that is already in the store starts a new lifetime.
    pub fn record(&mut self, token: &str, now: u64)
        requires
            old(self).wf(),
            now + TOKEN_EXPIRY_MS <= u64::MAX,
        ensures
            final(self).wf(),
            final(self)@ == after_issue(old(self)@, token@, now),
    {
        self.sweep(now);
        let ghost swept = self.tokens@;
        self.table.insert(token.to_owned(), now + TOKEN_EXPIRY_MS);
        self.tokens.push(token.to_owned());
        proof {
            assert(self.tokens@[swept.len() as int]@ == token@);
            assert forall|t: Seq<char>| #[trigger]
                self.table@.contains_key(t) implies listed(self.tokens@, t) by {
                if t != token@ {
                    let j = choose|j: int| 0 <= j < swept.len() && (#[trigger] swept[j])@ == t;
                    assert(self.tokens@[j]@ == t);
                }
            }
        }
    }

    /// Issues a token at `now`: a fresh one, valid for one lifetime.
    pub fn issue(&mut self, now: u64) -> (token: String)
        requires
            old(self).wf(),
            now + TOKEN_EXPIRY_MS <= u64::MAX,
        ensures
            final(self).wf(),
            is_token(token@),
            final(self)@ == after_issue(old(self)@, token@, now),
    {
        let token = generate_token();
        self.record(token.as_str(), now);
        token
    }

    /// Whether `token` names a session that is valid at `now`. A token
    /// that was never issued and one whose time is up get the same answer.
    pub fn validate(&self, token: &str, now: u64) -> (r: Result<(), AuthError>)
        ensures
            unit_result_view(r) == validate_spec(self@, token@, now),
    {
        match self.table.get(token) {
            Some(expires_at) => {
                if *expires_at > now {
                    Ok(())
                } else {
                    Err(AuthError::InvalidToken)
                }
            },
            None => Err(AuthError::InvalidToken),
        }
    }
}

} // verus!

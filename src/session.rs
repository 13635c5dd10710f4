//! The session manager's logic: bearer tokens, session records, and the steps
//! that resolve a token back to its owning identity.

use crate::outside::{fresh_uuid, push_char, random_below, unix_now};
use crate::user::{InsertOutcome, User, UserLookup};
use vstd::prelude::*;

verus! {

/// Length of the tokens that `Session::new` issues: 32 symbols of a
/// 62-symbol alphabet, about 190 bits.
pub const SESSION_TOKEN_LENGTH: usize = 32;

/// Number of symbols a token is drawn from.
pub const TOKEN_ALPHABET_SIZE: usize = 62;

/// The token alphabet in order: `A`..`Z`, then `a`..`z`, then `0`..`9`.
pub open spec fn token_symbol(i: int) -> char {
    if i < 26 {
        ((65 + i) as u8) as char
    } else if i < 52 {
        ((97 + (i - 26)) as u8) as char
    } else {
        ((48 + (i - 52)) as u8) as char
    }
}

/// Whether `c` is an ASCII letter or digit, the alphabet of tokens.
pub open spec fn is_token_symbol(c: char) -> bool {
    ||| 'A' <= c <= 'Z'
    ||| 'a' <= c <= 'z'
    ||| '0' <= c <= '9'
}

/// The alphabet has no repeated symbol and holds every letter and digit, so
/// that a uniform index gives a uniform symbol.
pub proof fn lemma_token_alphabet()
    ensures
        forall|i: int| 0 <= i < 62 ==> is_token_symbol(#[trigger] token_symbol(i)),
        forall|i: int, j: int|
            0 <= i < 62 && 0 <= j < 62 && #[trigger] token_symbol(i) == #[trigger] token_symbol(j)
                ==> i == j,
        forall|c: char| is_token_symbol(c) ==> exists|i: int| 0 <= i < 62 && token_symbol(i) == c,
{
    assert forall|c: char| is_token_symbol(c) implies exists|i: int|
        0 <= i < 62 && token_symbol(i) == c by {
        if 'A' <= c <= 'Z' {
            assert(token_symbol(c as int - 65) == c);
        } else if 'a' <= c <= 'z' {
            assert(token_symbol(c as int - 97 + 26) == c);
        } else {
            assert(token_symbol(c as int - 48 + 52) == c);
        }
    }
}

fn symbol_at(idx: usize) -> (c: char)
    requires
        idx < TOKEN_ALPHABET_SIZE,
    ensures
        c == token_symbol(idx as int),
        is_token_symbol(c),
{
    if idx < 26 {
        ((65 + idx) as u8) as char
    } else if idx < 52 {
        ((97 + (idx - 26)) as u8) as char
    } else {
        ((48 + (idx - 52)) as u8) as char
    }
}

/// Outcomes of resolving a token, with the reasons for a refusal kept apart
/// for diagnostics.
#[derive(Debug)]
pub enum TokenUserResult {
    User(User),
    NotFound,
    Expired,
    Disabled,
}

/// Outcomes of resolving a token as callers see them: a disabled and an
/// expired session are both `Unauthorized`.
#[derive(Debug)]
pub enum GetTokenUserResult {
    Success(User),
    NotFound,
    Unauthorized,
    DatabaseError,
}

/// A session record. `valid_to` is in seconds since the Unix epoch; the
/// session stays usable up to and including that second.
#[derive(Debug, Clone)]
pub struct Session {
    pub id: String,
    pub token: String,
    pub user_id: String,
    pub valid_to: i64,
    pub disabled: bool,
}

/// The end of a session's lifetime: `now + lifetime`, held at `i64::MAX`
/// where the sum does not fit.
pub open spec fn session_expiry(now: int, lifetime: int) -> int {
    if now + lifetime <= i64::MAX {
        now + lifetime
    } else {
        i64::MAX as int
    }
}

/// A session may not be used at `now`: it was revoked, or its lifetime has
/// passed.
pub open spec fn session_refused(s: Session, now: int) -> bool {
    s.disabled || now > s.valid_to
}

impl Session {
    /// A token of `length` symbols, each drawn uniformly from the 62 letters
    /// and digits by a generator seeded from the operating system.
    pub fn generate_session_token(length: usize) -> (r: String)
        ensures
            r@.len() == length,
            forall|i: int| 0 <= i < length ==> is_token_symbol(#[trigger] r@[i]),
    {
        let mut token = String::new();
        let mut n: usize = 0;
        while n < length
            invariant
                n <= length,
                token@.len() == n,
                forall|i: int| 0 <= i < n ==> is_token_symbol(#[trigger] token@[i]),
            decreases length - n,
        {
            let c = symbol_at(random_below(TOKEN_ALPHABET_SIZE));
            push_char(&mut token, c);
            n = n + 1;
        }
        token
    }

    /// The session record for `user` with the given identifier and token,
    /// issued at `now`: enabled, and valid for `lifetime` seconds.
    pub fn issue(user: &User, id: String, token: String, now: i64, lifetime: i64) -> (r: Session)
        requires
            lifetime > 0,
        ensures
            r.id == id,
            r.token == token,
            r.user_id@ == user.id@,
            r.valid_to == session_expiry(now as int, lifetime as int),
            !r.disabled,
            !session_refused(r, now as int),
    {
        let valid_to = match now.checked_add(lifetime) {
            Some(t) => t,
            None => i64::MAX,
        };
        Session { id, token, user_id: user.id.clone(), valid_to, disabled: false }
    }

    /// A new session for `user`, valid for `lifetime` seconds from the current
    /// time, with a fresh random identifier and a fresh token of
    /// `SESSION_TOKEN_LENGTH` symbols.
    pub fn new(user: &User, lifetime: i64) -> (r: Session)
        requires
            lifetime > 0,
        ensures
            r.token@.len() == SESSION_TOKEN_LENGTH,
            forall|i: int| 0 <= i < r.token@.len() ==> is_token_symbol(#[trigger] r.token@[i]),
            r.id@.len() == 36,
            r.user_id@ == user.id@,
            !r.disabled,
            exists|now: i64| r.valid_to == session_expiry(now as int, lifetime as int),
    {
        let token = Self::generate_session_token(SESSION_TOKEN_LENGTH);
        let now = unix_now();
        let r = Self::issue(user, fresh_uuid(), token, now, lifetime);
        assert(r.valid_to == session_expiry(now as int, lifetime as int));
        r
    }

    /// Whether the session may be used at `now`.
    pub fn is_usable(&self, now: i64) -> (r: bool)
        ensures
            r == !session_refused(*self, now as int),
    {
        !self.disabled && now <= self.valid_to
    }
}

/// The next thing issuance does after the insert of a new session row.
#[derive(Debug, Clone, Copy, PartialEq, Eq, Structural)]
pub enum IssueStep {
    /// The row is stored; its token may be handed out.
    Issued,
    /// The token collided with a stored one: issue a fresh session and insert
    /// that instead.
    Retry,
    /// The store failed.
    Failed,
}

/// Decides issuance after the insert of a session row: a collision on the
/// token's uniqueness constraint is retried with a new token, never reported.
pub fn after_session_insert(outcome: InsertOutcome) -> (r: IssueStep)
    ensures
        r == (match outcome {
            InsertOutcome::Inserted => IssueStep::Issued,
            InsertOutcome::UniqueViolation => IssueStep::Retry,
            InsertOutcome::Failed => IssueStep::Failed,
        }),
{
    match outcome {
        InsertOutcome::Inserted => IssueStep::Issued,
        InsertOutcome::UniqueViolation => IssueStep::Retry,
        InsertOutcome::Failed => IssueStep::Failed,
    }
}

/// What the store answered when asked for the session holding a token.
#[derive(Debug)]
pub enum SessionLookup {
    Found(Session),
    Absent,
    Failed,
}

/// The next thing a resolution does after the session lookup.
#[derive(Debug)]
pub enum ResolveStep {
    /// Look up the identity with this identifier.
    FetchUser(String),
    Done(GetTokenUserResult),
}

pub open spec fn session_step(lookup: SessionLookup, now: int) -> ResolveStep {
    match lookup {
        SessionLookup::Found(s) => if session_refused(s, now) {
            ResolveStep::Done(GetTokenUserResult::Unauthorized)
        } else {
            ResolveStep::FetchUser(s.user_id)
        },
        SessionLookup::Absent => ResolveStep::Done(GetTokenUserResult::NotFound),
        SessionLookup::Failed => ResolveStep::Done(GetTokenUserResult::DatabaseError),
    }
}

pub open spec fn user_step(lookup: UserLookup) -> GetTokenUserResult {
    match lookup {
        UserLookup::Found(u) => GetTokenUserResult::Success(u),
        UserLookup::Absent => GetTokenUserResult::NotFound,
        UserLookup::Failed => GetTokenUserResult::DatabaseError,
    }
}

/// The whole resolution of a token, given what the store answered for the
/// session and then for the identity it names.
pub open spec fn resolution(session: SessionLookup, user: UserLookup, now: int) -> GetTokenUserResult {
    match session_step(session, now) {
        ResolveStep::FetchUser(_) => user_step(user),
        ResolveStep::Done(r) => r,
    }
}

/// Decides a resolution after the session lookup at time `now`: no session
/// gives `NotFound`; a disabled or expired one gives `Unauthorized`; a usable
/// one goes on to fetch the identity it names.
pub fn after_session_lookup(lookup: SessionLookup, now: i64) -> (r: ResolveStep)
    ensures
        r == session_step(lookup, now as int),
{
    match lookup {
        SessionLookup::Found(s) => if s.is_usable(now) {
            ResolveStep::FetchUser(s.user_id)
        } else {
            ResolveStep::Done(GetTokenUserResult::Unauthorized)
        },
        SessionLookup::Absent => ResolveStep::Done(GetTokenUserResult::NotFound),
        SessionLookup::Failed => ResolveStep::Done(GetTokenUserResult::DatabaseError),
    }
}

/// Ends a resolution after the identity lookup: an identity that no longer
/// exists gives `NotFound`.
pub fn after_user_lookup(lookup: UserLookup) -> (r: GetTokenUserResult)
    ensures
        r == user_step(lookup),
{
    match lookup {
        UserLookup::Found(u) => GetTokenUserResult::Success(u),
        UserLookup::Absent => GetTokenUserResult::NotFound,
        UserLookup::Failed => GetTokenUserResult::DatabaseError,
    }
}

/// A session whose lifetime has passed resolves to `Unauthorized`, whether or
/// not it is disabled and whatever the store says of its identity.
pub proof fn lemma_expired_session_refused(s: Session, user: UserLookup, now: int)
    requires
        now > s.valid_to,
    ensures
        resolution(SessionLookup::Found(s), user, now) == GetTokenUserResult::Unauthorized,
{
}

/// Disabling a session makes every later resolution of it `Unauthorized`.
pub proof fn lemma_disabled_session_refused(s: Session, user: UserLookup, now: int)
    ensures
        resolution(SessionLookup::Found(Session { disabled: true, ..s }), user, now)
            == GetTokenUserResult::Unauthorized,
{
}

/// A usable session whose identity has been deleted resolves to `NotFound`;
/// with its identity present it resolves to that identity.
pub proof fn lemma_dangling_session_not_found(s: Session, u: User, now: int)
    requires
        !session_refused(s, now),
    ensures
        resolution(SessionLookup::Found(s), UserLookup::Absent, now) == GetTokenUserResult::NotFound,
        resolution(SessionLookup::Found(s), UserLookup::Found(u), now)
            == GetTokenUserResult::Success(u),
        session_step(SessionLookup::Found(s), now) == ResolveStep::FetchUser(s.user_id),
{
}

/// A session just issued for a positive lifetime is usable at its issuance
/// time and resolves to the identity the store holds under its `user_id`.
pub proof fn lemma_issued_session_resolves(s: Session, u: User, now: int, lifetime: int)
    requires
        !s.disabled,
        lifetime > 0,
        s.valid_to == session_expiry(now, lifetime),
        now <= i64::MAX,
    ensures
        !session_refused(s, now),
        resolution(SessionLookup::Found(s), UserLookup::Found(u), now)
            == GetTokenUserResult::Success(u),
{
}

} // verus!

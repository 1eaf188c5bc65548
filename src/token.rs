//! Credential store: a per-kind token cache whose refreshes are single-flight.
use vstd::prelude::*;

verus! {

/// Seconds subtracted from a token's expiry: a token closer than this to its
/// expiry is treated as absent.
pub const TOKEN_SAFETY_MARGIN: i64 = 180;

/// The kind of credential an endpoint accepts.
#[derive(Clone, Copy, Debug, PartialEq, Eq, Structural)]
pub enum AccessTokenType {
    NoAuth,
    App,
    Tenant,
    User,
}

/// Why a token could not be had.
#[derive(Clone, Copy, Debug, PartialEq, Eq, Structural)]
pub enum AuthError {
    /// The auth endpoint could not be reached.
    Network,
    /// The auth endpoint answered with a non-zero code.
    Rejected(i64),
    /// The auth endpoint's answer did not have the expected fields.
    Malformed,
    /// A user token needs an authorization code, and none was given.
    MissingCode,
    /// The token fetched expires within the safety margin.
    ExpiresTooSoon,
}

/// One cached credential.
#[derive(Debug)]
pub struct CachedToken {
    pub token: String,
    /// Unix seconds at which the platform stops accepting the token.
    pub expire_at: i64,
}

impl Clone for CachedToken {
    fn clone(&self) -> (r: Self)
        ensures
            r == *self,
    {
        CachedToken { token: self.token.clone(), expire_at: self.expire_at }
    }
}

/// A token may be handed out at `now` only while `now` is more than the safety
/// margin before its expiry.
pub open spec fn usable(t: CachedToken, now: int) -> bool {
    now + TOKEN_SAFETY_MARGIN < t.expire_at
}

/// What a caller of `get_or_refresh` is told to do.
#[derive(Debug)]
pub enum Acquire {
    /// Use this token.
    Cached(String),
    /// Fetch a fresh token, then report it with `finish_refresh` under this
    /// generation.
    Fetch(u64),
    /// Another caller is fetching under this generation: wait, then `collect`.
    Wait(u64),
}

/// The cache state of one token kind.
#[derive(Debug)]
pub struct TokenSlot {
    pub entry: Option<CachedToken>,
    /// Generation of the refresh in flight, if any.
    pub in_flight: Option<u64>,
    /// Generation and outcome of the last refresh that finished.
    pub last: Option<(u64, Result<CachedToken, AuthError>)>,
    /// Generation the next refresh will carry.
    pub next_gen: u64,
}

pub open spec fn bump(g: u64) -> u64 {
    if g < u64::MAX { (g + 1) as u64 } else { 0 }
}

pub open spec fn slot_has_usable(s: TokenSlot, now: int) -> bool {
    s.entry is Some && usable(s.entry->0, now)
}

/// The decision `get_or_refresh` takes on one slot, and the slot after it.
pub open spec fn acquire_step(s: TokenSlot, now: int) -> (TokenSlot, Acquire) {
    if slot_has_usable(s, now) {
        (s, Acquire::Cached(s.entry->0.token))
    } else if s.in_flight is Some {
        (s, Acquire::Wait(s.in_flight->0))
    } else {
        (TokenSlot { in_flight: Some(s.next_gen), next_gen: bump(s.next_gen), ..s }, Acquire::Fetch(s.next_gen))
    }
}

/// The slot after the refresh of generation `g` finished with `outcome`.
pub open spec fn finish_step(s: TokenSlot, g: u64, outcome: Result<CachedToken, AuthError>) -> TokenSlot {
    if s.in_flight == Some(g) {
        TokenSlot {
            entry: match outcome {
                Ok(t) => Some(t),
                Err(_) => s.entry,
            },
            in_flight: None,
            last: Some((g, outcome)),
            next_gen: s.next_gen,
        }
    } else {
        s
    }
}

/// What a waiter on generation `g` learns from the slot.
pub open spec fn collect_of(s: TokenSlot, g: u64) -> Option<Result<CachedToken, AuthError>> {
    match s.last {
        Some(l) => if l.0 == g { Some(l.1) } else { None },
        None => None,
    }
}

impl TokenSlot {
    pub fn empty() -> (r: TokenSlot)
        ensures
            r.entry is None,
            r.in_flight is None,
            r.last is None,
            r.next_gen == 0,
    {
        TokenSlot { entry: None, in_flight: None, last: None, next_gen: 0 }
    }

    fn acquire(&mut self, now: i64) -> (r: Acquire)
        ensures
            (*final(self), r) == acquire_step(*old(self), now as int),
    {
        match &self.entry {
            Some(t) => {
                if (now as i128) + (TOKEN_SAFETY_MARGIN as i128) < (t.expire_at as i128) {
                    return Acquire::Cached(t.token.clone());
                }
            },
            None => {},
        }
        match self.in_flight {
            Some(g) => Acquire::Wait(g),
            None => {
                let g = self.next_gen;
                self.in_flight = Some(g);
                self.next_gen = if g < u64::MAX { g + 1 } else { 0 };
                Acquire::Fetch(g)
            },
        }
    }

    fn finish(&mut self, g: u64, outcome: Result<CachedToken, AuthError>) -> (r: Result<CachedToken, AuthError>)
        ensures
            *final(self) == finish_step(*old(self), g, outcome),
            r == outcome,
    {
        if self.in_flight == Some(g) {
            let kept = match &outcome {
                Ok(t) => Result::<CachedToken, AuthError>::Ok(t.clone()),
                Err(e) => Err(*e),
            };
            if let Ok(t) = &outcome {
                self.entry = Some(t.clone());
            }
            self.in_flight = None;
            self.last = Some((g, kept));
        }
        outcome
    }

    fn collect(&self, g: u64) -> (r: Option<Result<CachedToken, AuthError>>)
        ensures
            r == collect_of(*self, g),
    {
        match &self.last {
            Some(l) => if l.0 == g {
                match &l.1 {
                    Ok(t) => Some(Ok(t.clone())),
                    Err(e) => Some(Err(*e)),
                }
            } else {
                None
            },
            None => None,
        }
    }
}

/// The credential store: one slot for each kind that carries a credential.
#[derive(Debug)]
pub struct TokenStore {
    pub app: TokenSlot,
    pub tenant: TokenSlot,
    pub user: TokenSlot,
}

impl TokenStore {
    pub open spec fn slot(self, kind: AccessTokenType) -> TokenSlot
        recommends
            kind != AccessTokenType::NoAuth,
    {
        match kind {
            AccessTokenType::App => self.app,
            AccessTokenType::Tenant => self.tenant,
            _ => self.user,
        }
    }

    /// Every slot but the one of `kind` is the same in `a` and `b`.
    pub open spec fn others_kept(a: TokenStore, b: TokenStore, kind: AccessTokenType) -> bool {
        forall|k: AccessTokenType| k != kind && k != AccessTokenType::NoAuth ==> #[trigger] a.slot(k) == b.slot(k)
    }

    pub fn new() -> (r: TokenStore)
        ensures
            forall|k: AccessTokenType| k != AccessTokenType::NoAuth ==> {
                &&& (#[trigger] r.slot(k)).entry is None
                &&& r.slot(k).in_flight is None
                &&& r.slot(k).last is None
            },
    {
        TokenStore { app: TokenSlot::empty(), tenant: TokenSlot::empty(), user: TokenSlot::empty() }
    }

    /// Decides how a caller obtains a token of `kind` at `now`: the cached token
    /// while it is usable; otherwise the caller joins the refresh in flight, or,
    /// when there is none, becomes the one caller that fetches.
    pub fn get_or_refresh(&mut self, kind: AccessTokenType, now: i64) -> (r: Acquire)
        requires
            kind != AccessTokenType::NoAuth,
        ensures
            (final(self).slot(kind), r) == acquire_step(old(self).slot(kind), now as int),
            TokenStore::others_kept(*old(self), *final(self), kind),
    {
        match kind {
            AccessTokenType::App => self.app.acquire(now),
            AccessTokenType::Tenant => self.tenant.acquire(now),
            _ => self.user.acquire(now),
        }
    }

    /// Records the outcome of the refresh of generation `g`: on success the
    /// token becomes the cache entry; on failure the entry is left as it was.
    /// Every waiter on `g` then collects this same outcome.
    pub fn finish_refresh(
        &mut self,
        kind: AccessTokenType,
        g: u64,
        outcome: Result<CachedToken, AuthError>,
    ) -> (r: Result<CachedToken, AuthError>)
        requires
            kind != AccessTokenType::NoAuth,
        ensures
            final(self).slot(kind) == finish_step(old(self).slot(kind), g, outcome),
            TokenStore::others_kept(*old(self), *final(self), kind),
            r == outcome,
    {
        match kind {
            AccessTokenType::App => self.app.finish(g, outcome),
            AccessTokenType::Tenant => self.tenant.finish(g, outcome),
            _ => self.user.finish(g, outcome),
        }
    }

    /// The outcome of the refresh of generation `g`, once it has finished.
    pub fn collect(&self, kind: AccessTokenType, g: u64) -> (r: Option<Result<CachedToken, AuthError>>)
        requires
            kind != AccessTokenType::NoAuth,
        ensures
            r == collect_of(self.slot(kind), g),
    {
        match kind {
            AccessTokenType::App => self.app.collect(g),
            AccessTokenType::Tenant => self.tenant.collect(g),
            _ => self.user.collect(g),
        }
    }

    /// Drops the cached token of `kind`, so that the next caller fetches.
    pub fn invalidate(&mut self, kind: AccessTokenType)
        requires
            kind != AccessTokenType::NoAuth,
        ensures
            final(self).slot(kind) == (TokenSlot { entry: None, ..old(self).slot(kind) }),
            TokenStore::others_kept(*old(self), *final(self), kind),
    {
        match kind {
            AccessTokenType::App => { self.app.entry = None; },
            AccessTokenType::Tenant => { self.tenant.entry = None; },
            _ => { self.user.entry = None; },
        }
    }
}

/// The slot and the decisions after callers arrive one after another at the
/// instants `nows`.
pub open spec fn acquire_many(s: TokenSlot, nows: Seq<int>) -> (TokenSlot, Seq<Acquire>)
    decreases nows.len(),
{
    if nows.len() == 0 {
        (s, Seq::empty())
    } else {
        let first = acquire_step(s, nows[0]);
        let rest = acquire_many(first.0, nows.drop_first());
        (rest.0, seq![first.1] + rest.1)
    }
}

proof fn lemma_waiters_join(s: TokenSlot, nows: Seq<int>, g: u64)
    requires
        s.in_flight == Some(g),
        forall|i: int| 0 <= i < nows.len() ==> !slot_has_usable(s, #[trigger] nows[i]),
    ensures
        acquire_many(s, nows).0 == s,
        acquire_many(s, nows).1.len() == nows.len(),
        forall|i: int| 0 <= i < nows.len() ==> #[trigger] acquire_many(s, nows).1[i] == Acquire::Wait(g),
    decreases nows.len(),
{
    if nows.len() > 0 {
        let tail = nows.drop_first();
        assert forall|i: int| 0 <= i < tail.len() implies !slot_has_usable(s, #[trigger] tail[i]) by {
            assert(tail[i] == nows[i + 1]);
        }
        lemma_waiters_join(s, tail, g);
        let rs = acquire_many(s, nows).1;
        assert forall|i: int| 0 <= i < nows.len() implies #[trigger] rs[i] == Acquire::Wait(g) by {
            if i > 0 {
                assert(rs[i] == acquire_many(s, tail).1[i - 1]);
            }
        }
    }
}

/// Single flight: when callers of one kind arrive while no usable token is
/// cached and no refresh is in flight, the first is told to fetch and every
/// later one waits on that same refresh; once it finishes, each of them
/// collects the one outcome it had, success or failure.
pub proof fn law_single_flight(
    store: TokenStore,
    kind: AccessTokenType,
    nows: Seq<int>,
    outcome: Result<CachedToken, AuthError>,
)
    requires
        kind != AccessTokenType::NoAuth,
        nows.len() > 0,
        store.slot(kind).in_flight is None,
        forall|i: int| 0 <= i < nows.len() ==> !slot_has_usable(store.slot(kind), #[trigger] nows[i]),
    ensures
        ({
            let g = store.slot(kind).next_gen;
            let (after, rs) = acquire_many(store.slot(kind), nows);
            &&& rs.len() == nows.len()
            &&& rs[0] == Acquire::Fetch(g)
            &&& forall|i: int| 1 <= i < rs.len() ==> #[trigger] rs[i] == Acquire::Wait(g)
            &&& collect_of(finish_step(after, g, outcome), g) == Some(outcome)
        }),
{
    let s = store.slot(kind);
    let g = s.next_gen;
    let s1 = acquire_step(s, nows[0]).0;
    let tail = nows.drop_first();
    assert forall|i: int| 0 <= i < tail.len() implies !slot_has_usable(s1, #[trigger] tail[i]) by {
        assert(tail[i] == nows[i + 1]);
    }
    lemma_waiters_join(s1, tail, g);
    let rs = acquire_many(s, nows).1;
    assert forall|i: int| 1 <= i < rs.len() implies #[trigger] rs[i] == Acquire::Wait(g) by {
        assert(rs[i] == acquire_many(s1, tail).1[i - 1]);
    }
}

/// A cached token whose expiry is not beyond `now` plus the safety margin is
/// never handed out: the caller fetches, or joins the refresh in flight.
pub proof fn law_expired_not_returned(store: TokenStore, kind: AccessTokenType, now: int)
    requires
        kind != AccessTokenType::NoAuth,
        store.slot(kind).entry is Some,
        store.slot(kind).entry->0.expire_at <= now + TOKEN_SAFETY_MARGIN,
    ensures
        !(acquire_step(store.slot(kind), now).1 is Cached),
        store.slot(kind).in_flight is None ==> acquire_step(store.slot(kind), now).1 == Acquire::Fetch(
            store.slot(kind).next_gen,
        ),
{
}

/// Whatever the state, a token handed out is the cached one and is usable.
pub proof fn law_cached_is_usable(store: TokenStore, kind: AccessTokenType, now: int)
    requires
        kind != AccessTokenType::NoAuth,
        acquire_step(store.slot(kind), now).1 is Cached,
    ensures
        slot_has_usable(store.slot(kind), now),
        acquire_step(store.slot(kind), now).1 == Acquire::Cached(store.slot(kind).entry->0.token),
{
}

} // verus!

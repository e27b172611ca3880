//! The cache of issuers' key sets.
//!
//! A key set is cached per issuer and document. At most one fetch is attempted
//! per floor interval, and no cached key is served past the configured age.
//!
//! Instants are nanoseconds on a monotonic clock; lifetimes are whole seconds.

use vstd::hash_map::StringHashMap;
use vstd::prelude::*;
use vstd::string::*;

use crate::config::JwksConfig;
use crate::error::{copy_strings, sig_error, SigError, SigErrorCode, SigErrorView};
use crate::tokens::{Jwk, Jwks};

pub use crate::egress::{EgressPolicy, FetchAction, FetchEvidence, FetchStep, FetchStopView};

verus! {

/// Bound on the issuers that are cached, and on those whose last attempt is
/// remembered. With a fixed list of issuers it is never approached; on overflow
/// everything is forgotten, and a miss only fetches again.
pub const MAX_CACHE_ENTRIES: usize = 4096;

/// Nanoseconds in a second.
pub const SECOND: u128 = 1_000_000_000;

/// A cached key set.
#[derive(Debug)]
pub struct Entry {
    pub jwks: Jwks,
    /// The instant at which it was fetched.
    pub fetched_at: u128,
    /// How long it may be served, in seconds.
    pub ttl_secs: u64,
}

/// What a resolver holds.
pub ghost struct ResolverView {
    pub policy: EgressPolicy,
    /// Least number of seconds between two fetches of one key set.
    pub floor: u64,
    /// Longest age of a served key, in seconds.
    pub max_age: u64,
    pub entries: Map<Seq<char>, Entry>,
    /// The instant of the last attempt to fetch each key set.
    pub attempts: Map<Seq<char>, u128>,
}

/// What is cached under: the issuer and its document.
pub open spec fn cache_key(iss: Seq<char>, dwk: Seq<char>) -> Seq<char> {
    iss + "|"@ + dwk
}

/// The nanoseconds from `then` to `now`; none when the clock stands earlier.
pub open spec fn elapsed(then: u128, now: u128) -> int {
    if then <= now {
        now - then
    } else {
        0
    }
}

/// Whether fewer than `secs` seconds have passed from `then` to `now`.
pub open spec fn within_secs(then: u128, now: u128, secs: u64) -> bool {
    elapsed(then, now) < secs * SECOND
}

fn elapsed_less(then: u128, now: u128, secs: u64) -> (r: bool)
    ensures
        r == within_secs(then, now, secs),
{
    assert(0 <= (secs as u128) * SECOND <= u128::MAX) by (nonlinear_arith)
        requires
            secs <= u64::MAX,
            SECOND == 1_000_000_000,
    ;
    now.saturating_sub(then) < secs as u128 * SECOND
}

/// A map with room for an entry under `key`: emptied when it is full and holds
/// none under that key.
pub open spec fn with_room<V>(m: Map<Seq<char>, V>, key: Seq<char>) -> Map<Seq<char>, V> {
    if m.len() >= MAX_CACHE_ENTRIES && !m.contains_key(key) {
        Map::empty()
    } else {
        m
    }
}

impl ResolverView {
    /// Whether the bounds hold: on the maps, and on the age of what is served.
    pub open spec fn valid(self) -> bool {
        &&& self.entries.dom().finite()
        &&& self.attempts.dom().finite()
        &&& self.entries.len() <= MAX_CACHE_ENTRIES
        &&& self.attempts.len() <= MAX_CACHE_ENTRIES
        &&& forall|k: Seq<char>| #[trigger]
            self.entries.contains_key(k) ==> self.entries[k].ttl_secs <= self.max_age
    }

    /// Whether a key set is cached and may be served.
    pub open spec fn fresh(self, key: Seq<char>, now: u128) -> bool {
        self.entries.contains_key(key) && within_secs(
            self.entries[key].fetched_at,
            now,
            self.entries[key].ttl_secs,
        )
    }

    /// The cached key, while it may be served.
    pub open spec fn cached(self, key: Seq<char>, kid: Seq<char>, now: u128) -> Option<Jwk> {
        if self.fresh(key, now) {
            self.entries[key].jwks.lookup(kid)
        } else {
            None
        }
    }

    /// Whether the last attempt to fetch is too recent for another one.
    pub open spec fn floor_active(self, key: Seq<char>, now: u128) -> bool {
        self.attempts.contains_key(key) && within_secs(
            self.attempts[key],
            now,
            self.floor,
        )
    }

    /// The resolver after an attempt to fetch.
    pub open spec fn attempted(self, key: Seq<char>, now: u128) -> ResolverView {
        ResolverView { attempts: with_room(self.attempts, key).insert(key, now), ..self }
    }

    /// How long a fetched key set may be served: as long as its response says,
    /// but no shorter than the floor and no longer than the greatest age.
    pub open spec fn lifetime(self, response_ttl: Option<u64>) -> u64 {
        match response_ttl {
            Some(t) => if t < self.floor {
                self.floor
            } else if t > self.max_age {
                self.max_age
            } else {
                t
            },
            None => self.max_age,
        }
    }

    /// Whether a key set was fetched with a lifetime that cannot be held between
    /// the floor and the greatest age, because the floor exceeds that age.
    pub open spec fn lifetime_conflict(self, permit: PermitView, ev: FetchEvidence) -> bool {
        self.policy.fetch_stop(permit.iss, permit.dwk, ev) is None && ev.jwks.ttl() is Some && self.floor
            > self.max_age
    }

    /// The resolver after a key set was fetched.
    pub open spec fn stored(
        self,
        key: Seq<char>,
        jwks: Jwks,
        response_ttl: Option<u64>,
        now: u128,
    ) -> ResolverView {
        ResolverView {
            entries: with_room(self.entries, key).insert(
                key,
                Entry { jwks, fetched_at: now, ttl_secs: self.lifetime(response_ttl) },
            ),
            ..self
        }
    }
}

/// The error for a key that is not cached while no fetch may be made.
pub open spec fn floor_error(iss: Seq<char>, kid: Seq<char>) -> SigErrorView {
    sig_error(
        SigErrorCode::UnknownKey,
        "kid '"@ + kid + "' not found for "@ + iss + " (fetch floor active)"@,
    )
}

/// The error for a key that the issuer publishes in a form that is not
/// implemented.
pub open spec fn unimplemented_key_error(iss: Seq<char>, kid: Seq<char>) -> SigErrorView {
    sig_error(
        SigErrorCode::UnsupportedAlgorithm,
        "kid '"@ + kid + "' at "@ + iss + " is a key type/algorithm this build does not implement"@,
    )
}

fn unimplemented_key(iss: &str, kid: &str) -> (r: SigError)
    ensures
        r@ == unimplemented_key_error(iss@, kid@),
{
    SigError::new(
        SigErrorCode::UnsupportedAlgorithm,
        "kid '".to_owned().concat(kid).concat("' at ").concat(iss).concat(
            " is a key type/algorithm this build does not implement",
        ),
    )
}

/// The error for a key that the issuer does not publish, or publishes in a form
/// that is not implemented.
pub open spec fn missing_key_error(jwks: Jwks, iss: Seq<char>, kid: Seq<char>) -> SigErrorView {
    if jwks.names(kid) {
        unimplemented_key_error(iss, kid)
    } else {
        sig_error(SigErrorCode::UnknownKey, "kid '"@ + kid + "' not in JWKS of "@ + iss)
    }
}

/// The error for a key that cannot be served from the cache while no fetch may
/// be made. A key that the cached key set names in a form that is not implemented
/// is reported as such.
pub open spec fn gated_error(
    v: ResolverView,
    iss: Seq<char>,
    dwk: Seq<char>,
    kid: Seq<char>,
    now: u128,
) -> SigErrorView {
    let key = cache_key(iss, dwk);
    if v.fresh(key, now) && v.entries[key].jwks.names(kid) {
        missing_key_error(v.entries[key].jwks, iss, kid)
    } else {
        floor_error(iss, kid)
    }
}

/// How a request for a key is met.
#[derive(Debug)]
pub enum KeyStep {
    /// From the cache.
    Found(Jwk),
    /// The key set has to be fetched: see [`JwksResolver::refresh_step`].
    Fetch(FetchPermit),
}

/// What a fetch is permitted for.
pub ghost struct PermitView {
    pub iss: Seq<char>,
    pub dwk: Seq<char>,
    pub kid: Seq<char>,
    /// The instant of the attempt that it belongs to.
    pub granted: u128,
}

impl PermitView {
    /// The place in the cache of what is fetched.
    pub open spec fn key(self) -> Seq<char> {
        cache_key(self.iss, self.dwk)
    }
}

/// The permit for one fetch. Only [`JwksResolver::get_key`] and
/// [`JwksResolver::refresh_and_get`] grant one, each time they record an attempt,
/// and a fetch uses it up.
#[derive(Debug)]
pub struct FetchPermit {
    iss: String,
    dwk: String,
    kid: String,
    granted: u128,
}

impl View for FetchPermit {
    type V = PermitView;

    closed spec fn view(&self) -> PermitView {
        PermitView { iss: self.iss@, dwk: self.dwk@, kid: self.kid@, granted: self.granted }
    }
}

/// How far a fetch for a key has come.
#[derive(Debug)]
pub enum RefreshStep {
    /// The next action, with the evidence and the permit handed back for it.
    Needs(FetchAction, Box<FetchEvidence>, FetchPermit),
    Done(Result<Jwk, SigError>),
}

/// What a step of a fetch yields, and the resolver after it: the next action, the
/// fetch's own error, or the key from the key set, which is then cached.
pub open spec fn refreshed(
    v: ResolverView,
    permit: PermitView,
    ev: FetchEvidence,
    now: u128,
    step: RefreshStep,
    after: ResolverView,
) -> bool {
    match v.policy.fetch_stop(permit.iss, permit.dwk, ev) {
        Some(FetchStopView::Needs(action)) => (step matches RefreshStep::Needs(a, kept, back) && a@
            == action && *kept == ev && back@ == permit) && after == v,
        Some(FetchStopView::Failed(error)) => (step matches RefreshStep::Done(Err(e)) && e@
            == error) && after == v,
        None => {
            let jwks = ev.keys->Some_0->Ok_0;
            &&& step matches RefreshStep::Done(result) && key_from(jwks, permit, result)
            &&& after == v.stored(permit.key(), jwks, ev.jwks.ttl(), now)
        },
    }
}

/// Whether a result is what a fetched key set gives for the key that was asked.
pub open spec fn key_from(jwks: Jwks, permit: PermitView, result: Result<Jwk, SigError>) -> bool {
    match result {
        Ok(jwk) => jwks.lookup(permit.kid) == Some(jwk),
        Err(e) => jwks.lookup(permit.kid) is None && e@ == missing_key_error(
            jwks,
            permit.iss,
            permit.kid,
        ),
    }
}

/// Resolves the keys of issuers, from a cache where possible.
pub struct JwksResolver {
    policy: EgressPolicy,
    fetch_floor: u64,
    max_age: u64,
    entries: StringHashMap<Entry>,
    last_attempt: StringHashMap<u128>,
}

impl View for JwksResolver {
    type V = ResolverView;

    closed spec fn view(&self) -> ResolverView {
        ResolverView {
            policy: self.policy,
            floor: self.fetch_floor,
            max_age: self.max_age,
            entries: self.entries@,
            attempts: self.last_attempt@,
        }
    }
}

proof fn lemma_insert_len<V>(m: Map<Seq<char>, V>, key: Seq<char>, v: V)
    requires
        m.dom().finite(),
        m.len() <= MAX_CACHE_ENTRIES,
    ensures
        with_room(m, key).insert(key, v).dom().finite(),
        with_room(m, key).insert(key, v).len() <= MAX_CACHE_ENTRIES,
{
    let room = with_room(m, key);
    assert(room.insert(key, v).dom() =~= room.dom().insert(key));
}

impl JwksResolver {
    #[verifier::type_invariant]
    spec fn bounded(self) -> bool {
        self@.valid()
    }

    /// A resolver that has cached nothing.
    pub fn new(jwks: &JwksConfig, insecure_dev_mode: bool) -> (r: Self)
        ensures
            r@.policy.allow_insecure == insecure_dev_mode,
            r@.policy.timeout_secs == jwks.fetch_timeout_secs,
            r@.policy.max_response_bytes == jwks.max_response_bytes,
            r@.policy.cross_origin_hosts@ == jwks.cross_origin_hosts@,
            r@.floor == jwks.refresh_floor_secs,
            r@.max_age == jwks.max_ttl_secs,
            r@.entries == Map::<Seq<char>, Entry>::empty(),
            r@.attempts == Map::<Seq<char>, u128>::empty(),
    {
        let policy = EgressPolicy {
            allow_insecure: insecure_dev_mode,
            timeout_secs: jwks.fetch_timeout_secs,
            max_response_bytes: jwks.max_response_bytes,
            cross_origin_hosts: copy_strings(&jwks.cross_origin_hosts),
        };
        JwksResolver {
            policy,
            fetch_floor: jwks.refresh_floor_secs,
            max_age: jwks.max_ttl_secs,
            entries: StringHashMap::new(),
            last_attempt: StringHashMap::new(),
        }
    }

    /// Resolves a key: from the cache while that may be served, otherwise the
    /// key set has to be fetched, unless the last attempt is too recent. A key
    /// that the cached key set names in a form that is not implemented is then
    /// reported as such, and not as unknown.
    pub fn get_key(&mut self, iss: &str, dwk: &str, kid: &str, now: u128) -> (r: Result<
        KeyStep,
        SigError,
    >)
        ensures
            ({
                let key = cache_key(iss@, dwk@);
                match r {
                    Ok(KeyStep::Found(jwk)) => old(self)@.cached(key, kid@, now) == Some(jwk)
                        && final(self)@ == old(self)@,
                    Ok(KeyStep::Fetch(permit)) => old(self)@.cached(key, kid@, now) is None
                        && !old(self)@.floor_active(key, now) && final(self)@
                        == old(self)@.attempted(key, now) && permit@ == (PermitView {
                        iss: iss@,
                        dwk: dwk@,
                        kid: kid@,
                        granted: now,
                    }),
                    Err(e) => old(self)@.cached(key, kid@, now) is None && old(
                        self,
                    )@.floor_active(key, now) && e@ == gated_error(
                        old(self)@,
                        iss@,
                        dwk@,
                        kid@,
                        now,
                    ) && final(self)@ == old(self)@,
                }
            }),
            final(self)@.valid(),
    {
        let key = iss.to_owned().concat("|").concat(dwk);
        let mut unimplemented = false;
        if let Some(entry) = self.entries.get(key.as_str()) {
            if elapsed_less(entry.fetched_at, now, entry.ttl_secs) {
                if let Some(jwk) = entry.jwks.find(kid) {
                    proof {
                        use_type_invariant(&*self);
                    }
                    return Ok(KeyStep::Found(jwk));
                }
                unimplemented = entry.jwks.kid_present(kid);
            }
        }
        match self.refresh_and_get(iss, dwk, kid, now) {
            Ok(permit) => Ok(KeyStep::Fetch(permit)),
            Err(e) => if unimplemented {
                Err(unimplemented_key(iss, kid))
            } else {
                Err(e)
            },
        }
    }

    /// Bypasses the cache: the key set has to be fetched, unless the last
    /// attempt is too recent. An attempt counts from its start, so that a slow
    /// or failing issuer is not asked more often.
    pub fn refresh_and_get(&mut self, iss: &str, dwk: &str, kid: &str, now: u128) -> (r: Result<
        FetchPermit,
        SigError,
    >)
        ensures
            ({
                let key = cache_key(iss@, dwk@);
                match r {
                    Ok(permit) => !old(self)@.floor_active(key, now) && final(self)@ == old(
                        self,
                    )@.attempted(key, now) && permit@ == (PermitView {
                        iss: iss@,
                        dwk: dwk@,
                        kid: kid@,
                        granted: now,
                    }),
                    Err(e) => old(self)@.floor_active(key, now) && e@ == floor_error(iss@, kid@)
                        && final(self)@ == old(self)@,
                }
            }),
            final(self)@.valid(),
    {
        proof {
            use_type_invariant(&*self);
        }
        let key = iss.to_owned().concat("|").concat(dwk);
        if let Some(last) = self.last_attempt.get(key.as_str()) {
            if elapsed_less(*last, now, self.fetch_floor) {
                return Err(
                    SigError::new(
                        SigErrorCode::UnknownKey,
                        "kid '".to_owned().concat(kid).concat("' not found for ").concat(
                            iss,
                        ).concat(" (fetch floor active)"),
                    ),
                );
            }
        }
        let mut attempts: StringHashMap<u128> = StringHashMap::new();
        std::mem::swap(&mut attempts, &mut self.last_attempt);
        proof {
            lemma_insert_len(attempts@, key@, now);
        }
        if attempts.len() >= MAX_CACHE_ENTRIES && !attempts.contains_key(key.as_str()) {
            attempts.clear();
        }
        attempts.insert(key, now);
        self.last_attempt = attempts;
        Ok(
            FetchPermit {
                iss: iss.to_owned(),
                dwk: dwk.to_owned(),
                kid: kid.to_owned(),
                granted: now,
            },
        )
    }

    /// Caches a fetched key set and looks the key up in it. A lifetime that the
    /// response advertised is held between the floor and the greatest age, which
    /// takes a floor that does not exceed that age.
    pub fn store(
        &mut self,
        permit: FetchPermit,
        jwks: Jwks,
        response_ttl: Option<u64>,
        now: u128,
    ) -> (r: Result<Jwk, SigError>)
        requires
            response_ttl is Some ==> old(self)@.floor <= old(self)@.max_age,
        ensures
            final(self)@ == old(self)@.stored(permit@.key(), jwks, response_ttl, now),
            key_from(jwks, permit@, r),
            final(self)@.valid(),
    {
        proof {
            use_type_invariant(&*self);
        }
        let iss = permit.iss.as_str();
        let kid = permit.kid.as_str();
        let key = iss.to_owned().concat("|").concat(permit.dwk.as_str());
        let ttl_secs: u64 = match response_ttl {
            Some(t) => if t < self.fetch_floor {
                self.fetch_floor
            } else if t > self.max_age {
                self.max_age
            } else {
                t
            },
            None => self.max_age,
        };
        let found = jwks.find(kid);
        let kid_present = jwks.kid_present(kid);
        let mut entries: StringHashMap<Entry> = StringHashMap::new();
        std::mem::swap(&mut entries, &mut self.entries);
        let entry = Entry { jwks, fetched_at: now, ttl_secs };
        proof {
            lemma_insert_len(entries@, key@, entry);
        }
        if entries.len() >= MAX_CACHE_ENTRIES && !entries.contains_key(key.as_str()) {
            entries.clear();
        }
        entries.insert(key, entry);
        self.entries = entries;
        match found {
            Some(jwk) => Ok(jwk),
            None => if kid_present {
                Err(unimplemented_key(iss, kid))
            } else {
                Err(
                    SigError::new(
                        SigErrorCode::UnknownKey,
                        "kid '".to_owned().concat(kid).concat("' not in JWKS of ").concat(iss),
                    ),
                )
            },
        }
    }

    /// Carries on a fetch that [`JwksResolver::get_key`] or
    /// [`JwksResolver::refresh_and_get`] permitted, on the evidence gathered so
    /// far. A key set that was fetched is cached, as by [`JwksResolver::store`]; a
    /// failure leaves the cache as it is. Either way the permit is used up.
    pub fn refresh_step(&mut self, permit: FetchPermit, evidence: FetchEvidence, now: u128) -> (r:
        RefreshStep)
        requires
            !old(self)@.lifetime_conflict(permit@, evidence),
        ensures
            refreshed(old(self)@, permit@, evidence, now, r, final(self)@),
            final(self)@.valid(),
    {
        proof {
            use_type_invariant(&*self);
        }
        match self.policy.fetch(permit.iss.as_str(), permit.dwk.as_str(), evidence) {
            FetchStep::Needs(action, kept) => RefreshStep::Needs(action, kept, permit),
            FetchStep::Failed(e) => RefreshStep::Done(Err(e)),
            FetchStep::Fetched(jwks, ttl) => RefreshStep::Done(self.store(permit, jwks, ttl, now)),
        }
    }

    /// Carries on a fetch as [`JwksResolver::refresh_step`] does, under any
    /// settings: `None`, with the cache as it was, where a fetched key set
    /// advertises a lifetime that cannot be held between a floor and a greatest
    /// age below it.
    pub fn try_refresh_step(
        &mut self,
        permit: FetchPermit,
        evidence: FetchEvidence,
        now: u128,
    ) -> (r: Option<RefreshStep>)
        ensures
            match r {
                Some(step) => !old(self)@.lifetime_conflict(permit@, evidence) && refreshed(
                    old(self)@,
                    permit@,
                    evidence,
                    now,
                    step,
                    final(self)@,
                ),
                None => old(self)@.lifetime_conflict(permit@, evidence) && final(self)@ == old(
                    self,
                )@,
            },
            final(self)@.valid(),
    {
        proof {
            use_type_invariant(&*self);
        }
        if self.fetch_floor <= self.max_age {
            return Some(self.refresh_step(permit, evidence, now));
        }
        match self.policy.fetch(permit.iss.as_str(), permit.dwk.as_str(), evidence) {
            FetchStep::Needs(action, kept) => Some(RefreshStep::Needs(action, kept, permit)),
            FetchStep::Failed(e) => Some(RefreshStep::Done(Err(e))),
            FetchStep::Fetched(jwks, ttl) => match ttl {
                Some(_) => None,
                None => Some(RefreshStep::Done(self.store(permit, jwks, None, now))),
            },
        }
    }
}

// --- what the cache promises -----------------------------------------------------------

/// A key that is served from the cache was fetched less than the greatest age
/// ago: a key that its issuer removed stops being trusted.
pub proof fn served_key_is_fresh(v: ResolverView, key: Seq<char>, kid: Seq<char>, now: u128)
    requires
        v.valid(),
        v.cached(key, kid, now) is Some,
    ensures
        v.entries.contains_key(key),
        within_secs(v.entries[key].fetched_at, now, v.max_age),
{
    assert(v.entries[key].ttl_secs * SECOND <= v.max_age * SECOND) by (nonlinear_arith)
        requires
            v.entries[key].ttl_secs <= v.max_age,
            SECOND == 1_000_000_000,
    ;
}

/// A key that was fetched is served from the cache for its lifetime.
pub proof fn fetched_key_is_served(
    v: ResolverView,
    key: Seq<char>,
    kid: Seq<char>,
    jwks: Jwks,
    response_ttl: Option<u64>,
    then: u128,
    now: u128,
)
    requires
        within_secs(then, now, v.lifetime(response_ttl)),
    ensures
        v.stored(key, jwks, response_ttl, then).cached(key, kid, now) == jwks.lookup(kid),
{
}

/// The lifetime that a response asks for is held between the floor and the
/// greatest age.
pub proof fn lifetime_is_clamped(v: ResolverView, response_ttl: Option<u64>)
    requires
        v.floor <= v.max_age,
    ensures
        v.floor <= v.lifetime(response_ttl) <= v.max_age,
        response_ttl matches Some(t) ==> (v.floor <= t <= v.max_age ==> v.lifetime(response_ttl)
            == t),
{
}

/// After an attempt no other is made for the same key set until the floor has
/// passed, whether or not the fetch succeeded.
pub proof fn attempts_respect_the_floor(
    v: ResolverView,
    key: Seq<char>,
    then: u128,
    now: u128,
    jwks: Jwks,
    response_ttl: Option<u64>,
    fetched_at: u128,
)
    requires
        within_secs(then, now, v.floor),
    ensures
        v.attempted(key, then).floor_active(key, now),
        v.attempted(key, then).stored(key, jwks, response_ttl, fetched_at).floor_active(key, now),
{
}

/// A fetch that fails hands on its own error, leaves what is cached as it was, and
/// arms the floor like any other attempt.
pub proof fn failed_fetch_arms_the_floor(
    v: ResolverView,
    permit: PermitView,
    ev: FetchEvidence,
    error: SigErrorView,
    step: RefreshStep,
    after: ResolverView,
    fetched_at: u128,
    now: u128,
)
    requires
        v.policy.fetch_stop(permit.iss, permit.dwk, ev) == Some(FetchStopView::Failed(error)),
        refreshed(v.attempted(permit.key(), permit.granted), permit, ev, fetched_at, step, after),
        within_secs(permit.granted, now, v.floor),
    ensures
        step matches RefreshStep::Done(Err(e)) && e@ == error,
        after.entries == v.entries,
        after.floor_active(permit.key(), now),
{
}

/// While a cached key set may be served, a key that it names in a form that is
/// not implemented is reported as such, whether or not a fetch may be made.
pub proof fn unimplemented_key_is_reported_as_such(
    v: ResolverView,
    iss: Seq<char>,
    dwk: Seq<char>,
    kid: Seq<char>,
    jwks: Jwks,
    response_ttl: Option<u64>,
    then: u128,
    now: u128,
)
    requires
        jwks.names(kid),
        jwks.lookup(kid) is None,
        within_secs(then, now, v.lifetime(response_ttl)),
    ensures
        missing_key_error(jwks, iss, kid).code == SigErrorCode::UnsupportedAlgorithm,
        gated_error(
            v.stored(cache_key(iss, dwk), jwks, response_ttl, then),
            iss,
            dwk,
            kid,
            now,
        ) == missing_key_error(jwks, iss, kid),
{
}

/// An attempt for another key set does not lift the floor, unless it overflows
/// the memory of attempts.
pub proof fn other_attempts_keep_the_floor(
    v: ResolverView,
    key: Seq<char>,
    other: Seq<char>,
    then: u128,
    now: u128,
)
    requires
        key != other,
        v.floor_active(key, now),
        v.attempts.len() < MAX_CACHE_ENTRIES || v.attempts.contains_key(other),
    ensures
        v.attempted(other, then).floor_active(key, now),
{
}

/// Storing another key set does not change what is served of this one, unless
/// it overflows the cache.
pub proof fn other_key_sets_are_kept(
    v: ResolverView,
    key: Seq<char>,
    other: Seq<char>,
    kid: Seq<char>,
    jwks: Jwks,
    response_ttl: Option<u64>,
    then: u128,
    now: u128,
)
    requires
        key != other,
        v.entries.len() < MAX_CACHE_ENTRIES || v.entries.contains_key(other),
    ensures
        v.stored(other, jwks, response_ttl, then).cached(key, kid, now) == v.cached(key, kid, now),
{
}

/// What happens to a resolver.
pub ghost enum CacheEvent {
    /// An attempt to fetch is granted.
    Attempt { iss: Seq<char>, dwk: Seq<char>, now: u128 },
    /// A key set was fetched.
    Fetched { iss: Seq<char>, dwk: Seq<char>, jwks: Jwks, response_ttl: Option<u64>, now: u128 },
}

impl CacheEvent {
    /// The document that the event is about.
    pub open spec fn dwk(self) -> Seq<char> {
        match self {
            CacheEvent::Attempt { dwk, .. } => dwk,
            CacheEvent::Fetched { dwk, .. } => dwk,
        }
    }

    /// Whether the event can happen under a floor and a greatest age.
    pub open spec fn allowed(self, floor: u64, max_age: u64) -> bool {
        match self {
            CacheEvent::Attempt { .. } => true,
            CacheEvent::Fetched { response_ttl, .. } => response_ttl is Some ==> floor <= max_age,
        }
    }
}

impl ResolverView {
    /// The resolver after all that happened to it, in this order.
    pub open spec fn after(self, history: Seq<CacheEvent>) -> ResolverView
        decreases history.len(),
    {
        if history.len() == 0 {
            self
        } else {
            let v = self.after(history.drop_last());
            match history.last() {
                CacheEvent::Attempt { iss, dwk, now } => v.attempted(cache_key(iss, dwk), now),
                CacheEvent::Fetched { iss, dwk, jwks, response_ttl, now } => v.stored(
                    cache_key(iss, dwk),
                    jwks,
                    response_ttl,
                    now,
                ),
            }
        }
    }
}

/// The key set that was last fetched for an issuer and a document, and when.
pub open spec fn last_fetched(history: Seq<CacheEvent>, iss: Seq<char>, dwk: Seq<char>) -> Option<
    (Jwks, u128),
>
    decreases history.len(),
{
    if history.len() == 0 {
        None
    } else {
        match history.last() {
            CacheEvent::Fetched { iss: i, dwk: d, jwks, now, .. } if i == iss && d == dwk => Some(
                (jwks, now),
            ),
            _ => last_fetched(history.drop_last(), iss, dwk),
        }
    }
}

proof fn lemma_entries_are_last_fetched(
    v: ResolverView,
    history: Seq<CacheEvent>,
    iss: Seq<char>,
    dwk: Seq<char>,
)
    requires
        v.entries == Map::<Seq<char>, Entry>::empty(),
        !dwk.contains('|'),
        forall|i: int|
            0 <= i < history.len() ==> !(#[trigger] history[i]).dwk().contains('|')
                && history[i].allowed(v.floor, v.max_age),
    ensures
        v.after(history).floor == v.floor,
        v.after(history).max_age == v.max_age,
        v.after(history).entries.contains_key(cache_key(iss, dwk)) ==> ({
            let entry = v.after(history).entries[cache_key(iss, dwk)];
            &&& last_fetched(history, iss, dwk) == Some((entry.jwks, entry.fetched_at))
            &&& entry.ttl_secs <= v.max_age
        }),
    decreases history.len(),
{
    if history.len() > 0 {
        let earlier = history.drop_last();
        assert forall|i: int| 0 <= i < earlier.len() implies !(
        #[trigger] earlier[i]).dwk().contains('|') && earlier[i].allowed(v.floor, v.max_age) by {
            assert(earlier[i] == history[i]);
        }
        lemma_entries_are_last_fetched(v, earlier, iss, dwk);
        let event = history[history.len() - 1];
        assert(event.allowed(v.floor, v.max_age));
        if let CacheEvent::Fetched { iss: i, dwk: d, .. } = event {
            assert(!event.dwk().contains('|'));
            if cache_key(i, d) == cache_key(iss, dwk) {
                cache_keys_are_distinct(i, d, iss, dwk);
            }
        }
    }
}

/// Whatever happened to a resolver since it was new, a key that it serves is the
/// one that the last fetch for that same issuer and document named, and that
/// fetch is less than the greatest age ago. The names of the documents hold no
/// bar.
pub proof fn served_key_comes_from_the_last_fetch(
    v: ResolverView,
    history: Seq<CacheEvent>,
    iss: Seq<char>,
    dwk: Seq<char>,
    kid: Seq<char>,
    now: u128,
)
    requires
        v.entries == Map::<Seq<char>, Entry>::empty(),
        !dwk.contains('|'),
        forall|i: int|
            0 <= i < history.len() ==> !(#[trigger] history[i]).dwk().contains('|')
                && history[i].allowed(v.floor, v.max_age),
    ensures
        v.after(history).cached(cache_key(iss, dwk), kid, now) matches Some(jwk) ==> (last_fetched(
            history,
            iss,
            dwk,
        ) matches Some((jwks, fetched_at)) && jwks.lookup(kid) == Some(jwk) && within_secs(
            fetched_at,
            now,
            v.max_age,
        )),
{
    lemma_entries_are_last_fetched(v, history, iss, dwk);
    let after = v.after(history);
    let key = cache_key(iss, dwk);
    if after.entries.contains_key(key) {
        let ttl = after.entries[key].ttl_secs;
        assert(ttl * SECOND <= v.max_age * SECOND) by (nonlinear_arith)
            requires
                ttl <= v.max_age,
                SECOND == 1_000_000_000,
        ;
    }
}

/// Two issuers, or two documents, never share a place in the cache, when the
/// documents' names hold no bar.
pub proof fn cache_keys_are_distinct(
    iss_a: Seq<char>,
    dwk_a: Seq<char>,
    iss_b: Seq<char>,
    dwk_b: Seq<char>,
)
    requires
        !dwk_a.contains('|'),
        !dwk_b.contains('|'),
        cache_key(iss_a, dwk_a) == cache_key(iss_b, dwk_b),
    ensures
        iss_a == iss_b,
        dwk_a == dwk_b,
{
    reveal_strlit("|");
    let a = cache_key(iss_a, dwk_a);
    let b = cache_key(iss_b, dwk_b);
    assert(a[iss_a.len() as int] == '|');
    assert(b[iss_b.len() as int] == '|');
    if iss_a.len() < iss_b.len() {
        let i = iss_b.len() - iss_a.len() - 1;
        assert(a.len() == b.len());
        assert(a[iss_b.len() as int] == dwk_a[i]);
        assert(dwk_a.contains('|'));
    }
    if iss_b.len() < iss_a.len() {
        let i = iss_a.len() - iss_b.len() - 1;
        assert(a.len() == b.len());
        assert(b[iss_a.len() as int] == dwk_b[i]);
        assert(dwk_b.contains('|'));
    }
    assert(iss_a =~= a.take(iss_a.len() as int));
    assert(iss_b =~= b.take(iss_b.len() as int));
    assert(dwk_a =~= a.skip(iss_a.len() as int + 1));
    assert(dwk_b =~= b.skip(iss_b.len() as int + 1));
}

} // verus!

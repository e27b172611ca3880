//! How long keys are served, how often they are fetched, and which key is found.

use vstd::prelude::*;
use vstd::string::*;

use crate::egress::{FetchEvidence, FetchStopView};
use crate::error::SigErrorCode;
use crate::jwks::{
    cache_key, floor_error, gated_error, missing_key_error, refreshed, PermitView, RefreshStep,
    ResolverView,
};
use crate::tokens::{find_from, Jwk, Jwks, PublishedKey};

verus! {

// --- finding a key -------------------------------------------------------------------

proof fn lemma_find(keys: Seq<PublishedKey>, kid: Seq<char>, from: nat)
    requires
        from <= keys.len(),
    ensures
        match find_from(keys, kid, from) {
            Some(key) => exists|i: int|
                from <= i < keys.len() && (#[trigger] keys[i]).kid@ == kid && keys[i].key == Some(
                    key,
                ) && forall|j: int|
                    from <= j < i && (#[trigger] keys[j]).kid@ == kid ==> keys[j].key is None,
            None => forall|i: int|
                from <= i < keys.len() && (#[trigger] keys[i]).kid@ == kid ==> keys[i].key is None,
        },
    decreases keys.len() - from,
{
    if from < keys.len() {
        let head = keys[from as int];
        if head.kid@ == kid && head.key is Some {
            assert(keys[from as int].kid@ == kid);
        } else {
            lemma_find(keys, kid, from + 1);
            if let Some(key) = find_from(keys, kid, from) {
                let i = choose|i: int|
                    from + 1 <= i < keys.len() && (#[trigger] keys[i]).kid@ == kid && keys[i].key
                        == Some(key) && forall|j: int|
                        from + 1 <= j < i && (#[trigger] keys[j]).kid@ == kid ==> keys[j].key
                            is None;
                assert(keys[i].kid@ == kid);
            }
        }
    }
}

/// The key that is found under a name is published under that very name, in a form
/// that is implemented, and no such key stands before it.
pub proof fn found_key_is_the_first_usable_one(jwks: Jwks, kid: Seq<char>, key: Jwk)
    requires
        jwks.lookup(kid) == Some(key),
    ensures
        exists|i: int|
            0 <= i < jwks.keys@.len() && (#[trigger] jwks.keys@[i]).kid@ == kid && jwks.keys@[i].key
                == Some(key) && forall|j: int|
                0 <= j < i && (#[trigger] jwks.keys@[j]).kid@ == kid ==> jwks.keys@[j].key is None,
{
    lemma_find(jwks.keys@, kid, 0);
}

/// Every usable key that is published under a name makes that name resolve.
pub proof fn usable_key_is_found(jwks: Jwks, i: int)
    requires
        0 <= i < jwks.keys@.len(),
        jwks.keys@[i].key is Some,
    ensures
        jwks.lookup(jwks.keys@[i].kid@) is Some,
{
    lemma_find(jwks.keys@, jwks.keys@[i].kid@, 0);
}

/// A key set names exactly the keys that are published in it, usable or not.
pub proof fn named_keys_are_the_published_ones(jwks: Jwks, kid: Seq<char>)
    ensures
        forall|i: int| 0 <= i < jwks.keys@.len() ==> jwks.names((#[trigger] jwks.keys@[i]).kid@),
        jwks.names(kid) ==> exists|i: int|
            0 <= i < jwks.keys@.len() && (#[trigger] jwks.keys@[i]).kid@ == kid,
{
}

// --- serving from the cache ----------------------------------------------------------

/// A key set that was fetched is served until its lifetime is over and no longer,
/// to the nanosecond. The lifetime is what the response advertised, where that
/// lies between the floor and the greatest age; the nearer of the two, where it
/// does not; and the greatest age, where the response advertised none.
pub proof fn fetched_keys_are_served_for_their_lifetime(
    v: ResolverView,
    key: Seq<char>,
    kid: Seq<char>,
    jwks: Jwks,
    response_ttl: Option<u64>,
    then: u128,
    now: u128,
)
    requires
        v.floor <= v.max_age,
        then <= now,
    ensures
        ({
            let served = v.stored(key, jwks, response_ttl, then).cached(key, kid, now);
            let age = now - then;
            &&& response_ttl matches Some(t) ==> {
                &&& v.floor <= t <= v.max_age ==> served == if age < t * 1_000_000_000 {
                    jwks.lookup(kid)
                } else {
                    None
                }
                &&& t < v.floor ==> served == if age < v.floor * 1_000_000_000 {
                    jwks.lookup(kid)
                } else {
                    None
                }
                &&& t > v.max_age ==> served == if age < v.max_age * 1_000_000_000 {
                    jwks.lookup(kid)
                } else {
                    None
                }
            }
            &&& response_ttl is None ==> served == if age < v.max_age * 1_000_000_000 {
                jwks.lookup(kid)
            } else {
                None
            }
        }),
{
}

/// Nothing is served of a key set that was never fetched.
pub proof fn unknown_key_set_serves_nothing(v: ResolverView, key: Seq<char>, kid: Seq<char>, now: u128)
    requires
        !v.entries.contains_key(key),
    ensures
        v.cached(key, kid, now) is None,
{
}

/// A fetched key set replaces what was cached of it. The others stay as they were,
/// unless 4096 are cached and this one is new: those are all dropped. Attempts and
/// settings stay as they were.
pub proof fn storing_keeps_the_rest(
    v: ResolverView,
    key: Seq<char>,
    jwks: Jwks,
    response_ttl: Option<u64>,
    then: u128,
    other: Seq<char>,
)
    ensures
        ({
            let after = v.stored(key, jwks, response_ttl, then);
            &&& after.entries.contains_key(key) && after.entries[key].jwks == jwks
                && after.entries[key].fetched_at == then
            &&& other != key ==> (after.entries.contains_key(other) <==> v.entries.contains_key(
                other,
            ) && (v.entries.len() < 4096 || v.entries.contains_key(key)))
            &&& other != key && after.entries.contains_key(other) ==> after.entries[other]
                == v.entries[other]
            &&& after.attempts == v.attempts && after.policy == v.policy && after.floor == v.floor
                && after.max_age == v.max_age
        }),
{
}

// --- fetching again ------------------------------------------------------------------

/// Behind an attempt, the next one for the same key set has to wait until the floor
/// is over and no longer, to the nanosecond. A clock that stands earlier than the
/// attempt counts as no time passed.
pub proof fn next_attempt_waits_for_the_floor(
    v: ResolverView,
    key: Seq<char>,
    then: u128,
    now: u128,
)
    ensures
        then <= now ==> (v.attempted(key, then).floor_active(key, now) <==> now - then < v.floor
            * 1_000_000_000),
        now < then ==> (v.attempted(key, then).floor_active(key, now) <==> v.floor > 0),
{
    if now < then {
        assert(v.floor > 0 <==> 0 < v.floor * 1_000_000_000);
    }
}

/// The first attempt for a key set is made at once.
pub proof fn first_attempt_need_not_wait(v: ResolverView, key: Seq<char>, now: u128)
    requires
        !v.attempts.contains_key(key),
    ensures
        !v.floor_active(key, now),
{
}

/// An attempt leaves those for other key sets as they were, unless 4096 are
/// remembered and this one is new: those are all forgotten. The cache and the
/// settings stay as they were.
pub proof fn attempts_keep_the_rest(v: ResolverView, key: Seq<char>, now: u128, other: Seq<char>)
    ensures
        ({
            let after = v.attempted(key, now);
            &&& after.attempts.contains_key(key) && after.attempts[key] == now
            &&& other != key ==> (after.attempts.contains_key(other) <==> v.attempts.contains_key(
                other,
            ) && (v.attempts.len() < 4096 || v.attempts.contains_key(key)))
            &&& other != key && after.attempts.contains_key(other) ==> after.attempts[other]
                == v.attempts[other]
            &&& after.entries == v.entries && after.policy == v.policy && after.floor == v.floor
                && after.max_age == v.max_age
        }),
{
}

/// A fetch that succeeded yields the key that was asked for, and puts the keys
/// where the next request for the same issuer and document looks for them.
pub proof fn fetched_keys_answer_the_next_request(
    v: ResolverView,
    permit: PermitView,
    ev: FetchEvidence,
    now: u128,
    step: RefreshStep,
    after: ResolverView,
    jwks: Jwks,
    kid: Seq<char>,
)
    requires
        v.floor <= v.max_age,
        v.floor > 0,
        v.policy.fetch_stop(permit.iss, permit.dwk, ev) is None,
        ev.keys == Some(Ok::<Jwks, String>(jwks)),
        refreshed(v, permit, ev, now, step, after),
    ensures
        jwks.lookup(permit.kid) matches Some(key) ==> step == RefreshStep::Done(
            Ok::<Jwk, crate::error::SigError>(key),
        ),
        jwks.lookup(permit.kid) is None ==> (step matches RefreshStep::Done(Err(e)) && e@.code == if jwks.names(
            permit.kid,
        ) {
            SigErrorCode::UnsupportedAlgorithm
        } else {
            SigErrorCode::UnknownKey
        }),
        after.cached(cache_key(permit.iss, permit.dwk), kid, now) == jwks.lookup(kid),
        ev.jwks.ttl() matches Some(t) ==> (v.floor <= t <= v.max_age ==> after.entries[cache_key(
            permit.iss,
            permit.dwk,
        )].ttl_secs == t),
        ev.jwks.ttl() is None ==> after.entries[cache_key(permit.iss, permit.dwk)].ttl_secs
            == v.max_age,
        after.attempts == v.attempts,
{
}

/// A fetch that waits or fails leaves the resolver as it was, and hands on what it
/// waits for, or why it failed, unchanged.
pub proof fn unfinished_fetch_changes_nothing(
    v: ResolverView,
    permit: PermitView,
    ev: FetchEvidence,
    now: u128,
    step: RefreshStep,
    after: ResolverView,
)
    requires
        v.policy.fetch_stop(permit.iss, permit.dwk, ev) is Some,
        refreshed(v, permit, ev, now, step, after),
    ensures
        after == v,
        match v.policy.fetch_stop(permit.iss, permit.dwk, ev) {
            Some(FetchStopView::Needs(action)) => step matches RefreshStep::Needs(a, kept, back)
                && a@ == action && *kept == ev && back@ == permit,
            Some(FetchStopView::Failed(error)) => step matches RefreshStep::Done(Err(e)) && e@
                == error,
            None => false,
        },
{
}

/// A key set was fetched in vain only where it advertised a lifetime and the floor
/// exceeds the greatest age.
pub proof fn lifetimes_conflict_only_across_the_bounds(
    v: ResolverView,
    permit: PermitView,
    ev: FetchEvidence,
)
    ensures
        v.lifetime_conflict(permit, ev) <==> v.floor > v.max_age && ev.jwks.ttl() is Some
            && v.policy.fetch_stop(permit.iss, permit.dwk, ev) is None,
{
}

/// The errors for a key that cannot be had. While a cached key set that names it
/// may be served, it is reported as one that is not implemented; otherwise as
/// unknown.
pub proof fn missing_keys_are_reported(
    v: ResolverView,
    iss: Seq<char>,
    dwk: Seq<char>,
    kid: Seq<char>,
    jwks: Jwks,
    now: u128,
)
    ensures
        floor_error(iss, kid).code == SigErrorCode::UnknownKey,
        floor_error(iss, kid).detail == "kid '"@ + kid + "' not found for "@ + iss
            + " (fetch floor active)"@,
        missing_key_error(jwks, iss, kid).code == if exists|i: int|
            0 <= i < jwks.keys@.len() && (#[trigger] jwks.keys@[i]).kid@ == kid {
            SigErrorCode::UnsupportedAlgorithm
        } else {
            SigErrorCode::UnknownKey
        },
        gated_error(v, iss, dwk, kid, now).code == {
            let key = cache_key(iss, dwk);
            if v.entries.contains_key(key) && (now < v.entries[key].fetched_at || now
                - v.entries[key].fetched_at < v.entries[key].ttl_secs * 1_000_000_000)
                && v.entries[key].ttl_secs > 0 && v.entries[key].jwks.names(kid) {
                SigErrorCode::UnsupportedAlgorithm
            } else {
                SigErrorCode::UnknownKey
            }
        },
        gated_error(v, iss, dwk, kid, now).required_input is None,
        gated_error(v, iss, dwk, kid, now).code is UnknownKey ==> gated_error(
            v,
            iss,
            dwk,
            kid,
            now,
        ).detail == "kid '"@ + kid + "' not found for "@ + iss + " (fetch floor active)"@,
        gated_error(v, iss, dwk, kid, now).code is UnsupportedAlgorithm ==> gated_error(
            v,
            iss,
            dwk,
            kid,
            now,
        ).detail == "kid '"@ + kid + "' at "@ + iss
            + " is a key type/algorithm this build does not implement"@,
        missing_key_error(jwks, iss, kid).detail == if jwks.names(kid) {
            "kid '"@ + kid + "' at "@ + iss
                + " is a key type/algorithm this build does not implement"@
        } else {
            "kid '"@ + kid + "' not in JWKS of "@ + iss
        },
{
    let key = cache_key(iss, dwk);
    if v.entries.contains_key(key) {
        let ttl = v.entries[key].ttl_secs;
        assert(ttl > 0 <==> 0 < ttl * 1_000_000_000);
    }
}

/// The keys of two issuers, or of two documents of one issuer, are cached apart:
/// what is fetched for one is never served for the other. The names of the
/// documents hold no bar.
pub proof fn key_sets_are_cached_apart(
    v: ResolverView,
    iss_a: Seq<char>,
    dwk_a: Seq<char>,
    iss_b: Seq<char>,
    dwk_b: Seq<char>,
    kid: Seq<char>,
    jwks: Jwks,
    response_ttl: Option<u64>,
    then: u128,
    now: u128,
)
    requires
        !dwk_a.contains('|'),
        !dwk_b.contains('|'),
        iss_a != iss_b || dwk_a != dwk_b,
        !v.entries.contains_key(cache_key(iss_b, dwk_b)),
    ensures
        v.stored(cache_key(iss_a, dwk_a), jwks, response_ttl, then).cached(
            cache_key(iss_b, dwk_b),
            kid,
            now,
        ) is None,
{
    if cache_key(iss_a, dwk_a) == cache_key(iss_b, dwk_b) {
        crate::jwks::cache_keys_are_distinct(iss_a, dwk_a, iss_b, dwk_b);
    }
}

} // verus!

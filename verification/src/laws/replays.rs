//! Which presentations the replay guard rejects, and until when.

use vstd::prelude::*;

use crate::replay::{
    after_presenting, big_endian, expiry, key_of, key_of_is_injective, live, no_nul, replayed, sha256_digest,
    tuple_bytes, tuple_bytes_are_unambiguous, tuple_key,
};

verus! {

/// A tuple that is accepted is a replay at every second up to `created` plus the
/// window, and at none behind it, whatever the window.
pub proof fn accepted_tuple_is_a_replay_until_its_window_ends(
    m: Map<Seq<char>, i64>,
    digest: Seq<u8>,
    created: i64,
    window_secs: u64,
    now: i64,
    t: i64,
)
    requires
        !replayed(m, key_of(digest), now),
        window_secs <= 0x7fff_ffff_ffff_ffff,
    ensures
        replayed(
            after_presenting(m, key_of(digest), expiry(created, window_secs), now),
            key_of(digest),
            t,
        ) <==> t <= created + window_secs,
{
}

/// A tuple whose time of signing lies no further than the window from the present
/// is no longer accepted once it was: neither at the same second nor at a later
/// one that still admits that time of signing.
pub proof fn admissible_signature_is_accepted_once(
    m: Map<Seq<char>, i64>,
    digest: Seq<u8>,
    created: i64,
    window_secs: u64,
    now: i64,
    t: i64,
)
    requires
        !replayed(m, key_of(digest), now),
        window_secs <= 0x7fff_ffff_ffff_ffff,
        t - window_secs <= created <= t + window_secs,
    ensures
        replayed(
            after_presenting(m, key_of(digest), expiry(created, window_secs), now),
            key_of(digest),
            t,
        ),
{
}

/// A rejected presentation changes nothing that is remembered.
pub proof fn rejected_presentation_leaves_the_memory(
    m: Map<Seq<char>, i64>,
    digest: Seq<u8>,
    created: i64,
    window_secs: u64,
    now: i64,
)
    requires
        replayed(m, key_of(digest), now),
    ensures
        after_presenting(m, key_of(digest), expiry(created, window_secs), now) == m,
{
}

/// What is kept of the other tuples when one is accepted: all of them while fewer
/// than 65536 are remembered; otherwise those inside their window, if they are
/// fewer than that; otherwise none.
pub proof fn accepting_keeps_what_there_is_room_for(
    m: Map<Seq<char>, i64>,
    key: Seq<char>,
    expires: i64,
    now: i64,
    other: Seq<char>,
)
    requires
        !(m.contains_key(key) && m[key] >= now),
        other != key,
    ensures
        ({
            let after = after_presenting(m, key, expires, now);
            let inside = m.dom().filter(|k: Seq<char>| m[k] >= now);
            &&& after.contains_key(other) <==> m.contains_key(other) && (m.len() < 65_536 || (
            m[other] >= now && inside.len() < 65_536))
            &&& after.contains_key(other) ==> after[other] == m[other]
        }),
{
    let inside = m.dom().filter(|k: Seq<char>| m[k] >= now);
    assert(live(m, now).dom() =~= inside);
}

/// One tuple shown to the guard: its digest, its time of signing and the present.
pub ghost struct Shown {
    pub digest: Seq<u8>,
    pub created: i64,
    pub now: i64,
}

/// What a guard remembers that was shown these, in this order.
pub open spec fn memory(window_secs: u64, shown: Seq<Shown>) -> Map<Seq<char>, i64>
    decreases shown.len(),
{
    if shown.len() == 0 {
        Map::empty()
    } else {
        let last = shown.last();
        after_presenting(
            memory(window_secs, shown.drop_last()),
            key_of(last.digest),
            expiry(last.created, window_secs),
            last.now,
        )
    }
}

/// Whether a digest stands for one time of signing.
pub open spec fn signed_once(shown: Seq<Shown>, digest: Seq<u8>, created: i64) -> bool {
    forall|k: int|
        0 <= k < shown.len() && (#[trigger] shown[k]).digest == digest ==> shown[k].created
            == created
}

/// Whether the memory had room for one more tuple at every presentation.
pub open spec fn had_room(window_secs: u64, shown: Seq<Shown>) -> bool {
    forall|k: int|
        0 <= k < shown.len() ==> memory(window_secs, #[trigger] shown.take(k)).len() < 65_536
}

/// Nothing is rejected without a cause: a tuple is a replay only when it was shown
/// before and the second is not behind its window.
pub proof fn only_shown_tuples_are_replays(
    window_secs: u64,
    shown: Seq<Shown>,
    digest: Seq<u8>,
    created: i64,
    t: i64,
)
    requires
        signed_once(shown, digest, created),
        window_secs <= 0x7fff_ffff_ffff_ffff,
        replayed(memory(window_secs, shown), key_of(digest), t),
    ensures
        t <= created + window_secs,
        exists|k: int| 0 <= k < shown.len() && (#[trigger] shown[k]).digest == digest,
    decreases shown.len(),
{
    if shown.len() > 0 {
        let last = shown.last();
        let earlier = shown.drop_last();
        assert(forall|k: int| 0 <= k < earlier.len() ==> earlier[k] == shown[k]);
        assert(shown[shown.len() - 1] == last);
        if last.digest == digest {
            if replayed(memory(window_secs, earlier), key_of(digest), last.now) {
                only_shown_tuples_are_replays(window_secs, earlier, digest, created, t);
            }
        } else {
            if key_of(last.digest) == key_of(digest) {
                key_of_is_injective(last.digest, digest);
            }
            only_shown_tuples_are_replays(window_secs, earlier, digest, created, t);
            let k = choose|k: int|
                0 <= k < earlier.len() && (#[trigger] earlier[k]).digest == digest;
            assert(shown[k].digest == digest);
        }
    }
}

/// Nothing is missed while the memory has room: a tuple that was shown before, at
/// whatever second, is a replay at every second that is not behind its window.
pub proof fn shown_tuple_is_a_replay(
    window_secs: u64,
    shown: Seq<Shown>,
    i: int,
    t: i64,
)
    requires
        0 <= i < shown.len(),
        signed_once(shown, shown[i].digest, shown[i].created),
        had_room(window_secs, shown),
        window_secs <= 0x7fff_ffff_ffff_ffff,
        t <= shown[i].created + window_secs,
    ensures
        replayed(memory(window_secs, shown), key_of(shown[i].digest), t),
    decreases shown.len(),
{
    let digest = shown[i].digest;
    let created = shown[i].created;
    let last = shown.last();
    let earlier = shown.drop_last();
    assert(forall|k: int| 0 <= k < earlier.len() ==> earlier[k] == shown[k]);
    assert(shown.take(shown.len() - 1) =~= earlier);
    assert(memory(window_secs, shown.take(shown.len() - 1)).len() < 65_536);
    assert(had_room(window_secs, earlier)) by {
        assert forall|k: int| 0 <= k < earlier.len() implies memory(
            window_secs,
            #[trigger] earlier.take(k),
        ).len() < 65_536 by {
            assert(earlier.take(k) =~= shown.take(k));
        }
    }
    let m = memory(window_secs, earlier);
    if i < earlier.len() {
        shown_tuple_is_a_replay(window_secs, earlier, i, t);
        if key_of(last.digest) == key_of(digest) {
            key_of_is_injective(last.digest, digest);
        }
    } else if replayed(m, key_of(digest), last.now) {
        only_shown_tuples_are_replays(window_secs, earlier, digest, created, last.now);
        let k = choose|k: int| 0 <= k < earlier.len() && (#[trigger] earlier[k]).digest == digest;
        assert(shown[k].digest == digest);
        shown_tuple_is_a_replay(window_secs, earlier, k, t);
    }
}

/// The number that bytes spell, most significant first.
pub open spec fn spelled(bytes: Seq<u8>) -> int
    decreases bytes.len(),
{
    if bytes.len() == 0 {
        0
    } else {
        spelled(bytes.drop_last()) * 256 + bytes.last()
    }
}

proof fn lemma_spelled(n: u64)
    ensures
        big_endian(n).len() == 8,
        spelled(big_endian(n)) == n,
{
    let s = big_endian(n);
    let n1 = n / 0x100;
    let n2 = n1 / 0x100;
    let n3 = n2 / 0x100;
    let n4 = n3 / 0x100;
    let n5 = n4 / 0x100;
    let n6 = n5 / 0x100;
    let n7 = n6 / 0x100;
    assert(n2 == n / 0x1_0000);
    assert(n3 == n / 0x100_0000);
    assert(n4 == n / 0x1_0000_0000);
    assert(n5 == n / 0x100_0000_0000);
    assert(n6 == n / 0x1_0000_0000_0000);
    assert(n7 == n / 0x100_0000_0000_0000);
    assert(n7 < 256);
    assert(s.drop_last() =~= s.take(7));
    assert(s.take(7).drop_last() =~= s.take(6));
    assert(s.take(6).drop_last() =~= s.take(5));
    assert(s.take(5).drop_last() =~= s.take(4));
    assert(s.take(4).drop_last() =~= s.take(3));
    assert(s.take(3).drop_last() =~= s.take(2));
    assert(s.take(2).drop_last() =~= s.take(1));
    assert(s.take(1).drop_last() =~= s.take(0));
    assert(spelled(s.take(0)) == 0);
    assert(spelled(s.take(1)) == n7);
    assert(spelled(s.take(2)) == n6);
    assert(spelled(s.take(3)) == n5);
    assert(spelled(s.take(4)) == n4);
    assert(spelled(s.take(5)) == n3);
    assert(spelled(s.take(6)) == n2);
    assert(spelled(s.take(7)) == n1);
}

/// What is hashed of a tuple: the thumbprint, the method, the authority and the
/// path in UTF-8, each with a zero byte behind it, and eight bytes that spell the
/// time of signing.
pub proof fn tuple_is_spelled_out(
    thumbprint: Seq<char>,
    created: i64,
    method: Seq<char>,
    authority: Seq<char>,
    path: Seq<char>,
)
    ensures
        ({
            let zero = seq![0u8];
            let texts = vstd::utf8::encode_utf8(thumbprint) + zero + vstd::utf8::encode_utf8(method)
                + zero + vstd::utf8::encode_utf8(authority) + zero + vstd::utf8::encode_utf8(path)
                + zero;
            exists|tail: Seq<u8>|
                tail.len() == 8 && spelled(tail) == created as u64 && tuple_bytes(
                    thumbprint,
                    created,
                    method,
                    authority,
                    path,
                ) == #[trigger] (texts + tail)
        }),
{
    let zero = seq![0u8];
    let texts = vstd::utf8::encode_utf8(thumbprint) + zero + vstd::utf8::encode_utf8(method) + zero
        + vstd::utf8::encode_utf8(authority) + zero + vstd::utf8::encode_utf8(path) + zero;
    let tail = big_endian(created as u64);
    lemma_spelled(created as u64);
    assert(tuple_bytes(thumbprint, created, method, authority, path) =~= texts + tail);
}

/// Two tuples share a key only when they agree in the key thumbprint, the time of
/// signing, the method, the authority and the path, or when SHA-256 has a
/// collision.
pub proof fn one_key_is_one_tuple(
    thumb1: Seq<char>,
    created1: i64,
    method1: Seq<char>,
    authority1: Seq<char>,
    path1: Seq<char>,
    thumb2: Seq<char>,
    created2: i64,
    method2: Seq<char>,
    authority2: Seq<char>,
    path2: Seq<char>,
)
    requires
        no_nul(thumb1) && no_nul(method1) && no_nul(authority1) && no_nul(path1),
        no_nul(thumb2) && no_nul(method2) && no_nul(authority2) && no_nul(path2),
        tuple_key(thumb1, created1, method1, authority1, path1) == tuple_key(
            thumb2,
            created2,
            method2,
            authority2,
            path2,
        ),
    ensures
        (thumb1 == thumb2 && created1 == created2 && method1 == method2 && authority1
            == authority2 && path1 == path2) || exists|x: Seq<u8>, y: Seq<u8>|
            x != y && #[trigger] sha256_digest(x) == #[trigger] sha256_digest(y),
{
    let x = tuple_bytes(thumb1, created1, method1, authority1, path1);
    let y = tuple_bytes(thumb2, created2, method2, authority2, path2);
    key_of_is_injective(sha256_digest(x), sha256_digest(y));
    if x == y {
        tuple_bytes_are_unambiguous(
            thumb1,
            created1,
            method1,
            authority1,
            path1,
            thumb2,
            created2,
            method2,
            authority2,
            path2,
        );
    }
}

} // verus!

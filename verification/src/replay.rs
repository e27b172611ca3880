//! The replay guard: a bounded memory of accepted request signatures.
//!
//! A signature is remembered by the SHA-256 of its
//! `(key thumbprint, created, method, authority, path)` tuple until the
//! signature window has passed. A second presentation inside the window is a
//! replay.

use vstd::hash_map::*;
use vstd::prelude::*;
use vstd::string::*;

use sha2::Digest;

verus! {

/// Bound on the remembered tuples. When it is reached, expired tuples are
/// dropped and, if that makes no room, all of them: a brief protection gap,
/// never a false rejection.
pub const MAX_REPLAY_ENTRIES: usize = 65_536;

// --- the tuple ---------------------------------------------------------------------

/// What SHA-256 yields for a byte sequence.
pub uninterp spec fn sha256_digest(data: Seq<u8>) -> Seq<u8>;

/// Calls `sha2::Sha256::digest`.
///
/// The digest has 32 bytes and depends on the data alone.
#[verifier::external_body]
pub(crate) fn sha256(data: &[u8]) -> (r: [u8; 32])
    ensures
        r@ == sha256_digest(data@),
{
    sha2::Sha256::digest(data).into()
}

/// The eight bytes of `n`, most significant first.
pub open spec fn big_endian(n: u64) -> Seq<u8> {
    seq![
        (n / 0x100_0000_0000_0000) as u8,
        (n / 0x1_0000_0000_0000 % 256) as u8,
        (n / 0x100_0000_0000 % 256) as u8,
        (n / 0x1_0000_0000 % 256) as u8,
        (n / 0x100_0000 % 256) as u8,
        (n / 0x1_0000 % 256) as u8,
        (n / 0x100 % 256) as u8,
        (n % 256) as u8,
    ]
}

/// The bytes that stand for a signature tuple: each text part in UTF-8 with a
/// zero byte behind it, then `created` in two's complement, big-endian.
pub open spec fn tuple_bytes(
    thumbprint: Seq<char>,
    created: i64,
    method: Seq<char>,
    authority: Seq<char>,
    path: Seq<char>,
) -> Seq<u8> {
    vstd::utf8::encode_utf8(thumbprint).push(0) + vstd::utf8::encode_utf8(method).push(0)
        + vstd::utf8::encode_utf8(authority).push(0) + vstd::utf8::encode_utf8(path).push(0)
        + big_endian(created as u64)
}

/// Appends a text part and its zero byte.
fn push_part(out: &mut Vec<u8>, part: &str)
    ensures
        final(out)@ == old(out)@ + vstd::utf8::encode_utf8(part@).push(0),
{
    let bytes = part.as_bytes();
    let ghost start = out@;
    let mut i: usize = 0;
    while i < bytes.len()
        invariant
            i <= bytes@.len(),
            out@ == start + bytes@.take(i as int),
        decreases bytes@.len() - i,
    {
        out.push(bytes[i]);
        assert(start + bytes@.take(i + 1) =~= (start + bytes@.take(i as int)).push(bytes@[i as int]));
        i = i + 1;
    }
    assert(bytes@.take(i as int) =~= bytes@);
    out.push(0);
    assert(out@ =~= start + bytes@.push(0));
}

/// The bytes that stand for a signature tuple.
pub fn encode_tuple(thumbprint: &str, created: i64, method: &str, authority: &str, path: &str) -> (r:
    Vec<u8>)
    ensures
        r@ == tuple_bytes(thumbprint@, created, method@, authority@, path@),
{
    let mut out: Vec<u8> = Vec::new();
    push_part(&mut out, thumbprint);
    push_part(&mut out, method);
    push_part(&mut out, authority);
    push_part(&mut out, path);
    let ghost text = out@;
    let n: u64 = created as u64;
    out.push((n / 0x100_0000_0000_0000) as u8);
    out.push((n / 0x1_0000_0000_0000 % 256) as u8);
    out.push((n / 0x100_0000_0000 % 256) as u8);
    out.push((n / 0x1_0000_0000 % 256) as u8);
    out.push((n / 0x100_0000 % 256) as u8);
    out.push((n / 0x1_0000 % 256) as u8);
    out.push((n / 0x100 % 256) as u8);
    out.push((n % 256) as u8);
    assert(out@ =~= text + big_endian(n));
    assert(out@ =~= tuple_bytes(thumbprint@, created, method@, authority@, path@));
    out
}

/// The key under which a digest is remembered: one character per byte.
pub open spec fn key_of(digest: Seq<u8>) -> Seq<char> {
    digest.map_values(|b: u8| b as char)
}

/// Different digests have different keys.
pub proof fn key_of_is_injective(a: Seq<u8>, b: Seq<u8>)
    requires
        key_of(a) == key_of(b),
    ensures
        a == b,
{
    assert(a.len() == key_of(a).len());
    assert(b.len() == key_of(b).len());
    assert forall|i: int| 0 <= i < a.len() implies a[i] == b[i] by {
        assert(key_of(a)[i] == a[i] as char);
        assert(key_of(b)[i] == b[i] as char);
    }
    assert(a =~= b);
}

/// The key under which the tuple is remembered.
pub open spec fn tuple_key(
    thumbprint: Seq<char>,
    created: i64,
    method: Seq<char>,
    authority: Seq<char>,
    path: Seq<char>,
) -> Seq<char> {
    key_of(sha256_digest(tuple_bytes(thumbprint, created, method, authority, path)))
}

/// The key under which a digest is remembered.
pub fn digest_key(digest: &[u8; 32]) -> (r: String)
    ensures
        r@ == key_of(digest@),
{
    let mut out = String::new();
    let mut i: usize = 0;
    while i < 32
        invariant
            i <= 32,
            out@ == key_of(digest@.take(i as int)),
        decreases 32 - i,
    {
        out.push(digest[i] as char);
        assert(key_of(digest@.take(i + 1)) =~= key_of(digest@.take(i as int)).push(
            digest@[i as int] as char,
        ));
        i = i + 1;
    }
    assert(digest@.take(32) =~= digest@);
    out
}

// --- the memory --------------------------------------------------------------------

/// `a + b`, held inside the range of `i64`.
pub open spec fn saturated_sum(a: i64, b: i64) -> i64 {
    if a + b > i64::MAX {
        i64::MAX
    } else if a + b < i64::MIN {
        i64::MIN
    } else {
        (a + b) as i64
    }
}

fn saturating_add(a: i64, b: i64) -> (r: i64)
    ensures
        r == saturated_sum(a, b),
{
    if b > 0 && a > i64::MAX - b {
        i64::MAX
    } else if b < 0 && a < i64::MIN - b {
        i64::MIN
    } else {
        a + b
    }
}

/// The second after which a tuple created at `created` is forgotten.
pub open spec fn expiry(created: i64, window_secs: u64) -> i64 {
    saturated_sum(created, window_secs as i64)
}

/// The tuples that are still inside their window.
pub open spec fn live(m: Map<Seq<char>, i64>, now: i64) -> Map<Seq<char>, i64> {
    m.restrict(Set::new(|k: Seq<char>| m.contains_key(k) && m[k] >= now))
}

/// The memory with room for one more tuple.
pub open spec fn with_room(m: Map<Seq<char>, i64>, now: i64) -> Map<Seq<char>, i64> {
    if m.len() < MAX_REPLAY_ENTRIES {
        m
    } else if live(m, now).len() < MAX_REPLAY_ENTRIES {
        live(m, now)
    } else {
        Map::empty()
    }
}

/// Whether the tuple is remembered and still inside its window.
pub open spec fn replayed(m: Map<Seq<char>, i64>, key: Seq<char>, now: i64) -> bool {
    m.contains_key(key) && m[key] >= now
}

/// The memory after a tuple has been presented.
pub open spec fn after_presenting(
    m: Map<Seq<char>, i64>,
    key: Seq<char>,
    expires: i64,
    now: i64,
) -> Map<Seq<char>, i64> {
    if replayed(m, key, now) {
        m
    } else {
        with_room(m, now).insert(key, expires)
    }
}

/// The remembered tuples, and a list of their keys to walk them by.
struct Memory {
    seen: StringHashMap<i64>,
    keys: Vec<String>,
}

impl Memory {
    /// `keys` lists the domain of `seen`, each key once.
    spec fn wf(self) -> bool {
        &&& self.seen@.dom().finite()
        &&& forall|i: int|
            0 <= i < self.keys@.len() ==> self.seen@.contains_key((#[trigger] self.keys@[i])@)
        &&& forall|i: int, j: int|
            0 <= i < j < self.keys@.len() ==> (#[trigger] self.keys@[i])@ != (
            #[trigger] self.keys@[j])@
        &&& forall|k: Seq<char>| #[trigger]
            self.seen@.contains_key(k) ==> exists|i: int|
                0 <= i < self.keys@.len() && (#[trigger] self.keys@[i])@ == k
    }

    fn empty() -> (r: Self)
        ensures
            r.wf(),
            r.seen@ == Map::<Seq<char>, i64>::empty(),
    {
        Memory { seen: StringHashMap::new(), keys: Vec::new() }
    }

    /// Keeps what is still inside its window.
    fn prune(self, now: i64) -> (r: Self)
        requires
            self.wf(),
        ensures
            r.wf(),
            r.seen@ == live(self.seen@, now),
    {
        let mut seen: StringHashMap<i64> = StringHashMap::new();
        let mut keys: Vec<String> = Vec::new();
        let mut i: usize = 0;
        while i < self.keys.len()
            invariant
                self.wf(),
                i <= self.keys@.len(),
                (Memory { seen, keys }).wf(),
                forall|k: Seq<char>| #[trigger]
                    seen@.contains_key(k) ==> live(self.seen@, now).contains_key(k) && seen@[k]
                        == self.seen@[k],
                forall|j: int|
                    0 <= j < i && live(self.seen@, now).contains_key(
                        (#[trigger] self.keys@[j])@,
                    ) ==> seen@.contains_key(self.keys@[j]@),
                forall|j: int| i <= j < self.keys@.len() ==> !seen@.contains_key(
                    (#[trigger] self.keys@[j])@,
                ),
            decreases self.keys@.len() - i,
        {
            let key = &self.keys[i];
            assert(self.seen@.contains_key(self.keys@[i as int]@));
            if let Some(expires) = self.seen.get(key.as_str()) {
                if *expires >= now {
                    let ghost before = Memory { seen, keys };
                    keys.push(key.clone());
                    seen.insert(key.clone(), *expires);
                    proof {
                        let m = Memory { seen, keys };
                        assert forall|k: Seq<char>| #[trigger] m.seen@.contains_key(k) implies exists|
                            j: int,
                        | 0 <= j < m.keys@.len() && (#[trigger] m.keys@[j])@ == k by {
                            if k == key@ {
                                assert(m.keys@[before.keys@.len() as int]@ == k);
                            } else {
                                assert(before.seen@.contains_key(k));
                                let j = choose|j: int|
                                    0 <= j < before.keys@.len() && (#[trigger] before.keys@[j])@ == k;
                                assert(m.keys@[j]@ == k);
                            }
                        }
                        assert forall|j: int| 0 <= j < m.keys@.len() implies m.seen@.contains_key(
                            (#[trigger] m.keys@[j])@,
                        ) by {
                            if j < before.keys@.len() {
                                assert(m.keys@[j] == before.keys@[j]);
                            }
                        }
                        assert forall|a: int, b: int| 0 <= a < b < m.keys@.len() implies (
                        #[trigger] m.keys@[a])@ != (#[trigger] m.keys@[b])@ by {
                            assert(m.keys@[a] == before.keys@[a]);
                            if b < before.keys@.len() {
                                assert(m.keys@[b] == before.keys@[b]);
                            } else {
                                assert(before.seen@.contains_key(before.keys@[a]@));
                            }
                        }
                    }
                }
            }
            i = i + 1;
        }
        proof {
            assert forall|k: Seq<char>| live(self.seen@, now).contains_key(
                k,
            ) implies seen@.contains_key(k) by {
                let j = choose|j: int|
                    0 <= j < self.keys@.len() && (#[trigger] self.keys@[j])@ == k;
                assert(seen@.contains_key(self.keys@[j]@));
            }
            assert(seen@ =~= live(self.seen@, now));
        }
        Memory { seen, keys }
    }

    /// Remembers `key` until `expires`.
    fn remember(self, key: String, expires: i64) -> (r: Self)
        requires
            self.wf(),
        ensures
            r.wf(),
            r.seen@ == self.seen@.insert(key@, expires),
    {
        let mut seen = self.seen;
        let mut keys = self.keys;
        if !seen.contains_key(key.as_str()) {
            keys.push(key.clone());
        }
        seen.insert(key, expires);
        let r = Memory { seen, keys };
        proof {
            assert forall|k: Seq<char>| #[trigger] r.seen@.contains_key(k) implies exists|j: int|
                0 <= j < r.keys@.len() && (#[trigger] r.keys@[j])@ == k by {
                if self.seen@.contains_key(k) {
                    let j = choose|j: int|
                        0 <= j < self.keys@.len() && (#[trigger] self.keys@[j])@ == k;
                    assert(r.keys@[j]@ == k);
                } else {
                    assert(r.keys@[self.keys@.len() as int]@ == k);
                }
            }
        }
        r
    }
}

/// The replay guard: each remembered tuple with the second after which it is
/// forgotten.
pub struct ReplayGuard {
    memory: Memory,
}

impl View for ReplayGuard {
    type V = Map<Seq<char>, i64>;

    closed spec fn view(&self) -> Map<Seq<char>, i64> {
        self.memory.seen@
    }
}

impl ReplayGuard {
    #[verifier::type_invariant]
    spec fn memory_wf(self) -> bool {
        self.memory.wf() && self.memory.seen@.len() <= MAX_REPLAY_ENTRIES
    }

    /// A guard that remembers nothing.
    pub fn new() -> (r: Self)
        ensures
            r@ == Map::<Seq<char>, i64>::empty(),
    {
        ReplayGuard { memory: Memory::empty() }
    }

    /// Presents a tuple: `true` when it is a replay, otherwise it is
    /// remembered until its window has passed.
    pub fn check_and_insert(
        &mut self,
        tuple_hash: &[u8; 32],
        created: i64,
        window_secs: u64,
        now: i64,
    ) -> (r: bool)
        ensures
            r == replayed(old(self)@, key_of(tuple_hash@), now),
            final(self)@ == after_presenting(
                old(self)@,
                key_of(tuple_hash@),
                expiry(created, window_secs),
                now,
            ),
            final(self)@.len() <= MAX_REPLAY_ENTRIES,
    {
        proof {
            use_type_invariant(&*self);
        }
        let expires: i64 = saturating_add(created, window_secs as i64);
        let key = digest_key(tuple_hash);
        if let Some(until) = self.memory.seen.get(key.as_str()) {
            if *until >= now {
                return true;
            }
        }
        let mut memory = Memory::empty();
        std::mem::swap(&mut memory, &mut self.memory);
        if memory.seen.len() >= MAX_REPLAY_ENTRIES {
            memory = memory.prune(now);
            if memory.seen.len() >= MAX_REPLAY_ENTRIES {
                memory = Memory::empty();
            }
        }
        self.memory = memory.remember(key, expires);
        false
    }
}

impl Default for ReplayGuard {
    fn default() -> (r: Self)
        ensures
            r@ == Map::<Seq<char>, i64>::empty(),
    {
        Self::new()
    }
}

// --- what the guard promises ---------------------------------------------------------

/// A tuple that was accepted is a replay at every later presentation inside its
/// window.
pub proof fn second_presentation_is_replay(
    m: Map<Seq<char>, i64>,
    key: Seq<char>,
    expires: i64,
    now: i64,
    later: i64,
)
    requires
        !replayed(m, key, now),
        later <= expires,
    ensures
        replayed(after_presenting(m, key, expires, now), key, later),
{
}

/// A tuple is forgotten once its window has passed.
pub proof fn expired_tuple_is_no_replay(
    m: Map<Seq<char>, i64>,
    key: Seq<char>,
    expires: i64,
    now: i64,
    later: i64,
)
    requires
        !replayed(m, key, now),
        later > expires,
    ensures
        !replayed(after_presenting(m, key, expires, now), key, later),
{
}

/// Presenting one tuple never turns another one into a replay.
pub proof fn presenting_rejects_no_other_tuple(
    m: Map<Seq<char>, i64>,
    key: Seq<char>,
    expires: i64,
    now: i64,
    other: Seq<char>,
    later: i64,
)
    requires
        other != key,
        replayed(after_presenting(m, key, expires, now), other, later),
    ensures
        replayed(m, other, later),
{
}

/// A tuple inside its window stays remembered when others are presented, as
/// long as fewer than [`MAX_REPLAY_ENTRIES`] tuples are inside theirs.
pub proof fn live_tuple_survives(
    m: Map<Seq<char>, i64>,
    key: Seq<char>,
    expires: i64,
    now: i64,
    other: Seq<char>,
)
    requires
        other != key,
        replayed(m, other, now),
        m.len() < MAX_REPLAY_ENTRIES || live(m, now).len() < MAX_REPLAY_ENTRIES,
    ensures
        replayed(after_presenting(m, key, expires, now), other, now),
{
}

/// One presentation to the guard.
pub ghost struct Presentation {
    pub key: Seq<char>,
    /// The second after which the tuple is forgotten.
    pub expires: i64,
    /// The second at which it is presented.
    pub now: i64,
}

/// What a guard remembers that was presented with these, in this order.
pub open spec fn remembered(history: Seq<Presentation>) -> Map<Seq<char>, i64>
    decreases history.len(),
{
    if history.len() == 0 {
        Map::empty()
    } else {
        let p = history.last();
        after_presenting(remembered(history.drop_last()), p.key, p.expires, p.now)
    }
}

/// The expiry of the latest presentation of a tuple that was recorded, and not
/// rejected as a replay.
pub open spec fn latest_recorded(history: Seq<Presentation>, key: Seq<char>) -> Option<i64>
    decreases history.len(),
{
    if history.len() == 0 {
        None
    } else {
        let p = history.last();
        let earlier = history.drop_last();
        if p.key == key && !replayed(remembered(earlier), key, p.now) {
            Some(p.expires)
        } else {
            latest_recorded(earlier, key)
        }
    }
}

/// Whether the memory had room at every presentation.
pub open spec fn below_bound(history: Seq<Presentation>) -> bool {
    forall|i: int|
        0 <= i < history.len() ==> remembered(#[trigger] history.take(i)).len()
            < MAX_REPLAY_ENTRIES
}

proof fn lemma_remembered_is_recorded(history: Seq<Presentation>, key: Seq<char>)
    ensures
        remembered(history).contains_key(key) ==> latest_recorded(history, key) == Some(
            remembered(history)[key],
        ),
    decreases history.len(),
{
    if history.len() > 0 {
        lemma_remembered_is_recorded(history.drop_last(), key);
    }
}

proof fn lemma_recorded_is_remembered(history: Seq<Presentation>, key: Seq<char>)
    requires
        below_bound(history),
    ensures
        latest_recorded(history, key) is Some ==> remembered(history).contains_key(key),
    decreases history.len(),
{
    if history.len() > 0 {
        let earlier = history.drop_last();
        assert forall|i: int| 0 <= i < earlier.len() implies remembered(
            #[trigger] earlier.take(i),
        ).len() < MAX_REPLAY_ENTRIES by {
            assert(earlier.take(i) =~= history.take(i));
        }
        assert(history.take(history.len() - 1) =~= earlier);
        assert(remembered(earlier).len() < MAX_REPLAY_ENTRIES);
        lemma_recorded_is_remembered(earlier, key);
    }
}

/// Nothing is rejected wrongly, whatever was presented before: a tuple is a replay
/// only while the latest recorded presentation of it is inside its window.
pub proof fn replay_has_a_live_presentation(history: Seq<Presentation>, key: Seq<char>, now: i64)
    ensures
        replayed(remembered(history), key, now) ==> (latest_recorded(history, key) matches Some(
            expires,
        ) && expires >= now),
{
    lemma_remembered_is_recorded(history, key);
}

/// While the memory has room, nothing is missed either: a tuple is a replay
/// exactly while the latest recorded presentation of it is inside its window.
pub proof fn replay_is_a_live_presentation(history: Seq<Presentation>, key: Seq<char>, now: i64)
    requires
        below_bound(history),
    ensures
        replayed(remembered(history), key, now) <==> (latest_recorded(history, key) matches Some(
            expires,
        ) && expires >= now),
{
    lemma_remembered_is_recorded(history, key);
    lemma_recorded_is_remembered(history, key);
}

proof fn lemma_char_has_no_zero(ch: char, i: int)
    requires
        ch != '\0',
        0 <= i < vstd::utf8::encode_scalar(ch as u32).len(),
    ensures
        vstd::utf8::encode_scalar(ch as u32)[i] != 0,
{
    let c: u32 = ch as u32;
    assert(c <= 0x7F && c != 0 ==> (c & 0x7F) as u8 != 0) by (bit_vector);
    assert(0xC0 | ((c >> 6) & 0x1F) as u8 != 0) by (bit_vector);
    assert(0xE0 | ((c >> 12) & 0x0F) as u8 != 0) by (bit_vector);
    assert(0xF0 | ((c >> 18) & 0x7) as u8 != 0) by (bit_vector);
    assert(0x80 | (c & 0x3F) as u8 != 0) by (bit_vector);
    assert(0x80 | ((c >> 6) & 0x3F) as u8 != 0) by (bit_vector);
    assert(0x80 | ((c >> 12) & 0x3F) as u8 != 0) by (bit_vector);
}

/// Whether a text holds no NUL character.
pub open spec fn no_nul(s: Seq<char>) -> bool {
    forall|i: int| 0 <= i < s.len() ==> #[trigger] s[i] != '\0'
}

proof fn lemma_text_has_no_zero(s: Seq<char>)
    requires
        no_nul(s),
    ensures
        forall|i: int|
            0 <= i < vstd::utf8::encode_utf8(s).len() ==> #[trigger] vstd::utf8::encode_utf8(s)[i]
                != 0,
    decreases s.len(),
{
    if s.len() > 0 {
        let rest = s.drop_first();
        assert forall|i: int| 0 <= i < rest.len() implies #[trigger] rest[i] != '\0' by {
            assert(rest[i] == s[i + 1]);
        }
        lemma_text_has_no_zero(rest);
        let head = vstd::utf8::encode_scalar(s[0] as u32);
        assert(s[0] != '\0');
        assert forall|i: int| 0 <= i < vstd::utf8::encode_utf8(s).len() implies #[trigger]
            vstd::utf8::encode_utf8(s)[i] != 0 by {
            if i < head.len() {
                lemma_char_has_no_zero(s[0], i);
            } else {
                assert(vstd::utf8::encode_utf8(s)[i] == vstd::utf8::encode_utf8(rest)[i
                    - head.len()]);
            }
        }
    }
}

proof fn lemma_split_at_zero(a: Seq<u8>, b: Seq<u8>, ra: Seq<u8>, rb: Seq<u8>)
    requires
        forall|i: int| 0 <= i < a.len() ==> #[trigger] a[i] != 0,
        forall|i: int| 0 <= i < b.len() ==> #[trigger] b[i] != 0,
        a.push(0) + ra == b.push(0) + rb,
    ensures
        a == b,
        ra == rb,
{
    let x = a.push(0) + ra;
    let y = b.push(0) + rb;
    assert(x[a.len() as int] == 0);
    assert(y[b.len() as int] == 0);
    if a.len() < b.len() {
        assert(y[a.len() as int] == b[a.len() as int]);
    }
    if b.len() < a.len() {
        assert(x[b.len() as int] == a[b.len() as int]);
    }
    assert forall|i: int| 0 <= i < a.len() implies a[i] == b[i] by {
        assert(x[i] == a[i]);
        assert(y[i] == b[i]);
    }
    assert(a =~= b);
    assert(x.len() == a.len() + 1 + ra.len());
    assert(y.len() == b.len() + 1 + rb.len());
    assert forall|i: int| 0 <= i < ra.len() implies ra[i] == rb[i] by {
        assert(x[a.len() + 1 + i] == ra[i]);
        assert(y[b.len() + 1 + i] == rb[i]);
    }
    assert(ra =~= rb);
}

/// The number that eight bytes spell, most significant first.
spec fn from_big_endian(s: Seq<u8>) -> int {
    s[7] + 256 * (s[6] + 256 * (s[5] + 256 * (s[4] + 256 * (s[3] + 256 * (s[2] + 256 * (s[1] + 256
        * s[0]))))))
}

proof fn lemma_big_endian(n: u64)
    ensures
        from_big_endian(big_endian(n)) == n,
{
    let n1 = n / 0x100;
    let n2 = n1 / 0x100;
    let n3 = n2 / 0x100;
    let n4 = n3 / 0x100;
    let n5 = n4 / 0x100;
    let n6 = n5 / 0x100;
    let n7 = n6 / 0x100;
    assert(n2 == n / 0x1_0000);
    assert(n3 == n / 0x100_0000);
    assert(n4 == n / 0x1_0000_0000);
    assert(n5 == n / 0x100_0000_0000);
    assert(n6 == n / 0x1_0000_0000_0000);
    assert(n7 == n / 0x100_0000_0000_0000);
    assert(n7 < 256);
}

proof fn lemma_created_bytes(a: i64, b: i64)
    requires
        big_endian(a as u64) == big_endian(b as u64),
    ensures
        a == b,
{
    lemma_big_endian(a as u64);
    lemma_big_endian(b as u64);
    assert(a as u64 == b as u64 ==> a == b) by (bit_vector);
}

/// Different tuples are hashed from different bytes: a replay is the same key,
/// `created`, method, authority and path, up to a collision of SHA-256. The
/// text parts are header and request-line values, which hold no NUL.
pub proof fn tuple_bytes_are_unambiguous(
    thumb1: Seq<char>,
    created1: i64,
    method1: Seq<char>,
    authority1: Seq<char>,
    path1: Seq<char>,
    thumb2: Seq<char>,
    created2: i64,
    method2: Seq<char>,
    authority2: Seq<char>,
    path2: Seq<char>,
)
    requires
        no_nul(thumb1) && no_nul(method1) && no_nul(authority1) && no_nul(path1),
        no_nul(thumb2) && no_nul(method2) && no_nul(authority2) && no_nul(path2),
        tuple_bytes(thumb1, created1, method1, authority1, path1) == tuple_bytes(
            thumb2,
            created2,
            method2,
            authority2,
            path2,
        ),
    ensures
        thumb1 == thumb2,
        created1 == created2,
        method1 == method2,
        authority1 == authority2,
        path1 == path2,
{
    let t1 = vstd::utf8::encode_utf8(thumb1);
    let m1 = vstd::utf8::encode_utf8(method1);
    let a1 = vstd::utf8::encode_utf8(authority1);
    let p1 = vstd::utf8::encode_utf8(path1);
    let t2 = vstd::utf8::encode_utf8(thumb2);
    let m2 = vstd::utf8::encode_utf8(method2);
    let a2 = vstd::utf8::encode_utf8(authority2);
    let p2 = vstd::utf8::encode_utf8(path2);
    let c1 = big_endian(created1 as u64);
    let c2 = big_endian(created2 as u64);
    lemma_text_has_no_zero(thumb1);
    lemma_text_has_no_zero(method1);
    lemma_text_has_no_zero(authority1);
    lemma_text_has_no_zero(path1);
    lemma_text_has_no_zero(thumb2);
    lemma_text_has_no_zero(method2);
    lemma_text_has_no_zero(authority2);
    lemma_text_has_no_zero(path2);
    let whole1 = t1.push(0) + m1.push(0) + a1.push(0) + p1.push(0) + c1;
    let whole2 = t2.push(0) + m2.push(0) + a2.push(0) + p2.push(0) + c2;
    let rest1 = m1.push(0) + (a1.push(0) + (p1.push(0) + c1));
    let rest2 = m2.push(0) + (a2.push(0) + (p2.push(0) + c2));
    assert(whole1 =~= t1.push(0) + rest1);
    assert(whole2 =~= t2.push(0) + rest2);
    lemma_split_at_zero(t1, t2, rest1, rest2);
    lemma_split_at_zero(m1, m2, a1.push(0) + (p1.push(0) + c1), a2.push(0) + (p2.push(0) + c2));
    lemma_split_at_zero(a1, a2, p1.push(0) + c1, p2.push(0) + c2);
    lemma_split_at_zero(p1, p2, c1, c2);
    lemma_created_bytes(created1, created2);
    vstd::utf8::encode_utf8_decode_utf8(thumb1);
    vstd::utf8::encode_utf8_decode_utf8(thumb2);
    vstd::utf8::encode_utf8_decode_utf8(method1);
    vstd::utf8::encode_utf8_decode_utf8(method2);
    vstd::utf8::encode_utf8_decode_utf8(authority1);
    vstd::utf8::encode_utf8_decode_utf8(authority2);
    vstd::utf8::encode_utf8_decode_utf8(path1);
    vstd::utf8::encode_utf8_decode_utf8(path2);
}

} // verus!

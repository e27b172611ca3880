//! Character-level text operations: trimming, ASCII case folding, splitting,
//! searching, and decimal numbers.
//!
//! Every operation is stated over the sequence of characters of a string, so
//! that header parsing and error messages have exact contracts.

use vstd::prelude::*;
use vstd::string::*;

verus! {

/// `String::push` appends one character.
pub assume_specification[ String::push ](s: &mut String, c: char)
    ensures
        final(s)@ == old(s)@.push(c),
;

/// `str` equality holds exactly when both strings have the same characters.
pub assume_specification[ <str as PartialEq<str>>::eq ](a: &str, b: &str) -> (r: bool)
    ensures
        r == (a@ == b@),
;

// --- characters and slices of them -------------------------------------------

/// The characters of `s`.
pub fn chars(s: &str) -> (r: Vec<char>)
    ensures
        r@ == s@,
{
    let mut out: Vec<char> = Vec::new();
    for c in it: s.chars()
        invariant
            it.seq() == s@,
            out@ == s@.take(it.index() as int),
    {
        out.push(c);
    }
    out
}

/// The string made of `v[from..to]`.
pub fn string_of(v: &Vec<char>, from: usize, to: usize) -> (r: String)
    requires
        from <= to <= v@.len(),
    ensures
        r@ == v@.subrange(from as int, to as int),
{
    let mut out = String::new();
    let mut i: usize = from;
    while i < to
        invariant
            from <= i <= to <= v@.len(),
            out@ == v@.subrange(from as int, i as int),
        decreases to - i,
    {
        out.push(v[i]);
        i = i + 1;
    }
    out
}

// --- white space ---------------------------------------------------------------

/// The characters with the Unicode `White_Space` property.
pub open spec fn is_space(c: char) -> bool {
    let n = c as u32;
    ||| 0x9 <= n <= 0xD
    ||| n == 0x20
    ||| n == 0x85
    ||| n == 0xA0
    ||| n == 0x1680
    ||| 0x2000 <= n <= 0x200A
    ||| n == 0x2028
    ||| n == 0x2029
    ||| n == 0x202F
    ||| n == 0x205F
    ||| n == 0x3000
}

/// Whether `c` has the Unicode `White_Space` property.
pub fn space(c: char) -> (r: bool)
    ensures
        r == is_space(c),
{
    let n: u32 = c as u32;
    (0x9 <= n && n <= 0xD) || n == 0x20 || n == 0x85 || n == 0xA0 || n == 0x1680 || (0x2000 <= n
        && n <= 0x200A) || n == 0x2028 || n == 0x2029 || n == 0x202F || n == 0x205F || n == 0x3000
}

/// `s` without its longest prefix of characters satisfying `drop`.
pub open spec fn trim_start(s: Seq<char>, drop: spec_fn(char) -> bool) -> Seq<char>
    decreases s.len(),
{
    if s.len() > 0 && drop(s[0]) {
        trim_start(s.skip(1), drop)
    } else {
        s
    }
}

/// `s` without its longest suffix of characters satisfying `drop`.
pub open spec fn trim_end(s: Seq<char>, drop: spec_fn(char) -> bool) -> Seq<char>
    decreases s.len(),
{
    if s.len() > 0 && drop(s.last()) {
        trim_end(s.drop_last(), drop)
    } else {
        s
    }
}

/// `s` without leading and trailing characters satisfying `drop`.
pub open spec fn trim_both(s: Seq<char>, drop: spec_fn(char) -> bool) -> Seq<char> {
    trim_end(trim_start(s, drop), drop)
}

/// `s` without leading and trailing white space.
pub open spec fn trimmed(s: Seq<char>) -> Seq<char> {
    trim_both(s, |c: char| is_space(c))
}

/// `s` without leading and trailing double quotes.
pub open spec fn unquoted(s: Seq<char>) -> Seq<char> {
    trim_both(s, |c: char| c == '"')
}

proof fn lemma_trim_start(s: Seq<char>, drop: spec_fn(char) -> bool)
    ensures
        trim_start(s, drop).len() <= s.len(),
        trim_start(s, drop).len() == s.len() ==> trim_start(s, drop) == s,
        trim_start(s, drop).len() > 0 ==> !drop(trim_start(s, drop)[0]),
    decreases s.len(),
{
    if s.len() > 0 && drop(s[0]) {
        lemma_trim_start(s.skip(1), drop);
    }
}

proof fn lemma_trim_end(s: Seq<char>, drop: spec_fn(char) -> bool)
    ensures
        trim_end(s, drop).len() <= s.len(),
        trim_end(s, drop) == s.take(trim_end(s, drop).len() as int),
        trim_end(s, drop).len() > 0 ==> !drop(trim_end(s, drop).last()),
    decreases s.len(),
{
    if s.len() > 0 && drop(s.last()) {
        lemma_trim_end(s.drop_last(), drop);
        let n = trim_end(s, drop).len() as int;
        assert(s.drop_last().take(n) =~= s.take(n));
    } else {
        assert(s.take(s.len() as int) =~= s);
    }
}

/// Trimmed text neither begins nor ends with white space.
pub proof fn trimmed_edges_are_solid(s: Seq<char>)
    ensures
        trimmed(s).len() > 0 ==> !is_space(trimmed(s)[0]) && !is_space(trimmed(s).last()),
{
    let blank = |c: char| is_space(c);
    lemma_trim_start(s, blank);
    lemma_trim_end(trim_start(s, blank), blank);
}

/// Text that neither begins nor ends with white space is left as it is.
pub proof fn solid_edges_are_trimmed(s: Seq<char>)
    requires
        s.len() > 0 ==> !is_space(s[0]) && !is_space(s.last()),
    ensures
        trimmed(s) == s,
{
}

/// Trimming disregards case: lower-case text is trimmed where the text itself is.
pub proof fn trimming_keeps_case(s: Seq<char>)
    ensures
        trimmed(lowered(s)) == lowered(trimmed(s)),
{
    let blank = |c: char| is_space(c);
    lemma_trim_start_lowered(s);
    lemma_trim_end_lowered(trim_start(s, blank));
}

proof fn lemma_trim_start_lowered(s: Seq<char>)
    ensures
        trim_start(lowered(s), |c: char| is_space(c)) == lowered(
            trim_start(s, |c: char| is_space(c)),
        ),
    decreases s.len(),
{
    if s.len() > 0 && is_space(s[0]) {
        lemma_trim_start_lowered(s.skip(1));
        assert(lowered(s).skip(1) =~= lowered(s.skip(1)));
    }
}

proof fn lemma_trim_end_lowered(s: Seq<char>)
    ensures
        trim_end(lowered(s), |c: char| is_space(c)) == lowered(trim_end(s, |c: char| is_space(c))),
    decreases s.len(),
{
    if s.len() > 0 && is_space(s.last()) {
        lemma_trim_end_lowered(s.drop_last());
        assert(lowered(s).drop_last() =~= lowered(s.drop_last()));
    }
}

/// `s` with leading and trailing white space removed.
pub fn trim(s: &str) -> (r: String)
    ensures
        r@ == trimmed(s@),
{
    let v = chars(s);
    let ghost drop = |c: char| is_space(c);
    let mut from: usize = 0;
    assert(s@.skip(0) =~= s@);
    while from < v.len() && space(v[from])
        invariant
            from <= v@.len(),
            v@ == s@,
            drop == (|c: char| is_space(c)),
            trim_start(s@, drop) == trim_start(s@.skip(from as int), drop),
        decreases v@.len() - from,
    {
        assert(s@.skip(from as int).skip(1) =~= s@.skip(from + 1));
        from = from + 1;
    }
    let ghost rest = s@.skip(from as int);
    assert(trim_start(s@, drop) == rest);
    let mut to: usize = v.len();
    assert(v@.subrange(from as int, to as int) =~= rest);
    while from < to && space(v[to - 1])
        invariant
            from <= to <= v@.len(),
            v@ == s@,
            drop == (|c: char| is_space(c)),
            trim_end(rest, drop) == trim_end(v@.subrange(from as int, to as int), drop),
        decreases to,
    {
        assert(v@.subrange(from as int, to as int).drop_last() =~= v@.subrange(
            from as int,
            to - 1,
        ));
        to = to - 1;
    }
    string_of(&v, from, to)
}

/// `s` with leading and trailing double quotes removed.
pub fn unquote(s: &str) -> (r: String)
    ensures
        r@ == unquoted(s@),
{
    let v = chars(s);
    let ghost drop = |c: char| c == '"';
    let mut from: usize = 0;
    assert(s@.skip(0) =~= s@);
    while from < v.len() && v[from] == '"'
        invariant
            from <= v@.len(),
            v@ == s@,
            drop == (|c: char| c == '"'),
            trim_start(s@, drop) == trim_start(s@.skip(from as int), drop),
        decreases v@.len() - from,
    {
        assert(s@.skip(from as int).skip(1) =~= s@.skip(from + 1));
        from = from + 1;
    }
    let ghost rest = s@.skip(from as int);
    assert(trim_start(s@, drop) == rest);
    let mut to: usize = v.len();
    assert(v@.subrange(from as int, to as int) =~= rest);
    while from < to && v[to - 1] == '"'
        invariant
            from <= to <= v@.len(),
            v@ == s@,
            drop == (|c: char| c == '"'),
            trim_end(rest, drop) == trim_end(v@.subrange(from as int, to as int), drop),
        decreases to,
    {
        assert(v@.subrange(from as int, to as int).drop_last() =~= v@.subrange(
            from as int,
            to - 1,
        ));
        to = to - 1;
    }
    string_of(&v, from, to)
}

// --- ASCII case ----------------------------------------------------------------

/// The ASCII lower-case form of `c`; characters outside `A..=Z` are kept.
pub open spec fn lower_char(c: char) -> char {
    if 'A' <= c <= 'Z' {
        (c as u32 + 32) as char
    } else {
        c
    }
}

/// `s` with every ASCII capital in lower case.
pub open spec fn lowered(s: Seq<char>) -> Seq<char> {
    s.map_values(|c: char| lower_char(c))
}

/// The ASCII lower-case form of `c`.
pub fn lower(c: char) -> (r: char)
    ensures
        r == lower_char(c),
{
    if 'A' <= c && c <= 'Z' {
        let n: u8 = c as u8;
        let m: u8 = n + 32;
        m as char
    } else {
        c
    }
}

/// `s` with every ASCII capital in lower case.
pub fn to_lower(s: &str) -> (r: String)
    ensures
        r@ == lowered(s@),
{
    let v = chars(s);
    let mut out = String::new();
    let mut i: usize = 0;
    while i < v.len()
        invariant
            i <= v@.len(),
            v@ == s@,
            out@ == lowered(s@.take(i as int)),
        decreases v@.len() - i,
    {
        out.push(lower(v[i]));
        assert(lowered(s@.take(i + 1)) =~= lowered(s@.take(i as int)).push(lower_char(s@[i as int])));
        i = i + 1;
    }
    assert(s@.take(i as int) =~= s@);
    out
}

/// Whether two names are the same up to ASCII case.
pub open spec fn same_name(a: Seq<char>, b: Seq<char>) -> bool {
    lowered(a) == lowered(b)
}

/// Whether `a` and `b` are the same up to ASCII case.
pub fn eq_ignore_case(a: &str, b: &str) -> (r: bool)
    ensures
        r == same_name(a@, b@),
{
    let x = to_lower(a);
    let y = to_lower(b);
    x == y
}

// --- searching and splitting -----------------------------------------------------

/// Whether `needle` occurs in `hay` at position `at`.
pub open spec fn occurs_at(hay: Seq<char>, needle: Seq<char>, at: int) -> bool {
    0 <= at && at + needle.len() <= hay.len() && hay.subrange(at, at + needle.len()) == needle
}

/// Whether `needle` occurs somewhere in `hay`.
pub open spec fn occurs(hay: Seq<char>, needle: Seq<char>) -> bool {
    exists|at: int| occurs_at(hay, needle, at)
}

/// Whether `needle` stands in `hay` at position `at`.
fn matches_at(hay: &Vec<char>, needle: &Vec<char>, at: usize) -> (r: bool)
    requires
        at + needle@.len() <= hay@.len(),
    ensures
        r == occurs_at(hay@, needle@, at as int),
{
    let end: usize = hay.len();
    let mut i: usize = 0;
    while i < needle.len()
        invariant
            i <= needle@.len(),
            at + needle@.len() <= hay@.len(),
            end == hay@.len(),
            forall|j: int| 0 <= j < i ==> hay@[at + j] == needle@[j],
        decreases needle@.len() - i,
    {
        if hay[at + i] != needle[i] {
            assert(hay@.subrange(at as int, at + needle@.len())[i as int] != needle@[i as int]);
            return false;
        }
        i = i + 1;
    }
    assert(hay@.subrange(at as int, at + needle@.len()) =~= needle@);
    true
}

/// Whether `needle` occurs somewhere in `hay`.
pub fn contains(hay: &str, needle: &str) -> (r: bool)
    ensures
        r == occurs(hay@, needle@),
{
    let h = chars(hay);
    let n = chars(needle);
    if n.len() > h.len() {
        return false;
    }
    let last: usize = h.len() - n.len();
    let mut at: usize = 0;
    while at <= last
        invariant
            h@ == hay@,
            n@ == needle@,
            last + n@.len() == h@.len(),
            at <= last + 1,
            forall|k: int| 0 <= k < at ==> !occurs_at(hay@, needle@, k),
        decreases last + 1 - at,
    {
        if matches_at(&h, &n, at) {
            assert(occurs_at(hay@, needle@, at as int));
            return true;
        }
        if at == last {
            assert forall|k: int| !occurs_at(hay@, needle@, k) by {
                if occurs_at(hay@, needle@, k) {
                    assert(k <= last);
                }
            }
            return false;
        }
        at = at + 1;
    }
    false
}

/// What is left of `s` behind `prefix`, when `s` starts with it.
pub open spec fn without_prefix(s: Seq<char>, prefix: Seq<char>) -> Option<Seq<char>> {
    if occurs_at(s, prefix, 0) {
        Some(s.skip(prefix.len() as int))
    } else {
        None
    }
}

/// What is left of `s` behind `prefix`, when `s` starts with it.
pub fn strip_prefix(s: &str, prefix: &str) -> (r: Option<String>)
    ensures
        match r {
            Some(rest) => without_prefix(s@, prefix@) == Some(rest@),
            None => without_prefix(s@, prefix@) is None,
        },
{
    let v = chars(s);
    let p = chars(prefix);
    if p.len() <= v.len() && matches_at(&v, &p, 0) {
        assert(v@.subrange(p@.len() as int, v@.len() as int) =~= s@.skip(p@.len() as int));
        Some(string_of(&v, p.len(), v.len()))
    } else {
        None
    }
}

/// What is left of `s` before `suffix`, when `s` ends with it.
pub open spec fn without_suffix(s: Seq<char>, suffix: Seq<char>) -> Option<Seq<char>> {
    if occurs_at(s, suffix, s.len() - suffix.len()) {
        Some(s.take(s.len() - suffix.len()))
    } else {
        None
    }
}

/// What is left of `s` before `suffix`, when `s` ends with it.
pub fn strip_suffix(s: &str, suffix: &str) -> (r: Option<String>)
    ensures
        match r {
            Some(rest) => without_suffix(s@, suffix@) == Some(rest@),
            None => without_suffix(s@, suffix@) is None,
        },
{
    let v = chars(s);
    let p = chars(suffix);
    if p.len() <= v.len() && matches_at(&v, &p, v.len() - p.len()) {
        let end: usize = v.len() - p.len();
        assert(v@.subrange(0, end as int) =~= s@.take(end as int));
        Some(string_of(&v, 0, end))
    } else {
        None
    }
}

/// The position of the first `sep` in `s`, or its length when there is none.
pub open spec fn first_at(s: Seq<char>, sep: char) -> int
    decreases s.len(),
{
    if s.len() == 0 || s[0] == sep {
        0
    } else {
        1 + first_at(s.skip(1), sep)
    }
}

/// The pieces of `s` between its separators; one more than there are separators.
pub open spec fn split_on(s: Seq<char>, sep: char) -> Seq<Seq<char>>
    decreases s.len(),
{
    let at = first_at(s, sep);
    if 0 <= at < s.len() {
        seq![s.take(at)] + split_on(s.skip(at + 1), sep)
    } else {
        seq![s]
    }
}

proof fn lemma_first_at(s: Seq<char>, sep: char, at: int)
    requires
        0 <= at <= s.len(),
        forall|j: int| 0 <= j < at ==> s[j] != sep,
        at == s.len() || s[at] == sep,
    ensures
        first_at(s, sep) == at,
    decreases s.len(),
{
    if s.len() > 0 && s[0] != sep {
        assert forall|j: int| 0 <= j < at - 1 implies s.skip(1)[j] != sep by {
            assert(s.skip(1)[j] == s[j + 1]);
        }
        lemma_first_at(s.skip(1), sep, at - 1);
    }
}

/// The characters of each string of a list.
pub open spec fn views(v: Seq<String>) -> Seq<Seq<char>> {
    v.map_values(|s: String| s@)
}

/// The pieces of `s` between its separators.
pub fn split(s: &str, sep: char) -> (r: Vec<String>)
    ensures
        views(r@) == split_on(s@, sep),
{
    let v = chars(s);
    let mut out: Vec<String> = Vec::new();
    let mut start: usize = 0;
    let mut i: usize = 0;
    assert(s@.skip(0) =~= s@);
    while i < v.len()
        invariant
            start <= i <= v@.len(),
            v@ == s@,
            views(out@) + split_on(s@.skip(start as int), sep) == split_on(s@, sep),
            forall|j: int| start <= j < i ==> v@[j] != sep,
        decreases v@.len() - i,
    {
        if v[i] == sep {
            let piece = string_of(&v, start, i);
            proof {
                let rest = s@.skip(start as int);
                assert forall|j: int| 0 <= j < i - start implies rest[j] != sep by {
                    assert(rest[j] == v@[start + j]);
                }
                lemma_first_at(rest, sep, i - start);
                assert(rest.take(i - start) =~= piece@);
                assert(rest.skip(i - start + 1) =~= s@.skip(i + 1));
                assert(views(out@.push(piece)) =~= views(out@).push(piece@));
                assert(views(out@) + (seq![piece@] + split_on(s@.skip(i + 1), sep)) =~= views(
                    out@,
                ).push(piece@) + split_on(s@.skip(i + 1), sep));
            }
            out.push(piece);
            start = i + 1;
        }
        i = i + 1;
    }
    let piece = string_of(&v, start, i);
    proof {
        let rest = s@.skip(start as int);
        assert forall|j: int| 0 <= j < rest.len() implies rest[j] != sep by {
            assert(rest[j] == v@[start + j]);
        }
        lemma_first_at(rest, sep, rest.len() as int);
        assert(rest =~= piece@);
        assert(views(out@.push(piece)) =~= views(out@) + seq![piece@]);
    }
    out.push(piece);
    out
}

// --- decimal numbers -------------------------------------------------------------

/// Whether `c` is an ASCII digit.
pub open spec fn is_digit(c: char) -> bool {
    '0' <= c <= '9'
}

/// The digit character for `0 <= d <= 9`.
pub open spec fn digit_char(d: nat) -> char {
    (d + 48) as char
}

/// The decimal numeral of `n`, without leading zeros.
pub open spec fn decimal(n: nat) -> Seq<char>
    decreases n,
{
    if n < 10 {
        seq![digit_char(n)]
    } else {
        decimal(n / 10).push(digit_char(n % 10))
    }
}

/// The decimal numeral of `n`, without leading zeros.
pub fn to_decimal(n: u64) -> (r: String)
    ensures
        r@ == decimal(n as nat),
    decreases n,
{
    let d: u8 = (n % 10) as u8;
    let c: char = (d + 48) as char;
    assert(c == digit_char((n % 10) as nat));
    if n < 10 {
        let mut out = String::new();
        out.push(c);
        assert(out@ =~= seq![digit_char(n as nat)]);
        out
    } else {
        let mut out = to_decimal(n / 10);
        out.push(c);
        out
    }
}

/// The number that a sequence of digits denotes.
pub open spec fn digits_value(s: Seq<char>) -> nat
    decreases s.len(),
{
    if s.len() == 0 {
        0
    } else {
        (digits_value(s.drop_last()) * 10 + (s.last() as u32 - 48)) as nat
    }
}

/// Whether every character of `s` is a digit.
pub open spec fn all_digits(s: Seq<char>) -> bool {
    forall|i: int| 0 <= i < s.len() ==> is_digit(#[trigger] s[i])
}

/// The digits of a numeral: what follows its optional `+` sign.
pub open spec fn unsigned_digits(s: Seq<char>) -> Seq<char> {
    if s.len() > 0 && s[0] == '+' {
        s.skip(1)
    } else {
        s
    }
}

/// The number that `s` denotes: an optional `+`, then at least one digit and
/// nothing else, with a value that fits in 64 bits.
pub open spec fn number(s: Seq<char>) -> Option<u64> {
    let d = unsigned_digits(s);
    if d.len() > 0 && all_digits(d) && digits_value(d) <= u64::MAX {
        Some(digits_value(d) as u64)
    } else {
        None
    }
}

proof fn lemma_prefix_value(s: Seq<char>, i: int)
    requires
        0 <= i <= s.len(),
        all_digits(s),
    ensures
        digits_value(s.take(i)) <= digits_value(s),
    decreases s.len() - i,
{
    if i == s.len() {
        assert(s.take(i) =~= s);
    } else {
        lemma_prefix_value(s, i + 1);
        assert(s.take(i + 1).drop_last() =~= s.take(i));
        assert(is_digit(s[i]));
    }
}

/// The number that `s` denotes in decimal, if it denotes one that fits.
pub fn parse_number(s: &str) -> (r: Option<u64>)
    ensures
        r == number(s@),
{
    let v = chars(s);
    let from: usize = if v.len() > 0 && v[0] == '+' {
        1
    } else {
        0
    };
    let ghost d = unsigned_digits(s@);
    assert(d =~= s@.skip(from as int));
    if from == v.len() {
        return None;
    }
    let mut n: u64 = 0;
    let mut i: usize = from;
    while i < v.len()
        invariant
            v@ == s@,
            d == unsigned_digits(s@),
            d == s@.skip(from as int),
            from <= i <= v@.len(),
            from <= 1,
            forall|j: int| 0 <= j < i - from ==> is_digit(#[trigger] d[j]),
            n == digits_value(d.take(i - from)),
        decreases v@.len() - i,
    {
        let c: char = v[i];
        let ghost k = i - from;
        assert(d[k] == c);
        assert(d.take(k + 1).drop_last() =~= d.take(k));
        if c < '0' || c > '9' {
            assert(!all_digits(d));
            return None;
        }
        let digit: u64 = (c as u32 - 48) as u64;
        assert(digits_value(d.take(k + 1)) == n * 10 + digit);
        if n > (u64::MAX - digit) / 10 {
            proof {
                if all_digits(d) {
                    lemma_prefix_value(d, k + 1);
                }
            }
            return None;
        }
        n = n * 10 + digit;
        i = i + 1;
    }
    assert(d.take(i - from) =~= d);
    Some(n)
}

} // verus!

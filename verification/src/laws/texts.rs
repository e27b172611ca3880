//! What the text operations do to characters.

use vstd::prelude::*;
use vstd::string::*;

use crate::text::{
    all_digits, decimal, digit_char, digits_value, first_at, is_digit, is_space, lowered, number,
    occurs, occurs_at, same_name, split_on, trim_end, trim_start, trimmed, unquoted,
    unsigned_digits, without_prefix, without_suffix,
};

verus! {

// --- case ----------------------------------------------------------------------------

/// Lower case changes the letters from `A` to `Z` and nothing else, each where it
/// stands.
pub proof fn lower_case_changes_ascii_letters_only(s: Seq<char>)
    ensures
        lowered(s).len() == s.len(),
        forall|i: int|
            0 <= i < s.len() ==> #[trigger] lowered(s)[i] as u32 == if 65 <= s[i] as u32 <= 90 {
                (s[i] as u32 + 32) as u32
            } else {
                s[i] as u32
            },
{
}

/// Two names are the same exactly when they agree at every place up to the case of
/// ASCII letters.
pub proof fn names_agree_up_to_ascii_case(a: Seq<char>, b: Seq<char>)
    ensures
        same_name(a, b) <==> a.len() == b.len() && forall|i: int|
            0 <= i < a.len() ==> #[trigger] a[i] == b[i] || (65 <= a[i] as u32 <= 90 && b[i] as u32
                == a[i] as u32 + 32) || (65 <= b[i] as u32 <= 90 && a[i] as u32 == b[i] as u32
                + 32),
{
    if same_name(a, b) {
        assert(lowered(a).len() == a.len() && lowered(b).len() == b.len());
        assert forall|i: int| 0 <= i < a.len() implies #[trigger] a[i] == b[i] || (65 <= a[i] as u32
            <= 90 && b[i] as u32 == a[i] as u32 + 32) || (65 <= b[i] as u32 <= 90 && a[i] as u32
            == b[i] as u32 + 32) by {
            assert(lowered(a)[i] == lowered(b)[i]);
        }
    } else if a.len() == b.len() && forall|i: int|
        0 <= i < a.len() ==> #[trigger] a[i] == b[i] || (65 <= a[i] as u32 <= 90 && b[i] as u32
            == a[i] as u32 + 32) || (65 <= b[i] as u32 <= 90 && a[i] as u32 == b[i] as u32 + 32) {
        assert forall|i: int| 0 <= i < a.len() implies lowered(a)[i] == lowered(b)[i] by {
            assert(a[i] == b[i] || (65 <= a[i] as u32 <= 90 && b[i] as u32 == a[i] as u32 + 32) || (
            65 <= b[i] as u32 <= 90 && a[i] as u32 == b[i] as u32 + 32));
        }
        assert(lowered(a) =~= lowered(b));
    }
}

// --- trimming ------------------------------------------------------------------------

proof fn lemma_start(s: Seq<char>, drop: spec_fn(char) -> bool) -> (n: int)
    ensures
        0 <= n <= s.len(),
        trim_start(s, drop) == s.skip(n),
        forall|k: int| 0 <= k < n ==> drop(#[trigger] s[k]),
        n < s.len() ==> !drop(s[n]),
    decreases s.len(),
{
    if s.len() > 0 && drop(s[0]) {
        let rest = s.skip(1);
        let n = lemma_start(rest, drop);
        assert(rest.skip(n) =~= s.skip(n + 1));
        assert forall|k: int| 0 <= k < n + 1 implies drop(#[trigger] s[k]) by {
            if k > 0 {
                assert(s[k] == rest[k - 1]);
            }
        }
        n + 1
    } else {
        assert(s.skip(0) =~= s);
        0
    }
}

proof fn lemma_end(s: Seq<char>, drop: spec_fn(char) -> bool) -> (n: int)
    ensures
        0 <= n <= s.len(),
        trim_end(s, drop) == s.take(n),
        forall|k: int| n <= k < s.len() ==> drop(#[trigger] s[k]),
        n > 0 ==> !drop(s[n - 1]),
    decreases s.len(),
{
    if s.len() > 0 && drop(s.last()) {
        let rest = s.drop_last();
        let n = lemma_end(rest, drop);
        assert(rest.take(n) =~= s.take(n));
        assert forall|k: int| n <= k < s.len() implies drop(#[trigger] s[k]) by {
            if k < s.len() - 1 {
                assert(s[k] == rest[k]);
            }
        }
        n
    } else {
        assert(s.take(s.len() as int) =~= s);
        s.len() as int
    }
}

proof fn lemma_both(s: Seq<char>, drop: spec_fn(char) -> bool) -> (cut: (int, int))
    ensures
        0 <= cut.0 <= cut.1 <= s.len(),
        trim_end(trim_start(s, drop), drop) == s.subrange(cut.0, cut.1),
        forall|k: int| 0 <= k < cut.0 || cut.1 <= k < s.len() ==> drop(#[trigger] s[k]),
        cut.0 < cut.1 ==> !drop(s[cut.0]) && !drop(s[cut.1 - 1]),
{
    let n = lemma_start(s, drop);
    let rest = s.skip(n);
    let m = lemma_end(rest, drop);
    assert(rest.take(m) =~= s.subrange(n, n + m));
    assert forall|k: int| n + m <= k < s.len() implies drop(#[trigger] s[k]) by {
        assert(s[k] == rest[k - n]);
    }
    if m > 0 {
        assert(rest[m - 1] == s[n + m - 1]);
    }
    (n, n + m)
}

/// Trimming takes white space off both ends, all of it, and nothing else: what is
/// left is one stretch of the text that begins and ends with something solid.
pub proof fn trimming_takes_white_space_off_both_ends(s: Seq<char>)
    ensures
        exists|from: int, to: int|
            {
                &&& 0 <= from <= to <= s.len()
                &&& trimmed(s) == #[trigger] s.subrange(from, to)
                &&& forall|k: int|
                    0 <= k < from || to <= k < s.len() ==> is_space(#[trigger] s[k])
                &&& from < to ==> !is_space(s[from]) && !is_space(s[to - 1])
            },
{
    let cut = lemma_both(s, |c: char| is_space(c));
    assert(trimmed(s) == s.subrange(cut.0, cut.1));
}

/// Unquoting takes double quotes off both ends, all of them, and nothing else.
pub proof fn unquoting_takes_quotes_off_both_ends(s: Seq<char>)
    ensures
        exists|from: int, to: int|
            {
                &&& 0 <= from <= to <= s.len()
                &&& unquoted(s) == #[trigger] s.subrange(from, to)
                &&& forall|k: int| 0 <= k < from || to <= k < s.len() ==> #[trigger] s[k] == '"'
                &&& from < to ==> s[from] != '"' && s[to - 1] != '"'
            },
{
    let cut = lemma_both(s, |c: char| c == '"');
    assert(unquoted(s) == s.subrange(cut.0, cut.1));
}

/// A text is trimmed to nothing exactly when it holds white space alone.
pub proof fn blank_text_trims_to_nothing(s: Seq<char>)
    ensures
        trimmed(s).len() == 0 <==> forall|k: int| 0 <= k < s.len() ==> is_space(#[trigger] s[k]),
{
    let cut = lemma_both(s, |c: char| is_space(c));
    if cut.0 < cut.1 {
        assert(!is_space(s[cut.0]));
    }
}

/// White space is what Unicode calls so: the space, the tab and the line breaks of
/// ASCII, and beyond it one more line break, sixteen spaces and two separators.
pub proof fn white_space(c: char)
    ensures
        (c as u32) < 128 ==> (is_space(c) <==> c == ' ' || 9 <= c as u32 <= 13),
        128 <= c as u32 ==> (is_space(c) <==> c == '\u{85}' || c == '\u{a0}' || c == '\u{1680}' || (
        '\u{2000}' <= c <= '\u{200a}') || c == '\u{2028}' || c == '\u{2029}' || c == '\u{202f}' || c
            == '\u{205f}' || c == '\u{3000}'),
{
}

// --- searching and splitting ---------------------------------------------------------

/// A text occurs in another exactly when that is the text with something before
/// and something behind it.
pub proof fn occurrence_is_a_stretch(hay: Seq<char>, needle: Seq<char>)
    ensures
        occurs(hay, needle) <==> exists|a: Seq<char>, b: Seq<char>|
            hay == #[trigger] (a + needle + b),
{
    if occurs(hay, needle) {
        let at = choose|at: int| occurs_at(hay, needle, at);
        let a = hay.take(at);
        let b = hay.skip(at + needle.len());
        assert(hay =~= a + needle + b);
    }
    if exists|a: Seq<char>, b: Seq<char>| hay == #[trigger] (a + needle + b) {
        let (a, b) = choose|a: Seq<char>, b: Seq<char>| hay == #[trigger] (a + needle + b);
        let at = a.len() as int;
        assert(hay.subrange(at, at + needle.len()) =~= needle);
        assert(occurs_at(hay, needle, at));
    }
}

/// What is left behind a prefix is what was put behind it.
pub proof fn prefix_is_what_stands_before(s: Seq<char>, prefix: Seq<char>, rest: Seq<char>)
    ensures
        without_prefix(s, prefix) == Some(rest) <==> s == prefix + rest,
{
    if without_prefix(s, prefix) == Some(rest) {
        assert(s =~= prefix + rest);
    }
    if s == prefix + rest {
        assert(s.subrange(0, prefix.len() as int) =~= prefix);
        assert(s.skip(prefix.len() as int) =~= rest);
    }
}

/// What is left before a suffix is what was put before it.
pub proof fn suffix_is_what_stands_behind(s: Seq<char>, suffix: Seq<char>, rest: Seq<char>)
    ensures
        without_suffix(s, suffix) == Some(rest) <==> s == rest + suffix,
{
    let at = s.len() - suffix.len();
    if without_suffix(s, suffix) == Some(rest) {
        assert(s =~= rest + suffix);
    }
    if s == rest + suffix {
        assert(s.subrange(at, at + suffix.len()) =~= suffix);
        assert(s.take(at) =~= rest);
    }
}

proof fn lemma_first(s: Seq<char>, sep: char, at: int)
    requires
        0 <= at <= s.len(),
        forall|j: int| 0 <= j < at ==> #[trigger] s[j] != sep,
        at == s.len() || s[at] == sep,
    ensures
        first_at(s, sep) == at,
    decreases s.len(),
{
    if s.len() > 0 && at > 0 {
        let rest = s.skip(1);
        assert(s[0] != sep);
        assert forall|j: int| 0 <= j < at - 1 implies #[trigger] rest[j] != sep by {
            assert(rest[j] == s[j + 1]);
        }
        lemma_first(rest, sep, at - 1);
    }
}

/// A piece without the separator stands first, and what follows the separator is
/// split in turn.
pub proof fn splitting_takes_pieces_in_order(piece: Seq<char>, sep: char, rest: Seq<char>)
    requires
        forall|j: int| 0 <= j < piece.len() ==> #[trigger] piece[j] != sep,
    ensures
        split_on(piece, sep) == seq![piece],
        split_on(piece.push(sep) + rest, sep) == seq![piece] + split_on(rest, sep),
{
    lemma_first(piece, sep, piece.len() as int);
    let whole = piece.push(sep) + rest;
    assert forall|j: int| 0 <= j < piece.len() implies #[trigger] whole[j] != sep by {
        assert(whole[j] == piece[j]);
    }
    assert(whole[piece.len() as int] == sep);
    lemma_first(whole, sep, piece.len() as int);
    assert(whole.take(piece.len() as int) =~= piece);
    assert(whole.skip(piece.len() as int + 1) =~= rest);
}

// --- numbers -------------------------------------------------------------------------

/// A numeral reads from left to right: one more digit makes ten times the value
/// and the digit.
pub proof fn numerals_are_positional(s: Seq<char>, d: int)
    requires
        0 <= d <= 9,
    ensures
        digits_value(Seq::empty()) == 0,
        digits_value(s.push((48 + d) as char)) == 10 * digits_value(s) + d,
{
    assert(s.push((48 + d) as char).drop_last() =~= s);
}

/// The numeral of a number is written in digits and denotes that number; only
/// zero's begins with a zero.
pub proof fn numeral_denotes_its_number(n: nat)
    ensures
        decimal(n).len() > 0,
        forall|i: int| 0 <= i < decimal(n).len() ==> '0' <= #[trigger] decimal(n)[i] <= '9',
        digits_value(decimal(n)) == n,
        n > 0 ==> decimal(n)[0] != '0',
    decreases n,
{
    if n >= 10 {
        numeral_denotes_its_number(n / 10);
        let short = decimal(n / 10);
        let last = digit_char(n % 10);
        assert(decimal(n) == short.push(last));
        assert(short.push(last).drop_last() =~= short);
        assert(short.push(last)[0] == short[0]);
        assert(last as u32 == n % 10 + 48);
        assert forall|i: int| 0 <= i < decimal(n).len() implies '0' <= #[trigger] decimal(n)[i]
            <= '9' by {
            if i < short.len() {
                assert(decimal(n)[i] == short[i]);
            }
        }
    } else {
        assert(decimal(n).drop_last() =~= Seq::empty());
        assert(digit_char(n) as u32 == n + 48);
        assert(digits_value(decimal(n).drop_last()) == 0);
    }
}

/// A number that is written down is read back.
pub proof fn written_number_is_read_back(n: u64)
    ensures
        number(decimal(n as nat)) == Some(n),
{
    numeral_denotes_its_number(n as nat);
    let s = decimal(n as nat);
    assert(s[0] != '+');
    assert forall|i: int| 0 <= i < s.len() implies is_digit(#[trigger] s[i]) by {
        assert('0' <= decimal(n as nat)[i] <= '9');
    }
}

/// A text is read as a number exactly when it is digits, with at most a plus sign
/// before them, and their value fits.
pub proof fn numbers_are_digits(s: Seq<char>)
    ensures
        number(s) is Some <==> exists|d: Seq<char>|
            {
                &&& #[trigger] d.len() > 0
                &&& s == d || s == seq!['+'] + d
                &&& forall|i: int| 0 <= i < d.len() ==> '0' <= #[trigger] d[i] <= '9'
                &&& digits_value(d) <= 0xffff_ffff_ffff_ffff
            },
        forall|d: Seq<char>|
            number(s) is Some && (s == d || s == #[trigger] (seq!['+'] + d)) && d.len() > 0 && d[0]
                != '+' ==> number(s)->Some_0 == digits_value(d),
{
    let d = unsigned_digits(s);
    if s.len() > 0 && s[0] == '+' {
        assert(s =~= seq!['+'] + d);
    }
    if number(s) is Some {
        assert forall|i: int| 0 <= i < d.len() implies '0' <= #[trigger] d[i] <= '9' by {
            assert(is_digit(d[i]));
        }
        assert(d.len() > 0);
    }
    if exists|d: Seq<char>|
        {
            &&& #[trigger] d.len() > 0
            &&& s == d || s == seq!['+'] + d
            &&& forall|i: int| 0 <= i < d.len() ==> '0' <= #[trigger] d[i] <= '9'
            &&& digits_value(d) <= 0xffff_ffff_ffff_ffff
        } {
        let e = choose|d: Seq<char>|
            {
                &&& #[trigger] d.len() > 0
                &&& s == d || s == seq!['+'] + d
                &&& forall|i: int| 0 <= i < d.len() ==> '0' <= #[trigger] d[i] <= '9'
                &&& digits_value(d) <= 0xffff_ffff_ffff_ffff
            };
        assert('0' <= e[0] <= '9');
        if s == e {
            assert(d == e);
        } else {
            assert(s[0] == '+');
            assert(d =~= e);
        }
        assert(all_digits(d)) by {
            assert forall|i: int| 0 <= i < d.len() implies is_digit(#[trigger] d[i]) by {
                assert('0' <= e[i] <= '9');
            }
        }
    }
    assert forall|e: Seq<char>|
        number(s) is Some && (s == e || s == #[trigger] (seq!['+'] + e)) && e.len() > 0 && e[0]
            != '+' implies number(s)->Some_0 == digits_value(e) by {
        if s == e {
            assert(d == e);
        } else {
            assert(s[0] == '+');
            assert(d =~= e);
        }
    }
}

} // verus!

//! Header fields.
//!
//! A request carries its headers as lines. What a signature covers is the field
//! value that all lines of a name make together.

use vstd::prelude::*;
use vstd::string::*;

use crate::text::{
    self, lowered, same_name, solid_edges_are_trimmed, trimmed, trimmed_edges_are_solid,
};
use crate::url::text_of;

verus! {

/// Names the covered components and the signature parameters.
pub const H_SIG_INPUT: &'static str = "signature-input";

/// Carries the signature.
pub const H_SIG: &'static str = "signature";

/// Conveys the signing key.
pub const H_SIG_KEY: &'static str = "signature-key";

// --- lines and fields ----------------------------------------------------------------

/// Whether `name` is one of the three AAuth signature headers.
pub open spec fn is_signature_header(name: Seq<char>) -> bool {
    same_name(name, H_SIG_INPUT@) || same_name(name, H_SIG@) || same_name(name, H_SIG_KEY@)
}

/// Whether a request presents an AAuth credential: any signature header.
pub open spec fn presents_credential(headers: Seq<(String, String)>) -> bool {
    exists|i: int| 0 <= i < headers.len() && is_signature_header((#[trigger] headers[i]).0@)
}

/// Whether a request presents an AAuth credential.
pub fn has_any_signature(headers: &[(String, String)]) -> (r: bool)
    ensures
        r == presents_credential(headers@),
{
    let mut i: usize = 0;
    while i < headers.len()
        invariant
            i <= headers@.len(),
            forall|j: int| 0 <= j < i ==> !is_signature_header((#[trigger] headers@[j]).0@),
        decreases headers@.len() - i,
    {
        let name = headers[i].0.as_str();
        if text::eq_ignore_case(name, H_SIG_INPUT) || text::eq_ignore_case(name, H_SIG)
            || text::eq_ignore_case(name, H_SIG_KEY) {
            assert(is_signature_header(headers@[i as int].0@));
            return true;
        }
        i = i + 1;
    }
    false
}

/// The trimmed values of a field's lines, in order.
pub open spec fn field_lines(headers: Seq<(String, String)>, name: Seq<char>) -> Seq<Seq<char>>
    decreases headers.len(),
{
    if headers.len() == 0 {
        Seq::empty()
    } else {
        let earlier = field_lines(headers.drop_last(), name);
        if same_name(headers.last().0@, name) {
            earlier.push(trimmed(headers.last().1@))
        } else {
            earlier
        }
    }
}

/// Values joined by a comma and a space.
pub open spec fn comma_joined(values: Seq<Seq<char>>) -> Seq<char>
    decreases values.len(),
{
    if values.len() == 0 {
        Seq::empty()
    } else if values.len() == 1 {
        values[0]
    } else {
        comma_joined(values.drop_last()) + ", "@ + values.last()
    }
}

/// The value of a header field as RFC 9421 reads it: the name is
/// case-insensitive, values are trimmed, several lines are joined by commas.
pub open spec fn field_of(headers: Seq<(String, String)>, name: Seq<char>) -> Option<Seq<char>> {
    if field_lines(headers, name).len() > 0 {
        Some(comma_joined(field_lines(headers, name)))
    } else {
        None
    }
}

/// The value of a header field as RFC 9421 reads it.
pub fn field_value(headers: &[(String, String)], name: &str) -> (r: Option<String>)
    ensures
        text_of(r) == field_of(headers@, name@),
{
    let mut value = String::new();
    let mut found = false;
    let mut i: usize = 0;
    assert(headers@.take(0) =~= Seq::empty());
    while i < headers.len()
        invariant
            i <= headers@.len(),
            found == (field_lines(headers@.take(i as int), name@).len() > 0),
            value@ == comma_joined(field_lines(headers@.take(i as int), name@)),
        decreases headers@.len() - i,
    {
        let ghost before = field_lines(headers@.take(i as int), name@);
        assert(headers@.take(i + 1).drop_last() =~= headers@.take(i as int));
        if text::eq_ignore_case(headers[i].0.as_str(), name) {
            let line = text::trim(headers[i].1.as_str());
            assert(before.push(line@).drop_last() =~= before);
            if found {
                value = value.concat(", ").concat(line.as_str());
            } else {
                value = line;
                found = true;
            }
        }
        i = i + 1;
    }
    assert(headers@.take(i as int) =~= headers@);
    if found {
        Some(value)
    } else {
        None
    }
}

/// The value of the first header of that name.
pub open spec fn first_header(headers: Seq<(String, String)>, target: Seq<char>) -> Option<
    Seq<char>,
>
    decreases headers.len(),
{
    if headers.len() == 0 {
        None
    } else if same_name(headers[0].0@, target) {
        Some(headers[0].1@)
    } else {
        first_header(headers.skip(1), target)
    }
}

/// The value of the first header of that name, in any case.
pub fn lookup_header<'a>(headers: &'a [(String, String)], target: &str) -> (r: Option<&'a str>)
    ensures
        match r {
            Some(v) => first_header(headers@, target@) == Some(v@),
            None => first_header(headers@, target@) is None,
        },
{
    let mut i: usize = 0;
    assert(headers@.skip(0) =~= headers@);
    while i < headers.len()
        invariant
            i <= headers@.len(),
            first_header(headers@, target@) == first_header(headers@.skip(i as int), target@),
        decreases headers@.len() - i,
    {
        assert(headers@.skip(i as int)[0] == headers@[i as int]);
        assert(headers@.skip(i as int).skip(1) =~= headers@.skip(i + 1));
        if text::eq_ignore_case(headers[i].0.as_str(), target) {
            return Some(headers[i].1.as_str());
        }
        i = i + 1;
    }
    None
}

/// The fields of a request, each under its name in lower case.
pub open spec fn field_map(headers: Seq<(String, String)>) -> Map<Seq<char>, Seq<char>> {
    Map::new(
        |name: Seq<char>| lowered(name) == name && field_of(headers, name) is Some,
        |name: Seq<char>| field_of(headers, name)->Some_0,
    )
}

/// The fields that a list of names and values holds, where the first value of a
/// name counts.
pub open spec fn listed_fields(fields: Seq<(String, String)>) -> Map<Seq<char>, Seq<char>> {
    Map::new(
        |name: Seq<char>| lowered(name) == name && first_header(fields, name) is Some,
        |name: Seq<char>| first_header(fields, name)->Some_0,
    )
}

proof fn lemma_lowered_twice(name: Seq<char>)
    ensures
        lowered(lowered(name)) == lowered(name),
{
    assert(lowered(lowered(name)) =~= lowered(name));
}

proof fn lemma_field_lines_by_case(
    headers: Seq<(String, String)>,
    a: Seq<char>,
    b: Seq<char>,
)
    requires
        same_name(a, b),
    ensures
        field_lines(headers, a) == field_lines(headers, b),
    decreases headers.len(),
{
    if headers.len() > 0 {
        lemma_field_lines_by_case(headers.drop_last(), a, b);
    }
}

proof fn lemma_field_lines_grow(headers: Seq<(String, String)>, name: Seq<char>, upto: int)
    requires
        0 <= upto <= headers.len(),
    ensures
        field_lines(headers.take(upto), name).len() <= field_lines(headers, name).len(),
    decreases headers.len(),
{
    if upto == headers.len() {
        assert(headers.take(upto) =~= headers);
    } else {
        assert(headers.drop_last().take(upto) =~= headers.take(upto));
        lemma_field_lines_grow(headers.drop_last(), name, upto);
    }
}

proof fn lemma_first_header_push(
    fields: Seq<(String, String)>,
    last: (String, String),
    name: Seq<char>,
)
    ensures
        first_header(fields.push(last), name) == if first_header(fields, name) is Some {
            first_header(fields, name)
        } else if same_name(last.0@, name) {
            Some(last.1@)
        } else {
            None
        },
    decreases fields.len(),
{
    let all = fields.push(last);
    if fields.len() == 0 {
        reveal_with_fuel(first_header, 2);
        assert(all.skip(1) =~= Seq::empty());
        assert(all[0] == last);
    } else {
        assert(all[0] == fields[0]);
        assert(all.skip(1) =~= fields.skip(1).push(last));
        lemma_first_header_push(fields.skip(1), last, name);
    }
}

/// The fields of a request, each once, under its name in lower case.
pub fn header_fields(headers: &[(String, String)]) -> (r: Vec<(String, String)>)
    ensures
        forall|name: Seq<char>| #[trigger] first_header(r@, name) == field_of(headers@, name),
        listed_fields(r@) == field_map(headers@),
{
    let mut fields: Vec<(String, String)> = Vec::new();
    let mut i: usize = 0;
    assert(headers@.take(0) =~= Seq::empty());
    while i < headers.len()
        invariant
            i <= headers@.len(),
            forall|name: Seq<char>| #[trigger]
                first_header(fields@, name) == if field_lines(headers@.take(i as int), name).len()
                    > 0 {
                    field_of(headers@, name)
                } else {
                    None
                },
        decreases headers@.len() - i,
    {
        let name = text::to_lower(headers[i].0.as_str());
        let ghost before = fields@;
        let ghost seen = headers@.take(i as int);
        let ghost next = headers@.take(i + 1);
        assert(next.drop_last() =~= seen);
        assert(next.last() == headers@[i as int]);
        proof {
            lemma_lowered_twice(headers@[i as int].0@);
            assert(field_lines(next, name@).len() > 0);
            lemma_field_lines_grow(headers@, name@, i + 1);
            lemma_field_lines_grow(headers@, name@, i as int);
            assert(first_header(before, name@) == first_header(fields@, name@));
        }
        if lookup_header(fields.as_slice(), name.as_str()).is_none() {
            let value = field_value(headers, name.as_str()).unwrap();
            fields.push((name, value));
        }
        proof {
            assert forall|n: Seq<char>| #[trigger]
                first_header(fields@, n) == if field_lines(next, n).len() > 0 {
                    field_of(headers@, n)
                } else {
                    None
                } by {
                assert(first_header(before, n) == if field_lines(seen, n).len() > 0 {
                    field_of(headers@, n)
                } else {
                    None
                });
                lemma_field_lines_grow(headers@, n, i as int);
                if fields@.len() > before.len() {
                    lemma_first_header_push(before, fields@.last(), n);
                    assert(fields@ =~= before.push(fields@.last()));
                }
                if same_name(name@, n) {
                    lemma_field_lines_by_case(seen, name@, n);
                    lemma_field_lines_by_case(next, name@, n);
                    lemma_field_lines_by_case(headers@, name@, n);
                }
            }
        }
        i = i + 1;
    }
    assert(headers@.take(i as int) =~= headers@);
    assert(listed_fields(fields@) =~= field_map(headers@)) by {
        assert forall|n: Seq<char>| #[trigger]
            listed_fields(fields@).contains_key(n) == field_map(headers@).contains_key(n) by {
            assert(first_header(fields@, n) == field_of(headers@, n));
        }
        assert forall|n: Seq<char>| #[trigger]
            listed_fields(fields@).contains_key(n) implies listed_fields(fields@)[n] == field_map(
            headers@,
        )[n] by {
            assert(first_header(fields@, n) == field_of(headers@, n));
        }
    }
    fields
}

// --- spelling ----------------------------------------------------------------------------

/// Whether two requests carry the same lines, up to the case of their names and
/// white space around their values.
pub open spec fn respelled(a: Seq<(String, String)>, b: Seq<(String, String)>) -> bool {
    &&& a.len() == b.len()
    &&& forall|i: int|
        0 <= i < a.len() ==> same_name((#[trigger] a[i]).0@, b[i].0@) && trimmed(a[i].1@)
            == trimmed(b[i].1@)
}

/// Whether `two` carries as two lines what `one` carries as its line `at`: the
/// two values, joined by a comma and a space, are the one.
pub open spec fn line_split(one: Seq<(String, String)>, two: Seq<(String, String)>, at: int) -> bool {
    &&& 0 <= at < one.len()
    &&& two.len() == one.len() + 1
    &&& two.take(at) == one.take(at)
    &&& two.skip(at + 2) == one.skip(at + 1)
    &&& same_name(two[at].0@, one[at].0@)
    &&& same_name(two[at + 1].0@, one[at].0@)
    &&& trimmed(one[at].1@) == trimmed(two[at].1@) + ", "@ + trimmed(two[at + 1].1@)
}

/// Whether two requests differ in spelling only, by one step.
pub open spec fn spelled_alike(a: Seq<(String, String)>, b: Seq<(String, String)>) -> bool {
    ||| respelled(a, b)
    ||| exists|at: int| line_split(a, b, at)
    ||| exists|at: int| line_split(b, a, at)
}

/// Whether each of the requests differs from the one before it in spelling only.
pub open spec fn spellings(chain: Seq<Seq<(String, String)>>) -> bool {
    &&& chain.len() > 0
    &&& forall|i: int|
        0 < i < chain.len() ==> spelled_alike(chain[i - 1], #[trigger] chain[i])
}

proof fn lemma_respelled(a: Seq<(String, String)>, b: Seq<(String, String)>, name: Seq<char>)
    requires
        respelled(a, b),
    ensures
        field_lines(a, name) == field_lines(b, name),
    decreases a.len(),
{
    if a.len() > 0 {
        assert(same_name(a[a.len() - 1].0@, b[a.len() - 1].0@));
        assert forall|i: int| 0 <= i < a.len() - 1 implies same_name(
            (#[trigger] a.drop_last()[i]).0@,
            b.drop_last()[i].0@,
        ) && trimmed(a.drop_last()[i].1@) == trimmed(b.drop_last()[i].1@) by {
            assert(same_name(a[i].0@, b[i].0@));
        }
        lemma_respelled(a.drop_last(), b.drop_last(), name);
    }
}

proof fn lemma_join_push(values: Seq<Seq<char>>, last: Seq<char>)
    ensures
        comma_joined(values.push(last)) == if values.len() == 0 {
            last
        } else {
            comma_joined(values) + ", "@ + last
        },
{
    assert(values.push(last).drop_last() =~= values);
}

proof fn lemma_split(
    one: Seq<(String, String)>,
    two: Seq<(String, String)>,
    at: int,
    name: Seq<char>,
)
    requires
        line_split(one, two, at),
    ensures
        field_of(one, name) == field_of(two, name),
        field_lines(one, name).len() == 0 <==> field_lines(two, name).len() == 0,
        comma_joined(field_lines(one, name)) == comma_joined(field_lines(two, name)),
    decreases one.len(),
{
    let n = one.len() as int;
    if at == n - 1 {
        reveal_with_fuel(field_lines, 3);
        let before = field_lines(one.drop_last(), name);
        assert(one.drop_last() =~= one.take(at));
        assert(two.drop_last().drop_last() =~= two.take(at));
        assert(two.last() == two[at + 1]);
        assert(two.drop_last().last() == two[at]);
        if same_name(one[at].0@, name) {
            let a = trimmed(two[at].1@);
            let b = trimmed(two[at + 1].1@);
            assert(field_lines(one, name) == before.push(a + ", "@ + b));
            assert(field_lines(two, name) == before.push(a).push(b));
            lemma_join_push(before, a + ", "@ + b);
            lemma_join_push(before, a);
            lemma_join_push(before.push(a), b);
            assert(comma_joined(before) + ", "@ + (a + ", "@ + b) =~= comma_joined(before) + ", "@
                + a + ", "@ + b);
        }
    } else {
        let x = one.drop_last();
        let y = two.drop_last();
        assert(y.take(at) =~= two.take(at));
        assert(x.take(at) =~= one.take(at));
        assert(two.last() == two.skip(at + 2)[n - at - 2]);
        assert(one.last() == one.skip(at + 1)[n - at - 2]);
        assert(y.skip(at + 2) =~= two.skip(at + 2).drop_last());
        assert(x.skip(at + 1) =~= one.skip(at + 1).drop_last());
        lemma_split(x, y, at, name);
        if same_name(one.last().0@, name) {
            lemma_join_push(field_lines(x, name), trimmed(one.last().1@));
            lemma_join_push(field_lines(y, name), trimmed(one.last().1@));
        }
    }
}

proof fn lemma_credential_in_fields(headers: Seq<(String, String)>)
    ensures
        presents_credential(headers) <==> field_of(headers, H_SIG_INPUT@) is Some || field_of(
            headers,
            H_SIG@,
        ) is Some || field_of(headers, H_SIG_KEY@) is Some,
    decreases headers.len(),
{
    if headers.len() > 0 {
        let rest = headers.drop_last();
        lemma_credential_in_fields(rest);
        if presents_credential(rest) {
            let i = choose|i: int|
                0 <= i < rest.len() && is_signature_header((#[trigger] rest[i]).0@);
            assert(is_signature_header(headers[i].0@));
        }
        if presents_credential(headers) && !is_signature_header(headers.last().0@) {
            let i = choose|i: int|
                0 <= i < headers.len() && is_signature_header((#[trigger] headers[i]).0@);
            assert(is_signature_header(rest[i].0@));
        }
        if is_signature_header(headers.last().0@) {
            assert(is_signature_header(headers[headers.len() - 1].0@));
        }
    }
}

/// The case of names, white space around values, and giving one line as two
/// leave every field of a request as it was, however often they occur, and with
/// them whether it presents a credential.
pub proof fn spelling_leaves_the_fields(chain: Seq<Seq<(String, String)>>, name: Seq<char>)
    requires
        spellings(chain),
    ensures
        field_of(chain.last(), name) == field_of(chain.first(), name),
        field_map(chain.last()) == field_map(chain.first()),
        presents_credential(chain.last()) == presents_credential(chain.first()),
    decreases chain.len(),
{
    if chain.len() > 1 {
        let a = chain[chain.len() - 2];
        let b = chain[chain.len() - 1];
        let rest = chain.drop_last();
        assert forall|i: int| 0 < i < rest.len() implies spelled_alike(
            rest[i - 1],
            #[trigger] rest[i],
        ) by {
            assert(spelled_alike(chain[i - 1], chain[i]));
        }
        spelling_leaves_the_fields(rest, name);
        assert(rest.last() == a);
        assert(rest.first() == chain.first());
        assert(spelled_alike(chain[chain.len() - 2], chain[chain.len() - 1]));
        assert forall|n: Seq<char>| #[trigger] field_of(a, n) == field_of(b, n) by {
            if respelled(a, b) {
                lemma_respelled(a, b, n);
            } else if exists|at: int| line_split(a, b, at) {
                lemma_split(a, b, choose|at: int| line_split(a, b, at), n);
            } else {
                lemma_split(b, a, choose|at: int| line_split(b, a, at), n);
            }
        }
        assert(field_of(a, name) == field_of(b, name));
        assert(field_map(a) =~= field_map(b)) by {
            assert forall|n: Seq<char>| #[trigger]
                field_map(a).contains_key(n) == field_map(b).contains_key(n) by {
                assert(field_of(a, n) == field_of(b, n));
            }
            assert forall|n: Seq<char>| #[trigger]
                field_map(a).contains_key(n) implies field_map(a)[n] == field_map(b)[n] by {
                assert(field_of(a, n) == field_of(b, n));
            }
        }
        lemma_credential_in_fields(a);
        lemma_credential_in_fields(b);
        assert(field_of(a, H_SIG_INPUT@) == field_of(b, H_SIG_INPUT@));
        assert(field_of(a, H_SIG@) == field_of(b, H_SIG@));
        assert(field_of(a, H_SIG_KEY@) == field_of(b, H_SIG_KEY@));
    }
}

/// A line whose value is `a, b`, where neither part has white space around it and
/// the second is not empty, may be given as a line with `a` and a line with `b`.
pub proof fn list_may_be_given_as_two_lines(
    one: Seq<(String, String)>,
    two: Seq<(String, String)>,
    at: int,
)
    requires
        0 <= at < one.len(),
        two.len() == one.len() + 1,
        two.take(at) == one.take(at),
        two.skip(at + 2) == one.skip(at + 1),
        same_name(two[at].0@, one[at].0@),
        same_name(two[at + 1].0@, one[at].0@),
        trimmed(two[at].1@) == two[at].1@,
        trimmed(two[at + 1].1@) == two[at + 1].1@,
        two[at + 1].1@.len() > 0,
        one[at].1@ == two[at].1@ + ", "@ + two[at + 1].1@,
    ensures
        line_split(one, two, at),
        spelled_alike(one, two),
{
    reveal_strlit(", ");
    let a = two[at].1@;
    let b = two[at + 1].1@;
    let v = one[at].1@;
    trimmed_edges_are_solid(b);
    if a.len() > 0 {
        trimmed_edges_are_solid(a);
        assert(v[0] == a[0]);
    } else {
        assert(v[0] == ',');
    }
    assert(v.last() == b.last());
    solid_edges_are_trimmed(v);
    assert(line_split(one, two, at));
}

} // verus!

//! What the header lines of a request amount to.

use vstd::prelude::*;
use vstd::string::*;

use crate::headers::{
    comma_joined, field_lines, field_map, field_of, first_header, presents_credential,
};
use crate::text::{lowered, trimmed};

verus! {

/// A request presents a credential exactly when one of its headers, wherever it
/// stands and in whatever case, is one of the three that a signature needs.
pub proof fn signature_headers_present_a_credential(headers: Seq<(String, String)>)
    ensures
        presents_credential(headers) <==> exists|i: int|
            0 <= i < headers.len() && (lowered((#[trigger] headers[i]).0@) == "signature"@
                || lowered(headers[i].0@) == "signature-input"@ || lowered(headers[i].0@)
                == "signature-key"@),
{
    reveal_strlit("signature");
    reveal_strlit("signature-input");
    reveal_strlit("signature-key");
    assert(lowered("signature"@) =~= "signature"@);
    assert(lowered("signature-input"@) =~= "signature-input"@);
    assert(lowered("signature-key"@) =~= "signature-key"@);
    if exists|i: int|
        0 <= i < headers.len() && (lowered((#[trigger] headers[i]).0@) == "signature"@ || lowered(
            headers[i].0@,
        ) == "signature-input"@ || lowered(headers[i].0@) == "signature-key"@) {
        let i = choose|i: int|
            0 <= i < headers.len() && (lowered((#[trigger] headers[i]).0@) == "signature"@
                || lowered(headers[i].0@) == "signature-input"@ || lowered(headers[i].0@)
                == "signature-key"@);
        assert(crate::headers::is_signature_header(headers[i].0@));
    }
    if presents_credential(headers) {
        let i = choose|i: int|
            0 <= i < headers.len() && crate::headers::is_signature_header(
                (#[trigger] headers[i]).0@,
            );
        assert(lowered(headers[i].0@) == "signature"@ || lowered(headers[i].0@)
            == "signature-input"@ || lowered(headers[i].0@) == "signature-key"@);
    }
}

/// A request without headers has no field.
pub proof fn no_headers_no_field(name: Seq<char>)
    ensures
        field_of(Seq::empty(), name) is None,
{
}

/// One more line of a field stands behind the others, with a comma and a space
/// between; a line of another field changes nothing. White space around the line's
/// value and the case of its name do not count.
pub proof fn one_more_line(
    headers: Seq<(String, String)>,
    line: (String, String),
    name: Seq<char>,
)
    ensures
        lowered(line.0@) != lowered(name) ==> field_of(headers.push(line), name) == field_of(
            headers,
            name,
        ),
        lowered(line.0@) == lowered(name) ==> field_of(headers.push(line), name) == match field_of(
            headers,
            name,
        ) {
            Some(value) => Some(value + ", "@ + trimmed(line.1@)),
            None => Some(trimmed(line.1@)),
        },
{
    let all = headers.push(line);
    assert(all.drop_last() =~= headers);
    let lines = field_lines(headers, name);
    if lowered(line.0@) == lowered(name) {
        let more = lines.push(trimmed(line.1@));
        assert(field_lines(all, name) == more);
        assert(more.drop_last() =~= lines);
        if lines.len() == 0 {
            assert(comma_joined(more) == more[0]);
        } else {
            assert(comma_joined(more) == comma_joined(lines) + ", "@ + more.last());
        }
    }
}

/// The fields of a request are those that its lines name, in lower case, each with
/// its value.
pub proof fn fields_are_those_of_the_lines(headers: Seq<(String, String)>, name: Seq<char>)
    ensures
        field_map(headers).contains_key(name) ==> lowered(name) == name && field_of(headers, name)
            == Some(field_map(headers)[name]),
        lowered(name) == name && field_of(headers, name) is Some ==> field_map(
            headers,
        ).contains_key(name),
{
}

/// The first header of a name is found, in whatever case, with its value as it
/// stands.
pub proof fn first_header_is_found(headers: Seq<(String, String)>, name: Seq<char>, i: int)
    requires
        0 <= i < headers.len(),
        lowered(headers[i].0@) == lowered(name),
        forall|j: int| 0 <= j < i ==> lowered((#[trigger] headers[j]).0@) != lowered(name),
    ensures
        first_header(headers, name) == Some(headers[i].1@),
    decreases i,
{
    if i > 0 {
        let rest = headers.skip(1);
        assert(lowered(headers[0].0@) != lowered(name));
        assert(rest[i - 1] == headers[i]);
        assert forall|j: int| 0 <= j < i - 1 implies lowered((#[trigger] rest[j]).0@) != lowered(
            name,
        ) by {
            assert(rest[j] == headers[j + 1]);
        }
        first_header_is_found(rest, name, i - 1);
    }
}

/// Where no header has the name, none is found.
pub proof fn absent_header_is_not_found(headers: Seq<(String, String)>, name: Seq<char>)
    requires
        forall|j: int|
            0 <= j < headers.len() ==> lowered((#[trigger] headers[j]).0@) != lowered(name),
    ensures
        first_header(headers, name) is None,
    decreases headers.len(),
{
    if headers.len() > 0 {
        let rest = headers.skip(1);
        assert(lowered(headers[0].0@) != lowered(name));
        assert forall|j: int| 0 <= j < rest.len() implies lowered((#[trigger] rest[j]).0@)
            != lowered(name) by {
            assert(rest[j] == headers[j + 1]);
        }
        absent_header_is_not_found(rest, name);
    }
}

} // verus!

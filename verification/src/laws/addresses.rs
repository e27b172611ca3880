//! Which addresses may be the target of a fetch, octet by octet.

use vstd::prelude::*;

use crate::ip::{is_mapped, is_public, unmapped, IpAddr};

verus! {

/// An IPv4 address is public exactly when its octets put it in none of the blocks
/// that are private, local, shared, set aside for documentation or benchmarks, or
/// reserved.
pub proof fn public_v4_octets(o: [u8; 4])
    ensures
        is_public(IpAddr::V4(o)) <==> {
            &&& o@[0] != 0 && o@[0] != 10 && o@[0] != 127 && o@[0] < 240
            &&& o@[0] == 100 ==> o@[1] < 64 || o@[1] > 127
            &&& o@[0] == 169 ==> o@[1] != 254
            &&& o@[0] == 172 ==> o@[1] < 16 || o@[1] > 31
            &&& o@[0] == 192 && o@[1] == 0 ==> o@[2] != 0 && o@[2] != 2
            &&& o@[0] == 192 ==> o@[1] != 168
            &&& o@[0] == 198 ==> o@[1] != 18 && o@[1] != 19
            &&& o@[0] == 198 && o@[1] == 51 ==> o@[2] != 100
            &&& o@[0] == 203 && o@[1] == 0 ==> o@[2] != 113
        },
{
}

/// An IPv6 address that holds no IPv4 address is public exactly when it is global
/// unicast and in none of the parts of that space that are set aside.
pub proof fn public_v6_segments(s: [u16; 8])
    requires
        !(s@[0] == 0 && s@[1] == 0 && s@[2] == 0 && s@[3] == 0 && s@[4] == 0 && s@[5] == 0xffff),
    ensures
        is_public(IpAddr::V6(s)) <==> {
            &&& s@[0] / 0x2000 == 1
            &&& s@[0] != 0x2002
            &&& s@[0] == 0x2001 ==> s@[1] != 0 && s@[1] != 0xdb8
            &&& s@[0] == 0x2001 && s@[1] == 2 ==> s@[2] != 0
            &&& s@[0] == 0x3fff ==> s@[1] / 0x1000 > 0
        },
{
    assert(!is_mapped(s@));
}

/// The form `::ffff:a.b.c.d` of an IPv4 address is judged as `a.b.c.d`.
pub proof fn disguised_v4_is_judged_as_v4(o: [u8; 4], s: [u16; 8])
    requires
        s@[0] == 0 && s@[1] == 0 && s@[2] == 0 && s@[3] == 0 && s@[4] == 0 && s@[5] == 0xffff,
        s@[6] == o@[0] * 256 + o@[1],
        s@[7] == o@[2] * 256 + o@[3],
    ensures
        is_public(IpAddr::V6(s)) == is_public(IpAddr::V4(o)),
{
    assert(unmapped(s@) =~= o@);
}

} // verus!

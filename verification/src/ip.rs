//! Which addresses may be the target of a fetch.

use vstd::prelude::*;

verus! {

/// An IP address.
#[derive(Debug, Clone, Copy, PartialEq, Eq)]
pub enum IpAddr {
    /// The four octets.
    V4([u8; 4]),
    /// The eight segments.
    V6([u16; 8]),
}

/// An IPv4 address as a number.
pub open spec fn v4_number(o: Seq<u8>) -> int {
    o[0] * 0x100_0000 + o[1] * 0x1_0000 + o[2] * 0x100 + o[3]
}

/// Whether an IPv4 address lies in the block `a.b.c.0/prefix`, where the block
/// holds `size` addresses.
pub open spec fn v4_in(o: Seq<u8>, a: int, b: int, c: int, size: int) -> bool {
    let base = a * 0x100_0000 + b * 0x1_0000 + c * 0x100;
    base <= v4_number(o) < base + size
}

/// Whether an IPv4 address is special: not reachable on the public Internet,
/// or reserved.
pub open spec fn v4_special(o: Seq<u8>) -> bool {
    // 0.0.0.0/8: this network
    ||| v4_in(o, 0, 0, 0, 0x100_0000)
    // 10.0.0.0/8: private
    ||| v4_in(o, 10, 0, 0, 0x100_0000)
    // 100.64.0.0/10: carrier-grade NAT
    ||| v4_in(o, 100, 64, 0, 0x40_0000)
    // 127.0.0.0/8: loopback
    ||| v4_in(o, 127, 0, 0, 0x100_0000)
    // 169.254.0.0/16: link-local
    ||| v4_in(o, 169, 254, 0, 0x1_0000)
    // 172.16.0.0/12: private
    ||| v4_in(o, 172, 16, 0, 0x10_0000)
    // 192.0.0.0/24: protocol assignments
    ||| v4_in(o, 192, 0, 0, 0x100)
    // 192.0.2.0/24: documentation
    ||| v4_in(o, 192, 0, 2, 0x100)
    // 192.168.0.0/16: private
    ||| v4_in(o, 192, 168, 0, 0x1_0000)
    // 198.18.0.0/15: benchmarking
    ||| v4_in(o, 198, 18, 0, 0x2_0000)
    // 198.51.100.0/24: documentation
    ||| v4_in(o, 198, 51, 100, 0x100)
    // 203.0.113.0/24: documentation
    ||| v4_in(o, 203, 0, 113, 0x100)
    // 240.0.0.0/4: reserved, broadcast among it
    ||| v4_in(o, 240, 0, 0, 0x1000_0000)
}

/// Whether an IPv6 address is special: not global unicast, or in a part of that
/// space that is set aside. Two of those parts embed an IPv4 address, which a
/// gateway may unwrap.
pub open spec fn v6_special(s: Seq<u16>) -> bool {
    // outside 2000::/3: unspecified, loopback, IPv4-compatible, NAT64, unique
    // local, link-local, multicast, and all that is reserved
    ||| s[0] < 0x2000
    ||| 0x3fff < s[0]
    // 2001::/32: Teredo
    ||| (s[0] == 0x2001 && s[1] == 0)
    // 2001:2::/48: benchmarking
    ||| (s[0] == 0x2001 && s[1] == 2 && s[2] == 0)
    // 2001:db8::/32: documentation
    ||| (s[0] == 0x2001 && s[1] == 0xdb8)
    // 2002::/16: 6to4
    ||| s[0] == 0x2002
    // 3fff::/20: documentation
    ||| (s[0] == 0x3fff && s[1] < 0x1000)
}

/// Whether an IPv6 address is an IPv4 address in disguise: `::ffff:a.b.c.d`.
pub open spec fn is_mapped(s: Seq<u16>) -> bool {
    s[0] == 0 && s[1] == 0 && s[2] == 0 && s[3] == 0 && s[4] == 0 && s[5] == 0xffff
}

/// The IPv4 address inside a mapped address.
pub open spec fn unmapped(s: Seq<u16>) -> Seq<u8> {
    seq![
        (s[6] / 0x100) as u8,
        (s[6] % 0x100) as u8,
        (s[7] / 0x100) as u8,
        (s[7] % 0x100) as u8,
    ]
}

/// Whether an address may be the target of a fetch.
pub open spec fn is_public(ip: IpAddr) -> bool {
    match ip {
        IpAddr::V4(o) => !v4_special(o@),
        IpAddr::V6(s) => if is_mapped(s@) {
            !v4_special(unmapped(s@))
        } else {
            !v6_special(s@)
        },
    }
}

fn v4_is_public(a: u8, b: u8, c: u8, d: u8) -> (r: bool)
    ensures
        r == !v4_special(seq![a, b, c, d]),
{
    proof {
        let o = seq![a, b, c, d];
        assert(o[0] == a && o[1] == b && o[2] == c && o[3] == d);
    }
    !(a == 127 || a == 10 || (a == 172 && 16 <= b && b <= 31) || (a == 192 && b == 168) || (a == 169
        && b == 254) || (a == 192 && b == 0 && c == 2) || (a == 198 && b == 51 && c == 100) || (a
        == 203 && b == 0 && c == 113) || a == 0 || (a == 100 && 64 <= b && b <= 127) || (a == 192
        && b == 0 && c == 0) || (a == 198 && 18 <= b && b <= 19) || a >= 240)
}

/// Whether an address may be the target of a fetch. A mapped IPv4 address is
/// judged as the IPv4 address that it is.
pub fn ip_is_public(ip: IpAddr) -> (r: bool)
    ensures
        r == is_public(ip),
{
    match ip {
        IpAddr::V4(o) => {
            assert(o@ =~= seq![o@[0], o@[1], o@[2], o@[3]]);
            v4_is_public(o[0], o[1], o[2], o[3])
        },
        IpAddr::V6(s) => {
            if s[0] == 0 && s[1] == 0 && s[2] == 0 && s[3] == 0 && s[4] == 0 && s[5] == 0xffff {
                v4_is_public(
                    (s[6] / 0x100) as u8,
                    (s[6] % 0x100) as u8,
                    (s[7] / 0x100) as u8,
                    (s[7] % 0x100) as u8,
                )
            } else {
                !(s[0] < 0x2000 || s[0] > 0x3fff || (s[0] == 0x2001 && s[1] == 0x0db8) || (s[0]
                    == 0x3fff && s[1] < 0x1000) || (s[0] == 0x2001 && s[1] == 2 && s[2] == 0)
                    || s[0] == 0x2002 || (s[0] == 0x2001 && s[1] == 0))
            }
        },
    }
}

/// An IPv4 address cannot slip through in its mapped form: that is public
/// exactly when the address itself is.
pub proof fn mapped_address_is_judged_as_v4(o: [u8; 4], s: [u16; 8])
    requires
        is_mapped(s@),
        s@[6] == o@[0] * 0x100 + o@[1],
        s@[7] == o@[2] * 0x100 + o@[3],
    ensures
        is_public(IpAddr::V6(s)) == is_public(IpAddr::V4(o)),
{
    assert(unmapped(s@) =~= o@);
}

/// Every fetch target is global unicast: whatever else IPv6 sets aside, loopback,
/// unique local, link-local, multicast, translated and reserved addresses among
/// it, is refused.
pub proof fn public_v6_is_global_unicast(s: [u16; 8])
    requires
        is_public(IpAddr::V6(s)),
        !is_mapped(s@),
    ensures
        0x2000 <= s@[0] <= 0x3fff,
{
}

} // verus!

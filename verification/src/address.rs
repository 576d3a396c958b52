//! The address guard: which resolved addresses the proxy refuses to contact.

use vstd::prelude::*;

verus! {

/// A resolved network address, as plain numbers: the four octets of an IPv4
/// address or the eight 16-bit groups of an IPv6 address, most significant
/// first.
#[derive(Clone, Copy, Debug, PartialEq, Eq)]
pub enum IpAddress {
    V4(u8, u8, u8, u8),
    V6(u16, u16, u16, u16, u16, u16, u16, u16),
}

/// 127.0.0.0/8.
pub open spec fn v4_loopback(a: u8, b: u8, c: u8, d: u8) -> bool {
    a == 127
}

/// 10.0.0.0/8, 172.16.0.0/12 and 192.168.0.0/16.
pub open spec fn v4_private(a: u8, b: u8, c: u8, d: u8) -> bool {
    a == 10 || (a == 172 && 16 <= b <= 31) || (a == 192 && b == 168)
}

/// 169.254.0.0/16.
pub open spec fn v4_link_local(a: u8, b: u8, c: u8, d: u8) -> bool {
    a == 169 && b == 254
}

/// 224.0.0.0/4.
pub open spec fn v4_multicast(a: u8, b: u8, c: u8, d: u8) -> bool {
    224 <= a <= 239
}

/// 255.255.255.255.
pub open spec fn v4_broadcast(a: u8, b: u8, c: u8, d: u8) -> bool {
    a == 255 && b == 255 && c == 255 && d == 255
}

/// 0.0.0.0.
pub open spec fn v4_unspecified(a: u8, b: u8, c: u8, d: u8) -> bool {
    a == 0 && b == 0 && c == 0 && d == 0
}

impl IpAddress {
    /// Whether the proxy must not contact this address.
    ///
    /// IPv4: loopback, private, link-local, multicast, broadcast or
    /// unspecified. IPv6: loopback (`::1`), multicast (`ff00::/8`) or
    /// unspecified (`::`).
    pub open spec fn forbidden(self) -> bool {
        match self {
            IpAddress::V4(a, b, c, d) => {
                ||| v4_loopback(a, b, c, d)
                ||| v4_private(a, b, c, d)
                ||| v4_link_local(a, b, c, d)
                ||| v4_multicast(a, b, c, d)
                ||| v4_broadcast(a, b, c, d)
                ||| v4_unspecified(a, b, c, d)
            },
            IpAddress::V6(g0, g1, g2, g3, g4, g5, g6, g7) => {
                let high_zero = g0 == 0 && g1 == 0 && g2 == 0 && g3 == 0 && g4 == 0 && g5 == 0
                    && g6 == 0;
                ||| (high_zero && g7 == 1)
                ||| g0 >= 0xff00
                ||| (high_zero && g7 == 0)
            },
        }
    }

    /// Classifies one address.
    pub fn is_forbidden(&self) -> (r: bool)
        ensures
            r == self.forbidden(),
    {
        match *self {
            IpAddress::V4(a, b, c, d) => {
                let loopback = a == 127;
                let private = a == 10 || (a == 172 && b >= 16 && b <= 31) || (a == 192 && b
                    == 168);
                let link_local = a == 169 && b == 254;
                let multicast = a >= 224 && a <= 239;
                let broadcast = a == 255 && b == 255 && c == 255 && d == 255;
                let unspecified = a == 0 && b == 0 && c == 0 && d == 0;
                loopback || private || link_local || multicast || broadcast || unspecified
            },
            IpAddress::V6(g0, g1, g2, g3, g4, g5, g6, g7) => {
                let high_zero = g0 == 0 && g1 == 0 && g2 == 0 && g3 == 0 && g4 == 0 && g5 == 0
                    && g6 == 0;
                (high_zero && g7 <= 1) || g0 >= 0xff00
            },
        }
    }
}

/// Some address of the list is forbidden.
pub open spec fn any_forbidden(addresses: Seq<IpAddress>) -> bool {
    exists|i: int| 0 <= i < addresses.len() && (#[trigger] addresses[i]).forbidden()
}

/// Applies the guard to every resolved address: one forbidden address is
/// enough to refuse the whole list.
pub fn has_forbidden(addresses: &Vec<IpAddress>) -> (r: bool)
    ensures
        r == any_forbidden(addresses@),
{
    let mut i: usize = 0;
    while i < addresses.len()
        invariant
            i <= addresses.len(),
            forall|j: int| 0 <= j < i ==> !(#[trigger] addresses@[j]).forbidden(),
        decreases addresses.len() - i,
    {
        if addresses[i].is_forbidden() {
            return true;
        }
        i += 1;
    }
    false
}

} // verus!

//! IP address and network values, with the address-range predicates that
//! the target policy and the DNS stage decide by.

use vstd::prelude::*;

use crate::text::{decimal, decimal_exec, push_str};

verus! {

/// An IPv4 address, by its four octets.
#[derive(Debug, Clone, Copy, PartialEq, Eq, Hash, Structural)]
pub struct Ipv4Addr {
    pub a: u8,
    pub b: u8,
    pub c: u8,
    pub d: u8,
}

/// An IPv6 address, by its eight 16-bit segments.
#[derive(Debug, Clone, Copy, PartialEq, Eq, Hash, Structural)]
pub struct Ipv6Addr {
    pub s0: u16,
    pub s1: u16,
    pub s2: u16,
    pub s3: u16,
    pub s4: u16,
    pub s5: u16,
    pub s6: u16,
    pub s7: u16,
}

/// An IP address of either family.
#[derive(Debug, Clone, Copy, PartialEq, Eq, Hash, Structural)]
pub enum IpAddr {
    V4(Ipv4Addr),
    V6(Ipv6Addr),
}

/// The error of parsing an IP address from text.
#[derive(Debug, Clone, Copy, PartialEq, Eq, Structural)]
pub struct AddrParseError;

impl Ipv4Addr {
    pub fn new(a: u8, b: u8, c: u8, d: u8) -> (r: Ipv4Addr)
        ensures
            r == (Ipv4Addr { a, b, c, d }),
    {
        Ipv4Addr { a, b, c, d }
    }

    /// The address as a 32-bit big-endian number.
    pub open spec fn bits(self) -> u32 {
        ((self.a as u32) * 0x100_0000 + (self.b as u32) * 0x1_0000 + (self.c as u32) * 0x100 + (
        self.d as u32)) as u32
    }

    pub fn to_bits(&self) -> (r: u32)
        ensures
            r == self.bits(),
    {
        (self.a as u32) * 0x100_0000 + (self.b as u32) * 0x1_0000 + (self.c as u32) * 0x100 + (
        self.d as u32)
    }

    /// 10.0.0.0/8, 172.16.0.0/12 and 192.168.0.0/16.
    pub open spec fn spec_is_private(self) -> bool {
        ||| self.a == 10
        ||| self.a == 172 && 16 <= self.b <= 31
        ||| self.a == 192 && self.b == 168
    }

    /// 127.0.0.0/8.
    pub open spec fn spec_is_loopback(self) -> bool {
        self.a == 127
    }

    /// 169.254.0.0/16.
    pub open spec fn spec_is_link_local(self) -> bool {
        self.a == 169 && self.b == 254
    }

    /// 224.0.0.0/4.
    pub open spec fn spec_is_multicast(self) -> bool {
        224 <= self.a <= 239
    }

    /// 0.0.0.0.
    pub open spec fn spec_is_unspecified(self) -> bool {
        self.a == 0 && self.b == 0 && self.c == 0 && self.d == 0
    }

    /// 255.255.255.255.
    pub open spec fn spec_is_broadcast(self) -> bool {
        self.a == 255 && self.b == 255 && self.c == 255 && self.d == 255
    }

    pub fn is_private(&self) -> (r: bool)
        ensures
            r == self.spec_is_private(),
    {
        self.a == 10 || (self.a == 172 && 16 <= self.b && self.b <= 31) || (self.a == 192 && self.b
            == 168)
    }

    pub fn is_loopback(&self) -> (r: bool)
        ensures
            r == self.spec_is_loopback(),
    {
        self.a == 127
    }

    pub fn is_link_local(&self) -> (r: bool)
        ensures
            r == self.spec_is_link_local(),
    {
        self.a == 169 && self.b == 254
    }

    pub fn is_multicast(&self) -> (r: bool)
        ensures
            r == self.spec_is_multicast(),
    {
        224 <= self.a && self.a <= 239
    }

    pub fn is_unspecified(&self) -> (r: bool)
        ensures
            r == self.spec_is_unspecified(),
    {
        self.a == 0 && self.b == 0 && self.c == 0 && self.d == 0
    }

    pub fn is_broadcast(&self) -> (r: bool)
        ensures
            r == self.spec_is_broadcast(),
    {
        self.a == 255 && self.b == 255 && self.c == 255 && self.d == 255
    }
}

impl Ipv6Addr {
    pub fn new(s0: u16, s1: u16, s2: u16, s3: u16, s4: u16, s5: u16, s6: u16, s7: u16) -> (r:
        Ipv6Addr)
        ensures
            r == (Ipv6Addr { s0, s1, s2, s3, s4, s5, s6, s7 }),
    {
        Ipv6Addr { s0, s1, s2, s3, s4, s5, s6, s7 }
    }

    pub open spec fn segments(self) -> Seq<u16> {
        seq![self.s0, self.s1, self.s2, self.s3, self.s4, self.s5, self.s6, self.s7]
    }

    /// The address as a 128-bit big-endian number.
    pub open spec fn bits(self) -> u128 {
        ((self.s0 as u128) * 0x1_0000_0000_0000_0000_0000_0000_0000 + (self.s1 as u128)
            * 0x1_0000_0000_0000_0000_0000_0000 + (self.s2 as u128) * 0x1_0000_0000_0000_0000_0000
            + (self.s3 as u128) * 0x1_0000_0000_0000_0000 + (self.s4 as u128) * 0x1_0000_0000_0000
            + (self.s5 as u128) * 0x1_0000_0000 + (self.s6 as u128) * 0x1_0000 + (
        self.s7 as u128)) as u128
    }

    pub fn to_bits(&self) -> (r: u128)
        ensures
            r == self.bits(),
    {
        (self.s0 as u128) * 0x1_0000_0000_0000_0000_0000_0000_0000 + (self.s1 as u128)
            * 0x1_0000_0000_0000_0000_0000_0000 + (self.s2 as u128) * 0x1_0000_0000_0000_0000_0000
            + (self.s3 as u128) * 0x1_0000_0000_0000_0000 + (self.s4 as u128) * 0x1_0000_0000_0000
            + (self.s5 as u128) * 0x1_0000_0000 + (self.s6 as u128) * 0x1_0000 + (self.s7 as u128)
    }

    /// `::a.b.c.d` and `::ffff:a.b.c.d` become `a.b.c.d`; every other address has no
    /// IPv4 form (`Ipv6Addr::to_ipv4`).
    pub open spec fn spec_to_ipv4(self) -> Option<Ipv4Addr> {
        if self.s0 == 0 && self.s1 == 0 && self.s2 == 0 && self.s3 == 0 && self.s4 == 0 && (
        self.s5 == 0 || self.s5 == 0xffff) {
            Some(
                Ipv4Addr {
                    a: (self.s6 / 256) as u8,
                    b: (self.s6 % 256) as u8,
                    c: (self.s7 / 256) as u8,
                    d: (self.s7 % 256) as u8,
                },
            )
        } else {
            None
        }
    }

    pub fn to_ipv4(&self) -> (r: Option<Ipv4Addr>)
        ensures
            r == self.spec_to_ipv4(),
    {
        if self.s0 == 0 && self.s1 == 0 && self.s2 == 0 && self.s3 == 0 && self.s4 == 0 && (self.s5
            == 0 || self.s5 == 0xffff) {
            Some(
                Ipv4Addr {
                    a: (self.s6 / 256) as u8,
                    b: (self.s6 % 256) as u8,
                    c: (self.s7 / 256) as u8,
                    d: (self.s7 % 256) as u8,
                },
            )
        } else {
            None
        }
    }

    /// fc00::/7.
    pub open spec fn spec_is_unique_local(self) -> bool {
        0xfc00 <= self.s0 <= 0xfdff
    }

    /// fe80::/10.
    pub open spec fn spec_is_unicast_link_local(self) -> bool {
        0xfe80 <= self.s0 <= 0xfebf
    }

    /// ff00::/8.
    pub open spec fn spec_is_multicast(self) -> bool {
        self.s0 >= 0xff00
    }

    /// ::1.
    pub open spec fn spec_is_loopback(self) -> bool {
        self.s0 == 0 && self.s1 == 0 && self.s2 == 0 && self.s3 == 0 && self.s4 == 0 && self.s5 == 0
            && self.s6 == 0 && self.s7 == 1
    }

    /// ::.
    pub open spec fn spec_is_unspecified(self) -> bool {
        self.s0 == 0 && self.s1 == 0 && self.s2 == 0 && self.s3 == 0 && self.s4 == 0 && self.s5 == 0
            && self.s6 == 0 && self.s7 == 0
    }

    pub fn is_unique_local(&self) -> (r: bool)
        ensures
            r == self.spec_is_unique_local(),
    {
        0xfc00 <= self.s0 && self.s0 <= 0xfdff
    }

    pub fn is_unicast_link_local(&self) -> (r: bool)
        ensures
            r == self.spec_is_unicast_link_local(),
    {
        0xfe80 <= self.s0 && self.s0 <= 0xfebf
    }

    pub fn is_multicast(&self) -> (r: bool)
        ensures
            r == self.spec_is_multicast(),
    {
        self.s0 >= 0xff00
    }

    pub fn is_loopback(&self) -> (r: bool)
        ensures
            r == self.spec_is_loopback(),
    {
        self.s0 == 0 && self.s1 == 0 && self.s2 == 0 && self.s3 == 0 && self.s4 == 0 && self.s5 == 0
            && self.s6 == 0 && self.s7 == 1
    }

    pub fn is_unspecified(&self) -> (r: bool)
        ensures
            r == self.spec_is_unspecified(),
    {
        self.s0 == 0 && self.s1 == 0 && self.s2 == 0 && self.s3 == 0 && self.s4 == 0 && self.s5 == 0
            && self.s6 == 0 && self.s7 == 0
    }
}

impl Ipv4Addr {
    /// Octet-by-octet order.
    pub open spec fn lt(self, b: Ipv4Addr) -> bool {
        let a = self;
        a.a < b.a || (a.a == b.a && (a.b < b.b || (a.b == b.b && (a.c < b.c || (a.c == b.c && a.d
            < b.d)))))
    }
}

impl Ipv6Addr {
    /// Segment-by-segment order.
    pub open spec fn lt(self, b: Ipv6Addr) -> bool {
        let a = self;
        a.s0 < b.s0 || (a.s0 == b.s0 && (a.s1 < b.s1 || (a.s1 == b.s1 && (a.s2 < b.s2 || (a.s2 == b.s2
            && (a.s3 < b.s3 || (a.s3 == b.s3 && (a.s4 < b.s4 || (a.s4 == b.s4 && (a.s5 < b.s5 || (a.s5
            == b.s5 && (a.s6 < b.s6 || (a.s6 == b.s6 && a.s7 < b.s7)))))))))))))
    }
}

impl IpAddr {
    /// The order of `std::net::IpAddr`: every IPv4 address before every
    /// IPv6 address, then octet by octet (segment by segment), which is the
    /// numeric order.
    pub open spec fn lt(self, other: IpAddr) -> bool {
        match (self, other) {
            (IpAddr::V4(_), IpAddr::V6(_)) => true,
            (IpAddr::V6(_), IpAddr::V4(_)) => false,
            (IpAddr::V4(a), IpAddr::V4(b)) => a.lt(b),
            (IpAddr::V6(a), IpAddr::V6(b)) => a.lt(b),
        }
    }

    pub fn less_than(&self, other: &IpAddr) -> (r: bool)
        ensures
            r == self.lt(*other),
    {
        match (self, other) {
            (IpAddr::V4(_), IpAddr::V6(_)) => true,
            (IpAddr::V6(_), IpAddr::V4(_)) => false,
            (IpAddr::V4(a), IpAddr::V4(b)) => {
                a.a < b.a || (a.a == b.a && (a.b < b.b || (a.b == b.b && (a.c < b.c || (a.c == b.c
                    && a.d < b.d)))))
            },
            (IpAddr::V6(a), IpAddr::V6(b)) => {
                a.s0 < b.s0 || (a.s0 == b.s0 && (a.s1 < b.s1 || (a.s1 == b.s1 && (a.s2 < b.s2 || (a.s2
                    == b.s2 && (a.s3 < b.s3 || (a.s3 == b.s3 && (a.s4 < b.s4 || (a.s4 == b.s4 && (a.s5
                    < b.s5 || (a.s5 == b.s5 && (a.s6 < b.s6 || (a.s6 == b.s6 && a.s7 < b.s7)))))))))))))
            },
        }
    }

    pub fn equals(&self, other: &IpAddr) -> (r: bool)
        ensures
            r == (*self == *other),
    {
        *self == *other
    }
}

/// A copy of a list of addresses.
pub fn copy_ips(v: &Vec<IpAddr>) -> (r: Vec<IpAddr>)
    ensures
        r@ == v@,
{
    let mut r: Vec<IpAddr> = Vec::new();
    let mut k: usize = 0;
    while k < v.len()
        invariant
            k <= v@.len(),
            r@ == v@.subrange(0, k as int),
        decreases v@.len() - k,
    {
        r.push(v[k]);
        k += 1;
        assert(r@ =~= v@.subrange(0, k as int));
    }
    assert(r@ =~= v@);
    r
}

/// Text of an IPv6 address as hickory's `AAAA` record displays it (the
/// standard library's IPv6 notation).
pub uninterp spec fn ipv6_text(ip: Ipv6Addr) -> Seq<char>;

/// The IPv4 address that hickory's `A` record reads from the text, if any.
pub uninterp spec fn parsed_ipv4(s: Seq<char>) -> Option<Ipv4Addr>;

/// The IPv6 address that hickory's `AAAA` record reads from the text, if any.
pub uninterp spec fn parsed_ipv6(s: Seq<char>) -> Option<Ipv6Addr>;

/// Dotted-decimal text of an IPv4 address.
pub open spec fn ipv4_text(v: Ipv4Addr) -> Seq<char> {
    decimal(v.a as nat) + seq!['.'] + decimal(v.b as nat) + seq!['.'] + decimal(v.c as nat)
        + seq!['.'] + decimal(v.d as nat)
}

/// The text form of an address.
pub open spec fn ip_text(ip: IpAddr) -> Seq<char> {
    match ip {
        IpAddr::V4(v) => ipv4_text(v),
        IpAddr::V6(v) => ipv6_text(v),
    }
}

/// An address read from text: IPv4 first, then IPv6 (the order of
/// `IpAddr`'s `FromStr`).
pub open spec fn parsed_ip(s: Seq<char>) -> Option<IpAddr> {
    match parsed_ipv4(s) {
        Some(v) => Some(IpAddr::V4(v)),
        None => match parsed_ipv6(s) {
            Some(v) => Some(IpAddr::V6(v)),
            None => None,
        },
    }
}

/// Displays an IPv6 address through hickory's `AAAA` record; the contract
/// names the text and says nothing more of it.
#[verifier::external_body]
fn ipv6_to_string(v: &Ipv6Addr) -> (r: String)
    ensures
        r@ == ipv6_text(*v),
{
    hickory_resolver::proto::rr::rdata::AAAA::new(v.s0, v.s1, v.s2, v.s3, v.s4, v.s5, v.s6, v.s7)
        .to_string()
}

/// Reads an IPv4 address with hickory's `A` record `FromStr`, octet for octet.
#[verifier::external_body]
fn parse_ipv4(s: &str) -> (r: Option<Ipv4Addr>)
    ensures
        r == parsed_ipv4(s@),
{
    match s.parse::<hickory_resolver::proto::rr::rdata::A>() {
        Ok(v) => {
            let [a, b, c, d] = v.0.octets();
            Some(Ipv4Addr { a, b, c, d })
        },
        Err(_) => None,
    }
}

/// Reads an IPv6 address with hickory's `AAAA` record `FromStr`, segment for segment.
#[verifier::external_body]
fn parse_ipv6(s: &str) -> (r: Option<Ipv6Addr>)
    ensures
        r == parsed_ipv6(s@),
{
    match s.parse::<hickory_resolver::proto::rr::rdata::AAAA>() {
        Ok(v) => {
            let [s0, s1, s2, s3, s4, s5, s6, s7] = v.0.segments();
            Some(Ipv6Addr { s0, s1, s2, s3, s4, s5, s6, s7 })
        },
        Err(_) => None,
    }
}

/// Reads an IP address from text.
pub fn parse_ip(s: &str) -> (r: Option<IpAddr>)
    ensures
        r == parsed_ip(s@),
{
    match parse_ipv4(s) {
        Some(v) => Some(IpAddr::V4(v)),
        None => match parse_ipv6(s) {
            Some(v) => Some(IpAddr::V6(v)),
            None => None,
        },
    }
}

/// Dotted-decimal text of an IPv4 address.
pub fn ipv4_to_string(v: &Ipv4Addr) -> (r: String)
    ensures
        r@ == ipv4_text(*v),
{
    let mut r = decimal_exec(v.a as u64);
    push_str(&mut r, ".");
    let t = decimal_exec(v.b as u64);
    push_str(&mut r, t.as_str());
    push_str(&mut r, ".");
    let t = decimal_exec(v.c as u64);
    push_str(&mut r, t.as_str());
    push_str(&mut r, ".");
    let t = decimal_exec(v.d as u64);
    push_str(&mut r, t.as_str());
    proof {
        reveal_strlit(".");
    }
    r
}

/// The text form of an address.
pub fn ip_to_string(ip: &IpAddr) -> (r: String)
    ensures
        r@ == ip_text(*ip),
{
    match ip {
        IpAddr::V4(v) => ipv4_to_string(v),
        IpAddr::V6(v) => ipv6_to_string(v),
    }
}

impl core::str::FromStr for IpAddr {
    type Err = AddrParseError;

    fn from_str(s: &str) -> (r: Result<IpAddr, AddrParseError>)
        ensures
            match r {
                Ok(ip) => parsed_ip(s@) == Some(ip),
                Err(_) => parsed_ip(s@) is None,
            },
    {
        match parse_ip(s) {
            Some(ip) => Ok(ip),
            None => Err(AddrParseError),
        }
    }
}

/// An IP network: an address and a prefix length, as `ipnet::IpNet` holds it.
#[derive(Debug, Clone, Copy, PartialEq, Eq, Structural)]
pub struct IpNet {
    pub addr: IpAddr,
    pub prefix_len: u8,
}

impl IpNet {
    /// The prefix length fits the address family.
    pub open spec fn wf(self) -> bool {
        match self.addr {
            IpAddr::V4(_) => self.prefix_len <= 32,
            IpAddr::V6(_) => self.prefix_len <= 128,
        }
    }

    pub open spec fn netmask_v4(p: u8) -> u32 {
        if p == 0 {
            0
        } else {
            (0xffff_ffffu32 << ((32 - p) as u32)) as u32
        }
    }

    pub open spec fn netmask_v6(p: u8) -> u128 {
        if p == 0 {
            0
        } else {
            (0xffff_ffff_ffff_ffff_ffff_ffff_ffff_ffffu128 << ((128 - p) as u128)) as u128
        }
    }

    /// `network() <= ip <= broadcast()` for an address of the same family
    /// (`ipnet`'s `contains`).
    pub open spec fn spec_contains(self, ip: IpAddr) -> bool {
        match (self.addr, ip) {
            (IpAddr::V4(n), IpAddr::V4(x)) => {
                let mask = Self::netmask_v4(self.prefix_len);
                (n.bits() & mask) <= x.bits() && x.bits() <= (n.bits() | !mask)
            },
            (IpAddr::V6(n), IpAddr::V6(x)) => {
                let mask = Self::netmask_v6(self.prefix_len);
                (n.bits() & mask) <= x.bits() && x.bits() <= (n.bits() | !mask)
            },
            _ => false,
        }
    }

    pub fn contains(&self, ip: &IpAddr) -> (r: bool)
        requires
            self.wf(),
        ensures
            r == self.spec_contains(*ip),
    {
        match (self.addr, *ip) {
            (IpAddr::V4(n), IpAddr::V4(x)) => {
                let p = self.prefix_len;
                let mask: u32 = if p == 0 {
                    0
                } else {
                    0xffff_ffffu32 << ((32 - p) as u32)
                };
                let nb = n.to_bits();
                let xb = x.to_bits();
                (nb & mask) <= xb && xb <= (nb | !mask)
            },
            (IpAddr::V6(n), IpAddr::V6(x)) => {
                let p = self.prefix_len;
                let mask: u128 = if p == 0 {
                    0
                } else {
                    0xffff_ffff_ffff_ffff_ffff_ffff_ffff_ffffu128 << ((128 - p) as u128)
                };
                let nb = n.to_bits();
                let xb = x.to_bits();
                (nb & mask) <= xb && xb <= (nb | !mask)
            },
            _ => false,
        }
    }
}

/// What `ipnet::IpNet`'s `FromStr` reads from the text: the network, or the
/// text of its parse error.
pub uninterp spec fn parsed_net(s: Seq<char>) -> Result<IpNet, Seq<char>>;

/// Parses a CIDR with `ipnet::IpNet`'s `FromStr`, keeping its address and
/// prefix length.  The contract names the outcome; it adds that a parsed
/// prefix length fits its family (ipnet refuses longer ones) and that the
/// error text is ipnet's fixed message.
#[verifier::external_body]
pub fn parse_net(s: &str) -> (r: Result<IpNet, String>)
    ensures
        match r {
            Ok(n) => parsed_net(s@) == Ok::<IpNet, Seq<char>>(n) && n.wf(),
            Err(e) => parsed_net(s@) == Err::<IpNet, Seq<char>>(e@) && e@
                == "invalid IP address syntax"@,
        },
{
    match s.parse::<ipnet::IpNet>() {
        Ok(ipnet::IpNet::V4(n)) => {
            let [a, b, c, d] = n.addr().octets();
            Ok(IpNet { addr: IpAddr::V4(Ipv4Addr { a, b, c, d }), prefix_len: n.prefix_len() })
        },
        Ok(ipnet::IpNet::V6(n)) => {
            let [s0, s1, s2, s3, s4, s5, s6, s7] = n.addr().segments();
            let v = Ipv6Addr { s0, s1, s2, s3, s4, s5, s6, s7 };
            Ok(IpNet { addr: IpAddr::V6(v), prefix_len: n.prefix_len() })
        },
        Err(e) => Err(e.to_string()),
    }
}

} // verus!

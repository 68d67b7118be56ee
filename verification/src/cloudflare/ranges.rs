//! Cloudflare's published IP ranges.

use vstd::prelude::*;

use crate::error::{CfProbeError, ErrorView};
use crate::net::{parse_net, parsed_net, IpAddr, IpNet};
use crate::text::texts;

verus! {

/// The parsed IPv4 and IPv6 CIDR lists of Cloudflare's edge network.
#[derive(Debug)]
pub struct CloudflareRanges {
    ipv4: Vec<IpNet>,
    ipv6: Vec<IpNet>,
    etag: Option<String>,
}

/// Every text parses as a network: the networks, or the first text that
/// does not with its parse error.
pub open spec fn parse_all(values: Seq<Seq<char>>) -> Result<Seq<IpNet>, (Seq<char>, Seq<char>)>
    decreases values.len(),
{
    if values.len() == 0 {
        Ok(seq![])
    } else {
        match parsed_net(values[0]) {
            Err(e) => Err((values[0], e)),
            Ok(n) => match parse_all(values.drop_first()) {
                Ok(rest) => Ok(seq![n] + rest),
                Err(x) => Err(x),
            },
        }
    }
}

/// Some network of the list contains the address.
pub open spec fn any_contains(nets: Seq<IpNet>, ip: IpAddr) -> bool {
    exists|i: int| 0 <= i < nets.len() && (#[trigger] nets[i]).spec_contains(ip)
}

impl Clone for CloudflareRanges {
    fn clone(&self) -> (r: Self)
        ensures
            r.v4_nets() == self.v4_nets() && r.v6_nets() == self.v6_nets() && r.etag_text()
                == self.etag_text(),
    {
        proof {
            use_type_invariant(self);
        }
        let ipv4 = copy_nets(&self.ipv4);
        let ipv6 = copy_nets(&self.ipv6);
        let etag = match &self.etag {
            Some(e) => Some(e.clone()),
            None => None,
        };
        CloudflareRanges { ipv4, ipv6, etag }
    }
}

fn any_net_contains(nets: &Vec<IpNet>, ip: &IpAddr) -> (r: bool)
    requires
        forall|i: int| 0 <= i < nets@.len() ==> (#[trigger] nets@[i]).wf(),
    ensures
        r == any_contains(nets@, *ip),
{
    let mut k: usize = 0;
    while k < nets.len()
        invariant
            k <= nets@.len(),
            forall|i: int| 0 <= i < nets@.len() ==> (#[trigger] nets@[i]).wf(),
            forall|i: int| 0 <= i < k ==> !(#[trigger] nets@[i]).spec_contains(*ip),
        decreases nets@.len() - k,
    {
        if nets[k].contains(ip) {
            assert(nets@[k as int].spec_contains(*ip));
            return true;
        }
        k += 1;
    }
    false
}

fn copy_nets(nets: &Vec<IpNet>) -> (r: Vec<IpNet>)
    ensures
        r@ == nets@,
{
    let mut r: Vec<IpNet> = Vec::new();
    let mut k: usize = 0;
    while k < nets.len()
        invariant
            k <= nets@.len(),
            r@ == nets@.subrange(0, k as int),
        decreases nets@.len() - k,
    {
        r.push(nets[k]);
        k += 1;
        assert(r@ =~= nets@.subrange(0, k as int));
    }
    assert(r@ =~= nets@);
    r
}

impl CloudflareRanges {
    #[verifier::type_invariant]
    spec fn nets_wf(self) -> bool {
        &&& forall|i: int| 0 <= i < self.ipv4@.len() ==> (#[trigger] self.ipv4@[i]).wf()
        &&& forall|i: int| 0 <= i < self.ipv6@.len() ==> (#[trigger] self.ipv6@[i]).wf()
    }

    pub closed spec fn v4_nets(self) -> Seq<IpNet> {
        self.ipv4@
    }

    pub closed spec fn v6_nets(self) -> Seq<IpNet> {
        self.ipv6@
    }

    pub closed spec fn etag_text(self) -> Option<Seq<char>> {
        match self.etag {
            Some(e) => Some(e@),
            None => None,
        }
    }

    /// The address is in one of the published ranges of its family.
    pub open spec fn spec_contains(self, ip: IpAddr) -> bool {
        match ip {
            IpAddr::V4(_) => any_contains(self.v4_nets(), ip),
            IpAddr::V6(_) => any_contains(self.v6_nets(), ip),
        }
    }

    /// Parses the IPv4 list, then the IPv6 list; the first text that is no
    /// CIDR is refused with ipnet's error.
    pub fn new(ipv4: Vec<String>, ipv6: Vec<String>, etag: Option<String>) -> (r: Result<
        Self,
        CfProbeError,
    >)
        ensures
            match (parse_all(texts(ipv4@)), parse_all(texts(ipv6@))) {
                (Ok(a), Ok(b)) => r matches Ok(x) && x.v4_nets() == a && x.v6_nets() == b
                    && x.etag_text() == match etag {
                    Some(e) => Some(e@),
                    None => None::<Seq<char>>,
                },
                (Err((v, e)), _) => r matches Err(x) && x@ == (ErrorView::InvalidCidr {
                    value: v,
                    reason: e,
                }),
                (Ok(_), Err((v, e))) => r matches Err(x) && x@ == (ErrorView::InvalidCidr {
                    value: v,
                    reason: e,
                }),
            },
    {
        let v4 = parse_ranges(&ipv4)?;
        let v6 = parse_ranges(&ipv6)?;
        Ok(CloudflareRanges { ipv4: v4, ipv6: v6, etag })
    }

    /// The address is in one of the published ranges.
    pub fn contains(&self, ip: IpAddr) -> (r: bool)
        ensures
            r == self.spec_contains(ip),
    {
        proof {
            use_type_invariant(self);
        }
        match ip {
            IpAddr::V4(_) => any_net_contains(&self.ipv4, &ip),
            IpAddr::V6(_) => any_net_contains(&self.ipv6, &ip),
        }
    }

    /// The entity tag of the API answer the ranges came from.
    pub fn etag(&self) -> (r: Option<&str>)
        ensures
            match r {
                Some(e) => self.etag_text() == Some(e@),
                None => self.etag_text() is None,
            },
    {
        match &self.etag {
            Some(e) => Some(e.as_str()),
            None => None,
        }
    }

    /// The IPv4 networks.
    pub fn ipv4_ranges(&self) -> (r: &[IpNet])
        ensures
            r@ == self.v4_nets(),
    {
        self.ipv4.as_slice()
    }

    /// The IPv6 networks.
    pub fn ipv6_ranges(&self) -> (r: &[IpNet])
        ensures
            r@ == self.v6_nets(),
    {
        self.ipv6.as_slice()
    }
}

fn parse_ranges(values: &Vec<String>) -> (r: Result<Vec<IpNet>, CfProbeError>)
    ensures
        match parse_all(texts(values@)) {
            Ok(nets) => r matches Ok(v) && v@ == nets && forall|i: int|
                0 <= i < v@.len() ==> (#[trigger] v@[i]).wf(),
            Err((t, e)) => r matches Err(x) && x@ == (ErrorView::InvalidCidr {
                value: t,
                reason: e,
            }),
        },
{
    let mut out: Vec<IpNet> = Vec::new();
    let mut k: usize = 0;
    proof {
        assert(texts(values@).skip(0) =~= texts(values@));
        match parse_all(texts(values@)) {
            Ok(rest) => {
                assert(out@ + rest =~= rest);
            },
            Err(_) => {},
        }
    }
    while k < values.len()
        invariant
            k <= values@.len(),
            forall|i: int| 0 <= i < out@.len() ==> (#[trigger] out@[i]).wf(),
            parse_all(texts(values@)) == match parse_all(texts(values@).skip(k as int)) {
                Ok(rest) => Ok(out@ + rest),
                Err(x) => Err(x),
            },
        decreases values@.len() - k,
    {
        let ghost rest = texts(values@).skip(k as int);
        proof {
            assert(rest[0] == values@[k as int]@);
            assert(rest.drop_first() =~= texts(values@).skip(k + 1));
        }
        match parse_net(values[k].as_str()) {
            Ok(n) => {
                let ghost before = out@;
                out.push(n);
                proof {
                    match parse_all(rest.drop_first()) {
                        Ok(r2) => {
                            assert(before + (seq![n] + r2) =~= out@ + r2);
                        },
                        Err(_) => {},
                    }
                }
            },
            Err(e) => {
                let value = values[k].clone();
                return Err(CfProbeError::InvalidCidr { value, reason: e });
            },
        }
        k += 1;
    }
    proof {
        assert(texts(values@).skip(k as int) =~= Seq::<Seq<char>>::empty());
        assert(out@ + Seq::<IpNet>::empty() =~= out@);
    }
    Ok(out)
}

} // verus!

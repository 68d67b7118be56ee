//! A probe target: the address to connect to and the host name to present.

use vstd::prelude::*;

use crate::error::{CfProbeError, ErrorView};
use crate::hostname::{check_dns_name, dns_name_error, stripped};
use crate::http::HttpScheme;
use crate::net::IpAddr;
use crate::text::{
    chars_of, concat3, copy_str, push_str, string_of, string_push, trim, trim_end_char_exec,
    trim_exec,
};

verus! {

/// The structural check of a target's host name and port: a non-zero port,
/// a host name that is not blank and passes the DNS name syntax once
/// stripped of trailing dots.
pub open spec fn target_check(hostname: Seq<char>, port: u16) -> Result<(), ErrorView> {
    let h = trim(hostname);
    if port == 0 {
        Err(ErrorView::InvalidResponse("target port cannot be 0"@))
    } else if h.len() == 0 {
        Err(ErrorView::InvalidResponse("target hostname cannot be empty"@))
    } else {
        match dns_name_error(stripped(hostname).push('.')) {
            Some(e) => Err(ErrorView::InvalidResponse("invalid target hostname `"@ + h + "`: "@ + e)),
            None => Ok(()),
        }
    }
}

/// An IP to connect to, with the host name used for SNI, the Host header
/// and the DNS query, a port and a scheme.
#[derive(Debug, Clone, PartialEq, Eq)]
pub struct Target {
    pub ip: IpAddr,
    pub hostname: String,
    pub port: u16,
    pub scheme: HttpScheme,
}

impl Target {
    /// HTTPS on port 443.
    pub fn https(ip: IpAddr, hostname: &str) -> (t: Target)
        ensures
            t.ip == ip && t.hostname@ == hostname@ && t.port == 443 && t.scheme == HttpScheme::Https,
    {
        Target { ip, hostname: copy_str(hostname), port: 443, scheme: HttpScheme::Https }
    }

    /// HTTP on port 80.
    pub fn http(ip: IpAddr, hostname: &str) -> (t: Target)
        ensures
            t.ip == ip && t.hostname@ == hostname@ && t.port == 80 && t.scheme == HttpScheme::Http,
    {
        Target { ip, hostname: copy_str(hostname), port: 80, scheme: HttpScheme::Http }
    }

    /// The same target on another port.
    pub fn with_port(self, port: u16) -> (t: Target)
        ensures
            t.ip == self.ip && t.hostname == self.hostname && t.port == port && t.scheme
                == self.scheme,
    {
        Target { port, ..self }
    }

    /// A copy of the target.
    pub fn duplicate(&self) -> (t: Target)
        ensures
            t == *self,
    {
        Target {
            ip: self.ip,
            hostname: self.hostname.clone(),
            port: self.port,
            scheme: self.scheme,
        }
    }

    /// The structural check: a non-zero port and a syntactically valid host name.
    pub open spec fn check(self) -> Result<(), ErrorView> {
        target_check(self.hostname@, self.port)
    }

    /// Checks the port and the host name syntax; the security policy is not applied here.
    pub fn validate(&self) -> (r: Result<(), CfProbeError>)
        ensures
            match self.check() {
                Ok(_) => r is Ok,
                Err(e) => r matches Err(x) && x@ == e,
            },
    {
        if self.port == 0 {
            return Err(CfProbeError::invalid(copy_str("target port cannot be 0")));
        }
        let cs = chars_of(self.hostname.as_str());
        let t = trim_exec(cs.as_slice());
        if t.len() == 0 {
            return Err(CfProbeError::invalid(copy_str("target hostname cannot be empty")));
        }
        let u = trim_end_char_exec(t.as_slice(), '.');
        let mut q = string_of(u.as_slice());
        string_push(&mut q, '.');
        match check_dns_name(q.as_str()) {
            Some(e) => {
                let trimmed = string_of(t.as_slice());
                let mut m = concat3("invalid target hostname `", trimmed.as_str(), "`: ");
                push_str(&mut m, e.as_str());
                Err(CfProbeError::invalid(m))
            },
            None => Ok(()),
        }
    }
}

} // verus!

//! The IP stage: is the address in Cloudflare's published ranges.

use vstd::prelude::*;

use crate::cloudflare::ranges::CloudflareRanges;
use crate::net::IpAddr;

verus! {

#[derive(Debug, Clone, Copy, PartialEq, Eq, Structural)]
pub enum DetectionKind {
    CloudflareEdge,
    NotCloudflare,
}

/// The address and whether it is in Cloudflare's ranges.
#[derive(Debug, Clone, Copy, PartialEq, Eq, Structural)]
pub struct CloudflareIpDetection {
    pub ip: IpAddr,
    pub is_cloudflare: bool,
    pub kind: DetectionKind,
}

impl CloudflareIpDetection {
    pub fn cloudflare(ip: IpAddr) -> (r: Self)
        ensures
            r == (CloudflareIpDetection { ip, is_cloudflare: true, kind: DetectionKind::CloudflareEdge }),
    {
        CloudflareIpDetection { ip, is_cloudflare: true, kind: DetectionKind::CloudflareEdge }
    }

    pub fn not_cloudflare(ip: IpAddr) -> (r: Self)
        ensures
            r == (CloudflareIpDetection { ip, is_cloudflare: false, kind: DetectionKind::NotCloudflare }),
    {
        CloudflareIpDetection { ip, is_cloudflare: false, kind: DetectionKind::NotCloudflare }
    }
}

/// Looks the address up in the ranges.
pub fn detect_cloudflare_ip(ranges: &CloudflareRanges, ip: IpAddr) -> (r: CloudflareIpDetection)
    ensures
        r.ip == ip,
        r.is_cloudflare == ranges.spec_contains(ip),
        r.kind == if ranges.spec_contains(ip) {
            DetectionKind::CloudflareEdge
        } else {
            DetectionKind::NotCloudflare
        },
{
    if ranges.contains(ip) {
        CloudflareIpDetection::cloudflare(ip)
    } else {
        CloudflareIpDetection::not_cloudflare(ip)
    }
}

} // verus!

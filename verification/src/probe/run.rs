//! The decisions of a probe once its stages have run: which stage failures
//! are fatal, which are recorded, what the evidence engine is given and
//! when the verdict is forced to unknown.

use vstd::prelude::*;

use crate::cloudflare::ranges::CloudflareRanges;
use crate::detector::{CloudflareIpDetection, DetectionKind, detect_cloudflare_ip};
use crate::dns::model::DnsDetection;
use crate::error::{CfProbeError, ErrorView};
use crate::evidence::engine::{EvidenceEngine, EvidenceInput, InputView, evaluation_core, evaluation_verdict};
use crate::evidence::model::{ConfidenceLevel, DetectionClassification};
use crate::evidence::policy::DetectionPolicy;
use crate::hostname::{same_host, same_hostname};
use crate::http::HttpDetection;
use crate::probe::model::{ProbeResult, ProbeStage, ProbeStageError};
use crate::probe::policy::{TargetPolicy, dns_verdict, target_verdict};
use crate::probe::target::Target;
use crate::text::copy_str;
use crate::tls::TlsDetection;

verus! {

/// How a stage that ran alongside the others ended.
pub enum StageOutcome<T> {
    Done(T),
    Failed(CfProbeError),
    Cancelled,
}

/// The summary of a verdict forced to unknown.
pub open spec fn forced_unknown_summary() -> Seq<char> {
    "Cloudflare IP range data was unavailable; final classification was forced to Unknown"@
}

/// The recorded error of a verdict forced to unknown.
pub open spec fn forced_unknown_error() -> Seq<char> {
    "foundational Cloudflare IP range data unavailable"@
}

pub open spec fn stage_entries(errors: Seq<ProbeStageError>) -> Seq<(ProbeStage, Seq<char>)> {
    errors.map_values(|e: ProbeStageError| (e.stage, e.message@))
}

pub open spec fn failure_entry<T>(stage: ProbeStage, outcome: StageOutcome<T>) -> Seq<(ProbeStage, Seq<char>)> {
    match outcome {
        StageOutcome::Failed(e) => seq![(stage, e@.text())],
        _ => seq![],
    }
}

/// Whether the verdict is forced to unknown: the ranges are missing and
/// required.
pub open spec fn forced_unknown(ranges: Result<CloudflareRanges, CfProbeError>, require_ranges: bool) -> bool {
    ranges is Err && require_ranges
}

/// The non-fatal errors of a probe, in order: loading the ranges, DNS, TLS,
/// HTTP, and the forced verdict.
pub open spec fn probe_errors(
    ranges: Result<CloudflareRanges, CfProbeError>,
    dns: StageOutcome<Option<DnsDetection>>,
    tls: StageOutcome<TlsDetection>,
    http: StageOutcome<HttpDetection>,
    require_ranges: bool,
) -> Seq<(ProbeStage, Seq<char>)> {
    (match ranges {
        Err(e) => seq![(ProbeStage::CloudflareRanges, e@.text())],
        Ok(_) => seq![],
    }) + failure_entry(ProbeStage::Dns, dns) + failure_entry(ProbeStage::Tls, tls) + failure_entry(
        ProbeStage::Http,
        http,
    ) + if forced_unknown(ranges, require_ranges) {
        seq![(ProbeStage::Evidence, forced_unknown_error())]
    } else {
        seq![]
    }
}

/// The fatal outcome of a probe, if any: a DNS answer refused by the target
/// policy, else a cancelled DNS, TLS or HTTP stage (checked in that order).
pub open spec fn probe_failure(
    policy: TargetPolicy,
    dns: StageOutcome<Option<DnsDetection>>,
    tls: StageOutcome<TlsDetection>,
    http: StageOutcome<HttpDetection>,
) -> Option<ErrorView> {
    match dns {
        StageOutcome::Done(Some(d)) if dns_verdict(policy, d) is Err => Some(dns_verdict(policy, d)->Err_0),
        StageOutcome::Cancelled => Some(ErrorView::Cancelled),
        _ => if tls is Cancelled || http is Cancelled {
            Some(ErrorView::Cancelled)
        } else {
            None
        },
    }
}

pub open spec fn done_value<T>(outcome: StageOutcome<T>) -> Option<T> {
    match outcome {
        StageOutcome::Done(v) => Some(v),
        _ => None,
    }
}

/// The IP stage's result on the loaded ranges.
pub open spec fn ip_stage(ranges: Result<CloudflareRanges, CfProbeError>, target: Target) -> Option<CloudflareIpDetection> {
    match ranges {
        Ok(r) => Some(
            CloudflareIpDetection {
                ip: target.ip,
                is_cloudflare: r.spec_contains(target.ip),
                kind: if r.spec_contains(target.ip) {
                    DetectionKind::CloudflareEdge
                } else {
                    DetectionKind::NotCloudflare
                },
            },
        ),
        Err(_) => None,
    }
}

/// What the evidence engine is given.
pub open spec fn probe_input(
    target: Target,
    ranges: Result<CloudflareRanges, CfProbeError>,
    dns: StageOutcome<Option<DnsDetection>>,
    tls: StageOutcome<TlsDetection>,
    http: StageOutcome<HttpDetection>,
) -> InputView {
    InputView {
        ip: target.ip,
        hostname: Some(target.hostname@),
        ip_detection: ip_stage(ranges, target),
        dns: match dns {
            StageOutcome::Done(Some(d)) => Some(d),
            _ => None,
        },
        tls: done_value(tls),
        http: done_value(http),
    }
}

/// The stage results are about the target.
pub open spec fn stages_match(
    target: Target,
    dns: StageOutcome<Option<DnsDetection>>,
    tls: StageOutcome<TlsDetection>,
    http: StageOutcome<HttpDetection>,
) -> bool {
    &&& (dns matches StageOutcome::Done(Some(d)) ==> same_host(d.hostname@, target.hostname@))
    &&& (tls matches StageOutcome::Done(t) ==> t.ip == target.ip && same_host(t.hostname@, target.hostname@))
    &&& (http matches StageOutcome::Done(x) ==> x.ip == target.ip && same_host(x.hostname@, target.hostname@))
}

/// Checks `stages_match`: each stage that finished answered for the
/// target's address and host name.
pub fn check_stages_match(
    target: &Target,
    dns: &StageOutcome<Option<DnsDetection>>,
    tls: &StageOutcome<TlsDetection>,
    http: &StageOutcome<HttpDetection>,
) -> (r: bool)
    ensures
        r == stages_match(*target, *dns, *tls, *http),
{
    let dns_ok = match dns {
        StageOutcome::Done(Some(d)) => same_hostname(d.hostname.as_str(), target.hostname.as_str()),
        _ => true,
    };
    let tls_ok = match tls {
        StageOutcome::Done(t) => t.ip.equals(&target.ip) && same_hostname(
            t.hostname.as_str(),
            target.hostname.as_str(),
        ),
        _ => true,
    };
    let http_ok = match http {
        StageOutcome::Done(x) => x.ip.equals(&target.ip) && same_hostname(
            x.hostname.as_str(),
            target.hostname.as_str(),
        ),
        _ => true,
    };
    dns_ok && tls_ok && http_ok
}

/// Whether a probe may start: it is refused as cancelled when cancellation
/// was requested before the target was checked, with the target policy's
/// error when the target is refused, and as cancelled when cancellation
/// was requested after the check; only then are the ranges loaded and the
/// stages run.
pub fn admit_probe(
    target_policy: &TargetPolicy,
    target: &Target,
    cancelled_before: bool,
    cancelled_after: bool,
) -> (r: Result<(), CfProbeError>)
    ensures
        cancelled_before ==> (r matches Err(e) && e@ == ErrorView::Cancelled),
        !cancelled_before ==> match target_verdict(*target_policy, *target) {
            Err(v) => r matches Err(e) && e@ == v,
            Ok(_) => if cancelled_after {
                r matches Err(e) && e@ == ErrorView::Cancelled
            } else {
                r is Ok
            },
        },
{
    if cancelled_before {
        return Err(CfProbeError::Cancelled);
    }
    target_policy.validate_target(target)?;
    if cancelled_after {
        return Err(CfProbeError::Cancelled);
    }
    Ok(())
}

/// Completes a probe from its stage outcomes: stops on a fatal outcome,
/// records the other failures, evaluates the evidence, and forces the
/// verdict to unknown when the ranges are missing and required.
pub fn complete_probe<P: DetectionPolicy>(
    engine: &EvidenceEngine<P>,
    target_policy: &TargetPolicy,
    target: Target,
    ranges: Result<CloudflareRanges, CfProbeError>,
    dns: StageOutcome<Option<DnsDetection>>,
    tls: StageOutcome<TlsDetection>,
    http: StageOutcome<HttpDetection>,
    require_ranges: bool,
) -> (r: Result<ProbeResult, CfProbeError>)
    requires
        engine.policy().policy_rules().wf(),
        stages_match(target, dns, tls, http),
    ensures
        match probe_failure(*target_policy, dns, tls, http) {
            Some(e) => r matches Err(x) && x@ == e,
            None => r is Ok,
        },
        r matches Ok(p) ==> {
            let input = probe_input(target, ranges, dns, tls, http);
            &&& p.ip == target.ip && p.hostname == target.hostname && p.port == target.port
            &&& p.target == target
            &&& p.ip_detection == input.ip_detection
            &&& p.dns == input.dns && p.tls == input.tls && p.http == input.http
            &&& stage_entries(p.errors@) == probe_errors(ranges, dns, tls, http, require_ranges)
            &&& evaluation_core(
                p.detection,
                input,
                engine.policy().policy_rules(),
                engine.policy().policy_metadata(),
            )
            &&& if forced_unknown(ranges, require_ranges) {
                &&& p.detection.classification == DetectionClassification::Unknown
                &&& p.detection.confidence == 0
                &&& p.detection.confidence_level == ConfidenceLevel::Insufficient
                &&& p.detection.summary@ == forced_unknown_summary()
            } else {
                evaluation_verdict(
                    p.detection,
                    input,
                    engine.policy().policy_rules(),
                    engine.policy().positive_verdict(),
                    engine.policy().negative_verdict(),
                )
            }
        },
{
    let mut errors: Vec<ProbeStageError> = Vec::new();
    let ip_detection = match &ranges {
        Ok(rs) => Some(detect_cloudflare_ip(rs, target.ip)),
        Err(e) => {
            errors.push(ProbeStageError { stage: ProbeStage::CloudflareRanges, message: e.to_string() });
            None
        },
    };
    let ghost after_ranges = stage_entries(errors@);
    let dns_result = match dns {
        StageOutcome::Done(Some(d)) => {
            match target_policy.validate_dns(&d) {
                Ok(()) => Some(d),
                Err(e) => {
                    return Err(e);
                },
            }
        },
        StageOutcome::Done(None) => None,
        StageOutcome::Failed(e) => {
            errors.push(ProbeStageError { stage: ProbeStage::Dns, message: e.to_string() });
            None
        },
        StageOutcome::Cancelled => {
            return Err(CfProbeError::Cancelled);
        },
    };
    let ghost after_dns = stage_entries(errors@);
    let tls_result = match tls {
        StageOutcome::Done(t) => Some(t),
        StageOutcome::Failed(e) => {
            errors.push(ProbeStageError { stage: ProbeStage::Tls, message: e.to_string() });
            None
        },
        StageOutcome::Cancelled => {
            return Err(CfProbeError::Cancelled);
        },
    };
    let ghost after_tls = stage_entries(errors@);
    let http_result = match http {
        StageOutcome::Done(x) => Some(x),
        StageOutcome::Failed(e) => {
            errors.push(ProbeStageError { stage: ProbeStage::Http, message: e.to_string() });
            None
        },
        StageOutcome::Cancelled => {
            return Err(CfProbeError::Cancelled);
        },
    };
    let ghost after_http = stage_entries(errors@);
    proof {
        assert(after_ranges =~= match ranges {
            Err(e) => seq![(ProbeStage::CloudflareRanges, e@.text())],
            Ok(_) => Seq::<(ProbeStage, Seq<char>)>::empty(),
        });
        assert(after_dns =~= after_ranges + failure_entry(ProbeStage::Dns, dns));
        assert(after_tls =~= after_dns + failure_entry(ProbeStage::Tls, tls));
        assert(after_http =~= after_tls + failure_entry(ProbeStage::Http, http));
    }
    let ip_ref: Option<&CloudflareIpDetection> = match &ip_detection {
        Some(d) => Some(d),
        None => None,
    };
    let dns_ref: Option<&DnsDetection> = match &dns_result {
        Some(d) => Some(d),
        None => None,
    };
    let tls_ref: Option<&TlsDetection> = match &tls_result {
        Some(t) => Some(t),
        None => None,
    };
    let http_ref: Option<&HttpDetection> = match &http_result {
        Some(x) => Some(x),
        None => None,
    };
    let input = EvidenceInput::with_host(target.ip, target.hostname.as_str(), ip_ref, dns_ref, tls_ref, http_ref);
    assert(input@ == probe_input(target, ranges, dns, tls, http));
    let mut detection = engine.evaluate(input);
    let forced = ranges.is_err() && require_ranges;
    if forced {
        detection.classification = DetectionClassification::Unknown;
        detection.confidence = 0;
        detection.confidence_level = ConfidenceLevel::Insufficient;
        detection.summary = copy_str(
            "Cloudflare IP range data was unavailable; final classification was forced to Unknown",
        );
        errors.push(
            ProbeStageError {
                stage: ProbeStage::Evidence,
                message: copy_str("foundational Cloudflare IP range data unavailable"),
            },
        );
    }
    assert(stage_entries(errors@) =~= probe_errors(ranges, dns, tls, http, require_ranges));
    Ok(
        ProbeResult {
            ip: target.ip,
            hostname: target.hostname.clone(),
            port: target.port,
            target,
            ip_detection,
            dns: dns_result,
            tls: tls_result,
            http: http_result,
            detection,
            errors,
        },
    )
}

} // verus!

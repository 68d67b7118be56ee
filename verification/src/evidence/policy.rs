//! Scoring policies: weights, caps, DNS quorum, classification and
//! confidence rules, and the default Cloudflare web-proxy policy.
//!
//! Ratios, confidences and their thresholds are in thousandths.

use vstd::prelude::*;

use crate::evidence::model::{DetectionClassification, EvidenceCategory, EvidenceKind, PolicyMetadata};
use crate::evidence::tables::{CapTable, KindSet, ScoreCap, WeightTable};
use crate::text::copy_str;

verus! {

/// When DNS answers count as evidence.
#[derive(Debug, Clone, Copy, PartialEq, Eq, Structural)]
pub struct DnsRuleSet {
    /// Least share of the resolvers that must have answered (‰).
    pub min_successful_ratio: u32,
    /// Least share of the answering resolvers that must have returned a
    /// Cloudflare address for positive DNS evidence (‰).
    pub min_cloudflare_ratio: u32,
    /// Whether an answer without any Cloudflare address is negative evidence.
    pub negative_when_no_cloudflare: bool,
}

impl Default for DnsRuleSet {
    fn default() -> (r: Self)
        ensures
            r == (DnsRuleSet {
                min_successful_ratio: 500,
                min_cloudflare_ratio: 500,
                negative_when_no_cloudflare: true,
            }),
    {
        DnsRuleSet { min_successful_ratio: 500, min_cloudflare_ratio: 500, negative_when_no_cloudflare: true }
    }
}

/// When a score becomes a verdict.
#[derive(Debug, Clone)]
pub struct ClassificationRuleSet {
    /// Score needed for a positive verdict.
    pub cloudflare_threshold: i16,
    /// Score at or below which the verdict is negative.
    pub not_cloudflare_threshold: i16,
    /// A host-name query needs at least one host-specific positive item.
    pub require_host_specific_positive: bool,
    /// The kinds that count as host-specific positive evidence.
    pub host_specific_positive_kinds: KindSet,
    /// Whether an IP-only query can be classified from the IP range alone.
    pub allow_ip_only_classification: bool,
}

/// The kinds that tie a positive item to the host name itself.
pub open spec fn default_host_specific(kind: EvidenceKind) -> bool {
    ||| kind == EvidenceKind::DnsResolvesToCloudflare
    ||| kind == EvidenceKind::TlsCertificateHostnameMatch
    ||| kind == EvidenceKind::HttpCfRay
    ||| kind == EvidenceKind::HttpCfCacheStatus
    ||| kind == EvidenceKind::HttpServerCloudflare
    ||| kind == EvidenceKind::HttpCfConnectingIp
    ||| kind == EvidenceKind::HttpCfMitigated
}

impl Default for ClassificationRuleSet {
    fn default() -> (r: Self)
        ensures
            r.cloudflare_threshold == 65,
            r.not_cloudflare_threshold == -50,
            r.require_host_specific_positive,
            r.allow_ip_only_classification,
            forall|k: EvidenceKind| #[trigger] r.host_specific_positive_kinds.has(k) == default_host_specific(k),
    {
        let mut kinds = KindSet::new();
        kinds.insert(EvidenceKind::DnsResolvesToCloudflare);
        kinds.insert(EvidenceKind::TlsCertificateHostnameMatch);
        kinds.insert(EvidenceKind::HttpCfRay);
        kinds.insert(EvidenceKind::HttpCfCacheStatus);
        kinds.insert(EvidenceKind::HttpServerCloudflare);
        kinds.insert(EvidenceKind::HttpCfConnectingIp);
        kinds.insert(EvidenceKind::HttpCfMitigated);
        ClassificationRuleSet {
            cloudflare_threshold: 65,
            not_cloudflare_threshold: -50,
            require_host_specific_positive: true,
            host_specific_positive_kinds: kinds,
            allow_ip_only_classification: true,
        }
    }
}

/// How a score becomes a confidence, and the confidence bands.
///
/// A positive verdict has confidence `positive_base + score * 1000 /
/// positive_divisor` (the score taken in `0 ..= 100`), a negative one
/// `negative_base + |score| * 1000 / negative_divisor`, both at most
/// `max_confidence`; a divisor of 0 makes the quotient unbounded, so the
/// confidence is then the maximum.
#[derive(Debug, Clone, Copy, PartialEq, Eq, Structural)]
pub struct ConfidenceRuleSet {
    pub positive_base: u32,
    pub positive_divisor: u32,
    pub negative_base: u32,
    pub negative_divisor: u32,
    pub max_confidence: u32,
    pub very_high_threshold: u32,
    pub high_threshold: u32,
    pub medium_threshold: u32,
}

impl Default for ConfidenceRuleSet {
    fn default() -> (r: Self)
        ensures
            r == (ConfidenceRuleSet {
                positive_base: 500,
                positive_divisor: 200,
                negative_base: 500,
                negative_divisor: 200,
                max_confidence: 990,
                very_high_threshold: 950,
                high_threshold: 850,
                medium_threshold: 700,
            }),
    {
        ConfidenceRuleSet {
            positive_base: 500,
            positive_divisor: 200,
            negative_base: 500,
            negative_divisor: 200,
            max_confidence: 990,
            very_high_threshold: 950,
            high_threshold: 850,
            medium_threshold: 700,
        }
    }
}

/// The complete rule set of a policy.
#[derive(Debug, Clone)]
pub struct RuleSet {
    /// Weight of each kind of evidence; a kind without an entry weighs 0.
    pub weights: WeightTable,
    /// Cap of each category; a category without an entry is capped to
    /// `[-100, 100]`.
    pub category_caps: CapTable,
    pub dns: DnsRuleSet,
    pub classification: ClassificationRuleSet,
    pub confidence: ConfidenceRuleSet,
    /// Bound of the total score.
    pub overall_cap: ScoreCap,
}

/// The weights of the default policy.
pub open spec fn default_weight(kind: EvidenceKind) -> i16 {
    match kind {
        EvidenceKind::CloudflareIpRange => 80,
        EvidenceKind::IpOutsideCloudflareRange => -100i16,
        EvidenceKind::DnsResolvesToCloudflare => 25,
        EvidenceKind::DnsResolverConsensus => 10,
        EvidenceKind::DnsNoCloudflareResolution => -10i16,
        EvidenceKind::TlsHandshakeSucceeded => 5,
        EvidenceKind::TlsCertificateHostnameMatch => 10,
        EvidenceKind::TlsCertificateHostnameMismatch => -5i16,
        EvidenceKind::TlsCertificateVerified => 5,
        EvidenceKind::HttpCfRay => 35,
        EvidenceKind::HttpCfCacheStatus => 5,
        EvidenceKind::HttpServerCloudflare => 5,
        EvidenceKind::HttpCfConnectingIp => 1,
        EvidenceKind::HttpCfIpCountry => 1,
        EvidenceKind::HttpCfMitigated => 2,
        _ => 0,
    }
}

/// The category caps of the default policy.
pub open spec fn default_cap(cat: EvidenceCategory) -> ScoreCap {
    match cat {
        EvidenceCategory::Network => ScoreCap { min: -100i16, max: 80 },
        EvidenceCategory::Dns => ScoreCap { min: -35i16, max: 35 },
        EvidenceCategory::Tls => ScoreCap { min: -20i16, max: 20 },
        EvidenceCategory::Http => ScoreCap { min: 0, max: 45 },
    }
}

impl RuleSet {
    pub open spec fn spec_weight(self, kind: EvidenceKind) -> i16 {
        match self.weights.lookup(kind) {
            Some(w) => w,
            None => 0,
        }
    }

    pub open spec fn spec_cap(self, cat: EvidenceCategory) -> ScoreCap {
        match self.category_caps.lookup(cat) {
            Some(c) => c,
            None => ScoreCap { min: -100i16, max: 100 },
        }
    }

    /// Every cap is a proper interval.
    pub open spec fn wf(self) -> bool {
        &&& forall|c: EvidenceCategory| (#[trigger] self.spec_cap(c)).valid()
        &&& self.overall_cap.valid()
    }

    pub fn weight(&self, kind: EvidenceKind) -> (r: i16)
        ensures
            r == self.spec_weight(kind),
    {
        match self.weights.get(kind) {
            Some(w) => w,
            None => 0,
        }
    }

    pub fn category_cap(&self, category: EvidenceCategory) -> (r: ScoreCap)
        ensures
            r == self.spec_cap(category),
    {
        match self.category_caps.get(category) {
            Some(c) => c,
            None => ScoreCap::new(-100, 100),
        }
    }

    /// Checks `wf`.
    pub fn is_well_formed(&self) -> (r: bool)
        ensures
            r == self.wf(),
    {
        let network = self.category_cap(EvidenceCategory::Network);
        let dns = self.category_cap(EvidenceCategory::Dns);
        let tls = self.category_cap(EvidenceCategory::Tls);
        let http = self.category_cap(EvidenceCategory::Http);
        let caps_ok = network.min <= network.max && dns.min <= dns.max && tls.min <= tls.max
            && http.min <= http.max;
        proof {
            if caps_ok {
                assert forall|c: EvidenceCategory| (#[trigger] self.spec_cap(c)).valid() by {
                    match c {
                        EvidenceCategory::Network => {},
                        EvidenceCategory::Dns => {},
                        EvidenceCategory::Tls => {},
                        EvidenceCategory::Http => {},
                    }
                }
            }
        }
        caps_ok && self.overall_cap.min <= self.overall_cap.max
    }

    /// The rule set of the default policy.
    pub fn cloudflare_web_proxy_v1() -> (r: Self)
        ensures
            forall|k: EvidenceKind| #[trigger] r.spec_weight(k) == default_weight(k),
            forall|c: EvidenceCategory| #[trigger] r.spec_cap(c) == default_cap(c),
            r.dns == (DnsRuleSet {
                min_successful_ratio: 500,
                min_cloudflare_ratio: 500,
                negative_when_no_cloudflare: true,
            }),
            r.classification.cloudflare_threshold == 65,
            r.classification.not_cloudflare_threshold == -50,
            r.classification.require_host_specific_positive,
            r.classification.allow_ip_only_classification,
            forall|k: EvidenceKind| #[trigger]
                r.classification.host_specific_positive_kinds.has(k) == default_host_specific(k),
            r.confidence == ConfidenceRuleSet::default_rules(),
            r.overall_cap == (ScoreCap { min: -100i16, max: 100 }),
            r.wf(),
    {
        let mut weights = WeightTable::new();
        weights.insert(EvidenceKind::CloudflareIpRange, 80);
        weights.insert(EvidenceKind::IpOutsideCloudflareRange, -100);
        weights.insert(EvidenceKind::DnsResolvesToCloudflare, 25);
        weights.insert(EvidenceKind::DnsResolverConsensus, 10);
        weights.insert(EvidenceKind::DnsNoCloudflareResolution, -10);
        weights.insert(EvidenceKind::TlsHandshakeSucceeded, 5);
        weights.insert(EvidenceKind::TlsCertificateHostnameMatch, 10);
        weights.insert(EvidenceKind::TlsCertificateHostnameMismatch, -5);
        weights.insert(EvidenceKind::TlsCertificateVerified, 5);
        weights.insert(EvidenceKind::TlsCertificateVerificationUnavailable, 0);
        weights.insert(EvidenceKind::HttpCfRay, 35);
        weights.insert(EvidenceKind::HttpCfCacheStatus, 5);
        weights.insert(EvidenceKind::HttpServerCloudflare, 5);
        weights.insert(EvidenceKind::HttpCfConnectingIp, 1);
        weights.insert(EvidenceKind::HttpCfIpCountry, 1);
        weights.insert(EvidenceKind::HttpCfMitigated, 2);
        weights.insert(EvidenceKind::HttpNoCloudflareSignals, 0);
        let mut caps = CapTable::new();
        caps.insert(EvidenceCategory::Network, ScoreCap::new(-100, 80));
        caps.insert(EvidenceCategory::Dns, ScoreCap::new(-35, 35));
        caps.insert(EvidenceCategory::Tls, ScoreCap::new(-20, 20));
        // HTTP headers are strongly correlated: together they are worth
        // at most one strong signal.
        caps.insert(EvidenceCategory::Http, ScoreCap::new(0, 45));
        let r = RuleSet {
            weights,
            category_caps: caps,
            dns: DnsRuleSet {
                min_successful_ratio: 500,
                min_cloudflare_ratio: 500,
                negative_when_no_cloudflare: true,
            },
            classification: ClassificationRuleSet::default(),
            confidence: ConfidenceRuleSet::default(),
            overall_cap: ScoreCap::new(-100, 100),
        };
        assert forall|k: EvidenceKind| #[trigger] r.spec_weight(k) == default_weight(k) by {
            match k {
                EvidenceKind::CloudflareIpRange => {},
                EvidenceKind::IpOutsideCloudflareRange => {},
                EvidenceKind::DnsResolvesToCloudflare => {},
                EvidenceKind::DnsResolverConsensus => {},
                EvidenceKind::DnsNoCloudflareResolution => {},
                EvidenceKind::DnsCnameToCloudflare => {},
                EvidenceKind::DnsCnameChain => {},
                EvidenceKind::TlsHandshakeSucceeded => {},
                EvidenceKind::TlsCertificateHostnameMatch => {},
                EvidenceKind::TlsCertificateHostnameMismatch => {},
                EvidenceKind::TlsCertificateVerified => {},
                EvidenceKind::TlsCertificateVerificationUnavailable => {},
                EvidenceKind::HttpCfRay => {},
                EvidenceKind::HttpCfCacheStatus => {},
                EvidenceKind::HttpServerCloudflare => {},
                EvidenceKind::HttpCfConnectingIp => {},
                EvidenceKind::HttpCfIpCountry => {},
                EvidenceKind::HttpCfMitigated => {},
                EvidenceKind::HttpNoCloudflareSignals => {},
            }
        }
        assert forall|c: EvidenceCategory| #[trigger] r.spec_cap(c) == default_cap(c) by {
            match c {
                EvidenceCategory::Network => {},
                EvidenceCategory::Dns => {},
                EvidenceCategory::Tls => {},
                EvidenceCategory::Http => {},
            }
        }
        assert forall|c: EvidenceCategory| (#[trigger] r.spec_cap(c)).valid() by {
            assert(r.spec_cap(c) == default_cap(c));
        }
        r
    }
}

impl ConfidenceRuleSet {
    pub open spec fn default_rules() -> ConfidenceRuleSet {
        ConfidenceRuleSet {
            positive_base: 500,
            positive_divisor: 200,
            negative_base: 500,
            negative_divisor: 200,
            max_confidence: 990,
            very_high_threshold: 950,
            high_threshold: 850,
            medium_threshold: 700,
        }
    }
}

/// A scoring policy: its identity, its rules and the verdicts it gives.
///
/// The verdict methods have no default bodies: an implementation states its
/// verdicts in `positive_verdict` / `negative_verdict` and returns them
/// (`CloudflareWebProxyV1` gives Cloudflare and NotCloudflare). A default
/// body could not be proved against a verdict that an implementation may
/// state differently.
pub trait DetectionPolicy {
    spec fn policy_metadata(&self) -> PolicyMetadata;

    spec fn policy_rules(&self) -> RuleSet;

    spec fn positive_verdict(&self) -> DetectionClassification;

    spec fn negative_verdict(&self) -> DetectionClassification;

    fn metadata(&self) -> (r: &PolicyMetadata)
        ensures
            *r == self.policy_metadata(),
    ;

    fn rules(&self) -> (r: &RuleSet)
        ensures
            *r == self.policy_rules(),
    ;

    /// The verdict given when the evidence is positive.
    fn positive_classification(&self) -> (r: DetectionClassification)
        ensures
            r == self.positive_verdict(),
    ;

    /// The verdict given when the evidence is negative.
    fn negative_classification(&self) -> (r: DetectionClassification)
        ensures
            r == self.negative_verdict(),
    ;
}

/// The default policy: identifying web traffic served through Cloudflare's
/// published edge network.
#[derive(Debug, Clone)]
pub struct CloudflareWebProxyV1 {
    metadata: PolicyMetadata,
    rules: RuleSet,
}

impl Default for CloudflareWebProxyV1 {
    fn default() -> (r: Self)
        ensures
            r.policy_metadata().id@ == "cloudflare-web-proxy"@,
            r.policy_metadata().version == 1,
            r.policy_metadata().name@ == "Cloudflare Web Proxy V1"@,
            r.policy_metadata().description@
                == "Evidence policy for identifying web traffic served through Cloudflare's published edge network"@,
            forall|k: EvidenceKind| #[trigger] r.policy_rules().spec_weight(k) == default_weight(k),
            forall|c: EvidenceCategory| #[trigger] r.policy_rules().spec_cap(c) == default_cap(c),
            r.policy_rules().dns == (DnsRuleSet {
                min_successful_ratio: 500,
                min_cloudflare_ratio: 500,
                negative_when_no_cloudflare: true,
            }),
            r.policy_rules().classification.cloudflare_threshold == 65,
            r.policy_rules().classification.not_cloudflare_threshold == -50,
            r.policy_rules().classification.require_host_specific_positive,
            r.policy_rules().classification.allow_ip_only_classification,
            forall|k: EvidenceKind| #[trigger]
                r.policy_rules().classification.host_specific_positive_kinds.has(k)
                    == default_host_specific(k),
            r.policy_rules().confidence == ConfidenceRuleSet::default_rules(),
            r.policy_rules().overall_cap == (ScoreCap { min: -100i16, max: 100 }),
            r.policy_rules().wf(),
    {
        CloudflareWebProxyV1 {
            metadata: PolicyMetadata {
                id: copy_str("cloudflare-web-proxy"),
                version: 1,
                name: copy_str("Cloudflare Web Proxy V1"),
                description: copy_str(
                    "Evidence policy for identifying web traffic served through Cloudflare's published edge network",
                ),
            },
            rules: RuleSet::cloudflare_web_proxy_v1(),
        }
    }
}

impl DetectionPolicy for CloudflareWebProxyV1 {
    closed spec fn policy_metadata(&self) -> PolicyMetadata {
        self.metadata
    }

    closed spec fn policy_rules(&self) -> RuleSet {
        self.rules
    }

    open spec fn positive_verdict(&self) -> DetectionClassification {
        DetectionClassification::Cloudflare
    }

    open spec fn negative_verdict(&self) -> DetectionClassification {
        DetectionClassification::NotCloudflare
    }

    fn metadata(&self) -> (r: &PolicyMetadata) {
        &self.metadata
    }

    fn rules(&self) -> (r: &RuleSet) {
        &self.rules
    }

    fn positive_classification(&self) -> (r: DetectionClassification) {
        DetectionClassification::Cloudflare
    }

    fn negative_classification(&self) -> (r: DetectionClassification) {
        DetectionClassification::NotCloudflare
    }
}

impl CloudflareWebProxyV1 {
    /// The rules, for changing them in place.
    pub fn rules_mut(&mut self) -> (r: &mut RuleSet)
        ensures
            *r == old(self).policy_rules(),
            final(self).policy_rules() == *final(r),
            final(self).policy_metadata() == old(self).policy_metadata(),
    {
        &mut self.rules
    }

    pub fn metadata(&self) -> (r: &PolicyMetadata)
        ensures
            *r == self.policy_metadata(),
    {
        &self.metadata
    }
}

} // verus!

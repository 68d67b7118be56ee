//! From evidence items to a score, a verdict and a confidence.

use vstd::prelude::*;

use crate::evidence::model::{
    ConfidenceLevel, DetectionClassification, EvidenceCategory, EvidenceDirection, EvidenceItem,
    EvidenceKind, ItemView, item_views,
};
use crate::evidence::policy::{ConfidenceRuleSet, RuleSet};

verus! {

/// Sum of the scores of the items of one category.
pub open spec fn category_total(items: Seq<ItemView>, cat: EvidenceCategory) -> int
    decreases items.len(),
{
    if items.len() == 0 {
        0
    } else {
        category_total(items.drop_last(), cat) + if items.last().category == cat {
            items.last().score as int
        } else {
            0
        }
    }
}

/// Each category total bounded by its cap, their sum bounded by the overall
/// cap.
pub open spec fn aggregate(items: Seq<ItemView>, rules: RuleSet) -> int {
    rules.overall_cap.bound(
        rules.spec_cap(EvidenceCategory::Network).bound(category_total(items, EvidenceCategory::Network))
            + rules.spec_cap(EvidenceCategory::Dns).bound(category_total(items, EvidenceCategory::Dns))
            + rules.spec_cap(EvidenceCategory::Tls).bound(category_total(items, EvidenceCategory::Tls))
            + rules.spec_cap(EvidenceCategory::Http).bound(category_total(items, EvidenceCategory::Http)),
    )
}

/// Number of items pointing the given way.
pub open spec fn count_direction(items: Seq<ItemView>, dir: EvidenceDirection) -> nat
    decreases items.len(),
{
    if items.len() == 0 {
        0
    } else {
        count_direction(items.drop_last(), dir) + if items.last().direction == dir {
            1nat
        } else {
            0nat
        }
    }
}

/// Some positive item is of a host-specific kind of the rules.
pub open spec fn has_host_specific_positive(items: Seq<ItemView>, rules: RuleSet) -> bool {
    exists|i: int|
        0 <= i < items.len() && (#[trigger] items[i]).direction == EvidenceDirection::Positive
            && rules.classification.host_specific_positive_kinds.has(items[i].kind)
}

/// Some item is of the given kind.
pub open spec fn has_kind(items: Seq<ItemView>, kind: EvidenceKind) -> bool {
    exists|i: int| 0 <= i < items.len() && (#[trigger] items[i]).kind == kind
}

/// The verdict. An address known to be outside Cloudflare gives the
/// negative verdict outright. An IP-only query is decided by the thresholds
/// (a positive one only where the rules allow IP-only classification). A
/// host query needs, besides the positive threshold, a host-specific
/// positive item where the rules require one.
pub open spec fn verdict(
    ip_outside: bool,
    has_hostname: bool,
    score: int,
    items: Seq<ItemView>,
    rules: RuleSet,
    positive: DetectionClassification,
    negative: DetectionClassification,
) -> DetectionClassification {
    let c = rules.classification;
    if ip_outside {
        negative
    } else if !has_hostname {
        if c.allow_ip_only_classification && score >= c.cloudflare_threshold {
            positive
        } else if score <= c.not_cloudflare_threshold {
            negative
        } else {
            DetectionClassification::Unknown
        }
    } else {
        let host_ok = !c.require_host_specific_positive || has_host_specific_positive(items, rules);
        if score >= c.cloudflare_threshold && host_ok {
            positive
        } else if score <= c.not_cloudflare_threshold {
            negative
        } else {
            DetectionClassification::Unknown
        }
    }
}

pub open spec fn min_int(a: int, b: int) -> int {
    if a < b {
        a
    } else {
        b
    }
}

/// Confidence of a verdict, in thousandths: from the score taken in `0 ..= 100` for a
/// positive verdict; the maximum for a negative one backed by an
/// outside-the-ranges item, else from the score's magnitude taken in
/// `0 ..= 32768`; 0 for an unknown verdict.
pub open spec fn confidence_of(
    class: DetectionClassification,
    score: int,
    items: Seq<ItemView>,
    c: ConfidenceRuleSet,
) -> int {
    match class {
        DetectionClassification::Cloudflare => {
            let normalized = if score < 0 {
                0
            } else if score > 100 {
                100
            } else {
                score
            };
            if c.positive_divisor == 0 {
                c.max_confidence as int
            } else {
                min_int(c.positive_base + normalized * 1000 / c.positive_divisor as int, c.max_confidence as int)
            }
        },
        DetectionClassification::NotCloudflare => {
            if has_kind(items, EvidenceKind::IpOutsideCloudflareRange) {
                c.max_confidence as int
            } else {
                let magnitude = if score < 0 {
                    -score
                } else {
                    0
                };
                if c.negative_divisor == 0 {
                    c.max_confidence as int
                } else {
                    min_int(
                        c.negative_base + magnitude * 1000 / c.negative_divisor as int,
                        c.max_confidence as int,
                    )
                }
            }
        },
        DetectionClassification::Unknown => 0,
    }
}

/// The band of a confidence; an unknown verdict is always insufficient.
pub open spec fn level_of(confidence: int, class: DetectionClassification, c: ConfidenceRuleSet) -> ConfidenceLevel {
    if class == DetectionClassification::Unknown {
        ConfidenceLevel::Insufficient
    } else if confidence >= c.very_high_threshold {
        ConfidenceLevel::VeryHigh
    } else if confidence >= c.high_threshold {
        ConfidenceLevel::High
    } else if confidence >= c.medium_threshold {
        ConfidenceLevel::Medium
    } else {
        ConfidenceLevel::Low
    }
}

proof fn lemma_take_step(v: Seq<ItemView>, i: int)
    requires
        0 <= i < v.len(),
    ensures
        v.take(i + 1).drop_last() == v.take(i),
        v.take(i + 1).last() == v[i],
{
    assert(v.take(i + 1).drop_last() =~= v.take(i));
}

/// The aggregate score of the items.
#[verifier::rlimit(40)]
pub fn aggregate_score(evidence: &Vec<EvidenceItem>, rules: &RuleSet) -> (r: i16)
    requires
        rules.wf(),
    ensures
        r == aggregate(item_views(evidence@), *rules),
{
    let ghost v = item_views(evidence@);
    let mut network: i128 = 0;
    let mut dns: i128 = 0;
    let mut tls: i128 = 0;
    let mut http: i128 = 0;
    let mut i: usize = 0;
    while i < evidence.len()
        invariant
            v == item_views(evidence@),
            i <= evidence@.len(),
            network == category_total(v.take(i as int), EvidenceCategory::Network),
            dns == category_total(v.take(i as int), EvidenceCategory::Dns),
            tls == category_total(v.take(i as int), EvidenceCategory::Tls),
            http == category_total(v.take(i as int), EvidenceCategory::Http),
            -32768 * i <= network <= 32767 * i,
            -32768 * i <= dns <= 32767 * i,
            -32768 * i <= tls <= 32767 * i,
            -32768 * i <= http <= 32767 * i,
        decreases evidence@.len() - i,
    {
        let item = &evidence[i];
        proof {
            lemma_take_step(v, i as int);
            assert(v[i as int] == evidence@[i as int]@);
        }
        let s = item.score as i128;
        match item.category {
            EvidenceCategory::Network => {
                network = network + s;
            },
            EvidenceCategory::Dns => {
                dns = dns + s;
            },
            EvidenceCategory::Tls => {
                tls = tls + s;
            },
            EvidenceCategory::Http => {
                http = http + s;
            },
        }
        i += 1;
    }
    assert(v.take(i as int) =~= v);
    let cn = rules.category_cap(EvidenceCategory::Network);
    let cd = rules.category_cap(EvidenceCategory::Dns);
    let ct = rules.category_cap(EvidenceCategory::Tls);
    let ch = rules.category_cap(EvidenceCategory::Http);
    assert(cn.valid() && cd.valid() && ct.valid() && ch.valid());
    let total = clamp_wide(network, cn.min as i128, cn.max as i128) + clamp_wide(dns, cd.min as i128, cd.max as i128)
        + clamp_wide(tls, ct.min as i128, ct.max as i128) + clamp_wide(http, ch.min as i128, ch.max as i128);
    let bounded = clamp_wide(total, rules.overall_cap.min as i128, rules.overall_cap.max as i128);
    bounded as i16
}

fn clamp_wide(v: i128, min: i128, max: i128) -> (r: i128)
    requires
        min <= max,
    ensures
        r == crate::evidence::tables::clamp_to(v as int, min as int, max as int),
{
    if v < min {
        min
    } else if v > max {
        max
    } else {
        v
    }
}

/// Number of items pointing the given way.
pub fn count_items(evidence: &Vec<EvidenceItem>, dir: EvidenceDirection) -> (r: usize)
    ensures
        r == count_direction(item_views(evidence@), dir),
{
    let ghost v = item_views(evidence@);
    let mut n: usize = 0;
    let mut i: usize = 0;
    while i < evidence.len()
        invariant
            v == item_views(evidence@),
            i <= evidence@.len(),
            n <= i,
            n == count_direction(v.take(i as int), dir),
        decreases evidence@.len() - i,
    {
        proof {
            lemma_take_step(v, i as int);
            assert(v[i as int] == evidence@[i as int]@);
        }
        if evidence[i].direction == dir {
            n += 1;
        }
        i += 1;
    }
    assert(v.take(i as int) =~= v);
    n
}

fn host_specific_positive(evidence: &Vec<EvidenceItem>, rules: &RuleSet) -> (r: bool)
    ensures
        r == has_host_specific_positive(item_views(evidence@), *rules),
{
    let ghost v = item_views(evidence@);
    let mut i: usize = 0;
    while i < evidence.len()
        invariant
            v == item_views(evidence@),
            i <= evidence@.len(),
            forall|j: int|
                0 <= j < i ==> !((#[trigger] v[j]).direction == EvidenceDirection::Positive
                    && rules.classification.host_specific_positive_kinds.has(v[j].kind)),
        decreases evidence@.len() - i,
    {
        let item = &evidence[i];
        assert(v[i as int] == evidence@[i as int]@);
        if item.direction == EvidenceDirection::Positive
            && rules.classification.host_specific_positive_kinds.contains(&item.kind) {
            return true;
        }
        i += 1;
    }
    false
}

fn contains_kind(evidence: &Vec<EvidenceItem>, kind: EvidenceKind) -> (r: bool)
    ensures
        r == has_kind(item_views(evidence@), kind),
{
    let ghost v = item_views(evidence@);
    let mut i: usize = 0;
    while i < evidence.len()
        invariant
            v == item_views(evidence@),
            i <= evidence@.len(),
            forall|j: int| 0 <= j < i ==> (#[trigger] v[j]).kind != kind,
        decreases evidence@.len() - i,
    {
        assert(v[i as int] == evidence@[i as int]@);
        if evidence[i].kind == kind {
            return true;
        }
        i += 1;
    }
    false
}

/// The verdict; see `verdict`.
pub fn classify(
    ip_outside: bool,
    has_hostname: bool,
    score: i16,
    evidence: &Vec<EvidenceItem>,
    rules: &RuleSet,
    positive: DetectionClassification,
    negative: DetectionClassification,
) -> (r: DetectionClassification)
    ensures
        r == verdict(ip_outside, has_hostname, score as int, item_views(evidence@), *rules, positive, negative),
{
    let c = &rules.classification;
    if ip_outside {
        negative
    } else if !has_hostname {
        if c.allow_ip_only_classification && score >= c.cloudflare_threshold {
            positive
        } else if score <= c.not_cloudflare_threshold {
            negative
        } else {
            DetectionClassification::Unknown
        }
    } else {
        let host_ok = !c.require_host_specific_positive || host_specific_positive(evidence, rules);
        if score >= c.cloudflare_threshold && host_ok {
            positive
        } else if score <= c.not_cloudflare_threshold {
            negative
        } else {
            DetectionClassification::Unknown
        }
    }
}

/// The confidence (‰) of a verdict; see `confidence_of`.
pub fn calculate_confidence(
    class: DetectionClassification,
    score: i16,
    evidence: &Vec<EvidenceItem>,
    c: &ConfidenceRuleSet,
) -> (r: u32)
    ensures
        r == confidence_of(class, score as int, item_views(evidence@), *c),
{
    match class {
        DetectionClassification::Cloudflare => {
            let normalized: u64 = if score < 0 {
                0
            } else if score > 100 {
                100
            } else {
                score as u64
            };
            if c.positive_divisor == 0 {
                return c.max_confidence;
            }
            let v: u64 = c.positive_base as u64 + normalized * 1000 / (c.positive_divisor as u64);
            if v < c.max_confidence as u64 {
                v as u32
            } else {
                c.max_confidence
            }
        },
        DetectionClassification::NotCloudflare => {
            if contains_kind(evidence, EvidenceKind::IpOutsideCloudflareRange) {
                c.max_confidence
            } else {
                let magnitude: u64 = if score < 0 {
                    (-(score as i32)) as u64
                } else {
                    0
                };
                if c.negative_divisor == 0 {
                    return c.max_confidence;
                }
                let v: u64 = c.negative_base as u64 + magnitude * 1000 / (c.negative_divisor as u64);
                if v < c.max_confidence as u64 {
                    v as u32
                } else {
                    c.max_confidence
                }
            }
        },
        DetectionClassification::Unknown => 0,
    }
}

impl ConfidenceLevel {
    /// The band of a confidence; see `level_of`.
    pub fn from_confidence(
        confidence: u32,
        classification: DetectionClassification,
        rules: &ConfidenceRuleSet,
    ) -> (r: ConfidenceLevel)
        ensures
            r == level_of(confidence as int, classification, *rules),
    {
        match classification {
            DetectionClassification::Unknown => ConfidenceLevel::Insufficient,
            _ => {
                if confidence >= rules.very_high_threshold {
                    ConfidenceLevel::VeryHigh
                } else if confidence >= rules.high_threshold {
                    ConfidenceLevel::High
                } else if confidence >= rules.medium_threshold {
                    ConfidenceLevel::Medium
                } else {
                    ConfidenceLevel::Low
                }
            },
        }
    }
}

} // verus!

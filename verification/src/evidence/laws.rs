//! Properties of the evidence model that hold for every input and every
//! well-formed rule set.

use vstd::prelude::*;

use crate::dns::model::{DnsDetection, DnsDetectionStatus};
use crate::evidence::engine::{InputView, dns_items, evidence_of};
use crate::evidence::model::{
    ConfidenceLevel, DetectionClassification, EvidenceCategory, EvidenceKind, ItemView,
};
use crate::evidence::policy::{ConfidenceRuleSet, RuleSet};
use crate::evidence::scoring::{
    aggregate, category_total, confidence_of, has_host_specific_positive, has_kind, level_of, verdict,
};
use crate::evidence::tables::ScoreCap;

verus! {

/// Bounding by a proper cap lands inside it, and bounding twice changes
/// nothing.
pub proof fn law_clamp_within_and_idempotent(cap: ScoreCap, v: int)
    requires
        cap.valid(),
    ensures
        cap.min <= cap.bound(v) <= cap.max,
        cap.bound(cap.bound(v)) == cap.bound(v),
        cap.min <= v <= cap.max ==> cap.bound(v) == v,
{
}

/// The score always lies within the overall cap, however many items there
/// are.
pub proof fn law_score_within_overall_cap(items: Seq<ItemView>, rules: RuleSet)
    requires
        rules.wf(),
    ensures
        rules.overall_cap.min <= aggregate(items, rules) <= rules.overall_cap.max,
{
}

/// An address found outside Cloudflare's ranges gives the negative verdict,
/// whatever the other evidence (spoofed headers included).
pub proof fn law_outside_ip_is_negative(
    input: InputView,
    score: int,
    items: Seq<ItemView>,
    rules: RuleSet,
    positive: DetectionClassification,
    negative: DetectionClassification,
)
    requires
        input.ip_outside(),
    ensures
        verdict(input.ip_outside(), input.hostname is Some, score, items, rules, positive, negative)
            == negative,
{
}

/// A host query without a host-specific positive item is never given the
/// positive verdict where the rules require one: a Cloudflare address alone
/// does not prove that the host is behind Cloudflare.
pub proof fn law_host_query_needs_host_specific_evidence(
    ip_outside: bool,
    score: int,
    items: Seq<ItemView>,
    rules: RuleSet,
    positive: DetectionClassification,
    negative: DetectionClassification,
)
    requires
        rules.classification.require_host_specific_positive,
        !has_host_specific_positive(items, rules),
    ensures
        verdict(ip_outside, true, score, items, rules, positive, negative) == negative || verdict(
            ip_outside,
            true,
            score,
            items,
            rules,
            positive,
            negative,
        ) == DetectionClassification::Unknown,
{
}

/// A positive verdict (distinct from the negative one) is only given at or
/// above the positive threshold.
pub proof fn law_positive_verdict_meets_threshold(
    ip_outside: bool,
    has_hostname: bool,
    score: int,
    items: Seq<ItemView>,
    rules: RuleSet,
    positive: DetectionClassification,
    negative: DetectionClassification,
)
    requires
        positive != negative,
        positive != DetectionClassification::Unknown,
        verdict(ip_outside, has_hostname, score, items, rules, positive, negative) == positive,
    ensures
        score >= rules.classification.cloudflare_threshold,
        !ip_outside,
{
}

/// A failed DNS resolution is no evidence at all, not negative evidence:
/// the items are those of the same query without the DNS stage.
pub proof fn law_failed_dns_is_not_evidence(input: InputView, d: DnsDetection, rules: RuleSet)
    requires
        input.dns == Some(d),
        d.status == DnsDetectionStatus::Unknown,
    ensures
        dns_items(input.dns, rules) == Seq::<ItemView>::empty(),
        evidence_of(input, rules) == evidence_of(InputView { dns: None, ..input }, rules),
{
    assert(evidence_of(input, rules) =~= evidence_of(InputView { dns: None, ..input }, rules));
}

/// An undecided verdict carries no confidence and the insufficient band.
pub proof fn law_unknown_is_insufficient(score: int, items: Seq<ItemView>, c: ConfidenceRuleSet, confidence: int)
    ensures
        confidence_of(DetectionClassification::Unknown, score, items, c) == 0,
        level_of(confidence, DetectionClassification::Unknown, c) == ConfidenceLevel::Insufficient,
{
}

/// A negative verdict backed by an address outside the ranges has the
/// maximum confidence.
pub proof fn law_outside_ip_has_max_confidence(score: int, items: Seq<ItemView>, c: ConfidenceRuleSet)
    requires
        has_kind(items, EvidenceKind::IpOutsideCloudflareRange),
    ensures
        confidence_of(DetectionClassification::NotCloudflare, score, items, c) == c.max_confidence,
{
}

proof fn lemma_category_total_append(a: Seq<ItemView>, b: Seq<ItemView>, cat: EvidenceCategory)
    ensures
        category_total(a + b, cat) == category_total(a, cat) + category_total(b, cat),
    decreases b.len(),
{
    if b.len() == 0 {
        assert(a + b =~= a);
    } else {
        lemma_category_total_append(a, b.drop_last(), cat);
        assert((a + b).drop_last() =~= a + b.drop_last());
    }
}

proof fn lemma_bound_moves_at_most_width(cap: ScoreCap, x: int, y: int)
    requires
        cap.valid(),
    ensures
        cap.bound(x) - cap.bound(y) <= cap.max - cap.min,
        cap.bound(y) - cap.bound(x) <= cap.max - cap.min,
{
}

/// Correlated HTTP headers cannot pile up: adding any number of HTTP items
/// moves the score by at most the width of the HTTP cap.
pub proof fn law_http_items_move_score_at_most_cap_width(
    base: Seq<ItemView>,
    http: Seq<ItemView>,
    rules: RuleSet,
)
    requires
        rules.wf(),
        forall|i: int| 0 <= i < http.len() ==> (#[trigger] http[i]).category == EvidenceCategory::Http,
    ensures
        aggregate(base + http, rules) - aggregate(base, rules) <= rules.spec_cap(EvidenceCategory::Http).max
            - rules.spec_cap(EvidenceCategory::Http).min,
        aggregate(base, rules) - aggregate(base + http, rules) <= rules.spec_cap(EvidenceCategory::Http).max
            - rules.spec_cap(EvidenceCategory::Http).min,
{
    let cap = rules.spec_cap(EvidenceCategory::Http);
    assert forall|c: EvidenceCategory| c != EvidenceCategory::Http implies #[trigger] category_total(http, c)
        == 0 by {
        lemma_only_category_total(http, c);
    }
    lemma_category_total_append(base, http, EvidenceCategory::Network);
    lemma_category_total_append(base, http, EvidenceCategory::Dns);
    lemma_category_total_append(base, http, EvidenceCategory::Tls);
    lemma_category_total_append(base, http, EvidenceCategory::Http);
    assert(category_total(http, EvidenceCategory::Network) == 0);
    assert(category_total(http, EvidenceCategory::Dns) == 0);
    assert(category_total(http, EvidenceCategory::Tls) == 0);
    assert(cap.valid());
    lemma_bound_moves_at_most_width(
        cap,
        category_total(base + http, EvidenceCategory::Http),
        category_total(base, EvidenceCategory::Http),
    );
}

proof fn lemma_only_category_total(items: Seq<ItemView>, c: EvidenceCategory)
    requires
        forall|i: int| 0 <= i < items.len() ==> (#[trigger] items[i]).category == EvidenceCategory::Http,
        c != EvidenceCategory::Http,
    ensures
        category_total(items, c) == 0,
    decreases items.len(),
{
    if items.len() > 0 {
        let rest = items.drop_last();
        assert forall|i: int| 0 <= i < rest.len() implies (#[trigger] rest[i]).category
            == EvidenceCategory::Http by {
            assert(rest[i] == items[i]);
        }
        lemma_only_category_total(rest, c);
        assert(items[items.len() - 1].category == EvidenceCategory::Http);
    }
}

} // verus!

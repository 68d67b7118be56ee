//! The one-sentence summary of a detection result.

use vstd::prelude::*;

use crate::evidence::model::{DetectionClassification, EvidenceDirection, EvidenceItem, ItemView, item_views};
use crate::text::{decimal, decimal_exec, push_str, signed_decimal, signed_decimal_exec, texts};

verus! {

/// The reasons of the items pointing the given way, in order.
pub open spec fn reasons_with(items: Seq<ItemView>, dir: EvidenceDirection) -> Seq<Seq<char>>
    decreases items.len(),
{
    if items.len() == 0 {
        seq![]
    } else {
        let rest = reasons_with(items.drop_last(), dir);
        if items.last().direction == dir {
            rest.push(items.last().reason)
        } else {
            rest
        }
    }
}

/// At most the first `n` elements.
pub open spec fn first_n(s: Seq<Seq<char>>, n: nat) -> Seq<Seq<char>> {
    if s.len() <= n {
        s
    } else {
        s.take(n as int)
    }
}

/// The parts with the separator between each two of them.
pub open spec fn join(parts: Seq<Seq<char>>, sep: Seq<char>) -> Seq<char>
    decreases parts.len(),
{
    if parts.len() == 0 {
        seq![]
    } else if parts.len() == 1 {
        parts[0]
    } else {
        join(parts.drop_last(), sep) + sep + parts.last()
    }
}

/// A value in thousandths written as a decimal with two places, rounded
/// half up (`900` is `0.90`, `925` is `0.93`).
pub open spec fn hundredths_text(thousandths: nat) -> Seq<char> {
    let h = (thousandths + 5) / 10;
    decimal(h / 100) + "."@ + decimal((h % 100) / 10) + decimal(h % 10)
}

/// The summary: the verdict, score and confidence, with the reasons of the
/// first three positive and the first two negative items.
pub open spec fn summary_text(
    class: DetectionClassification,
    confidence: nat,
    score: int,
    items: Seq<ItemView>,
) -> Seq<char> {
    let positive = first_n(reasons_with(items, EvidenceDirection::Positive), 3);
    let negative = first_n(reasons_with(items, EvidenceDirection::Negative), 2);
    match class {
        DetectionClassification::Cloudflare => "Cloudflare evidence is strong (score="@ + signed_decimal(score)
            + ", confidence="@ + hundredths_text(confidence) + "); positive signals: "@ + join(
            positive,
            "; "@,
        ),
        DetectionClassification::NotCloudflare => "Cloudflare evidence is insufficient or contradicted (score="@
            + signed_decimal(score) + ", confidence="@ + hundredths_text(confidence)
            + "); negative signals: "@ + join(negative, "; "@),
        DetectionClassification::Unknown => if positive.len() == 0 && negative.len() == 0 {
            "insufficient evidence to classify the target (score="@ + signed_decimal(score) + ")"@
        } else {
            "evidence is inconclusive (score="@ + signed_decimal(score) + "); positive: "@ + join(
                positive,
                "; "@,
            ) + "; negative: "@ + join(negative, "; "@)
        },
    }
}

proof fn lemma_reasons_step(v: Seq<ItemView>, dir: EvidenceDirection, i: int)
    requires
        0 <= i < v.len(),
    ensures
        reasons_with(v.take(i + 1), dir) == if v[i].direction == dir {
            reasons_with(v.take(i), dir).push(v[i].reason)
        } else {
            reasons_with(v.take(i), dir)
        },
{
    assert(v.take(i + 1).drop_last() =~= v.take(i));
}

/// The reasons of the first `n` items pointing the given way.
fn first_reasons(evidence: &Vec<EvidenceItem>, dir: EvidenceDirection, n: usize) -> (r: Vec<String>)
    ensures
        texts(r@) == first_n(reasons_with(item_views(evidence@), dir), n as nat),
{
    let ghost v = item_views(evidence@);
    let mut r: Vec<String> = Vec::new();
    let mut i: usize = 0;
    while i < evidence.len()
        invariant
            v == item_views(evidence@),
            i <= evidence@.len(),
            r@.len() <= n,
            texts(r@) == first_n(reasons_with(v.take(i as int), dir), n as nat),
        decreases evidence@.len() - i,
    {
        let ghost s = reasons_with(v.take(i as int), dir);
        proof {
            lemma_reasons_step(v, dir, i as int);
            assert(v[i as int] == evidence@[i as int]@);
        }
        if evidence[i].direction == dir {
            if r.len() < n {
                let reason = evidence[i].reason.clone();
                let ghost before = r@;
                r.push(reason);
                assert(texts(r@) =~= texts(before).push(reason@));
                assert(s.len() < n);
                assert(first_n(s.push(evidence@[i as int].reason@), n as nat) =~= s.push(
                    evidence@[i as int].reason@,
                ));
            } else {
                assert(s.len() >= n);
                assert(first_n(s.push(evidence@[i as int].reason@), n as nat) =~= first_n(s, n as nat));
            }
        }
        i += 1;
    }
    assert(v.take(i as int) =~= v);
    r
}

/// The strings joined by the separator.
fn join_strings(parts: &Vec<String>, sep: &str) -> (r: String)
    ensures
        r@ == join(texts(parts@), sep@),
{
    let ghost t = texts(parts@);
    let mut r = String::new();
    let mut i: usize = 0;
    while i < parts.len()
        invariant
            t == texts(parts@),
            i <= parts@.len(),
            r@ == join(t.take(i as int), sep@),
        decreases parts@.len() - i,
    {
        let ghost before = r@;
        if i > 0 {
            push_str(&mut r, sep);
        }
        push_str(&mut r, parts[i].as_str());
        proof {
            assert(t.take(i + 1).drop_last() =~= t.take(i as int));
            assert(t[i as int] == parts@[i as int]@);
            if i == 0 {
                assert(t.take(1).len() == 1);
                assert(before =~= Seq::<char>::empty());
                assert(r@ =~= t.take(1)[0]);
            }
        }
        i += 1;
    }
    assert(t.take(i as int) =~= t);
    r
}

/// `hundredths_text`.
fn hundredths(thousandths: u32) -> (r: String)
    ensures
        r@ == hundredths_text(thousandths as nat),
{
    let h: u64 = (thousandths as u64 + 5) / 10;
    let mut r = decimal_exec(h / 100);
    push_str(&mut r, ".");
    let tens = decimal_exec((h % 100) / 10);
    push_str(&mut r, tens.as_str());
    let ones = decimal_exec(h % 10);
    push_str(&mut r, ones.as_str());
    r
}

/// The summary of a result; see `summary_text`.
pub fn build_summary(
    class: DetectionClassification,
    confidence: u32,
    score: i16,
    evidence: &Vec<EvidenceItem>,
) -> (r: String)
    ensures
        r@ == summary_text(class, confidence as nat, score as int, item_views(evidence@)),
{
    let positive = first_reasons(evidence, EvidenceDirection::Positive, 3);
    let negative = first_reasons(evidence, EvidenceDirection::Negative, 2);
    let score_text = signed_decimal_exec(score as i64);
    match class {
        DetectionClassification::Cloudflare => {
            let mut r = String::new();
            push_str(&mut r, "Cloudflare evidence is strong (score=");
            push_str(&mut r, score_text.as_str());
            push_str(&mut r, ", confidence=");
            let c = hundredths(confidence);
            push_str(&mut r, c.as_str());
            push_str(&mut r, "); positive signals: ");
            let j = join_strings(&positive, "; ");
            push_str(&mut r, j.as_str());
            r
        },
        DetectionClassification::NotCloudflare => {
            let mut r = String::new();
            push_str(&mut r, "Cloudflare evidence is insufficient or contradicted (score=");
            push_str(&mut r, score_text.as_str());
            push_str(&mut r, ", confidence=");
            let c = hundredths(confidence);
            push_str(&mut r, c.as_str());
            push_str(&mut r, "); negative signals: ");
            let j = join_strings(&negative, "; ");
            push_str(&mut r, j.as_str());
            r
        },
        DetectionClassification::Unknown => {
            let mut r = String::new();
            if positive.len() == 0 && negative.len() == 0 {
                push_str(&mut r, "insufficient evidence to classify the target (score=");
                push_str(&mut r, score_text.as_str());
                push_str(&mut r, ")");
            } else {
                push_str(&mut r, "evidence is inconclusive (score=");
                push_str(&mut r, score_text.as_str());
                push_str(&mut r, "); positive: ");
                let jp = join_strings(&positive, "; ");
                push_str(&mut r, jp.as_str());
                push_str(&mut r, "; negative: ");
                let jn = join_strings(&negative, "; ");
                push_str(&mut r, jn.as_str());
            }
            r
        },
    }
}

} // verus!

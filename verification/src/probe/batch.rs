//! Batch scanning: its configuration, the outcome of each target and the
//! summary of a batch.

use vstd::prelude::*;

use std::time::Duration;

use crate::error::{CfProbeError, ErrorView};
use crate::evidence::model::{DetectionClassification, opt_text};
use crate::probe::model::ProbeResult;
use crate::probe::target::Target;
use crate::text::{copy_str, decimal, decimal_exec, push_str};
use crate::time::{debug_duration, duration_debug_text, duration_from_secs, duration_nanos, nanos};

verus! {

/// Concurrency, per-target timeout, start rate and size limit of a batch.
#[derive(Debug, Clone)]
pub struct BatchScanConfig {
    /// Targets probed at the same time.
    pub concurrency: usize,
    /// Total time one target may take, all stages included.
    pub target_timeout: Duration,
    /// New targets started per second; `None` for no limit.
    pub requests_per_second: Option<u32>,
    /// Largest number of targets a batch may hold; `None` for no limit.
    pub max_targets: Option<usize>,
}

impl Default for BatchScanConfig {
    /// Concurrency 32, a 30 s timeout, no rate or size limit.
    fn default() -> (r: Self)
        ensures
            r.concurrency == 32,
            nanos(r.target_timeout) == 30_000_000_000,
            r.requests_per_second is None,
            r.max_targets is None,
    {
        BatchScanConfig {
            concurrency: 32,
            target_timeout: duration_from_secs(30),
            requests_per_second: None,
            max_targets: None,
        }
    }
}

impl BatchScanConfig {
    /// The first problem of the configuration, if any.
    pub open spec fn problem(self) -> Option<Seq<char>> {
        if self.concurrency == 0 {
            Some("batch concurrency cannot be 0"@)
        } else if nanos(self.target_timeout) == 0 {
            Some("target timeout cannot be zero"@)
        } else if self.requests_per_second == Some(0u32) {
            Some("requests_per_second cannot be 0"@)
        } else if self.max_targets == Some(0usize) {
            Some("max_targets cannot be 0"@)
        } else {
            None
        }
    }

    /// Non-zero concurrency, timeout, rate and size limit.
    pub fn validate(&self) -> (r: Result<(), CfProbeError>)
        ensures
            match self.problem() {
                None => r is Ok,
                Some(m) => r matches Err(e) && e@ == ErrorView::InvalidResponse(m),
            },
    {
        if self.concurrency == 0 {
            return Err(CfProbeError::invalid(copy_str("batch concurrency cannot be 0")));
        }
        if duration_nanos(&self.target_timeout) == 0 {
            return Err(CfProbeError::invalid(copy_str("target timeout cannot be zero")));
        }
        if let Some(rps) = self.requests_per_second {
            if rps == 0 {
                return Err(CfProbeError::invalid(copy_str("requests_per_second cannot be 0")));
            }
        }
        if let Some(max_targets) = self.max_targets {
            if max_targets == 0 {
                return Err(CfProbeError::invalid(copy_str("max_targets cannot be 0")));
            }
        }
        Ok(())
    }

    pub fn with_concurrency(self, concurrency: usize) -> (r: Self)
        ensures
            r.concurrency == concurrency,
            r.target_timeout == self.target_timeout,
            r.requests_per_second == self.requests_per_second,
            r.max_targets == self.max_targets,
    {
        BatchScanConfig { concurrency, ..self }
    }

    pub fn with_target_timeout(self, timeout: Duration) -> (r: Self)
        ensures
            r.concurrency == self.concurrency,
            r.target_timeout == timeout,
            r.requests_per_second == self.requests_per_second,
            r.max_targets == self.max_targets,
    {
        BatchScanConfig { target_timeout: timeout, ..self }
    }

    pub fn with_requests_per_second(self, rps: Option<u32>) -> (r: Self)
        ensures
            r.concurrency == self.concurrency,
            r.target_timeout == self.target_timeout,
            r.requests_per_second == rps,
            r.max_targets == self.max_targets,
    {
        BatchScanConfig { requests_per_second: rps, ..self }
    }

    pub fn with_max_targets(self, max_targets: Option<usize>) -> (r: Self)
        ensures
            r.concurrency == self.concurrency,
            r.target_timeout == self.target_timeout,
            r.requests_per_second == self.requests_per_second,
            r.max_targets == max_targets,
    {
        BatchScanConfig { max_targets, ..self }
    }
}

/// The message for a batch over its size limit.
pub open spec fn oversize_message(actual: nat, max_targets: nat) -> Seq<char> {
    "batch contains "@ + decimal(actual) + " targets, exceeding max_targets "@ + decimal(max_targets)
}

/// Refuses a batch larger than its limit.
pub fn validate_batch_size(actual: usize, max_targets: Option<usize>) -> (r: Result<(), CfProbeError>)
    ensures
        match max_targets {
            Some(m) if actual > m => r matches Err(e) && e@ == ErrorView::InvalidResponse(
                oversize_message(actual as nat, m as nat),
            ),
            _ => r is Ok,
        },
{
    match max_targets {
        None => Ok(()),
        Some(m) => {
            if actual > m {
                let mut msg = copy_str("batch contains ");
                let a = decimal_exec(actual as u64);
                push_str(&mut msg, a.as_str());
                push_str(&mut msg, " targets, exceeding max_targets ");
                let b = decimal_exec(m as u64);
                push_str(&mut msg, b.as_str());
                Err(CfProbeError::invalid(msg))
            } else {
                Ok(())
            }
        },
    }
}

/// How one target of a batch ended.
#[derive(Debug, Clone, Copy, PartialEq, Eq, Structural)]
pub enum BatchItemStatus {
    /// The probe finished.
    Completed,
    /// The probe failed (neither timed out nor cancelled).
    Failed,
    /// The probe took longer than the target timeout.
    TimedOut,
    /// The batch was cancelled.
    Cancelled,
}

/// The outcome of one target of a batch.
#[derive(Debug, Clone)]
pub struct BatchItemResult {
    /// Position of the target in the input.
    pub index: usize,
    pub target: Target,
    pub status: BatchItemStatus,
    /// Present only for a completed probe.
    pub result: Option<ProbeResult>,
    /// Readable reason of a failure, timeout or cancellation.
    pub error: Option<String>,
    /// Time from the target's start to its end.
    pub elapsed: Duration,
}

/// The verdict of a completed item.
pub open spec fn item_class(item: BatchItemResult) -> Option<DetectionClassification> {
    match item.result {
        Some(r) => Some(r.detection.classification),
        None => None,
    }
}

impl BatchItemResult {
    pub fn is_completed(&self) -> (r: bool)
        ensures
            r == (self.status == BatchItemStatus::Completed),
    {
        self.status == BatchItemStatus::Completed
    }

    pub fn is_failed(&self) -> (r: bool)
        ensures
            r == (self.status == BatchItemStatus::Failed),
    {
        self.status == BatchItemStatus::Failed
    }

    pub fn is_timed_out(&self) -> (r: bool)
        ensures
            r == (self.status == BatchItemStatus::TimedOut),
    {
        self.status == BatchItemStatus::TimedOut
    }

    pub fn is_cancelled(&self) -> (r: bool)
        ensures
            r == (self.status == BatchItemStatus::Cancelled),
    {
        self.status == BatchItemStatus::Cancelled
    }

    /// The verdict of the probe, for a completed one.
    pub fn classification(&self) -> (r: Option<DetectionClassification>)
        ensures
            r == item_class(*self),
    {
        match &self.result {
            Some(result) => Some(result.detection.classification),
            None => None,
        }
    }
}

/// How far one target of a batch got, as its runner saw it.
pub enum ItemProgress {
    /// The target failed its structural check.
    Invalid(CfProbeError),
    /// The batch was cancelled before the target could start.
    NotStarted,
    /// The probe returned.
    Finished(Result<ProbeResult, CfProbeError>),
    /// The probe ran into the target timeout.
    TimedOut,
}

/// The item of a target: completed with its result; cancelled (with
/// `batch was cancelled`) when it never started or its probe answered
/// `Cancelled`; timed out with the timeout in the message; failed with the
/// error's text otherwise.
pub fn settle_item(
    index: usize,
    target: Target,
    progress: ItemProgress,
    elapsed: Duration,
    target_timeout: &Duration,
) -> (r: BatchItemResult)
    ensures
        r.index == index,
        r.target == target,
        r.elapsed == elapsed,
        match progress {
            ItemProgress::Invalid(e) => r.status == BatchItemStatus::Failed && r.result is None
                && opt_text(r.error) == Some(e@.text()),
            ItemProgress::NotStarted => r.status == BatchItemStatus::Cancelled && r.result is None
                && opt_text(r.error) == Some("batch was cancelled"@),
            ItemProgress::Finished(Ok(p)) => r.status == BatchItemStatus::Completed && r.result
                == Some(p) && r.error is None,
            ItemProgress::Finished(Err(e)) => if e@ == ErrorView::Cancelled {
                r.status == BatchItemStatus::Cancelled && r.result is None && opt_text(r.error)
                    == Some("batch was cancelled"@)
            } else {
                r.status == BatchItemStatus::Failed && r.result is None && opt_text(r.error)
                    == Some(e@.text())
            },
            ItemProgress::TimedOut => r.status == BatchItemStatus::TimedOut && r.result is None
                && opt_text(r.error) == Some("target probe timed out after "@ + debug_duration(
                nanos(*target_timeout),
            )),
        },
{
    match progress {
        ItemProgress::Invalid(e) => BatchItemResult {
            index,
            target,
            status: BatchItemStatus::Failed,
            result: None,
            error: Some(e.to_string()),
            elapsed,
        },
        ItemProgress::NotStarted => BatchItemResult {
            index,
            target,
            status: BatchItemStatus::Cancelled,
            result: None,
            error: Some(copy_str("batch was cancelled")),
            elapsed,
        },
        ItemProgress::Finished(Ok(p)) => BatchItemResult {
            index,
            target,
            status: BatchItemStatus::Completed,
            result: Some(p),
            error: None,
            elapsed,
        },
        ItemProgress::Finished(Err(e)) => {
            if let CfProbeError::Cancelled = e {
                BatchItemResult {
                    index,
                    target,
                    status: BatchItemStatus::Cancelled,
                    result: None,
                    error: Some(copy_str("batch was cancelled")),
                    elapsed,
                }
            } else {
                BatchItemResult {
                    index,
                    target,
                    status: BatchItemStatus::Failed,
                    result: None,
                    error: Some(e.to_string()),
                    elapsed,
                }
            }
        },
        ItemProgress::TimedOut => {
            let mut m = copy_str("target probe timed out after ");
            let d = duration_debug_text(target_timeout);
            push_str(&mut m, d.as_str());
            BatchItemResult {
                index,
                target,
                status: BatchItemStatus::TimedOut,
                result: None,
                error: Some(m),
                elapsed,
            }
        },
    }
}

/// The summary of a batch.
#[derive(Debug, Clone)]
pub struct BatchResult {
    pub total: usize,
    pub completed: usize,
    /// Failures other than timeouts and cancellations.
    pub failed: usize,
    pub timed_out: usize,
    pub cancelled: usize,
    /// Completed targets classified Cloudflare.
    pub cloudflare: usize,
    /// Completed targets classified not Cloudflare.
    pub not_cloudflare: usize,
    /// Completed targets left unknown.
    pub unknown: usize,
    /// Time from the batch's start to the last item.
    pub elapsed: Duration,
    /// Every item.
    pub items: Vec<BatchItemResult>,
}

pub open spec fn count_status(items: Seq<BatchItemResult>, status: BatchItemStatus) -> nat
    decreases items.len(),
{
    if items.len() == 0 {
        0
    } else {
        count_status(items.drop_last(), status) + if items.last().status == status {
            1nat
        } else {
            0nat
        }
    }
}

pub open spec fn count_class(items: Seq<BatchItemResult>, class: DetectionClassification) -> nat
    decreases items.len(),
{
    if items.len() == 0 {
        0
    } else {
        count_class(items.drop_last(), class) + if item_class(items.last()) == Some(class) {
            1nat
        } else {
            0nat
        }
    }
}

/// A sequence without elements holds nothing as a multiset.
proof fn lemma_empty_to_multiset<A>(s: Seq<A>)
    requires
        s.len() == 0,
    ensures
        s.to_multiset() =~= vstd::multiset::Multiset::<A>::empty(),
{
    broadcast use vstd::multiset::group_multiset_axioms;

    s.to_multiset_ensures();
    assert forall|a: A| s.to_multiset().count(a) == 0 by {
        assert(s.to_multiset().count(a) <= s.to_multiset().len());
    }
}

/// The items are in order of their input position.
pub open spec fn ordered_by_index(items: Seq<BatchItemResult>) -> bool {
    forall|i: int, j: int| 0 <= i < j < items.len() ==> (#[trigger] items[i]).index <= (#[trigger] items[j]).index
}

/// Puts the items (which finish in any order) back in the order of their
/// input position, keeping items of equal position in the order given.
pub fn order_by_index(items: Vec<BatchItemResult>) -> (r: Vec<BatchItemResult>)
    ensures
        ordered_by_index(r@),
        r@.to_multiset() == items@.to_multiset(),
{
    let ghost all = items@;
    let mut rest = items;
    let mut sorted: Vec<BatchItemResult> = Vec::new();
    proof {
        broadcast use vstd::multiset::group_multiset_axioms;

        lemma_empty_to_multiset(sorted@);
        assert(sorted@.to_multiset().add(rest@.to_multiset()) =~= all.to_multiset());
    }
    while rest.len() > 0
        invariant
            ordered_by_index(sorted@),
            sorted@.to_multiset().add(rest@.to_multiset()) == all.to_multiset(),
        decreases rest@.len(),
    {
        let ghost before_rest = rest@;
        let x = rest.remove(0);
        proof {
            vstd::seq_lib::to_multiset_remove(before_rest, 0);
            before_rest.to_multiset_ensures();
            assert(before_rest[0] == x);
            assert(before_rest.to_multiset().count(x) > 0);
        }
        let mut p: usize = 0;
        while p < sorted.len() && sorted[p].index <= x.index
            invariant
                p <= sorted@.len(),
                forall|k: int| 0 <= k < p ==> (#[trigger] sorted@[k]).index <= x.index,
            decreases sorted@.len() - p,
        {
            p += 1;
        }
        let ghost before = sorted@;
        proof {
            assert(p < before.len() ==> before[p as int].index > x.index);
            assert forall|k: int| p <= k < before.len() implies (#[trigger] before[k]).index > x.index by {
                assert(before[p as int].index <= before[k].index);
            }
        }
        sorted.insert(p, x);
        proof {
            before.insert_ensures(p as int, x);
            let after = sorted@;
            assert forall|i: int, j: int| 0 <= i < j < after.len() implies (#[trigger] after[i]).index <= (#[trigger] after[j]).index by {
                if i < p && j < p {
                    assert(after[i] == before[i] && after[j] == before[j]);
                } else if i < p && j == p {
                    assert(after[i] == before[i]);
                } else if i < p {
                    assert(after[i] == before[i] && after[j] == before[j - 1]);
                } else if i == p {
                    assert(after[j] == before[j - 1]);
                } else {
                    assert(after[i] == before[i - 1] && after[j] == before[j - 1]);
                }
            }
            vstd::seq_lib::to_multiset_insert(before, p as int, x);
            broadcast use vstd::multiset::group_multiset_axioms;

            assert(after.to_multiset().add(rest@.to_multiset()) =~= before.to_multiset().add(before_rest.to_multiset()));
        }
    }
    proof {
        broadcast use vstd::multiset::group_multiset_axioms;

        lemma_empty_to_multiset(rest@);
        assert(sorted@.to_multiset().add(rest@.to_multiset()) =~= sorted@.to_multiset());
    }
    sorted
}


/// Counts the items by status and by verdict.
pub fn build_batch_result(items: Vec<BatchItemResult>, elapsed: Duration) -> (r: BatchResult)
    ensures
        r.total == items@.len(),
        r.completed == count_status(items@, BatchItemStatus::Completed),
        r.failed == count_status(items@, BatchItemStatus::Failed),
        r.timed_out == count_status(items@, BatchItemStatus::TimedOut),
        r.cancelled == count_status(items@, BatchItemStatus::Cancelled),
        r.cloudflare == count_class(items@, DetectionClassification::Cloudflare),
        r.not_cloudflare == count_class(items@, DetectionClassification::NotCloudflare),
        r.unknown == count_class(items@, DetectionClassification::Unknown),
        r.elapsed == elapsed,
        r.items@ == items@,
{
    let mut completed: usize = 0;
    let mut failed: usize = 0;
    let mut timed_out: usize = 0;
    let mut cancelled: usize = 0;
    let mut cloudflare: usize = 0;
    let mut not_cloudflare: usize = 0;
    let mut unknown: usize = 0;
    let mut i: usize = 0;
    while i < items.len()
        invariant
            i <= items@.len(),
            completed <= i && failed <= i && timed_out <= i && cancelled <= i,
            cloudflare <= i && not_cloudflare <= i && unknown <= i,
            completed == count_status(items@.take(i as int), BatchItemStatus::Completed),
            failed == count_status(items@.take(i as int), BatchItemStatus::Failed),
            timed_out == count_status(items@.take(i as int), BatchItemStatus::TimedOut),
            cancelled == count_status(items@.take(i as int), BatchItemStatus::Cancelled),
            cloudflare == count_class(items@.take(i as int), DetectionClassification::Cloudflare),
            not_cloudflare == count_class(items@.take(i as int), DetectionClassification::NotCloudflare),
            unknown == count_class(items@.take(i as int), DetectionClassification::Unknown),
        decreases items@.len() - i,
    {
        proof {
            assert(items@.take(i + 1).drop_last() =~= items@.take(i as int));
            assert(items@.take(i + 1).last() == items@[i as int]);
        }
        let item = &items[i];
        match item.status {
            BatchItemStatus::Completed => completed += 1,
            BatchItemStatus::Failed => failed += 1,
            BatchItemStatus::TimedOut => timed_out += 1,
            BatchItemStatus::Cancelled => cancelled += 1,
        }
        match item.classification() {
            Some(DetectionClassification::Cloudflare) => cloudflare += 1,
            Some(DetectionClassification::NotCloudflare) => not_cloudflare += 1,
            Some(DetectionClassification::Unknown) => unknown += 1,
            None => {},
        }
        i += 1;
    }
    assert(items@.take(i as int) =~= items@);
    BatchResult {
        total: items.len(),
        completed,
        failed,
        timed_out,
        cancelled,
        cloudflare,
        not_cloudflare,
        unknown,
        elapsed,
        items,
    }
}

/// The start-rate limiter's reservation, on nanoseconds from a common
/// origin: a target starts at the reserved slot or now, whichever is later,
/// and the next slot is one interval after that start.
pub open spec fn start_slot(next_start: nat, now: nat) -> nat {
    if next_start > now {
        next_start
    } else {
        now
    }
}

pub fn reserve_start(next_start: u128, now: u128, interval: u128) -> (r: (u128, u128))
    requires
        start_slot(next_start as nat, now as nat) + interval <= u128::MAX,
    ensures
        r.0 == start_slot(next_start as nat, now as nat),
        r.1 == r.0 + interval,
{
    let start_at = if next_start > now {
        next_start
    } else {
        now
    };
    (start_at, start_at + interval)
}

} // verus!

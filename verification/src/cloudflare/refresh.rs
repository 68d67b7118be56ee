//! The order in which the ranges cache is consulted and refreshed, as a
//! state machine: the memory copy, then (under the process's refresh lock)
//! the memory copy again and the disk copy, then (under the cross-process
//! file lock) the disk copy again, and last a conditional fetch whose
//! outcome is installed and written back. The caller performs each action
//! and answers it with an event.

use vstd::prelude::*;

use std::time::Duration;

use crate::cloudflare::cache::{
    age_within, copy_etag, is_fresh, settle_refresh, stale_candidate, CacheConfig, CacheFile, CacheSource,
    FetchOutcome, CACHE_SCHEMA_VERSION,
};
use crate::cloudflare::client::{CloudflareApiRanges, CloudflareFetchResult};
use crate::error::{CfProbeError, ErrorView};
use crate::time::{nanos, unix_millis};

verus! {

/// Where a look-up of the ranges cache stands.
pub enum RefreshState {
    /// The memory copy is being read.
    CheckingMemory,
    /// The process's refresh lock is being taken.
    WaitingRefreshLock,
    /// The memory copy is read again, under the refresh lock.
    RecheckingMemory,
    /// The disk copy is being read.
    CheckingDisk,
    /// The cross-process file lock is being taken.
    WaitingProcessLock,
    /// The disk copy is read again, under the file lock.
    RecheckingDisk,
    /// The ranges are being fetched; `stale` may stand in if that fails.
    Fetching { stale: Option<CacheFile> },
    /// A copy renewed by a 304 is being written before it is installed.
    WritingBeforeInstall { file: CacheFile },
    /// The copy is being installed in memory; it is written after that
    /// when `write_after` holds.
    Installing { file: CacheFile, source: CacheSource, write_after: bool },
    /// The installed copy is being written to disk.
    Writing { file: CacheFile },
    /// The look-up has ended.
    Done,
}

/// The answer to an action.
pub enum RefreshEvent {
    /// The memory copy, if any, and the time (nanoseconds since the UNIX
    /// epoch).
    Memory { copy: Option<CacheFile>, now: u128 },
    /// The refresh lock is held.
    RefreshLocked,
    /// The disk copy as read (a missing or untrusted file reads as none),
    /// and the time.
    Disk { read: Result<Option<CacheFile>, CfProbeError>, now: u128 },
    /// The file lock is held, or could not be taken.
    ProcessLocked(Result<(), CfProbeError>),
    /// How the fetch ended, and the time since the UNIX epoch.
    Fetched { outcome: FetchOutcome, since_epoch: Duration },
    /// The pending copy was installed in memory, or refused.
    Installed(Result<(), CfProbeError>),
    /// The pending copy was written to disk (whether that worked does not
    /// matter).
    Written,
}

/// What the caller does next.
pub enum RefreshAction {
    CheckMemory,
    TakeRefreshLock,
    ReadDisk,
    TakeProcessLock,
    /// Fetch the ranges, conditionally on the ETag when there is one.
    Fetch { etag: Option<String> },
    /// Install the pending copy in memory, reporting it as from `source`.
    Install { source: CacheSource },
    /// Write the pending copy to disk.
    WriteDisk,
    /// Serve the memory copy that was just read.
    ServeMemory,
    /// Serve the copy that was installed.
    Finish,
    /// End with the error.
    Fail(CfProbeError),
}

/// The event answers the action that led to the state.
pub open spec fn expects(s: RefreshState, e: RefreshEvent) -> bool {
    match s {
        RefreshState::CheckingMemory | RefreshState::RecheckingMemory => e is Memory,
        RefreshState::WaitingRefreshLock => e is RefreshLocked,
        RefreshState::CheckingDisk | RefreshState::RecheckingDisk => e is Disk,
        RefreshState::WaitingProcessLock => e is ProcessLocked,
        RefreshState::Fetching { .. } => e is Fetched,
        RefreshState::Installing { .. } => e is Installed,
        RefreshState::WritingBeforeInstall { .. } | RefreshState::Writing { .. } => e is Written,
        RefreshState::Done => false,
    }
}

/// The copy the pending install or write is about.
pub open spec fn pending_file(s: RefreshState) -> Option<CacheFile> {
    match s {
        RefreshState::WritingBeforeInstall { file } => Some(file),
        RefreshState::Installing { file, .. } => Some(file),
        RefreshState::Writing { file } => Some(file),
        _ => None,
    }
}

/// How many steps a look-up can still take at most.
pub open spec fn remaining_steps(s: RefreshState) -> nat {
    match s {
        RefreshState::CheckingMemory => 10,
        RefreshState::WaitingRefreshLock => 9,
        RefreshState::RecheckingMemory => 8,
        RefreshState::CheckingDisk => 7,
        RefreshState::WaitingProcessLock => 6,
        RefreshState::RecheckingDisk => 5,
        RefreshState::Fetching { .. } => 4,
        RefreshState::WritingBeforeInstall { .. } => 3,
        RefreshState::Installing { .. } => 2,
        RefreshState::Writing { .. } => 1,
        RefreshState::Done => 0,
    }
}

/// The copy is there and fresh at `now`.
pub open spec fn fresh_copy(copy: Option<CacheFile>, now: u128, config: CacheConfig) -> bool {
    copy matches Some(f) && age_within(f, now as nat, config.refresh_interval)
}

/// The milliseconds of a time since the epoch, when they fit an `i64`.
pub open spec fn epoch_millis(since_epoch: Duration) -> Option<i64> {
    let ms = nanos(since_epoch) / 1_000_000;
    if ms <= i64::MAX as nat {
        Some(ms as i64)
    } else {
        None
    }
}

/// A copy renewed by a 304 at `ms`.
pub open spec fn renewed(s: CacheFile, ms: i64) -> CacheFile {
    CacheFile { fetched_at_unix_ms: ms, schema_version: CACHE_SCHEMA_VERSION, ..s }
}

/// The state after the event.
pub open spec fn next_state(s: RefreshState, e: RefreshEvent, config: CacheConfig) -> RefreshState {
    match (s, e) {
        (RefreshState::CheckingMemory, RefreshEvent::Memory { copy, now }) => if fresh_copy(copy, now, config) {
            RefreshState::Done
        } else {
            RefreshState::WaitingRefreshLock
        },
        (RefreshState::WaitingRefreshLock, _) => RefreshState::RecheckingMemory,
        (RefreshState::RecheckingMemory, RefreshEvent::Memory { copy, now }) => if fresh_copy(copy, now, config) {
            RefreshState::Done
        } else {
            RefreshState::CheckingDisk
        },
        (RefreshState::CheckingDisk, RefreshEvent::Disk { read, now }) => match read {
            Err(_) => RefreshState::Done,
            Ok(copy) => if fresh_copy(copy, now, config) {
                RefreshState::Installing { file: copy->0, source: CacheSource::Disk, write_after: false }
            } else {
                RefreshState::WaitingProcessLock
            },
        },
        (RefreshState::WaitingProcessLock, RefreshEvent::ProcessLocked(r)) => match r {
            Err(_) => RefreshState::Done,
            Ok(_) => RefreshState::RecheckingDisk,
        },
        (RefreshState::RecheckingDisk, RefreshEvent::Disk { read, now }) => match read {
            Err(_) => RefreshState::Done,
            Ok(copy) => if fresh_copy(copy, now, config) {
                RefreshState::Installing { file: copy->0, source: CacheSource::Disk, write_after: false }
            } else {
                RefreshState::Fetching {
                    stale: match copy {
                        Some(c) => if age_within(c, now as nat, config.stale_if_error) {
                            Some(c)
                        } else {
                            None
                        },
                        None => None,
                    },
                }
            },
        },
        (RefreshState::Fetching { stale }, RefreshEvent::Fetched { outcome, since_epoch }) => match outcome {
            FetchOutcome::Failed(_) => match stale {
                Some(c) => RefreshState::Installing {
                    file: c,
                    source: CacheSource::StaleFallback,
                    write_after: false,
                },
                None => RefreshState::Done,
            },
            FetchOutcome::Fetched(fetched) => match epoch_millis(since_epoch) {
                None => RefreshState::Done,
                Some(ms) => match fetched {
                    CloudflareFetchResult::NotModified => match stale {
                        Some(c) => RefreshState::WritingBeforeInstall { file: renewed(c, ms) },
                        None => RefreshState::Done,
                    },
                    CloudflareFetchResult::Updated(remote) => RefreshState::Installing {
                        file: CacheFile {
                            schema_version: CACHE_SCHEMA_VERSION,
                            fetched_at_unix_ms: ms,
                            etag: remote.etag,
                            ipv4_cidrs: remote.ipv4_cidrs,
                            ipv6_cidrs: remote.ipv6_cidrs,
                        },
                        source: CacheSource::Network,
                        write_after: true,
                    },
                },
            },
        },
        (RefreshState::WritingBeforeInstall { file }, _) => RefreshState::Installing {
            file,
            source: CacheSource::NotModified,
            write_after: false,
        },
        (RefreshState::Installing { file, write_after, .. }, RefreshEvent::Installed(r)) => match r {
            Err(_) => RefreshState::Done,
            Ok(_) => if write_after {
                RefreshState::Writing { file }
            } else {
                RefreshState::Done
            },
        },
        _ => RefreshState::Done,
    }
}

/// The action after the event: what the next state asks for, or how the
/// look-up ends.
pub open spec fn next_action(s: RefreshState, e: RefreshEvent, config: CacheConfig, a: RefreshAction) -> bool {
    match (s, e) {
        (RefreshState::CheckingMemory, RefreshEvent::Memory { copy, now }) => a == if fresh_copy(copy, now, config) {
            RefreshAction::ServeMemory
        } else {
            RefreshAction::TakeRefreshLock
        },
        (RefreshState::WaitingRefreshLock, _) => a is CheckMemory,
        (RefreshState::RecheckingMemory, RefreshEvent::Memory { copy, now }) => a == if fresh_copy(copy, now, config) {
            RefreshAction::ServeMemory
        } else {
            RefreshAction::ReadDisk
        },
        (RefreshState::CheckingDisk, RefreshEvent::Disk { read, now }) => match read {
            Err(x) => a == RefreshAction::Fail(x),
            Ok(copy) => a == if fresh_copy(copy, now, config) {
                RefreshAction::Install { source: CacheSource::Disk }
            } else {
                RefreshAction::TakeProcessLock
            },
        },
        (RefreshState::WaitingProcessLock, RefreshEvent::ProcessLocked(r)) => match r {
            Err(x) => a == RefreshAction::Fail(x),
            Ok(_) => a is ReadDisk,
        },
        (RefreshState::RecheckingDisk, RefreshEvent::Disk { read, now }) => match read {
            Err(x) => a == RefreshAction::Fail(x),
            Ok(copy) => if fresh_copy(copy, now, config) {
                a == RefreshAction::Install { source: CacheSource::Disk }
            } else {
                a == RefreshAction::Fetch {
                    etag: match next_state(s, e, config) {
                        RefreshState::Fetching { stale: Some(c) } => c.etag,
                        _ => None,
                    },
                }
            },
        },
        (RefreshState::Fetching { stale }, RefreshEvent::Fetched { outcome, since_epoch }) => match outcome {
            FetchOutcome::Failed(x) => match stale {
                Some(_) => a == RefreshAction::Install { source: CacheSource::StaleFallback },
                None => a == RefreshAction::Fail(x),
            },
            FetchOutcome::Fetched(fetched) => match epoch_millis(since_epoch) {
                None => a matches RefreshAction::Fail(x) && x@ == ErrorView::InvalidResponse("timestamp overflow"@),
                Some(_) => match fetched {
                    CloudflareFetchResult::NotModified => match stale {
                        Some(_) => a is WriteDisk,
                        None => a matches RefreshAction::Fail(x) && x@ == ErrorView::InvalidResponse(
                            "Cloudflare returned 304 but local cache is unavailable"@,
                        ),
                    },
                    CloudflareFetchResult::Updated(_) => a == RefreshAction::Install { source: CacheSource::Network },
                },
            },
        },
        (RefreshState::WritingBeforeInstall { .. }, _) => a == RefreshAction::Install { source: CacheSource::NotModified },
        (RefreshState::Installing { write_after, .. }, RefreshEvent::Installed(r)) => match r {
            Err(x) => a == RefreshAction::Fail(x),
            Ok(_) => if write_after {
                a is WriteDisk
            } else {
                a is Finish
            },
        },
        (RefreshState::Writing { .. }, _) => a is Finish,
        _ => false,
    }
}

impl RefreshState {
    /// The copy that the pending install or write is about.
    pub fn pending(&self) -> (r: Option<&CacheFile>)
        ensures
            match pending_file(*self) {
                Some(f) => r == Some(&f),
                None => r is None,
            },
    {
        match self {
            RefreshState::WritingBeforeInstall { file } => Some(file),
            RefreshState::Installing { file, .. } => Some(file),
            RefreshState::Writing { file } => Some(file),
            _ => None,
        }
    }

    /// Whether the event answers the action that led to this state.
    pub fn expects_event(&self, e: &RefreshEvent) -> (r: bool)
        ensures
            r == expects(*self, *e),
    {
        match self {
            RefreshState::CheckingMemory | RefreshState::RecheckingMemory => matches!(e, RefreshEvent::Memory { .. }),
            RefreshState::WaitingRefreshLock => matches!(e, RefreshEvent::RefreshLocked),
            RefreshState::CheckingDisk | RefreshState::RecheckingDisk => matches!(e, RefreshEvent::Disk { .. }),
            RefreshState::WaitingProcessLock => matches!(e, RefreshEvent::ProcessLocked(_)),
            RefreshState::Fetching { .. } => matches!(e, RefreshEvent::Fetched { .. }),
            RefreshState::Installing { .. } => matches!(e, RefreshEvent::Installed(_)),
            RefreshState::WritingBeforeInstall { .. } | RefreshState::Writing { .. } => matches!(e, RefreshEvent::Written),
            RefreshState::Done => false,
        }
    }
}

/// A look-up starts by reading the memory copy.
pub fn refresh_start() -> (r: (RefreshState, RefreshAction))
    ensures
        r.0 == RefreshState::CheckingMemory,
        r.1 is CheckMemory,
{
    (RefreshState::CheckingMemory, RefreshAction::CheckMemory)
}

fn fresh(copy: &Option<CacheFile>, now: u128, config: &CacheConfig) -> (r: bool)
    ensures
        r == fresh_copy(*copy, now, *config),
{
    match copy {
        Some(f) => is_fresh(f, now, config),
        None => false,
    }
}

/// One step of a look-up: the state after the event and the next action.
pub fn refresh_step(s: RefreshState, e: RefreshEvent, config: &CacheConfig) -> (r: (RefreshState, RefreshAction))
    requires
        expects(s, e),
    ensures
        r.0 == next_state(s, e, *config),
        next_action(s, e, *config, r.1),
{
    match (s, e) {
        (RefreshState::CheckingMemory, RefreshEvent::Memory { copy, now }) => {
            if fresh(&copy, now, config) {
                (RefreshState::Done, RefreshAction::ServeMemory)
            } else {
                (RefreshState::WaitingRefreshLock, RefreshAction::TakeRefreshLock)
            }
        },
        (RefreshState::WaitingRefreshLock, _) => (RefreshState::RecheckingMemory, RefreshAction::CheckMemory),
        (RefreshState::RecheckingMemory, RefreshEvent::Memory { copy, now }) => {
            if fresh(&copy, now, config) {
                (RefreshState::Done, RefreshAction::ServeMemory)
            } else {
                (RefreshState::CheckingDisk, RefreshAction::ReadDisk)
            }
        },
        (RefreshState::CheckingDisk, RefreshEvent::Disk { read, now }) => match read {
            Err(x) => (RefreshState::Done, RefreshAction::Fail(x)),
            Ok(copy) => {
                if fresh(&copy, now, config) {
                    match copy {
                        Some(f) => (
                            RefreshState::Installing { file: f, source: CacheSource::Disk, write_after: false },
                            RefreshAction::Install { source: CacheSource::Disk },
                        ),
                        None => (RefreshState::Done, RefreshAction::Finish),
                    }
                } else {
                    (RefreshState::WaitingProcessLock, RefreshAction::TakeProcessLock)
                }
            },
        },
        (RefreshState::WaitingProcessLock, RefreshEvent::ProcessLocked(r)) => match r {
            Err(x) => (RefreshState::Done, RefreshAction::Fail(x)),
            Ok(()) => (RefreshState::RecheckingDisk, RefreshAction::ReadDisk),
        },
        (RefreshState::RecheckingDisk, RefreshEvent::Disk { read, now }) => match read {
            Err(x) => (RefreshState::Done, RefreshAction::Fail(x)),
            Ok(copy) => {
                if fresh(&copy, now, config) {
                    match copy {
                        Some(f) => (
                            RefreshState::Installing { file: f, source: CacheSource::Disk, write_after: false },
                            RefreshAction::Install { source: CacheSource::Disk },
                        ),
                        None => (RefreshState::Done, RefreshAction::Finish),
                    }
                } else {
                    let stale = stale_candidate(copy, now, config);
                    let etag = match &stale {
                        Some(c) => copy_etag(&c.etag),
                        None => None,
                    };
                    (RefreshState::Fetching { stale }, RefreshAction::Fetch { etag })
                }
            },
        },
        (RefreshState::Fetching { stale }, RefreshEvent::Fetched { outcome, since_epoch }) => {
            let now_ms: i64 = match &outcome {
                FetchOutcome::Failed(_) => 0,
                FetchOutcome::Fetched(_) => match unix_millis(&since_epoch) {
                    Ok(ms) => ms,
                    Err(x) => {
                        return (RefreshState::Done, RefreshAction::Fail(x));
                    },
                },
            };
            match settle_refresh(stale, outcome, now_ms) {
                Err(x) => (RefreshState::Done, RefreshAction::Fail(x)),
                Ok((file, source)) => match source {
                    CacheSource::NotModified => (RefreshState::WritingBeforeInstall { file }, RefreshAction::WriteDisk),
                    CacheSource::Network => (
                        RefreshState::Installing { file, source: CacheSource::Network, write_after: true },
                        RefreshAction::Install { source: CacheSource::Network },
                    ),
                    _ => (
                        RefreshState::Installing { file, source, write_after: false },
                        RefreshAction::Install { source },
                    ),
                },
            }
        },
        (RefreshState::WritingBeforeInstall { file }, _) => (
            RefreshState::Installing { file, source: CacheSource::NotModified, write_after: false },
            RefreshAction::Install { source: CacheSource::NotModified },
        ),
        (RefreshState::Installing { file, write_after, .. }, RefreshEvent::Installed(r)) => match r {
            Err(x) => (RefreshState::Done, RefreshAction::Fail(x)),
            Ok(()) => {
                if write_after {
                    (RefreshState::Writing { file }, RefreshAction::WriteDisk)
                } else {
                    (RefreshState::Done, RefreshAction::Finish)
                }
            },
        },
        (RefreshState::Writing { .. }, _) => (RefreshState::Done, RefreshAction::Finish),
        _ => (RefreshState::Done, RefreshAction::Finish),
    }
}

/// Every step moves a look-up forward, so it ends after at most ten steps.
pub proof fn law_refresh_always_ends(s: RefreshState, e: RefreshEvent, config: CacheConfig)
    requires
        expects(s, e),
    ensures
        remaining_steps(next_state(s, e, config)) < remaining_steps(s),
{
}

/// A fresh memory copy is served at once: neither disk nor network is
/// touched.
pub proof fn law_fresh_memory_is_served(e: RefreshEvent, config: CacheConfig, a: RefreshAction)
    requires
        e matches RefreshEvent::Memory { copy, now } && fresh_copy(copy, now, config),
        next_action(RefreshState::CheckingMemory, e, config, a),
    ensures
        next_state(RefreshState::CheckingMemory, e, config) is Done,
        a is ServeMemory,
{
}

/// A failed fetch with a usable disk copy installs that copy, reported as a
/// stale fallback, and never writes it back.
pub proof fn law_failed_fetch_falls_back_to_stale_copy(
    stale: CacheFile,
    e: RefreshEvent,
    config: CacheConfig,
    a: RefreshAction,
)
    requires
        e matches RefreshEvent::Fetched { outcome, .. } && outcome is Failed,
        next_action(RefreshState::Fetching { stale: Some(stale) }, e, config, a),
    ensures
        next_state(RefreshState::Fetching { stale: Some(stale) }, e, config) == (RefreshState::Installing {
            file: stale,
            source: CacheSource::StaleFallback,
            write_after: false,
        }),
        a == (RefreshAction::Install { source: CacheSource::StaleFallback }),
{
}

/// Where a look-up stands once the memory copy was missing twice (before
/// and under the refresh lock): reading the disk copy.
pub open spec fn after_memory_misses(config: CacheConfig, n1: u128, n2: u128) -> RefreshState {
    let s1 = next_state(RefreshState::CheckingMemory, RefreshEvent::Memory { copy: None, now: n1 }, config);
    let s2 = next_state(s1, RefreshEvent::RefreshLocked, config);
    next_state(s2, RefreshEvent::Memory { copy: None, now: n2 }, config)
}

/// The copy made from ranges fetched at `ms` milliseconds since the epoch.
pub open spec fn network_copy(remote: CloudflareApiRanges, ms: i64) -> CacheFile {
    CacheFile {
        schema_version: CACHE_SCHEMA_VERSION,
        fetched_at_unix_ms: ms,
        etag: remote.etag,
        ipv4_cidrs: remote.ipv4_cidrs,
        ipv6_cidrs: remote.ipv6_cidrs,
    }
}

/// Without a memory copy, a look-up takes the refresh lock and reads the
/// memory again, then the disk: it never fetches before both are missing.
pub proof fn law_memory_misses_lead_to_disk(config: CacheConfig, n1: u128, n2: u128)
    ensures
        after_memory_misses(config, n1, n2) is CheckingDisk,
        forall|a: RefreshAction|
            next_action(RefreshState::CheckingMemory, RefreshEvent::Memory { copy: None, now: n1 }, config, a)
                ==> a is TakeRefreshLock,
        forall|a: RefreshAction|
            next_action(RefreshState::RecheckingMemory, RefreshEvent::Memory { copy: None, now: n2 }, config, a)
                ==> a is ReadDisk,
{
}

/// A cache with no memory copy whose disk holds a fresh copy (such as one
/// written by another cache on the same directory) installs and serves that
/// copy, reported as from disk, without fetching.
pub proof fn law_fresh_disk_copy_is_served_without_fetching(
    config: CacheConfig,
    n1: u128,
    n2: u128,
    copy: CacheFile,
    now: u128,
)
    requires
        age_within(copy, now as nat, config.refresh_interval),
    ensures
        next_state(
            after_memory_misses(config, n1, n2),
            RefreshEvent::Disk { read: Ok(Some(copy)), now },
            config,
        ) == (RefreshState::Installing { file: copy, source: CacheSource::Disk, write_after: false }),
        forall|a: RefreshAction|
            next_action(RefreshState::CheckingDisk, RefreshEvent::Disk { read: Ok(Some(copy)), now }, config, a)
                ==> a == (RefreshAction::Install { source: CacheSource::Disk }),
        next_state(
            RefreshState::Installing { file: copy, source: CacheSource::Disk, write_after: false },
            RefreshEvent::Installed(Ok(())),
            config,
        ) is Done,
        forall|a: RefreshAction|
            next_action(
                RefreshState::Installing { file: copy, source: CacheSource::Disk, write_after: false },
                RefreshEvent::Installed(Ok(())),
                config,
                a,
            ) ==> a is Finish,
{
}

/// With nothing on disk, the ranges are fetched without an ETag; fetched
/// ranges are installed, reported as from the network, and then written
/// to disk with the fetch time.
pub proof fn law_empty_cache_fetches_installs_and_writes(
    config: CacheConfig,
    now: u128,
    remote: CloudflareApiRanges,
    since_epoch: Duration,
)
    requires
        epoch_millis(since_epoch) is Some,
    ensures
        next_state(RefreshState::RecheckingDisk, RefreshEvent::Disk { read: Ok(None), now }, config)
            == (RefreshState::Fetching { stale: None }),
        forall|a: RefreshAction|
            next_action(RefreshState::RecheckingDisk, RefreshEvent::Disk { read: Ok(None), now }, config, a)
                ==> a == (RefreshAction::Fetch { etag: None }),
        ({
            let ms = epoch_millis(since_epoch).unwrap();
            let fetched = RefreshEvent::Fetched {
                outcome: FetchOutcome::Fetched(CloudflareFetchResult::Updated(remote)),
                since_epoch,
            };
            let installing = RefreshState::Installing {
                file: network_copy(remote, ms),
                source: CacheSource::Network,
                write_after: true,
            };
            &&& next_state(RefreshState::Fetching { stale: None }, fetched, config) == installing
            &&& forall|a: RefreshAction|
                next_action(RefreshState::Fetching { stale: None }, fetched, config, a)
                    ==> a == (RefreshAction::Install { source: CacheSource::Network })
            &&& next_state(installing, RefreshEvent::Installed(Ok(())), config)
                == (RefreshState::Writing { file: network_copy(remote, ms) })
            &&& forall|a: RefreshAction|
                next_action(installing, RefreshEvent::Installed(Ok(())), config, a) ==> a is WriteDisk
            &&& next_state(
                RefreshState::Writing { file: network_copy(remote, ms) },
                RefreshEvent::Written,
                config,
            ) is Done
        }),
{
}

/// A copy made from ranges fetched at `ms` is fresh for every reading from
/// its fetch time until the refresh interval has passed, so a later
/// look-up in that window serves the memory copy without disk or network.
pub proof fn law_fetched_copy_stays_fresh(
    remote: CloudflareApiRanges,
    ms: i64,
    now: u128,
    config: CacheConfig,
)
    requires
        ms >= 0,
        ms as nat * 1_000_000 <= now,
        now <= ms as nat * 1_000_000 + nanos(config.refresh_interval),
    ensures
        fresh_copy(Some(network_copy(remote, ms)), now, config),
        next_state(
            RefreshState::CheckingMemory,
            RefreshEvent::Memory { copy: Some(network_copy(remote, ms)), now },
            config,
        ) is Done,
        forall|a: RefreshAction|
            next_action(
                RefreshState::CheckingMemory,
                RefreshEvent::Memory { copy: Some(network_copy(remote, ms)), now },
                config,
                a,
            ) ==> a is ServeMemory,
{
}

/// A stale disk copy that may still stand in is fetched again with its
/// ETag; a 304 renews it (written, then installed as not modified) and a
/// failed fetch installs it as a stale fallback.
pub proof fn law_stale_copy_is_revalidated(
    config: CacheConfig,
    copy: CacheFile,
    now: u128,
    since_epoch: Duration,
    error: CfProbeError,
)
    requires
        !age_within(copy, now as nat, config.refresh_interval),
        age_within(copy, now as nat, config.stale_if_error),
        epoch_millis(since_epoch) is Some,
    ensures
        next_state(RefreshState::RecheckingDisk, RefreshEvent::Disk { read: Ok(Some(copy)), now }, config)
            == (RefreshState::Fetching { stale: Some(copy) }),
        forall|a: RefreshAction|
            next_action(RefreshState::RecheckingDisk, RefreshEvent::Disk { read: Ok(Some(copy)), now }, config, a)
                ==> a == (RefreshAction::Fetch { etag: copy.etag }),
        ({
            let ms = epoch_millis(since_epoch).unwrap();
            let not_modified = RefreshEvent::Fetched {
                outcome: FetchOutcome::Fetched(CloudflareFetchResult::NotModified),
                since_epoch,
            };
            let writing = RefreshState::WritingBeforeInstall { file: renewed(copy, ms) };
            &&& next_state(RefreshState::Fetching { stale: Some(copy) }, not_modified, config) == writing
            &&& forall|a: RefreshAction|
                next_action(RefreshState::Fetching { stale: Some(copy) }, not_modified, config, a) ==> a is WriteDisk
            &&& next_state(writing, RefreshEvent::Written, config) == (RefreshState::Installing {
                file: renewed(copy, ms),
                source: CacheSource::NotModified,
                write_after: false,
            })
            &&& forall|a: RefreshAction|
                next_action(writing, RefreshEvent::Written, config, a) ==> a == (RefreshAction::Install {
                    source: CacheSource::NotModified,
                })
        }),
        ({
            let failed = RefreshEvent::Fetched { outcome: FetchOutcome::Failed(error), since_epoch };
            &&& next_state(RefreshState::Fetching { stale: Some(copy) }, failed, config)
                == (RefreshState::Installing { file: copy, source: CacheSource::StaleFallback, write_after: false })
            &&& forall|a: RefreshAction|
                next_action(RefreshState::Fetching { stale: Some(copy) }, failed, config, a) ==> a == (
                RefreshAction::Install { source: CacheSource::StaleFallback })
        }),
{
}

} // verus!

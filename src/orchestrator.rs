//! The download orchestrator for one file, as a state machine. Each call of
//! `step` takes the outcome of the previous action and names the next one;
//! the caller performs it (a cache operation, a liveness check of paths on
//! disk, a question to the user, a transfer attempt, a wait, a hash of the
//! written file) and reports back.
//!
//! Idle -> CacheLookup -> CheckingLocations -> AwaitingDecision -> Skipped,
//! or on to Fetching <-> Waiting -> Verifying -> Storing -> Done; a fatal
//! failure, an exhausted retry budget or a failed cache store end in Failed.
use vstd::prelude::*;

use crate::cache::{
    lookup_agrees, lookup_location_record, store_civitai_model_file_location, store_outcome,
    CacheError, LocationCache,
};
use crate::hash::hashes_match;
use crate::record::LocationRecord;
use crate::retry::{
    retry_decision, FailureKind, GiveUpReason, RetryDecision, RetryPolicy, RetryState,
};
use crate::text::eq_ignore_ascii_case;

verus! {

/// One file to fetch, as the catalog describes it.
#[derive(Debug)]
pub struct DownloadTarget {
    pub source_url: String,
    pub expected_size: Option<u64>,
    /// The content hash the catalog declares, if it declares one.
    pub known_hash: Option<String>,
    pub destination_dir: String,
    /// The file name, used for the file written and reported back.
    pub display_name: String,
    pub model_id: u64,
    pub version_id: u64,
    pub file_id: u64,
}

#[derive(Clone, Copy, Debug, PartialEq, Eq)]
pub enum Phase {
    Idle,
    CacheLookup,
    CheckingLocations,
    AwaitingDecision,
    Fetching,
    Waiting,
    Verifying,
    Storing,
    Done,
    Skipped,
    Failed,
}

/// What the caller reports back.
#[derive(Debug)]
pub enum Event {
    Start,
    LookupDone(Result<Option<LocationRecord>, CacheError>),
    /// For each location handed out, whether it still exists on disk.
    LocationsChecked(Vec<bool>),
    /// The user's answer: `true` to download again.
    OverwriteDecided(bool),
    TransferCompleted { bytes_written: u64 },
    TransferFailed { failure: FailureKind, elapsed_ms: u64, jitter: u64 },
    WaitFinished,
    HashComputed { computed_hash: String, canonical_path: String },
    StoreDone(Result<(), CacheError>),
}

/// Why the operation ended without a file.
#[derive(Debug)]
pub enum DownloadError {
    /// A failure that retrying cannot mend.
    Fatal(FailureKind),
    /// Transient failures used up the allowed attempts or time; carries the last.
    RetryBudgetExhausted(FailureKind),
    /// The verified file could not be recorded in the cache.
    Cache(CacheError),
    /// An event that does not fit the current phase.
    UnexpectedEvent,
}

/// The outcome of a completed download.
#[derive(Debug)]
pub struct Completion {
    pub file_name: String,
    /// The canonical path of the file written.
    pub final_path: String,
    pub bytes_written: u64,
    /// The hash computed from the file on disk.
    pub content_hash: String,
    /// The catalog declared a hash and it differs from the computed one.
    pub hash_mismatch: bool,
}

/// What the caller is to do next.
#[derive(Debug)]
pub enum Action {
    /// Look up the location record of this hash.
    LookupCache(String),
    /// Report which of these paths still exist.
    CheckLocations(Vec<String>),
    /// Ask whether to download again although the file exists at this path.
    AskOverwrite(String),
    /// Make one transfer attempt, truncating any earlier partial file.
    Transfer,
    /// Wait this many milliseconds before the next attempt.
    Wait(u64),
    /// Re-read the written file and compute its hash.
    ComputeHash,
    /// Record the verified location in the cache.
    StoreLocation {
        hash: String,
        path: String,
        model_id: u64,
        version_id: u64,
        file_id: u64,
    },
    /// Nothing to download: the content exists at this path.
    Skip(String),
    Complete(Completion),
    Abort(DownloadError),
}

pub struct DownloadOrchestrator {
    pub target: DownloadTarget,
    pub policy: RetryPolicy,
    pub phase: Phase,
    pub retry: RetryState,
    /// Locations found in the cache, awaiting their liveness check.
    pub candidates: Vec<String>,
    /// The existing location the user is asked about.
    pub existing: Option<String>,
    /// Hash and canonical path of the verified file, awaiting the store.
    pub verified: Option<(String, String)>,
    pub hash_mismatch: bool,
    /// Bytes written by the last completed transfer.
    pub bytes_written: u64,
}

pub open spec fn texts(v: Seq<String>) -> Seq<Seq<char>> {
    v.map_values(|s: String| s@)
}

/// A lookup outcome that names at least one location.
pub open spec fn found_locations(r: Result<Option<LocationRecord>, CacheError>) -> bool {
    r matches Ok(Some(rec)) && rec.locations@.len() > 0
}

/// The index of the first location reported live, among the first `count`.
pub open spec fn is_first_live(live: Seq<bool>, count: int, i: int) -> bool {
    &&& 0 <= i < count
    &&& i < live.len()
    &&& live[i]
    &&& forall|j: int| 0 <= j < i ==> !live[j]
}

pub open spec fn none_live(live: Seq<bool>, count: int) -> bool {
    forall|j: int| 0 <= j < count && j < live.len() ==> !live[j]
}

/// Whether a declared hash and a computed one disagree.
pub open spec fn mismatch(known: Option<String>, computed: Seq<char>) -> bool {
    match known {
        Some(h) => !eq_ignore_ascii_case(h@, computed),
        None => false,
    }
}

/// Whether an event is one that the phase waits for.
pub open spec fn expected(phase: Phase, e: Event) -> bool {
    match e {
        Event::Start => phase is Idle,
        Event::LookupDone(_) => phase is CacheLookup,
        Event::LocationsChecked(_) => phase is CheckingLocations,
        Event::OverwriteDecided(_) => phase is AwaitingDecision,
        Event::TransferCompleted { .. } => phase is Fetching,
        Event::TransferFailed { .. } => phase is Fetching,
        Event::WaitFinished => phase is Waiting,
        Event::HashComputed { .. } => phase is Verifying,
        Event::StoreDone(_) => phase is Storing,
    }
}

/// The first location reported live among the first `count`, if any.
pub fn first_live_location(live: &Vec<bool>, count: usize) -> (r: Option<usize>)
    ensures
        match r {
            Some(i) => is_first_live(live@, count as int, i as int),
            None => none_live(live@, count as int),
        },
{
    let mut i: usize = 0;
    while i < count && i < live.len()
        invariant
            i <= live.len(),
            forall|j: int| 0 <= j < i ==> !live@[j],
        decreases live.len() - i,
    {
        if live[i] {
            return Some(i);
        }
        i = i + 1;
    }
    None
}

fn clone_texts(v: &Vec<String>) -> (r: Vec<String>)
    ensures
        texts(r@) == texts(v@),
{
    let mut out: Vec<String> = Vec::new();
    let mut i: usize = 0;
    while i < v.len()
        invariant
            i <= v.len(),
            out@.len() == i,
            texts(out@) == texts(v@).take(i as int),
        decreases v.len() - i,
    {
        let c = v[i].clone();
        let ghost before = out@;
        out.push(c);
        assert forall|j: int| 0 <= j < i + 1 implies texts(out@)[j] == texts(v@).take(i + 1)[j] by {
            if j < i {
                assert(out@[j] == before[j]);
                assert(texts(before)[j] == texts(v@).take(i as int)[j]);
            }
        }
        assert(texts(out@) =~= texts(v@).take(i + 1));
        i = i + 1;
    }
    assert(texts(v@).take(v.len() as int) == texts(v@));
    out
}

impl DownloadOrchestrator {
    /// The phase that waits for the user's answer knows the path asked about,
    /// and the phase that waits for the store knows what is stored.
    pub open spec fn wf(&self) -> bool {
        &&& self.phase is AwaitingDecision ==> self.existing is Some
        &&& self.phase is Storing ==> self.verified is Some
    }

    /// A machine in the idle phase for one target.
    pub fn new(target: DownloadTarget, policy: RetryPolicy) -> (r: DownloadOrchestrator)
        ensures
            r.phase is Idle,
            r.wf(),
            r.target == target,
            r.policy == policy,
            r.retry.attempt_count == 0,
            r.verified is None,
            !r.hash_mismatch,
    {
        DownloadOrchestrator {
            target,
            policy,
            phase: Phase::Idle,
            retry: RetryState::new(),
            candidates: Vec::new(),
            existing: None,
            verified: None,
            hash_mismatch: false,
            bytes_written: 0,
        }
    }

    /// Takes the outcome of the last action and returns the next action.
    pub fn step(&mut self, event: Event) -> (a: Action)
        requires
            old(self).wf(),
        ensures
            final(self).wf(),
            !(event is TransferFailed) ==> final(self).retry == old(self).retry,
            !(event is TransferCompleted) ==> final(self).bytes_written == old(self).bytes_written,
            final(self).target == old(self).target,
            final(self).policy == old(self).policy,
            !expected(old(self).phase, event) ==> final(self).phase is Failed && a matches Action::Abort(
                DownloadError::UnexpectedEvent,
            ),
            old(self).phase is Idle && event is Start ==> match old(self).target.known_hash {
                Some(h) => final(self).phase is CacheLookup && (a matches Action::LookupCache(k)
                    && k@ == h@),
                None => final(self).phase is Fetching && a is Transfer,
            },
            event matches Event::LookupDone(r) ==> (old(self).phase is CacheLookup ==> if found_locations(r) {
                &&& final(self).phase is CheckingLocations
                &&& texts(final(self).candidates@) == texts(r->Ok_0->Some_0.locations@)
                &&& a matches Action::CheckLocations(ls)
                &&& texts(a->CheckLocations_0@) == texts(r->Ok_0->Some_0.locations@)
            } else {
                final(self).phase is Fetching && a is Transfer
            }),
            event matches Event::LocationsChecked(live) ==> (old(self).phase is CheckingLocations
                ==> (exists|i: int|
                #![trigger live@[i]]
                {
                    &&& is_first_live(live@, old(self).candidates@.len() as int, i)
                    &&& final(self).phase is AwaitingDecision
                    &&& a matches Action::AskOverwrite(p)
                    &&& a->AskOverwrite_0@ == old(self).candidates@[i]@
                    &&& final(self).existing == Some(a->AskOverwrite_0)
                }) || (none_live(live@, old(self).candidates@.len() as int) && final(self).phase is Fetching
                && a is Transfer)),
            event matches Event::OverwriteDecided(again) ==> (old(self).phase is AwaitingDecision ==> if again {
                final(self).phase is Fetching && a is Transfer
            } else {
                &&& final(self).phase is Skipped
                &&& a matches Action::Skip(p)
                &&& old(self).existing == Some(a->Skip_0)
            }),
            event matches Event::TransferCompleted { bytes_written } ==> (old(self).phase is Fetching
                ==> final(self).phase is Verifying && a is ComputeHash && final(self).bytes_written
                == bytes_written),
            event matches Event::TransferFailed { failure, elapsed_ms, jitter } ==> (
            old(self).phase is Fetching ==> ({
                let d = retry_decision(
                    old(self).policy,
                    final(self).retry.attempt_count as nat,
                    elapsed_ms as int,
                    failure,
                    jitter,
                );
                &&& final(self).retry.attempt_count == if old(self).retry.attempt_count < u32::MAX {
                    (old(self).retry.attempt_count + 1) as u32
                } else {
                    u32::MAX
                }
                &&& final(self).retry.last_error == Some(failure)
                &&& match d {
                    RetryDecision::RetryAfter(w) => final(self).phase is Waiting && a == Action::Wait(w),
                    RetryDecision::GiveUp(GiveUpReason::Fatal) => final(self).phase is Failed && a
                        == Action::Abort(DownloadError::Fatal(failure)),
                    RetryDecision::GiveUp(_) => final(self).phase is Failed && a == Action::Abort(
                        DownloadError::RetryBudgetExhausted(failure),
                    ),
                }
            })),
            old(self).phase is Waiting && event is WaitFinished ==> final(self).phase is Fetching
                && a is Transfer,
            event matches Event::HashComputed { computed_hash, canonical_path } ==> (
            old(self).phase is Verifying ==> ({
                &&& final(self).phase is Storing
                &&& final(self).hash_mismatch == mismatch(old(self).target.known_hash, computed_hash@)
                &&& final(self).verified is Some
                &&& final(self).verified->Some_0.0@ == computed_hash@
                &&& final(self).verified->Some_0.1@ == canonical_path@
                &&& a is StoreLocation
                &&& a->StoreLocation_hash@ == computed_hash@
                &&& a->StoreLocation_path@ == canonical_path@
                &&& a->StoreLocation_model_id == old(self).target.model_id
                &&& a->StoreLocation_version_id == old(self).target.version_id
                &&& a->StoreLocation_file_id == old(self).target.file_id
            })),
            event matches Event::StoreDone(r) ==> (old(self).phase is Storing ==> match r {
                Ok(()) => {
                    &&& final(self).phase is Done
                    &&& old(self).verified is Some
                    &&& a is Complete
                    &&& a->Complete_0.file_name@ == old(self).target.display_name@
                    &&& a->Complete_0.content_hash@ == old(self).verified->Some_0.0@
                    &&& a->Complete_0.final_path@ == old(self).verified->Some_0.1@
                    &&& a->Complete_0.bytes_written == old(self).bytes_written
                    &&& a->Complete_0.hash_mismatch == old(self).hash_mismatch
                },
                Err(_) => final(self).phase is Failed && a matches Action::Abort(DownloadError::Cache(_)),
            }),
    {
        match event {
            Event::Start => {
                if !matches!(self.phase, Phase::Idle) {
                    return self.unexpected();
                }
                match &self.target.known_hash {
                    Some(h) => {
                        self.phase = Phase::CacheLookup;
                        Action::LookupCache(h.clone())
                    },
                    None => {
                        self.phase = Phase::Fetching;
                        Action::Transfer
                    },
                }
            },
            Event::LookupDone(r) => {
                if !matches!(self.phase, Phase::CacheLookup) {
                    return self.unexpected();
                }
                match r {
                    Ok(Some(rec)) => {
                        if rec.locations.len() > 0 {
                            let out = clone_texts(&rec.locations);
                            self.candidates = rec.locations;
                            self.phase = Phase::CheckingLocations;
                            Action::CheckLocations(out)
                        } else {
                            self.phase = Phase::Fetching;
                            Action::Transfer
                        }
                    },
                    _ => {
                        self.phase = Phase::Fetching;
                        Action::Transfer
                    },
                }
            },
            Event::LocationsChecked(live) => {
                if !matches!(self.phase, Phase::CheckingLocations) {
                    return self.unexpected();
                }
                match first_live_location(&live, self.candidates.len()) {
                    Some(i) => {
                        let p = self.candidates[i].clone();
                        self.existing = Some(p.clone());
                        self.phase = Phase::AwaitingDecision;
                        assert(live@[i as int]);
                        Action::AskOverwrite(p)
                    },
                    None => {
                        self.phase = Phase::Fetching;
                        Action::Transfer
                    },
                }
            },
            Event::OverwriteDecided(again) => {
                if !matches!(self.phase, Phase::AwaitingDecision) {
                    return self.unexpected();
                }
                if again {
                    self.phase = Phase::Fetching;
                    Action::Transfer
                } else {
                    match &self.existing {
                        Some(p) => {
                            let p = p.clone();
                            self.phase = Phase::Skipped;
                            Action::Skip(p)
                        },
                        None => self.unexpected(),
                    }
                }
            },
            Event::TransferCompleted { bytes_written } => {
                if !matches!(self.phase, Phase::Fetching) {
                    return self.unexpected();
                }
                self.bytes_written = bytes_written;
                self.phase = Phase::Verifying;
                Action::ComputeHash
            },
            Event::TransferFailed { failure, elapsed_ms, jitter } => {
                if !matches!(self.phase, Phase::Fetching) {
                    return self.unexpected();
                }
                let d = self.policy.on_failure(&mut self.retry, failure, elapsed_ms, jitter);
                match d {
                    RetryDecision::RetryAfter(w) => {
                        self.phase = Phase::Waiting;
                        Action::Wait(w)
                    },
                    RetryDecision::GiveUp(GiveUpReason::Fatal) => {
                        self.phase = Phase::Failed;
                        Action::Abort(DownloadError::Fatal(failure))
                    },
                    RetryDecision::GiveUp(_) => {
                        self.phase = Phase::Failed;
                        Action::Abort(DownloadError::RetryBudgetExhausted(failure))
                    },
                }
            },
            Event::WaitFinished => {
                if !matches!(self.phase, Phase::Waiting) {
                    return self.unexpected();
                }
                self.phase = Phase::Fetching;
                Action::Transfer
            },
            Event::HashComputed { computed_hash, canonical_path } => {
                if !matches!(self.phase, Phase::Verifying) {
                    return self.unexpected();
                }
                let differs = match &self.target.known_hash {
                    Some(h) => !hashes_match(h.as_str(), computed_hash.as_str()),
                    None => false,
                };
                self.hash_mismatch = differs;
                let action = Action::StoreLocation {
                    hash: computed_hash.clone(),
                    path: canonical_path.clone(),
                    model_id: self.target.model_id,
                    version_id: self.target.version_id,
                    file_id: self.target.file_id,
                };
                self.verified = Some((computed_hash, canonical_path));
                self.phase = Phase::Storing;
                action
            },
            Event::StoreDone(r) => {
                if !matches!(self.phase, Phase::Storing) {
                    return self.unexpected();
                }
                match r {
                    Ok(()) => match &self.verified {
                        Some(v) => {
                            let c = Completion {
                                file_name: self.target.display_name.clone(),
                                final_path: v.1.clone(),
                                bytes_written: self.bytes_written,
                                content_hash: v.0.clone(),
                                hash_mismatch: self.hash_mismatch,
                            };
                            self.phase = Phase::Done;
                            Action::Complete(c)
                        },
                        None => self.unexpected(),
                    },
                    Err(e) => {
                        self.phase = Phase::Failed;
                        Action::Abort(DownloadError::Cache(e))
                    },
                }
            },
        }
    }

    fn unexpected(&mut self) -> (a: Action)
        ensures
            final(self).existing == old(self).existing,
            final(self).verified == old(self).verified,
            final(self).bytes_written == old(self).bytes_written,
            final(self).retry == old(self).retry,
            final(self).phase is Failed,
            final(self).target == old(self).target,
            final(self).policy == old(self).policy,
            a matches Action::Abort(DownloadError::UnexpectedEvent),
    {
        self.phase = Phase::Failed;
        Action::Abort(DownloadError::UnexpectedEvent)
    }
}

/// Performs a cache action of the machine and returns the event that reports
/// its outcome. Other actions give `None` and leave the cache as it is.
pub fn perform_cache_action(cache: &mut LocationCache, action: &Action) -> (e: Option<Event>)
    ensures
        match action {
            Action::LookupCache(h) => final(cache)@ == old(cache)@ && (e matches Some(
                Event::LookupDone(r),
            ) && lookup_agrees(old(cache)@, h@, r)),
            Action::StoreLocation { hash, path, model_id, version_id, file_id } => e matches Some(
                Event::StoreDone(r),
            ) && store_outcome(
                old(cache)@,
                final(cache)@,
                final(cache).durable(),
                hash@,
                *model_id,
                *version_id,
                *file_id,
                path@,
                r,
            ),
            _ => e is None && final(cache)@ == old(cache)@,
        },
{
    match action {
        Action::LookupCache(h) => Some(Event::LookupDone(lookup_location_record(cache, h.as_str()))),
        Action::StoreLocation { hash, path, model_id, version_id, file_id } => {
            let r = store_civitai_model_file_location(
                cache,
                *model_id,
                *version_id,
                *file_id,
                hash.as_str(),
                path.as_str(),
            );
            Some(Event::StoreDone(r))
        },
        _ => None,
    }
}

} // verus!

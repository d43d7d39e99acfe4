//! One execution cycle of the submission pipeline, as a state machine: the bundle
//! is submitted; a refusal is handed to the agent; a RETRY verdict resubmits with
//! the agent's tip (after a fresh blockhash when it asks for one); a recovered
//! bundle is awaited on the stream; and the outcome is recorded.

use vstd::prelude::*;
use crate::agent::RecoveryStrategy;

verus! {

/// How many cycles the pipeline runs.
pub const CYCLE_COUNT: u64 = 10;

/// Cycles up to this run number submit with an expired blockhash on purpose, so
/// that the recovery path is exercised.
pub const FAULT_INJECTION_RUNS: u64 = 2;

/// The stand-in for an expired blockhash: the default hash, 32 zero bytes.
pub open spec fn expired_blockhash() -> Seq<u8> {
    Seq::new(32, |i: int| 0u8)
}

/// The signature awaited on the stream after a recovery: the default, 64 zero bytes.
pub open spec fn placeholder_signature() -> Seq<u8> {
    Seq::new(64, |i: int| 0u8)
}

/// Where a cycle stands.
pub enum Phase {
    /// The first submission is out.
    AwaitingSubmission,
    /// The refusal is with the agent.
    AwaitingAnalysis,
    /// A fresh blockhash has been asked for.
    AwaitingBlockhash,
    /// The resubmission is out.
    AwaitingResubmission,
    /// The recovered bundle is awaited on the stream.
    AwaitingConfirmation,
    /// The cycle is over.
    Done,
}

/// The distance of a phase from the end of the cycle.
pub open spec fn phase_rank(p: Phase) -> nat {
    match p {
        Phase::AwaitingSubmission => 5,
        Phase::AwaitingAnalysis => 4,
        Phase::AwaitingBlockhash => 3,
        Phase::AwaitingResubmission => 2,
        Phase::AwaitingConfirmation => 1,
        Phase::Done => 0,
    }
}

/// What the outside world reports back to the cycle.
pub enum CycleEvent {
    /// A submission's result: the bundle id, or the error's text.
    Submitted(Result<String, String>),
    /// The agent's verdict, or the error's text when it gave none.
    Analyzed(Result<RecoveryStrategy, String>),
    /// A fresh blockhash, or `None` when the network did not give one.
    BlockhashFetched(Option<[u8; 32]>),
    /// The slot the recovered bundle landed in, or `None` when the wait failed.
    Landed(Option<u64>),
}

/// Whether a phase waits for this kind of event.
pub open spec fn expects(p: Phase, e: CycleEvent) -> bool {
    match p {
        Phase::AwaitingSubmission => e is Submitted,
        Phase::AwaitingAnalysis => e is Analyzed,
        Phase::AwaitingBlockhash => e is BlockhashFetched,
        Phase::AwaitingResubmission => e is Submitted,
        Phase::AwaitingConfirmation => e is Landed,
        Phase::Done => false,
    }
}

/// A lifecycle record whose latency is still to be measured.
pub struct PendingEntry {
    pub timestamp: u64,
    pub slot_submitted: u64,
    pub commitment_progression: String,
    pub tip_lamports: u64,
    pub bundle_id: Option<String>,
    pub failure_classification: Option<String>,
}

/// A record of the lifecycle log.
pub struct LogEntry {
    pub timestamp: u64,
    pub slot_submitted: u64,
    pub commitment_progression: String,
    pub tip_lamports: u64,
    pub latency_ms: u64,
    pub bundle_id: Option<String>,
    pub failure_classification: Option<String>,
}

impl PendingEntry {
    /// The record, with the latency measured when it is written.
    pub fn with_latency(self, latency_ms: u64) -> (e: LogEntry)
        ensures
            e.timestamp == self.timestamp,
            e.slot_submitted == self.slot_submitted,
            e.commitment_progression == self.commitment_progression,
            e.tip_lamports == self.tip_lamports,
            e.latency_ms == latency_ms,
            e.bundle_id == self.bundle_id,
            e.failure_classification == self.failure_classification,
    {
        LogEntry {
            timestamp: self.timestamp,
            slot_submitted: self.slot_submitted,
            commitment_progression: self.commitment_progression,
            tip_lamports: self.tip_lamports,
            latency_ms,
            bundle_id: self.bundle_id,
            failure_classification: self.failure_classification,
        }
    }
}

/// Why a cycle ended without a record.
pub enum CycleEnd {
    /// The agent did not ask for a retry.
    AgentDeclined,
    /// The agent gave no verdict.
    AgentUnavailable,
    /// The resubmission was refused too.
    RetryRejected,
}

/// What the cycle asks of the outside world next.
pub enum CycleAction {
    /// Submit a bundle against this blockhash with this tip.
    Submit { blockhash: [u8; 32], tip: u64 },
    /// Ask the agent about this failure, with the tip in force.
    Analyze { log: String, tip: u64 },
    /// Fetch the latest blockhash.
    FetchBlockhash,
    /// Wait on the stream for this signature.
    AwaitConfirmation { target: [u8; 64] },
    /// Pause for the network to propagate the block, then write the record.
    RecordAfterPause(PendingEntry),
    /// Write the record.
    Record(PendingEntry),
    /// End the cycle without a record.
    Finish(CycleEnd),
}

/// The progression recorded for a bundle that went through at once.
pub open spec fn direct_progression() -> Seq<char> {
    "Submitted -> Processed -> Confirmed"@
}

/// The progression recorded for a bundle that went through after recovery.
pub open spec fn recovered_progression() -> Seq<char> {
    "Submitted -> Fault Intercepted -> AI Recovered -> Confirmed"@
}

/// The failure classification recorded for a recovered bundle.
pub open spec fn recovered_classification(failure: Seq<char>) -> Seq<char> {
    "Recovered: "@ + failure
}

/// One execution cycle of the pipeline.
pub struct RecoveryCycle {
    /// The run number, from 1.
    pub run_id: u64,
    /// The UNIX time at which the cycle began, in seconds.
    pub timestamp: u64,
    /// The slot the network was at when the cycle began.
    pub current_slot: u64,
    /// The blockhash in force.
    pub blockhash: [u8; 32],
    /// The tip in force.
    pub tip: u64,
    /// Where the cycle stands.
    pub phase: Phase,
    /// The text of the first submission's failure, once there is one.
    pub failure: String,
    /// The id of the recovered bundle, once there is one.
    pub recovered_bundle_id: String,
}

fn zero_hash() -> (h: [u8; 32])
    ensures
        h@ == expired_blockhash(),
{
    let h = [0u8; 32];
    assert(h@ =~= expired_blockhash());
    h
}

fn zero_signature() -> (s: [u8; 64])
    ensures
        s@ == placeholder_signature(),
{
    let s = [0u8; 64];
    assert(s@ =~= placeholder_signature());
    s
}

/// The blockhash a run submits with first: the expired stand-in on the runs that
/// inject a fault, the live one otherwise.
pub fn first_blockhash(run_id: u64, live_blockhash: [u8; 32]) -> (h: [u8; 32])
    ensures
        run_id <= FAULT_INJECTION_RUNS ==> h@ == expired_blockhash(),
        run_id > FAULT_INJECTION_RUNS ==> h == live_blockhash,
{
    if run_id <= FAULT_INJECTION_RUNS {
        zero_hash()
    } else {
        live_blockhash
    }
}

/// What one step of a cycle does, from `c` on event `e` to `n` with action `a`.
pub open spec fn steps_to(c: RecoveryCycle, e: CycleEvent, n: RecoveryCycle, a: CycleAction) -> bool {
    &&& phase_rank(n.phase) < phase_rank(c.phase)
    &&& n.run_id == c.run_id
    &&& n.timestamp == c.timestamp
    &&& n.current_slot == c.current_slot
    &&& match (c.phase, e) {
        // A bundle that goes through at once is recorded after a pause, in the
        // next slot, with the tip it was sent with.
        (Phase::AwaitingSubmission, CycleEvent::Submitted(Ok(id))) => {
            &&& n.phase is Done
            &&& a matches CycleAction::RecordAfterPause(p)
            &&& p.timestamp == c.timestamp
            &&& p.slot_submitted == c.current_slot + 1
            &&& p.commitment_progression@ == direct_progression()
            &&& p.tip_lamports == c.tip
            &&& p.bundle_id == Some(id)
            &&& p.failure_classification is None
        },
        // A refusal goes to the agent, with the tip in force.
        (Phase::AwaitingSubmission, CycleEvent::Submitted(Err(msg))) => {
            &&& n.phase is AwaitingAnalysis
            &&& n.failure == msg
            &&& n.tip == c.tip
            &&& n.blockhash == c.blockhash
            &&& a == CycleAction::Analyze { log: msg, tip: c.tip }
        },
        // A RETRY verdict takes the agent's tip, and fetches a blockhash first when
        // the agent asks for one; any other verdict ends the cycle.
        (Phase::AwaitingAnalysis, CycleEvent::Analyzed(Ok(s))) => if s.asks_retry() {
            &&& n.tip == s.modified_tip
            &&& n.failure == c.failure
            &&& n.blockhash == c.blockhash
            &&& if s.refresh_blockhash {
                n.phase is AwaitingBlockhash && a is FetchBlockhash
            } else {
                n.phase is AwaitingResubmission && a == (CycleAction::Submit {
                    blockhash: c.blockhash,
                    tip: s.modified_tip,
                })
            }
        } else {
            n.phase is Done && a == CycleAction::Finish(CycleEnd::AgentDeclined)
        },
        // Without a verdict the cycle ends.
        (Phase::AwaitingAnalysis, CycleEvent::Analyzed(Err(_))) => {
            n.phase is Done && a == CycleAction::Finish(CycleEnd::AgentUnavailable)
        },
        // The fresh blockhash replaces the old one; without one the old one stays.
        (Phase::AwaitingBlockhash, CycleEvent::BlockhashFetched(h)) => {
            &&& n.phase is AwaitingResubmission
            &&& n.tip == c.tip
            &&& n.failure == c.failure
            &&& n.blockhash == (match h {
                Some(fresh) => fresh,
                None => c.blockhash,
            })
            &&& a == CycleAction::Submit { blockhash: n.blockhash, tip: c.tip }
        },
        // A recovered bundle is awaited on the stream.
        (Phase::AwaitingResubmission, CycleEvent::Submitted(Ok(id))) => {
            &&& n.phase is AwaitingConfirmation
            &&& n.recovered_bundle_id == id
            &&& n.tip == c.tip
            &&& n.failure == c.failure
            &&& a matches CycleAction::AwaitConfirmation { target }
            &&& target@ == placeholder_signature()
        },
        (Phase::AwaitingResubmission, CycleEvent::Submitted(Err(_))) => {
            n.phase is Done && a == CycleAction::Finish(CycleEnd::RetryRejected)
        },
        // The recovery is recorded in the slot it landed in, or two slots on when
        // the wait failed, with the retry's tip and the original failure.
        (Phase::AwaitingConfirmation, CycleEvent::Landed(landed)) => {
            &&& n.phase is Done
            &&& a matches CycleAction::Record(p)
            &&& p.timestamp == c.timestamp
            &&& p.slot_submitted == (match landed {
                Some(slot) => slot as int,
                None => c.current_slot + 2,
            })
            &&& p.commitment_progression@ == recovered_progression()
            &&& p.tip_lamports == c.tip
            &&& p.bundle_id == Some(c.recovered_bundle_id)
            &&& p.failure_classification matches Some(text)
            &&& text@ == recovered_classification(c.failure@)
        },
        _ => false,
    }
}

impl RecoveryCycle {
    /// Starts run `run_id` with the network's slot, its latest blockhash and the
    /// tip computed for it, and asks for the first submission.
    pub fn start(run_id: u64, timestamp: u64, current_slot: u64, live_blockhash: [u8; 32], tip: u64) -> (r: (
        RecoveryCycle,
        CycleAction,
    ))
        ensures
            r.0.run_id == run_id,
            r.0.timestamp == timestamp,
            r.0.current_slot == current_slot,
            r.0.tip == tip,
            r.0.phase is AwaitingSubmission,
            run_id <= FAULT_INJECTION_RUNS ==> r.0.blockhash@ == expired_blockhash(),
            run_id > FAULT_INJECTION_RUNS ==> r.0.blockhash == live_blockhash,
            r.1 == (CycleAction::Submit { blockhash: r.0.blockhash, tip }),
    {
        let blockhash = first_blockhash(run_id, live_blockhash);
        let cycle = RecoveryCycle {
            run_id,
            timestamp,
            current_slot,
            blockhash,
            tip,
            phase: Phase::AwaitingSubmission,
            failure: String::new(),
            recovered_bundle_id: String::new(),
        };
        (cycle, CycleAction::Submit { blockhash, tip })
    }

    /// Whether the cycle is over.
    pub fn is_done(&self) -> (b: bool)
        ensures
            b == (self.phase is Done),
    {
        match self.phase {
            Phase::Done => true,
            _ => false,
        }
    }

    /// Moves the cycle along by the event the last action produced, and says what
    /// to do next (see `steps_to`). Every step brings the cycle closer to its end.
    pub fn step(self, event: CycleEvent) -> (r: (RecoveryCycle, CycleAction))
        requires
            expects(self.phase, event),
            (self.phase is AwaitingSubmission && event matches CycleEvent::Submitted(Ok(_)))
                ==> self.current_slot < u64::MAX,
            self.phase is AwaitingConfirmation ==> self.current_slot + 2 <= u64::MAX,
        ensures
            steps_to(self, event, r.0, r.1),
    {
        let RecoveryCycle {
            run_id,
            timestamp,
            current_slot,
            blockhash,
            tip,
            phase,
            failure,
            recovered_bundle_id,
        } = self;
        match phase {
            Phase::AwaitingSubmission => {
                match event {
                    CycleEvent::Submitted(Ok(id)) => {
                        let entry = PendingEntry {
                            timestamp,
                            slot_submitted: current_slot + 1,
                            commitment_progression: String::from_str(
                                "Submitted -> Processed -> Confirmed",
                            ),
                            tip_lamports: tip,
                            bundle_id: Some(id),
                            failure_classification: None,
                        };
                        let next = RecoveryCycle {
                            run_id,
                            timestamp,
                            current_slot,
                            blockhash,
                            tip,
                            phase: Phase::Done,
                            failure,
                            recovered_bundle_id,
                        };
                        (next, CycleAction::RecordAfterPause(entry))
                    },
                    CycleEvent::Submitted(Err(e)) => {
                        let log = e.clone();
                        let next = RecoveryCycle {
                            run_id,
                            timestamp,
                            current_slot,
                            blockhash,
                            tip,
                            phase: Phase::AwaitingAnalysis,
                            failure: e,
                            recovered_bundle_id,
                        };
                        (next, CycleAction::Analyze { log, tip })
                    },
                    _ => {
                        assert(false);
                        (
                            RecoveryCycle {
                                run_id,
                                timestamp,
                                current_slot,
                                blockhash,
                                tip,
                                phase: Phase::Done,
                                failure,
                                recovered_bundle_id,
                            },
                            CycleAction::Finish(CycleEnd::AgentUnavailable),
                        )
                    },
                }
            },
            Phase::AwaitingAnalysis => {
                match event {
                    CycleEvent::Analyzed(Ok(s)) => {
                        if s.is_retry() {
                            let new_tip = s.modified_tip;
                            if s.refresh_blockhash {
                                let next = RecoveryCycle {
                                    run_id,
                                    timestamp,
                                    current_slot,
                                    blockhash,
                                    tip: new_tip,
                                    phase: Phase::AwaitingBlockhash,
                                    failure,
                                    recovered_bundle_id,
                                };
                                (next, CycleAction::FetchBlockhash)
                            } else {
                                let next = RecoveryCycle {
                                    run_id,
                                    timestamp,
                                    current_slot,
                                    blockhash,
                                    tip: new_tip,
                                    phase: Phase::AwaitingResubmission,
                                    failure,
                                    recovered_bundle_id,
                                };
                                (next, CycleAction::Submit { blockhash, tip: new_tip })
                            }
                        } else {
                            let next = RecoveryCycle {
                                run_id,
                                timestamp,
                                current_slot,
                                blockhash,
                                tip,
                                phase: Phase::Done,
                                failure,
                                recovered_bundle_id,
                            };
                            (next, CycleAction::Finish(CycleEnd::AgentDeclined))
                        }
                    },
                    _ => {
                        let next = RecoveryCycle {
                            run_id,
                            timestamp,
                            current_slot,
                            blockhash,
                            tip,
                            phase: Phase::Done,
                            failure,
                            recovered_bundle_id,
                        };
                        (next, CycleAction::Finish(CycleEnd::AgentUnavailable))
                    },
                }
            },
            Phase::AwaitingBlockhash => {
                let fresh = match event {
                    CycleEvent::BlockhashFetched(Some(h)) => h,
                    _ => blockhash,
                };
                let next = RecoveryCycle {
                    run_id,
                    timestamp,
                    current_slot,
                    blockhash: fresh,
                    tip,
                    phase: Phase::AwaitingResubmission,
                    failure,
                    recovered_bundle_id,
                };
                (next, CycleAction::Submit { blockhash: fresh, tip })
            },
            Phase::AwaitingResubmission => {
                match event {
                    CycleEvent::Submitted(Ok(id)) => {
                        let next = RecoveryCycle {
                            run_id,
                            timestamp,
                            current_slot,
                            blockhash,
                            tip,
                            phase: Phase::AwaitingConfirmation,
                            failure,
                            recovered_bundle_id: id,
                        };
                        (next, CycleAction::AwaitConfirmation { target: zero_signature() })
                    },
                    _ => {
                        let next = RecoveryCycle {
                            run_id,
                            timestamp,
                            current_slot,
                            blockhash,
                            tip,
                            phase: Phase::Done,
                            failure,
                            recovered_bundle_id,
                        };
                        (next, CycleAction::Finish(CycleEnd::RetryRejected))
                    },
                }
            },
            Phase::AwaitingConfirmation => {
                let slot = match event {
                    CycleEvent::Landed(Some(s)) => s,
                    _ => current_slot + 2,
                };
                let mut classification = String::from_str("Recovered: ");
                classification.append(failure.as_str());
                let entry = PendingEntry {
                    timestamp,
                    slot_submitted: slot,
                    commitment_progression: String::from_str(
                        "Submitted -> Fault Intercepted -> AI Recovered -> Confirmed",
                    ),
                    tip_lamports: tip,
                    bundle_id: Some(recovered_bundle_id.clone()),
                    failure_classification: Some(classification),
                };
                let next = RecoveryCycle {
                    run_id,
                    timestamp,
                    current_slot,
                    blockhash,
                    tip,
                    phase: Phase::Done,
                    failure,
                    recovered_bundle_id,
                };
                (next, CycleAction::Record(entry))
            },
            Phase::Done => {
                assert(false);
                let next = RecoveryCycle {
                    run_id,
                    timestamp,
                    current_slot,
                    blockhash,
                    tip,
                    phase: Phase::Done,
                    failure,
                    recovered_bundle_id,
                };
                (next, CycleAction::Finish(CycleEnd::AgentUnavailable))
            },
        }
    }
}

/// `cs` is a run of a cycle: each cycle steps to the next on the event and with
/// the action of the same index.
pub open spec fn is_run(cs: Seq<RecoveryCycle>, es: Seq<CycleEvent>, acts: Seq<CycleAction>) -> bool {
    &&& cs.len() == es.len() + 1
    &&& acts.len() == es.len()
    &&& forall|i: int| 0 <= i < es.len() ==> #[trigger] steps_to(cs[i], es[i], cs[i + 1], acts[i])
}

proof fn lemma_run_ranks(
    cs: Seq<RecoveryCycle>,
    es: Seq<CycleEvent>,
    acts: Seq<CycleAction>,
    m: int,
    k: int,
)
    requires
        is_run(cs, es, acts),
        0 <= m <= k <= es.len(),
    ensures
        phase_rank(cs[k].phase) + (k - m) <= phase_rank(cs[m].phase),
    decreases k - m,
{
    if k > m {
        lemma_run_ranks(cs, es, acts, m, k - 1);
        let p = k - 1;
        assert(steps_to(cs[p], es[p], cs[p + 1], acts[p]));
    }
}

/// A cycle handles at most five events before it is over, wherever it starts.
pub proof fn lemma_cycle_ends_within_five_events(
    cs: Seq<RecoveryCycle>,
    es: Seq<CycleEvent>,
    acts: Seq<CycleAction>,
)
    requires
        is_run(cs, es, acts),
    ensures
        es.len() <= phase_rank(cs[0].phase) <= 5,
{
    lemma_run_ranks(cs, es, acts, 0, es.len() as int);
}

/// Within a cycle, at most one step asks for a submission: the first submission
/// comes from `start`, so a bundle is resubmitted at most once.
pub proof fn lemma_at_most_one_resubmission(
    cs: Seq<RecoveryCycle>,
    es: Seq<CycleEvent>,
    acts: Seq<CycleAction>,
    i: int,
    j: int,
)
    requires
        is_run(cs, es, acts),
        0 <= i < es.len(),
        0 <= j < es.len(),
        acts[i] is Submit,
        acts[j] is Submit,
    ensures
        i == j,
{
    assert(steps_to(cs[i], es[i], cs[i + 1], acts[i]));
    assert(steps_to(cs[j], es[j], cs[j + 1], acts[j]));
    if i < j {
        lemma_run_ranks(cs, es, acts, i + 1, j);
    } else if j < i {
        lemma_run_ranks(cs, es, acts, j + 1, i);
    }
}

} // verus!

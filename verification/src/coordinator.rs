//! The auction lifecycle coordinator.
//!
//! A step function from coordinator state and external event to next state
//! and requested action.  The surrounding application performs each action
//! (a chain read, a close submission, the post-close pipeline) and feeds the
//! outcome back as the next event.  The coordinator owns the idempotency
//! ledger of rounds already closed, and never requests a second close
//! submission for a round recorded there; an ambiguous transaction outcome
//! is always resolved by re-reading chain state, never by resubmission.

use vstd::prelude::*;

use crate::types::AuctionRound;
use crate::types::CloseIntent;
use crate::types::Phase;

verus! {

/// Where the coordinator stands in the `Idle -> Observing -> ClosePending ->
/// Closing -> PostClose` cycle.
#[derive(Clone, Copy, PartialEq, Eq, Structural, Debug)]
pub enum CoordinatorState {
    /// Not yet started.
    Idle,
    /// Watching the chain for a round whose end has passed.
    Observing,
    /// A round was seen past its end; a fresh read is pending so that the
    /// close arguments come from the newest possible state.
    ClosePending { round_id: u64 },
    /// A close was submitted (or, when `reconciling`, its outcome is
    /// ambiguous and a fresh chain read will decide).
    Closing { intent: CloseIntent, reconciling: bool },
    /// The round is closed on chain; the character pipeline for the next
    /// round is running.
    PostClose { round_id: u64 },
}

/// What the application reports back to the coordinator.
#[derive(Clone, Copy, PartialEq, Eq, Structural, Debug)]
pub enum Event {
    /// A timer or external trigger; `now` is the current unix time.
    Tick { now: u64 },
    /// The outcome of a requested chain read, with the time it was taken.
    ChainState { round: AuctionRound, now: u64 },
    /// The requested chain read failed (transient).
    ChainReadFailed,
    /// The submitted close transaction was confirmed successful.
    TxConfirmed,
    /// The node refused the submission.
    TxRejected,
    /// The transaction executed and reverted.
    TxReverted,
    /// No confirmation within the bounded wait; outcome unknown.
    TxTimeout,
    /// The post-close pipeline finished for the round in `PostClose`.
    PipelineComplete,
    /// The post-close pipeline failed (transient; retried independently).
    PipelineFailed,
}

/// What the coordinator asks the application to do next.
#[derive(Clone, Copy, PartialEq, Eq, Structural, Debug)]
pub enum Action {
    /// Nothing until the next tick.
    Wait,
    /// Read the current round from the chain and report `ChainState`.
    ReadChain,
    /// Broadcast `close_current_auction` with the intent's arguments and
    /// report the transaction outcome.
    SubmitClose { intent: CloseIntent },
    /// Run the character generation pipeline for the round after
    /// `closed_round`.
    RunPipeline { closed_round: u64 },
    /// Surface a close failure for the round to the operator; the close will
    /// be re-derived from fresh chain state on the next cycle.
    ReportCloseFailure { round_id: u64 },
}

/// The coordinator: its lifecycle state and the idempotency ledger of rounds
/// whose close has been confirmed.
pub struct Coordinator {
    pub state: CoordinatorState,
    /// Round ids recorded closed, in order of recording, without duplicates.
    pub closed_rounds: Vec<u64>,
}

/// Mathematical image of a coordinator.
pub struct CoordinatorView {
    pub state: CoordinatorState,
    pub closed_rounds: Seq<u64>,
}

impl View for Coordinator {
    type V = CoordinatorView;

    open spec fn view(&self) -> CoordinatorView {
        CoordinatorView { state: self.state, closed_rounds: self.closed_rounds@ }
    }
}

impl CoordinatorView {
    /// The ledger never holds a round twice, and the lifecycle state agrees
    /// with it: a round being closed (or about to be) is not yet recorded,
    /// and a round in post-close is.
    pub open spec fn wf(self) -> bool {
        &&& forall|i: int, j: int|
            0 <= i < j < self.closed_rounds.len()
                ==> self.closed_rounds[i] != self.closed_rounds[j]
        &&& match self.state {
            CoordinatorState::ClosePending { round_id } => !self.closed_rounds.contains(round_id),
            CoordinatorState::Closing { intent, .. } => !self.closed_rounds.contains(
                intent.round_id,
            ),
            CoordinatorState::PostClose { round_id } => self.closed_rounds.contains(round_id),
            _ => true,
        }
    }

    /// The view after recording `round_id` as closed.
    pub open spec fn record(self, round_id: u64, state: CoordinatorState) -> CoordinatorView {
        CoordinatorView { state, closed_rounds: self.closed_rounds.push(round_id) }
    }

    /// The view with only the lifecycle state replaced.
    pub open spec fn with_state(self, state: CoordinatorState) -> CoordinatorView {
        CoordinatorView { state, closed_rounds: self.closed_rounds }
    }
}

/// The transition relation of the coordinator, one event at a time.
///
/// Every close decision is taken against the ledger and against a chain
/// observation; a round found in the ledger is never submitted again, and an
/// ambiguous transaction outcome always leads to a chain read first.
pub open spec fn spec_step(v: CoordinatorView, e: Event) -> (CoordinatorView, Action) {
    match v.state {
        CoordinatorState::Idle => match e {
            Event::Tick { .. } => (v.with_state(CoordinatorState::Observing), Action::ReadChain),
            _ => (v, Action::Wait),
        },
        CoordinatorState::Observing => match e {
            Event::Tick { .. } => (v, Action::ReadChain),
            Event::ChainState { round, now } => spec_observe(v, round, now),
            _ => (v, Action::Wait),
        },
        CoordinatorState::ClosePending { round_id } => match e {
            Event::Tick { .. } => (v, Action::ReadChain),
            Event::ChainState { round, now } => spec_fresh_close(v, round_id, round, now),
            Event::ChainReadFailed => (v.with_state(CoordinatorState::Observing), Action::Wait),
            _ => (v, Action::Wait),
        },
        CoordinatorState::Closing { intent, reconciling } => if reconciling {
            match e {
                Event::Tick { .. } => (v, Action::ReadChain),
                Event::ChainState { round, .. } => spec_reconcile(v, intent, round),
                Event::ChainReadFailed => (v, Action::ReadChain),
                _ => (v, Action::Wait),
            }
        } else {
            match e {
                Event::TxConfirmed => (
                    v.record(
                        intent.round_id,
                        CoordinatorState::PostClose { round_id: intent.round_id },
                    ),
                    Action::RunPipeline { closed_round: intent.round_id },
                ),
                Event::TxRejected | Event::TxReverted | Event::TxTimeout => (
                    v.with_state(CoordinatorState::Closing { intent, reconciling: true }),
                    Action::ReadChain,
                ),
                _ => (v, Action::Wait),
            }
        },
        CoordinatorState::PostClose { round_id } => match e {
            Event::PipelineComplete => (
                v.with_state(CoordinatorState::Observing),
                Action::ReadChain,
            ),
            Event::PipelineFailed => (v, Action::RunPipeline { closed_round: round_id }),
            _ => (v, Action::Wait),
        },
    }
}

/// In `Observing`: decide whether the observed round calls for a close.
pub open spec fn spec_observe(v: CoordinatorView, round: AuctionRound, now: u64) -> (
    CoordinatorView,
    Action,
) {
    if v.closed_rounds.contains(round.round_id) {
        (v, Action::Wait)
    } else if round.phase == Phase::Closed {
        (
            v.record(round.round_id, CoordinatorState::PostClose { round_id: round.round_id }),
            Action::RunPipeline { closed_round: round.round_id },
        )
    } else if now >= round.end_timestamp {
        (
            v.with_state(CoordinatorState::ClosePending { round_id: round.round_id }),
            Action::ReadChain,
        )
    } else {
        (v, Action::Wait)
    }
}

/// In `ClosePending`: build the close intent from the fresh observation, or
/// stand down if the fresh observation no longer calls for one.
pub open spec fn spec_fresh_close(
    v: CoordinatorView,
    pending_round: u64,
    round: AuctionRound,
    now: u64,
) -> (CoordinatorView, Action) {
    if v.closed_rounds.contains(round.round_id) {
        (v.with_state(CoordinatorState::Observing), Action::Wait)
    } else if round.round_id > pending_round || (round.round_id == pending_round && round.phase
        == Phase::Closed) {
        // The round was closed by someone else: success, no submission.
        (
            v.record(
                pending_round,
                CoordinatorState::PostClose { round_id: pending_round },
            ),
            Action::RunPipeline { closed_round: pending_round },
        )
    } else if round.round_id < pending_round {
        // Stale read; fall back to observing.
        (v.with_state(CoordinatorState::Observing), Action::Wait)
    } else if now < round.end_timestamp {
        // A late change moved the end; not ready after all.
        (v.with_state(CoordinatorState::Observing), Action::Wait)
    } else {
        match round.top_bidder {
            Some(bidder) => {
                let intent = CloseIntent {
                    round_id: round.round_id,
                    top_bidder: bidder,
                    winning_character_index: round.winning_character_index,
                };
                (
                    v.with_state(CoordinatorState::Closing { intent, reconciling: false }),
                    Action::SubmitClose { intent },
                )
            },
            None => (v.with_state(CoordinatorState::Observing), Action::Wait),
        }
    }
}

/// In `Closing` with an ambiguous outcome: decide from a fresh observation
/// whether the close landed.  Never resubmits.
pub open spec fn spec_reconcile(v: CoordinatorView, intent: CloseIntent, round: AuctionRound) -> (
    CoordinatorView,
    Action,
) {
    if round.round_id > intent.round_id || (round.round_id == intent.round_id && round.phase
        == Phase::Closed) {
        // The close took effect (ours or another's): success.
        (
            v.record(
                intent.round_id,
                CoordinatorState::PostClose { round_id: intent.round_id },
            ),
            Action::RunPipeline { closed_round: intent.round_id },
        )
    } else if round.round_id == intent.round_id {
        // Round demonstrably still open: the attempt failed.  Surface it and
        // re-derive everything from fresh state on the next cycle.
        (
            v.with_state(CoordinatorState::Observing),
            Action::ReportCloseFailure { round_id: intent.round_id },
        )
    } else {
        // Stale read; read again.
        (v, Action::ReadChain)
    }
}

impl Coordinator {
    /// A fresh coordinator with an empty ledger.
    pub fn new() -> (c: Coordinator)
        ensures
            c@.state == CoordinatorState::Idle,
            c@.closed_rounds == Seq::<u64>::empty(),
            c@.wf(),
    {
        let c = Coordinator { state: CoordinatorState::Idle, closed_rounds: Vec::new() };
        proof {
            assert(c@.closed_rounds =~= Seq::<u64>::empty());
        }
        c
    }

    /// Rebuild a coordinator from persisted state, accepting it only when it
    /// is well formed: a duplicate-free ledger that agrees with the
    /// lifecycle state.  A restart then resumes through `on_restart`, by
    /// reconciliation rather than resubmission.
    pub fn restore(state: CoordinatorState, closed_rounds: Vec<u64>) -> (r: Option<Coordinator>)
        ensures
            ({
                let v = CoordinatorView { state, closed_rounds: closed_rounds@ };
                &&& r is Some <==> v.wf()
                &&& r is Some ==> r->0@ == v
            }),
    {
        let n: usize = closed_rounds.len();
        let mut i: usize = 0;
        while i < n
            invariant
                0 <= i <= n,
                n == closed_rounds@.len(),
                forall|a: int, b: int|
                    0 <= a < b < n && a < i ==> closed_rounds@[a] != closed_rounds@[b],
            decreases n - i,
        {
            let mut j: usize = i + 1;
            while j < n
                invariant
                    0 <= i < j <= n,
                    n == closed_rounds@.len(),
                    forall|b: int| i < b < j ==> closed_rounds@[i as int] != closed_rounds@[b],
                decreases n - j,
            {
                if closed_rounds[i] == closed_rounds[j] {
                    proof {
                        let v = CoordinatorView { state, closed_rounds: closed_rounds@ };
                        assert(v.closed_rounds[i as int] == v.closed_rounds[j as int]);
                        assert(!v.wf());
                    }
                    return None;
                }
                j += 1;
            }
            i += 1;
        }
        let c = Coordinator { state, closed_rounds };
        let consistent: bool = match c.state {
            CoordinatorState::ClosePending { round_id } => !c.contains_round(round_id),
            CoordinatorState::Closing { intent, .. } => !c.contains_round(intent.round_id),
            CoordinatorState::PostClose { round_id } => c.contains_round(round_id),
            _ => true,
        };
        if consistent {
            Some(c)
        } else {
            None
        }
    }

    /// Whether the ledger holds a confirmed close for the round.
    fn contains_round(&self, round_id: u64) -> (r: bool)
        ensures
            r == self@.closed_rounds.contains(round_id),
    {
        let n: usize = self.closed_rounds.len();
        let mut i: usize = 0;
        while i < n
            invariant
                n == self@.closed_rounds.len(),
                0 <= i <= n,
                forall|k: int| 0 <= k < i ==> self@.closed_rounds[k] != round_id,
            decreases n - i,
        {
            if self.closed_rounds[i] == round_id {
                return true;
            }
            i += 1;
        }
        false
    }

    /// Advance the state machine by one event, yielding the action the
    /// application must perform next.
    pub fn step(&mut self, event: Event) -> (a: Action)
        requires
            old(self)@.wf(),
        ensures
            (final(self)@, a) == spec_step(old(self)@, event),
            final(self)@.wf(),
    {
        let (next, action) = self.transition(event);
        self.state = next;
        proof {
            lemma_step_wf(old(self)@, event);
        }
        action
    }

    /// After a restart: any in-flight close is resolved by reconciliation,
    /// never by resubmission, and an interrupted pipeline is restarted.
    #[verifier::spinoff_prover]
    #[verifier::rlimit(30)]
    pub fn on_restart(&mut self) -> (a: Action)
        requires
            old(self)@.wf(),
        ensures
            final(self)@.closed_rounds == old(self)@.closed_rounds,
            final(self)@.wf(),
            match old(self)@.state {
                CoordinatorState::Closing { intent, .. } => final(self)@.state
                    == (CoordinatorState::Closing { intent, reconciling: true }) && a
                    == Action::ReadChain,
                CoordinatorState::PostClose { round_id } => final(self)@.state == old(
                    self,
                )@.state && a == (Action::RunPipeline { closed_round: round_id }),
                _ => final(self)@.state == CoordinatorState::Observing && a == Action::ReadChain,
            },
            !(a matches Action::SubmitClose { .. }),
    {
        let (next, a): (CoordinatorState, Action) = match self.state {
            CoordinatorState::Closing { intent, reconciling: _ } => (
                CoordinatorState::Closing { intent, reconciling: true },
                Action::ReadChain,
            ),
            CoordinatorState::PostClose { round_id } => (
                self.state,
                Action::RunPipeline { closed_round: round_id },
            ),
            _ => (CoordinatorState::Observing, Action::ReadChain),
        };
        self.state = next;
        a
    }

    /// Compute the transition without committing it; mirrors `spec_step`.
    fn transition(&mut self, event: Event) -> (r: (CoordinatorState, Action))
        requires
            old(self)@.wf(),
        ensures
            (
                CoordinatorView {
                    state: r.0,
                    closed_rounds: final(self)@.closed_rounds,
                },
                r.1,
            ) == spec_step(old(self)@, event),
            final(self)@.state == old(self)@.state,
    {
        match (self.state, event) {
            (CoordinatorState::Idle, Event::Tick { .. }) => (
                CoordinatorState::Observing,
                Action::ReadChain,
            ),
            (CoordinatorState::Observing, Event::Tick { .. }) => (
                CoordinatorState::Observing,
                Action::ReadChain,
            ),
            (CoordinatorState::Observing, Event::ChainState { round, now }) => {
                if self.contains_round(round.round_id) {
                    (CoordinatorState::Observing, Action::Wait)
                } else if matches!(round.phase, Phase::Closed) {
                    self.closed_rounds.push(round.round_id);
                    (
                        CoordinatorState::PostClose { round_id: round.round_id },
                        Action::RunPipeline { closed_round: round.round_id },
                    )
                } else if now >= round.end_timestamp {
                    (
                        CoordinatorState::ClosePending { round_id: round.round_id },
                        Action::ReadChain,
                    )
                } else {
                    (CoordinatorState::Observing, Action::Wait)
                }
            },
            (CoordinatorState::ClosePending { .. }, Event::Tick { .. }) => (
                self.state,
                Action::ReadChain,
            ),
            (CoordinatorState::ClosePending { round_id }, Event::ChainState { round, now }) => {
                if self.contains_round(round.round_id) {
                    (CoordinatorState::Observing, Action::Wait)
                } else if round.round_id > round_id || (round.round_id == round_id && matches!(
                    round.phase,
                    Phase::Closed,
                )) {
                    self.closed_rounds.push(round_id);
                    (
                        CoordinatorState::PostClose { round_id },
                        Action::RunPipeline { closed_round: round_id },
                    )
                } else if round.round_id < round_id {
                    (CoordinatorState::Observing, Action::Wait)
                } else if now < round.end_timestamp {
                    (CoordinatorState::Observing, Action::Wait)
                } else {
                    match round.top_bidder {
                        Some(bidder) => {
                            let intent = CloseIntent {
                                round_id: round.round_id,
                                top_bidder: bidder,
                                winning_character_index: round.winning_character_index,
                            };
                            (
                                CoordinatorState::Closing { intent, reconciling: false },
                                Action::SubmitClose { intent },
                            )
                        },
                        None => (CoordinatorState::Observing, Action::Wait),
                    }
                }
            },
            (CoordinatorState::ClosePending { .. }, Event::ChainReadFailed) => (
                CoordinatorState::Observing,
                Action::Wait,
            ),
            (CoordinatorState::Closing { intent, reconciling: false }, Event::TxConfirmed) => {
                self.closed_rounds.push(intent.round_id);
                (
                    CoordinatorState::PostClose { round_id: intent.round_id },
                    Action::RunPipeline { closed_round: intent.round_id },
                )
            },
            (
                CoordinatorState::Closing { intent, reconciling: false },
                Event::TxRejected | Event::TxReverted | Event::TxTimeout,
            ) => (CoordinatorState::Closing { intent, reconciling: true }, Action::ReadChain),
            (CoordinatorState::Closing { reconciling: true, .. }, Event::Tick { .. }) => (
                self.state,
                Action::ReadChain,
            ),
            (
                CoordinatorState::Closing { intent, reconciling: true },
                Event::ChainState { round, .. },
            ) => {
                if round.round_id > intent.round_id || (round.round_id == intent.round_id
                    && matches!(round.phase, Phase::Closed)) {
                    self.closed_rounds.push(intent.round_id);
                    (
                        CoordinatorState::PostClose { round_id: intent.round_id },
                        Action::RunPipeline { closed_round: intent.round_id },
                    )
                } else if round.round_id == intent.round_id {
                    (
                        CoordinatorState::Observing,
                        Action::ReportCloseFailure { round_id: intent.round_id },
                    )
                } else {
                    (self.state, Action::ReadChain)
                }
            },
            (CoordinatorState::Closing { reconciling: true, .. }, Event::ChainReadFailed) => (
                self.state,
                Action::ReadChain,
            ),
            (CoordinatorState::PostClose { .. }, Event::PipelineComplete) => (
                CoordinatorState::Observing,
                Action::ReadChain,
            ),
            (CoordinatorState::PostClose { round_id }, Event::PipelineFailed) => (
                self.state,
                Action::RunPipeline { closed_round: round_id },
            ),
            _ => (self.state, Action::Wait),
        }
    }
}

/// Whether an action is a close submission for the given round.
pub open spec fn submits_close_for(a: Action, r: u64) -> bool {
    a matches Action::SubmitClose { intent } && intent.round_id == r
}

/// The coordinator after a whole sequence of events, with every action it
/// requested along the way, in order.
pub open spec fn spec_run(v: CoordinatorView, es: Seq<Event>) -> (CoordinatorView, Seq<Action>)
    decreases es.len(),
{
    if es.len() == 0 {
        (v, Seq::empty())
    } else {
        let (v1, a) = spec_step(v, es[0]);
        let (vn, rest) = spec_run(v1, es.subrange(1, es.len() as int));
        (vn, seq![a] + rest)
    }
}

/// At-most-once closing, over whole runs: whatever events arrive and in
/// whatever order, once a round is recorded closed it stays recorded, and no
/// later step ever requests a close submission for it.
pub proof fn lemma_run_never_resubmits_closed(v: CoordinatorView, es: Seq<Event>, r: u64)
    requires
        v.wf(),
        v.closed_rounds.contains(r),
    ensures
        spec_run(v, es).0.wf(),
        spec_run(v, es).0.closed_rounds.contains(r),
        forall|k: int|
            0 <= k < spec_run(v, es).1.len() ==> !submits_close_for(
                #[trigger] spec_run(v, es).1[k],
                r,
            ),
    decreases es.len(),
{
    if es.len() > 0 {
        let (v1, a) = spec_step(v, es[0]);
        let tail = es.subrange(1, es.len() as int);
        let (vn, rest) = spec_run(v1, tail);
        lemma_step_wf(v, es[0]);
        lemma_close_at_most_once(v, es[0], r);
        lemma_run_never_resubmits_closed(v1, tail, r);
        assert forall|k: int| 0 <= k < spec_run(v, es).1.len() implies !submits_close_for(
            #[trigger] spec_run(v, es).1[k],
            r,
        ) by {
            if k == 0 {
                assert(spec_run(v, es).1[0] == a);
            } else {
                assert(spec_run(v, es).1[k] == rest[k - 1]);
            }
        }
    }
}

/// A round once present in a ledger is still present after a push.
proof fn lemma_push_preserves_contains(s: Seq<u64>, x: u64, r: u64)
    requires
        s.contains(r),
    ensures
        s.push(x).contains(r),
{
    let i = choose|i: int| 0 <= i < s.len() && s[i] == r;
    assert(s.push(x)[i] == r);
}

/// At-most-once closing: once a round is recorded closed, no step ever asks
/// for another close submission for it, and the record is never lost.
pub proof fn lemma_close_at_most_once(v: CoordinatorView, e: Event, r: u64)
    requires
        v.wf(),
        v.closed_rounds.contains(r),
    ensures
        !(spec_step(v, e).1 matches Action::SubmitClose { intent } && intent.round_id == r),
        spec_step(v, e).0.closed_rounds.contains(r),
{
    let (v2, a) = spec_step(v, e);
    if v2.closed_rounds != v.closed_rounds {
        match v.state {
            CoordinatorState::Observing => {
                if let Event::ChainState { round, .. } = e {
                    lemma_push_preserves_contains(v.closed_rounds, round.round_id, r);
                }
            },
            CoordinatorState::ClosePending { round_id } => {
                lemma_push_preserves_contains(v.closed_rounds, round_id, r);
            },
            CoordinatorState::Closing { intent, .. } => {
                lemma_push_preserves_contains(v.closed_rounds, intent.round_id, r);
            },
            _ => {},
        }
    }
}

/// A close submission is only ever requested from `ClosePending`, against a
/// fresh chain observation of an unclosed round past its end, and with the
/// arguments of that observation.
pub proof fn lemma_submit_close_fresh(v: CoordinatorView, e: Event)
    requires
        v.wf(),
    ensures
        spec_step(v, e).1 matches Action::SubmitClose { intent } ==> ({
            &&& !v.closed_rounds.contains(intent.round_id)
            &&& v.state == (CoordinatorState::ClosePending { round_id: intent.round_id })
            &&& e matches Event::ChainState { round, now } && round.round_id == intent.round_id
                && round.top_bidder == Some(intent.top_bidder)
                && round.winning_character_index == intent.winning_character_index
                && round.phase != Phase::Closed && now >= round.end_timestamp
        }),
{
}

/// Reconciliation: after an ambiguous close outcome the coordinator asks for
/// a chain read, never a resubmission; and when the fresh observation shows
/// the round already closed, it records the round and moves to post-close
/// without any further submission.
pub proof fn lemma_reconcile_resolves_timeout(
    v: CoordinatorView,
    intent: CloseIntent,
    round: AuctionRound,
    now: u64,
)
    requires
        v.wf(),
        v.state == (CoordinatorState::Closing { intent, reconciling: false }),
        round.round_id > intent.round_id || (round.round_id == intent.round_id && round.phase
            == Phase::Closed),
    ensures
        ({
            let (v1, a1) = spec_step(v, Event::TxTimeout);
            let (v2, a2) = spec_step(v1, Event::ChainState { round, now });
            &&& a1 == Action::ReadChain
            &&& v1.state == (CoordinatorState::Closing { intent, reconciling: true })
            &&& !(a2 matches Action::SubmitClose { .. })
            &&& v2.state == (CoordinatorState::PostClose { round_id: intent.round_id })
            &&& a2 == (Action::RunPipeline { closed_round: intent.round_id })
            &&& v2.closed_rounds.contains(intent.round_id)
            &&& v2.wf()
        }),
{
    let (v1, a1) = spec_step(v, Event::TxTimeout);
    lemma_step_wf(v, Event::TxTimeout);
    lemma_step_wf(v1, Event::ChainState { round, now });
}

/// Recording an unrecorded round keeps the ledger duplicate-free and leaves
/// the round recorded.
proof fn lemma_record_wf(v: CoordinatorView, r: u64)
    requires
        v.wf(),
        !v.closed_rounds.contains(r),
    ensures
        v.record(r, CoordinatorState::PostClose { round_id: r }).wf(),
{
    let cr = v.closed_rounds;
    let cr2 = v.record(r, CoordinatorState::PostClose { round_id: r }).closed_rounds;
    assert(cr2.contains(r)) by {
        assert(cr2[cr.len() as int] == r);
    }
    assert forall|i: int, j: int| 0 <= i < j < cr2.len() implies cr2[i] != cr2[j] by {
        if j < cr.len() {
            assert(cr2[i] == cr[i] && cr2[j] == cr[j]);
        } else {
            assert(cr2[j] == r);
            assert(cr2[i] == cr[i]);
            if cr[i] == r {
                assert(cr.contains(r));
            }
        }
    }
}

/// Whether the coordinator has recorded a confirmed close for the round:
/// the consultable face of the idempotency ledger.
pub fn is_auction_closed(c: &Coordinator, round_id: u64) -> (r: bool)
    ensures
        r == c@.closed_rounds.contains(round_id),
{
    c.contains_round(round_id)
}

/// Every step preserves well-formedness.
pub proof fn lemma_step_wf(v: CoordinatorView, e: Event)
    requires
        v.wf(),
    ensures
        spec_step(v, e).0.wf(),
{
    match v.state {
        CoordinatorState::Observing => {
            if let Event::ChainState { round, now } = e {
                if !v.closed_rounds.contains(round.round_id) && round.phase == Phase::Closed {
                    lemma_record_wf(v, round.round_id);
                }
            }
        },
        CoordinatorState::ClosePending { round_id } => {
            if let Event::ChainState { round, now } = e {
                if !v.closed_rounds.contains(round.round_id) && (round.round_id > round_id || (
                round.round_id == round_id && round.phase == Phase::Closed)) {
                    lemma_record_wf(v, round_id);
                }
            }
        },
        CoordinatorState::Closing { intent, reconciling } => {
            if reconciling {
                if let Event::ChainState { round, .. } = e {
                    if round.round_id > intent.round_id || (round.round_id == intent.round_id
                        && round.phase == Phase::Closed) {
                        lemma_record_wf(v, intent.round_id);
                    }
                }
            } else {
                if let Event::TxConfirmed = e {
                    lemma_record_wf(v, intent.round_id);
                }
            }
        },
        _ => {},
    }
}

} // verus!

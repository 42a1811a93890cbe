use auction_backend::coordinator::Action;
use auction_backend::coordinator::Coordinator;
use auction_backend::coordinator::CoordinatorState;
use auction_backend::coordinator::Event;
use auction_backend::coordinator::is_auction_closed;
use auction_backend::types::Address;
use auction_backend::types::AuctionRound;
use auction_backend::types::CloseIntent;
use auction_backend::types::Phase;

fn addr(lo: u128) -> Address {
    Address { hi: 0, lo }
}

fn open_round(round_id: u64, end_timestamp: u64, bidder: Option<Address>) -> AuctionRound {
    AuctionRound {
        round_id,
        end_timestamp,
        top_bidder: bidder,
        winning_character_index: 2,
        phase: Phase::Open,
    }
}

/// A minimal in-process stand-in for the auction contract: it accepts at
/// most one effective close per round and then advances to the next round.
struct MockChain {
    round: AuctionRound,
    effective_closes: Vec<u64>,
}

impl MockChain {
    fn new(round: AuctionRound) -> MockChain {
        MockChain { round, effective_closes: Vec::new() }
    }

    fn read(&self) -> AuctionRound {
        self.round
    }

    /// Returns the event the submitting coordinator observes.
    fn submit_close(&mut self, intent: CloseIntent) -> Event {
        if self.round.round_id == intent.round_id && self.round.phase != Phase::Closed {
            self.effective_closes.push(intent.round_id);
            self.round = AuctionRound {
                round_id: intent.round_id + 1,
                end_timestamp: self.round.end_timestamp + 3600,
                top_bidder: None,
                winning_character_index: 0,
                phase: Phase::Open,
            };
            Event::TxConfirmed
        } else {
            Event::TxReverted
        }
    }
}

#[test]
fn close_round_seven_scenario() {
    let mut c = Coordinator::new();
    assert_eq!(c.step(Event::Tick { now: 100 }), Action::ReadChain);

    let bidder = addr(0xABC);
    let round = open_round(7, 1000, Some(bidder));
    // Past the end at now = T + 1: a fresh read is requested before closing.
    assert_eq!(c.step(Event::ChainState { round, now: 1001 }), Action::ReadChain);
    assert_eq!(c.state, CoordinatorState::ClosePending { round_id: 7 });

    // The fresh read confirms: submit close_current_auction(0xABC, 2).
    let intent = CloseIntent { round_id: 7, top_bidder: bidder, winning_character_index: 2 };
    assert_eq!(c.step(Event::ChainState { round, now: 1001 }), Action::SubmitClose { intent });

    // Confirmed: round 7 is recorded closed and generation begins for the
    // round that follows.
    assert_eq!(c.step(Event::TxConfirmed), Action::RunPipeline { closed_round: 7 });
    assert!(is_auction_closed(&c, 7));
    assert_eq!(c.state, CoordinatorState::PostClose { round_id: 7 });
}

#[test]
fn at_most_one_effective_close_with_concurrent_coordinators() {
    let bidder = addr(0xABC);
    let start = open_round(7, 1000, Some(bidder));
    let mut chain = MockChain::new(start);

    let mut a = Coordinator::new();
    let mut b = Coordinator::new();

    // Both instances observe the ended round and both take a fresh read
    // before the other's close lands: both decide to submit.
    a.step(Event::Tick { now: 1001 });
    b.step(Event::Tick { now: 1001 });
    a.step(Event::ChainState { round: chain.read(), now: 1001 });
    b.step(Event::ChainState { round: chain.read(), now: 1001 });
    let act_a = a.step(Event::ChainState { round: chain.read(), now: 1001 });
    let act_b = b.step(Event::ChainState { round: chain.read(), now: 1001 });
    let intent_a = match act_a {
        Action::SubmitClose { intent } => intent,
        other => panic!("expected a close submission, got {:?}", other),
    };
    let intent_b = match act_b {
        Action::SubmitClose { intent } => intent,
        other => panic!("expected a close submission, got {:?}", other),
    };

    // The chain accepts one; the other reverts.
    let outcome_a = chain.submit_close(intent_a);
    let outcome_b = chain.submit_close(intent_b);
    assert_eq!(outcome_a, Event::TxConfirmed);
    assert_eq!(outcome_b, Event::TxReverted);

    assert_eq!(a.step(outcome_a), Action::RunPipeline { closed_round: 7 });

    // The loser reconciles: a chain read, never a resubmission, and the
    // advanced round counts as success.
    assert_eq!(b.step(outcome_b), Action::ReadChain);
    assert_eq!(
        b.step(Event::ChainState { round: chain.read(), now: 1002 }),
        Action::RunPipeline { closed_round: 7 }
    );

    // Exactly one close took effect on chain for round 7.
    assert_eq!(chain.effective_closes, vec![7]);
    assert!(is_auction_closed(&a, 7));
    assert!(is_auction_closed(&b, 7));

    // Neither instance ever asks to close round 7 again.
    let stale = open_round(7, 1000, Some(bidder));
    assert_eq!(a.step(Event::PipelineComplete), Action::ReadChain);
    assert_eq!(a.step(Event::ChainState { round: stale, now: 2000 }), Action::Wait);
}

#[test]
fn timeout_then_closed_chain_state_does_not_resubmit() {
    let bidder = addr(0xABC);
    let round = open_round(7, 1000, Some(bidder));
    let mut c = Coordinator::new();
    c.step(Event::Tick { now: 1001 });
    c.step(Event::ChainState { round, now: 1001 });
    let submitted = c.step(Event::ChainState { round, now: 1001 });
    assert!(matches!(submitted, Action::SubmitClose { .. }));

    // Ambiguous outcome: reconcile by reading, never by resubmitting.
    assert_eq!(c.step(Event::TxTimeout), Action::ReadChain);

    // The fresh read shows the round already closed: proceed to post-close.
    let closed = AuctionRound { phase: Phase::Closed, ..round };
    assert_eq!(
        c.step(Event::ChainState { round: closed, now: 1002 }),
        Action::RunPipeline { closed_round: 7 }
    );
    assert_eq!(c.state, CoordinatorState::PostClose { round_id: 7 });
    assert!(is_auction_closed(&c, 7));
}

#[test]
fn timeout_then_open_chain_state_surfaces_failure() {
    let bidder = addr(0xABC);
    let round = open_round(9, 500, Some(bidder));
    let mut c = Coordinator::new();
    c.step(Event::Tick { now: 501 });
    c.step(Event::ChainState { round, now: 501 });
    c.step(Event::ChainState { round, now: 501 });
    assert_eq!(c.step(Event::TxTimeout), Action::ReadChain);

    // Still open on chain: the failure is surfaced and the close will be
    // re-derived from fresh state on the next cycle.
    assert_eq!(
        c.step(Event::ChainState { round, now: 502 }),
        Action::ReportCloseFailure { round_id: 9 }
    );
    assert_eq!(c.state, CoordinatorState::Observing);
    assert!(!is_auction_closed(&c, 9));
}

#[test]
fn no_bidder_means_no_submission() {
    let round = open_round(3, 100, None);
    let mut c = Coordinator::new();
    c.step(Event::Tick { now: 101 });
    c.step(Event::ChainState { round, now: 101 });
    assert_eq!(c.state, CoordinatorState::ClosePending { round_id: 3 });
    assert_eq!(c.step(Event::ChainState { round, now: 101 }), Action::Wait);
    assert_eq!(c.state, CoordinatorState::Observing);
}

#[test]
fn round_not_yet_ended_keeps_observing() {
    let round = open_round(4, 1000, Some(addr(1)));
    let mut c = Coordinator::new();
    c.step(Event::Tick { now: 10 });
    assert_eq!(c.step(Event::ChainState { round, now: 999 }), Action::Wait);
    assert_eq!(c.state, CoordinatorState::Observing);
}

#[test]
fn read_failure_is_transient() {
    let mut c = Coordinator::new();
    c.step(Event::Tick { now: 1 });
    assert_eq!(c.step(Event::ChainReadFailed), Action::Wait);
    assert_eq!(c.state, CoordinatorState::Observing);
    assert_eq!(c.step(Event::Tick { now: 2 }), Action::ReadChain);
}

#[test]
fn restart_during_close_resumes_by_reconciliation() {
    let bidder = addr(0xABC);
    let round = open_round(7, 1000, Some(bidder));
    let mut c = Coordinator::new();
    c.step(Event::Tick { now: 1001 });
    c.step(Event::ChainState { round, now: 1001 });
    c.step(Event::ChainState { round, now: 1001 });
    assert!(matches!(c.state, CoordinatorState::Closing { .. }));

    // A restart with a close in flight never resubmits blindly.
    assert_eq!(c.on_restart(), Action::ReadChain);
    let closed = AuctionRound { phase: Phase::Closed, ..round };
    assert_eq!(
        c.step(Event::ChainState { round: closed, now: 1200 }),
        Action::RunPipeline { closed_round: 7 }
    );
    assert!(is_auction_closed(&c, 7));
}

#[test]
fn pipeline_failure_is_retried_without_touching_the_close() {
    let bidder = addr(0xABC);
    let round = open_round(7, 1000, Some(bidder));
    let mut c = Coordinator::new();
    c.step(Event::Tick { now: 1001 });
    c.step(Event::ChainState { round, now: 1001 });
    c.step(Event::ChainState { round, now: 1001 });
    c.step(Event::TxConfirmed);
    assert_eq!(c.step(Event::PipelineFailed), Action::RunPipeline { closed_round: 7 });
    assert_eq!(c.state, CoordinatorState::PostClose { round_id: 7 });
    assert_eq!(c.step(Event::PipelineComplete), Action::ReadChain);
    assert_eq!(c.state, CoordinatorState::Observing);
    assert!(is_auction_closed(&c, 7));
}

#[test]
fn round_closed_by_someone_else_is_success() {
    // While observing, a round unknown to the ledger already shows closed:
    // the coordinator records it and runs the pipeline, with no submission.
    let round = AuctionRound {
        round_id: 11,
        end_timestamp: 50,
        top_bidder: Some(addr(5)),
        winning_character_index: 0,
        phase: Phase::Closed,
    };
    let mut c = Coordinator::new();
    c.step(Event::Tick { now: 60 });
    assert_eq!(
        c.step(Event::ChainState { round, now: 60 }),
        Action::RunPipeline { closed_round: 11 }
    );
    assert!(is_auction_closed(&c, 11));
    assert!(!is_auction_closed(&c, 12));
}

#[test]
fn restore_accepts_only_well_formed_state() {
    // A consistent persisted state is accepted as it was.
    let c = Coordinator::restore(CoordinatorState::PostClose { round_id: 5 }, vec![3, 5]).unwrap();
    assert!(is_auction_closed(&c, 5));
    assert!(is_auction_closed(&c, 3));

    // A ledger with a duplicate is refused.
    assert!(Coordinator::restore(CoordinatorState::Observing, vec![4, 4]).is_none());

    // A close in flight for a round the ledger already holds is refused.
    let intent = CloseIntent { round_id: 3, top_bidder: addr(1), winning_character_index: 0 };
    let in_flight = CoordinatorState::Closing { intent, reconciling: false };
    assert!(Coordinator::restore(in_flight, vec![3]).is_none());

    // A restored in-flight close resumes by reconciliation, not resubmission.
    let mut c = Coordinator::restore(in_flight, vec![2]).unwrap();
    assert_eq!(c.on_restart(), Action::ReadChain);
    assert_eq!(c.state, CoordinatorState::Closing { intent, reconciling: true });
}

#[test]
fn any_phase_but_closed_is_still_closable() {
    // The chain may report an ended round as ready-to-close or mid-closing;
    // either way the coordinator derives its own decision and submits once.
    let bidder = addr(0x77);
    let mut round = open_round(6, 200, Some(bidder));
    round.phase = Phase::ReadyToClose;
    let mut c = Coordinator::new();
    c.step(Event::Tick { now: 201 });
    assert_eq!(c.step(Event::ChainState { round, now: 201 }), Action::ReadChain);
    round.phase = Phase::Closing;
    let intent = CloseIntent { round_id: 6, top_bidder: bidder, winning_character_index: 2 };
    assert_eq!(c.step(Event::ChainState { round, now: 201 }), Action::SubmitClose { intent });
}

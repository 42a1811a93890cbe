//! Plain data carried between the chain, the store and the coordinator.

use vstd::prelude::*;

verus! {

/// A 160-bit account or contract address, split into a 32-bit high word and a
/// 128-bit low word (big-endian: `hi` holds the first four bytes).
#[derive(Clone, Copy, PartialEq, Eq, Structural, Debug)]
pub struct Address {
    pub hi: u32,
    pub lo: u128,
}

impl Address {
    /// The all-zero address, which no real account uses.
    pub open spec fn spec_is_zero(self) -> bool {
        self.hi == 0 && self.lo == 0
    }

    pub fn is_zero(&self) -> (r: bool)
        ensures
            r == self.spec_is_zero(),
    {
        self.hi == 0 && self.lo == 0
    }
}

/// Where an auction round stands, as the chain reports it.
#[derive(Clone, Copy, PartialEq, Eq, Structural, Debug)]
pub enum Phase {
    Open,
    ReadyToClose,
    Closing,
    Closed,
}

/// One observation of the contract's current round.  The chain is
/// authoritative; this value is only ever a snapshot.
#[derive(Clone, Copy, PartialEq, Eq, Structural, Debug)]
pub struct AuctionRound {
    /// The contract's auction id; monotonically increasing.
    pub round_id: u64,
    /// Unix time at which the round may be closed.
    pub end_timestamp: u64,
    /// Highest bidder, absent until a bid exists.
    pub top_bidder: Option<Address>,
    /// Index of the winning character within the round's character set.
    pub winning_character_index: u8,
    /// Phase the chain reports for this round.
    pub phase: Phase,
}

/// A single attempted closing action: the arguments of one
/// `close_current_auction` submission.
#[derive(Clone, Copy, PartialEq, Eq, Structural, Debug)]
pub struct CloseIntent {
    pub round_id: u64,
    pub top_bidder: Address,
    pub winning_character_index: u8,
}

/// A stable identifier handed back by the content-addressed store;
/// deterministic over the uploaded bytes.
#[derive(Clone, Debug)]
pub struct ContentId {
    pub bytes: Vec<u8>,
}

impl View for ContentId {
    type V = Seq<u8>;

    open spec fn view(&self) -> Seq<u8> {
        self.bytes@
    }
}

/// Equality of two content identifiers, byte for byte.
pub fn content_id_eq(a: &ContentId, b: &ContentId) -> (r: bool)
    ensures
        r == (a@ == b@),
{
    if a.bytes.len() != b.bytes.len() {
        assert(a@ != b@);
        return false;
    }
    let n: usize = a.bytes.len();
    let mut i: usize = 0;
    while i < n
        invariant
            n == a@.len() && n == b@.len(),
            0 <= i <= n,
            forall|k: int| 0 <= k < i ==> a@[k] == b@[k],
        decreases n - i,
    {
        if a.bytes[i] != b.bytes[i] {
            return false;
        }
        i += 1;
    }
    assert(a@ =~= b@);
    true
}

} // verus!

use vstd::prelude::*;

verus! {

/// The identity of an actor (a 32-byte public key).
#[derive(Clone, Copy, Debug, PartialEq, Eq)]
pub struct ActorId {
    pub bytes: [u8; 32],
}

impl ActorId {
    /// Whether two actors are the same key.
    pub fn same_as(&self, other: &ActorId) -> (r: bool)
        ensures
            r == (self.bytes@ == other.bytes@),
    {
        let mut i: usize = 0;
        while i < 32
            invariant
                i <= 32,
                self.bytes@.len() == 32,
                other.bytes@.len() == 32,
                forall|j: int| 0 <= j < i ==> self.bytes@[j] == other.bytes@[j],
            decreases 32 - i,
        {
            if self.bytes[i] != other.bytes[i] {
                return false;
            }
            i = i + 1;
        }
        assert(self.bytes@ =~= other.bytes@);
        true
    }
}

/// The registry that hands out lottery ids.
#[derive(Clone, Copy, Debug, PartialEq, Eq, Structural)]
pub struct Master {
    /// The id given to the most recently created lottery (0 before the first).
    pub last_id: u32,
}

/// One lottery.
#[derive(Clone, Copy, Debug, PartialEq, Eq)]
pub struct Lottery {
    pub id: u32,
    /// The creator; the only actor allowed to draw the winner.
    pub authority: ActorId,
    /// What one ticket costs, in balance units.
    pub ticket_price: u64,
    /// How many tickets have been sold; also the id of the newest ticket.
    pub ticket_count: u32,
    /// The drawn ticket, once there is one.
    pub winner_ticket_id: Option<u32>,
    /// Whether the prize has been paid out.
    pub claimed: bool,
}

/// One sold ticket.
#[derive(Clone, Copy, Debug, PartialEq, Eq)]
pub struct Ticket {
    /// 1-based position of the sale within its lottery.
    pub id: u32,
    pub owner: ActorId,
    pub lottery_id: u32,
}

/// Why a transition was refused.
#[derive(Clone, Copy, Debug, PartialEq, Eq, Structural)]
pub enum LotteryError {
    AlreadyInitialized,
    RegistryNotInitialized,
    RecordAlreadyExists,
    WinnerAlreadyExists,
    NoTickets,
    WinnerNotChosen,
    InvalidWinner,
    AlreadyClaimed,
    Unauthorized,
    InsufficientFunds,
    ArithmeticOverflow,
}

impl Lottery {
    /// The lottery's records obey the lifecycle: a winner is only drawn from
    /// sold tickets, and a prize is only claimed after a draw.
    pub open spec fn wf(self) -> bool {
        &&& self.winner_ticket_id matches Some(w) ==> 1 <= w <= self.ticket_count
        &&& self.claimed ==> self.winner_ticket_id is Some
    }
}

} // verus!

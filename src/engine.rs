use vstd::prelude::*;
use crate::draw::{seed_of_timestamp, timestamp_seed, winning_ticket, winning_ticket_for};
use crate::state::{ActorId, Lottery, LotteryError, Master, Ticket};

verus! {

/// The error, if any, that `create_lottery` returns on this registry slot.
pub open spec fn create_error(registry: Option<Master>) -> Option<LotteryError> {
    match registry {
        None => Some(LotteryError::RegistryNotInitialized),
        Some(m) => if m.last_id == u32::MAX {
            Some(LotteryError::ArithmeticOverflow)
        } else {
            None
        },
    }
}

/// The registry after it has handed out one more id.
pub open spec fn registry_after_create(m: Master) -> Master {
    Master { last_id: (m.last_id + 1) as u32 }
}

/// The lottery that `create_lottery` makes from registry `m`.
pub open spec fn lottery_created(m: Master, authority: ActorId, ticket_price: u64) -> Lottery {
    Lottery {
        id: (m.last_id + 1) as u32,
        authority,
        ticket_price,
        ticket_count: 0,
        winner_ticket_id: None,
        claimed: false,
    }
}

/// Creates the registry, with no id handed out yet; `existing` is what the
/// registry's slot holds already.
pub fn init_master(existing: &Option<Master>) -> (r: Result<Master, LotteryError>)
    ensures
        existing.is_none() <==> r is Ok,
        r is Ok ==> r == Ok::<Master, LotteryError>(Master { last_id: 0 }),
        r is Err ==> r == Err::<Master, LotteryError>(LotteryError::AlreadyInitialized),
{
    match existing {
        Some(_) => Err(LotteryError::AlreadyInitialized),
        None => Ok(Master { last_id: 0 }),
    }
}

/// Creates a lottery owned by `authority` under the next id of the registry.
pub fn create_lottery(registry: &mut Option<Master>, authority: ActorId, ticket_price: u64) -> (r:
    Result<Lottery, LotteryError>)
    ensures
        r matches Ok(l) ==> l.wf(),
        match r {
            Ok(l) => {
                &&& create_error(*old(registry)) is None
                &&& l == lottery_created(old(registry).unwrap(), authority, ticket_price)
                &&& *final(registry) == Some(registry_after_create(old(registry).unwrap()))
            },
            Err(e) => {
                &&& create_error(*old(registry)) == Some(e)
                &&& *final(registry) == *old(registry)
            },
        },
{
    match registry {
        None => Err(LotteryError::RegistryNotInitialized),
        Some(m) => {
            if m.last_id == u32::MAX {
                return Err(LotteryError::ArithmeticOverflow);
            }
            m.last_id = m.last_id + 1;
            Ok(
                Lottery {
                    id: m.last_id,
                    authority,
                    ticket_price,
                    ticket_count: 0,
                    winner_ticket_id: None,
                    claimed: false,
                },
            )
        },
    }
}

/// The error, if any, that `buy_ticket` returns.
pub open spec fn buy_error(l: Lottery, buyer_funds: u64, escrow: u64) -> Option<LotteryError> {
    if l.winner_ticket_id is Some {
        Some(LotteryError::WinnerAlreadyExists)
    } else if buyer_funds < l.ticket_price {
        Some(LotteryError::InsufficientFunds)
    } else if escrow + l.ticket_price > u64::MAX || l.ticket_count == u32::MAX {
        Some(LotteryError::ArithmeticOverflow)
    } else {
        None
    }
}

/// The lottery after one more ticket has been sold.
pub open spec fn lottery_after_buy(l: Lottery) -> Lottery {
    Lottery { ticket_count: (l.ticket_count + 1) as u32, ..l }
}

/// The ticket that the next sale of `l` issues to `buyer`.
pub open spec fn ticket_bought(l: Lottery, buyer: ActorId) -> Ticket {
    Ticket { id: (l.ticket_count + 1) as u32, owner: buyer, lottery_id: l.id }
}

/// Sells the next ticket of `lottery` to `buyer`, moving the ticket price from
/// the buyer's funds into the lottery's escrow.
pub fn buy_ticket(lottery: &mut Lottery, buyer: ActorId, buyer_funds: &mut u64, escrow: &mut u64) -> (r:
    Result<Ticket, LotteryError>)
    ensures
        old(lottery).wf() ==> final(lottery).wf(),
        match r {
            Ok(t) => {
                &&& buy_error(*old(lottery), *old(buyer_funds), *old(escrow)) is None
                &&& t == ticket_bought(*old(lottery), buyer)
                &&& *final(lottery) == lottery_after_buy(*old(lottery))
                &&& *final(buyer_funds) == *old(buyer_funds) - old(lottery).ticket_price
                &&& *final(escrow) == *old(escrow) + old(lottery).ticket_price
            },
            Err(e) => {
                &&& buy_error(*old(lottery), *old(buyer_funds), *old(escrow)) == Some(e)
                &&& *final(lottery) == *old(lottery)
                &&& *final(buyer_funds) == *old(buyer_funds)
                &&& *final(escrow) == *old(escrow)
            },
        },
{
    if lottery.winner_ticket_id.is_some() {
        return Err(LotteryError::WinnerAlreadyExists);
    }
    let price = lottery.ticket_price;
    if *buyer_funds < price {
        return Err(LotteryError::InsufficientFunds);
    }
    if *escrow > u64::MAX - price || lottery.ticket_count == u32::MAX {
        return Err(LotteryError::ArithmeticOverflow);
    }
    *buyer_funds = *buyer_funds - price;
    *escrow = *escrow + price;
    lottery.ticket_count = lottery.ticket_count + 1;
    Ok(Ticket { id: lottery.ticket_count, owner: buyer, lottery_id: lottery.id })
}

/// The error, if any, that `pick_winner` returns when `caller` draws `l`.
pub open spec fn pick_error(l: Lottery, caller: ActorId) -> Option<LotteryError> {
    if caller.bytes@ != l.authority.bytes@ {
        Some(LotteryError::Unauthorized)
    } else if l.winner_ticket_id is Some {
        Some(LotteryError::WinnerAlreadyExists)
    } else if l.ticket_count == 0 {
        Some(LotteryError::NoTickets)
    } else {
        None
    }
}

/// The lottery once ticket `winner` has been drawn.
pub open spec fn lottery_after_pick(l: Lottery, winner: u32) -> Lottery {
    Lottery { winner_ticket_id: Some(winner), ..l }
}

/// The ticket that a draw of `l` at this time and slot selects.
pub open spec fn drawn_ticket(l: Lottery, unix_timestamp: i64, slot: u64) -> u32 {
    winning_ticket(seed_of_timestamp(unix_timestamp), slot, l.ticket_count)
}

/// Draws the winning ticket of `lottery`, on behalf of `caller`, from the
/// wall-clock time and the slot of the draw. This randomness is weak: anyone
/// who knows or picks the time of the call can predict the outcome.
pub fn pick_winner(lottery: &mut Lottery, caller: &ActorId, unix_timestamp: i64, slot: u64) -> (r:
    Result<u32, LotteryError>)
    ensures
        old(lottery).wf() ==> final(lottery).wf(),
        match r {
            Ok(w) => {
                &&& pick_error(*old(lottery), *caller) is None
                &&& w == drawn_ticket(*old(lottery), unix_timestamp, slot)
                &&& 1 <= w <= old(lottery).ticket_count
                &&& *final(lottery) == lottery_after_pick(*old(lottery), w)
            },
            Err(e) => {
                &&& pick_error(*old(lottery), *caller) == Some(e)
                &&& *final(lottery) == *old(lottery)
            },
        },
{
    if !caller.same_as(&lottery.authority) {
        return Err(LotteryError::Unauthorized);
    }
    if lottery.winner_ticket_id.is_some() {
        return Err(LotteryError::WinnerAlreadyExists);
    }
    if lottery.ticket_count == 0 {
        return Err(LotteryError::NoTickets);
    }
    let seed = timestamp_seed(unix_timestamp);
    let winner = winning_ticket_for(seed, slot, lottery.ticket_count);
    lottery.winner_ticket_id = Some(winner);
    Ok(winner)
}

/// The whole pool of `l`: the ticket price times the tickets sold.
pub open spec fn prize_of(l: Lottery) -> int {
    l.ticket_price * l.ticket_count
}

/// The error, if any, that `claim_prize` returns when `claimant` presents
/// ticket `t` of lottery `l`.
pub open spec fn claim_error(
    l: Lottery,
    t: Ticket,
    claimant: ActorId,
    escrow: u64,
    claimant_funds: u64,
) -> Option<LotteryError> {
    if l.claimed {
        Some(LotteryError::AlreadyClaimed)
    } else if l.winner_ticket_id is None {
        Some(LotteryError::WinnerNotChosen)
    } else if l.winner_ticket_id != Some(t.id) || t.lottery_id != l.id {
        Some(LotteryError::InvalidWinner)
    } else if t.owner.bytes@ != claimant.bytes@ {
        Some(LotteryError::Unauthorized)
    } else if prize_of(l) > u64::MAX {
        Some(LotteryError::ArithmeticOverflow)
    } else if escrow < prize_of(l) {
        Some(LotteryError::InsufficientFunds)
    } else if claimant_funds + prize_of(l) > u64::MAX {
        Some(LotteryError::ArithmeticOverflow)
    } else {
        None
    }
}

/// Pays the whole pool of `lottery` out of its escrow to `claimant`, who
/// presents the winning `ticket`; returns the amount paid.
pub fn claim_prize(
    lottery: &mut Lottery,
    ticket: &Ticket,
    claimant: &ActorId,
    escrow: &mut u64,
    claimant_funds: &mut u64,
) -> (r: Result<u64, LotteryError>)
    ensures
        old(lottery).wf() ==> final(lottery).wf(),
        match r {
            Ok(prize) => {
                &&& claim_error(*old(lottery), *ticket, *claimant, *old(escrow), *old(claimant_funds)) is None
                &&& prize == prize_of(*old(lottery))
                &&& *final(lottery) == (Lottery { claimed: true, ..*old(lottery) })
                &&& *final(escrow) == *old(escrow) - prize
                &&& *final(claimant_funds) == *old(claimant_funds) + prize
            },
            Err(e) => {
                &&& claim_error(*old(lottery), *ticket, *claimant, *old(escrow), *old(claimant_funds)) == Some(e)
                &&& *final(lottery) == *old(lottery)
                &&& *final(escrow) == *old(escrow)
                &&& *final(claimant_funds) == *old(claimant_funds)
            },
        },
{
    if lottery.claimed {
        return Err(LotteryError::AlreadyClaimed);
    }
    match lottery.winner_ticket_id {
        Some(winner_id) => {
            if winner_id != ticket.id || ticket.lottery_id != lottery.id {
                return Err(LotteryError::InvalidWinner);
            }
        },
        None => {
            return Err(LotteryError::WinnerNotChosen);
        },
    }
    if !ticket.owner.same_as(claimant) {
        return Err(LotteryError::Unauthorized);
    }
    let prize = match lottery.ticket_price.checked_mul(lottery.ticket_count as u64) {
        Some(p) => p,
        None => {
            return Err(LotteryError::ArithmeticOverflow);
        },
    };
    if *escrow < prize {
        return Err(LotteryError::InsufficientFunds);
    }
    if *claimant_funds > u64::MAX - prize {
        return Err(LotteryError::ArithmeticOverflow);
    }
    *escrow = *escrow - prize;
    *claimant_funds = *claimant_funds + prize;
    lottery.claimed = true;
    Ok(prize)
}

} // verus!

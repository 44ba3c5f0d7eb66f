use vstd::prelude::*;
use crate::draw::{seed_of_timestamp, winning_ticket};
use crate::engine::{
    buy_error, claim_error, create_error, drawn_ticket, lottery_after_buy, lottery_after_pick,
    lottery_created, pick_error, registry_after_create, ticket_bought,
};
use crate::state::{ActorId, Lottery, LotteryError, Master, Ticket};

verus! {

/// The ids of the lotteries that a run of `create_lottery` calls makes,
/// in call order, starting from registry slot `registry`; each call is an
/// (authority, ticket price) pair, and a refused call makes none.
pub open spec fn created_ids(registry: Option<Master>, calls: Seq<(ActorId, u64)>) -> Seq<u32>
    decreases calls.len(),
{
    if calls.len() == 0 {
        Seq::empty()
    } else {
        let rest = calls.drop_first();
        match create_error(registry) {
            Some(_) => created_ids(registry, rest),
            None => seq![lottery_created(registry.unwrap(), calls[0].0, calls[0].1).id]
                + created_ids(Some(registry_after_create(registry.unwrap())), rest),
        }
    }
}

/// Every id made from a registry lies above the registry's last id, and the
/// ids come out strictly increasing.
proof fn lemma_created_ids(registry: Option<Master>, calls: Seq<(ActorId, u64)>)
    ensures
        registry is None ==> created_ids(registry, calls).len() == 0,
        registry is Some ==> forall|i: int|
            0 <= i < created_ids(registry, calls).len() ==> #[trigger] created_ids(registry, calls)[i]
                > registry.unwrap().last_id,
        forall|i: int, j: int|
            0 <= i < j < created_ids(registry, calls).len() ==> #[trigger] created_ids(registry, calls)[i]
                < #[trigger] created_ids(registry, calls)[j],
    decreases calls.len(),
{
    if calls.len() > 0 {
        let rest = calls.drop_first();
        match create_error(registry) {
            Some(_) => {
                lemma_created_ids(registry, rest);
                assert(created_ids(registry, calls) == created_ids(registry, rest));
            },
            None => {
                let m = registry.unwrap();
                let next = Some(registry_after_create(m));
                lemma_created_ids(next, rest);
                let tail = created_ids(next, rest);
                let ids = created_ids(registry, calls);
                assert(ids == seq![lottery_created(m, calls[0].0, calls[0].1).id] + tail);
                assert(ids[0] == m.last_id + 1);
                assert forall|i: int| 0 < i < ids.len() implies #[trigger] ids[i] == tail[i - 1]
                    && ids[i] > m.last_id + 1 by {}
                assert forall|i: int, j: int| 0 <= i < j < ids.len() implies #[trigger] ids[i]
                    < #[trigger] ids[j] by {
                    if i > 0 {
                        assert(tail[i - 1] < tail[j - 1]);
                    }
                }
            },
        }
    }
}

/// Lottery ids are strictly increasing in call order, so no two lotteries
/// ever share an id, whatever run of `create_lottery` calls is made.
pub proof fn law_lottery_ids_unique(registry: Option<Master>, calls: Seq<(ActorId, u64)>)
    ensures
        forall|i: int, j: int|
            0 <= i < j < created_ids(registry, calls).len() ==> #[trigger] created_ids(registry, calls)[i]
                < #[trigger] created_ids(registry, calls)[j],
        forall|i: int, j: int|
            0 <= i < created_ids(registry, calls).len() && 0 <= j < created_ids(registry, calls).len()
                && i != j ==> #[trigger] created_ids(registry, calls)[i] != #[trigger] created_ids(
                registry,
                calls,
            )[j],
{
    lemma_created_ids(registry, calls);
    assert forall|i: int, j: int|
        0 <= i < created_ids(registry, calls).len() && 0 <= j < created_ids(registry, calls).len()
            && i != j implies #[trigger] created_ids(registry, calls)[i] != #[trigger] created_ids(
        registry,
        calls,
    )[j] by {
        if i > j {
            assert(created_ids(registry, calls)[j] < created_ids(registry, calls)[i]);
        }
    }
}

/// The lottery after `n` successful ticket sales.
pub open spec fn lottery_after_buys(l: Lottery, n: nat) -> Lottery
    decreases n,
{
    if n == 0 {
        l
    } else {
        lottery_after_buy(lottery_after_buys(l, (n - 1) as nat))
    }
}

/// The ids of the tickets that successful sales to `buyers`, in order, issue.
pub open spec fn ticket_ids_sold(l: Lottery, buyers: Seq<ActorId>) -> Seq<u32> {
    Seq::new(buyers.len(), |i: int| ticket_bought(lottery_after_buys(l, i as nat), buyers[i]).id)
}

proof fn lemma_count_after_buys(l: Lottery, n: nat)
    requires
        l.ticket_count + n <= u32::MAX,
    ensures
        lottery_after_buys(l, n).ticket_count == l.ticket_count + n,
        lottery_after_buys(l, n).id == l.id,
    decreases n,
{
    if n > 0 {
        lemma_count_after_buys(l, (n - 1) as nat);
    }
}

/// Selling N tickets of a fresh lottery issues exactly the ids 1, 2, ..., N,
/// in order; sales of other lotteries touch other records and change nothing.
pub proof fn law_ticket_ids_dense(l: Lottery, buyers: Seq<ActorId>)
    requires
        l.ticket_count == 0,
        buyers.len() <= u32::MAX,
    ensures
        ticket_ids_sold(l, buyers) == Seq::new(buyers.len(), |i: int| (i + 1) as u32),
        lottery_after_buys(l, buyers.len()).ticket_count == buyers.len(),
{
    assert forall|i: int| 0 <= i < buyers.len() implies ticket_ids_sold(l, buyers)[i] == (i + 1) as u32 by {
        lemma_count_after_buys(l, i as nat);
    }
    assert(ticket_ids_sold(l, buyers) =~= Seq::new(buyers.len(), |i: int| (i + 1) as u32));
    lemma_count_after_buys(l, buyers.len());
}

/// Once a draw has succeeded, every later sale of that lottery is refused
/// with `WinnerAlreadyExists`.
pub proof fn law_sales_close_on_draw(
    l: Lottery,
    caller: ActorId,
    unix_timestamp: i64,
    slot: u64,
    buyer_funds: u64,
    escrow: u64,
)
    requires
        pick_error(l, caller) is None,
    ensures
        buy_error(lottery_after_pick(l, drawn_ticket(l, unix_timestamp, slot)), buyer_funds, escrow)
            == Some(LotteryError::WinnerAlreadyExists),
{
}

/// A lottery is drawn at most once: after a successful draw, the next draw
/// by the authority is refused with `WinnerAlreadyExists`.
pub proof fn law_draw_exactly_once(l: Lottery, caller: ActorId, unix_timestamp: i64, slot: u64)
    requires
        pick_error(l, caller) is None,
    ensures
        pick_error(lottery_after_pick(l, drawn_ticket(l, unix_timestamp, slot)), caller) == Some(
            LotteryError::WinnerAlreadyExists,
        ),
{
}

/// A drawn lottery always names one of its sold tickets.
pub proof fn law_draw_names_sold_ticket(l: Lottery, unix_timestamp: i64, slot: u64)
    requires
        l.ticket_count > 0,
    ensures
        1 <= drawn_ticket(l, unix_timestamp, slot) <= l.ticket_count,
{
    let v = (seed_of_timestamp(unix_timestamp) as int * slot as int) % 0x1_0000_0000;
    assert(0 <= v % (l.ticket_count as int) < l.ticket_count);
    assert(winning_ticket(seed_of_timestamp(unix_timestamp), slot, l.ticket_count) == (v
        % l.ticket_count as int + 1) as u32);
}

/// A prize is paid at most once: after a successful claim, any further claim,
/// by anyone and with any ticket, is refused with `AlreadyClaimed`.
pub proof fn law_claim_exactly_once(
    l: Lottery,
    t: Ticket,
    claimant: ActorId,
    escrow: u64,
    claimant_funds: u64,
    t2: Ticket,
    claimant2: ActorId,
    escrow2: u64,
    claimant_funds2: u64,
)
    requires
        claim_error(l, t, claimant, escrow, claimant_funds) is None,
    ensures
        claim_error(Lottery { claimed: true, ..l }, t2, claimant2, escrow2, claimant_funds2) == Some(
            LotteryError::AlreadyClaimed,
        ),
{
}

/// Only the drawn ticket of the lottery wins: any other ticket is refused
/// with `InvalidWinner`, and a claim that succeeds finds the whole pool in
/// escrow.
pub proof fn law_only_drawn_ticket_wins(
    l: Lottery,
    t: Ticket,
    claimant: ActorId,
    escrow: u64,
    claimant_funds: u64,
)
    requires
        !l.claimed,
        l.winner_ticket_id is Some,
    ensures
        l.winner_ticket_id != Some(t.id) ==> claim_error(l, t, claimant, escrow, claimant_funds) == Some(
            LotteryError::InvalidWinner,
        ),
        claim_error(l, t, claimant, escrow, claimant_funds) is None ==> l.ticket_price * l.ticket_count
            <= escrow,
{
}

/// No lottery without tickets can be drawn: the draw is refused with
/// `NoTickets`.
pub proof fn law_no_draw_without_tickets(l: Lottery, caller: ActorId)
    requires
        l.ticket_count == 0,
        caller.bytes@ == l.authority.bytes@,
        l.winner_ticket_id is None,
    ensures
        pick_error(l, caller) == Some(LotteryError::NoTickets),
{
}

/// A pool too large for 64 bits is never paid in a wrapped-around amount:
/// the winning claim is refused with `ArithmeticOverflow`, and a claim that
/// succeeds pays a pool that fits.
pub proof fn law_prize_overflow_refused(
    l: Lottery,
    t: Ticket,
    claimant: ActorId,
    escrow: u64,
    claimant_funds: u64,
)
    requires
        !l.claimed,
        l.winner_ticket_id == Some(t.id),
        t.lottery_id == l.id,
        t.owner.bytes@ == claimant.bytes@,
    ensures
        l.ticket_price * l.ticket_count > u64::MAX ==> claim_error(l, t, claimant, escrow, claimant_funds)
            == Some(LotteryError::ArithmeticOverflow),
        claim_error(l, t, claimant, escrow, claimant_funds) is None ==> l.ticket_price * l.ticket_count
            <= u64::MAX,
{
}

/// Only the authority may draw: anyone else is refused with `Unauthorized`
/// (and `pick_winner` then leaves the lottery as it was).
pub proof fn law_only_authority_draws(l: Lottery, caller: ActorId)
    requires
        caller.bytes@ != l.authority.bytes@,
    ensures
        pick_error(l, caller) == Some(LotteryError::Unauthorized),
{
}

} // verus!

use solana_lottery::{
    buy_ticket, claim_prize, create_lottery, init_master, lottery_address, lottery_seeds,
    master_address, master_seeds, pick_winner, ticket_address, ticket_seeds, timestamp_seed,
    winning_ticket_for, ActorId, Lottery, LotteryError, Master, Ticket,
};

fn actor(n: u8) -> ActorId {
    ActorId { bytes: [n; 32] }
}

fn fresh(authority: ActorId, price: u64) -> Lottery {
    let mut registry = Some(init_master(&None).unwrap());
    create_lottery(&mut registry, authority, price).unwrap()
}

/// Sells one ticket to `buyer`, who has just enough funds.
fn sell(lottery: &mut Lottery, buyer: ActorId, escrow: &mut u64) -> Ticket {
    let mut funds = lottery.ticket_price;
    let t = buy_ticket(lottery, buyer, &mut funds, escrow).unwrap();
    assert_eq!(funds, 0);
    t
}

#[test]
fn init_master_starts_at_zero_and_only_once() {
    let m = init_master(&None).unwrap();
    assert_eq!(m, Master { last_id: 0 });
    assert_eq!(init_master(&Some(m)), Err(LotteryError::AlreadyInitialized));
}

#[test]
fn create_lottery_needs_registry() {
    let mut registry: Option<Master> = None;
    assert_eq!(
        create_lottery(&mut registry, actor(1), 10),
        Err(LotteryError::RegistryNotInitialized)
    );
    assert_eq!(registry, None);
}

#[test]
fn create_lottery_sets_fields() {
    let mut registry = Some(Master { last_id: 41 });
    let l = create_lottery(&mut registry, actor(7), 250).unwrap();
    assert_eq!(
        l,
        Lottery {
            id: 42,
            authority: actor(7),
            ticket_price: 250,
            ticket_count: 0,
            winner_ticket_id: None,
            claimed: false,
        }
    );
    assert_eq!(registry, Some(Master { last_id: 42 }));
}

#[test]
fn lottery_ids_unique_and_increasing() {
    let mut registry = Some(init_master(&None).unwrap());
    let mut ids = Vec::new();
    for i in 0..5u8 {
        ids.push(create_lottery(&mut registry, actor(i), i as u64).unwrap().id);
    }
    assert_eq!(ids, vec![1, 2, 3, 4, 5]);
}

#[test]
fn create_lottery_refuses_when_ids_run_out() {
    let mut registry = Some(Master { last_id: u32::MAX });
    assert_eq!(
        create_lottery(&mut registry, actor(1), 1),
        Err(LotteryError::ArithmeticOverflow)
    );
    assert_eq!(registry, Some(Master { last_id: u32::MAX }));
}

#[test]
fn ticket_ids_dense_across_interleaved_lotteries() {
    let mut a = fresh(actor(1), 5);
    let mut b = fresh(actor(2), 9);
    let mut escrow_a: u64 = 0;
    let mut escrow_b: u64 = 0;
    let mut ids_a = Vec::new();
    let mut ids_b = Vec::new();
    for i in 0..4u8 {
        ids_a.push(sell(&mut a, actor(10 + i), &mut escrow_a).id);
        if i % 2 == 0 {
            ids_b.push(sell(&mut b, actor(20 + i), &mut escrow_b).id);
        }
    }
    assert_eq!(ids_a, vec![1, 2, 3, 4]);
    assert_eq!(ids_b, vec![1, 2]);
    assert_eq!(escrow_a, 20);
    assert_eq!(escrow_b, 18);
    assert_eq!(a.ticket_count, 4);
}

#[test]
fn buy_ticket_records_owner_and_lottery() {
    let mut l = fresh(actor(1), 30);
    let mut funds: u64 = 100;
    let mut escrow: u64 = 5;
    let t = buy_ticket(&mut l, actor(3), &mut funds, &mut escrow).unwrap();
    assert_eq!(t, Ticket { id: 1, owner: actor(3), lottery_id: l.id });
    assert_eq!(funds, 70);
    assert_eq!(escrow, 35);
}

#[test]
fn buy_ticket_insufficient_funds() {
    let mut l = fresh(actor(1), 30);
    let before = l;
    let mut funds: u64 = 29;
    let mut escrow: u64 = 0;
    assert_eq!(
        buy_ticket(&mut l, actor(3), &mut funds, &mut escrow),
        Err(LotteryError::InsufficientFunds)
    );
    assert_eq!((l, funds, escrow), (before, 29, 0));
}

#[test]
fn buy_ticket_escrow_overflow() {
    let mut l = fresh(actor(1), 2);
    let mut funds: u64 = 10;
    let mut escrow: u64 = u64::MAX - 1;
    assert_eq!(
        buy_ticket(&mut l, actor(3), &mut funds, &mut escrow),
        Err(LotteryError::ArithmeticOverflow)
    );
    assert_eq!(funds, 10);
}

#[test]
fn sales_close_on_draw() {
    let mut l = fresh(actor(1), 10);
    let mut escrow: u64 = 0;
    sell(&mut l, actor(2), &mut escrow);
    pick_winner(&mut l, &actor(1), 1_700_000_000, 250_000_000).unwrap();
    let mut funds: u64 = 100;
    assert_eq!(
        buy_ticket(&mut l, actor(3), &mut funds, &mut escrow),
        Err(LotteryError::WinnerAlreadyExists)
    );
    assert_eq!(funds, 100);
    assert_eq!(escrow, 10);
    assert_eq!(l.ticket_count, 1);
}

#[test]
fn draw_exactly_once() {
    let mut l = fresh(actor(1), 10);
    let mut escrow: u64 = 0;
    sell(&mut l, actor(2), &mut escrow);
    sell(&mut l, actor(3), &mut escrow);
    let w = pick_winner(&mut l, &actor(1), 0, 12345).unwrap();
    let after = l;
    assert_eq!(
        pick_winner(&mut l, &actor(1), 0, 12345),
        Err(LotteryError::WinnerAlreadyExists)
    );
    assert_eq!(l, after);
    assert_eq!(l.winner_ticket_id, Some(w));
}

#[test]
fn no_draw_without_tickets() {
    let mut l = fresh(actor(1), 10);
    assert_eq!(pick_winner(&mut l, &actor(1), 5, 5), Err(LotteryError::NoTickets));
    assert_eq!(l.winner_ticket_id, None);
}

#[test]
fn only_authority_draws() {
    let mut l = fresh(actor(1), 10);
    let mut escrow: u64 = 0;
    sell(&mut l, actor(2), &mut escrow);
    let before = l;
    assert_eq!(
        pick_winner(&mut l, &actor(2), 5, 5),
        Err(LotteryError::Unauthorized)
    );
    assert_eq!(l, before);
}

#[test]
fn pick_winner_uses_timestamp_digest_and_slot() {
    let mut l = fresh(actor(1), 10);
    let mut escrow: u64 = 0;
    for i in 0..3u8 {
        sell(&mut l, actor(2 + i), &mut escrow);
    }
    assert_eq!(pick_winner(&mut l, &actor(1), 0, 250_000_000), Ok(3));
    assert_eq!(l.winner_ticket_id, Some(3));
}

#[test]
fn timestamp_seed_reads_digest_prefix() {
    assert_eq!(timestamp_seed(1_700_000_000), 11356000786992708781);
    assert_eq!(timestamp_seed(0), 8794265229978523055);
    assert_eq!(timestamp_seed(-1), 6759447113877070610);
}

#[test]
fn winning_ticket_for_exact_values() {
    assert_eq!(winning_ticket_for(8794265229978523055, 250_000_000, 3), 3);
    assert_eq!(winning_ticket_for(8794265229978523055, 12345, 7), 4);
    assert_eq!(winning_ticket_for(11356000786992708781, 250_000_000, 3), 1);
    assert_eq!(winning_ticket_for(u64::MAX, u64::MAX, 10), 2);
    assert_eq!(winning_ticket_for(123, 0, 5), 1);
    assert_eq!(winning_ticket_for(99, 99, 1), 1);
}

#[test]
fn claim_exactly_once_with_full_pool() {
    let mut l = fresh(actor(1), 100);
    let mut escrow: u64 = 0;
    let tickets: Vec<Ticket> = (0..3u8).map(|i| sell(&mut l, actor(2 + i), &mut escrow)).collect();
    assert_eq!(escrow, 300);
    let k = pick_winner(&mut l, &actor(1), 0, 250_000_000).unwrap();
    let winning = tickets[(k - 1) as usize];
    let other = tickets[(k % 3) as usize];
    let mut other_funds: u64 = 0;
    assert_eq!(
        claim_prize(&mut l, &other, &other.owner, &mut escrow, &mut other_funds),
        Err(LotteryError::InvalidWinner)
    );
    let mut winner_funds: u64 = 7;
    assert_eq!(
        claim_prize(&mut l, &winning, &winning.owner, &mut escrow, &mut winner_funds),
        Ok(300)
    );
    assert_eq!(escrow, 0);
    assert_eq!(winner_funds, 307);
    assert!(l.claimed);
    assert_eq!(
        claim_prize(&mut l, &winning, &winning.owner, &mut escrow, &mut winner_funds),
        Err(LotteryError::AlreadyClaimed)
    );
    assert_eq!(
        claim_prize(&mut l, &other, &actor(9), &mut escrow, &mut other_funds),
        Err(LotteryError::AlreadyClaimed)
    );
    assert_eq!((escrow, winner_funds, other_funds), (0, 307, 0));
}

#[test]
fn claim_before_draw() {
    let mut l = fresh(actor(1), 100);
    let mut escrow: u64 = 0;
    let t = sell(&mut l, actor(2), &mut escrow);
    let mut funds: u64 = 0;
    assert_eq!(
        claim_prize(&mut l, &t, &actor(2), &mut escrow, &mut funds),
        Err(LotteryError::WinnerNotChosen)
    );
}

#[test]
fn claim_by_non_owner() {
    let mut l = fresh(actor(1), 100);
    let mut escrow: u64 = 0;
    let t = sell(&mut l, actor(2), &mut escrow);
    pick_winner(&mut l, &actor(1), 3, 4).unwrap();
    let mut funds: u64 = 0;
    assert_eq!(
        claim_prize(&mut l, &t, &actor(5), &mut escrow, &mut funds),
        Err(LotteryError::Unauthorized)
    );
    assert!(!l.claimed);
    assert_eq!(escrow, 100);
}

#[test]
fn claim_ticket_of_other_lottery() {
    let mut l = fresh(actor(1), 100);
    let mut escrow: u64 = 0;
    let t = sell(&mut l, actor(2), &mut escrow);
    pick_winner(&mut l, &actor(1), 3, 4).unwrap();
    let foreign = Ticket { lottery_id: l.id + 1, ..t };
    let mut funds: u64 = 0;
    assert_eq!(
        claim_prize(&mut l, &foreign, &actor(2), &mut escrow, &mut funds),
        Err(LotteryError::InvalidWinner)
    );
}

#[test]
fn claim_prize_overflow_refused() {
    let mut l = Lottery {
        id: 1,
        authority: actor(1),
        ticket_price: u64::MAX / 2,
        ticket_count: 3,
        winner_ticket_id: Some(2),
        claimed: false,
    };
    let t = Ticket { id: 2, owner: actor(4), lottery_id: 1 };
    let mut escrow: u64 = u64::MAX;
    let mut funds: u64 = 0;
    assert_eq!(
        claim_prize(&mut l, &t, &actor(4), &mut escrow, &mut funds),
        Err(LotteryError::ArithmeticOverflow)
    );
    assert_eq!((escrow, funds), (u64::MAX, 0));
    assert!(!l.claimed);
}

#[test]
fn claim_prize_escrow_short() {
    let mut l = Lottery {
        id: 1,
        authority: actor(1),
        ticket_price: 100,
        ticket_count: 3,
        winner_ticket_id: Some(1),
        claimed: false,
    };
    let t = Ticket { id: 1, owner: actor(4), lottery_id: 1 };
    let mut escrow: u64 = 299;
    let mut funds: u64 = 0;
    assert_eq!(
        claim_prize(&mut l, &t, &actor(4), &mut escrow, &mut funds),
        Err(LotteryError::InsufficientFunds)
    );
}

#[test]
fn claim_prize_winner_balance_overflow() {
    let mut l = Lottery {
        id: 1,
        authority: actor(1),
        ticket_price: 100,
        ticket_count: 3,
        winner_ticket_id: Some(1),
        claimed: false,
    };
    let t = Ticket { id: 1, owner: actor(4), lottery_id: 1 };
    let mut escrow: u64 = 300;
    let mut funds: u64 = u64::MAX - 299;
    assert_eq!(
        claim_prize(&mut l, &t, &actor(4), &mut escrow, &mut funds),
        Err(LotteryError::ArithmeticOverflow)
    );
}

#[test]
fn free_lottery_pays_nothing() {
    let mut l = fresh(actor(1), 0);
    let mut escrow: u64 = 0;
    let t = sell(&mut l, actor(2), &mut escrow);
    pick_winner(&mut l, &actor(1), 9, 9).unwrap();
    let mut funds: u64 = 0;
    assert_eq!(claim_prize(&mut l, &t, &actor(2), &mut escrow, &mut funds), Ok(0));
}

#[test]
fn same_as_compares_every_byte() {
    let a = actor(1);
    let mut b = actor(1);
    assert!(a.same_as(&b));
    b.bytes[31] = 2;
    assert!(!a.same_as(&b));
}

#[test]
fn seeds_layout() {
    assert_eq!(master_seeds(), vec![b"master".to_vec()]);
    assert_eq!(lottery_seeds(258), vec![b"lottery".to_vec(), vec![2, 1, 0, 0]]);
    assert_eq!(
        ticket_seeds(&actor(9), 3),
        vec![b"ticket".to_vec(), vec![9u8; 32], vec![3, 0, 0, 0]]
    );
}

#[test]
fn addresses_are_derived_per_record() {
    let program = actor(77);
    let (m, _) = master_address(&program).unwrap();
    let (l1, _) = lottery_address(&program, 1).unwrap();
    let (l2, _) = lottery_address(&program, 2).unwrap();
    let (t1, _) = ticket_address(&program, &l1, 1).unwrap();
    let (t2, _) = ticket_address(&program, &l1, 2).unwrap();
    assert_eq!(lottery_address(&program, 1).unwrap().0, l1);
    assert_ne!(m, program);
    assert_ne!(l1, program);
    assert_ne!(l1, l2);
    assert_ne!(t1, l1);
    assert_ne!(t1, t2);
    assert_ne!(m, l1);
}

#[test]
fn buy_ticket_refuses_when_ticket_ids_run_out() {
    let mut l = Lottery {
        id: 1,
        authority: actor(1),
        ticket_price: 1,
        ticket_count: u32::MAX,
        winner_ticket_id: None,
        claimed: false,
    };
    let mut funds: u64 = 5;
    let mut escrow: u64 = 0;
    assert_eq!(
        buy_ticket(&mut l, actor(2), &mut funds, &mut escrow),
        Err(LotteryError::ArithmeticOverflow)
    );
    assert_eq!(l.ticket_count, u32::MAX);
    assert_eq!((funds, escrow), (5, 0));
}

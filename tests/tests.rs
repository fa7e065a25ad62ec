use std::collections::HashMap;

use game_of_chance::{
    Identity, Lottery, LotteryError, LotteryEvent, LotteryInit, LotteryStateQuery,
    LotteryStateReply, Step, TransferRequest,
};
use rand::{RngCore, SeedableRng};
use rand_xoshiro::Xoshiro128PlusPlus;

const ADMIN: u64 = 3;
const PROGRAM: u64 = 2;
const LEDGER: u64 = 1;
const FOREIGN_USER: u64 = 9999999;
const PLAYERS: [u64; 3] = [4, 5, 6];
const AMOUNT: u128 = 12345;
const PARTICIPATION_COST: u128 = 10000;
const DURATION: u64 = 2000;
const BLOCK_MS: u64 = 1000;

/// An account as the host's `u64` conversion lays it out.
fn id(v: u64) -> Identity {
    let mut bytes = [0u8; 32];
    bytes[12..20].copy_from_slice(&v.to_le_bytes());
    Identity(bytes)
}

/// The contract, a token ledger and native balances, with a clock.
struct World {
    lottery: Lottery,
    now: u64,
    tokens: HashMap<Identity, u128>,
    native: HashMap<Identity, u128>,
    settled: HashMap<u64, bool>,
}

impl World {
    fn new(admin: u64) -> World {
        World {
            lottery: Lottery::new(LotteryInit { admin: id(admin) }, id(PROGRAM))
                .expect("initialization"),
            now: 1_000_000,
            tokens: HashMap::new(),
            native: HashMap::new(),
            settled: HashMap::new(),
        }
    }

    fn spend_blocks(&mut self, n: u64) {
        self.now += n * BLOCK_MS;
    }

    fn mint(&mut self, who: u64, amount: u128) {
        *self.tokens.entry(id(who)).or_insert(0) += amount;
    }

    fn mint_native(&mut self, who: u64, amount: u128) {
        *self.native.entry(id(who)).or_insert(0) += amount;
    }

    fn balance(&self, who: Identity) -> u128 {
        *self.tokens.get(&who).unwrap_or(&0)
    }

    fn native_balance(&self, who: Identity) -> u128 {
        *self.native.get(&who).unwrap_or(&0)
    }

    /// The ledger: one execution per identifier; a repeat gets the first answer.
    fn ledger(&mut self, req: &TransferRequest) -> bool {
        if let Some(done) = self.settled.get(&req.transaction_id) {
            return *done;
        }
        let have = self.balance(req.sender);
        let ok = req.ledger == id(LEDGER) && have >= req.amount;
        if ok {
            self.tokens.insert(req.sender, have - req.amount);
            *self.tokens.entry(req.recipient).or_insert(0) += req.amount;
        }
        self.settled.insert(req.transaction_id, ok);
        ok
    }

    fn send_native(&mut self, from: Identity, to: Identity, amount: u128) {
        let have = self.native_balance(from);
        self.native.insert(from, have - amount);
        *self.native.entry(to).or_insert(0) += amount;
    }

    fn start(
        &mut self,
        from: u64,
        duration: u64,
        cost: u128,
        ft: Option<Identity>,
    ) -> Result<LotteryEvent, LotteryError> {
        self.lottery.start(id(from), self.now, duration, cost, ft)
    }

    fn enter_with_value(&mut self, from: u64, value: u128) -> Result<LotteryEvent, LotteryError> {
        let caller = id(from);
        self.send_native(caller, id(PROGRAM), value);
        match self.lottery.enter(caller, self.now, value) {
            Step::Done(r) => r,
            Step::SendValue { to, amount, reply } => {
                self.send_native(id(PROGRAM), to, amount);
                reply
            },
            Step::Transfer(req) => {
                let ok = self.ledger(&req);
                let settled = self.lottery.finish_entry(req, ok);
                self.run(settled)
            },
            Step::Refund { request, reply } => {
                self.ledger(&request);
                reply
            },
        }
    }

    /// Runs what a settlement leaves to do and gives its reply.
    fn run(&mut self, step: Step) -> Result<LotteryEvent, LotteryError> {
        match step {
            Step::Done(r) => r,
            Step::Refund { request, reply } => {
                self.ledger(&request);
                reply
            },
            other => panic!("a settlement asks for no more than a refund, got {:?}", other),
        }
    }

    fn enter(&mut self, from: u64) -> Result<LotteryEvent, LotteryError> {
        self.enter_with_value(from, 0)
    }

    fn pick_winner(&mut self, from: u64) -> Result<LotteryEvent, LotteryError> {
        match self.lottery.pick_winner(id(from), self.now) {
            Step::Done(r) => r,
            Step::SendValue { to, amount, reply } => {
                self.send_native(id(PROGRAM), to, amount);
                reply
            },
            Step::Transfer(req) => {
                let ok = self.ledger(&req);
                self.lottery.finish_payout(ok)
            },
            Step::Refund { .. } => panic!("closing gives nothing back"),
        }
    }

    fn state(&self) -> LotteryStateReply {
        self.lottery.query(LotteryStateQuery::State)
    }
}

fn predict_winner(now: u64, players: &[u64]) -> u64 {
    let mut random_data = [0; 4];
    Xoshiro128PlusPlus::seed_from_u64(now).fill_bytes(&mut random_data);
    let mystical_number = u32::from_le_bytes(random_data) as usize;
    players[mystical_number % players.len()]
}

fn ids(list: &[u64]) -> Vec<Identity> {
    list.iter().map(|v| id(*v)).collect()
}

#[test]
fn two_rounds_and_meta_state() {
    let mut w = World::new(ADMIN);

    assert_eq!(
        w.state(),
        LotteryStateReply::State {
            started: 0,
            ending: 0,
            players: vec![],
            prize_fund: 0,
            participation_cost: 0,
            last_winner: Identity::zero(),
            ft_actor_id: None,
        }
    );

    for p in PLAYERS {
        w.mint(p, AMOUNT);
    }

    let mut started = w.now;
    let mut ending = started + DURATION;
    let mut ft_actor_id = Some(id(LEDGER));

    assert_eq!(
        w.start(ADMIN, DURATION, PARTICIPATION_COST, ft_actor_id),
        Ok(LotteryEvent::Started { ending, participation_cost: PARTICIPATION_COST, ft_actor_id })
    );
    assert_eq!(
        w.state(),
        LotteryStateReply::State {
            started,
            ending,
            players: vec![],
            prize_fund: 0,
            participation_cost: PARTICIPATION_COST,
            last_winner: Identity::zero(),
            ft_actor_id,
        }
    );

    for (n, p) in PLAYERS.iter().enumerate() {
        assert_eq!(w.enter(*p), Ok(LotteryEvent::PlayerAdded(id(*p))));
        assert_eq!(w.balance(id(PROGRAM)), PARTICIPATION_COST * (n as u128 + 1));
        assert_eq!(
            w.state(),
            LotteryStateReply::State {
                started,
                ending,
                players: ids(&PLAYERS[..n + 1]),
                prize_fund: PARTICIPATION_COST * (n as u128 + 1),
                participation_cost: PARTICIPATION_COST,
                last_winner: Identity::zero(),
                ft_actor_id,
            }
        );
    }

    w.spend_blocks(DURATION / BLOCK_MS);

    let mut winner = predict_winner(w.now, &PLAYERS);

    assert_eq!(w.pick_winner(ADMIN), Ok(LotteryEvent::Winner(id(winner))));
    assert_eq!(w.balance(id(winner)), PARTICIPATION_COST * 2 + AMOUNT);
    assert_eq!(
        w.state(),
        LotteryStateReply::State {
            started: 0,
            ending: 0,
            players: ids(&PLAYERS),
            prize_fund: PARTICIPATION_COST * 3,
            participation_cost: PARTICIPATION_COST,
            last_winner: id(winner),
            ft_actor_id,
        }
    );

    for p in PLAYERS {
        w.mint_native(p, AMOUNT);
    }

    ft_actor_id = None;
    started = w.now;
    ending = started + DURATION;

    assert_eq!(
        w.start(ADMIN, DURATION, PARTICIPATION_COST, ft_actor_id),
        Ok(LotteryEvent::Started { ending, participation_cost: PARTICIPATION_COST, ft_actor_id })
    );
    assert_eq!(
        w.state(),
        LotteryStateReply::State {
            started,
            ending,
            players: vec![],
            prize_fund: 0,
            participation_cost: PARTICIPATION_COST,
            last_winner: id(winner),
            ft_actor_id,
        }
    );

    for (n, p) in PLAYERS.iter().enumerate() {
        assert_eq!(w.enter_with_value(*p, PARTICIPATION_COST), Ok(LotteryEvent::PlayerAdded(id(*p))));
        assert_eq!(w.native_balance(id(PROGRAM)), PARTICIPATION_COST * (n as u128 + 1));
        assert_eq!(
            w.state(),
            LotteryStateReply::State {
                started,
                ending,
                players: ids(&PLAYERS[..n + 1]),
                prize_fund: PARTICIPATION_COST * (n as u128 + 1),
                participation_cost: PARTICIPATION_COST,
                last_winner: id(winner),
                ft_actor_id,
            }
        );
    }

    w.spend_blocks(DURATION / BLOCK_MS);

    winner = predict_winner(w.now, &PLAYERS);

    assert_eq!(w.pick_winner(ADMIN), Ok(LotteryEvent::Winner(id(winner))));
    assert_eq!(w.native_balance(id(winner)), PARTICIPATION_COST * 2 + AMOUNT);
    assert_eq!(
        w.state(),
        LotteryStateReply::State {
            started: 0,
            ending: 0,
            players: ids(&PLAYERS),
            prize_fund: PARTICIPATION_COST * 3,
            participation_cost: PARTICIPATION_COST,
            last_winner: id(winner),
            ft_actor_id,
        }
    );
}

#[test]
fn failures() {
    // The administrator mustn't be the null identity.
    assert_eq!(
        Lottery::new(LotteryInit { admin: Identity::zero() }, id(PROGRAM)).err(),
        Some(LotteryError::NullAdmin)
    );

    let mut w = World::new(ADMIN);

    // Only the administrator opens rounds.
    assert!(w.start(FOREIGN_USER, 0, 0, None).is_err());

    // The ledger mustn't be the null identity.
    assert!(w.start(ADMIN, 0, 0, Some(Identity::zero())).is_err());

    // No round takes entries yet.
    assert!(w.enter(PLAYERS[0]).is_err());

    assert_eq!(
        w.start(ADMIN, DURATION, PARTICIPATION_COST, None),
        Ok(LotteryEvent::Started {
            ending: w.now + DURATION,
            participation_cost: PARTICIPATION_COST,
            ft_actor_id: None,
        })
    );

    // The previous round must be over.
    assert!(w.start(ADMIN, 0, 0, None).is_err());

    w.mint_native(PLAYERS[0], AMOUNT);
    assert_eq!(
        w.enter_with_value(PLAYERS[0], PARTICIPATION_COST),
        Ok(LotteryEvent::PlayerAdded(id(PLAYERS[0])))
    );

    // An entrant enters once.
    assert!(w.enter(PLAYERS[0]).is_err());

    w.mint_native(PLAYERS[1], AMOUNT);

    // The native value sent must be exactly the entry cost.
    assert!(w.enter_with_value(PLAYERS[1], PARTICIPATION_COST + 1).is_err());
    assert!(w.enter_with_value(PLAYERS[1], PARTICIPATION_COST - 1).is_err());

    // Only the administrator closes rounds.
    assert!(w.pick_winner(FOREIGN_USER).is_err());

    // The entry window must be over.
    assert!(w.pick_winner(ADMIN).is_err());

    w.spend_blocks(DURATION / BLOCK_MS);
    assert_eq!(w.pick_winner(ADMIN), Ok(LotteryEvent::Winner(id(PLAYERS[0]))));

    // A winner mustn't already be picked.
    assert!(w.pick_winner(ADMIN).is_err());

    // No round takes entries any more.
    assert!(w.enter(PLAYERS[1]).is_err());
}

#[test]
fn round_without_players() {
    let mut w = World::new(ADMIN);

    assert_eq!(
        w.start(ADMIN, 0, 0, None),
        Ok(LotteryEvent::Started { ending: w.now, participation_cost: 0, ft_actor_id: None })
    );

    assert_eq!(w.pick_winner(ADMIN), Ok(LotteryEvent::Winner(Identity::zero())));
}

#[test]
fn prize_fund_overflow() {
    const AMOUNT: u128 = u128::MAX;
    const PARTICIPATION_COST: u128 = u128::MAX;

    let mut w = World::new(ADMIN);

    let started = w.now;
    let ending = started + DURATION;
    let ft_actor_id = Some(id(LEDGER));

    assert_eq!(
        w.start(ADMIN, DURATION, PARTICIPATION_COST, ft_actor_id),
        Ok(LotteryEvent::Started { ending, participation_cost: PARTICIPATION_COST, ft_actor_id })
    );

    w.mint(PLAYERS[0], AMOUNT);
    w.mint(PLAYERS[1], AMOUNT);

    assert_eq!(w.enter(PLAYERS[0]), Ok(LotteryEvent::PlayerAdded(id(PLAYERS[0]))));
    assert_eq!(w.enter(PLAYERS[1]), Ok(LotteryEvent::PlayerAdded(id(PLAYERS[1]))));

    assert_eq!(
        w.state(),
        LotteryStateReply::State {
            started,
            ending,
            players: ids(&[PLAYERS[0], PLAYERS[1]]),
            prize_fund: u128::MAX,
            participation_cost: PARTICIPATION_COST,
            last_winner: Identity::zero(),
            ft_actor_id,
        }
    );
}

#[test]
fn it_works() {
    let mut w = World::new(3);

    for p in [4, 5, 6] {
        w.mint(p, 12345);
    }

    assert_eq!(
        w.start(3, 2000, 10000, Some(id(LEDGER))),
        Ok(LotteryEvent::Started {
            ending: w.now + 2000,
            participation_cost: 10000,
            ft_actor_id: Some(id(LEDGER)),
        })
    );

    assert_eq!(w.enter(4), Ok(LotteryEvent::PlayerAdded(id(4))));
    assert_eq!(w.enter(5), Ok(LotteryEvent::PlayerAdded(id(5))));
    assert_eq!(w.enter(6), Ok(LotteryEvent::PlayerAdded(id(6))));

    w.spend_blocks(2);

    println!("{:?}", w.pick_winner(3));
}

#[test]
fn state_consistency() {
    const ALICE: [u8; 32] = [
        212, 53, 147, 199, 21, 253, 211, 28, 97, 20, 26, 189, 4, 169, 159, 214, 130, 44, 133, 88,
        133, 76, 205, 227, 154, 86, 132, 231, 165, 109, 162, 125,
    ];
    let alice = Identity(ALICE);

    let mut lottery = Lottery::new(LotteryInit { admin: alice }, id(PROGRAM)).expect("initialization");
    let mut tokens: HashMap<Identity, u128> = HashMap::new();
    tokens.insert(alice, 12345);

    let now = 1_000_000;
    println!(
        "{:?}",
        lottery.start(alice, now, 15000, 10000, Some(id(LEDGER)))
    );

    let step = lottery.enter(alice, now, 0);
    let reply = match step {
        Step::Transfer(req) => {
            let have = tokens[&req.sender];
            let ok = have >= req.amount;
            if ok {
                tokens.insert(req.sender, have - req.amount);
                *tokens.entry(req.recipient).or_insert(0) += req.amount;
            }
            match lottery.finish_entry(req, ok) {
                Step::Done(r) => r,
                other => panic!("a paid entry into an open round is admitted, got {:?}", other),
            }
        },
        _ => panic!("a ledger round asks for a transfer"),
    };
    println!("{:?}", reply);

    let step = lottery.pick_winner(alice, now + 15000);
    let reply = match step {
        Step::Transfer(req) => {
            assert_eq!(req.amount, 10000);
            lottery.finish_payout(true)
        },
        _ => panic!("a ledger round pays out through the ledger"),
    };
    assert_eq!(Ok(LotteryEvent::Winner(alice)), reply);
}

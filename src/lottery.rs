//! The round: its state, the decisions of each operation, and what they
//! leave for the host to do.

use vstd::prelude::*;

use crate::draw::{chosen_winner, pick_from_seed};
use crate::identity::{is_null, null_identity, Identity};
use crate::messages::{
    LotteryAction, LotteryError, LotteryEvent, LotteryInit, LotteryStateQuery,
    LotteryStateReply, Phase, Step, TransferRequest, MAX_NUMBER_OF_PLAYERS,
};
use crate::pending::PendingTransfers;
use crate::roster::{holds, insert_sorted, lists_with, sorted_ids};

verus! {

/// The contract's state as a mathematical value.
pub struct RoundState {
    pub admin: Identity,
    /// The contract's own account: custody of the pool, and a caller that
    /// may close rounds.
    pub program: Identity,
    pub ft_actor_id: Option<Identity>,
    pub started: u64,
    pub ending: u64,
    /// The entrants, ascending.
    pub players: Seq<Identity>,
    pub prize_fund: u128,
    pub participation_cost: u128,
    pub phase: Phase,
    /// The last winner, carried across rounds.
    pub winner: Identity,
    /// The number of rounds opened so far (wrapping); names the current round.
    pub round: u64,
    /// Outstanding transfers by initiator: identifier and round.
    pub pending: Map<[u8; 32], (u64, u64)>,
    /// The identifier that the next new transfer receives.
    pub next_id: u64,
}

/// The pool that `n` entry payments of `cost` make, saturating at the
/// largest `u128`.
pub open spec fn pool_for(cost: u128, n: nat) -> u128 {
    if cost * n > u128::MAX {
        u128::MAX
    } else {
        (cost * n) as u128
    }
}

/// What holds of the state between operations.
pub open spec fn round_wf(s: RoundState) -> bool {
    &&& !is_null(s.admin)
    &&& sorted_ids(s.players)
    &&& s.players.len() <= MAX_NUMBER_OF_PLAYERS
    &&& s.prize_fund == pool_for(s.participation_cost, s.players.len())
    &&& (s.phase matches Phase::Closing { winner, .. } ==> s.players.contains(winner)
        && s.ft_actor_id is Some)
}

/// The state right after initialization.
pub open spec fn initial_state(admin: Identity, program: Identity) -> RoundState {
    RoundState {
        admin,
        program,
        ft_actor_id: None,
        started: 0,
        ending: 0,
        players: Seq::empty(),
        prize_fund: 0,
        participation_cost: 0,
        phase: Phase::Idle,
        winner: null_identity(),
        round: 0,
        pending: Map::empty(),
        next_id: 0,
    }
}

/// `s` once the round is over with winner `w`: idle, window cleared, the
/// entrants and the pool left as they were for inspection.
pub open spec fn closed_with(s: RoundState, w: Identity) -> RoundState {
    RoundState { winner: w, phase: Phase::Idle, started: 0, ending: 0, ..s }
}

/// `t` is `s` with `x` admitted: listed among the entrants and its payment
/// added to the pool (saturating).
pub open spec fn admitted(s: RoundState, x: Identity, t: RoundState) -> bool {
    &&& lists_with(s.players, x, t.players)
    &&& t == RoundState {
        players: t.players,
        prize_fund: s.prize_fund.saturating_add(s.participation_cost),
        ..s
    }
}

/// The identifier that a transfer by `who` carries: its outstanding one, or
/// else the next.
pub open spec fn transfer_id(s: RoundState, who: Identity) -> u64 {
    if s.pending.contains_key(who.0) {
        s.pending[who.0].0
    } else {
        s.next_id
    }
}

/// `s` with a transfer by `who` in the current round recorded as outstanding.
pub open spec fn with_transfer(s: RoundState, who: Identity) -> RoundState {
    if s.pending.contains_key(who.0) {
        s
    } else {
        RoundState {
            pending: s.pending.insert(who.0, (s.next_id, s.round)),
            next_id: s.next_id.wrapping_add(1),
            ..s
        }
    }
}

/// `s` with the transfer by `who` no longer outstanding.
pub open spec fn without_transfer(s: RoundState, who: Identity) -> RoundState {
    RoundState { pending: s.pending.remove(who.0), ..s }
}

/// A refused entry: any native value sent along goes back to the caller.
pub open spec fn rejected(caller: Identity, value: u128, e: LotteryError) -> Step {
    if value > 0 {
        Step::SendValue { to: caller, amount: value, reply: Err(e) }
    } else {
        Step::Done(Err(e))
    }
}

/// Opening a round.
pub open spec fn start_step(
    s: RoundState,
    caller: Identity,
    now: u64,
    duration: u64,
    cost: u128,
    ft: Option<Identity>,
    t: RoundState,
    r: Result<LotteryEvent, LotteryError>,
) -> bool {
    if caller != s.admin {
        t == s && r == Err::<LotteryEvent, LotteryError>(LotteryError::AccessDenied)
    } else if !(s.phase is Idle) {
        t == s && r == Err::<LotteryEvent, LotteryError>(LotteryError::RoundStillOpen)
    } else if ft matches Some(id) && is_null(id) {
        t == s && r == Err::<LotteryEvent, LotteryError>(LotteryError::InvalidCurrency)
    } else {
        let ending = now.saturating_add(duration);
        &&& t == RoundState {
            ft_actor_id: ft,
            started: now,
            ending,
            players: Seq::empty(),
            prize_fund: 0,
            participation_cost: cost,
            phase: Phase::Active,
            round: s.round.wrapping_add(1),
            ..s
        }
        &&& r == Ok::<LotteryEvent, LotteryError>(
            LotteryEvent::Started { ending, participation_cost: cost, ft_actor_id: ft },
        )
    }
}

/// Taking an entry. A ledger payment is only asked for here: the entry is
/// settled by [`entry_settled`] once the ledger has answered.
pub open spec fn enter_step(
    s: RoundState,
    caller: Identity,
    now: u64,
    value: u128,
    t: RoundState,
    step: Step,
) -> bool {
    if s.phase is Closing {
        t == s && step == rejected(caller, value, LotteryError::WrongPhase)
    } else if s.phase is Idle || now >= s.ending {
        t == s && step == rejected(caller, value, LotteryError::RoundClosed)
    } else if s.players.contains(caller) {
        t == s && step == rejected(caller, value, LotteryError::AlreadyEntered)
    } else if s.players.len() >= MAX_NUMBER_OF_PLAYERS {
        t == s && step == rejected(caller, value, LotteryError::CapacityExceeded)
    } else {
        match s.ft_actor_id {
            None => if value != s.participation_cost {
                t == s && step == rejected(caller, value, LotteryError::WrongPaymentAmount)
            } else {
                admitted(s, caller, t) && step == Step::Done(
                    Ok(LotteryEvent::PlayerAdded(caller)),
                )
            },
            Some(ledger) => if value > 0 {
                t == s && step == rejected(caller, value, LotteryError::WrongPaymentAmount)
            } else if s.pending.contains_key(caller.0) && s.pending[caller.0].1 != s.round {
                t == s && step == Step::Done(Err(LotteryError::PaymentPending))
            } else {
                &&& t == with_transfer(s, caller)
                &&& step == Step::Transfer(
                    TransferRequest {
                        ledger,
                        transaction_id: transfer_id(s, caller),
                        round: s.round,
                        sender: caller,
                        recipient: s.program,
                        amount: s.participation_cost,
                    },
                )
            },
        }
    }
}

/// Whether `req` is the transfer still outstanding for its sender, for its
/// round: the first answer for its identifier. Later answers for the same
/// identifier repeat what the ledger did once.
pub open spec fn outstanding(s: RoundState, req: TransferRequest) -> bool {
    &&& s.pending.contains_key(req.sender.0)
    &&& s.pending[req.sender.0] == (req.transaction_id, req.round)
}

/// Why a payment that went through does not make an entry, if it does not:
/// it must be for the round that is taking entries now, at that round's cost.
pub open spec fn refusal(s: RoundState, req: TransferRequest) -> Option<LotteryError> {
    if !(s.phase is Active) || s.round != req.round {
        Some(LotteryError::RoundClosed)
    } else if s.players.contains(req.sender) {
        Some(LotteryError::AlreadyEntered)
    } else if s.players.len() >= MAX_NUMBER_OF_PLAYERS {
        Some(LotteryError::CapacityExceeded)
    } else if req.amount != s.participation_cost {
        Some(LotteryError::WrongPaymentAmount)
    } else {
        None
    }
}

/// The transfer that gives back a payment `req` that was taken and not used.
pub open spec fn refund_of(s: RoundState, req: TransferRequest, id: u64) -> TransferRequest {
    TransferRequest {
        ledger: req.ledger,
        transaction_id: id,
        round: req.round,
        sender: s.program,
        recipient: req.sender,
        amount: req.amount,
    }
}

/// Settling an entry payment `req` once the ledger has answered it (`paid`).
/// Only the first answer for the transfer counts: it forgets the
/// outstanding transfer, and a payment that went through either admits the
/// sender into the round it was made for, or is given back in full with a
/// transfer under a fresh identifier. A later answer for the same transfer
/// changes nothing.
pub open spec fn entry_settled(
    s: RoundState,
    req: TransferRequest,
    paid: bool,
    t: RoundState,
    step: Step,
) -> bool {
    let caller = req.sender;
    if !outstanding(s, req) {
        &&& t == s
        &&& step == Step::Done(
            Err(
                if s.round == req.round && s.players.contains(caller) {
                    LotteryError::AlreadyEntered
                } else if !paid {
                    LotteryError::PaymentTransferFailed
                } else {
                    LotteryError::RoundClosed
                },
            ),
        )
    } else {
        let u = without_transfer(s, caller);
        if !paid {
            t == u && step == Step::Done(Err(LotteryError::PaymentTransferFailed))
        } else {
            match refusal(s, req) {
                None => admitted(u, caller, t) && step == Step::Done(
                    Ok(LotteryEvent::PlayerAdded(caller)),
                ),
                Some(e) => {
                    &&& t == RoundState { next_id: u.next_id.wrapping_add(1), ..u }
                    &&& step == Step::Refund { request: refund_of(s, req, u.next_id), reply: Err(e) }
                },
            }
        }
    }
}

/// Adding one more payment to a pool keeps it the saturated product.
pub proof fn lemma_pool_grows(cost: u128, n: nat)
    ensures
        pool_for(cost, n + 1) == pool_for(cost, n).saturating_add(cost),
{
    assert(cost * (n + 1) == cost * n + cost) by (nonlinear_arith);
}

/// Closing the round at time `now`; `now` also seeds the draw. A ledger
/// payout is only asked for here: [`payout_settled`] ends the round once the
/// ledger has answered. After a refused payout a new close pays the same
/// winner.
pub open spec fn close_step(
    s: RoundState,
    caller: Identity,
    now: u64,
    t: RoundState,
    step: Step,
) -> bool {
    if s.phase is Idle || s.phase matches Phase::Closing { in_flight: true, .. } {
        t == s && step == Step::Done(Err(LotteryError::WrongPhase))
    } else if caller != s.admin && caller != s.program {
        t == s && step == Step::Done(Err(LotteryError::AccessDenied))
    } else if now < s.ending {
        t == s && step == Step::Done(Err(LotteryError::RoundStillOpen))
    } else if s.players.len() == 0 {
        t == closed_with(s, null_identity()) && step == Step::Done(
            Ok(LotteryEvent::Winner(null_identity())),
        )
    } else {
        let w = match s.phase {
            Phase::Closing { winner, .. } => winner,
            _ => chosen_winner(s.players, now),
        };
        match s.ft_actor_id {
            None => {
                &&& t == closed_with(s, w)
                &&& step == Step::SendValue {
                    to: w,
                    amount: s.prize_fund,
                    reply: Ok(LotteryEvent::Winner(w)),
                }
            },
            Some(ledger) => {
                &&& t == RoundState {
                    phase: Phase::Closing { winner: w, in_flight: true },
                    ..with_transfer(s, s.program)
                }
                &&& step == Step::Transfer(
                    TransferRequest {
                        ledger,
                        transaction_id: transfer_id(s, s.program),
                        round: s.round,
                        sender: s.program,
                        recipient: w,
                        amount: s.prize_fund,
                    },
                )
            },
        }
    }
}

/// Settling a payout once the ledger has answered (`paid`). The contract's
/// outstanding transfer is forgotten whatever the outcome.
pub open spec fn payout_settled(
    s: RoundState,
    paid: bool,
    t: RoundState,
    r: Result<LotteryEvent, LotteryError>,
) -> bool {
    let u = without_transfer(s, s.program);
    match s.phase {
        Phase::Closing { winner, in_flight: true } => if paid {
            t == closed_with(u, winner) && r == Ok::<LotteryEvent, LotteryError>(
                LotteryEvent::Winner(winner),
            )
        } else {
            &&& t == RoundState { phase: Phase::Closing { winner, in_flight: false }, ..u }
            &&& r == Err::<LotteryEvent, LotteryError>(LotteryError::PayoutFailed)
        },
        _ => t == u && r == Err::<LotteryEvent, LotteryError>(LotteryError::WrongPhase),
    }
}

/// What a state reply shows of `s`.
pub open spec fn reply_shows(r: LotteryStateReply, s: RoundState) -> bool {
    r matches LotteryStateReply::State {
        started,
        ending,
        players,
        prize_fund,
        participation_cost,
        last_winner,
        ft_actor_id,
    } && started == s.started && ending == s.ending && players@ == s.players && prize_fund
        == s.prize_fund && participation_cost == s.participation_cost && last_winner == s.winner
        && ft_actor_id == s.ft_actor_id
}

/// The contract, holding the state of the current round.
pub struct Lottery {
    admin: Identity,
    program: Identity,
    ft_actor_id: Option<Identity>,
    started: u64,
    ending: u64,
    players: Vec<Identity>,
    prize_fund: u128,
    participation_cost: u128,
    phase: Phase,
    winner: Identity,
    round: u64,
    pending: PendingTransfers,
}

impl View for Lottery {
    type V = RoundState;

    closed spec fn view(&self) -> RoundState {
        RoundState {
            admin: self.admin,
            program: self.program,
            ft_actor_id: self.ft_actor_id,
            started: self.started,
            ending: self.ending,
            players: self.players@,
            prize_fund: self.prize_fund,
            participation_cost: self.participation_cost,
            phase: self.phase,
            winner: self.winner,
            round: self.round,
            pending: self.pending.entries(),
            next_id: self.pending.next_id(),
        }
    }
}

impl Lottery {
    pub open spec fn wf(&self) -> bool {
        round_wf(self@)
    }

    /// Creates the contract, administered by `init.admin`, with `program`
    /// its own account. A null administrator is refused.
    pub fn new(init: LotteryInit, program: Identity) -> (r: Result<Lottery, LotteryError>)
        ensures
            match r {
                Ok(l) => !is_null(init.admin) && l.wf() && l@ == initial_state(init.admin, program),
                Err(e) => is_null(init.admin) && e == LotteryError::NullAdmin,
            },
    {
        if init.admin.is_zero() {
            return Err(LotteryError::NullAdmin);
        }
        let l = Lottery {
            admin: init.admin,
            program,
            ft_actor_id: None,
            started: 0,
            ending: 0,
            players: Vec::new(),
            prize_fund: 0,
            participation_cost: 0,
            phase: Phase::Idle,
            winner: Identity::zero(),
            round: 0,
            pending: PendingTransfers::new(),
        };
        assert(l@.players =~= Seq::<Identity>::empty());
        Ok(l)
    }

    /// Opens a round for `duration` milliseconds from `now`, at `participation_cost`
    /// per entrant, paid on the ledger `ft_actor_id` or in native value.
    pub fn start(
        &mut self,
        caller: Identity,
        now: u64,
        duration: u64,
        participation_cost: u128,
        ft_actor_id: Option<Identity>,
    ) -> (r: Result<LotteryEvent, LotteryError>)
        requires
            old(self).wf(),
        ensures
            final(self).wf(),
            start_step(
                old(self)@,
                caller,
                now,
                duration,
                participation_cost,
                ft_actor_id,
                final(self)@,
                r,
            ),
    {
        if !caller.same_as(&self.admin) {
            return Err(LotteryError::AccessDenied);
        }
        if !matches!(self.phase, Phase::Idle) {
            return Err(LotteryError::RoundStillOpen);
        }
        if let Some(id) = ft_actor_id {
            if id.is_zero() {
                return Err(LotteryError::InvalidCurrency);
            }
        }
        self.players = Vec::new();
        self.prize_fund = 0;
        self.started = now;
        self.ending = now.saturating_add(duration);
        self.participation_cost = participation_cost;
        self.ft_actor_id = ft_actor_id;
        self.phase = Phase::Active;
        self.round = self.round.wrapping_add(1);
        assert(self@.players =~= Seq::<Identity>::empty());
        Ok(LotteryEvent::Started { ending: self.ending, participation_cost, ft_actor_id })
    }
    /// Lists `x` among the entrants and adds its payment to the pool.
    fn add_player(&mut self, x: Identity)
        requires
            old(self).wf(),
            !old(self)@.players.contains(x),
            old(self)@.players.len() < MAX_NUMBER_OF_PLAYERS,
        ensures
            final(self).wf(),
            admitted(old(self)@, x, final(self)@),
    {
        proof {
            lemma_pool_grows(self.participation_cost, self.players@.len());
        }
        insert_sorted(&mut self.players, x);
        self.prize_fund = self.prize_fund.saturating_add(self.participation_cost);
    }

    /// Refuses an entry, sending back any native value that came with it.
    fn reject_entry(caller: Identity, value: u128, e: LotteryError) -> (step: Step)
        ensures
            step == rejected(caller, value, e),
    {
        if value > 0 {
            Step::SendValue { to: caller, amount: value, reply: Err(e) }
        } else {
            Step::Done(Err(e))
        }
    }

    /// Takes the entry of `caller` at time `now`, with `value` of native
    /// value sent along. Native payments are checked here; a ledger payment
    /// is returned as a transfer to run, after which [`Lottery::finish_entry`]
    /// settles the entry.
    pub fn enter(&mut self, caller: Identity, now: u64, value: u128) -> (step: Step)
        requires
            old(self).wf(),
        ensures
            final(self).wf(),
            enter_step(old(self)@, caller, now, value, final(self)@, step),
    {
        match self.phase {
            Phase::Closing { .. } => {
                return Self::reject_entry(caller, value, LotteryError::WrongPhase);
            },
            Phase::Idle => {
                return Self::reject_entry(caller, value, LotteryError::RoundClosed);
            },
            Phase::Active => {},
        }
        if now >= self.ending {
            return Self::reject_entry(caller, value, LotteryError::RoundClosed);
        }
        if holds(&self.players, &caller) {
            return Self::reject_entry(caller, value, LotteryError::AlreadyEntered);
        }
        if self.players.len() >= MAX_NUMBER_OF_PLAYERS {
            return Self::reject_entry(caller, value, LotteryError::CapacityExceeded);
        }
        match self.ft_actor_id {
            None => {
                if value != self.participation_cost {
                    return Self::reject_entry(caller, value, LotteryError::WrongPaymentAmount);
                }
                self.add_player(caller);
                Step::Done(Ok(LotteryEvent::PlayerAdded(caller)))
            },
            Some(ledger) => {
                if value > 0 {
                    return Self::reject_entry(caller, value, LotteryError::WrongPaymentAmount);
                }
                if let Some(record) = self.pending.lookup(&caller) {
                    if record.1 != self.round {
                        return Step::Done(Err(LotteryError::PaymentPending));
                    }
                }
                let transaction_id = self.pending.acquire(&caller, self.round);
                Step::Transfer(
                    TransferRequest {
                        ledger,
                        transaction_id,
                        round: self.round,
                        sender: caller,
                        recipient: self.program,
                        amount: self.participation_cost,
                    },
                )
            },
        }
    }

    /// Settles an entry payment once the ledger has answered it: `request`
    /// is the transfer that [`Lottery::enter`] asked for, handed back
    /// unchanged, and `paid` is whether it went through. A refused payment
    /// that went through comes back as a refund to run before replying.
    pub fn finish_entry(&mut self, request: TransferRequest, paid: bool) -> (step: Step)
        requires
            old(self).wf(),
        ensures
            final(self).wf(),
            entry_settled(old(self)@, request, paid, final(self)@, step),
    {
        let caller = request.sender;
        let first = match self.pending.lookup(&caller) {
            Some(record) => record.0 == request.transaction_id && record.1 == request.round,
            None => false,
        };
        if !first {
            if self.round == request.round && holds(&self.players, &caller) {
                return Step::Done(Err(LotteryError::AlreadyEntered));
            }
            if !paid {
                return Step::Done(Err(LotteryError::PaymentTransferFailed));
            }
            return Step::Done(Err(LotteryError::RoundClosed));
        }
        self.pending.release(&caller);
        if !paid {
            return Step::Done(Err(LotteryError::PaymentTransferFailed));
        }
        let refused = if !matches!(self.phase, Phase::Active) || self.round != request.round {
            Some(LotteryError::RoundClosed)
        } else if holds(&self.players, &caller) {
            Some(LotteryError::AlreadyEntered)
        } else if self.players.len() >= MAX_NUMBER_OF_PLAYERS {
            Some(LotteryError::CapacityExceeded)
        } else if request.amount != self.participation_cost {
            Some(LotteryError::WrongPaymentAmount)
        } else {
            None
        };
        match refused {
            None => {
                self.add_player(caller);
                Step::Done(Ok(LotteryEvent::PlayerAdded(caller)))
            },
            Some(e) => {
                let transaction_id = self.pending.issue();
                Step::Refund {
                    request: TransferRequest {
                        ledger: request.ledger,
                        transaction_id,
                        round: request.round,
                        sender: self.program,
                        recipient: caller,
                        amount: request.amount,
                    },
                    reply: Err(e),
                }
            },
        }
    }

    /// Ends the round with winner `w`.
    fn end_round(&mut self, w: Identity)
        requires
            old(self).wf(),
        ensures
            final(self).wf(),
            final(self)@ == closed_with(old(self)@, w),
    {
        self.winner = w;
        self.phase = Phase::Idle;
        self.started = 0;
        self.ending = 0;
    }

    /// Closes the round at time `now` on behalf of `caller`, drawing the
    /// winner with `now` as the seed. A native payout is returned as a value
    /// to send; a ledger payout as a transfer to run, after which
    /// [`Lottery::finish_payout`] ends the round.
    pub fn pick_winner(&mut self, caller: Identity, now: u64) -> (step: Step)
        requires
            old(self).wf(),
        ensures
            final(self).wf(),
            close_step(old(self)@, caller, now, final(self)@, step),
    {
        let drawn: Option<Identity> = match self.phase {
            Phase::Idle => {
                return Step::Done(Err(LotteryError::WrongPhase));
            },
            Phase::Closing { winner, in_flight } => {
                if in_flight {
                    return Step::Done(Err(LotteryError::WrongPhase));
                }
                Some(winner)
            },
            Phase::Active => None,
        };
        if !caller.same_as(&self.admin) && !caller.same_as(&self.program) {
            return Step::Done(Err(LotteryError::AccessDenied));
        }
        if now < self.ending {
            return Step::Done(Err(LotteryError::RoundStillOpen));
        }
        if self.players.len() == 0 {
            let nobody = Identity::zero();
            self.end_round(nobody);
            return Step::Done(Ok(LotteryEvent::Winner(nobody)));
        }
        let w = match drawn {
            Some(w) => w,
            None => pick_from_seed(&self.players, now),
        };
        match self.ft_actor_id {
            None => {
                self.end_round(w);
                Step::SendValue {
                    to: w,
                    amount: self.prize_fund,
                    reply: Ok(LotteryEvent::Winner(w)),
                }
            },
            Some(ledger) => {
                let program = self.program;
                let transaction_id = self.pending.acquire(&program, self.round);
                self.phase = Phase::Closing { winner: w, in_flight: true };
                Step::Transfer(
                    TransferRequest {
                        ledger,
                        transaction_id,
                        round: self.round,
                        sender: program,
                        recipient: w,
                        amount: self.prize_fund,
                    },
                )
            },
        }
    }

    /// Settles the payout once the ledger has answered: `paid` is whether the
    /// transfer went through.
    pub fn finish_payout(&mut self, paid: bool) -> (r: Result<LotteryEvent, LotteryError>)
        requires
            old(self).wf(),
        ensures
            final(self).wf(),
            payout_settled(old(self)@, paid, final(self)@, r),
    {
        let program = self.program;
        self.pending.release(&program);
        match self.phase {
            Phase::Closing { winner, in_flight } => {
                if !in_flight {
                    return Err(LotteryError::WrongPhase);
                }
                if paid {
                    self.end_round(winner);
                    Ok(LotteryEvent::Winner(winner))
                } else {
                    self.phase = Phase::Closing { winner, in_flight: false };
                    Err(LotteryError::PayoutFailed)
                }
            },
            _ => Err(LotteryError::WrongPhase),
        }
    }

    /// Runs a request from `caller`, received at time `now` with `value` of
    /// native value attached.
    pub fn handle(
        &mut self,
        caller: Identity,
        now: u64,
        value: u128,
        action: LotteryAction,
    ) -> (step: Step)
        requires
            old(self).wf(),
        ensures
            final(self).wf(),
            match action {
                LotteryAction::Start { duration, participation_cost, ft_actor_id } => {
                    step matches Step::Done(r) && start_step(
                        old(self)@,
                        caller,
                        now,
                        duration,
                        participation_cost,
                        ft_actor_id,
                        final(self)@,
                        r,
                    )
                },
                LotteryAction::PickWinner => close_step(old(self)@, caller, now, final(self)@, step),
                LotteryAction::Enter => enter_step(old(self)@, caller, now, value, final(self)@, step),
            },
    {
        match action {
            LotteryAction::Start { duration, participation_cost, ft_actor_id } => {
                Step::Done(self.start(caller, now, duration, participation_cost, ft_actor_id))
            },
            LotteryAction::PickWinner => self.pick_winner(caller, now),
            LotteryAction::Enter => self.enter(caller, now, value),
        }
    }

    /// Answers a state query.
    pub fn query(&self, query: LotteryStateQuery) -> (r: LotteryStateReply)
        ensures
            reply_shows(r, self@),
    {
        match query {
            LotteryStateQuery::State => LotteryStateReply::State {
                started: self.started,
                ending: self.ending,
                players: self.players.clone(),
                prize_fund: self.prize_fund,
                participation_cost: self.participation_cost,
                last_winner: self.winner,
                ft_actor_id: self.ft_actor_id,
            },
        }
    }

    /// Where the round is in its life.
    pub fn phase(&self) -> (r: Phase)
        ensures
            r == self@.phase,
    {
        self.phase
    }
}

} // verus!

//! Properties that hold across operations, stated over the transition
//! relations that the operations' contracts use.

use vstd::prelude::*;

use crate::identity::{is_null, lemma_lt_asymmetric, null_identity, Identity};
use crate::lottery::{
    close_step, enter_step, entry_settled, outstanding, payout_settled, pool_for, reply_shows,
    round_wf, start_step, RoundState,
};
use crate::messages::{
    LotteryError, LotteryEvent, LotteryStateReply, Step, TransferRequest, MAX_NUMBER_OF_PLAYERS,
};
use crate::roster::sorted_ids;

verus! {

/// In an ascending listing no identity appears twice.
pub proof fn lemma_sorted_appears_once(s: Seq<Identity>, x: Identity, i: int, j: int)
    requires
        sorted_ids(s),
        0 <= i < s.len(),
        0 <= j < s.len(),
        s[i] == x,
        s[j] == x,
    ensures
        i == j,
{
    if i < j {
        lemma_lt_asymmetric(s[i], s[j]);
    } else if j < i {
        lemma_lt_asymmetric(s[j], s[i]);
    }
}

/// A round opened by the administrator while no round is on, with a valid
/// currency, succeeds; a state query right after shows no entrants, an empty
/// pool and a window that ends `duration` after it starts.
pub proof fn lemma_open_then_query(
    s: RoundState,
    now: u64,
    duration: u64,
    cost: u128,
    ft: Option<Identity>,
    t: RoundState,
    r: Result<LotteryEvent, LotteryError>,
    reply: LotteryStateReply,
)
    requires
        round_wf(s),
        s.phase is Idle,
        !(ft matches Some(id) && is_null(id)),
        now + duration <= u64::MAX,
        start_step(s, s.admin, now, duration, cost, ft, t, r),
        reply_shows(reply, t),
    ensures
        r is Ok,
        t.phase is Active,
        reply matches LotteryStateReply::State { started, ending, players, prize_fund, .. }
            && players@.len() == 0 && prize_fund == 0 && ending == started + duration,
{
}

/// Each admission, whether paid in native value or settled after a ledger
/// payment, adds exactly one entrant and one entry cost to the pool, so the
/// pool stays the entry cost times the number of entrants (saturating at the
/// largest `u128`, and exact below it).
pub proof fn lemma_pool_tracks_entrants(
    s: RoundState,
    caller: Identity,
    now: u64,
    value: u128,
    payment: TransferRequest,
    t: RoundState,
    via_ledger: bool,
)
    requires
        round_wf(s),
        via_ledger ==> payment.sender == caller,
        via_ledger ==> entry_settled(
            s,
            payment,
            true,
            t,
            Step::Done(Ok(LotteryEvent::PlayerAdded(caller))),
        ),
        !via_ledger ==> enter_step(
            s,
            caller,
            now,
            value,
            t,
            Step::Done(Ok(LotteryEvent::PlayerAdded(caller))),
        ),
    ensures
        round_wf(t),
        t.players.len() == s.players.len() + 1,
        t.players.contains(caller),
        !s.players.contains(caller),
        t.prize_fund == pool_for(t.participation_cost, t.players.len()),
        t.participation_cost * t.players.len() <= u128::MAX ==> t.prize_fund
            == t.participation_cost * t.players.len(),
{
    crate::lottery::lemma_pool_grows(s.participation_cost, s.players.len());
    assert(t.players.contains(caller) <==> (s.players.contains(caller) || caller == caller));
}

/// Two entries by the same caller while its payment is outstanding ask the
/// ledger for one and the same transfer, which the ledger executes at most
/// once. Settling both answers: the first decides, and the second changes
/// nothing. If the payment went through, the caller is listed once and the
/// pool holds one more entry cost; otherwise nothing changed. There are
/// never two admissions, nothing is given back (nothing was paid twice),
/// and no outstanding transfer is left for the caller.
pub proof fn lemma_concurrent_entries_idempotent(
    s0: RoundState,
    caller: Identity,
    now1: u64,
    s1: RoundState,
    step1: Step,
    now2: u64,
    s2: RoundState,
    step2: Step,
    paid1: bool,
    s3: RoundState,
    out1: Step,
    paid2: bool,
    s4: RoundState,
    out2: Step,
)
    requires
        round_wf(s0),
        s0.phase is Active,
        s0.ft_actor_id is Some,
        !s0.pending.contains_key(caller.0),
        !s0.players.contains(caller),
        s0.players.len() < MAX_NUMBER_OF_PLAYERS,
        now1 < s0.ending,
        now2 < s0.ending,
        enter_step(s0, caller, now1, 0, s1, step1),
        enter_step(s1, caller, now2, 0, s2, step2),
        step1 is Transfer ==> entry_settled(s2, step1->Transfer_0, paid1, s3, out1),
        step2 is Transfer ==> entry_settled(s3, step2->Transfer_0, paid2, s4, out2),
    ensures
        step1 is Transfer,
        step1 == step2,
        step1->Transfer_0.sender == caller,
        step1->Transfer_0.recipient == s0.program,
        step1->Transfer_0.amount == s0.participation_cost,
        !(out1 == Step::Done(Ok(LotteryEvent::PlayerAdded(caller))) && out2 == Step::Done(
            Ok(LotteryEvent::PlayerAdded(caller)),
        )),
        !(out1 is Refund) && !(out2 is Refund),
        paid1 ==> {
            &&& s4.players.len() == s0.players.len() + 1
            &&& s4.players.contains(caller)
            &&& s4.prize_fund == s0.prize_fund.saturating_add(s0.participation_cost)
            &&& s0.prize_fund + s0.participation_cost <= u128::MAX ==> s4.prize_fund
                == s0.prize_fund + s0.participation_cost
        },
        !paid1 ==> s4.players == s0.players && s4.prize_fund == s0.prize_fund,
        forall|i: int, j: int|
            0 <= i < s4.players.len() && 0 <= j < s4.players.len() && s4.players[i] == caller
                && s4.players[j] == caller ==> i == j,
        !s4.pending.contains_key(caller.0),
{
    assert(!s1.players.contains(caller));
    let req = step1->Transfer_0;
    assert(s2.pending[caller.0] == (req.transaction_id, req.round));
    if paid1 {
        assert(s3.players.contains(caller) <==> (s2.players.contains(caller) || caller == caller));
        assert(s3.players.contains(caller));
    }
    assert(sorted_ids(s4.players)) by {
        if paid1 {
            assert(s4.players == s3.players);
        }
    }
    assert forall|i: int, j: int|
        0 <= i < s4.players.len() && 0 <= j < s4.players.len() && s4.players[i] == caller
            && s4.players[j] == caller implies i == j by {
        lemma_sorted_appears_once(s4.players, caller, i, j);
    }
}

/// A ledger payment that went through is never lost nor used twice: its
/// first settlement either credits it, at the round's cost, to the round it
/// was made for, which must still be taking entries, or gives the whole
/// amount back to the payer from the contract's custody and leaves the
/// entrants and the pool as they were. Any later settlement of the same
/// transfer changes nothing and gives nothing back.
pub proof fn lemma_paid_entry_credited_or_refunded(
    s: RoundState,
    req: TransferRequest,
    t: RoundState,
    step: Step,
)
    requires
        round_wf(s),
        entry_settled(s, req, true, t, step),
    ensures
        outstanding(s, req) ==> {
            ||| {
                &&& step == Step::Done(Ok(LotteryEvent::PlayerAdded(req.sender)))
                &&& s.phase is Active
                &&& s.round == req.round
                &&& req.amount == s.participation_cost
                &&& t.players.len() == s.players.len() + 1
                &&& t.prize_fund == s.prize_fund.saturating_add(req.amount)
            }
            ||| {
                &&& step matches Step::Refund { request, reply }
                &&& request.sender == s.program
                &&& request.recipient == req.sender
                &&& request.amount == req.amount
                &&& request.ledger == req.ledger
                &&& reply is Err
                &&& t.players == s.players
                &&& t.prize_fund == s.prize_fund
            }
        },
        !outstanding(s, req) ==> t == s,
        !outstanding(s, req) ==> (step matches Step::Done(reply) && reply is Err),
{
}

/// Closing a round that has entrants, once its window is over, and letting
/// a ledger payout go through, leaves the entrants and the pool as they were
/// for inspection, names one of the entrants as the last winner, pays the
/// whole pool to that winner, and returns the round to idle with its window
/// cleared.
pub proof fn lemma_close_round_trip(
    s: RoundState,
    caller: Identity,
    now: u64,
    t: RoundState,
    step: Step,
    u: RoundState,
    r: Result<LotteryEvent, LotteryError>,
)
    requires
        round_wf(s),
        s.phase is Active,
        s.players.len() > 0,
        caller == s.admin || caller == s.program,
        now >= s.ending,
        close_step(s, caller, now, t, step),
        step is Transfer ==> payout_settled(t, true, u, r),
        !(step is Transfer) ==> u == t,
        !(step is Transfer) ==> (step matches Step::SendValue { reply, .. } && r == reply),
    ensures
        u.players == s.players,
        u.prize_fund == s.prize_fund,
        s.players.contains(u.winner),
        u.phase is Idle,
        u.started == 0 && u.ending == 0,
        r == Ok::<LotteryEvent, LotteryError>(LotteryEvent::Winner(u.winner)),
        step matches Step::Transfer(req) ==> req.recipient == u.winner && req.amount
            == s.prize_fund,
        step matches Step::SendValue { to, amount, .. } ==> to == u.winner && amount
            == s.prize_fund,
{
    crate::draw::lemma_selection_deterministic(s.players, s.players, now, now);
}

/// Closing a round that nobody entered, once its window is over, succeeds at
/// once with the null identity as winner, pays nothing out, and returns the
/// round to idle with its window cleared.
pub proof fn lemma_close_empty_round(
    s: RoundState,
    caller: Identity,
    now: u64,
    t: RoundState,
    step: Step,
)
    requires
        round_wf(s),
        s.phase is Active,
        s.players.len() == 0,
        caller == s.admin || caller == s.program,
        now >= s.ending,
        close_step(s, caller, now, t, step),
    ensures
        step == Step::Done(Ok(LotteryEvent::Winner(null_identity()))),
        is_null(t.winner),
        t.phase is Idle,
        t.started == 0 && t.ending == 0,
        t.players == s.players && t.prize_fund == s.prize_fund,
        t.pending == s.pending,
{
}

/// In a native-value round, an entry whose attached value is not exactly
/// the entry cost never changes the entrants or the pool, and the whole
/// attached value goes back to the caller.
pub proof fn lemma_wrong_native_payment_returned(
    s: RoundState,
    caller: Identity,
    now: u64,
    value: u128,
    t: RoundState,
    step: Step,
)
    requires
        round_wf(s),
        s.ft_actor_id is None,
        value != s.participation_cost,
        enter_step(s, caller, now, value, t, step),
    ensures
        t == s,
        value > 0 ==> (step matches Step::SendValue { to, amount, reply } && to == caller
            && amount == value && reply is Err),
        value == 0 ==> (step matches Step::Done(reply) && reply is Err),
{
}

/// The premises of a run of native-value entries: `states[i + 1]` is
/// `states[i]` after `entrants[i]` enters at `times[i]`, paying the entry
/// cost, within the window.
pub open spec fn native_entries(
    entrants: Seq<Identity>,
    times: Seq<u64>,
    states: Seq<RoundState>,
) -> bool {
    &&& states.len() == entrants.len() + 1
    &&& times.len() == entrants.len()
    &&& forall|i: int|
        0 <= i < entrants.len() ==> {
            &&& times[i] < states[0].ending
            &&& enter_step(
                #[trigger] states[i],
                entrants[i],
                times[i],
                states[0].participation_cost,
                states[i + 1],
                Step::Done(Ok(LotteryEvent::PlayerAdded(entrants[i]))),
            )
        }
}

/// After the first `i` entries of a run of distinct entrants, the entrants
/// listed are exactly those `i`, the pool holds `i` payments, and nothing
/// else has changed.
proof fn lemma_native_entries_prefix(
    entrants: Seq<Identity>,
    times: Seq<u64>,
    states: Seq<RoundState>,
    i: int,
)
    requires
        round_wf(states[0]),
        states[0].phase is Active,
        states[0].ft_actor_id is None,
        states[0].players.len() == 0,
        entrants.no_duplicates(),
        entrants.len() <= MAX_NUMBER_OF_PLAYERS,
        native_entries(entrants, times, states),
        0 <= i <= entrants.len(),
    ensures
        round_wf(states[i]),
        states[i].players.len() == i,
        forall|y: Identity| states[i].players.contains(y) <==> entrants.take(i).contains(y),
        states[i] == (RoundState {
            players: states[i].players,
            prize_fund: states[i].prize_fund,
            ..states[0]
        }),
    decreases i,
{
    if i > 0 {
        let j = i - 1;
        lemma_native_entries_prefix(entrants, times, states, j);
        let s = states[j];
        let t = states[i];
        assert(enter_step(
            states[j],
            entrants[j],
            times[j],
            states[0].participation_cost,
            states[j + 1],
            Step::Done(Ok(LotteryEvent::PlayerAdded(entrants[j]))),
        ));
        assert(!s.players.contains(entrants[j])) by {
            if s.players.contains(entrants[j]) {
                assert(entrants.take(j).contains(entrants[j]));
                let k = choose|k: int| 0 <= k < j && entrants.take(j)[k] == entrants[j];
                assert(entrants[k] == entrants[j]);
            }
        }
        crate::lottery::lemma_pool_grows(s.participation_cost, s.players.len());
        assert forall|y: Identity| t.players.contains(y) <==> entrants.take(i).contains(y) by {
            if entrants.take(i).contains(y) {
                let k = choose|k: int| 0 <= k < i && entrants.take(i)[k] == y;
                if k < j {
                    assert(entrants.take(j)[k] == y);
                }
            }
            if entrants.take(j).contains(y) {
                let k = choose|k: int| 0 <= k < j && entrants.take(j)[k] == y;
                assert(entrants.take(i)[k] == y);
            }
            if y == entrants[j] {
                assert(entrants.take(i)[j] == y);
            }
        }
    } else {
        assert forall|y: Identity| states[0].players.contains(y) <==> entrants.take(0).contains(y) by {
            if states[0].players.contains(y) {
                let k = choose|k: int| 0 <= k < states[0].players.len() && states[0].players[k] == y;
            }
        }
    }
}

/// A reply that shows a finished round of `entrants` at `cost` each: the
/// window cleared, the entrants and their pool, and one of them as winner.
pub open spec fn shows_finished_round(
    reply: LotteryStateReply,
    entrants: Seq<Identity>,
    cost: u128,
) -> bool {
    reply matches LotteryStateReply::State { started, ending, players, prize_fund, last_winner, .. }
        && started == 0 && ending == 0 && players@.len() == entrants.len() && (forall|y: Identity|
        players@.contains(y) <==> entrants.contains(y)) && prize_fund == pool_for(
        cost,
        entrants.len(),
    ) && entrants.contains(last_winner)
}

/// A whole round in native value: the administrator opens it, distinct
/// entrants each pay the cost within the window, and the round is closed
/// once the window is over. A state query then shows the entrants and the
/// pool unchanged, one of the entrants as the last winner, paid the whole
/// pool, and the round idle with its window cleared.
pub proof fn lemma_native_round_trip(
    s0: RoundState,
    now: u64,
    duration: u64,
    cost: u128,
    opened: Result<LotteryEvent, LotteryError>,
    entrants: Seq<Identity>,
    times: Seq<u64>,
    states: Seq<RoundState>,
    closer: Identity,
    close_time: u64,
    closed: RoundState,
    step: Step,
    reply: LotteryStateReply,
)
    requires
        round_wf(s0),
        s0.phase is Idle,
        start_step(s0, s0.admin, now, duration, cost, None, states[0], opened),
        entrants.no_duplicates(),
        0 < entrants.len() <= MAX_NUMBER_OF_PLAYERS,
        native_entries(entrants, times, states),
        closer == s0.admin || closer == s0.program,
        close_time >= states[0].ending,
        close_step(states[entrants.len() as int], closer, close_time, closed, step),
        reply_shows(reply, closed),
    ensures
        opened is Ok,
        shows_finished_round(reply, entrants, cost),
        (closed.phase is Idle),
        step == (Step::SendValue {
            to: closed.winner,
            amount: closed.prize_fund,
            reply: Ok(LotteryEvent::Winner(closed.winner)),
        }),
{
    let n = entrants.len() as int;
    lemma_native_entries_prefix(entrants, times, states, n);
    assert(entrants.take(n) =~= entrants);
    let s = states[n];
    crate::draw::lemma_selection_deterministic(s.players, s.players, close_time, close_time);
}

/// The premises of a run of ledger entries: for each `i`, entrant `i`
/// enters at `times[i]` within the window, going from `states[2i]` to
/// `states[2i + 1]` with the payment `payments[i]`, which then goes through
/// and is settled, admitting the entrant, into `states[2i + 2]`.
pub open spec fn ledger_entries(
    entrants: Seq<Identity>,
    times: Seq<u64>,
    payments: Seq<TransferRequest>,
    states: Seq<RoundState>,
) -> bool {
    &&& states.len() == 2 * entrants.len() + 1
    &&& times.len() == entrants.len()
    &&& payments.len() == entrants.len()
    &&& forall|i: int|
        0 <= i < entrants.len() ==> {
            &&& times[i] < states[0].ending
            &&& enter_step(
                #[trigger] states[2 * i],
                entrants[i],
                times[i],
                0,
                states[2 * i + 1],
                Step::Transfer(payments[i]),
            )
            &&& entry_settled(
                states[2 * i + 1],
                payments[i],
                true,
                states[2 * i + 2],
                Step::Done(Ok(LotteryEvent::PlayerAdded(entrants[i]))),
            )
        }
}

/// After the first `i` entries of a run of ledger entries by distinct
/// entrants, the entrants listed are exactly those `i`, the pool holds `i`
/// payments, and nothing else has changed but the outstanding transfers.
proof fn lemma_ledger_entries_prefix(
    entrants: Seq<Identity>,
    times: Seq<u64>,
    payments: Seq<TransferRequest>,
    states: Seq<RoundState>,
    i: int,
)
    requires
        round_wf(states[0]),
        states[0].phase is Active,
        states[0].ft_actor_id is Some,
        states[0].players.len() == 0,
        entrants.no_duplicates(),
        entrants.len() <= MAX_NUMBER_OF_PLAYERS,
        ledger_entries(entrants, times, payments, states),
        0 <= i <= entrants.len(),
    ensures
        round_wf(states[2 * i]),
        states[2 * i].players.len() == i,
        forall|y: Identity| states[2 * i].players.contains(y) <==> entrants.take(i).contains(y),
        states[2 * i] == (RoundState {
            players: states[2 * i].players,
            prize_fund: states[2 * i].prize_fund,
            pending: states[2 * i].pending,
            next_id: states[2 * i].next_id,
            ..states[0]
        }),
    decreases i,
{
    if i > 0 {
        let j = i - 1;
        lemma_ledger_entries_prefix(entrants, times, payments, states, j);
        let s = states[2 * j];
        let m = states[2 * j + 1];
        let t = states[2 * i];
        assert(2 * j + 2 == 2 * i);
        assert(enter_step(
            states[2 * j],
            entrants[j],
            times[j],
            0,
            states[2 * j + 1],
            Step::Transfer(payments[j]),
        ));
        assert(!s.players.contains(entrants[j])) by {
            if s.players.contains(entrants[j]) {
                assert(entrants.take(j).contains(entrants[j]));
                let k = choose|k: int| 0 <= k < j && entrants.take(j)[k] == entrants[j];
                assert(entrants[k] == entrants[j]);
            }
        }
        assert(m.players == s.players && m.prize_fund == s.prize_fund);
        crate::lottery::lemma_pool_grows(s.participation_cost, s.players.len());
        assert forall|y: Identity| t.players.contains(y) <==> entrants.take(i).contains(y) by {
            if entrants.take(i).contains(y) {
                let k = choose|k: int| 0 <= k < i && entrants.take(i)[k] == y;
                if k < j {
                    assert(entrants.take(j)[k] == y);
                }
            }
            if entrants.take(j).contains(y) {
                let k = choose|k: int| 0 <= k < j && entrants.take(j)[k] == y;
                assert(entrants.take(i)[k] == y);
            }
            if y == entrants[j] {
                assert(entrants.take(i)[j] == y);
            }
        }
    } else {
        assert forall|y: Identity| states[0].players.contains(y) <==> entrants.take(0).contains(y) by {
            if states[0].players.contains(y) {
                let k = choose|k: int| 0 <= k < states[0].players.len() && states[0].players[k] == y;
            }
        }
    }
}

/// A whole round on a token ledger: the administrator opens it, distinct
/// entrants each pay the cost through the ledger within the window and are
/// admitted, and the round is closed once the window is over, its payout
/// going through. A state query then shows the entrants and the pool
/// unchanged, one of the entrants as the last winner, paid the whole pool
/// from the contract's custody, and the round idle with its window cleared.
pub proof fn lemma_ledger_round_trip(
    s0: RoundState,
    now: u64,
    duration: u64,
    cost: u128,
    ledger: Identity,
    opened: Result<LotteryEvent, LotteryError>,
    entrants: Seq<Identity>,
    times: Seq<u64>,
    payments: Seq<TransferRequest>,
    states: Seq<RoundState>,
    closer: Identity,
    close_time: u64,
    closing: RoundState,
    step: Step,
    closed: RoundState,
    paid_out: Result<LotteryEvent, LotteryError>,
    reply: LotteryStateReply,
)
    requires
        round_wf(s0),
        s0.phase is Idle,
        !is_null(ledger),
        start_step(s0, s0.admin, now, duration, cost, Some(ledger), states[0], opened),
        entrants.no_duplicates(),
        0 < entrants.len() <= MAX_NUMBER_OF_PLAYERS,
        ledger_entries(entrants, times, payments, states),
        closer == s0.admin || closer == s0.program,
        close_time >= states[0].ending,
        close_step(states[2 * entrants.len() as int], closer, close_time, closing, step),
        payout_settled(closing, true, closed, paid_out),
        reply_shows(reply, closed),
    ensures
        opened is Ok,
        shows_finished_round(reply, entrants, cost),
        (closed.phase is Idle),
        paid_out == Ok::<LotteryEvent, LotteryError>(LotteryEvent::Winner(closed.winner)),
        step matches Step::Transfer(payout) && payout.sender == s0.program && payout.recipient
            == closed.winner && payout.amount == closed.prize_fund && payout.ledger == ledger,
{
    let n = entrants.len() as int;
    lemma_ledger_entries_prefix(entrants, times, payments, states, n);
    assert(entrants.take(n) =~= entrants);
    let s = states[2 * n];
    crate::draw::lemma_selection_deterministic(s.players, s.players, close_time, close_time);
}

} // verus!

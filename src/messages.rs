//! What the contract receives, answers and asks its host to do.

use vstd::prelude::*;

use crate::identity::Identity;

verus! {

/// The most entrants that one round admits.
pub const MAX_NUMBER_OF_PLAYERS: usize = 65536;

/// Initializes the contract.
#[derive(Clone, Copy, Debug, PartialEq, Eq)]
pub struct LotteryInit {
    /// The account allowed to open and close rounds; must not be null.
    pub admin: Identity,
}

/// A request to the contract.
#[derive(Clone, Copy, Debug, PartialEq, Eq)]
pub enum LotteryAction {
    /// Opens a round; only the administrator, and only when no round is on.
    Start {
        /// The length of the entry window, in milliseconds.
        duration: u64,
        /// What each entrant pays.
        participation_cost: u128,
        /// The token ledger that collects payments, or `None` for native value.
        ft_actor_id: Option<Identity>,
    },
    /// Closes the round: draws a winner and pays the pool out.
    PickWinner,
    /// Pays the entry cost and joins the round.
    Enter,
}

/// A successful outcome.
#[derive(Clone, Copy, Debug, PartialEq, Eq)]
pub enum LotteryEvent {
    /// A round was opened.
    Started { ending: u64, participation_cost: u128, ft_actor_id: Option<Identity> },
    /// A round was closed; the null identity when nobody entered.
    Winner(Identity),
    /// An entrant was admitted.
    PlayerAdded(Identity),
}

/// Why a request was refused.
#[derive(Clone, Copy, Debug, PartialEq, Eq)]
pub enum LotteryError {
    /// The caller may not do this.
    AccessDenied,
    /// The ledger given for a round is the null identity.
    InvalidCurrency,
    /// A round is on, or its entry window has not ended yet.
    RoundStillOpen,
    /// No round takes entries now.
    RoundClosed,
    /// The caller already takes part in the round.
    AlreadyEntered,
    /// The round is full.
    CapacityExceeded,
    /// The native value sent is not the entry cost.
    WrongPaymentAmount,
    /// The ledger refused the entry payment.
    PaymentTransferFailed,
    /// The round is closing, or no round is on.
    WrongPhase,
    /// The ledger refused the payout; closing may be tried again.
    PayoutFailed,
    /// The administrator given at initialization is the null identity.
    NullAdmin,
    /// The caller's payment for an earlier round is still with the ledger.
    PaymentPending,
    /// The request could not be read; reported by the host.
    InvalidPayload,
}

/// A query of the contract's state.
#[derive(Clone, Copy, Debug, PartialEq, Eq)]
pub enum LotteryStateQuery {
    /// The current round and the last winner.
    State,
}

/// The answer to a [`LotteryStateQuery`].
#[derive(Clone, Debug, PartialEq, Eq)]
pub enum LotteryStateReply {
    State {
        /// When the round opened; zero once it is closed.
        started: u64,
        /// When its entry window ends; zero once it is closed.
        ending: u64,
        /// The entrants, in ascending order.
        players: Vec<Identity>,
        /// The pool collected so far.
        prize_fund: u128,
        /// What each entrant pays.
        participation_cost: u128,
        /// The winner of the last closed round, or the null identity.
        last_winner: Identity,
        /// The ledger of the round, or `None` for native value.
        ft_actor_id: Option<Identity>,
    },
}

/// A transfer that the token ledger is asked to execute. The ledger executes
/// at most one transfer per identifier. `round` names the round the
/// transfer is made for; it is not sent to the ledger, and the host hands
/// the request back unchanged when the ledger has answered.
#[derive(Clone, Copy, Debug, PartialEq, Eq)]
pub struct TransferRequest {
    pub ledger: Identity,
    pub transaction_id: u64,
    pub round: u64,
    pub sender: Identity,
    pub recipient: Identity,
    pub amount: u128,
}

/// What the host does after an operation has taken its decision.
#[derive(Clone, Copy, Debug, PartialEq, Eq)]
pub enum Step {
    /// Reply with this; the operation is over.
    Done(Result<LotteryEvent, LotteryError>),
    /// Send `amount` of native value to `to`, then reply.
    SendValue { to: Identity, amount: u128, reply: Result<LotteryEvent, LotteryError> },
    /// Ask the ledger for this transfer and hand its outcome back to the
    /// contract, which then replies.
    Transfer(TransferRequest),
    /// Ask the ledger for this transfer, which returns a payment that was
    /// taken but not used, then reply with `reply`.
    Refund { request: TransferRequest, reply: Result<LotteryEvent, LotteryError> },
}

/// Where the round is in its life.
#[derive(Clone, Copy, Debug, PartialEq, Eq)]
pub enum Phase {
    /// No round is on.
    Idle,
    /// Entries are taken until the window ends.
    Active,
    /// The winner is drawn and the payout is with the ledger (`in_flight`),
    /// or was refused and waits for another close.
    Closing { winner: Identity, in_flight: bool },
}

} // verus!

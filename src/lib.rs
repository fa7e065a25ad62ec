//! A round-based prize pool: an administrator opens an entry window,
//! entrants pay a fixed cost into a shared pool, and when the window is
//! over one entrant, drawn from a seeded generator, receives the pool.
//!
//! Fund movements are remote calls that suspend. The library therefore
//! splits each operation into a decision taken before the call and one
//! taken once its outcome is known; the host runs the calls in between.

pub mod identity;
pub mod roster;
pub mod draw;
pub mod pending;
pub mod messages;
pub mod lottery;
pub mod laws;

pub use identity::Identity;
pub use lottery::Lottery;
pub use messages::{
    LotteryAction, LotteryError, LotteryEvent, LotteryInit, LotteryStateQuery,
    LotteryStateReply, Phase, Step, TransferRequest, MAX_NUMBER_OF_PLAYERS,
};

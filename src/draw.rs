//! Winner selection: a seed expanded by xoshiro128++ into four bytes, read
//! as a little-endian 32-bit number, reduced modulo the number of entrants.

use rand::{RngCore, SeedableRng};
use rand_xoshiro::Xoshiro128PlusPlus;
use vstd::prelude::*;

use crate::identity::Identity;

verus! {

/// The four bytes that xoshiro128++, seeded with `seed`, puts out first.
pub uninterp spec fn xoshiro_draw(seed: u64) -> Seq<u8>;

/// Relies on rand_xoshiro's `Xoshiro128PlusPlus`: `SeedableRng::seed_from_u64`
/// builds the generator from the seed alone (through SplitMix64), and
/// `RngCore::fill_bytes` then fills the buffer from its state alone, so the
/// bytes are a function of the seed.
#[verifier::external_body]
fn draw_bytes(seed: u64) -> (r: [u8; 4])
    ensures
        r@ == xoshiro_draw(seed),
{
    let mut bytes = [0u8; 4];
    Xoshiro128PlusPlus::seed_from_u64(seed).fill_bytes(&mut bytes);
    bytes
}

/// The number that four bytes spell, least significant first.
pub open spec fn le_value(b: Seq<u8>) -> int {
    b[0] + 256 * b[1] + 65536 * b[2] + 16777216 * b[3]
}

/// Reads four bytes as a little-endian 32-bit number.
pub fn u32_from_le(b: [u8; 4]) -> (r: u32)
    ensures
        r == le_value(b@),
{
    b[0] as u32 + 256 * (b[1] as u32) + 65536 * (b[2] as u32) + 16777216 * (b[3] as u32)
}

/// The entrant that the bytes `draw` designate: the one at position
/// `le_value(draw) mod n` of the listing.
pub open spec fn designated(players: Seq<Identity>, draw: Seq<u8>) -> Identity {
    players[le_value(draw) % players.len() as int]
}

/// The winner that `seed` gives over the listing `players`.
pub open spec fn chosen_winner(players: Seq<Identity>, seed: u64) -> Identity {
    designated(players, xoshiro_draw(seed))
}

/// Picks the entrant that four drawn bytes designate.
pub fn select_winner(players: &Vec<Identity>, draw: [u8; 4]) -> (w: Identity)
    requires
        players@.len() > 0,
    ensures
        w == designated(players@, draw@),
        players@.contains(w),
{
    let n = u32_from_le(draw);
    let i = (n as usize) % players.len();
    proof {
        assert(n as usize as int == n as int);
    }
    players[i]
}

/// Draws the winner of a round from the seed.
pub fn pick_from_seed(players: &Vec<Identity>, seed: u64) -> (w: Identity)
    requires
        players@.len() > 0,
    ensures
        w == chosen_winner(players@, seed),
        players@.contains(w),
{
    let draw = draw_bytes(seed);
    select_winner(players, draw)
}

/// The winner is a function of the ordered listing and the seed alone: the
/// same listing and the same seed always give the same entrant, and that
/// entrant is one of the listing.
pub proof fn lemma_selection_deterministic(
    p: Seq<Identity>,
    q: Seq<Identity>,
    seed_p: u64,
    seed_q: u64,
)
    requires
        p == q,
        seed_p == seed_q,
        p.len() > 0,
    ensures
        chosen_winner(p, seed_p) == chosen_winner(q, seed_q),
        p.contains(chosen_winner(p, seed_p)),
{
    let i = le_value(xoshiro_draw(seed_p)) % p.len() as int;
    assert(p[i] == chosen_winner(p, seed_p));
}

} // verus!

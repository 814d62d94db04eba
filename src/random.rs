//! Random placement of actors on the board.

use crate::grid::{GridPos, GRID_COLS, GRID_ROWS};
use rand::Rng;
use vstd::prelude::*;

verus! {

/// The thread-local random number generator of rand.
#[verifier::external_type_specification]
#[verifier::external_body]
pub struct ExThreadRng(rand::rngs::ThreadRng);

/// Relies on rand::Rng::gen_range: a value drawn uniformly from `0..n`,
/// which is never empty here (it panics on an empty range).
#[verifier::external_body]
fn random_below(rng: &mut rand::rngs::ThreadRng, n: usize) -> (r: usize)
    requires
        n > 0,
    ensures
        r < n,
{
    rng.gen_range(0..n)
}

/// A cell of the board drawn uniformly at random.
pub fn random_grid_position(rng: &mut rand::rngs::ThreadRng) -> (r: GridPos)
    ensures
        r.wf(),
{
    let col = random_below(rng, GRID_COLS);
    let row = random_below(rng, GRID_ROWS);
    GridPos { col, row }
}

} // verus!

//! The source of randomness for food placement.
//!
//! Everything here is believed, not proved: the items give contracts to the
//! `rand` crate, and the engine is verified against those contracts.

use vstd::prelude::*;
use rand::seq::SliceRandom;
use crate::point::Point;

verus! {

/// `rand::rngs::ThreadRng`, the generator that each thread owns. Its state
/// is hidden: nothing is known of the values it will produce.
#[verifier::external_type_specification]
#[verifier::external_body]
pub struct ExThreadRng(rand::rngs::ThreadRng);

/// `rand::thread_rng` returns a handle to the calling thread's generator,
/// seeded by the operating system on first use. No property of the handle is
/// claimed. (The first call on a thread aborts the program if the operating
/// system cannot supply a seed.)
pub assume_specification[ rand::thread_rng ]() -> (rng: rand::rngs::ThreadRng);

/// `rand::seq::SliceRandom::choose` on the slice of `cells`: `None` exactly
/// when the slice is empty, otherwise one of its elements, picked with the
/// generator. Which element is picked is left open, so two calls on the same
/// cells may differ.
#[verifier::external_body]
pub(crate) fn choose_cell(cells: &Vec<Point>, rng: &mut rand::rngs::ThreadRng) -> (r: Option<Point>)
    ensures
        cells@.len() == 0 ==> r is None,
        cells@.len() > 0 ==> r is Some && cells@.contains(r.unwrap()),
{
    cells.choose(rng).copied()
}

} // verus!

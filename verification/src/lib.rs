//! Core logic of a desktop geography quiz: a country catalog filtered by a
//! player-chosen set of continents, random sampling of candidate answers,
//! checkbox mutual-exclusion blocking, session round bookkeeping, and the
//! index/string conversion tables for the persisted configuration.

use vstd::prelude::*;

pub mod configure;
pub mod gamelogic;
pub mod session;
pub mod threadfn;
pub mod translation;

verus! {

/// Number of candidate answers presented for each question.
pub const ANSWER_NUM: usize = 4;

/// String slice equality, proved through the owned-string comparison
/// that vstd specifies.
pub fn str_eq(a: &str, b: &str) -> (r: bool)
    ensures
        r == (a@ == b@),
{
    let x: String = a.to_owned();
    let y: String = b.to_owned();
    x == y
}

} // verus!

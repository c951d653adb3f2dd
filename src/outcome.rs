//! Resolution of the final duel between the two kept hands.

use vstd::prelude::*;

verus! {

/// Rock.
pub const ROCK: u32 = 0;

/// Paper.
pub const PAPER: u32 = 1;

/// Scissors.
pub const SCISSORS: u32 = 2;

/// A hand is one of rock, paper or scissors.
pub open spec fn valid_hand(h: u32) -> bool {
    h <= 2
}

/// Cyclic dominance: `a` beats `b` exactly when `b == (a + 2) mod 3`.
pub open spec fn beats(a: u32, b: u32) -> bool {
    valid_hand(a) && valid_hand(b) && b as int == (a as int + 2) % 3
}

/// The first party wins the duel when its hand beats the other's or when the two are equal.
pub open spec fn first_wins(a: u32, b: u32) -> bool {
    beats(a, b) || a == b
}

/// Classic rock-paper-scissors: `true` when `hand1` beats `hand2`.
pub fn rps_beats(hand1: u32, hand2: u32) -> (r: bool)
    ensures
        r == beats(hand1, hand2),
{
    (hand1 == ROCK && hand2 == SCISSORS) || (hand1 == PAPER && hand2 == ROCK) || (hand1
        == SCISSORS && hand2 == PAPER)
}

/// Outcome of the duel: `true` when the first party wins, a tie going to the first party.
pub fn resolve(kept1: u32, kept2: u32) -> (r: bool)
    ensures
        r == first_wins(kept1, kept2),
{
    rps_beats(kept1, kept2) || kept1 == kept2
}

/// An exact tie goes to the first party, for each of the three hands.
pub proof fn lemma_tie_goes_to_first(v: u32)
    requires
        valid_hand(v),
    ensures
        first_wins(v, v),
        !beats(v, v),
{
}

/// Dominance is cyclic: of two different hands exactly one beats the other, so the duel
/// between them has the same winner whichever party holds which hand.
pub proof fn lemma_cyclic_dominance(a: u32, b: u32)
    requires
        valid_hand(a),
        valid_hand(b),
        a != b,
    ensures
        beats(a, b) != beats(b, a),
        first_wins(a, b) == !first_wins(b, a),
        beats(a, b) <==> b as int == (a as int + 2) % 3,
        beats(b, a) <==> b as int == (a as int + 1) % 3,
{
}

} // verus!

//! The session record, its invariant, and the transition of each phase.

use vstd::prelude::*;
use crate::codec::digest_eq;
use crate::outcome::{first_wins, resolve, valid_hand, SCISSORS};

verus! {

/// An opaque participant identity: the 32-byte key or contract hash behind an address,
/// and which of the two it is.
#[derive(Clone, Copy, Debug, Eq)]
pub struct Identity {
    pub is_contract: bool,
    pub key: [u8; 32],
}

impl PartialEq for Identity {
    fn eq(&self, other: &Identity) -> (r: bool)
        ensures
            r == (*self == *other),
    {
        self.is_contract == other.is_contract && digest_eq(&self.key, &other.key)
    }
}

impl vstd::std_specs::cmp::PartialEqSpecImpl for Identity {
    open spec fn obeys_eq_spec() -> bool {
        true
    }

    open spec fn eq_spec(&self, other: &Identity) -> bool {
        *self == *other
    }
}

/// Why an operation on a session was refused.
#[derive(Clone, Copy, Debug, PartialEq, Eq, Structural, PartialOrd, Ord)]
pub enum Error {
    /// No session is stored under the identifier.
    GameNotFound,
    /// The caller is neither of the session's two parties.
    NotPlayer,
    /// The operation belongs to another phase than the session's current one.
    WrongPhase,
    /// The caller has already submitted what the operation would set.
    AlreadyCommitted,
    /// A revealed hand is not rock (0), paper (1) or scissors (2).
    InvalidHand,
    /// The two revealed hands are equal.
    HandsMustDiffer,
    /// The recomputed digest differs from the stored commitment.
    HashMismatch,
    /// A revealed choice index is neither 0 nor 1.
    InvalidChoice,
    /// Kept for callers that match on it; no operation returns it, since a completed
    /// session refuses every phase operation with `WrongPhase`.
    GameAlreadyEnded,
    /// A session is already stored under the identifier.
    GameAlreadyExists,
}

/// Both parties submit a hands commitment.
pub const PHASE_COMMIT_HANDS: u32 = 1;

/// Both parties reveal their two hands.
pub const PHASE_REVEAL_HANDS: u32 = 2;

/// Both parties commit to the index of the hand they keep.
pub const PHASE_COMMIT_CHOICE: u32 = 3;

/// Both parties reveal the kept index.
pub const PHASE_REVEAL_CHOICE: u32 = 4;

/// The duel is resolved and the winner recorded.
pub const PHASE_COMPLETE: u32 = 5;

/// One session between two distinct parties.
///
/// Hands are numbered 0 (rock), 1 (paper), 2 (scissors); a kept choice index is 0 (left
/// hand) or 1 (right hand). Commitments are 32-byte Keccak-256 digests.
#[derive(Clone, Copy, Debug, PartialEq, Eq)]
pub struct Game {
    pub player1: Identity,
    pub player2: Identity,
    pub player1_points: i128,
    pub player2_points: i128,
    pub phase: u32,
    pub p1_commit: Option<[u8; 32]>,
    pub p2_commit: Option<[u8; 32]>,
    pub p1_left: Option<u32>,
    pub p1_right: Option<u32>,
    pub p2_left: Option<u32>,
    pub p2_right: Option<u32>,
    pub p1_choice_commit: Option<[u8; 32]>,
    pub p2_choice_commit: Option<[u8; 32]>,
    pub p1_kept: Option<u32>,
    pub p2_kept: Option<u32>,
    pub winner: Option<Identity>,
}

/// What one party has submitted is consistent with the session's phase.
pub open spec fn party_wf(
    phase: u32,
    commit: Option<[u8; 32]>,
    left: Option<u32>,
    right: Option<u32>,
    choice_commit: Option<[u8; 32]>,
    kept: Option<u32>,
) -> bool {
    &&& phase >= PHASE_REVEAL_HANDS ==> commit is Some
    &&& phase >= PHASE_COMMIT_CHOICE ==> left is Some
    &&& phase <= PHASE_COMMIT_HANDS ==> left is None
    &&& left is Some <==> right is Some
    &&& left is Some ==> {
        &&& commit is Some
        &&& valid_hand(left->0)
        &&& valid_hand(right->0)
        &&& left->0 != right->0
    }
    &&& phase >= PHASE_REVEAL_CHOICE ==> choice_commit is Some
    &&& phase <= PHASE_REVEAL_HANDS ==> choice_commit is None
    &&& phase >= PHASE_COMPLETE ==> kept is Some
    &&& phase <= PHASE_COMMIT_CHOICE ==> kept is None
    &&& kept is Some ==> kept == left || kept == right
}

/// The winner that the duel between the two kept hands designates.
pub open spec fn duel_winner(g: Game) -> Identity {
    if first_wins(g.p1_kept->0, g.p2_kept->0) {
        g.player1
    } else {
        g.player2
    }
}

/// Moves to the next phase once both parties have submitted what the current one needs.
pub open spec fn advanced(g: Game) -> Game {
    if g.phase == PHASE_COMMIT_HANDS && g.p1_commit is Some && g.p2_commit is Some {
        Game { phase: PHASE_REVEAL_HANDS, ..g }
    } else if g.phase == PHASE_REVEAL_HANDS && g.p1_left is Some && g.p2_left is Some {
        Game { phase: PHASE_COMMIT_CHOICE, ..g }
    } else if g.phase == PHASE_COMMIT_CHOICE && g.p1_choice_commit is Some
        && g.p2_choice_commit is Some {
        Game { phase: PHASE_REVEAL_CHOICE, ..g }
    } else if g.phase == PHASE_REVEAL_CHOICE && g.p1_kept is Some && g.p2_kept is Some {
        Game { phase: PHASE_COMPLETE, winner: Some(duel_winner(g)), ..g }
    } else {
        g
    }
}

/// A fresh session in the hands-commit phase.
pub open spec fn fresh_game(
    player1: Identity,
    player2: Identity,
    player1_points: i128,
    player2_points: i128,
) -> Game {
    Game {
        player1,
        player2,
        player1_points,
        player2_points,
        phase: PHASE_COMMIT_HANDS,
        p1_commit: None,
        p2_commit: None,
        p1_left: None,
        p1_right: None,
        p2_left: None,
        p2_right: None,
        p1_choice_commit: None,
        p2_choice_commit: None,
        p1_kept: None,
        p2_kept: None,
        winner: None,
    }
}

/// Outcome of a hands commitment by `player`.
pub open spec fn commit_hands_result(g: Game, player: Identity, hash: [u8; 32]) -> Result<
    Game,
    Error,
> {
    if player != g.player1 && player != g.player2 {
        Err(Error::NotPlayer)
    } else if g.phase != PHASE_COMMIT_HANDS {
        Err(Error::WrongPhase)
    } else if player == g.player1 {
        if g.p1_commit is Some {
            Err(Error::AlreadyCommitted)
        } else {
            Ok(advanced(Game { p1_commit: Some(hash), ..g }))
        }
    } else if g.p2_commit is Some {
        Err(Error::AlreadyCommitted)
    } else {
        Ok(advanced(Game { p2_commit: Some(hash), ..g }))
    }
}

/// Outcome of a hands reveal by `player`, where `computed` is the digest of what is revealed.
pub open spec fn reveal_hands_result(
    g: Game,
    player: Identity,
    left: u32,
    right: u32,
    computed: Seq<u8>,
) -> Result<Game, Error> {
    if player != g.player1 && player != g.player2 {
        Err(Error::NotPlayer)
    } else if g.phase != PHASE_REVEAL_HANDS {
        Err(Error::WrongPhase)
    } else if !valid_hand(left) || !valid_hand(right) {
        Err(Error::InvalidHand)
    } else if left == right {
        Err(Error::HandsMustDiffer)
    } else if player == g.player1 {
        if g.p1_left is Some {
            Err(Error::AlreadyCommitted)
        } else if computed != g.p1_commit->0@ {
            Err(Error::HashMismatch)
        } else {
            Ok(advanced(Game { p1_left: Some(left), p1_right: Some(right), ..g }))
        }
    } else if g.p2_left is Some {
        Err(Error::AlreadyCommitted)
    } else if computed != g.p2_commit->0@ {
        Err(Error::HashMismatch)
    } else {
        Ok(advanced(Game { p2_left: Some(left), p2_right: Some(right), ..g }))
    }
}

/// Outcome of a choice commitment by `player`.
pub open spec fn commit_choice_result(g: Game, player: Identity, hash: [u8; 32]) -> Result<
    Game,
    Error,
> {
    if player != g.player1 && player != g.player2 {
        Err(Error::NotPlayer)
    } else if g.phase != PHASE_COMMIT_CHOICE {
        Err(Error::WrongPhase)
    } else if player == g.player1 {
        if g.p1_choice_commit is Some {
            Err(Error::AlreadyCommitted)
        } else {
            Ok(advanced(Game { p1_choice_commit: Some(hash), ..g }))
        }
    } else if g.p2_choice_commit is Some {
        Err(Error::AlreadyCommitted)
    } else {
        Ok(advanced(Game { p2_choice_commit: Some(hash), ..g }))
    }
}

/// The hand that choice index `choice` (0 for left, 1 for right) keeps.
pub open spec fn picked(choice: u32, left: Option<u32>, right: Option<u32>) -> Option<u32> {
    if choice == 0 {
        left
    } else {
        right
    }
}

/// Outcome of a choice reveal by `player`, where `computed` is the digest of what is revealed.
pub open spec fn reveal_choice_result(
    g: Game,
    player: Identity,
    choice: u32,
    computed: Seq<u8>,
) -> Result<Game, Error> {
    if player != g.player1 && player != g.player2 {
        Err(Error::NotPlayer)
    } else if g.phase != PHASE_REVEAL_CHOICE {
        Err(Error::WrongPhase)
    } else if choice > 1 {
        Err(Error::InvalidChoice)
    } else if player == g.player1 {
        if g.p1_kept is Some {
            Err(Error::AlreadyCommitted)
        } else if computed != g.p1_choice_commit->0@ {
            Err(Error::HashMismatch)
        } else {
            Ok(advanced(Game { p1_kept: picked(choice, g.p1_left, g.p1_right), ..g }))
        }
    } else if g.p2_kept is Some {
        Err(Error::AlreadyCommitted)
    } else if computed != g.p2_choice_commit->0@ {
        Err(Error::HashMismatch)
    } else {
        Ok(advanced(Game { p2_kept: picked(choice, g.p2_left, g.p2_right), ..g }))
    }
}

/// `after` and `r` are what an operation with the given expected outcome leaves: the new
/// record on success, the old one untouched and the error on failure.
pub open spec fn applied(before: Game, after: Game, r: Result<(), Error>, expected: Result<
    Game,
    Error,
>) -> bool {
    match expected {
        Ok(g) => r is Ok && after == g,
        Err(e) => r == Err::<(), Error>(e) && after == before,
    }
}

/// Executable check of `party_wf`.
fn party_is_wf(
    phase: u32,
    commit: Option<[u8; 32]>,
    left: Option<u32>,
    right: Option<u32>,
    choice_commit: Option<[u8; 32]>,
    kept: Option<u32>,
) -> (r: bool)
    ensures
        r == party_wf(phase, commit, left, right, choice_commit, kept),
{
    if phase >= PHASE_REVEAL_HANDS && commit.is_none() {
        return false;
    }
    if phase >= PHASE_COMMIT_CHOICE && left.is_none() {
        return false;
    }
    if phase <= PHASE_COMMIT_HANDS && left.is_some() {
        return false;
    }
    if left.is_some() != right.is_some() {
        return false;
    }
    if let (Some(l), Some(rt)) = (left, right) {
        if commit.is_none() || l > SCISSORS || rt > SCISSORS || l == rt {
            return false;
        }
    }
    if phase >= PHASE_REVEAL_CHOICE && choice_commit.is_none() {
        return false;
    }
    if phase <= PHASE_REVEAL_HANDS && choice_commit.is_some() {
        return false;
    }
    if phase >= PHASE_COMPLETE && kept.is_none() {
        return false;
    }
    if phase <= PHASE_COMMIT_CHOICE && kept.is_some() {
        return false;
    }
    if let Some(k) = kept {
        let is_left = match left {
            Some(l) => l == k,
            None => false,
        };
        let is_right = match right {
            Some(rt) => rt == k,
            None => false,
        };
        if !is_left && !is_right {
            return false;
        }
    }
    true
}

impl Game {
    /// Whether the record satisfies its invariant, for records that come from elsewhere
    /// (a decoded ledger entry) before they are handed to a transition.
    pub fn is_wf(&self) -> (r: bool)
        ensures
            r == self.wf(),
    {
        if self.phase < PHASE_COMMIT_HANDS || self.phase > PHASE_COMPLETE {
            return false;
        }
        if self.player1 == self.player2 {
            return false;
        }
        if !party_is_wf(
            self.phase,
            self.p1_commit,
            self.p1_left,
            self.p1_right,
            self.p1_choice_commit,
            self.p1_kept,
        ) {
            return false;
        }
        if !party_is_wf(
            self.phase,
            self.p2_commit,
            self.p2_left,
            self.p2_right,
            self.p2_choice_commit,
            self.p2_kept,
        ) {
            return false;
        }
        if self.phase == PHASE_COMMIT_HANDS && self.p1_commit.is_some()
            && self.p2_commit.is_some() {
            return false;
        }
        if self.phase == PHASE_REVEAL_HANDS && self.p1_left.is_some() && self.p2_left.is_some() {
            return false;
        }
        if self.phase == PHASE_COMMIT_CHOICE && self.p1_choice_commit.is_some()
            && self.p2_choice_commit.is_some() {
            return false;
        }
        if self.phase == PHASE_REVEAL_CHOICE && self.p1_kept.is_some() && self.p2_kept.is_some() {
            return false;
        }
        if self.winner.is_some() != (self.phase == PHASE_COMPLETE) {
            return false;
        }
        if self.phase == PHASE_COMPLETE {
            return match (self.p1_kept, self.p2_kept, self.winner) {
                (Some(h1), Some(h2), Some(w)) => w == if resolve(h1, h2) {
                    self.player1
                } else {
                    self.player2
                },
                _ => false,
            };
        }
        true
    }

    /// The record's invariant.
    pub open spec fn wf(&self) -> bool {
        &&& PHASE_COMMIT_HANDS <= self.phase <= PHASE_COMPLETE
        &&& self.player1 != self.player2
        &&& party_wf(
            self.phase,
            self.p1_commit,
            self.p1_left,
            self.p1_right,
            self.p1_choice_commit,
            self.p1_kept,
        )
        &&& party_wf(
            self.phase,
            self.p2_commit,
            self.p2_left,
            self.p2_right,
            self.p2_choice_commit,
            self.p2_kept,
        )
        &&& self.phase == PHASE_COMMIT_HANDS ==> !(self.p1_commit is Some
            && self.p2_commit is Some)
        &&& self.phase == PHASE_REVEAL_HANDS ==> !(self.p1_left is Some && self.p2_left is Some)
        &&& self.phase == PHASE_COMMIT_CHOICE ==> !(self.p1_choice_commit is Some
            && self.p2_choice_commit is Some)
        &&& self.phase == PHASE_REVEAL_CHOICE ==> !(self.p1_kept is Some && self.p2_kept is Some)
        &&& self.winner is Some <==> self.phase == PHASE_COMPLETE
        &&& self.phase == PHASE_COMPLETE ==> self.winner == Some(duel_winner(*self))
    }

    /// A new session between two distinct parties, waiting for both hands commitments.
    pub fn new(player1: Identity, player2: Identity, player1_points: i128, player2_points: i128) -> (r: Game)
        requires
            player1 != player2,
        ensures
            r == fresh_game(player1, player2, player1_points, player2_points),
            r.wf(),
    {
        Game {
            player1,
            player2,
            player1_points,
            player2_points,
            phase: PHASE_COMMIT_HANDS,
            p1_commit: None,
            p2_commit: None,
            p1_left: None,
            p1_right: None,
            p2_left: None,
            p2_right: None,
            p1_choice_commit: None,
            p2_choice_commit: None,
            p1_kept: None,
            p2_kept: None,
            winner: None,
        }
    }

    /// Records `player`'s hands commitment, moving on to the reveal once both have committed.
    pub fn apply_commit_hands(&mut self, player: &Identity, hands_hash: [u8; 32]) -> (r: Result<
        (),
        Error,
    >)
        requires
            old(self).wf(),
        ensures
            final(self).wf(),
            applied(*old(self), *final(self), r, commit_hands_result(*old(self), *player, hands_hash)),
    {
        let is_p1 = *player == self.player1;
        let is_p2 = *player == self.player2;
        if !is_p1 && !is_p2 {
            return Err(Error::NotPlayer);
        }
        if self.phase != PHASE_COMMIT_HANDS {
            return Err(Error::WrongPhase);
        }
        if is_p1 {
            if self.p1_commit.is_some() {
                return Err(Error::AlreadyCommitted);
            }
            self.p1_commit = Some(hands_hash);
        } else {
            if self.p2_commit.is_some() {
                return Err(Error::AlreadyCommitted);
            }
            self.p2_commit = Some(hands_hash);
        }
        if self.p1_commit.is_some() && self.p2_commit.is_some() {
            self.phase = PHASE_REVEAL_HANDS;
        }
        Ok(())
    }

    /// Records `player`'s revealed hands when `computed`, the digest of `left ‖ right ‖ salt`,
    /// equals the party's hands commitment; moves on once both have revealed.
    pub fn apply_reveal_hands(
        &mut self,
        player: &Identity,
        left: u32,
        right: u32,
        computed: &[u8; 32],
    ) -> (r: Result<(), Error>)
        requires
            old(self).wf(),
        ensures
            final(self).wf(),
            applied(
                *old(self),
                *final(self),
                r,
                reveal_hands_result(*old(self), *player, left, right, computed@),
            ),
    {
        let is_p1 = *player == self.player1;
        let is_p2 = *player == self.player2;
        if !is_p1 && !is_p2 {
            return Err(Error::NotPlayer);
        }
        if self.phase != PHASE_REVEAL_HANDS {
            return Err(Error::WrongPhase);
        }
        if left > SCISSORS || right > SCISSORS {
            return Err(Error::InvalidHand);
        }
        if left == right {
            return Err(Error::HandsMustDiffer);
        }
        if is_p1 {
            if self.p1_left.is_some() {
                return Err(Error::AlreadyCommitted);
            }
            let commit = self.p1_commit.unwrap();
            if !digest_eq(computed, &commit) {
                return Err(Error::HashMismatch);
            }
            self.p1_left = Some(left);
            self.p1_right = Some(right);
        } else {
            if self.p2_left.is_some() {
                return Err(Error::AlreadyCommitted);
            }
            let commit = self.p2_commit.unwrap();
            if !digest_eq(computed, &commit) {
                return Err(Error::HashMismatch);
            }
            self.p2_left = Some(left);
            self.p2_right = Some(right);
        }
        if self.p1_left.is_some() && self.p2_left.is_some() {
            self.phase = PHASE_COMMIT_CHOICE;
        }
        Ok(())
    }

    /// Records `player`'s choice commitment, moving on to the reveal once both have committed.
    pub fn apply_commit_choice(&mut self, player: &Identity, choice_hash: [u8; 32]) -> (r: Result<
        (),
        Error,
    >)
        requires
            old(self).wf(),
        ensures
            final(self).wf(),
            applied(*old(self), *final(self), r, commit_choice_result(*old(self), *player, choice_hash)),
    {
        let is_p1 = *player == self.player1;
        let is_p2 = *player == self.player2;
        if !is_p1 && !is_p2 {
            return Err(Error::NotPlayer);
        }
        if self.phase != PHASE_COMMIT_CHOICE {
            return Err(Error::WrongPhase);
        }
        if is_p1 {
            if self.p1_choice_commit.is_some() {
                return Err(Error::AlreadyCommitted);
            }
            self.p1_choice_commit = Some(choice_hash);
        } else {
            if self.p2_choice_commit.is_some() {
                return Err(Error::AlreadyCommitted);
            }
            self.p2_choice_commit = Some(choice_hash);
        }
        if self.p1_choice_commit.is_some() && self.p2_choice_commit.is_some() {
            self.phase = PHASE_REVEAL_CHOICE;
        }
        Ok(())
    }

    /// Records the hand that `player` keeps when `computed`, the digest of `choice ‖ salt`,
    /// equals the party's choice commitment. Once both have kept a hand, resolves the duel,
    /// records the winner and completes the session.
    pub fn apply_reveal_choice(&mut self, player: &Identity, choice_index: u32, computed: &[u8; 32]) -> (r: Result<
        (),
        Error,
    >)
        requires
            old(self).wf(),
        ensures
            final(self).wf(),
            applied(
                *old(self),
                *final(self),
                r,
                reveal_choice_result(*old(self), *player, choice_index, computed@),
            ),
    {
        let is_p1 = *player == self.player1;
        let is_p2 = *player == self.player2;
        if !is_p1 && !is_p2 {
            return Err(Error::NotPlayer);
        }
        if self.phase != PHASE_REVEAL_CHOICE {
            return Err(Error::WrongPhase);
        }
        if choice_index > 1 {
            return Err(Error::InvalidChoice);
        }
        if is_p1 {
            if self.p1_kept.is_some() {
                return Err(Error::AlreadyCommitted);
            }
            let commit = self.p1_choice_commit.unwrap();
            if !digest_eq(computed, &commit) {
                return Err(Error::HashMismatch);
            }
            self.p1_kept = if choice_index == 0 {
                self.p1_left
            } else {
                self.p1_right
            };
        } else {
            if self.p2_kept.is_some() {
                return Err(Error::AlreadyCommitted);
            }
            let commit = self.p2_choice_commit.unwrap();
            if !digest_eq(computed, &commit) {
                return Err(Error::HashMismatch);
            }
            self.p2_kept = if choice_index == 0 {
                self.p2_left
            } else {
                self.p2_right
            };
        }
        if let (Some(h1), Some(h2)) = (self.p1_kept, self.p2_kept) {
            let player1_won = resolve(h1, h2);
            self.winner = Some(if player1_won { self.player1 } else { self.player2 });
            self.phase = PHASE_COMPLETE;
        }
        Ok(())
    }
}

/// The phase advances by at most one, and only forward.
pub open spec fn phase_steps(before: Game, after: Game) -> bool {
    before.phase <= after.phase <= before.phase + 1
}

/// `after` is what one operation by any caller, with any payload, can leave of `before`:
/// the record itself when the operation fails, or the outcome of one that succeeds.
pub open spec fn step(before: Game, after: Game) -> bool {
    ||| after == before
    ||| exists|p: Identity, h: [u8; 32]| commit_hands_result(before, p, h) == Ok::<Game, Error>(after)
    ||| exists|p: Identity, l: u32, r: u32, c: Seq<u8>|
        reveal_hands_result(before, p, l, r, c) == Ok::<Game, Error>(after)
    ||| exists|p: Identity, h: [u8; 32]| commit_choice_result(before, p, h) == Ok::<Game, Error>(after)
    ||| exists|p: Identity, i: u32, c: Seq<u8>|
        reveal_choice_result(before, p, i, c) == Ok::<Game, Error>(after)
}

/// Each operation that succeeds on a well-formed record leaves a well-formed record, one
/// phase further at most.
pub proof fn lemma_step_preserves(before: Game, after: Game)
    requires
        before.wf(),
        step(before, after),
    ensures
        after.wf(),
        phase_steps(before, after),
{
    if after == before {
    } else if exists|p: Identity, h: [u8; 32]| commit_hands_result(before, p, h) == Ok::<Game, Error>(after) {
        let (p, h) = choose|p: Identity, h: [u8; 32]| commit_hands_result(before, p, h) == Ok::<Game, Error>(after);
    } else if exists|p: Identity, l: u32, r: u32, c: Seq<u8>|
        reveal_hands_result(before, p, l, r, c) == Ok::<Game, Error>(after) {
        let (p, l, r, c) = choose|p: Identity, l: u32, r: u32, c: Seq<u8>|
            reveal_hands_result(before, p, l, r, c) == Ok::<Game, Error>(after);
    } else if exists|p: Identity, h: [u8; 32]| commit_choice_result(before, p, h) == Ok::<Game, Error>(after) {
        let (p, h) = choose|p: Identity, h: [u8; 32]| commit_choice_result(before, p, h) == Ok::<Game, Error>(after);
    } else {
        let (p, i, c) = choose|p: Identity, i: u32, c: Seq<u8>|
            reveal_choice_result(before, p, i, c) == Ok::<Game, Error>(after);
    }
}

/// Over any run of operations on a well-formed session the phase never decreases, every
/// record stays well formed, and the session is complete only once both parties have kept
/// a hand.
pub proof fn lemma_phase_monotone(run: Seq<Game>)
    requires
        run.len() > 0,
        run[0].wf(),
        forall|i: int| 0 <= i < run.len() - 1 ==> step(#[trigger] run[i], run[i + 1]),
    ensures
        forall|i: int, j: int| 0 <= i <= j < run.len() ==> #[trigger] run[i].phase <= #[trigger] run[j].phase,
        forall|i: int| 0 <= i < run.len() ==> (#[trigger] run[i]).wf(),
        forall|i: int|
            0 <= i < run.len() && (#[trigger] run[i]).phase == PHASE_COMPLETE ==> run[i].p1_kept is Some
                && run[i].p2_kept is Some,
    decreases run.len(),
{
    let n = run.len() as int;
    if n > 1 {
        let prefix = run.drop_last();
        assert forall|i: int| 0 <= i < prefix.len() - 1 implies step(#[trigger] prefix[i], prefix[i + 1]) by {
            assert(step(run[i], run[i + 1]));
        }
        lemma_phase_monotone(prefix);
        assert(prefix[n - 2] == run[n - 2]);
        assert(step(run[n - 2], run[n - 1]));
        lemma_step_preserves(run[n - 2], run[n - 1]);
        assert forall|i: int, j: int| 0 <= i <= j < n implies #[trigger] run[i].phase <= #[trigger] run[j].phase by {
            if j < n - 1 {
                assert(prefix[i] == run[i] && prefix[j] == run[j]);
            } else if i < n - 1 {
                assert(prefix[i] == run[i]);
                assert(prefix[i].phase <= prefix[n - 2].phase);
            }
        }
        assert forall|i: int| 0 <= i < n implies (#[trigger] run[i]).wf() by {
            if i < n - 1 {
                assert(prefix[i] == run[i]);
            }
        }
    }
}

/// Two equal hands are never accepted: a party revealing them in the reveal phase gets
/// `HandsMustDiffer` (or `InvalidHand` outside the three hands), whatever digest it presents.
pub proof fn lemma_equal_hands_rejected(g: Game, player: Identity, hand: u32, computed: Seq<u8>)
    ensures
        reveal_hands_result(g, player, hand, hand, computed) is Err,
        (player == g.player1 || player == g.player2) && g.phase == PHASE_REVEAL_HANDS ==> {
            reveal_hands_result(g, player, hand, hand, computed) == Err::<Game, Error>(
                if valid_hand(hand) {
                    Error::HandsMustDiffer
                } else {
                    Error::InvalidHand
                },
            )
        },
{
}

/// A reveal whose recomputed digest differs from the party's commitment fails with
/// `HashMismatch`; the record is then left as it was.
pub proof fn lemma_mismatch_rejected(
    g: Game,
    player: Identity,
    left: u32,
    right: u32,
    choice: u32,
    computed: Seq<u8>,
)
    requires
        g.wf(),
        player == g.player1 || player == g.player2,
    ensures
        g.phase == PHASE_REVEAL_HANDS && valid_hand(left) && valid_hand(right) && left != right
            && (player == g.player1 ==> g.p1_left is None && computed != g.p1_commit->0@) && (
        player == g.player2 ==> g.p2_left is None && computed != g.p2_commit->0@)
            ==> reveal_hands_result(g, player, left, right, computed) == Err::<Game, Error>(
            Error::HashMismatch,
        ),
        g.phase == PHASE_REVEAL_CHOICE && choice <= 1 && (player == g.player1 ==> g.p1_kept is None
            && computed != g.p1_choice_commit->0@) && (player == g.player2 ==> g.p2_kept is None
            && computed != g.p2_choice_commit->0@) ==> reveal_choice_result(g, player, choice, computed)
            == Err::<Game, Error>(Error::HashMismatch),
{
}

/// A second submission by the same party never succeeds; while the phase has not moved
/// on it fails with `AlreadyCommitted`.
pub proof fn lemma_double_submission_rejected(
    g: Game,
    player: Identity,
    hash: [u8; 32],
    left: u32,
    right: u32,
    choice: u32,
    computed: Seq<u8>,
)
    requires
        g.wf(),
        player == g.player1 || player == g.player2,
    ensures
        (if player == g.player1 { g.p1_commit } else { g.p2_commit }) is Some ==> {
            &&& commit_hands_result(g, player, hash) is Err
            &&& g.phase == PHASE_COMMIT_HANDS ==> commit_hands_result(g, player, hash)
                == Err::<Game, Error>(Error::AlreadyCommitted)
        },
        (if player == g.player1 { g.p1_left } else { g.p2_left }) is Some ==> {
            &&& reveal_hands_result(g, player, left, right, computed) is Err
            &&& g.phase == PHASE_REVEAL_HANDS && valid_hand(left) && valid_hand(right) && left
                != right ==> reveal_hands_result(g, player, left, right, computed)
                == Err::<Game, Error>(Error::AlreadyCommitted)
        },
        (if player == g.player1 { g.p1_choice_commit } else { g.p2_choice_commit }) is Some ==> {
            &&& commit_choice_result(g, player, hash) is Err
            &&& g.phase == PHASE_COMMIT_CHOICE ==> commit_choice_result(g, player, hash)
                == Err::<Game, Error>(Error::AlreadyCommitted)
        },
        (if player == g.player1 { g.p1_kept } else { g.p2_kept }) is Some ==> {
            &&& reveal_choice_result(g, player, choice, computed) is Err
            &&& g.phase == PHASE_REVEAL_CHOICE && choice <= 1 ==> reveal_choice_result(
                g,
                player,
                choice,
                computed,
            ) == Err::<Game, Error>(Error::AlreadyCommitted)
        },
{
}

/// An identity that is neither party is refused with `NotPlayer` by every operation.
pub proof fn lemma_outsider_rejected(
    g: Game,
    outsider: Identity,
    hash: [u8; 32],
    left: u32,
    right: u32,
    choice: u32,
    computed: Seq<u8>,
)
    requires
        outsider != g.player1,
        outsider != g.player2,
    ensures
        commit_hands_result(g, outsider, hash) == Err::<Game, Error>(Error::NotPlayer),
        reveal_hands_result(g, outsider, left, right, computed) == Err::<Game, Error>(
            Error::NotPlayer,
        ),
        commit_choice_result(g, outsider, hash) == Err::<Game, Error>(Error::NotPlayer),
        reveal_choice_result(g, outsider, choice, computed) == Err::<Game, Error>(
            Error::NotPlayer,
        ),
{
}

} // verus!

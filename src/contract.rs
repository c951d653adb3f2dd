//! The session store and the entry points that drive each session through its phases.

use vstd::prelude::*;
use std::collections::HashMap;
use soroban_sdk::Env;
use crate::codec::{choice_digest, hands_digest, hash_choice, hash_hands};
use crate::game::{
    commit_choice_result, commit_hands_result, fresh_game, reveal_choice_result,
    reveal_hands_result, Error, Game, Identity,
};

verus! {

broadcast use vstd::std_specs::hash::group_hash_axioms;

/// Keys under which the contract's data is stored on the ledger.
#[derive(Clone, Copy, Debug, PartialEq, Eq, Structural)]
pub enum DataKey {
    Game(u32),
    GameHubAddress,
    Admin,
}

/// `after` and `r` are what an operation on session `id` leaves, given the outcome that
/// the operation has on the session's record: `GameNotFound` for an unknown session, the
/// updated record on success, the store untouched on failure.
pub open spec fn session_applied(
    before: Map<u32, Game>,
    after: Map<u32, Game>,
    id: u32,
    r: Result<(), Error>,
    expected: Result<Game, Error>,
) -> bool {
    if !before.contains_key(id) {
        r == Err::<(), Error>(Error::GameNotFound) && after == before
    } else {
        match expected {
            Ok(g) => r is Ok && after == before.insert(id, g),
            Err(e) => r == Err::<(), Error>(e) && after == before,
        }
    }
}

/// An operation on a session that the store does not hold fails with `GameNotFound` and
/// leaves the store as it was, whatever the operation and its payload.
pub proof fn lemma_unknown_session_rejected(
    before: Map<u32, Game>,
    after: Map<u32, Game>,
    id: u32,
    r: Result<(), Error>,
    expected: Result<Game, Error>,
)
    requires
        !before.contains_key(id),
        session_applied(before, after, id, r, expected),
    ensures
        r == Err::<(), Error>(Error::GameNotFound),
        after == before,
{
}

/// The game contract: its administrator, the registry it reports to, and one record per
/// session identifier.
pub struct CtmContract {
    admin: Identity,
    hub: Identity,
    games: HashMap<u32, Game>,
}

impl View for CtmContract {
    type V = Map<u32, Game>;

    closed spec fn view(&self) -> Map<u32, Game> {
        self.games@
    }
}

impl CtmContract {
    /// The administrator.
    pub closed spec fn admin_id(&self) -> Identity {
        self.admin
    }

    /// The session registry that is told when a session starts and ends.
    pub closed spec fn hub_id(&self) -> Identity {
        self.hub
    }

    /// Every stored record is well formed.
    pub open spec fn wf(&self) -> bool {
        forall|id: u32| #[trigger] self@.contains_key(id) ==> self@[id].wf()
    }

    /// A contract with no sessions, administered by `admin` and reporting to `game_hub`.
    pub fn new(admin: Identity, game_hub: Identity) -> (r: CtmContract)
        ensures
            r.wf(),
            r@ == Map::<u32, Game>::empty(),
            r.admin_id() == admin,
            r.hub_id() == game_hub,
    {
        CtmContract { admin, hub: game_hub, games: HashMap::new() }
    }

    /// Creates session `session_id` between two distinct parties, in the hands-commit phase;
    /// an identifier that is already stored is refused with `GameAlreadyExists`. Locking the
    /// stakes with the registry is the caller's part.
    pub fn start_game(
        &mut self,
        session_id: u32,
        player1: Identity,
        player2: Identity,
        player1_points: i128,
        player2_points: i128,
    ) -> (r: Result<(), Error>)
        requires
            old(self).wf(),
            player1 != player2,
        ensures
            final(self).wf(),
            old(self)@.contains_key(session_id) ==> r == Err::<(), Error>(Error::GameAlreadyExists)
                && final(self)@ == old(self)@,
            !old(self)@.contains_key(session_id) ==> r is Ok && final(self)@ == old(self)@.insert(
                session_id,
                fresh_game(player1, player2, player1_points, player2_points),
            ),
            final(self).admin_id() == old(self).admin_id(),
            final(self).hub_id() == old(self).hub_id(),
    {
        if self.games.contains_key(&session_id) {
            return Err(Error::GameAlreadyExists);
        }
        let game = Game::new(player1, player2, player1_points, player2_points);
        self.games.insert(session_id, game);
        proof {
            assert forall|id: u32| #[trigger] self@.contains_key(id) implies self@[id].wf() by {
                if id != session_id {
                    assert(old(self)@.contains_key(id));
                }
            }
        }
        Ok(())
    }

    /// Phase 1: `player` commits to two hands with `hands_hash`, the Keccak-256 digest of
    /// `left ‖ right ‖ salt`.
    pub fn commit_hands(&mut self, session_id: u32, player: Identity, hands_hash: [u8; 32]) -> (r:
        Result<(), Error>)
        requires
            old(self).wf(),
        ensures
            final(self).wf(),
            session_applied(
                old(self)@,
                final(self)@,
                session_id,
                r,
                commit_hands_result(old(self)@[session_id], player, hands_hash),
            ),
            final(self).admin_id() == old(self).admin_id(),
            final(self).hub_id() == old(self).hub_id(),
    {
        let mut game = match self.games.get(&session_id) {
            Some(g) => *g,
            None => return Err(Error::GameNotFound),
        };
        let r = game.apply_commit_hands(&player, hands_hash);
        if r.is_ok() {
            self.games.insert(session_id, game);
        }
        r
    }

    /// Phase 2: `player` reveals the two hands and the salt of its commitment; the digest
    /// is recomputed and must match.
    pub fn reveal_hands(
        &mut self,
        env: &Env,
        session_id: u32,
        player: Identity,
        left_hand: u32,
        right_hand: u32,
        salt: [u8; 32],
    ) -> (r: Result<(), Error>)
        requires
            old(self).wf(),
        ensures
            final(self).wf(),
            session_applied(
                old(self)@,
                final(self)@,
                session_id,
                r,
                reveal_hands_result(
                    old(self)@[session_id],
                    player,
                    left_hand,
                    right_hand,
                    hands_digest(left_hand, right_hand, salt@),
                ),
            ),
            final(self).admin_id() == old(self).admin_id(),
            final(self).hub_id() == old(self).hub_id(),
    {
        let mut game = match self.games.get(&session_id) {
            Some(g) => *g,
            None => return Err(Error::GameNotFound),
        };
        let computed = hash_hands(env, left_hand, right_hand, &salt);
        let r = game.apply_reveal_hands(&player, left_hand, right_hand, &computed);
        if r.is_ok() {
            self.games.insert(session_id, game);
        }
        r
    }

    /// Phase 3: `player` commits to the hand it keeps with `choice_hash`, the Keccak-256
    /// digest of `choice_index ‖ salt`.
    pub fn commit_choice(&mut self, session_id: u32, player: Identity, choice_hash: [u8; 32]) -> (r:
        Result<(), Error>)
        requires
            old(self).wf(),
        ensures
            final(self).wf(),
            session_applied(
                old(self)@,
                final(self)@,
                session_id,
                r,
                commit_choice_result(old(self)@[session_id], player, choice_hash),
            ),
            final(self).admin_id() == old(self).admin_id(),
            final(self).hub_id() == old(self).hub_id(),
    {
        let mut game = match self.games.get(&session_id) {
            Some(g) => *g,
            None => return Err(Error::GameNotFound),
        };
        let r = game.apply_commit_choice(&player, choice_hash);
        if r.is_ok() {
            self.games.insert(session_id, game);
        }
        r
    }

    /// Phase 4: `player` reveals the kept index and its salt; the digest is recomputed and
    /// must match. The second reveal resolves the duel and completes the session; reporting
    /// the result to the registry is the caller's part.
    pub fn reveal_choice(
        &mut self,
        env: &Env,
        session_id: u32,
        player: Identity,
        choice_index: u32,
        salt: [u8; 32],
    ) -> (r: Result<(), Error>)
        requires
            old(self).wf(),
        ensures
            final(self).wf(),
            session_applied(
                old(self)@,
                final(self)@,
                session_id,
                r,
                reveal_choice_result(
                    old(self)@[session_id],
                    player,
                    choice_index,
                    choice_digest(choice_index, salt@),
                ),
            ),
            final(self).admin_id() == old(self).admin_id(),
            final(self).hub_id() == old(self).hub_id(),
    {
        let mut game = match self.games.get(&session_id) {
            Some(g) => *g,
            None => return Err(Error::GameNotFound),
        };
        let computed = hash_choice(env, choice_index, &salt);
        let r = game.apply_reveal_choice(&player, choice_index, &computed);
        if r.is_ok() {
            self.games.insert(session_id, game);
        }
        r
    }

    /// The current record of session `session_id`.
    pub fn get_game(&self, session_id: u32) -> (r: Result<Game, Error>)
        ensures
            self@.contains_key(session_id) ==> r == Ok::<Game, Error>(self@[session_id]),
            !self@.contains_key(session_id) ==> r == Err::<Game, Error>(Error::GameNotFound),
    {
        match self.games.get(&session_id) {
            Some(g) => Ok(*g),
            None => Err(Error::GameNotFound),
        }
    }

    /// The administrator.
    pub fn get_admin(&self) -> (r: Identity)
        ensures
            r == self.admin_id(),
    {
        self.admin
    }

    /// Replaces the administrator; the current administrator's consent is the caller's part.
    pub fn set_admin(&mut self, new_admin: Identity)
        ensures
            final(self).admin_id() == new_admin,
            final(self).hub_id() == old(self).hub_id(),
            final(self)@ == old(self)@,
    {
        self.admin = new_admin;
    }

    /// The session registry.
    pub fn get_hub(&self) -> (r: Identity)
        ensures
            r == self.hub_id(),
    {
        self.hub
    }

    /// Replaces the session registry; the administrator's consent is the caller's part.
    pub fn set_hub(&mut self, new_hub: Identity)
        ensures
            final(self).hub_id() == new_hub,
            final(self).admin_id() == old(self).admin_id(),
            final(self)@ == old(self)@,
    {
        self.hub = new_hub;
    }
}

} // verus!

use ctm::codec::{build_choice_preimage, build_hands_preimage, digest_eq, hash_choice, hash_hands};
use ctm::contract::CtmContract;
use ctm::game::{Error, Game, Identity};
use ctm::outcome::{resolve, rps_beats};
use soroban_sdk::{Bytes, Env};

fn party(byte: u8) -> Identity {
    Identity { is_contract: false, key: [byte; 32] }
}

fn keccak(env: &Env, data: &[u8]) -> [u8; 32] {
    env.crypto().keccak256(&Bytes::from_slice(env, data)).to_array()
}

fn started(session: u32) -> (Env, CtmContract, Identity, Identity) {
    let env = Env::default();
    let mut c = CtmContract::new(party(0xAA), Identity { is_contract: true, key: [0xBB; 32] });
    let p1 = party(1);
    let p2 = party(2);
    c.start_game(session, p1, p2, 10, 20).unwrap();
    (env, c, p1, p2)
}

/// Brings a session to the reveal-choice phase with the given hands, both parties keeping
/// the given indices under salt `[7; 32]`.
fn to_reveal_choice(
    env: &Env,
    c: &mut CtmContract,
    s: u32,
    p1: Identity,
    p2: Identity,
    hands: (u32, u32, u32, u32),
    choices: (u32, u32),
) {
    let salt = [5u8; 32];
    c.commit_hands(s, p1, hash_hands(env, hands.0, hands.1, &salt)).unwrap();
    c.commit_hands(s, p2, hash_hands(env, hands.2, hands.3, &salt)).unwrap();
    c.reveal_hands(env, s, p1, hands.0, hands.1, salt).unwrap();
    c.reveal_hands(env, s, p2, hands.2, hands.3, salt).unwrap();
    let csalt = [7u8; 32];
    c.commit_choice(s, p1, hash_choice(env, choices.0, &csalt)).unwrap();
    c.commit_choice(s, p2, hash_choice(env, choices.1, &csalt)).unwrap();
}

#[test]
fn resolver_tie_goes_to_first_party() {
    for v in 0..3u32 {
        assert!(resolve(v, v));
        assert!(!rps_beats(v, v));
    }
}

#[test]
fn resolver_dominance_table() {
    assert!(!resolve(0, 1));
    assert!(resolve(0, 2));
    assert!(resolve(1, 0));
    assert!(!resolve(1, 2));
    assert!(!resolve(2, 0));
    assert!(resolve(2, 1));
    assert!(rps_beats(0, 2) && rps_beats(1, 0) && rps_beats(2, 1));
    assert!(!rps_beats(2, 0) && !rps_beats(0, 1) && !rps_beats(1, 2));
    assert!(!rps_beats(3, 1) && !rps_beats(0, 5));
}

#[test]
fn preimages_have_the_fixed_layout() {
    let mut salt = [0u8; 32];
    for (i, b) in salt.iter_mut().enumerate() {
        *b = i as u8;
    }
    let hands = build_hands_preimage(2, 1, &salt);
    assert_eq!(hands.len(), 34);
    assert_eq!(hands[0], 2);
    assert_eq!(hands[1], 1);
    assert_eq!(&hands[2..], &salt[..]);
    let choice = build_choice_preimage(1, &salt);
    assert_eq!(choice.len(), 33);
    assert_eq!(choice[0], 1);
    assert_eq!(&choice[1..], &salt[..]);
}

#[test]
fn digests_are_keccak_of_the_preimage() {
    let env = Env::default();
    let salt = [42u8; 32];
    let mut pre = vec![0u8, 1u8];
    pre.extend_from_slice(&salt);
    assert_eq!(hash_hands(&env, 0, 1, &salt), keccak(&env, &pre));
    let mut cpre = vec![1u8];
    cpre.extend_from_slice(&salt);
    assert_eq!(hash_choice(&env, 1, &salt), keccak(&env, &cpre));
    assert_ne!(hash_choice(&env, 1, &salt), salt);
}

#[test]
fn digests_are_deterministic_and_sensitive_to_each_input() {
    let env = Env::default();
    let salt = [42u8; 32];
    let base = hash_hands(&env, 0, 1, &salt);
    assert_eq!(base, hash_hands(&env, 0, 1, &salt));
    assert_ne!(base, hash_hands(&env, 1, 0, &salt));
    assert_ne!(base, hash_hands(&env, 2, 1, &salt));
    assert_ne!(base, hash_hands(&env, 0, 2, &salt));
    for i in 0..32 {
        let mut other = salt;
        other[i] ^= 1;
        assert_ne!(base, hash_hands(&env, 0, 1, &other));
    }
    let c0 = hash_choice(&env, 0, &salt);
    assert_eq!(c0, hash_choice(&env, 0, &salt));
    assert_ne!(c0, hash_choice(&env, 1, &salt));
    let mut other = salt;
    other[31] = 0;
    assert_ne!(c0, hash_choice(&env, 0, &other));
}

#[test]
fn digest_comparison() {
    let a = [3u8; 32];
    let mut b = a;
    assert!(digest_eq(&a, &b));
    b[17] = 4;
    assert!(!digest_eq(&a, &b));
}

#[test]
fn equal_hands_rejected_for_every_hand() {
    let (env, mut c, p1, p2) = started(1);
    let salt = [1u8; 32];
    c.commit_hands(1, p1, hash_hands(&env, 1, 1, &salt)).unwrap();
    c.commit_hands(1, p2, hash_hands(&env, 0, 2, &salt)).unwrap();
    for v in 0..3u32 {
        // with the matching digest and with a wrong one
        assert_eq!(c.reveal_hands(&env, 1, p1, v, v, salt), Err(Error::HandsMustDiffer));
        assert_eq!(c.reveal_hands(&env, 1, p1, v, v, [9u8; 32]), Err(Error::HandsMustDiffer));
    }
    let g = c.get_game(1).unwrap();
    assert_eq!(g.phase, 2);
    assert_eq!(g.p1_left, None);
}

#[test]
fn mismatch_leaves_record_unchanged() {
    let (env, mut c, p1, p2) = started(2);
    let salt = [1u8; 32];
    c.commit_hands(2, p1, hash_hands(&env, 0, 1, &salt)).unwrap();
    c.commit_hands(2, p2, hash_hands(&env, 2, 0, &salt)).unwrap();
    let before = c.get_game(2).unwrap();
    assert_eq!(c.reveal_hands(&env, 2, p1, 0, 1, [2u8; 32]), Err(Error::HashMismatch));
    assert_eq!(c.reveal_hands(&env, 2, p1, 1, 0, salt), Err(Error::HashMismatch));
    assert_eq!(c.get_game(2).unwrap(), before);
    assert_eq!(c.get_game(2).unwrap().p1_left, None);

    // and at the choice reveal
    let (env, mut c, p1, p2) = started(3);
    to_reveal_choice(&env, &mut c, 3, p1, p2, (0, 1, 2, 0), (0, 1));
    let before = c.get_game(3).unwrap();
    assert_eq!(c.reveal_choice(&env, 3, p1, 1, [7u8; 32]), Err(Error::HashMismatch));
    assert_eq!(c.reveal_choice(&env, 3, p2, 1, [8u8; 32]), Err(Error::HashMismatch));
    assert_eq!(c.get_game(3).unwrap(), before);
}

#[test]
fn double_submission_rejected_in_every_phase() {
    let (env, mut c, p1, p2) = started(4);
    let salt = [1u8; 32];
    let h1 = hash_hands(&env, 0, 1, &salt);
    c.commit_hands(4, p1, h1).unwrap();
    let before = c.get_game(4).unwrap();
    assert_eq!(c.commit_hands(4, p1, [0u8; 32]), Err(Error::AlreadyCommitted));
    assert_eq!(c.get_game(4).unwrap(), before);
    assert_eq!(before.p1_commit, Some(h1));

    c.commit_hands(4, p2, hash_hands(&env, 1, 2, &salt)).unwrap();
    c.reveal_hands(&env, 4, p1, 0, 1, salt).unwrap();
    let before = c.get_game(4).unwrap();
    assert_eq!(c.reveal_hands(&env, 4, p1, 0, 1, salt), Err(Error::AlreadyCommitted));
    assert_eq!(c.get_game(4).unwrap(), before);

    c.reveal_hands(&env, 4, p2, 1, 2, salt).unwrap();
    let csalt = [7u8; 32];
    c.commit_choice(4, p2, hash_choice(&env, 1, &csalt)).unwrap();
    let before = c.get_game(4).unwrap();
    assert_eq!(c.commit_choice(4, p2, hash_choice(&env, 0, &csalt)), Err(Error::AlreadyCommitted));
    assert_eq!(c.get_game(4).unwrap(), before);

    c.commit_choice(4, p1, hash_choice(&env, 0, &csalt)).unwrap();
    c.reveal_choice(&env, 4, p2, 1, csalt).unwrap();
    let before = c.get_game(4).unwrap();
    assert_eq!(c.reveal_choice(&env, 4, p2, 1, csalt), Err(Error::AlreadyCommitted));
    assert_eq!(c.get_game(4).unwrap(), before);
    assert_eq!(before.phase, 4);
    assert_eq!(before.p2_kept, Some(2));
    assert_eq!(before.winner, None);
}

#[test]
fn scenario_rock_beats_scissors() {
    let (env, mut c, p1, p2) = started(5);
    to_reveal_choice(&env, &mut c, 5, p1, p2, (0, 1, 2, 1), (0, 0));
    c.reveal_choice(&env, 5, p1, 0, [7u8; 32]).unwrap();
    c.reveal_choice(&env, 5, p2, 0, [7u8; 32]).unwrap();
    let g = c.get_game(5).unwrap();
    assert_eq!((g.p1_kept, g.p2_kept), (Some(0), Some(2)));
    assert_eq!(g.winner, Some(p1));
    assert_eq!(g.phase, 5);
}

#[test]
fn scenario_paper_tie_goes_to_first_party() {
    let (env, mut c, p1, p2) = started(6);
    to_reveal_choice(&env, &mut c, 6, p1, p2, (1, 2, 0, 1), (0, 1));
    c.reveal_choice(&env, 6, p2, 1, [7u8; 32]).unwrap();
    c.reveal_choice(&env, 6, p1, 0, [7u8; 32]).unwrap();
    let g = c.get_game(6).unwrap();
    assert_eq!((g.p1_kept, g.p2_kept), (Some(1), Some(1)));
    assert_eq!(g.winner, Some(p1));
    assert_eq!(g.phase, 5);
}

#[test]
fn unknown_session_and_outsider_rejected_everywhere() {
    let (env, mut c, p1, p2) = started(7);
    let salt = [1u8; 32];
    assert_eq!(c.commit_hands(99, p1, salt), Err(Error::GameNotFound));
    assert_eq!(c.reveal_hands(&env, 99, p1, 0, 1, salt), Err(Error::GameNotFound));
    assert_eq!(c.commit_choice(99, p1, salt), Err(Error::GameNotFound));
    assert_eq!(c.reveal_choice(&env, 99, p1, 0, salt), Err(Error::GameNotFound));
    assert_eq!(c.get_game(99), Err(Error::GameNotFound));

    let outsider = Identity { is_contract: true, key: [1u8; 32] };
    to_reveal_choice(&env, &mut c, 7, p1, p2, (0, 1, 2, 1), (0, 0));
    assert_eq!(c.commit_hands(7, outsider, salt), Err(Error::NotPlayer));
    assert_eq!(c.reveal_hands(&env, 7, outsider, 0, 1, salt), Err(Error::NotPlayer));
    assert_eq!(c.commit_choice(7, outsider, salt), Err(Error::NotPlayer));
    assert_eq!(c.reveal_choice(&env, 7, outsider, 0, [7u8; 32]), Err(Error::NotPlayer));
}

#[test]
fn completed_session_refuses_further_operations() {
    let (env, mut c, p1, p2) = started(8);
    to_reveal_choice(&env, &mut c, 8, p1, p2, (2, 0, 1, 2), (1, 0));
    c.reveal_choice(&env, 8, p1, 1, [7u8; 32]).unwrap();
    c.reveal_choice(&env, 8, p2, 0, [7u8; 32]).unwrap();
    let done = c.get_game(8).unwrap();
    // Rock (p1) against Paper (p2)
    assert_eq!(done.winner, Some(p2));
    assert_eq!(c.reveal_choice(&env, 8, p1, 1, [7u8; 32]), Err(Error::WrongPhase));
    assert_eq!(c.commit_hands(8, p1, [0u8; 32]), Err(Error::WrongPhase));
    assert_eq!(c.get_game(8).unwrap(), done);
}

#[test]
fn record_transitions_on_given_digests() {
    let p1 = party(1);
    let p2 = party(2);
    let mut g = Game::new(p1, p2, 5, 6);
    assert_eq!(g.phase, 1);
    g.apply_commit_hands(&p1, [1u8; 32]).unwrap();
    g.apply_commit_hands(&p2, [2u8; 32]).unwrap();
    assert_eq!(g.phase, 2);
    assert_eq!(g.apply_reveal_hands(&p1, 0, 1, &[2u8; 32]), Err(Error::HashMismatch));
    assert_eq!(g.apply_reveal_hands(&p1, 0, 3, &[1u8; 32]), Err(Error::InvalidHand));
    g.apply_reveal_hands(&p1, 0, 1, &[1u8; 32]).unwrap();
    g.apply_reveal_hands(&p2, 2, 1, &[2u8; 32]).unwrap();
    assert_eq!(g.phase, 3);
    g.apply_commit_choice(&p1, [3u8; 32]).unwrap();
    assert_eq!(g.apply_commit_choice(&p1, [3u8; 32]), Err(Error::AlreadyCommitted));
    g.apply_commit_choice(&p2, [4u8; 32]).unwrap();
    assert_eq!(g.phase, 4);
    assert_eq!(g.apply_reveal_choice(&p2, 0, &[3u8; 32]), Err(Error::HashMismatch));
    g.apply_reveal_choice(&p2, 1, &[4u8; 32]).unwrap();
    assert_eq!(g.winner, None);
    g.apply_reveal_choice(&p1, 0, &[3u8; 32]).unwrap();
    // Rock against Paper
    assert_eq!((g.p1_kept, g.p2_kept), (Some(0), Some(1)));
    assert_eq!(g.winner, Some(p2));
    assert_eq!(g.phase, 5);
}

#[test]
fn admin_and_hub_settings() {
    let mut c = CtmContract::new(party(0xAA), party(0xBB));
    assert_eq!(c.get_admin(), party(0xAA));
    assert_eq!(c.get_hub(), party(0xBB));
    c.set_admin(party(0xCC));
    c.set_hub(party(0xDD));
    assert_eq!(c.get_admin(), party(0xCC));
    assert_eq!(c.get_hub(), party(0xDD));
    assert_ne!(party(1), Identity { is_contract: true, key: [1u8; 32] });
}

#[test]
fn starting_a_stored_session_again_is_refused() {
    let (env, mut c, p1, p2) = started(9);
    let salt = [1u8; 32];
    c.commit_hands(9, p1, hash_hands(&env, 0, 1, &salt)).unwrap();
    c.commit_hands(9, p2, hash_hands(&env, 1, 2, &salt)).unwrap();
    let before = c.get_game(9).unwrap();
    assert_eq!(before.phase, 2);
    assert_eq!(c.start_game(9, p1, p2, 10, 20), Err(Error::GameAlreadyExists));
    assert_eq!(c.start_game(9, party(3), party(4), 1, 1), Err(Error::GameAlreadyExists));
    assert_eq!(c.get_game(9).unwrap(), before);
    // another identifier is still free
    assert_eq!(c.start_game(10, p1, p2, 10, 20), Ok(()));
    assert_eq!(c.get_game(10).unwrap().phase, 1);
}

#[test]
fn record_invariant_check() {
    let p1 = party(1);
    let p2 = party(2);
    let mut g = Game::new(p1, p2, 5, 6);
    assert!(g.is_wf());
    g.apply_commit_hands(&p1, [1u8; 32]).unwrap();
    assert!(g.is_wf());

    let mut bad = g;
    bad.phase = 2;
    assert!(!bad.is_wf());
    let mut bad = g;
    bad.phase = 0;
    assert!(!bad.is_wf());
    let mut bad = g;
    bad.player2 = p1;
    assert!(!bad.is_wf());
    let mut bad = g;
    bad.p1_left = Some(0);
    bad.p1_right = Some(1);
    assert!(!bad.is_wf());
    let mut bad = g;
    bad.winner = Some(p1);
    assert!(!bad.is_wf());

    let mut done = g;
    done.apply_commit_hands(&p2, [2u8; 32]).unwrap();
    done.apply_reveal_hands(&p1, 0, 1, &[1u8; 32]).unwrap();
    done.apply_reveal_hands(&p2, 2, 1, &[2u8; 32]).unwrap();
    done.apply_commit_choice(&p1, [3u8; 32]).unwrap();
    done.apply_commit_choice(&p2, [4u8; 32]).unwrap();
    done.apply_reveal_choice(&p1, 0, &[3u8; 32]).unwrap();
    done.apply_reveal_choice(&p2, 0, &[4u8; 32]).unwrap();
    assert!(done.is_wf());
    assert_eq!(done.winner, Some(p1));
    let mut bad = done;
    bad.winner = Some(p2);
    assert!(!bad.is_wf());
    let mut bad = done;
    bad.p2_kept = Some(0);
    assert!(!bad.is_wf());
    let mut bad = done;
    bad.p1_left = Some(1);
    assert!(!bad.is_wf());
}

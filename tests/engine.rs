use magink::{AccountId, BadgeClaimed, EraStarted, Error, Magink, NFTClaimed, Profile};

fn alice() -> AccountId {
    AccountId::from([0x01; 32])
}

fn bob() -> AccountId {
    AccountId::from([0x02; 32])
}

fn engine() -> Magink {
    let mut magink = Magink::new(AccountId::from([0x01; 32]));
    magink.set_caller(alice());
    magink
}

fn advance_n_blocks(magink: &mut Magink, n: u32) {
    for _ in 0..n {
        magink.advance_block();
    }
}

/// Starts an era of length 0 for the caller and claims nine badges, one per block.
fn nine_badges(magink: &mut Magink) {
    magink.start(0);
    for _ in 0..9 {
        assert!(magink.claim().is_ok());
        magink.advance_block();
    }
    assert_eq!(9, magink.get_badges());
}

#[test]
fn start_works() {
    let mut magink = engine();
    println!("get {:?}", magink.get_remaining());
    magink.start(10);
    assert_eq!(10, magink.get_remaining());
    magink.advance_block();
    assert_eq!(9, magink.get_remaining());
}

#[test]
fn claim_works() {
    const ERA: u32 = 10;
    let mut magink = engine();
    magink.start(ERA as u8);
    advance_n_blocks(&mut magink, ERA - 1);
    assert_eq!(1, magink.get_remaining());

    // claim fails, too early
    assert_eq!(Err(Error::TooEarlyToClaim), magink.claim());

    // claim succeeds
    magink.advance_block();
    assert_eq!(Ok(BadgeClaimed { account: alice(), claim_block: ERA }), magink.claim());
    assert_eq!(1, magink.get_badges());
    assert_eq!(1, magink.get_badges_for(alice()));
    assert_eq!(1, magink.get_badges());
    assert_eq!(10, magink.get_remaining());

    // claim fails, too early
    assert_eq!(Err(Error::TooEarlyToClaim), magink.claim());
    magink.advance_block();
    assert_eq!(9, magink.get_remaining());
    assert_eq!(Err(Error::TooEarlyToClaim), magink.claim());
}

#[test]
fn e2e_claiming_badges_works() {
    const CLAIMING_ERA: u8 = 0;
    let mut magink = Magink::new(AccountId::from([0x09; 32]));
    assert_eq!(AccountId::from([0x09; 32]), magink.wizard_contract());
    magink.set_caller(bob());
    magink.start(CLAIMING_ERA);
    match magink.get_profile() {
        Some(profile) => {
            assert_eq!(profile.badges_claimed, 0, "Profile has not been instantiated");
            assert_eq!(profile.claim_era, CLAIMING_ERA, "Claiming era is not correct");
        }
        None => panic!("Profile not found"),
    }
    for _ in 0..9 {
        magink.claim().expect("Claiming a badge failed");
        magink.advance_block();
    }
    let bob_profile = magink.get_profile();
    println!("bob_profile: {:?}", bob_profile);
    match bob_profile {
        Some(profile) => {
            assert_eq!(profile.badges_claimed, 9, "Profile has not been instantiated");
        }
        None => panic!("Profile not found"),
    }
    let sample_metadata = "bafybeibwbgwzqigw7touxmixxvkd3wfcf2rcljgbt75na7rwwnw4ojgljy";
    assert_eq!(Ok(()), magink.check_mint_wizard(Some(0)));
    let minted = magink
        .mint_wizard(sample_metadata.as_bytes().to_vec(), Some(0), true)
        .expect("Minting a wizard NFT failed");
    assert_eq!(minted.cid, sample_metadata.as_bytes().to_vec());
    assert_eq!(minted.account, bob());
    assert_eq!(10, magink.get_badges());
    let total_supply_result = magink.get_total_wizard_supply(Some(1));
    println!("Total supply of wizard NFT after 1st mint: {}", total_supply_result);
    assert_eq!(total_supply_result, 1);
}

#[test]
fn no_profile_reads_zero() {
    let mut magink = engine();
    assert_eq!(0, magink.get_remaining());
    assert_eq!(0, magink.get_badges());
    assert_eq!(0, magink.get_remaining_for(bob()));
    assert_eq!(0, magink.get_badges_for(bob()));
    assert_eq!(None, magink.get_profile());
    assert_eq!(None, magink.get_account_profile(bob()));
    advance_n_blocks(&mut magink, 5);
    assert_eq!(0, magink.get_remaining());
}

#[test]
fn remaining_counts_down_by_one_per_block() {
    let mut magink = engine();
    advance_n_blocks(&mut magink, 3);
    let started = magink.start(4);
    assert_eq!(EraStarted { account: alice(), era: 4, start_block: 3 }, started);
    for expected in [4u8, 3, 2, 1, 0, 0, 0] {
        assert_eq!(expected, magink.get_remaining());
        magink.advance_block();
    }
}

#[test]
fn early_claim_changes_nothing() {
    let mut magink = engine();
    magink.start(5);
    magink.advance_block();
    let before = magink.get_profile();
    assert_eq!(Err(Error::TooEarlyToClaim), magink.claim());
    assert_eq!(before, magink.get_profile());
    assert_eq!(Some(Profile { claim_era: 5, start_block: 0, badges_claimed: 0 }), before);
}

#[test]
fn claim_at_zero_restarts_era() {
    let mut magink = engine();
    magink.start(3);
    advance_n_blocks(&mut magink, 3);
    assert_eq!(0, magink.get_remaining());
    assert_eq!(Ok(BadgeClaimed { account: alice(), claim_block: 3 }), magink.claim());
    assert_eq!(
        Some(Profile { claim_era: 3, start_block: 3, badges_claimed: 1 }),
        magink.get_profile()
    );
    assert_eq!(3, magink.get_remaining());
}

#[test]
fn claim_after_era_long_past() {
    let mut magink = engine();
    magink.start(2);
    advance_n_blocks(&mut magink, 50);
    assert_eq!(0, magink.get_remaining());
    assert!(magink.claim().is_ok());
    assert_eq!(Some(Profile { claim_era: 2, start_block: 50, badges_claimed: 1 }), magink.get_profile());
}

#[test]
fn claim_without_start_is_user_not_found() {
    let mut magink = engine();
    advance_n_blocks(&mut magink, 2);
    assert_eq!(Err(Error::UserNotFound), magink.claim());
    assert_eq!(None, magink.get_profile());
    assert_eq!(0, magink.get_badges());
}

#[test]
fn era_zero_is_always_claimable() {
    let mut magink = engine();
    magink.start(0);
    assert_eq!(0, magink.get_remaining());
    assert!(magink.claim().is_ok());
    assert!(magink.claim().is_ok());
    assert_eq!(2, magink.get_badges());
}

#[test]
fn start_resets_the_whole_profile() {
    let mut magink = engine();
    magink.start(0);
    assert!(magink.claim().is_ok());
    advance_n_blocks(&mut magink, 2);
    magink.start(7);
    assert_eq!(
        Some(Profile { claim_era: 7, start_block: 2, badges_claimed: 0 }),
        magink.get_profile()
    );
    assert_eq!(7, magink.get_remaining());
}

#[test]
fn accounts_are_kept_apart() {
    let mut magink = engine();
    magink.start(0);
    assert!(magink.claim().is_ok());
    magink.set_caller(bob());
    assert_eq!(0, magink.get_badges());
    assert_eq!(Err(Error::UserNotFound), magink.claim());
    magink.start(4);
    assert_eq!(4, magink.get_remaining());
    assert_eq!(0, magink.get_remaining_for(alice()));
    assert_eq!(1, magink.get_badges_for(alice()));
    assert_eq!(0, magink.get_badges_for(bob()));
    assert_eq!(bob(), magink.caller());
}

#[test]
fn mint_without_enough_badges_fails() {
    let mut magink = engine();
    magink.start(0);
    for _ in 0..8 {
        assert!(magink.claim().is_ok());
    }
    assert_eq!(Err(Error::LessonsNotCompleted), magink.check_lessons_completed());
    assert_eq!(Err(Error::LessonsNotCompleted), magink.check_mint_wizard(Some(0)));
    assert_eq!(Err(Error::LessonsNotCompleted), magink.mint_wizard(vec![1, 2], Some(0), true));
    assert_eq!(8, magink.get_badges());
}

#[test]
fn mint_without_profile_fails() {
    let mut magink = engine();
    assert_eq!(Err(Error::LessonsNotCompleted), magink.mint_wizard(vec![1], None, true));
    assert_eq!(None, magink.get_profile());
}

#[test]
fn mint_when_already_holding_fails() {
    let mut magink = engine();
    nine_badges(&mut magink);
    assert_eq!(Ok(()), magink.check_lessons_completed());
    assert_eq!(Err(Error::AlreadyClaimedCompletionBadge), magink.check_mint_wizard(Some(1)));
    assert_eq!(Err(Error::AlreadyClaimedCompletionBadge), magink.mint_wizard(vec![1], Some(1), true));
    assert_eq!(9, magink.get_badges());
}

#[test]
fn mint_with_failed_issuer_rolls_back() {
    let mut magink = engine();
    nine_badges(&mut magink);
    let before = magink.get_profile();
    assert_eq!(Ok(()), magink.check_mint_wizard(Some(0)));
    assert_eq!(Err(Error::BadgeMintingFailed), magink.mint_wizard(vec![7, 7], Some(0), false));
    assert_eq!(before, magink.get_profile());
    assert_eq!(9, magink.get_badges());
}

#[test]
fn mint_with_issuer_success_claims_a_badge() {
    let mut magink = engine();
    nine_badges(&mut magink);
    let height = magink.block_number();
    assert_eq!(9, height);
    assert_eq!(
        Ok(NFTClaimed { account: alice(), cid: vec![7, 7], mint_block: 9 }),
        magink.mint_wizard(vec![7, 7], Some(0), true)
    );
    assert_eq!(
        Some(Profile { claim_era: 0, start_block: 9, badges_claimed: 10 }),
        magink.get_profile()
    );
}

#[test]
fn mint_counts_failed_balance_lookup_as_none() {
    let mut magink = engine();
    nine_badges(&mut magink);
    assert_eq!(Ok(()), magink.check_mint_wizard(None));
    assert!(magink.mint_wizard(vec![3], None, true).is_ok());
    assert_eq!(10, magink.get_badges());
}

#[test]
fn mint_is_gated_by_the_era() {
    let mut magink = engine();
    magink.start(2);
    for _ in 0..10 {
        advance_n_blocks(&mut magink, 2);
        assert!(magink.claim().is_ok());
    }
    // ten badges, but the era that the last claim started is still running
    assert_eq!(10, magink.get_badges());
    assert_eq!(2, magink.get_remaining());
    assert_eq!(Err(Error::TooEarlyToClaim), magink.check_mint_wizard(Some(0)));
    assert_eq!(Err(Error::TooEarlyToClaim), magink.mint_wizard(vec![1], Some(0), true));
    assert_eq!(10, magink.get_badges());
}

#[test]
fn total_supply_reads_issuer_answer() {
    let magink = engine();
    assert_eq!(5, magink.get_total_wizard_supply(Some(5)));
    assert_eq!(0, magink.get_total_wizard_supply(None));
}

#[test]
fn account_ids_compare_by_bytes() {
    let mut bytes = [0x01; 32];
    assert_eq!(alice(), AccountId::from(bytes));
    bytes[31] = 0x02;
    assert_ne!(alice(), AccountId::from(bytes));
    assert!(alice().same_as(&AccountId::from([0x01; 32])));
    assert!(!alice().same_as(&bob()));
}

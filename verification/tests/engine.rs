use magink::{Error, Magink, Profile, QuotaPolicy};

#[test]
fn start_works() {
    let alice: u64 = 1;
    let mut magink = Magink::new(0x42, QuotaPolicy::AtLeastQuota);
    println!("get {:?}", magink.get_remaining(alice, 0));
    magink.start(alice, 0, 10);
    assert_eq!(10, magink.get_remaining(alice, 0));
    assert_eq!(9, magink.get_remaining(alice, 1));
}

#[test]
fn claim_works() {
    let era: u32 = 10;
    let alice: u64 = 1;
    let mut block: u32 = 0;
    let mut magink = Magink::new(0x42, QuotaPolicy::AtLeastQuota);
    magink.start(alice, block, era as u8);
    block += era - 1;
    assert_eq!(1, magink.get_remaining(alice, block));

    // claim fails, too early
    assert_eq!(Err(Error::TooEarlyToClaim), magink.claim(alice, block));

    // claim succeeds
    block += 1;
    assert_eq!(Ok(()), magink.claim(alice, block));
    assert_eq!(1, magink.get_badges(alice));
    assert_eq!(1, magink.get_badges_for(alice));
    assert_eq!(1, magink.get_badges(alice));
    assert_eq!(10, magink.get_remaining(alice, block));

    // claim fails, too early
    assert_eq!(Err(Error::TooEarlyToClaim), magink.claim(alice, block));
    block += 1;
    assert_eq!(9, magink.get_remaining(alice, block));
    assert_eq!(Err(Error::TooEarlyToClaim), magink.claim(alice, block));
}

#[test]
fn unregistered_account_reads_zero() {
    let magink = Magink::new(0x42, QuotaPolicy::AtLeastQuota);
    assert_eq!(0, magink.get_remaining(9, 5));
    assert_eq!(0, magink.get_remaining_for(9, 5));
    assert_eq!(0, magink.get_badges(9));
    assert_eq!(0, magink.get_badges_for(9));
    assert_eq!(None, magink.get_account_profile(9));
    assert_eq!(None, magink.get_profile(9));
}

#[test]
fn start_sets_full_era() {
    let alice: u64 = 1;
    let mut magink = Magink::new(0x42, QuotaPolicy::AtLeastQuota);
    magink.start(alice, 100, 10);
    assert_eq!(10, magink.get_remaining(alice, 100));
    assert_eq!(5, magink.get_remaining(alice, 105));
    assert_eq!(5, magink.get_remaining_for(alice, 105));
    assert_eq!(0, magink.get_remaining(alice, 110));
    assert_eq!(0, magink.get_remaining(alice, 200));
}

#[test]
fn era_zero_is_claimable_at_once() {
    let alice: u64 = 1;
    let mut magink = Magink::new(0x42, QuotaPolicy::AtLeastQuota);
    magink.start(alice, 3, 0);
    assert_eq!(0, magink.get_remaining(alice, 3));
    assert_eq!(Ok(()), magink.claim(alice, 3));
    assert_eq!(1, magink.get_badges(alice));
}

#[test]
fn era_at_counter_width() {
    let alice: u64 = 1;
    let mut magink = Magink::new(0x42, QuotaPolicy::AtLeastQuota);
    magink.start(alice, 0, 255);
    assert_eq!(255, magink.get_remaining(alice, 0));
    assert_eq!(1, magink.get_remaining(alice, 254));
    assert_eq!(0, magink.get_remaining(alice, 255));
}

#[test]
fn start_overwrites_progress() {
    let alice: u64 = 1;
    let mut magink = Magink::new(0x42, QuotaPolicy::AtLeastQuota);
    magink.start(alice, 0, 5);
    assert_eq!(Ok(()), magink.claim(alice, 5));
    assert_eq!(1, magink.get_badges(alice));
    magink.start(alice, 6, 7);
    assert_eq!(0, magink.get_badges(alice));
    assert_eq!(7, magink.get_remaining(alice, 6));
}

#[test]
fn claim_without_start_is_user_not_found() {
    let mut magink = Magink::new(0x42, QuotaPolicy::AtLeastQuota);
    assert_eq!(Err(Error::UserNotFound), magink.claim(8, 0));
}

#[test]
fn profiles_are_kept_per_account() {
    let alice: u64 = 1;
    let bob: u64 = 2;
    let mut magink = Magink::new(0x42, QuotaPolicy::AtLeastQuota);
    magink.start(alice, 10, 4);
    magink.start(bob, 12, 6);
    assert_eq!(
        Some(Profile { claim_era: 4, start_block: 10, badges_claimed: 0 }),
        magink.get_account_profile(alice)
    );
    assert_eq!(
        Some(Profile { claim_era: 6, start_block: 12, badges_claimed: 0 }),
        magink.get_profile(bob)
    );
    assert_eq!(Ok(()), magink.claim(alice, 14));
    assert_eq!(1, magink.get_badges_for(alice));
    assert_eq!(0, magink.get_badges_for(bob));
}

#[test]
fn badges_accumulate_one_per_era() {
    let alice: u64 = 1;
    let mut block: u32 = 0;
    let mut magink = Magink::new(0x42, QuotaPolicy::AtLeastQuota);
    magink.start(alice, block, 2);
    let mut expected: u8 = 0;
    while expected < 5 {
        block += 2;
        assert_eq!(Ok(()), magink.claim(alice, block));
        expected += 1;
        assert_eq!(expected, magink.get_badges(alice));
    }
}

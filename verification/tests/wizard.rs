use magink::{AttributeKey, Transfer, Wizard, WizardError};

#[test]
fn new_sets_owner_and_attributes() {
    let wizard = Wizard::new(5);
    assert_eq!(5, wizard.owner());
    assert_eq!(0, wizard.total_supply());
    assert_eq!(Some(String::from("YAY")), wizard.get_attribute(AttributeKey::Name));
    assert_eq!(
        Some(String::from("AstarAcademy NFT exercise")),
        wizard.get_attribute(AttributeKey::Description)
    );
    assert_eq!(
        Some(String::from(
            "https://bafkreihgob3knpzzmhiw66grmkuq3qa2ukvdseksbaxkxuiehwkhuniyfy.ipfs.nftstorage.link"
        )),
        wizard.get_attribute(AttributeKey::Image)
    );
}

#[test]
fn only_the_owner_hands_over_ownership() {
    let mut wizard = Wizard::new(5);
    assert_eq!(Err(WizardError::CallerNotOwner), wizard.transfer_ownership(6, 7));
    assert_eq!(5, wizard.owner());
    assert_eq!(Ok(()), wizard.transfer_ownership(5, 7));
    assert_eq!(7, wizard.owner());
}

#[test]
fn only_the_owner_mints() {
    let mut wizard = Wizard::new(5);
    assert_eq!(Err(WizardError::CallerNotOwner), wizard.mint(6, 2, 0));
    assert_eq!(0, wizard.total_supply());
    assert_eq!(Ok(()), wizard.mint(5, 2, 0));
    assert_eq!(1, wizard.total_supply());
    assert_eq!(1, wizard.balance_of(2));
}

#[test]
fn an_identifier_is_issued_at_most_once() {
    let mut wizard = Wizard::new(5);
    assert_eq!(Ok(()), wizard.mint(5, 2, 11));
    assert_eq!(Err(WizardError::TokenExists), wizard.mint(5, 4, 11));
    assert_eq!(1, wizard.total_supply());
    assert_eq!(1, wizard.balance_of(2));
    assert_eq!(0, wizard.balance_of(4));
}

#[test]
fn minting_emits_a_transfer_event() {
    let mut wizard = Wizard::new(5);
    assert_eq!(Ok(()), wizard.mint(5, 2, 0));
    assert_eq!(Ok(()), wizard.mint(5, 4, 1));
    assert_eq!(
        vec![
            Transfer { from: None, to: Some(2), id: 0 },
            Transfer { from: None, to: Some(4), id: 1 },
        ],
        wizard.events
    );
}

#[test]
fn emitting_appends_to_the_event_log() {
    let mut wizard = Wizard::new(5);
    wizard._emit_transfer_event(Some(2), Some(4), 9);
    assert_eq!(vec![Transfer { from: Some(2), to: Some(4), id: 9 }], wizard.events);
    assert_eq!(0, wizard.total_supply());
}

#[test]
fn balances_count_per_holder() {
    let mut wizard = Wizard::new(5);
    assert_eq!(Ok(()), wizard.mint(5, 2, 0));
    assert_eq!(Ok(()), wizard.mint(5, 2, 1));
    assert_eq!(Ok(()), wizard.mint(5, 4, 2));
    assert_eq!(2, wizard.balance_of(2));
    assert_eq!(1, wizard.balance_of(4));
    assert_eq!(0, wizard.balance_of(9));
    assert_eq!(3, wizard.total_supply());
}

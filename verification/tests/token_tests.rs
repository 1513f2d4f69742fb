use erc20::{AccountId, Approval, Erc20, Erc20Parts, Error, Event, Transfer};
use ink::env::test::default_accounts;
use ink::env::DefaultEnvironment;

const ALICE: AccountId = [0x01; 32];
const BOB: AccountId = [0x02; 32];
const CHARLIE: AccountId = [0x03; 32];
const EVE: AccountId = [0x05; 32];

fn assert_transfer_event(
    event: &Event,
    expected_from: Option<AccountId>,
    expected_to: Option<AccountId>,
    expected_value: u128,
) {
    match event {
        Event::Transfer(Transfer { from, to, value }) => {
            assert_eq!(*from, expected_from, "encountered invalid Transfer.from");
            assert_eq!(*to, expected_to, "encountered invalid Transfer.to");
            assert_eq!(*value, expected_value, "encountered invalid Trasfer.value");
        }
        Event::Approval(_) => panic!("expected a Transfer event"),
    }
}

#[test]
fn new_works() {
    let erc20 = Erc20::new_as(ALICE, 100, "FAVOUR", "FAV", 8);
    let emitted_events = erc20.events();
    assert_eq!(1, emitted_events.len());
    assert_transfer_event(&emitted_events[0], None, Some([0x01; 32]), 100);
}

#[test]
fn total_supply_works() {
    let erc20 = Erc20::new_as(ALICE, 100, "FAVOUR", "FAV", 8);
    let emitted_events = erc20.events();
    assert_transfer_event(&emitted_events[0], None, Some([0x01; 32]), 100);
    assert_eq!(erc20.total_supply(), 100);
}

#[test]
fn balance_of_works() {
    let erc20 = Erc20::new_as(ALICE, 100, "FAVOUR", "FAV", 8);
    let emitted_events = erc20.events();
    assert_transfer_event(&emitted_events[0], None, Some([0x01; 32]), 100);
    assert_eq!(erc20.balance_of(ALICE), 100);
    assert_eq!(erc20.balance_of(BOB), 0);
}

#[test]
fn transfer_works() {
    let mut erc20 = Erc20::new_as(ALICE, 100, "FAVOUR", "FAV", 8);
    assert_eq!(erc20.balance_of(BOB), 0);
    // Alice transfers 10 tokens to Bob.
    assert_eq!(erc20.transfer_from_to(&ALICE, &BOB, 10), Ok(()));
    assert_eq!(erc20.balance_of(BOB), 10);

    let emitted_events = erc20.events();
    assert_eq!(emitted_events.len(), 2);
    assert_transfer_event(&emitted_events[0], None, Some([0x01; 32]), 100);
    assert_transfer_event(&emitted_events[1], Some([0x01; 32]), Some([0x02; 32]), 10);
}

#[test]
fn invalid_transfer_should_fail() {
    let mut erc20 = Erc20::new_as(ALICE, 100, "FAVOUR", "FAV", 8);
    assert_eq!(erc20.balance_of(BOB), 0);

    // Bob fails to transfer 10 tokens to Eve.
    assert_eq!(
        erc20.transfer_from_to(&BOB, &EVE, 10),
        Err(Error::InsufficientBalance)
    );
    assert_eq!(erc20.balance_of(ALICE), 100);
    assert_eq!(erc20.balance_of(BOB), 0);
    assert_eq!(erc20.balance_of(EVE), 0);

    let emitted_events = erc20.events();
    assert_eq!(emitted_events.len(), 1);
    assert_transfer_event(&emitted_events[0], None, Some([0x01; 32]), 100);
}

#[test]
fn transfer_from_works() {
    let mut erc20 = Erc20::new_as(ALICE, 100, "FAVOUR", "FAV", 8);

    // Bob fails to transfer tokens owned by Alice.
    assert_eq!(
        erc20.transfer_from_as(BOB, ALICE, EVE, 10),
        Err(Error::InsufficientAllowance)
    );
    // Alice approves Bob for token transfers on her behalf.
    erc20.approve_as(ALICE, BOB, 10);
    assert_eq!(erc20.events().len(), 2);

    // Bob transfers tokens from Alice to Eve.
    assert_eq!(erc20.transfer_from_as(BOB, ALICE, EVE, 10), Ok(()));
    assert_eq!(erc20.balance_of(EVE), 10);

    let emitted_events = erc20.events();
    assert_eq!(emitted_events.len(), 3);
    assert_transfer_event(&emitted_events[0], None, Some([0x01; 32]), 100);
    assert_transfer_event(&emitted_events[2], Some([0x01; 32]), Some([0x05; 32]), 10);
}

#[test]
fn allowance_must_not_change_on_failed_transfer() {
    let mut erc20 = Erc20::new_as(ALICE, 100, "FAVOUR", "FAV", 8);

    let alice_balance = erc20.balance_of(ALICE);
    let initial_allowance = alice_balance + 2;
    erc20.approve_as(ALICE, BOB, initial_allowance);

    let emitted_events_before = erc20.events().len();
    assert_eq!(
        erc20.transfer_from_as(BOB, ALICE, EVE, alice_balance + 1),
        Err(Error::InsufficientBalance)
    );
    assert_eq!(erc20.allowance(ALICE, BOB), initial_allowance);
    assert_eq!(emitted_events_before, erc20.events().len());
}

#[test]
fn e2e_transfer() {
    let accounts = default_accounts::<DefaultEnvironment>();
    let alice = accounts.alice.0;
    let bob_account = accounts.bob.0;

    let total_supply = 1_000_000_000;
    let mut erc20 = Erc20::new_as(alice, total_supply, "FAVOUR", "FAV", 8);
    let total_supply_res = erc20.total_supply();

    let transfer_to_bob = 500_000_000u128;
    assert!(
        erc20.transfer_from_to(&alice, &bob_account, transfer_to_bob).is_ok(),
        "transfer failed"
    );
    let balance_of_res = erc20.balance_of(bob_account);

    assert_eq!(total_supply, total_supply_res, "total_supply");
    assert_eq!(transfer_to_bob, balance_of_res, "balance_of");
}

#[test]
fn e2e_allowances() {
    let accounts = default_accounts::<DefaultEnvironment>();
    let bob_account = accounts.bob.0;
    let charlie_account = accounts.charlie.0;

    let total_supply = 1_000_000_000;
    let mut erc20 = Erc20::new_as(bob_account, total_supply, "FAVOUR", "FAV", 8);

    let amount = 500_000_000u128;
    let transfer_from_result =
        erc20.transfer_from_as(charlie_account, bob_account, charlie_account, amount);
    assert!(
        transfer_from_result.is_err(),
        "unapproved transfer_from should fail"
    );

    // Bob approves Charlie to transfer up to the amount on his behalf.
    let approved_value = 1_000u128;
    erc20.approve_as(bob_account, charlie_account, approved_value);

    let transfer_from_result =
        erc20.transfer_from_as(charlie_account, bob_account, charlie_account, approved_value);
    assert!(
        transfer_from_result.is_ok(),
        "approved transfer_from should succeed"
    );

    let balance_of_res = erc20.balance_of(bob_account);

    let transfer_from_result =
        erc20.transfer_from_as(charlie_account, bob_account, charlie_account, 1);
    assert!(
        transfer_from_result.is_err(),
        "transfer_from exceeding the approved amount should fail"
    );

    assert_eq!(total_supply - approved_value, balance_of_res, "balance_of");
}

#[test]
fn getters_return_what_new_was_given() {
    let erc20 = Erc20::new_as(ALICE, 100, "FAVOUR", "FAV", 8);
    assert_eq!(erc20.name(), "FAVOUR".to_string());
    assert_eq!(erc20.symbol(), "FAV".to_string());
    assert_eq!(erc20.decimals(), 8);
    assert_eq!(erc20.total_supply(), 100);
    assert_eq!(erc20.balance_of(ALICE), 100);
    assert_eq!(erc20.balance_of(BOB), 0);
    assert_eq!(erc20.allowance(ALICE, BOB), 0);
}

#[test]
fn new_gives_supply_to_the_given_owner() {
    let erc20 = Erc20::new_as(BOB, 7, "T", "T", 0);
    assert_eq!(erc20.balance_of(BOB), 7);
    assert_eq!(erc20.balance_of(ALICE), 0);
    assert_eq!(
        erc20.events().clone(),
        vec![Event::Transfer(Transfer { from: None, to: Some(BOB), value: 7 })]
    );
}

#[test]
fn approve_sets_allowance_of_that_owner_only() {
    let mut erc20 = Erc20::new_as(ALICE, 50, "T", "T", 0);
    erc20.approve_as(EVE, BOB, 9);
    assert_eq!(erc20.allowance(EVE, BOB), 9);
    assert_eq!(erc20.allowance(ALICE, BOB), 0);
    assert_eq!(erc20.allowance(BOB, EVE), 0);
}

#[test]
fn transfer_from_needs_allowance_of_that_caller() {
    let mut erc20 = Erc20::new_as(ALICE, 50, "T", "T", 0);
    erc20.approve_as(ALICE, BOB, 30);
    assert_eq!(
        erc20.transfer_from_as(CHARLIE, ALICE, EVE, 10),
        Err(Error::InsufficientAllowance)
    );
    assert_eq!(erc20.transfer_from_as(BOB, ALICE, EVE, 10), Ok(()));
    assert_eq!(erc20.allowance(ALICE, BOB), 20);
    assert_eq!(erc20.balance_of(EVE), 10);
}

#[test]
fn transfer_to_self_keeps_balance_and_records_event() {
    let mut erc20 = Erc20::new_as(ALICE, 100, "T", "T", 0);
    assert_eq!(erc20.transfer_from_to(&ALICE, &ALICE, 60), Ok(()));
    assert_eq!(erc20.balance_of(ALICE), 100);
    assert_eq!(erc20.events().len(), 2);
    assert_eq!(
        erc20.transfer_from_to(&ALICE, &ALICE, 101),
        Err(Error::InsufficientBalance)
    );
    assert_eq!(erc20.balance_of(ALICE), 100);
}

#[test]
fn transfer_of_zero_from_empty_account_succeeds() {
    let mut erc20 = Erc20::new_as(ALICE, 100, "T", "T", 0);
    assert_eq!(erc20.transfer_from_to(&BOB, &EVE, 0), Ok(()));
    assert_eq!(erc20.balance_of(BOB), 0);
    assert_eq!(erc20.balance_of(EVE), 0);
    assert_eq!(erc20.events().len(), 2);
}

#[test]
fn transfer_of_whole_maximal_supply_does_not_overflow() {
    let mut erc20 = Erc20::new_as(ALICE, u128::MAX, "T", "T", 0);
    assert_eq!(erc20.transfer_from_to(&ALICE, &BOB, u128::MAX), Ok(()));
    assert_eq!(erc20.balance_of(ALICE), 0);
    assert_eq!(erc20.balance_of(BOB), u128::MAX);
    assert_eq!(erc20.transfer_from_to(&BOB, &ALICE, 1), Ok(()));
    assert_eq!(erc20.balance_of(ALICE), 1);
    assert_eq!(erc20.balance_of(BOB), u128::MAX - 1);
}

#[test]
fn balances_always_sum_to_supply() {
    let accounts = [ALICE, BOB, CHARLIE, EVE];
    let mut erc20 = Erc20::new_as(ALICE, 1000, "T", "T", 0);
    let _ = erc20.transfer_from_to(&ALICE, &BOB, 300);
    let _ = erc20.transfer_from_to(&BOB, &CHARLIE, 120);
    let _ = erc20.transfer_from_to(&CHARLIE, &EVE, 500);
    erc20.approve_as(ALICE, EVE, 200);
    let _ = erc20.transfer_from_as(EVE, ALICE, CHARLIE, 150);
    let _ = erc20.transfer_from_as(EVE, ALICE, CHARLIE, 100);
    let sum: u128 = accounts.iter().map(|a| erc20.balance_of(*a)).sum();
    assert_eq!(sum, 1000);
    assert_eq!(erc20.balance_of(ALICE), 550);
    assert_eq!(erc20.balance_of(BOB), 180);
    assert_eq!(erc20.balance_of(CHARLIE), 270);
    assert_eq!(erc20.balance_of(EVE), 0);
    assert_eq!(erc20.allowance(ALICE, EVE), 50);
}

#[test]
fn transfer_there_and_back_restores_balances() {
    let mut erc20 = Erc20::new_as(ALICE, 100, "T", "T", 0);
    assert_eq!(erc20.transfer_from_to(&ALICE, &BOB, 40), Ok(()));
    assert_eq!(erc20.transfer_from_to(&BOB, &ALICE, 40), Ok(()));
    assert_eq!(erc20.balance_of(ALICE), 100);
    assert_eq!(erc20.balance_of(BOB), 0);
}

#[test]
fn approve_replaces_earlier_allowance() {
    let mut erc20 = Erc20::new_as(ALICE, 100, "T", "T", 0);
    erc20.approve_as(ALICE, BOB, 30);
    erc20.approve_as(ALICE, BOB, 5);
    assert_eq!(erc20.allowance(ALICE, BOB), 5);
    assert_eq!(erc20.allowance(BOB, ALICE), 0);
    assert_eq!(
        erc20.events()[2],
        Event::Approval(Approval { owner: ALICE, spender: BOB, value: 5 })
    );
}

#[test]
fn transfer_from_with_allowance_but_short_balance_fails() {
    let mut erc20 = Erc20::new_as(ALICE, 100, "T", "T", 0);
    erc20.approve_as(BOB, CHARLIE, 10);
    assert_eq!(
        erc20.transfer_from_as(CHARLIE, BOB, EVE, 5),
        Err(Error::InsufficientBalance)
    );
    assert_eq!(erc20.allowance(BOB, CHARLIE), 10);
    assert_eq!(erc20.events().len(), 2);
}

#[test]
fn transfer_from_spends_exactly_the_amount() {
    let mut erc20 = Erc20::new_as(ALICE, 100, "T", "T", 0);
    erc20.approve_as(ALICE, BOB, 30);
    assert_eq!(erc20.transfer_from_as(BOB, ALICE, CHARLIE, 30), Ok(()));
    assert_eq!(erc20.allowance(ALICE, BOB), 0);
    assert_eq!(erc20.balance_of(ALICE), 70);
    assert_eq!(erc20.balance_of(CHARLIE), 30);
    assert_eq!(
        erc20.transfer_from_as(BOB, ALICE, CHARLIE, 1),
        Err(Error::InsufficientAllowance)
    );
}

#[test]
fn withdrawals_on_one_approval_never_exceed_it() {
    let mut erc20 = Erc20::new_as(ALICE, 1000, "T", "T", 0);
    erc20.approve_as(ALICE, BOB, 100);
    let mut withdrawn = 0u128;
    for (to, value) in [(CHARLIE, 40u128), (EVE, 70), (EVE, 60), (CHARLIE, 0), (BOB, 1)] {
        if erc20.transfer_from_as(BOB, ALICE, to, value).is_ok() {
            withdrawn += value;
        }
        let _ = erc20.transfer_from_to(&ALICE, &EVE, 5);
        assert_eq!(erc20.allowance(ALICE, BOB), 100 - withdrawn);
    }
    assert_eq!(withdrawn, 100);
    assert_eq!(erc20.allowance(ALICE, BOB), 0);
}

#[test]
fn take_events_hands_out_and_clears() {
    let mut erc20 = Erc20::new_as(ALICE, 100, "T", "T", 0);
    assert_eq!(erc20.transfer_from_to(&ALICE, &BOB, 1), Ok(()));
    let taken = erc20.take_events();
    assert_eq!(
        taken,
        vec![
            Event::Transfer(Transfer { from: None, to: Some(ALICE), value: 100 }),
            Event::Transfer(Transfer { from: Some(ALICE), to: Some(BOB), value: 1 }),
        ]
    );
    assert!(erc20.events().is_empty());
    assert_eq!(erc20.balance_of(BOB), 1);
}

#[test]
fn parts_round_trip_keeps_the_ledger() {
    let mut erc20 = Erc20::new_as(ALICE, 100, "FAVOUR", "FAV", 8);
    assert_eq!(erc20.transfer_from_to(&ALICE, &BOB, 30), Ok(()));
    erc20.approve_as(BOB, EVE, 12);
    let (parts, events) = erc20.into_parts();
    assert_eq!(events.len(), 3);
    let reloaded = Erc20::from_parts(parts).expect("parts of a ledger are consistent");
    assert_eq!(reloaded.name(), "FAVOUR".to_string());
    assert_eq!(reloaded.symbol(), "FAV".to_string());
    assert_eq!(reloaded.decimals(), 8);
    assert_eq!(reloaded.total_supply(), 100);
    assert_eq!(reloaded.balance_of(ALICE), 70);
    assert_eq!(reloaded.balance_of(BOB), 30);
    assert_eq!(reloaded.allowance(BOB, EVE), 12);
    assert!(reloaded.events().is_empty());
}

fn parts(
    total_supply: u128,
    balances: Vec<(AccountId, u128)>,
    allowances: Vec<((AccountId, AccountId), u128)>,
) -> Erc20Parts {
    Erc20Parts {
        name: "T".to_string(),
        symbol: "T".to_string(),
        decimals: 0,
        total_supply,
        balances,
        allowances,
    }
}

#[test]
fn from_parts_accepts_consistent_parts() {
    let erc20 = Erc20::from_parts(parts(
        10,
        vec![(ALICE, 4), (BOB, 6)],
        vec![((ALICE, BOB), 3), ((BOB, ALICE), 1)],
    ))
    .expect("consistent parts");
    assert_eq!(erc20.balance_of(ALICE), 4);
    assert_eq!(erc20.balance_of(BOB), 6);
    assert_eq!(erc20.allowance(ALICE, BOB), 3);
    assert_eq!(erc20.allowance(BOB, ALICE), 1);
}

#[test]
fn from_parts_refuses_repeated_account() {
    assert!(Erc20::from_parts(parts(10, vec![(ALICE, 4), (ALICE, 6)], vec![])).is_none());
}

#[test]
fn from_parts_refuses_repeated_allowance_pair() {
    assert!(Erc20::from_parts(parts(
        10,
        vec![(ALICE, 10)],
        vec![((ALICE, BOB), 3), ((ALICE, BOB), 1)],
    ))
    .is_none());
}

#[test]
fn from_parts_refuses_balances_not_adding_up() {
    assert!(Erc20::from_parts(parts(10, vec![(ALICE, 4), (BOB, 5)], vec![])).is_none());
    assert!(Erc20::from_parts(parts(
        u128::MAX,
        vec![(ALICE, u128::MAX), (BOB, 1)],
        vec![],
    ))
    .is_none());
}

#[test]
fn default_accounts_match_ledger_accounts() {
    let accounts = default_accounts::<DefaultEnvironment>();
    assert_eq!(accounts.alice.0, ALICE);
    assert_eq!(accounts.eve.0, EVE);
}

use chaincore::cash::{Bill, CashTransaction, DigitalCashSystem, State};
use chaincore::state_machine::{StateMachine, User};

#[test]
fn sm_5_mint_new_cash() {
    let start = State::new();
    let end = DigitalCashSystem::next_state(
        &start,
        &CashTransaction::Mint { minter: User::Alice, amount: 20 },
    );

    let expected = State::from_bills(vec![Bill { owner: User::Alice, amount: 20, serial: 0 }]);
    assert_eq!(end, expected);
}

#[test]
fn sm_5_overflow_receives_fails() {
    let start = State::from_bills(vec![Bill { owner: User::Alice, amount: 42, serial: 0 }]);
    let end = DigitalCashSystem::next_state(
        &start,
        &CashTransaction::Transfer {
            spends: vec![Bill { owner: User::Alice, amount: 42, serial: 0 }],
            receives: vec![
                Bill { owner: User::Alice, amount: u64::MAX, serial: 1 },
                Bill { owner: User::Alice, amount: 42, serial: 2 },
            ],
        },
    );
    let expected = State::from_bills(vec![Bill { owner: User::Alice, amount: 42, serial: 0 }]);
    assert_eq!(end, expected);
}

#[test]
fn sm_5_empty_spend_fails() {
    let start = State::from_bills(vec![Bill { owner: User::Alice, amount: 20, serial: 0 }]);
    let end = DigitalCashSystem::next_state(
        &start,
        &CashTransaction::Transfer {
            spends: vec![],
            receives: vec![Bill { owner: User::Alice, amount: 15, serial: 1 }],
        },
    );
    let expected = State::from_bills(vec![Bill { owner: User::Alice, amount: 20, serial: 0 }]);
    assert_eq!(end, expected);
}

#[test]
fn sm_5_empty_receive_fails() {
    let start = State::from_bills(vec![Bill { owner: User::Alice, amount: 20, serial: 0 }]);
    let end = DigitalCashSystem::next_state(
        &start,
        &CashTransaction::Transfer {
            spends: vec![Bill { owner: User::Alice, amount: 20, serial: 0 }],
            receives: vec![],
        },
    );
    let mut expected = State::from_bills(vec![]);
    expected.set_serial(1);
    assert_eq!(end, expected);
}

#[test]
fn sm_5_output_value_0_fails() {
    let start = State::from_bills(vec![Bill { owner: User::Alice, amount: 20, serial: 0 }]);
    let end = DigitalCashSystem::next_state(
        &start,
        &CashTransaction::Transfer {
            spends: vec![Bill { owner: User::Alice, amount: 20, serial: 0 }],
            receives: vec![Bill { owner: User::Bob, amount: 0, serial: 1 }],
        },
    );
    let expected = State::from_bills(vec![Bill { owner: User::Alice, amount: 20, serial: 0 }]);
    assert_eq!(end, expected);
}

#[test]
fn sm_5_serial_number_already_seen_fails() {
    let start = State::from_bills(vec![Bill { owner: User::Alice, amount: 20, serial: 0 }]);
    let end = DigitalCashSystem::next_state(
        &start,
        &CashTransaction::Transfer {
            spends: vec![Bill { owner: User::Alice, amount: 20, serial: 0 }],
            receives: vec![Bill { owner: User::Alice, amount: 18, serial: 0 }],
        },
    );
    let expected = State::from_bills(vec![Bill { owner: User::Alice, amount: 20, serial: 0 }]);
    assert_eq!(end, expected);
}

#[test]
fn sm_5_spending_and_receiving_same_bill_fails() {
    let start = State::from_bills(vec![Bill { owner: User::Alice, amount: 20, serial: 0 }]);
    let end = DigitalCashSystem::next_state(
        &start,
        &CashTransaction::Transfer {
            spends: vec![Bill { owner: User::Alice, amount: 20, serial: 0 }],
            receives: vec![Bill { owner: User::Alice, amount: 20, serial: 0 }],
        },
    );
    let expected = State::from_bills(vec![Bill { owner: User::Alice, amount: 20, serial: 0 }]);
    assert_eq!(end, expected);
}

#[test]
fn sm_5_receiving_bill_with_incorrect_serial_fails() {
    let start = State::from_bills(vec![Bill { owner: User::Alice, amount: 20, serial: 0 }]);
    let end = DigitalCashSystem::next_state(
        &start,
        &CashTransaction::Transfer {
            spends: vec![Bill { owner: User::Alice, amount: 20, serial: 0 }],
            receives: vec![
                Bill { owner: User::Alice, amount: 10, serial: u64::MAX },
                Bill { owner: User::Bob, amount: 10, serial: 4000 },
            ],
        },
    );
    let expected = State::from_bills(vec![Bill { owner: User::Alice, amount: 20, serial: 0 }]);
    assert_eq!(end, expected);
}

#[test]
fn sm_5_spending_bill_with_incorrect_amount_fails() {
    let start = State::from_bills(vec![Bill { owner: User::Alice, amount: 20, serial: 0 }]);
    let end = DigitalCashSystem::next_state(
        &start,
        &CashTransaction::Transfer {
            spends: vec![Bill { owner: User::Alice, amount: 40, serial: 0 }],
            receives: vec![Bill { owner: User::Bob, amount: 40, serial: 1 }],
        },
    );
    let expected = State::from_bills(vec![Bill { owner: User::Alice, amount: 20, serial: 0 }]);
    assert_eq!(end, expected);
}

#[test]
fn sm_5_spending_same_bill_fails() {
    let start = State::from_bills(vec![Bill { owner: User::Alice, amount: 40, serial: 0 }]);
    let end = DigitalCashSystem::next_state(
        &start,
        &CashTransaction::Transfer {
            spends: vec![
                Bill { owner: User::Alice, amount: 40, serial: 0 },
                Bill { owner: User::Alice, amount: 40, serial: 0 },
            ],
            receives: vec![
                Bill { owner: User::Bob, amount: 20, serial: 1 },
                Bill { owner: User::Bob, amount: 20, serial: 2 },
                Bill { owner: User::Alice, amount: 40, serial: 3 },
            ],
        },
    );
    let expected = State::from_bills(vec![Bill { owner: User::Alice, amount: 40, serial: 0 }]);
    assert_eq!(end, expected);
}

#[test]
fn sm_5_spending_more_than_bill_fails() {
    let start = State::from_bills(vec![
        Bill { owner: User::Alice, amount: 40, serial: 0 },
        Bill { owner: User::Charlie, amount: 42, serial: 1 },
    ]);
    let end = DigitalCashSystem::next_state(
        &start,
        &CashTransaction::Transfer {
            spends: vec![
                Bill { owner: User::Alice, amount: 40, serial: 0 },
                Bill { owner: User::Charlie, amount: 42, serial: 1 },
            ],
            receives: vec![
                Bill { owner: User::Bob, amount: 20, serial: 2 },
                Bill { owner: User::Bob, amount: 20, serial: 3 },
                Bill { owner: User::Alice, amount: 52, serial: 4 },
            ],
        },
    );
    let expected = State::from_bills(vec![
        Bill { owner: User::Alice, amount: 40, serial: 0 },
        Bill { owner: User::Charlie, amount: 42, serial: 1 },
    ]);
    assert_eq!(end, expected);
}

#[test]
fn sm_5_spending_non_existent_bill_fails() {
    let start = State::from_bills(vec![Bill { owner: User::Alice, amount: 32, serial: 0 }]);
    let end = DigitalCashSystem::next_state(
        &start,
        &CashTransaction::Transfer {
            spends: vec![Bill { owner: User::Bob, amount: 1000, serial: 32 }],
            receives: vec![Bill { owner: User::Bob, amount: 1000, serial: 33 }],
        },
    );
    let expected = State::from_bills(vec![Bill { owner: User::Alice, amount: 32, serial: 0 }]);
    assert_eq!(end, expected);
}

#[test]
fn sm_5_spending_from_alice_to_all() {
    let start = State::from_bills(vec![Bill { owner: User::Alice, amount: 42, serial: 0 }]);
    let end = DigitalCashSystem::next_state(
        &start,
        &CashTransaction::Transfer {
            spends: vec![Bill { owner: User::Alice, amount: 42, serial: 0 }],
            receives: vec![
                Bill { owner: User::Alice, amount: 10, serial: 1 },
                Bill { owner: User::Bob, amount: 10, serial: 2 },
                Bill { owner: User::Charlie, amount: 10, serial: 3 },
            ],
        },
    );
    let mut expected = State::from_bills(vec![
        Bill { owner: User::Alice, amount: 10, serial: 1 },
        Bill { owner: User::Bob, amount: 10, serial: 2 },
        Bill { owner: User::Charlie, amount: 10, serial: 3 },
    ]);
    expected.set_serial(4);
    assert_eq!(end, expected);
}

#[test]
fn sm_5_spending_from_bob_to_all() {
    let start = State::from_bills(vec![Bill { owner: User::Bob, amount: 42, serial: 0 }]);
    let end = DigitalCashSystem::next_state(
        &start,
        &CashTransaction::Transfer {
            spends: vec![Bill { owner: User::Bob, amount: 42, serial: 0 }],
            receives: vec![
                Bill { owner: User::Alice, amount: 10, serial: 1 },
                Bill { owner: User::Bob, amount: 10, serial: 2 },
                Bill { owner: User::Charlie, amount: 22, serial: 3 },
            ],
        },
    );
    let mut expected = State::from_bills(vec![
        Bill { owner: User::Alice, amount: 10, serial: 1 },
        Bill { owner: User::Bob, amount: 10, serial: 2 },
        Bill { owner: User::Charlie, amount: 22, serial: 3 },
    ]);
    expected.set_serial(4);
    assert_eq!(end, expected);
}

#[test]
fn sm_5_spending_from_charlie_to_all() {
    let mut start = State::from_bills(vec![
        Bill { owner: User::Charlie, amount: 68, serial: 54 },
        Bill { owner: User::Alice, amount: 4000, serial: 58 },
    ]);
    start.set_serial(59);
    let end = DigitalCashSystem::next_state(
        &start,
        &CashTransaction::Transfer {
            spends: vec![Bill { owner: User::Charlie, amount: 68, serial: 54 }],
            receives: vec![
                Bill { owner: User::Alice, amount: 42, serial: 59 },
                Bill { owner: User::Bob, amount: 5, serial: 60 },
                Bill { owner: User::Charlie, amount: 5, serial: 61 },
            ],
        },
    );
    let mut expected = State::from_bills(vec![
        Bill { owner: User::Alice, amount: 4000, serial: 58 },
        Bill { owner: User::Alice, amount: 42, serial: 59 },
        Bill { owner: User::Bob, amount: 5, serial: 60 },
        Bill { owner: User::Charlie, amount: 5, serial: 61 },
    ]);
    expected.set_serial(62);
    assert_eq!(end, expected);
}

#[test]
fn sm_5_mint_zero_amount_changes_nothing() {
    let start = State::from_bills(vec![Bill { owner: User::Bob, amount: 7, serial: 0 }]);
    let end = DigitalCashSystem::next_state(
        &start,
        &CashTransaction::Mint { minter: User::Bob, amount: 0 },
    );
    let expected = State::from_bills(vec![Bill { owner: User::Bob, amount: 7, serial: 0 }]);
    assert_eq!(end, expected);
}

#[test]
fn sm_5_duplicate_bill_is_kept_once() {
    let bill = Bill { owner: User::Alice, amount: 9, serial: 3 };
    let state = State::from_bills(vec![bill.clone(), bill.clone()]);
    let mut expected = State::from_bills(vec![bill]);
    expected.set_serial(2);
    assert_eq!(state, expected);
}

#[test]
fn sm_5_serial_counter_saturates() {
    let mut start = State::new();
    start.set_serial(u64::MAX);
    let end = DigitalCashSystem::next_state(
        &start,
        &CashTransaction::Mint { minter: User::Alice, amount: 5 },
    );
    let mut expected =
        State::from_bills(vec![Bill { owner: User::Alice, amount: 5, serial: u64::MAX }]);
    expected.set_serial(u64::MAX);
    assert_eq!(end, expected);
}

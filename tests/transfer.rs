use guarded_transfer::{
    AttemptOutcome, BankAccount, Guard, Movement, Settlement, deposit_held, settle, withdraw_held,
};

fn balance(a: &BankAccount) -> i32 {
    a.try_acquire().expect("guard should be free").get()
}

fn deposit(a: &BankAccount, amount: i32) -> Movement {
    let mut g = Guard::new(a.mutex().lock().unwrap());
    deposit_held(&mut g, amount)
}

fn withdraw(a: &BankAccount, amount: i32) -> Movement {
    let mut g = Guard::new(a.mutex().lock().unwrap());
    withdraw_held(&mut g, amount)
}

#[test]
fn transfer_fifty_between_two_hundreds() {
    let x = BankAccount::new(100);
    let y = BankAccount::new(100);
    let rep = x.try_transfer(&y, 50).expect("no contention");
    assert_eq!(rep.settlement.outcome, AttemptOutcome::Success);
    assert_eq!(rep.source_before, 100);
    assert_eq!(rep.destination_before, 100);
    assert_eq!(balance(&x), 50);
    assert_eq!(balance(&y), 150);
}

#[test]
fn transfer_more_than_source_holds() {
    let x = BankAccount::new(100);
    let y = BankAccount::new(7);
    let rep = x.try_transfer(&y, 150).expect("no contention");
    assert_eq!(rep.settlement.outcome, AttemptOutcome::InsufficientValue);
    assert_eq!(balance(&x), 100);
    assert_eq!(balance(&y), 7);
}

#[test]
fn settle_covered_amount_conserves_sum() {
    let r = settle(70, 30, 20);
    assert_eq!(r, Settlement { outcome: AttemptOutcome::Success, source: 50, destination: 50 });
    assert_eq!(r.source + r.destination, 100);
}

#[test]
fn settle_exact_balance_empties_source() {
    let r = settle(50, 0, 50);
    assert_eq!(r, Settlement { outcome: AttemptOutcome::Success, source: 0, destination: 50 });
}

#[test]
fn settle_uncovered_amount_changes_nothing() {
    let r = settle(10, 5, 11);
    assert_eq!(
        r,
        Settlement { outcome: AttemptOutcome::InsufficientValue, source: 10, destination: 5 }
    );
}

#[test]
fn settle_destination_overflow_is_out_of_range() {
    let r = settle(10, i32::MAX, 5);
    assert_eq!(
        r,
        Settlement { outcome: AttemptOutcome::OutOfRange, source: 10, destination: i32::MAX }
    );
}

#[test]
fn settle_negative_amount_overflow_is_out_of_range() {
    let r = settle(0, 0, i32::MIN);
    assert_eq!(r, Settlement { outcome: AttemptOutcome::OutOfRange, source: 0, destination: 0 });
}

#[test]
fn settle_negative_amount_moves_backwards() {
    let r = settle(10, 20, -5);
    assert_eq!(r, Settlement { outcome: AttemptOutcome::Success, source: 15, destination: 15 });
}

#[test]
fn deposit_and_withdraw_report_balances() {
    let a = BankAccount::new(100);
    let d = deposit(&a, 50);
    assert_eq!((d.outcome, d.before, d.after), (AttemptOutcome::Success, 100, 150));
    let w = withdraw(&a, 30);
    assert_eq!((w.outcome, w.before, w.after), (AttemptOutcome::Success, 150, 120));
    let refused = withdraw(&a, 500);
    assert_eq!(
        (refused.outcome, refused.before, refused.after),
        (AttemptOutcome::InsufficientValue, 120, 120)
    );
    assert_eq!(balance(&a), 120);
}

#[test]
fn deposit_past_the_range_is_refused() {
    let a = BankAccount::new(i32::MAX - 1);
    let d = deposit(&a, 2);
    assert_eq!(d.outcome, AttemptOutcome::OutOfRange);
    assert_eq!(balance(&a), i32::MAX - 1);
}

#[test]
fn withdraw_negative_amount_past_the_range_is_refused() {
    let a = BankAccount::new(i32::MAX);
    let w = withdraw(&a, -1);
    assert_eq!(w.outcome, AttemptOutcome::OutOfRange);
    assert_eq!(balance(&a), i32::MAX);
}

use guarded_transfer::{AttemptOutcome, BankAccount, Guard, deposit_held, transfer_held};

#[test]
fn held_guard_blocks_a_second_probe() {
    let a = BankAccount::new(5);
    let g = a.try_acquire().expect("free at first");
    assert!(a.try_acquire().is_none());
    drop(g);
    assert!(a.try_acquire().is_some());
}

#[test]
fn guard_set_is_seen_by_the_next_holder() {
    let a = BankAccount::new(5);
    {
        let mut g = Guard::new(a.mutex().lock().unwrap());
        assert_eq!(g.get(), 5);
        g.set(42);
    }
    assert_eq!(a.try_acquire().unwrap().get(), 42);
}

fn fail_midway(g: Guard<'_>, fail: bool) -> Result<i32, i32> {
    let mut g = g;
    let m = deposit_held(&mut g, 10);
    if fail {
        return Err(m.after);
    }
    Ok(g.get())
}

#[test]
fn guard_released_on_early_exit() {
    let a = BankAccount::new(1);
    let g = a.try_acquire().unwrap();
    assert_eq!(fail_midway(g, true), Err(11));
    let again = a.try_acquire().expect("released by the early return");
    assert_eq!(again.get(), 11);
}

#[test]
fn busy_source_gives_no_transfer() {
    let x = BankAccount::new(100);
    let y = BankAccount::new(100);
    let held = x.try_acquire().unwrap();
    assert!(x.try_transfer(&y, 10).is_none());
    // the destination was never kept
    assert!(y.try_acquire().is_some());
    drop(held);
}

#[test]
fn busy_destination_gives_back_the_source() {
    let x = BankAccount::new(100);
    let y = BankAccount::new(100);
    let held = y.try_acquire().unwrap();
    assert!(x.try_transfer(&y, 10).is_none());
    let source = x.try_acquire().expect("source given back at once");
    assert_eq!(source.get(), 100);
    assert_eq!(held.get(), 100);
}

#[test]
fn opposite_orders_do_not_wait_on_each_other() {
    // One actor holds account one, as in the middle of its own transfer; the
    // other, going the opposite way, takes two and probes one: it is refused
    // at once and keeps nothing.
    let one = BankAccount::new(100);
    let two = BankAccount::new(100);
    let first_actor = one.try_acquire().unwrap();
    assert!(two.try_transfer(&one, 30).is_none());
    let second = two.try_acquire().expect("second actor kept nothing");
    drop(second);
    drop(first_actor);
    let rep = one.try_transfer(&two, 50).unwrap();
    assert_eq!(rep.settlement.outcome, AttemptOutcome::Success);
    let rep = two.try_transfer(&one, 30).unwrap();
    assert_eq!(rep.settlement.outcome, AttemptOutcome::Success);
    assert_eq!(one.try_acquire().unwrap().get(), 80);
    assert_eq!(two.try_acquire().unwrap().get(), 120);
}

#[test]
fn transfer_held_moves_under_both_guards() {
    let x = BankAccount::new(30);
    let y = BankAccount::new(0);
    let mut gx = x.try_acquire().unwrap();
    let mut gy = y.try_acquire().unwrap();
    let rep = transfer_held(&mut gx, &mut gy, 30);
    assert_eq!(rep.settlement.outcome, AttemptOutcome::Success);
    assert_eq!((gx.get(), gy.get()), (0, 30));
}

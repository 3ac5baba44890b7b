use rsatomic::{AtomicBool, Status};

#[test]
fn bool_new_then_load() {
    assert_eq!(AtomicBool::new(true).load(), true);
    assert_eq!(AtomicBool::new(false).load(), false);
}

#[test]
fn bool_store_then_load() {
    let mut cell = AtomicBool::new(false);
    cell.store(true);
    assert_eq!(cell.load(), true);
    cell.store(false);
    assert_eq!(cell.load(), false);
}

#[test]
fn bool_swap_returns_the_value_held_before() {
    let mut cell = AtomicBool::new(false);
    assert_eq!(cell.swap(true), false);
    assert_eq!(cell.load(), true);
    assert_eq!(cell.swap(true), true);
    assert_eq!(cell.load(), true);
    assert_eq!(cell.swap(false), true);
    assert_eq!(cell.load(), false);
}

#[test]
fn bool_compare_exchange_stores_on_a_match() {
    let mut cell = AtomicBool::new(false);
    assert_eq!(cell.compare_exchange(false, true), (Status::Success, false));
    assert_eq!(cell.load(), true);
    assert_eq!(cell.compare_exchange(true, true), (Status::Success, true));
    assert_eq!(cell.load(), true);
}

#[test]
fn bool_compare_exchange_leaves_the_cell_on_a_mismatch() {
    let mut cell = AtomicBool::new(true);
    assert_eq!(cell.compare_exchange(false, false), (Status::Failure, true));
    assert_eq!(cell.load(), true);
    cell.store(false);
    assert_eq!(cell.compare_exchange(true, true), (Status::Failure, false));
    assert_eq!(cell.load(), false);
}

#[test]
fn bool_compare_exchange_weak_fails_on_a_mismatch() {
    let mut cell = AtomicBool::new(true);
    assert_eq!(cell.compare_exchange_weak(false, false), (Status::Failure, true));
    assert_eq!(cell.load(), true);
}

#[test]
fn bool_compare_exchange_weak_succeeds_when_retried() {
    let mut cell = AtomicBool::new(false);
    let mut tries = 0;
    loop {
        let (status, seen) = cell.compare_exchange_weak(false, true);
        assert_eq!(seen, false);
        if status == Status::Success {
            break;
        }
        assert_eq!(cell.load(), false);
        tries += 1;
        assert!(tries < 1000);
    }
    assert_eq!(cell.load(), true);
}

#[test]
fn bool_fetch_and() {
    for (held, val) in [(false, false), (false, true), (true, false), (true, true)] {
        let mut cell = AtomicBool::new(held);
        assert_eq!(cell.fetch_and(val), held);
        assert_eq!(cell.load(), held && val);
    }
    let mut cell = AtomicBool::new(true);
    assert_eq!(cell.fetch_and(false), true);
    assert_eq!(cell.load(), false);
}

#[test]
fn bool_fetch_or() {
    for (held, val) in [(false, false), (false, true), (true, false), (true, true)] {
        let mut cell = AtomicBool::new(held);
        assert_eq!(cell.fetch_or(val), held);
        assert_eq!(cell.load(), held || val);
    }
    let mut cell = AtomicBool::new(false);
    assert_eq!(cell.fetch_or(true), false);
    assert_eq!(cell.load(), true);
}

#[test]
fn bool_fetch_xor() {
    for (held, val) in [(false, false), (false, true), (true, false), (true, true)] {
        let mut cell = AtomicBool::new(held);
        assert_eq!(cell.fetch_xor(val), held);
        assert_eq!(cell.load(), held != val);
    }
    let mut cell = AtomicBool::new(true);
    assert_eq!(cell.fetch_xor(true), true);
    assert_eq!(cell.load(), false);
}

#[test]
fn bool_fetch_nand() {
    for (held, val) in [(false, false), (false, true), (true, false), (true, true)] {
        let mut cell = AtomicBool::new(held);
        assert_eq!(cell.fetch_nand(val), held);
        assert_eq!(cell.load(), !(held && val));
    }
    let mut cell = AtomicBool::new(false);
    assert_eq!(cell.fetch_nand(false), false);
    assert_eq!(cell.load(), true);
}

#[test]
fn bool_fetch_nand_of_true_on_true_leaves_false() {
    let mut cell = AtomicBool::new(true);
    assert_eq!(cell.fetch_nand(true), true);
    assert_eq!(cell.load(), false);
}

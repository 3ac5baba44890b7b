use rsatomic::atomic_i8::{add_mod, installed};
use rsatomic::{AtomicI8, Status};

#[test]
fn i8_new_then_load() {
    assert_eq!(AtomicI8::new(i8::MIN).load(), i8::MIN);
    assert_eq!(AtomicI8::new(0).load(), 0);
    assert_eq!(AtomicI8::new(1).load(), 1);
    assert_eq!(AtomicI8::new(42).load(), 42);
    assert_eq!(AtomicI8::new(i8::MAX).load(), i8::MAX);
}

#[test]
fn i8_store_then_load() {
    let mut cell = AtomicI8::new(7);
    cell.store(i8::MIN);
    assert_eq!(cell.load(), i8::MIN);
    cell.store(0);
    assert_eq!(cell.load(), 0);
    cell.store(1);
    assert_eq!(cell.load(), 1);
    cell.store(42);
    assert_eq!(cell.load(), 42);
    cell.store(i8::MAX);
    assert_eq!(cell.load(), i8::MAX);
}

#[test]
fn i8_swap_returns_the_value_held_before() {
    let mut cell = AtomicI8::new(3);
    assert_eq!(cell.swap(i8::MAX), 3);
    assert_eq!(cell.load(), i8::MAX);
    assert_eq!(cell.swap(i8::MIN), i8::MAX);
    assert_eq!(cell.load(), i8::MIN);
}

#[test]
fn i8_compare_exchange_stores_on_a_match() {
    let mut cell = AtomicI8::new(5);
    assert_eq!(cell.compare_exchange(5, 9), (Status::Success, 5));
    assert_eq!(cell.load(), 9);
    assert_eq!(cell.compare_exchange(9, 9), (Status::Success, 9));
    assert_eq!(cell.load(), 9);
}

#[test]
fn i8_compare_exchange_leaves_the_cell_on_a_mismatch() {
    let mut cell = AtomicI8::new(5);
    assert_eq!(cell.compare_exchange(6, 9), (Status::Failure, 5));
    assert_eq!(cell.load(), 5);
    assert_eq!(cell.compare_exchange(i8::MAX, 0), (Status::Failure, 5));
    assert_eq!(cell.load(), 5);
}

#[test]
fn i8_compare_exchange_weak_fails_on_a_mismatch() {
    let mut cell = AtomicI8::new(5);
    assert_eq!(cell.compare_exchange_weak(6, 9), (Status::Failure, 5));
    assert_eq!(cell.load(), 5);
}

#[test]
fn i8_compare_exchange_weak_succeeds_when_retried() {
    let mut cell = AtomicI8::new(5);
    let mut tries = 0;
    loop {
        let (status, seen) = cell.compare_exchange_weak(5, 9);
        assert_eq!(seen, 5);
        if status == Status::Success {
            break;
        }
        assert_eq!(cell.load(), 5);
        tries += 1;
        assert!(tries < 1000);
    }
    assert_eq!(cell.load(), 9);
}

#[test]
fn i8_fetch_and() {
    let mut cell = AtomicI8::new(12);
    assert_eq!(cell.fetch_and(10), 12);
    assert_eq!(cell.load(), 8);
}

#[test]
fn i8_fetch_or() {
    let mut cell = AtomicI8::new(12);
    assert_eq!(cell.fetch_or(10), 12);
    assert_eq!(cell.load(), 14);
}

#[test]
fn i8_fetch_xor() {
    let mut cell = AtomicI8::new(12);
    assert_eq!(cell.fetch_xor(10), 12);
    assert_eq!(cell.load(), 6);
}

#[test]
fn i8_fetch_nand() {
    let mut cell = AtomicI8::new(12);
    assert_eq!(cell.fetch_nand(10), 12);
    assert_eq!(cell.load(), !8_i8);
    assert_eq!(cell.load(), -9);
    cell.store(0);
    assert_eq!(cell.fetch_nand(i8::MAX), 0);
    assert_eq!(cell.load(), -1);
}

#[test]
fn i8_fetch_add() {
    let mut cell = AtomicI8::new(40);
    assert_eq!(cell.fetch_add(2), 40);
    assert_eq!(cell.load(), 42);
}

#[test]
fn i8_fetch_add_wraps_around() {
    let mut cell = AtomicI8::new(i8::MAX);
    assert_eq!(cell.fetch_add(1), i8::MAX);
    assert_eq!(cell.load(), i8::MIN);
    cell.store(i8::MAX - 5);
    assert_eq!(cell.fetch_add(10), i8::MAX - 5);
    assert_eq!(cell.load(), i8::MIN + 4);
    cell.store(i8::MIN);
    assert_eq!(cell.fetch_add(-1), i8::MIN);
    assert_eq!(cell.load(), i8::MAX);
}

#[test]
fn i8_fetch_sub() {
    let mut cell = AtomicI8::new(42);
    assert_eq!(cell.fetch_sub(2), 42);
    assert_eq!(cell.load(), 40);
}

#[test]
fn i8_fetch_sub_wraps_around() {
    let mut cell = AtomicI8::new(i8::MIN);
    assert_eq!(cell.fetch_sub(1), i8::MIN);
    assert_eq!(cell.load(), i8::MAX);
    cell.store(i8::MIN + 4);
    assert_eq!(cell.fetch_sub(10), i8::MIN + 4);
    assert_eq!(cell.load(), i8::MAX - 5);
    cell.store(i8::MAX);
    assert_eq!(cell.fetch_sub(-1), i8::MAX);
    assert_eq!(cell.load(), i8::MIN);
}

#[test]
fn i8_fetch_max() {
    let mut cell = AtomicI8::new(10);
    assert_eq!(cell.fetch_max(7), 10);
    assert_eq!(cell.load(), 10);
    assert_eq!(cell.fetch_max(12), 10);
    assert_eq!(cell.load(), 12);
    assert_eq!(cell.fetch_max(i8::MAX), 12);
    assert_eq!(cell.load(), i8::MAX);
    cell.store(-3);
    assert_eq!(cell.fetch_max(i8::MIN), -3);
    assert_eq!(cell.load(), -3);
    assert_eq!(cell.fetch_max(2), -3);
    assert_eq!(cell.load(), 2);
}

#[test]
fn i8_fetch_min() {
    let mut cell = AtomicI8::new(10);
    assert_eq!(cell.fetch_min(12), 10);
    assert_eq!(cell.load(), 10);
    assert_eq!(cell.fetch_min(7), 10);
    assert_eq!(cell.load(), 7);
    assert_eq!(cell.fetch_min(i8::MIN), 7);
    assert_eq!(cell.load(), i8::MIN);
    cell.store(3);
    assert_eq!(cell.fetch_min(i8::MAX), 3);
    assert_eq!(cell.load(), 3);
    assert_eq!(cell.fetch_min(-2), 3);
    assert_eq!(cell.load(), -2);
}

#[test]
fn i8_add_mod() {
    assert_eq!(add_mod(5, 9, 4), 2);
    assert_eq!(add_mod(0, 0, 1), 0);
    assert_eq!(add_mod(3, 4, 7), 0);
    assert_eq!(add_mod(3, 4, i8::MAX), 7);
    assert_eq!(add_mod(i8::MAX, 1, i8::MAX), 1);
    assert_eq!(add_mod(i8::MAX, i8::MAX, i8::MAX), 0);
    assert_eq!(add_mod(i8::MAX, i8::MAX, 10), 4);
    assert_eq!(add_mod(i8::MAX, 1, 2), 0);
    assert_eq!(add_mod(-7, 0, 3), -1);
    assert_eq!(add_mod(-7, 0, -3), -1);
    assert_eq!(add_mod(7, 0, -3), 1);
    assert_eq!(add_mod(-5, -9, 4), -2);
    assert_eq!(add_mod(i8::MIN, 0, -1), 0);
    assert_eq!(add_mod(i8::MIN, i8::MIN, i8::MAX), -2);
    assert_eq!(add_mod(i8::MAX, i8::MAX, i8::MIN), (i8::MAX - 1));
    assert_eq!(add_mod(i8::MIN, i8::MIN, i8::MIN), 0);
    assert_eq!(add_mod(i8::MIN, -1, 10), -9);
    assert_eq!(add_mod(-1, 1, 5), 0);
}

#[test]
fn i8_fetch_add_mod_installs_and_reports_the_new_value() {
    let mut cell = AtomicI8::new(0);
    cell.store(5);
    assert_eq!(cell.fetch_add_mod(9, 4), (Status::Success, 2));
    assert_eq!(cell.load(), 2);
    cell.store(0);
    assert_eq!(cell.fetch_add_mod(0, 1), (Status::Success, 0));
    assert_eq!(cell.load(), 0);
    cell.store(3);
    assert_eq!(cell.fetch_add_mod(4, 7), (Status::Success, 0));
    assert_eq!(cell.load(), 0);
    cell.store(3);
    assert_eq!(cell.fetch_add_mod(4, i8::MAX), (Status::Success, 7));
    assert_eq!(cell.load(), 7);
    cell.store(i8::MAX);
    assert_eq!(cell.fetch_add_mod(1, i8::MAX), (Status::Success, 1));
    assert_eq!(cell.load(), 1);
    cell.store(i8::MAX);
    assert_eq!(cell.fetch_add_mod(i8::MAX, i8::MAX), (Status::Success, 0));
    assert_eq!(cell.load(), 0);
    cell.store(i8::MAX);
    assert_eq!(cell.fetch_add_mod(i8::MAX, 10), (Status::Success, 4));
    assert_eq!(cell.load(), 4);
    cell.store(i8::MAX);
    assert_eq!(cell.fetch_add_mod(1, 2), (Status::Success, 0));
    assert_eq!(cell.load(), 0);
    cell.store(-7);
    assert_eq!(cell.fetch_add_mod(0, 3), (Status::Success, -1));
    assert_eq!(cell.load(), -1);
    cell.store(-7);
    assert_eq!(cell.fetch_add_mod(0, -3), (Status::Success, -1));
    assert_eq!(cell.load(), -1);
    cell.store(7);
    assert_eq!(cell.fetch_add_mod(0, -3), (Status::Success, 1));
    assert_eq!(cell.load(), 1);
    cell.store(-5);
    assert_eq!(cell.fetch_add_mod(-9, 4), (Status::Success, -2));
    assert_eq!(cell.load(), -2);
    cell.store(i8::MIN);
    assert_eq!(cell.fetch_add_mod(0, -1), (Status::Success, 0));
    assert_eq!(cell.load(), 0);
    cell.store(i8::MIN);
    assert_eq!(cell.fetch_add_mod(i8::MIN, i8::MAX), (Status::Success, -2));
    assert_eq!(cell.load(), -2);
    cell.store(i8::MAX);
    assert_eq!(cell.fetch_add_mod(i8::MAX, i8::MIN), (Status::Success, (i8::MAX - 1)));
    assert_eq!(cell.load(), (i8::MAX - 1));
    cell.store(i8::MIN);
    assert_eq!(cell.fetch_add_mod(i8::MIN, i8::MIN), (Status::Success, 0));
    assert_eq!(cell.load(), 0);
    cell.store(i8::MIN);
    assert_eq!(cell.fetch_add_mod(-1, 10), (Status::Success, -9));
    assert_eq!(cell.load(), -9);
    cell.store(-1);
    assert_eq!(cell.fetch_add_mod(1, 5), (Status::Success, 0));
    assert_eq!(cell.load(), 0);
}

#[test]
fn i8_installed() {
    assert_eq!(installed(Ok(5), 9, 4), (Status::Success, 2));
    assert_eq!(installed(Ok(i8::MAX), i8::MAX, 10), (Status::Success, 4));
    assert_eq!(installed(Err(5), 9, 4), (Status::Failure, 5));
    assert_eq!(installed(Err(i8::MIN), 1, 1), (Status::Failure, i8::MIN));
}

#[test]
fn i8_repeated_fetch_add_loses_no_update() {
    let mut cell = AtomicI8::new(0);
    let workers: i8 = 4;
    let rounds: i8 = 25;
    let mut worker: i8 = 0;
    while worker < workers {
        let mut round: i8 = 0;
        while round < rounds {
            assert_eq!(cell.fetch_add(1), worker * rounds + round);
            round += 1;
        }
        worker += 1;
    }
    assert_eq!(cell.load(), 100);
}

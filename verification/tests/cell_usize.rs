use rsatomic::atomic_usize::{add_mod, installed};
use rsatomic::{AtomicUsize, Status};

#[test]
fn usize_new_then_load() {
    assert_eq!(AtomicUsize::new(0).load(), 0);
    assert_eq!(AtomicUsize::new(1).load(), 1);
    assert_eq!(AtomicUsize::new(42).load(), 42);
    assert_eq!(AtomicUsize::new(usize::MAX).load(), usize::MAX);
}

#[test]
fn usize_store_then_load() {
    let mut cell = AtomicUsize::new(7);
    cell.store(0);
    assert_eq!(cell.load(), 0);
    cell.store(1);
    assert_eq!(cell.load(), 1);
    cell.store(42);
    assert_eq!(cell.load(), 42);
    cell.store(usize::MAX);
    assert_eq!(cell.load(), usize::MAX);
}

#[test]
fn usize_swap_returns_the_value_held_before() {
    let mut cell = AtomicUsize::new(3);
    assert_eq!(cell.swap(usize::MAX), 3);
    assert_eq!(cell.load(), usize::MAX);
    assert_eq!(cell.swap(0), usize::MAX);
    assert_eq!(cell.load(), 0);
}

#[test]
fn usize_compare_exchange_stores_on_a_match() {
    let mut cell = AtomicUsize::new(5);
    assert_eq!(cell.compare_exchange(5, 9), (Status::Success, 5));
    assert_eq!(cell.load(), 9);
    assert_eq!(cell.compare_exchange(9, 9), (Status::Success, 9));
    assert_eq!(cell.load(), 9);
}

#[test]
fn usize_compare_exchange_leaves_the_cell_on_a_mismatch() {
    let mut cell = AtomicUsize::new(5);
    assert_eq!(cell.compare_exchange(6, 9), (Status::Failure, 5));
    assert_eq!(cell.load(), 5);
    assert_eq!(cell.compare_exchange(usize::MAX, 0), (Status::Failure, 5));
    assert_eq!(cell.load(), 5);
}

#[test]
fn usize_compare_exchange_weak_fails_on_a_mismatch() {
    let mut cell = AtomicUsize::new(5);
    assert_eq!(cell.compare_exchange_weak(6, 9), (Status::Failure, 5));
    assert_eq!(cell.load(), 5);
}

#[test]
fn usize_compare_exchange_weak_succeeds_when_retried() {
    let mut cell = AtomicUsize::new(5);
    let mut tries = 0;
    loop {
        let (status, seen) = cell.compare_exchange_weak(5, 9);
        assert_eq!(seen, 5);
        if status == Status::Success {
            break;
        }
        assert_eq!(cell.load(), 5);
        tries += 1;
        assert!(tries < 1000);
    }
    assert_eq!(cell.load(), 9);
}

#[test]
fn usize_fetch_and() {
    let mut cell = AtomicUsize::new(12);
    assert_eq!(cell.fetch_and(10), 12);
    assert_eq!(cell.load(), 8);
}

#[test]
fn usize_fetch_or() {
    let mut cell = AtomicUsize::new(12);
    assert_eq!(cell.fetch_or(10), 12);
    assert_eq!(cell.load(), 14);
}

#[test]
fn usize_fetch_xor() {
    let mut cell = AtomicUsize::new(12);
    assert_eq!(cell.fetch_xor(10), 12);
    assert_eq!(cell.load(), 6);
}

#[test]
fn usize_fetch_nand() {
    let mut cell = AtomicUsize::new(12);
    assert_eq!(cell.fetch_nand(10), 12);
    assert_eq!(cell.load(), !8_usize);
    assert_eq!(cell.load(), usize::MAX - 8);
    cell.store(0);
    assert_eq!(cell.fetch_nand(usize::MAX), 0);
    assert_eq!(cell.load(), usize::MAX);
}

#[test]
fn usize_fetch_add() {
    let mut cell = AtomicUsize::new(40);
    assert_eq!(cell.fetch_add(2), 40);
    assert_eq!(cell.load(), 42);
}

#[test]
fn usize_fetch_add_wraps_around() {
    let mut cell = AtomicUsize::new(usize::MAX);
    assert_eq!(cell.fetch_add(1), usize::MAX);
    assert_eq!(cell.load(), 0);
    cell.store(usize::MAX - 5);
    assert_eq!(cell.fetch_add(10), usize::MAX - 5);
    assert_eq!(cell.load(), 0 + 4);
}

#[test]
fn usize_fetch_sub() {
    let mut cell = AtomicUsize::new(42);
    assert_eq!(cell.fetch_sub(2), 42);
    assert_eq!(cell.load(), 40);
}

#[test]
fn usize_fetch_sub_wraps_around() {
    let mut cell = AtomicUsize::new(0);
    assert_eq!(cell.fetch_sub(1), 0);
    assert_eq!(cell.load(), usize::MAX);
    cell.store(0 + 4);
    assert_eq!(cell.fetch_sub(10), 0 + 4);
    assert_eq!(cell.load(), usize::MAX - 5);
}

#[test]
fn usize_fetch_max() {
    let mut cell = AtomicUsize::new(10);
    assert_eq!(cell.fetch_max(7), 10);
    assert_eq!(cell.load(), 10);
    assert_eq!(cell.fetch_max(12), 10);
    assert_eq!(cell.load(), 12);
    assert_eq!(cell.fetch_max(usize::MAX), 12);
    assert_eq!(cell.load(), usize::MAX);
}

#[test]
fn usize_fetch_min() {
    let mut cell = AtomicUsize::new(10);
    assert_eq!(cell.fetch_min(12), 10);
    assert_eq!(cell.load(), 10);
    assert_eq!(cell.fetch_min(7), 10);
    assert_eq!(cell.load(), 7);
    assert_eq!(cell.fetch_min(0), 7);
    assert_eq!(cell.load(), 0);
}

#[test]
fn usize_add_mod() {
    assert_eq!(add_mod(5, 9, 4), 2);
    assert_eq!(add_mod(0, 0, 1), 0);
    assert_eq!(add_mod(3, 4, 7), 0);
    assert_eq!(add_mod(3, 4, usize::MAX), 7);
    assert_eq!(add_mod(usize::MAX, 1, usize::MAX), 1);
    assert_eq!(add_mod(usize::MAX, usize::MAX, usize::MAX), 0);
    assert_eq!(add_mod(usize::MAX, usize::MAX, 10), 0);
    assert_eq!(add_mod(usize::MAX, 1, 2), 0);
}

#[test]
fn usize_fetch_add_mod_installs_and_reports_the_new_value() {
    let mut cell = AtomicUsize::new(0);
    cell.store(5);
    assert_eq!(cell.fetch_add_mod(9, 4), (Status::Success, 2));
    assert_eq!(cell.load(), 2);
    cell.store(0);
    assert_eq!(cell.fetch_add_mod(0, 1), (Status::Success, 0));
    assert_eq!(cell.load(), 0);
    cell.store(3);
    assert_eq!(cell.fetch_add_mod(4, 7), (Status::Success, 0));
    assert_eq!(cell.load(), 0);
    cell.store(3);
    assert_eq!(cell.fetch_add_mod(4, usize::MAX), (Status::Success, 7));
    assert_eq!(cell.load(), 7);
    cell.store(usize::MAX);
    assert_eq!(cell.fetch_add_mod(1, usize::MAX), (Status::Success, 1));
    assert_eq!(cell.load(), 1);
    cell.store(usize::MAX);
    assert_eq!(cell.fetch_add_mod(usize::MAX, usize::MAX), (Status::Success, 0));
    assert_eq!(cell.load(), 0);
    cell.store(usize::MAX);
    assert_eq!(cell.fetch_add_mod(usize::MAX, 10), (Status::Success, 0));
    assert_eq!(cell.load(), 0);
    cell.store(usize::MAX);
    assert_eq!(cell.fetch_add_mod(1, 2), (Status::Success, 0));
    assert_eq!(cell.load(), 0);
}

#[test]
fn usize_installed() {
    assert_eq!(installed(Ok(5), 9, 4), (Status::Success, 2));
    assert_eq!(installed(Ok(usize::MAX), usize::MAX, 10), (Status::Success, 0));
    assert_eq!(installed(Err(5), 9, 4), (Status::Failure, 5));
    assert_eq!(installed(Err(0), 1, 1), (Status::Failure, 0));
}

#[test]
fn usize_repeated_fetch_add_loses_no_update() {
    let mut cell = AtomicUsize::new(0);
    let workers: usize = 4;
    let rounds: usize = 25;
    let mut worker: usize = 0;
    while worker < workers {
        let mut round: usize = 0;
        while round < rounds {
            assert_eq!(cell.fetch_add(1), worker * rounds + round);
            round += 1;
        }
        worker += 1;
    }
    assert_eq!(cell.load(), 100);
}

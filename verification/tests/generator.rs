use fib_contract::Fibonacci;
use fib_contract::Threebonacci;

#[test]
fn fib() {
    let mut f = Fibonacci::new();

    assert_eq!(f.nth(9), Some(89));
}

#[test]
fn threebonacci() {
    let mut t = Threebonacci::new();

    assert_eq!(t.next(), Some(1));
    assert_eq!(t.next(), Some(2));
    assert_eq!(t.next(), Some(4));
    assert_eq!(t.next(), Some(7));
}

#[test]
fn fib_first_terms() {
    let mut f = Fibonacci::new();
    let expected: [u64; 10] = [1, 2, 3, 5, 8, 13, 21, 34, 55, 89];
    for e in expected {
        assert_eq!(f.next(), Some(e));
    }
}

#[test]
fn fib_next_overflow_leaves_window_untouched() {
    let mut f = Fibonacci { prev: u64::MAX, curr: 1 };
    assert_eq!(f.next(), None);
    assert_eq!(f, Fibonacci { prev: u64::MAX, curr: 1 });
}

#[test]
fn threebonacci_next_overflow_leaves_window_untouched() {
    let mut t = Threebonacci { prev_2: u64::MAX, prev_1: 1, curr: 1 };
    assert_eq!(t.next(), None);
    assert_eq!(t, Threebonacci { prev_2: u64::MAX, prev_1: 1, curr: 1 });
}

#[test]
fn fib_nth_runs_out_of_range() {
    let mut f = Fibonacci::new();
    // The 64-bit range holds terms up to the 92nd produced one; one past it
    // must fail rather than wrap.
    assert_eq!(f.nth(92), None);
}

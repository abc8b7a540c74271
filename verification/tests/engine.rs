use fib_contract::engine::nth_term;
use fib_contract::engine::EngineError;
use fib_contract::engine::Variant;

#[test]
fn two_term_ninth_term_is_89() {
    assert_eq!(nth_term(Variant::TwoTerm, 9), Ok(89));
}

#[test]
fn two_term_small_terms() {
    assert_eq!(nth_term(Variant::TwoTerm, 1), Ok(2));
    assert_eq!(nth_term(Variant::TwoTerm, 2), Ok(3));
    assert_eq!(nth_term(Variant::TwoTerm, 3), Ok(5));
    assert_eq!(nth_term(Variant::TwoTerm, 4), Ok(8));
}

#[test]
fn three_term_small_terms() {
    assert_eq!(nth_term(Variant::ThreeTerm, 1), Ok(2));
    assert_eq!(nth_term(Variant::ThreeTerm, 2), Ok(4));
    assert_eq!(nth_term(Variant::ThreeTerm, 3), Ok(7));
    assert_eq!(nth_term(Variant::ThreeTerm, 4), Ok(13));
}

#[test]
fn repeated_runs_agree() {
    for n in [1u64, 7, 9, 50, 91, 92, 1000] {
        let first = nth_term(Variant::TwoTerm, n);
        let second = nth_term(Variant::TwoTerm, n);
        assert_eq!(first, second);
        let first = nth_term(Variant::ThreeTerm, n);
        let second = nth_term(Variant::ThreeTerm, n);
        assert_eq!(first, second);
    }
}

#[test]
fn zero_steps_is_out_of_range() {
    assert_eq!(nth_term(Variant::TwoTerm, 0), Err(EngineError::IndexOutOfRange));
    assert_eq!(nth_term(Variant::ThreeTerm, 0), Err(EngineError::IndexOutOfRange));
}

#[test]
fn two_term_overflow_threshold() {
    // The largest step count still representable in 64 bits...
    assert_eq!(nth_term(Variant::TwoTerm, 91), Ok(12200160415121876738));
    // ... and at and beyond the threshold the run must fail, not wrap.
    assert_eq!(nth_term(Variant::TwoTerm, 92), Err(EngineError::Overflow));
    assert_eq!(nth_term(Variant::TwoTerm, 93), Err(EngineError::Overflow));
    assert_eq!(nth_term(Variant::TwoTerm, 10_000), Err(EngineError::Overflow));
}

#[test]
fn three_term_overflow() {
    assert_eq!(nth_term(Variant::ThreeTerm, 10_000), Err(EngineError::Overflow));
}

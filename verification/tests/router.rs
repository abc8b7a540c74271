use fib_contract::package::AccessMode;
use fib_contract::router::ArgValue;
use fib_contract::router::ContractState;
use fib_contract::router::InvokeError;
use fib_contract::router::NamedArg;

fn entry_points(names: &[&str]) -> Vec<String> {
    names.iter().map(|n| n.to_string()).collect()
}

fn step_args(n: u64) -> Vec<NamedArg> {
    vec![NamedArg { name: "nth_fib".to_string(), value: ArgValue::U64(n) }]
}

fn installed(names: &[&str]) -> ContractState {
    let mut s = ContractState::new();
    s.install(1, AccessMode::Public, entry_points(names))
        .expect("install should succeed");
    s
}

#[test]
fn successful_invoke_writes_result_slot() {
    let mut s = installed(&["fib"]);
    assert_eq!(s.last_result, None);
    let r = s.invoke("fib", &step_args(9), None);
    assert_eq!(r, Ok(()));
    assert_eq!(s.last_result, Some(89));
}

#[test]
fn second_success_overwrites_first_result() {
    let mut s = installed(&["fib", "threebonacci"]);
    s.invoke("fib", &step_args(9), None).expect("first invoke should succeed");
    assert_eq!(s.last_result, Some(89));
    s.invoke("threebonacci", &step_args(3), None)
        .expect("second invoke should succeed");
    // Only the most recent result is readable; 89 is gone.
    assert_eq!(s.last_result, Some(7));
}

#[test]
fn unknown_operation_leaves_state_untouched() {
    let mut s = installed(&["fib"]);
    s.invoke("fib", &step_args(9), None).expect("invoke should succeed");
    let before = s.clone();
    let r = s.invoke("threebonacci", &step_args(3), None);
    assert_eq!(r, Err(InvokeError::UnknownOperation));
    assert_eq!(s, before);
}

#[test]
fn declared_but_unhandled_operation_is_unknown() {
    let mut s = installed(&["mystery"]);
    let r = s.invoke("mystery", &step_args(3), None);
    assert_eq!(r, Err(InvokeError::UnknownOperation));
}

#[test]
fn missing_argument_is_invalid() {
    let mut s = installed(&["fib"]);
    let r = s.invoke("fib", &Vec::new(), None);
    assert_eq!(r, Err(InvokeError::InvalidArgument));
    assert_eq!(s.last_result, None);
}

#[test]
fn mistyped_argument_is_invalid() {
    let mut s = installed(&["fib"]);
    let args = vec![NamedArg {
        name: "nth_fib".to_string(),
        value: ArgValue::Text("nine".to_string()),
    }];
    let r = s.invoke("fib", &args, None);
    assert_eq!(r, Err(InvokeError::InvalidArgument));
}

#[test]
fn zero_step_count_is_out_of_range() {
    let mut s = installed(&["fib"]);
    let before = s.clone();
    let r = s.invoke("fib", &step_args(0), None);
    assert_eq!(r, Err(InvokeError::IndexOutOfRange));
    assert_eq!(s, before);
}

#[test]
fn overflowing_run_aborts_without_a_write() {
    let mut s = installed(&["fib"]);
    s.invoke("fib", &step_args(9), None).expect("invoke should succeed");
    let before = s.clone();
    let r = s.invoke("fib", &step_args(92), None);
    assert_eq!(r, Err(InvokeError::Overflow));
    assert_eq!(s, before);
}

#[test]
fn unknown_version_pin_is_rejected() {
    let mut s = installed(&["fib"]);
    let before = s.clone();
    let r = s.invoke("fib", &step_args(9), Some(5));
    assert_eq!(r, Err(InvokeError::UnknownVersion));
    assert_eq!(s, before);
}

#[test]
fn pinned_version_keeps_its_behavior_after_upgrade() {
    let mut s = installed(&["fib"]);
    s.invoke("fib", &step_args(9), Some(1))
        .expect("pinned invoke should succeed");
    let result_before_upgrade = s.last_result;

    // The upgraded active version no longer exposes the operation ...
    s.upgrade(1, entry_points(&["threebonacci"]));
    let r = s.invoke("fib", &step_args(9), None);
    assert_eq!(r, Err(InvokeError::UnknownOperation));

    // ... but pinning version 1 still behaves exactly as before the upgrade.
    s.last_result = None;
    s.invoke("fib", &step_args(9), Some(1))
        .expect("pinned invoke should still succeed");
    assert_eq!(s.last_result, result_before_upgrade);
}

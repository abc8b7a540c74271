use fib_contract::package::AccessMode;
use fib_contract::package::PackageError;
use fib_contract::package::PackageRecord;
use fib_contract::router::ContractState;

fn entry_points(names: &[&str]) -> Vec<String> {
    names.iter().map(|n| n.to_string()).collect()
}

#[test]
fn install_creates_version_one() {
    let mut s = ContractState::new();
    let r = s.install(7, AccessMode::Public, entry_points(&["fib"]));
    assert_eq!(r, Ok((7, 1)));
    let p = s.package.as_ref().expect("package should be installed");
    assert_eq!(p.package_id, 7);
    assert_eq!(p.versions.len(), 1);
    assert_eq!(p.versions[0].version_number, 1);
    assert_eq!(p.versions[0].entry_points, entry_points(&["fib"]));
    assert_eq!(s.active_version(), Some(1));
}

#[test]
fn second_install_is_rejected_untouched() {
    let mut s = ContractState::new();
    s.install(7, AccessMode::Public, entry_points(&["fib"]))
        .expect("first install should succeed");
    let before = s.clone();
    let r = s.install(8, AccessMode::Restricted, entry_points(&["other"]));
    assert_eq!(r, Err(PackageError::AlreadyInstalled));
    assert_eq!(s, before);
}

#[test]
fn upgrade_keeps_identity_and_steps_version_by_one() {
    let mut s = ContractState::new();
    let (id, v1) = s
        .install(42, AccessMode::Public, entry_points(&["fib"]))
        .expect("install should succeed");
    assert_eq!((id, v1), (42, 1));
    let v2 = s.upgrade(42, entry_points(&["fib", "threebonacci"]));
    assert_eq!(v2, 2);
    let v3 = s.upgrade(42, entry_points(&["threebonacci"]));
    assert_eq!(v3, 3);
    let p = s.package.as_ref().expect("package should be installed");
    assert_eq!(p.package_id, 42);
    assert_eq!(p.versions.len(), 3);
    assert_eq!(s.active_version(), Some(3));
}

#[test]
fn pinned_version_survives_upgrade_unchanged() {
    let mut p = PackageRecord::new(1, AccessMode::Public, entry_points(&["fib"]));
    let before = p
        .resolve(Some(1))
        .expect("version 1 should resolve")
        .clone();
    p.upgrade(entry_points(&["threebonacci"]));
    let after = p
        .resolve(Some(1))
        .expect("version 1 should still resolve")
        .clone();
    assert_eq!(before, after);
}

#[test]
fn resolve_none_is_latest() {
    let mut p = PackageRecord::new(1, AccessMode::Public, entry_points(&["fib"]));
    p.upgrade(entry_points(&["threebonacci"]));
    let active = p.resolve(None).expect("active version should resolve");
    assert_eq!(active.version_number, 2);
    assert_eq!(active.entry_points, entry_points(&["threebonacci"]));
}

#[test]
fn resolve_unknown_version_fails() {
    let p = PackageRecord::new(1, AccessMode::Public, entry_points(&["fib"]));
    assert_eq!(p.resolve(Some(2)), Err(PackageError::UnknownVersion));
    assert_eq!(p.resolve(Some(0)), Err(PackageError::UnknownVersion));
}

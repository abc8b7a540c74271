//! The entry-point router: the externally callable surface of a deployed
//! package.
//!
//! `invoke` resolves the active (or explicitly pinned) version, validates the
//! operation name against that version's entry points, extracts the typed
//! step-count argument, delegates to the sequence engine, and on success
//! overwrites the single persistent result slot. On any failure the call
//! aborts with a typed error and the whole state is left exactly as it was:
//! the call is all-or-nothing.

use vstd::prelude::*;

use crate::engine::nth_term;
use crate::engine::nth_term_model;
use crate::engine::EngineError;
use crate::engine::Variant;
use crate::package::str_eq;
use crate::package::AccessMode;
use crate::package::PackageError;
use crate::package::PackageRecord;
use crate::package::VersionRecord;

verus! {

/// A typed argument value handed in by the caller.
#[derive(Clone, Debug, PartialEq, Eq)]
pub enum ArgValue {
    U64(u64),
    Text(String),
}

/// One named argument of an invocation.
#[derive(Clone, Debug, PartialEq, Eq)]
pub struct NamedArg {
    pub name: String,
    pub value: ArgValue,
}

/// How an invocation can fail. The two engine failures are carried through
/// unchanged in meaning.
#[derive(Clone, Copy, Debug, PartialEq, Eq)]
pub enum InvokeError {
    UnknownVersion,
    UnknownOperation,
    InvalidArgument,
    IndexOutOfRange,
    Overflow,
}

/// The engine failure behind a failed delegation, as the router reports it.
pub open spec fn engine_to_invoke(e: EngineError) -> InvokeError {
    match e {
        EngineError::IndexOutOfRange => InvokeError::IndexOutOfRange,
        EngineError::Overflow => InvokeError::Overflow,
    }
}

/// The value of the first argument with the given name, if any.
pub open spec fn arg_lookup(args: Seq<NamedArg>, name: Seq<char>) -> Option<ArgValue>
    decreases args.len(),
{
    if args.len() == 0 {
        None
    } else if args[0].name@ == name {
        Some(args[0].value)
    } else {
        arg_lookup(args.drop_first(), name)
    }
}

/// The dispatch table the router owns: which engine variant a named
/// operation runs. Only these two operations have handlers.
pub open spec fn variant_of(op: Seq<char>) -> Option<Variant> {
    if op == "fib"@ {
        Some(Variant::TwoTerm)
    } else if op == "threebonacci"@ {
        Some(Variant::ThreeTerm)
    } else {
        None
    }
}

/// Look a named operation up in the dispatch table.
fn variant_for(op: &str) -> (r: Option<Variant>)
    ensures
        r == variant_of(op@),
{
    if str_eq(op, "fib") {
        Some(Variant::TwoTerm)
    } else if str_eq(op, "threebonacci") {
        Some(Variant::ThreeTerm)
    } else {
        None
    }
}

/// Find the first argument with the given name.
fn find_arg<'a>(args: &'a Vec<NamedArg>, name: &str) -> (r: Option<&'a ArgValue>)
    ensures
        match r {
            Some(v) => arg_lookup(args@, name@) == Some(*v),
            None => arg_lookup(args@, name@) is None,
        },
{
    let mut i: usize = 0;
    proof {
        assert(args@.skip(0) =~= args@);
    }
    while i < args.len()
        invariant
            i <= args@.len(),
            arg_lookup(args@.skip(i as int), name@) == arg_lookup(args@, name@),
        decreases args@.len() - i,
    {
        proof {
            assert(args@.skip(i as int)[0] == args@[i as int]);
        }
        if str_eq(args[i].name.as_str(), name) {
            return Some(&args[i].value);
        }
        proof {
            assert(args@.skip(i as int).drop_first() =~= args@.skip(i as int + 1));
        }
        i = i + 1;
    }
    proof {
        assert(args@.skip(i as int).len() == 0);
    }
    None
}

/// The full externally visible state of one deployed package instance: the
/// package record (absent before installation) and the single persistent
/// result slot (absent until the first successful invocation).
#[derive(Clone, Debug, PartialEq, Eq)]
pub struct ContractState {
    pub package: Option<PackageRecord>,
    pub last_result: Option<u64>,
}

/// What `install` does: a second installation is rejected untouched; a first
/// one creates version 1 of a fresh package and returns the identity with
/// that version number.
pub open spec fn install_post(
    pre: ContractState,
    package_id: u64,
    access: AccessMode,
    entry_points: Seq<String>,
    post: ContractState,
    r: Result<(u64, u32), PackageError>,
) -> bool {
    if pre.package is Some {
        &&& r == Err::<(u64, u32), PackageError>(PackageError::AlreadyInstalled)
        &&& post == pre
    } else {
        &&& r == Ok::<(u64, u32), PackageError>((package_id, 1u32))
        &&& post.last_result == pre.last_result
        &&& post.package matches Some(p) && {
            &&& p.package_id == package_id
            &&& p.access == access
            &&& p.versions@.len() == 1
            &&& p.versions@[0].version_number == 1
            &&& p.versions@[0].entry_points@ == entry_points
        }
    }
}

/// What `upgrade` does: one version is appended, numbered exactly one above
/// the previous maximum; the identity, the access mode, every existing
/// version and the result slot are left untouched.
pub open spec fn upgrade_post(
    pre: ContractState,
    entry_points: Seq<String>,
    post: ContractState,
    v: u32,
) -> bool {
    &&& post.last_result == pre.last_result
    &&& pre.package matches Some(p0) && post.package matches Some(p1) && {
        &&& p1.package_id == p0.package_id
        &&& p1.access == p0.access
        &&& v == p0.versions@.len() + 1
        &&& p1.versions@.len() == p0.versions@.len() + 1
        &&& forall|i: int|
            0 <= i < p0.versions@.len() ==> #[trigger] p1.versions@[i] == p0.versions@[i]
        &&& p1.versions@[v - 1].version_number == v
        &&& p1.versions@[v - 1].entry_points@ == entry_points
    }
}

/// What `invoke` does. Failures come in a fixed order of checks — unknown
/// pin, undeclared or unhandled operation, missing or mistyped argument,
/// engine failure — and any failure leaves the state byte-identical. On
/// success only the result slot changes: it holds exactly the engine's term.
pub open spec fn invoke_post(
    pre: ContractState,
    op: Seq<char>,
    args: Seq<NamedArg>,
    pin: Option<u32>,
    post: ContractState,
    r: Result<(), InvokeError>,
) -> bool {
    let p = pre.package->Some_0;
    &&& (r is Err ==> post == pre)
    &&& if !p.pin_ok(pin) {
        r == Err::<(), InvokeError>(InvokeError::UnknownVersion)
    } else {
        let vr = p.resolved_spec(pin);
        if !(vr.declares_spec(op) && variant_of(op) is Some) {
            r == Err::<(), InvokeError>(InvokeError::UnknownOperation)
        } else {
            match arg_lookup(args, "nth_fib"@) {
                Some(ArgValue::U64(n)) => match nth_term_model(variant_of(op)->Some_0, n) {
                    Ok(t) => {
                        &&& r == Ok::<(), InvokeError>(())
                        &&& post.package == pre.package
                        &&& post.last_result == Some(t)
                    },
                    Err(e) => r == Err::<(), InvokeError>(engine_to_invoke(e)),
                },
                _ => r == Err::<(), InvokeError>(InvokeError::InvalidArgument),
            }
        }
    }
}

impl ContractState {
    /// Well-formedness: the installed package, if any, is well-formed.
    pub open spec fn wf(self) -> bool {
        match self.package {
            Some(p) => p.wf(),
            None => true,
        }
    }

    /// The state of a context where nothing was ever installed or computed.
    pub fn new() -> (s: ContractState)
        ensures
            s.package is None,
            s.last_result is None,
            s.wf(),
    {
        ContractState { package: None, last_result: None }
    }

    /// Install a package under the host-assigned identity, with exactly one
    /// version exposing the given entry points. Fails with
    /// `AlreadyInstalled`, mutating nothing, if this context already holds a
    /// package.
    pub fn install(&mut self, package_id: u64, access: AccessMode, entry_points: Vec<String>)
        -> (r: Result<(u64, u32), PackageError>)
        requires
            old(self).wf(),
        ensures
            final(self).wf(),
            install_post(*old(self), package_id, access, entry_points@, *final(self), r),
    {
        if self.package.is_some() {
            return Err(PackageError::AlreadyInstalled);
        }
        self.package = Some(PackageRecord::new(package_id, access, entry_points));
        Ok((package_id, 1))
    }

    /// Upgrade the installed package: append a new version exposing the
    /// given entry points and return its number. The package identity is
    /// unchanged and every previously issued version stays as it was.
    pub fn upgrade(&mut self, package_id: u64, entry_points: Vec<String>) -> (v: u32)
        requires
            old(self).wf(),
            old(self).package matches Some(p) && p.package_id == package_id && p.versions@.len()
                < u32::MAX,
        ensures
            final(self).wf(),
            upgrade_post(*old(self), entry_points@, *final(self), v),
    {
        let mut pkg = self.package.take().unwrap();
        let v = pkg.upgrade(entry_points);
        self.package = Some(pkg);
        v
    }

    /// The number of the currently active version, or `None` before
    /// installation.
    pub fn active_version(&self) -> (r: Option<u32>)
        requires
            self.wf(),
        ensures
            match self.package {
                Some(p) => r == Some(p.versions@.len() as u32),
                None => r is None,
            },
    {
        match &self.package {
            Some(p) => Some(p.versions.len() as u32),
            None => None,
        }
    }

    /// Invoke a named operation with the given arguments against the active
    /// version, or against an explicitly pinned one. On success the engine's
    /// term overwrites the result slot; on any failure the state is left
    /// exactly as it was.
    pub fn invoke(&mut self, operation: &str, args: &Vec<NamedArg>, version_pin: Option<u32>)
        -> (r: Result<(), InvokeError>)
        requires
            old(self).wf(),
            old(self).package is Some,
        ensures
            final(self).wf(),
            invoke_post(*old(self), operation@, args@, version_pin, *final(self), r),
    {
        let term: u64;
        {
            let p = self.package.as_ref().unwrap();
            let vr = match p.resolve(version_pin) {
                Ok(vr) => vr,
                Err(_) => {
                    return Err(InvokeError::UnknownVersion);
                },
            };
            if !vr.declares(operation) {
                return Err(InvokeError::UnknownOperation);
            }
            let variant = match variant_for(operation) {
                Some(v) => v,
                None => {
                    return Err(InvokeError::UnknownOperation);
                },
            };
            let value = match find_arg(args, "nth_fib") {
                Some(v) => v,
                None => {
                    return Err(InvokeError::InvalidArgument);
                },
            };
            let n: u64 = match value {
                ArgValue::U64(k) => *k,
                ArgValue::Text(_) => {
                    return Err(InvokeError::InvalidArgument);
                },
            };
            term = match nth_term(variant, n) {
                Ok(t) => t,
                Err(EngineError::IndexOutOfRange) => {
                    return Err(InvokeError::IndexOutOfRange);
                },
                Err(EngineError::Overflow) => {
                    return Err(InvokeError::Overflow);
                },
            };
        }
        self.last_result = Some(term);
        Ok(())
    }
}

/// The value a successful invocation leaves in the result slot, determined
/// by the operation and arguments of that invocation alone.
pub open spec fn invoke_ok_value(op: Seq<char>, args: Seq<NamedArg>) -> u64 {
    nth_term_model(variant_of(op)->Some_0, arg_lookup(args, "nth_fib"@)->Some_0->U64_0)->Ok_0
}

/// Upgrade preserves identity: any upgrade keeps the package identity
/// byte-identical and raises the version count by exactly 1, returning the
/// new number.
pub proof fn lemma_upgrade_preserves_identity(
    pre: ContractState,
    entry_points: Seq<String>,
    post: ContractState,
    v: u32,
)
    requires
        upgrade_post(pre, entry_points, post, v),
    ensures
        post.package->Some_0.package_id == pre.package->Some_0.package_id,
        v == pre.package->Some_0.versions@.len() + 1,
        post.package->Some_0.versions@.len() == pre.package->Some_0.versions@.len() + 1,
{
}

/// Installing then upgrading keeps the identity issued at installation and
/// moves the version from 1 to exactly 2.
pub proof fn lemma_install_then_upgrade(
    s0: ContractState,
    package_id: u64,
    access: AccessMode,
    eps1: Seq<String>,
    s1: ContractState,
    r1: Result<(u64, u32), PackageError>,
    eps2: Seq<String>,
    s2: ContractState,
    v2: u32,
)
    requires
        s0.package is None,
        install_post(s0, package_id, access, eps1, s1, r1),
        upgrade_post(s1, eps2, s2, v2),
    ensures
        r1 == Ok::<(u64, u32), PackageError>((package_id, 1u32)),
        s1.package->Some_0.package_id == package_id,
        s2.package->Some_0.package_id == package_id,
        v2 == 2,
{
}

/// Version pinning is immutable: after an upgrade, an explicit pin to any
/// previously issued version still resolves, to the identical version
/// record.
pub proof fn lemma_pinned_version_immutable(
    pre: ContractState,
    entry_points: Seq<String>,
    post: ContractState,
    v_new: u32,
    pin: u32,
)
    requires
        upgrade_post(pre, entry_points, post, v_new),
        1 <= pin <= pre.package->Some_0.versions@.len(),
    ensures
        post.package->Some_0.pin_ok(Some(pin)),
        post.package->Some_0.resolved_spec(Some(pin)) == pre.package->Some_0.resolved_spec(
            Some(pin),
        ),
{
}

/// Version pinning is immutable, seen through the router: after an upgrade,
/// invoking any operation against an explicitly pinned earlier version gives
/// exactly the outcome it gave before the upgrade, in error and in result.
pub proof fn lemma_pinned_invoke_immutable(
    pre: ContractState,
    entry_points: Seq<String>,
    upgraded: ContractState,
    v_new: u32,
    pin: u32,
    op: Seq<char>,
    args: Seq<NamedArg>,
    post1: ContractState,
    r1: Result<(), InvokeError>,
    post2: ContractState,
    r2: Result<(), InvokeError>,
)
    requires
        upgrade_post(pre, entry_points, upgraded, v_new),
        1 <= pin <= pre.package->Some_0.versions@.len(),
        invoke_post(pre, op, args, Some(pin), post1, r1),
        invoke_post(upgraded, op, args, Some(pin), post2, r2),
    ensures
        r1 == r2,
        r1 is Ok ==> post1.last_result == post2.last_result,
{
    lemma_pinned_version_immutable(pre, entry_points, upgraded, v_new, pin);
}

/// Result-slot overwrite: after two successive successful invocations only
/// the second one's value is readable; what the slot held before is gone,
/// whatever it was.
pub proof fn lemma_result_overwrite(
    s0: ContractState,
    op1: Seq<char>,
    args1: Seq<NamedArg>,
    pin1: Option<u32>,
    s1: ContractState,
    op2: Seq<char>,
    args2: Seq<NamedArg>,
    pin2: Option<u32>,
    s2: ContractState,
)
    requires
        invoke_post(s0, op1, args1, pin1, s1, Ok(())),
        invoke_post(s1, op2, args2, pin2, s2, Ok(())),
    ensures
        s2.last_result == Some(invoke_ok_value(op2, args2)),
{
}

/// Atomicity: a failing invocation leaves the whole state — result slot and
/// version state — byte-identical to its pre-call value.
pub proof fn lemma_failed_invoke_atomic(
    s0: ContractState,
    op: Seq<char>,
    args: Seq<NamedArg>,
    pin: Option<u32>,
    s1: ContractState,
    e: InvokeError,
)
    requires
        invoke_post(s0, op, args, pin, s1, Err(e)),
    ensures
        s1 == s0,
{
}

} // verus!

//! The versioned-deployment model: one stable package identity over an
//! append-only list of immutable contract versions.
//!
//! Version numbers start at 1 and grow by exactly 1 per upgrade, so the
//! record at position `i` always carries number `i + 1` and the active
//! version is the last one. No version is ever removed or mutated; an
//! explicit pin resolves to the exact record it named when it was issued.

use vstd::prelude::*;

verus! {

/// How a package may be called once deployed.
#[derive(Clone, Copy, Debug, PartialEq, Eq)]
pub enum AccessMode {
    Public,
    Restricted,
}

/// How an operation against the version list can fail.
#[derive(Clone, Copy, Debug, PartialEq, Eq)]
pub enum PackageError {
    AlreadyInstalled,
    UnknownVersion,
}

/// One immutable contract version: its number and the operations it exposes.
#[derive(Clone, Debug, PartialEq, Eq)]
pub struct VersionRecord {
    pub version_number: u32,
    pub entry_points: Vec<String>,
}

/// String equality test.
///
/// Relies on `<str as PartialEq>::eq`: two string slices are equal exactly
/// when they consist of the same characters.
#[verifier::external_body]
pub(crate) fn str_eq(a: &str, b: &str) -> (r: bool)
    ensures
        r == (a@ == b@),
{
    a == b
}

impl VersionRecord {
    /// Whether this version exposes an operation with the given name.
    pub open spec fn declares_spec(self, op: Seq<char>) -> bool {
        exists|i: int| 0 <= i < self.entry_points@.len() && self.entry_points@[i]@ == op
    }

    /// Look the operation name up in this version's entry points.
    pub fn declares(&self, op: &str) -> (r: bool)
        ensures
            r == self.declares_spec(op@),
    {
        let mut i: usize = 0;
        while i < self.entry_points.len()
            invariant
                i <= self.entry_points@.len(),
                forall|j: int| 0 <= j < i ==> (#[trigger] self.entry_points@[j])@ != op@,
            decreases self.entry_points@.len() - i,
        {
            if str_eq(self.entry_points[i].as_str(), op) {
                return true;
            }
            i = i + 1;
        }
        false
    }
}

/// A deployed package: a stable identity, an access mode, and the ordered,
/// append-only list of its versions.
#[derive(Clone, Debug, PartialEq, Eq)]
pub struct PackageRecord {
    pub package_id: u64,
    pub access: AccessMode,
    pub versions: Vec<VersionRecord>,
}

impl PackageRecord {
    /// Well-formedness: at least one version exists, the list still has room
    /// to grow within 32-bit numbering, and the record at position `i`
    /// carries version number `i + 1`.
    pub open spec fn wf(self) -> bool {
        &&& 1 <= self.versions@.len() <= u32::MAX
        &&& forall|i: int|
            0 <= i < self.versions@.len() ==> (#[trigger] self.versions@[i]).version_number == i
                + 1
    }

    /// Whether an optional pin names a version that was actually issued.
    /// `None` (the active version) always resolves.
    pub open spec fn pin_ok(self, pin: Option<u32>) -> bool {
        match pin {
            None => true,
            Some(v) => 1 <= v <= self.versions@.len(),
        }
    }

    /// The version record a pin resolves to: the exact record it names, or
    /// the latest one for `None`.
    pub open spec fn resolved_spec(self, pin: Option<u32>) -> VersionRecord {
        match pin {
            None => self.versions@[self.versions@.len() - 1],
            Some(v) => self.versions@[v - 1],
        }
    }

    /// Create a freshly installed package: exactly one version, numbered 1,
    /// exposing the given entry points.
    pub fn new(package_id: u64, access: AccessMode, entry_points: Vec<String>) -> (p:
        PackageRecord)
        ensures
            p.wf(),
            p.package_id == package_id,
            p.access == access,
            p.versions@.len() == 1,
            p.versions@[0].version_number == 1,
            p.versions@[0].entry_points == entry_points,
    {
        let mut versions: Vec<VersionRecord> = Vec::new();
        versions.push(VersionRecord { version_number: 1, entry_points });
        PackageRecord { package_id, access, versions }
    }

    /// Append a new version exposing the given entry points and return its
    /// number, exactly one above the previous maximum. The identity, the
    /// access mode and every existing version are left untouched.
    pub fn upgrade(&mut self, entry_points: Vec<String>) -> (v: u32)
        requires
            old(self).wf(),
            old(self).versions@.len() < u32::MAX,
        ensures
            final(self).wf(),
            final(self).package_id == old(self).package_id,
            final(self).access == old(self).access,
            v == old(self).versions@.len() + 1,
            final(self).versions@ == old(self).versions@.push(
                (VersionRecord { version_number: v, entry_points }),
            ),
    {
        let v: u32 = (self.versions.len() as u32) + 1;
        self.versions.push(VersionRecord { version_number: v, entry_points });
        v
    }

    /// Resolve an optional version pin: `None` means the active (latest)
    /// version; `Some(v)` resolves to exactly the version numbered `v` and
    /// fails with `UnknownVersion` if `v` was never issued.
    pub fn resolve(&self, version: Option<u32>) -> (r: Result<&VersionRecord, PackageError>)
        requires
            self.wf(),
        ensures
            match r {
                Ok(vr) => self.pin_ok(version) && *vr == self.resolved_spec(version),
                Err(e) => e == PackageError::UnknownVersion && !self.pin_ok(version),
            },
    {
        match version {
            None => Ok(&self.versions[self.versions.len() - 1]),
            Some(v) => {
                if 1 <= v && (v as usize) <= self.versions.len() {
                    Ok(&self.versions[(v as usize) - 1])
                } else {
                    Err(PackageError::UnknownVersion)
                }
            },
        }
    }
}

} // verus!

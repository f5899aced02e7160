//! Checks a set of schema migrations for versioning discipline before they
//! run: every migration must carry a versioned prefix, no two may share a
//! version, and the versions must be contiguous, with no missing step.

use vstd::prelude::*;

verus! {

/// Whether a migration's name carries the versioned prefix.
#[derive(Debug, Clone, Copy, PartialEq, Eq, Structural)]
pub enum MigrationPrefix {
    Versioned,
    Unversioned,
}

/// What the versioning check reads of one migration.
#[derive(Debug, Clone)]
pub struct MigrationInfo {
    pub version: u32,
    pub name: String,
    pub prefix: MigrationPrefix,
}

/// Which of the three versioning rules a migration set violates.
#[derive(Debug, Clone, Copy, PartialEq, Eq, Structural)]
pub struct MigrationViolations {
    pub unversioned: bool,
    pub duplicate_versions: bool,
    pub discontinuous_versions: bool,
}

/// Every migration carries the versioned prefix.
pub open spec fn spec_all_versioned(migrations: Seq<MigrationInfo>) -> bool {
    forall|i: int|
        0 <= i < migrations.len() ==> migrations[i].prefix is Versioned
}

/// No two migrations share a version.
pub open spec fn spec_versions_unique(migrations: Seq<MigrationInfo>) -> bool {
    forall|i: int, j: int|
        0 <= i < j < migrations.len() ==> migrations[i].version != migrations[j].version
}

/// Some migration carries version `v`.
pub open spec fn spec_has_version(migrations: Seq<MigrationInfo>, v: u32) -> bool {
    exists|i: int| 0 <= i < migrations.len() && migrations[i].version == v
}

/// The versions present form a contiguous range: between any two present
/// versions, every step in between is present too.
pub open spec fn spec_versions_contiguous(migrations: Seq<MigrationInfo>) -> bool {
    forall|v: u32, w: u32|
        #[trigger] spec_has_version(migrations, v) && #[trigger] spec_has_version(migrations, w)
            && v < w ==> spec_has_version(migrations, (v + 1) as u32)
}

/// `m` is a version present in the set and none present is larger.
pub open spec fn spec_is_max_version(migrations: Seq<MigrationInfo>, m: u32) -> bool {
    spec_has_version(migrations, m) && forall|i: int|
        0 <= i < migrations.len() ==> migrations[i].version <= m
}

/// Whether some migration carries version `v`.
fn contains_version(migrations: &Vec<MigrationInfo>, v: u32) -> (found: bool)
    ensures
        found == spec_has_version(migrations@, v),
{
    let n = migrations.len();
    let mut i: usize = 0;
    while i < n
        invariant
            n == migrations@.len(),
            0 <= i <= n,
            forall|k: int| 0 <= k < i ==> migrations@[k].version != v,
        decreases n - i,
    {
        if migrations[i].version == v {
            return true;
        }
        i = i + 1;
    }
    false
}

/// If every version below the maximum has its successor present, the set is
/// contiguous.
proof fn lemma_gapless_implies_contiguous(migrations: Seq<MigrationInfo>, maxv: u32)
    requires
        spec_is_max_version(migrations, maxv),
        forall|k: int|
            0 <= k < migrations.len() ==> (migrations[k].version == maxv || spec_has_version(
                migrations,
                (migrations[k].version + 1) as u32,
            )),
    ensures
        spec_versions_contiguous(migrations),
{
    assert forall|v: u32, w: u32|
        #[trigger] spec_has_version(migrations, v) && #[trigger] spec_has_version(migrations, w)
            && v < w implies spec_has_version(migrations, (v + 1) as u32) by {
        let i = choose|i: int| 0 <= i < migrations.len() && migrations[i].version == v;
        let j = choose|j: int| 0 <= j < migrations.len() && migrations[j].version == w;
        assert(migrations[j].version <= maxv);
        assert(migrations[i].version != maxv);
    }
}

/// A present version below the maximum whose successor is absent witnesses a
/// gap: the set is not contiguous.
proof fn lemma_gap_implies_not_contiguous(migrations: Seq<MigrationInfo>, maxv: u32, k: int)
    requires
        spec_is_max_version(migrations, maxv),
        0 <= k < migrations.len(),
        migrations[k].version != maxv,
        !spec_has_version(migrations, (migrations[k].version + 1) as u32),
    ensures
        !spec_versions_contiguous(migrations),
{
    let v = migrations[k].version;
    assert(spec_has_version(migrations, v));
    assert(v <= maxv);
}

/// Checks the migration set against the three versioning rules: only
/// versioned prefixes, no duplicate versions, and no gaps between the lowest
/// and the highest version. Succeeds exactly when all three hold; on failure
/// it reports precisely which rules are broken.
pub fn verify_migration_versioning(migrations: &Vec<MigrationInfo>) -> (r: Result<
    (),
    MigrationViolations,
>)
    ensures
        r is Ok <==> (spec_all_versioned(migrations@) && spec_versions_unique(migrations@)
            && spec_versions_contiguous(migrations@)),
        match r {
            Ok(()) => true,
            Err(violations) => violations.unversioned == !spec_all_versioned(migrations@)
                && violations.duplicate_versions == !spec_versions_unique(migrations@)
                && violations.discontinuous_versions == !spec_versions_contiguous(migrations@),
        },
{
    let n = migrations.len();

    let mut unversioned = false;
    let mut i: usize = 0;
    while i < n
        invariant
            n == migrations@.len(),
            0 <= i <= n,
            unversioned == !(forall|k: int| 0 <= k < i ==> migrations@[k].prefix is Versioned),
        decreases n - i,
    {
        if let MigrationPrefix::Unversioned = migrations[i].prefix {
            unversioned = true;
        }
        i = i + 1;
    }

    let mut duplicates = false;
    let mut i: usize = 0;
    while i < n
        invariant
            n == migrations@.len(),
            0 <= i <= n,
            duplicates == !(forall|k: int, l: int|
                0 <= k < l < n && k < i ==> migrations@[k].version != migrations@[l].version),
        decreases n - i,
    {
        let mut j: usize = i + 1;
        while j < n
            invariant
                n == migrations@.len(),
                0 <= i < n,
                i < j <= n,
                duplicates == !(forall|k: int, l: int|
                    0 <= k < l < n && (k < i || (k == i && l < j)) ==> migrations@[k].version
                        != migrations@[l].version),
            decreases n - j,
        {
            if migrations[i].version == migrations[j].version {
                duplicates = true;
            }
            j = j + 1;
        }
        i = i + 1;
    }

    let mut discontinuous = false;
    if n > 0 {
        let mut maxv: u32 = migrations[0].version;
        let mut i: usize = 1;
        while i < n
            invariant
                n == migrations@.len(),
                1 <= i <= n,
                spec_has_version(migrations@, maxv),
                forall|k: int| 0 <= k < i ==> migrations@[k].version <= maxv,
            decreases n - i,
        {
            if migrations[i].version > maxv {
                maxv = migrations[i].version;
            }
            i = i + 1;
        }
        assert(spec_is_max_version(migrations@, maxv));

        let mut i: usize = 0;
        while i < n
            invariant
                n == migrations@.len(),
                0 <= i <= n,
                spec_is_max_version(migrations@, maxv),
                !discontinuous ==> forall|k: int|
                    0 <= k < i ==> (migrations@[k].version == maxv || spec_has_version(
                        migrations@,
                        (migrations@[k].version + 1) as u32,
                    )),
                discontinuous ==> !spec_versions_contiguous(migrations@),
            decreases n - i,
        {
            let v = migrations[i].version;
            if v != maxv {
                if !contains_version(migrations, v + 1) {
                    proof {
                        lemma_gap_implies_not_contiguous(migrations@, maxv, i as int);
                    }
                    discontinuous = true;
                }
            }
            i = i + 1;
        }
        if !discontinuous {
            proof {
                lemma_gapless_implies_contiguous(migrations@, maxv);
            }
        }
    }

    if unversioned || duplicates || discontinuous {
        Err(
            MigrationViolations {
                unversioned,
                duplicate_versions: duplicates,
                discontinuous_versions: discontinuous,
            },
        )
    } else {
        Ok(())
    }
}

} // verus!

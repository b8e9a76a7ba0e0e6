//! Whether an installed package is behind the newest version that
//! LuaRocks offers within its constraint.
use vstd::prelude::*;
use crate::constraint::{ConstraintForm, constraint_form, simple_error, simple_ok};
use crate::error::{DepotError, DepotResult};
use crate::luarocks_version::{luarocks_semver, normalize_luarocks_version, revision_in_range};
use crate::text::{texts, trim};
use crate::version::{
    SemVer, Version, VersionConstraint, lemma_version_order_antisymmetric,
    lemma_version_order_transitive, parse_version_spec, precedes_release, satisfies_spec, version_order,
};

verus! {

/// How a dependency stands against what LuaRocks offers.
#[derive(Debug)]
pub enum OutdatedStatus {
    /// Nothing newer within the constraint.
    UpToDate,
    /// A newer version within the constraint: the installed one (if any)
    /// and the newest.
    Outdated { current: Option<Version>, latest: Version },
    /// LuaRocks offers no version of it.
    NotFound,
}

/// The versions of the texts that read as one, in order.
pub open spec fn normalized_versions(vs: Seq<Seq<char>>) -> Seq<SemVer>
    decreases vs.len(),
{
    if vs.len() == 0 {
        Seq::empty()
    } else {
        let rest = normalized_versions(vs.drop_last());
        match luarocks_semver(vs.last()) {
            Some(v) => rest.push(v),
            None => rest,
        }
    }
}

/// The first of the highest versions among `vs` (what sorting them from
/// highest to lowest, stably, puts first).
pub open spec fn first_max(vs: Seq<SemVer>) -> SemVer
    decreases vs.len(),
{
    if vs.len() <= 1 {
        vs[0]
    } else {
        let m = first_max(vs.drop_last());
        if version_order(vs.last(), m) > 0 {
            vs.last()
        } else {
            m
        }
    }
}

/// Whether version `v` meets the single constraint written `s` (which
/// parses).
pub open spec fn meets_constraint_text(v: SemVer, s: Seq<char>) -> bool {
    let (f, text) = constraint_form(trim(s));
    let w = parse_version_spec(text).unwrap();
    match f {
        ConstraintForm::Exact => crate::version::version_eq(v, w),
        ConstraintForm::Compatible => version_order(v, w) >= 0 && precedes_release(v, w.major + 1, 0, 0),
        ConstraintForm::Patch => version_order(v, w) >= 0 && precedes_release(
            v,
            w.major as int,
            w.minor + 1,
            0,
        ),
        ConstraintForm::GreaterOrEqual => version_order(v, w) >= 0,
        ConstraintForm::LessThan => version_order(v, w) < 0,
        ConstraintForm::AnyPatch => v.major == w.major && v.minor == w.minor,
    }
}

proof fn lemma_constraint_text(s: Seq<char>, c: VersionConstraint, v: SemVer)
    requires
        simple_ok(s, c),
    ensures
        satisfies_spec(v, c) == meets_constraint_text(v, s),
{
}

proof fn lemma_normalized_push(vs: Seq<Seq<char>>, x: Seq<char>)
    ensures
        normalized_versions(vs.push(x)) == match luarocks_semver(x) {
            Some(v) => normalized_versions(vs).push(v),
            None => normalized_versions(vs),
        },
{
    assert(vs.push(x).drop_last() =~= vs);
}

/// The latest version is the first of the highest: for a non-empty list,
/// `first_max` is an entry that no entry exceeds, and every entry before it
/// is lower.
pub proof fn lemma_first_max(vs: Seq<SemVer>)
    requires
        vs.len() > 0,
    ensures
        exists|k: int|
            0 <= k < vs.len() && vs[k] == first_max(vs) && (forall|j: int|
                0 <= j < vs.len() ==> version_order(#[trigger] vs[j], vs[k]) <= 0) && (forall|j: int|
                0 <= j < k ==> version_order(#[trigger] vs[j], vs[k]) < 0),
    decreases vs.len(),
{
    if vs.len() == 1 {
        lemma_version_order_antisymmetric(vs[0], vs[0]);
        assert(version_order(vs[0], vs[0]) == 0);
        assert(vs[0] == first_max(vs));
    } else {
        let p = vs.drop_last();
        lemma_first_max(p);
        let k = choose|k: int|
            0 <= k < p.len() && p[k] == first_max(p) && (forall|j: int|
                0 <= j < p.len() ==> version_order(#[trigger] p[j], p[k]) <= 0) && (forall|j: int|
                0 <= j < k ==> version_order(#[trigger] p[j], p[k]) < 0);
        let m = p[k];
        let last = vs.last();
        lemma_version_order_antisymmetric(last, m);
        if version_order(last, m) > 0 {
            let n = vs.len() - 1;
            assert forall|j: int| 0 <= j < vs.len() implies version_order(#[trigger] vs[j], vs[n]) <= 0 by {
                if j < n {
                    assert(vs[j] == p[j]);
                    assert(version_order(p[j], m) <= 0);
                    lemma_version_order_transitive(vs[j], m, last);
                } else {
                    lemma_version_order_antisymmetric(last, last);
                }
            }
            assert forall|j: int| 0 <= j < n implies version_order(#[trigger] vs[j], vs[n]) < 0 by {
                assert(vs[j] == p[j]);
                assert(version_order(p[j], m) <= 0);
                lemma_version_order_transitive(vs[j], m, last);
            }
            assert(vs[n] == first_max(vs));
        } else {
            assert forall|j: int| 0 <= j < vs.len() implies version_order(#[trigger] vs[j], vs[k]) <= 0 by {
                if j < vs.len() - 1 {
                    assert(vs[j] == p[j]);
                }
            }
            assert forall|j: int| 0 <= j < k implies version_order(#[trigger] vs[j], vs[k]) < 0 by {
                assert(vs[j] == p[j]);
            }
            assert(vs[k] == p[k]);
        }
    }
}

/// How a dependency stands: `available` are the versions LuaRocks offers
/// (in LuaRocks form, empty where the manifest could not be had),
/// `constraint` the manifest's constraint, `current` the locked version.
/// No version that reads as one means `NotFound`; otherwise the latest is
/// the first of the highest; if it does not meet the constraint the
/// dependency is up to date; else it is outdated when it is not installed
/// or installed below the latest.
pub fn outdated_status(available: &Vec<String>, constraint: &str, current: Option<&Version>) -> (r:
    DepotResult<OutdatedStatus>)
    requires
        forall|i: int| 0 <= i < available@.len() ==> revision_in_range(#[trigger] available@[i]@),
    ensures
        ({
            let vs = normalized_versions(texts(available@));
            if vs.len() == 0 {
                r matches Ok(OutdatedStatus::NotFound)
            } else {
                match simple_error(constraint@) {
                    Some(m) => r matches Err(DepotError::Version(e)) && e@ == m,
                    None => if !meets_constraint_text(first_max(vs), constraint@) {
                        r matches Ok(OutdatedStatus::UpToDate)
                    } else {
                        match current {
                            Some(cur) => if version_order(cur@, first_max(vs)) < 0 {
                                r matches Ok(OutdatedStatus::Outdated { current: Some(c), latest: l })
                                    && c@ == cur@ && l@ == first_max(vs)
                            } else {
                                r matches Ok(OutdatedStatus::UpToDate)
                            },
                            None => r matches Ok(OutdatedStatus::Outdated { current: None, latest: l })
                                && l@ == first_max(vs),
                        }
                    },
                }
            }
        }),
{
    let ghost ts = texts(available@);
    let mut best: Option<Version> = None;
    let mut i: usize = 0;
    assert(ts.take(0) =~= Seq::<Seq<char>>::empty());
    while i < available.len()
        invariant
            i <= available.len(),
            ts == texts(available@),
            forall|j: int| 0 <= j < available@.len() ==> revision_in_range(#[trigger] available@[j]@),
            match best {
                None => normalized_versions(ts.take(i as int)).len() == 0,
                Some(b) => normalized_versions(ts.take(i as int)).len() > 0 && b@ == first_max(
                    normalized_versions(ts.take(i as int)),
                ),
            },
        decreases available.len() - i,
    {
        proof {
            assert(ts.take(i as int + 1) =~= ts.take(i as int).push(available@[i as int]@));
            lemma_normalized_push(ts.take(i as int), available@[i as int]@);
        }
        match normalize_luarocks_version(available[i].as_str()) {
            Ok(v) => {
                let ghost before = normalized_versions(ts.take(i as int));
                assert(v@ == luarocks_semver(available@[i as int]@).unwrap());
                let replace = match &best {
                    None => true,
                    Some(b) => v.order_against(b) > 0,
                };
                if replace {
                    best = Some(v);
                }
                proof {
                    let now = normalized_versions(ts.take(i as int + 1));
                    assert(now == before.push(v@));
                    if before.len() > 0 {
                        assert(now.drop_last() =~= before);
                    }
                }
            },
            Err(_) => {
                assert(luarocks_semver(available@[i as int]@) is None);
            },
        }
        i = i + 1;
    }
    assert(ts.take(available@.len() as int) =~= ts);
    let latest = match best {
        None => {
            return Ok(OutdatedStatus::NotFound);
        },
        Some(b) => b,
    };
    let parsed = crate::constraint::parse_constraint(constraint);
    let c = match parsed {
        Ok(c) => c,
        Err(e) => {
            return Err(e);
        },
    };
    proof {
        lemma_constraint_text(constraint@, c, latest@);
    }
    if !latest.satisfies(&c) {
        return Ok(OutdatedStatus::UpToDate);
    }
    match current {
        Some(cur) => {
            if cur.order_against(&latest) < 0 {
                Ok(OutdatedStatus::Outdated { current: Some(cur.copy()), latest })
            } else {
                Ok(OutdatedStatus::UpToDate)
            }
        },
        None => Ok(OutdatedStatus::Outdated { current: None, latest }),
    }
}

} // verus!

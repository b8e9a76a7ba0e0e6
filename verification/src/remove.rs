//! Removing a package from a manifest's dependencies.
use vstd::prelude::*;
use crate::error::{DepotError, DepotResult};
use crate::store::Store;
use crate::text::{chars_of, push_str, string_from, string_of};

verus! {

/// Where a package was removed from.
#[derive(Debug, Clone, Copy, PartialEq, Eq, Structural)]
pub enum RemovedFrom {
    Dependencies,
    DevDependencies,
    Both,
}

/// The words for where a package was removed from.
pub open spec fn location_text(r: RemovedFrom) -> Seq<char> {
    match r {
        RemovedFrom::Both => "dependencies and dev_dependencies"@,
        RemovedFrom::Dependencies => "dependencies"@,
        RemovedFrom::DevDependencies => "dev_dependencies"@,
    }
}

/// Where a package was removed from, given whether it was among the
/// dependencies and among the dev dependencies (at least one of them).
pub fn removal_location(from_deps: bool, from_dev: bool) -> (r: RemovedFrom)
    ensures
        r == (if from_deps && from_dev {
            RemovedFrom::Both
        } else if from_deps {
            RemovedFrom::Dependencies
        } else {
            RemovedFrom::DevDependencies
        }),
{
    if from_deps && from_dev {
        RemovedFrom::Both
    } else if from_deps {
        RemovedFrom::Dependencies
    } else {
        RemovedFrom::DevDependencies
    }
}

impl RemovedFrom {
    /// The words for where the package was removed from.
    pub fn to_string(&self) -> (r: String)
        ensures
            r@ == location_text(*self),
    {
        match self {
            RemovedFrom::Both => string_of("dependencies and dev_dependencies"),
            RemovedFrom::Dependencies => string_of("dependencies"),
            RemovedFrom::DevDependencies => string_of("dev_dependencies"),
        }
    }
}

/// The error for a package that a manifest does not depend on.
pub open spec fn not_found_text(package: Seq<char>) -> Seq<char> {
    "Package '"@ + package + "' not found in dependencies or dev_dependencies"@
}

/// Remove `package` from both dependency maps of a manifest and say where
/// it was; an error, with the maps unchanged, when it is in neither.
pub fn remove_dependency(
    dependencies: &mut Store<String>,
    dev_dependencies: &mut Store<String>,
    package: &str,
) -> (r: DepotResult<RemovedFrom>)
    ensures
        final(dependencies)@ == old(dependencies)@.remove(package@),
        final(dev_dependencies)@ == old(dev_dependencies)@.remove(package@),
        if old(dependencies)@.contains_key(package@) || old(dev_dependencies)@.contains_key(
            package@,
        ) {
            r matches Ok(w) && w == (if old(dependencies)@.contains_key(package@) && old(
                dev_dependencies,
            )@.contains_key(package@) {
                RemovedFrom::Both
            } else if old(dependencies)@.contains_key(package@) {
                RemovedFrom::Dependencies
            } else {
                RemovedFrom::DevDependencies
            })
        } else {
            r matches Err(DepotError::Package(m)) && m@ == not_found_text(package@)
        },
{
    let from_deps = dependencies.remove(package).is_some();
    let from_dev = dev_dependencies.remove(package).is_some();
    if !from_deps && !from_dev {
        let mut m = chars_of("Package '");
        push_str(&mut m, package);
        push_str(&mut m, "' not found in dependencies or dev_dependencies");
        return Err(DepotError::Package(string_from(&m)));
    }
    Ok(removal_location(from_deps, from_dev))
}

/// The error for a package that is not installed globally.
pub open spec fn not_global_text(package: Seq<char>) -> Seq<char> {
    "Package '"@ + package + "' is not installed globally"@
}

/// The error for removing a package that is not installed globally.
pub fn not_installed_globally(package: &str) -> (r: DepotError)
    ensures
        r matches DepotError::Package(m) && m@ == not_global_text(package@),
{
    let mut m = chars_of("Package '");
    push_str(&mut m, package);
    push_str(&mut m, "' is not installed globally");
    DepotError::Package(string_from(&m))
}

} // verus!

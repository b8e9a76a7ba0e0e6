//! Updating dependencies: which ones, and at which version constraint.
use vstd::prelude::*;
use crate::error::{DepotError, DepotResult};
use crate::store::{Store, extend_with};
use crate::text::{chars_of, push_str, string_from, string_of};

verus! {

/// Whether a command works on the workspace packages that a filter
/// selects: only with a filter, which needs a workspace.
pub fn workspace_filter_mode(has_filter: bool, in_workspace: bool) -> (r: DepotResult<bool>)
    ensures
        if !has_filter {
            r matches Ok(false)
        } else if in_workspace {
            r matches Ok(true)
        } else {
            r matches Err(DepotError::Package(m)) && m@ == "--filter can only be used in workspace mode"@
        },
{
    if !has_filter {
        return Ok(false);
    }
    if in_workspace {
        return Ok(true);
    }
    Err(DepotError::Package(string_of("--filter can only be used in workspace mode")))
}

/// The error for updating a package that the manifest does not name.
pub open spec fn not_a_dependency_text(package: Seq<char>) -> Seq<char> {
    "Package '"@ + package + "' not found in dependencies"@
}

/// The version constraint to update `package` to: its regular dependency
/// entry, else its dev dependency entry.
pub fn update_version_spec(
    dependencies: &Store<String>,
    dev_dependencies: &Store<String>,
    package: &str,
) -> (r: DepotResult<String>)
    ensures
        if dependencies@.contains_key(package@) {
            r matches Ok(v) && v@ == dependencies@[package@]
        } else if dev_dependencies@.contains_key(package@) {
            r matches Ok(v) && v@ == dev_dependencies@[package@]
        } else {
            r matches Err(DepotError::Package(m)) && m@ == not_a_dependency_text(package@)
        },
{
    match dependencies.get(package) {
        Some(v) => Ok(v.clone()),
        None => match dev_dependencies.get(package) {
            Some(v) => Ok(v.clone()),
            None => {
                let mut m = chars_of("Package '");
                push_str(&mut m, package);
                push_str(&mut m, "' not found in dependencies");
                Err(DepotError::Package(string_from(&m)))
            },
        },
    }
}

/// Every dependency to update: the regular ones and the dev ones, a dev
/// constraint winning over a regular one of the same package.
pub fn all_dependencies(dependencies: &Store<String>, dev_dependencies: &Store<String>) -> (r:
    Store<String>)
    ensures
        r@ == dependencies@.union_prefer_right(dev_dependencies@),
{
    let mut r: Store<String> = Store::new();
    extend_with(&mut r, dependencies);
    extend_with(&mut r, dev_dependencies);
    assert(Map::<Seq<char>, Seq<char>>::empty().union_prefer_right(dependencies@) =~= dependencies@);
    r
}

} // verus!

//! The `install` verb: which Quick Action bundles are installed, and where.
use vstd::prelude::*;

use crate::paths::{extension, extension_of, file_name, file_name_of, join_path, joined};
use crate::text::str_eq;

verus! {

/// Where the Quick Action bundles are looked for: `quick-actions` in the
/// working directory when it exists, else the one in the parent directory.
pub fn quick_actions_source(local_exists: bool) -> (r: String)
    ensures
        r@ == if local_exists {
            "quick-actions"@
        } else {
            "../quick-actions"@
        },
{
    if local_exists {
        String::from_str("quick-actions")
    } else {
        String::from_str("../quick-actions")
    }
}

/// The user's Services folder, where Quick Actions live.
pub fn services_dir(home: &str) -> (r: String)
    ensures
        r@ == joined(home@, "Library/Services"@),
{
    join_path(home, "Library/Services")
}

/// A path that names an Automator workflow bundle.
pub open spec fn is_workflow(path: Seq<char>) -> bool {
    extension(path) == Some("workflow"@)
}

/// Whether the path names an Automator workflow bundle.
pub fn is_workflow_bundle(path: &str) -> (r: bool)
    ensures
        r == is_workflow(path@),
{
    match extension_of(path) {
        Some(ext) => str_eq(ext.as_str(), "workflow"),
        None => false,
    }
}

/// Where a bundle at `path` is installed: under its own name in `services`.
pub fn install_target(services: &str, path: &str) -> (r: Option<String>)
    ensures
        match file_name(path@) {
            Some(name) => r matches Some(t) && t@ == joined(services@, name),
            None => r is None,
        },
{
    match file_name_of(path) {
        Some(name) => Some(join_path(services, name.as_str())),
        None => None,
    }
}

} // verus!

//! Where the persisted user settings live.

use vstd::prelude::*;

verus! {

/// The path that results from joining the relative or absolute path `name`
/// onto the directory path `base`.
pub uninterp spec fn joined_path(base: Seq<char>, name: Seq<char>) -> Seq<char>;

/// Trusted: calls `std::path::Path::join`, which builds a new path from its
/// two arguments alone. Both arguments are UTF-8, so the joined path is UTF-8
/// too and reads back as text unchanged. How the join places separators
/// (which differs between platforms) is left unsaid.
#[verifier::external_body]
fn path_join(base: &str, name: &str) -> (res: String)
    ensures
        res@ == joined_path(base@, name@),
{
    std::path::Path::new(base).join(name).to_string_lossy().into_owned()
}

/// Resolve the on-disk config file location for the app config dir.
pub fn config_file(config_dir: &str) -> (path: String)
    ensures
        path@ == joined_path(config_dir@, "config.json"@),
{
    path_join(config_dir, "config.json")
}

} // verus!

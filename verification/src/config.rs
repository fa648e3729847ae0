//! Where the configuration lives.
use vstd::prelude::*;

use crate::path::{join, join_path};

verus! {

/// The path of the bookmarks file, `bookmarks.toml` in the configuration
/// directory, when there is one.
pub fn bookmarks_path(config_dir: Option<&str>) -> (r: Option<String>)
    ensures
        r matches Some(p) ==> config_dir matches Some(d) && p@ == join(d@, "bookmarks.toml"@),
        r is None ==> config_dir is None,
{
    match config_dir {
        Some(d) => Some(join_path(d, "bookmarks.toml")),
        None => None,
    }
}

} // verus!

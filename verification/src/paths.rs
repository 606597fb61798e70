//! Joining a relative path onto a base path, as `PathBuf::join` does for a
//! relative argument on Unix.

use vstd::prelude::*;
use vstd::string::*;

verus! {

/// A relative path appended to a base path, with one separator between them;
/// an empty base gives the relative path itself.
pub open spec fn joined_path(base: Seq<char>, relative: Seq<char>) -> Seq<char> {
    if base.len() == 0 {
        relative
    } else if base.last() == '/' {
        base + relative
    } else {
        base + "/"@ + relative
    }
}

/// Appends a relative path to a base path.
pub fn join_path(base: String, relative: &str) -> (r: String)
    ensures
        r@ == joined_path(base@, relative@),
{
    let len = base.as_str().unicode_len();
    if len == 0 {
        String::from_str(relative)
    } else {
        let mut path = base;
        let last = path.as_str().get_char(len - 1);
        if last != '/' {
            path.append("/");
        }
        path.append(relative);
        path
    }
}

} // verus!

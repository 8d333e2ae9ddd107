//! How the path of a child is made of the path of its directory and its name.

use vstd::prelude::*;

verus! {

/// The character that separates the parts of a path.
pub const SEPARATOR: char = '/';

/// The path of `name` under `base`.
///
/// A name that starts at the root stands for itself. Any other name follows
/// `base`, behind a separator unless `base` is empty or ends with one.
pub open spec fn joined_path(base: Seq<char>, name: Seq<char>) -> Seq<char> {
    if name.len() > 0 && name[0] == SEPARATOR {
        name
    } else if base.len() == 0 || base.last() == SEPARATOR {
        base + name
    } else {
        base + seq![SEPARATOR] + name
    }
}

/// Joins `name` to `base`.
pub fn join_path(base: &str, name: &str) -> (joined: String)
    ensures
        joined@ == joined_path(base@, name@),
{
    if !name.is_empty() && name.get_char(0) == SEPARATOR {
        return name.to_owned();
    }
    let mut joined = base.to_owned();
    let len = base.unicode_len();
    if len > 0 && base.get_char(len - 1) != SEPARATOR {
        proof {
            reveal_strlit("/");
            assert("/"@ =~= seq![SEPARATOR]);
        }
        joined.append("/");
    }
    joined.append(name);
    joined
}

} // verus!

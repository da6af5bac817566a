//! File-system paths as text, with `/` between their components.

use vstd::prelude::*;
use vstd::string::*;

verus! {

/// The path `name` as seen from the directory `base`: an absolute `name`
/// stands for itself; otherwise it is appended to `base`, after a separator
/// unless `base` is empty or ends in one.
pub open spec fn path_join(base: Seq<char>, name: Seq<char>) -> Seq<char> {
    if name.len() > 0 && name[0] == '/' {
        name
    } else if base.len() == 0 || base.last() == '/' {
        base + name
    } else {
        base + seq!['/'] + name
    }
}

/// Joins `name` to the directory `base`.
pub fn join(base: &str, name: &str) -> (path: String)
    ensures
        path@ == path_join(base@, name@),
{
    if name.unicode_len() > 0 && name.get_char(0) == '/' {
        return String::from_str(name);
    }
    let mut path = String::from_str(base);
    let n = base.unicode_len();
    if n > 0 && base.get_char(n - 1) != '/' {
        proof {
            reveal_strlit("/");
            assert("/"@ =~= seq!['/']);
        }
        path.append("/");
    }
    path.append(name);
    path
}

} // verus!

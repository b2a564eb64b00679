//! Joining configuration paths, as `Path::join` does for the file names
//! the tool writes.

use vstd::prelude::*;
use crate::text::{has_prefix, has_suffix, concat2, concat3, owned, starts_with};

verus! {

/// `name` joined onto `base`: an absolute `name` replaces `base`, an empty
/// `base` gives `name`, and a separator is put between the two unless
/// `base` already ends with one.
pub open spec fn joined(base: Seq<char>, name: Seq<char>) -> Seq<char> {
    if has_prefix(name, "/"@) || base.len() == 0 {
        name
    } else if has_suffix(base, "/"@) {
        base + name
    } else {
        base + "/"@ + name
    }
}

/// Joins `name` onto the directory `base` (see [`joined`]).
pub fn path_join(base: &str, name: &str) -> (r: String)
    ensures
        r@ == joined(base@, name@),
{
    if starts_with(name, "/") || base.unicode_len() == 0 {
        return owned(name);
    }
    let n = base.unicode_len();
    let last = base.get_char(n - 1);
    proof {
        reveal_strlit("/");
        assert("/"@ =~= seq!['/']);
        assert(base@.subrange(n - 1, n as int) =~= seq![base@[n - 1]]);
    }
    if last == '/' {
        assert(has_suffix(base@, "/"@));
        concat2(base, name)
    } else {
        assert(base@.subrange(base@.len() - 1, base@.len() as int) =~= seq![last]);
        assert(seq![last] != seq!['/']) by {
            assert(seq![last][0] != seq!['/'][0]);
        }
        assert(!has_suffix(base@, "/"@));
        concat3(base, "/", name)
    }
}

} // verus!

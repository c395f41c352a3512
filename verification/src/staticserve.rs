//! The guard for the optional static-file branch: a request path that
//! contains a parent-directory segment anywhere is refused with a
//! not-found outcome before any file is looked at.

use vstd::prelude::*;

verus! {

/// Two consecutive dots stand somewhere in `s`.
pub open spec fn spec_contains_dotdot(s: Seq<char>) -> bool {
    exists|i: int| 0 <= i && i + 2 <= s.len() && #[trigger] s[i] == '.' && s[i + 1] == '.'
}

/// Whether the path contains `..` anywhere.
pub fn contains_dotdot(path: &str) -> (r: bool)
    ensures
        r == spec_contains_dotdot(path@),
{
    let n = path.unicode_len();
    if n < 2 {
        return false;
    }
    let mut i: usize = 0;
    while i <= n - 2
        invariant
            n == path@.len(),
            2 <= n,
            i <= n,
            forall|j: int| 0 <= j < i ==> !(#[trigger] path@[j] == '.' && path@[j + 1] == '.'),
        decreases n - i,
    {
        if path.get_char(i) == '.' && path.get_char(i + 1) == '.' {
            proof {
                assert(0 <= i as int && i as int + 2 <= path@.len() && path@[i as int] == '.'
                    && path@[i as int + 1] == '.');
            }
            return true;
        }
        i += 1;
    }
    false
}

/// What the static branch does with a request path: open the named file,
/// or answer not-found without touching the filesystem.
pub enum StaticPlan {
    ServeFile(String),
    NotFound,
}

/// Decides the static branch for a request path. A path containing `..`
/// anywhere is answered not-found — whether or not such a file exists —
/// and no file is ever named for it; any other path names exactly the file
/// to serve.
pub fn plan_static(path: &str) -> (r: StaticPlan)
    ensures
        spec_contains_dotdot(path@) ==> r is NotFound,
        !spec_contains_dotdot(path@) ==> (r matches StaticPlan::ServeFile(f) && f@ == path@),
{
    if contains_dotdot(path) {
        StaticPlan::NotFound
    } else {
        StaticPlan::ServeFile(String::from_str(path))
    }
}

} // verus!

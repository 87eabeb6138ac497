//! Classifying an invocation as a run or a test.
//!
//! By convention the build harness places generated test executables in a
//! directory named `deps`, so an invocation is a test exactly when the
//! directory holding the input executable is named `deps`.
//!
//! Paths are `/`-separated strings here, read as written: repeated or
//! trailing separators are not collapsed the way `std::path` would
//! normalize them, so only the text strictly between the last two
//! separators counts as the holding directory's name (`a/deps//x` has the
//! empty name there, not `deps`).  The executable paths the build harness
//! hands over carry no such degenerate separators.

use vstd::prelude::*;
use crate::text::str_eq;

verus! {

/// `j` is the position of the last `/` in `s`.
pub open spec fn last_slash_at(s: Seq<char>, j: int) -> bool {
    &&& 0 <= j < s.len()
    &&& s[j] == '/'
    &&& forall|k: int| j < k < s.len() ==> s[k] != '/'
}

/// The final `/`-separated component of `p`: what follows the last `/`, or
/// all of `p` when it has no `/`.
pub open spec fn last_component(p: Seq<char>) -> Seq<char> {
    if exists|i: int| last_slash_at(p, i) {
        let i = choose|i: int| last_slash_at(p, i);
        p.subrange(i + 1, p.len() as int)
    } else {
        p
    }
}

/// A path names a test executable when it has a parent directory whose name
/// is `deps`.  A path without a `/` has no parent directory here.
pub open spec fn is_test_path(s: Seq<char>) -> bool {
    exists|j: int| last_slash_at(s, j) && last_component(s.subrange(0, j)) == "deps"@
}

/// The position of the last `/` strictly before `end`, if any.
fn last_slash_before(s: &str, end: usize) -> (r: Option<usize>)
    requires
        end as int <= s@.len(),
    ensures
        match r {
            Some(j) => j < end && s@[j as int] == '/' && forall|k: int|
                j < k < end ==> s@[k] != '/',
            None => forall|k: int| 0 <= k < end ==> s@[k] != '/',
        },
{
    let mut i: usize = end;
    loop
        invariant
            i <= end,
            end as int <= s@.len(),
            forall|k: int| i <= k < end ==> s@[k] != '/',
        decreases i,
    {
        if i == 0 {
            return None;
        }
        if s.get_char(i - 1) == '/' {
            return Some(i - 1);
        }
        i -= 1;
    }
}

/// Two positions of the last `/` coincide.
proof fn lemma_last_slash_unique(s: Seq<char>, j1: int, j2: int)
    requires
        last_slash_at(s, j1),
        last_slash_at(s, j2),
    ensures
        j1 == j2,
{
    if j1 < j2 {
        assert(s[j2] != '/');
    } else if j2 < j1 {
        assert(s[j1] != '/');
    }
}

/// Whether the executable at `uefi_path` is to be treated as a test: the
/// directory that holds it is named `deps`.
pub fn is_test(uefi_path: &str) -> (r: bool)
    ensures
        r == is_test_path(uefi_path@),
{
    let n = uefi_path.unicode_len();
    let last = last_slash_before(uefi_path, n);
    match last {
        None => {
            proof {
                assert forall|j: int| !last_slash_at(uefi_path@, j) by {
                    if 0 <= j < uefi_path@.len() {
                        assert(uefi_path@[j] != '/');
                    }
                }
            }
            false
        },
        Some(j) => {
            let ghost s = uefi_path@;
            let ghost parent = s.subrange(0, j as int);
            proof {
                assert(last_slash_at(s, j as int));
            }
            let start: usize = match last_slash_before(uefi_path, j) {
                None => {
                    proof {
                        assert forall|i: int| !last_slash_at(parent, i) by {
                            if 0 <= i < parent.len() {
                                assert(parent[i] == s[i]);
                                assert(s[i] != '/');
                            }
                        }
                        assert(last_component(parent) == parent);
                    }
                    0
                },
                Some(i) => {
                    proof {
                        assert(parent[i as int] == s[i as int]);
                        assert forall|k: int| i < k < parent.len() implies parent[k] != '/' by {
                            assert(parent[k] == s[k]);
                        }
                        assert(last_slash_at(parent, i as int));
                        let ci = choose|c: int| last_slash_at(parent, c);
                        assert(last_slash_at(parent, ci));
                        lemma_last_slash_unique(parent, ci, i as int);
                        assert(last_component(parent) == parent.subrange(i + 1, parent.len() as int));
                        assert(parent.subrange(i + 1, parent.len() as int) =~= s.subrange(
                            i + 1,
                            j as int,
                        ));
                    }
                    i + 1
                },
            };
            let name = uefi_path.substring_char(start, j);
            proof {
                assert(name@ =~= last_component(parent));
            }
            let r = str_eq(name, "deps");
            proof {
                if name@ == "deps"@ {
                    assert(is_test_path(s)) by {
                        assert(last_slash_at(s, j as int) && last_component(
                            s.subrange(0, j as int),
                        ) == "deps"@);
                    }
                } else {
                    assert(!is_test_path(s)) by {
                        assert forall|j2: int|
                            !(last_slash_at(s, j2) && last_component(s.subrange(0, j2))
                                == "deps"@) by {
                            if last_slash_at(s, j2) {
                                lemma_last_slash_unique(s, j2, j as int);
                            }
                        }
                    }
                }
            }
            r
        },
    }
}

} // verus!

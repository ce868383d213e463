//! The development-mode root search: the project root is found by walking
//! upward from the current directory until a directory holds the marker file
//! (`package.json`) beside the known sibling directory (`server`).
//!
//! The walk's decisions live here; asking the filesystem whether the marker
//! and the sibling exist is the caller's part, answered per step.

use vstd::prelude::*;

verus! {

/// The position of the last `/` in a path, if it has one.
pub open spec fn spec_last_slash(s: Seq<char>) -> Option<int>
    decreases s.len(),
{
    if s.len() == 0 {
        None
    } else if s[s.len() - 1] == '/' {
        Some(s.len() - 1)
    } else {
        spec_last_slash(s.drop_last())
    }
}

/// The directory a path stands in: the path up to its last `/`, the root
/// directory where the last `/` leads it, and nothing above the root or a
/// bare name.
pub open spec fn spec_parent_dir(s: Seq<char>) -> Option<Seq<char>> {
    match spec_last_slash(s) {
        None => None,
        Some(j) => if j == 0 {
            if s.len() == 1 {
                None
            } else {
                Some(seq!['/'])
            }
        } else {
            Some(s.subrange(0, j))
        },
    }
}

/// A run of non-`/` characters at a path's end does not move its last `/`.
proof fn lemma_last_slash_ignores_suffix(s: Seq<char>, i: int)
    requires
        0 <= i <= s.len(),
        forall|k: int| i <= k < s.len() ==> s[k] != '/',
    ensures
        spec_last_slash(s) == spec_last_slash(s.subrange(0, i)),
    decreases s.len() - i,
{
    if i < s.len() {
        assert(s.drop_last() =~= s.subrange(0, s.len() - 1));
        lemma_last_slash_ignores_suffix(s.subrange(0, s.len() - 1), i);
        assert(s.subrange(0, s.len() - 1).subrange(0, i) =~= s.subrange(0, i));
    } else {
        assert(s.subrange(0, i) =~= s);
    }
}

/// The directory a path stands in, if any.
pub fn parent_dir(path: &str) -> (r: Option<String>)
    ensures
        match r {
            Some(p) => spec_parent_dir(path@) == Some(p@),
            None => spec_parent_dir(path@) is None,
        },
{
    let n = path.unicode_len();
    let mut i: usize = n;
    while i > 0
        invariant
            n == path@.len(),
            i <= n,
            forall|k: int| i <= k < n ==> path@[k] != '/',
        decreases i,
    {
        i = i - 1;
        if path.get_char(i) == '/' {
            proof {
                lemma_last_slash_ignores_suffix(path@, i + 1);
                assert(path@.subrange(0, i + 1).last() == path@[i as int]);
                assert(spec_last_slash(path@.subrange(0, i + 1)) == Some(i as int));
            }
            if i == 0 {
                if n == 1 {
                    return None;
                }
                let root = String::from_str("/");
                proof {
                    reveal_strlit("/");
                    assert(root@ =~= seq!['/']);
                }
                return Some(root);
            }
            let p = String::from_str(path.substring_char(0, i));
            return Some(p);
        }
    }
    proof {
        lemma_last_slash_ignores_suffix(path@, 0);
        assert(path@.subrange(0, 0) =~= Seq::<char>::empty());
    }
    None
}

/// The marker file that identifies the project root, beneath a directory.
pub fn marker_path(dir: &str) -> (r: String)
    ensures
        r@ == dir@ + "/package.json"@,
{
    String::from_str(dir).concat("/package.json")
}

/// The sibling directory the project root must also hold, beneath a
/// directory.
pub fn sibling_path(dir: &str) -> (r: String)
    ensures
        r@ == dir@ + "/server"@,
{
    String::from_str(dir).concat("/server")
}

/// One step of the upward search.
pub enum RootSearch {
    /// This directory is the project root.
    Found(String),
    /// Not here: continue in the directory above.
    Ascend(String),
    /// Not here, and nothing above: the search fails.
    Exhausted,
}

/// Decides one step of the upward search, given whether the candidate
/// directory holds the marker file and the sibling directory: the first
/// candidate that holds both is the root, and a candidate without a parent
/// ends the search.
pub fn root_search_step(dir: &str, marker_exists: bool, sibling_exists: bool) -> (r: RootSearch)
    ensures
        marker_exists && sibling_exists ==> (r matches RootSearch::Found(p) && p@ == dir@),
        !(marker_exists && sibling_exists) ==> match spec_parent_dir(dir@) {
            Some(parent) => r matches RootSearch::Ascend(p) && p@ == parent,
            None => r is Exhausted,
        },
{
    if marker_exists && sibling_exists {
        RootSearch::Found(String::from_str(dir))
    } else {
        match parent_dir(dir) {
            Some(parent) => RootSearch::Ascend(parent),
            None => RootSearch::Exhausted,
        }
    }
}

} // verus!

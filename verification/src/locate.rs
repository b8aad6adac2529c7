//! Locating the repository metadata from the working directory's path.
//!
//! A working directory is handed in as the segments of its absolute path,
//! root first, without the root itself: `/home/me/proj` is
//! `["home", "me", "proj"]`. The caller probes the filesystem; this module
//! decides which ancestor's metadata wins and spells the paths out.

use vstd::prelude::*;

verus! {

/// The name of the hidden per-repository metadata directory.
pub open spec fn dotgit_name() -> Seq<char> {
    ".git"@
}

/// Whether some segment of the path is the metadata directory's own name.
pub open spec fn inside_dotgit(segs: Seq<Seq<char>>) -> bool {
    exists|i: int| 0 <= i < segs.len() && segs[i] == dotgit_name()
}

/// Whether the working directory lies inside the hidden metadata directory:
/// every segment of the absolute path is tested, not only those under a
/// repository root.
pub fn inside_dotgit_dir(wd: &Vec<String>) -> (r: bool)
    ensures
        r == inside_dotgit(wd.deep_view()),
{
    let dotgit: String = String::from_str(".git");
    let n = wd.len();
    let mut i: usize = 0;
    while i < n
        invariant
            i <= n,
            n == wd@.len(),
            dotgit@ == dotgit_name(),
            forall|j: int| 0 <= j < i ==> wd.deep_view()[j] != dotgit_name(),
        decreases n - i,
    {
        let hit = wd[i] == dotgit;
        proof {
            assert(wd.deep_view()[i as int] == wd@[i as int]@);
        }
        if hit {
            return true;
        }
        i = i + 1;
    }
    false
}

/// The absolute path with the given segments: each preceded by a separator,
/// so the empty sequence names the filesystem root's own prefix.
pub open spec fn abs_path(segs: Seq<Seq<char>>) -> Seq<char>
    decreases segs.len(),
{
    if segs.len() == 0 {
        Seq::<char>::empty()
    } else {
        abs_path(segs.drop_last()) + "/"@ + segs.last()
    }
}

/// The path of the metadata HEAD file under the ancestor that keeps the
/// first `keep` segments of the working directory.
pub open spec fn head_path_spec(segs: Seq<Seq<char>>, keep: int) -> Seq<char> {
    abs_path(segs.take(keep)) + "/.git/HEAD"@
}

/// Spell out the HEAD-file path for the ancestor keeping `keep` segments.
pub fn head_path(wd: &Vec<String>, keep: usize) -> (r: String)
    requires
        keep <= wd@.len(),
    ensures
        r@ == head_path_spec(wd.deep_view(), keep as int),
{
    let mut s = String::new();
    let mut i: usize = 0;
    while i < keep
        invariant
            i <= keep <= wd@.len(),
            s@ == abs_path(wd.deep_view().take(i as int)),
        decreases keep - i,
    {
        s.append("/");
        s.append(wd[i].as_str());
        proof {
            let dv = wd.deep_view();
            assert(dv.take(i + 1).drop_last() =~= dv.take(i as int));
            assert(dv.take(i + 1).last() == dv[i as int]);
            assert(s@ =~= abs_path(dv.take(i + 1)));
        }
        i = i + 1;
    }
    s.append("/.git/HEAD");
    s
}

/// Pick the nearest ancestor whose metadata HEAD file exists and give that
/// file's path. `head_exists` holds one probe result per ancestor of the
/// working directory, deepest first: entry `i` says whether the HEAD file
/// exists under the ancestor that keeps the first `len - i` segments, down
/// to the filesystem root at the last entry. The first hit wins, so a
/// repository nested inside another shadows it; no hit means the directory
/// is not version-controlled, a normal outcome.
pub fn find_head(wd: &Vec<String>, head_exists: &Vec<bool>) -> (r: Option<String>)
    requires
        head_exists@.len() == wd@.len() + 1,
    ensures
        match r {
            Option::Some(p) => exists|i: int|
                0 <= i < head_exists@.len() && #[trigger] head_exists@[i] && (forall|j: int|
                    0 <= j < i ==> !head_exists@[j]) && p@ == head_path_spec(
                    wd.deep_view(),
                    wd@.len() - i,
                ),
            Option::None => forall|j: int| 0 <= j < head_exists@.len() ==> !head_exists@[j],
        },
{
    let n = head_exists.len();
    let mut i: usize = 0;
    while i < n
        invariant
            i <= n,
            n == head_exists@.len(),
            head_exists@.len() == wd@.len() + 1,
            forall|j: int| 0 <= j < i ==> !head_exists@[j],
        decreases n - i,
    {
        if head_exists[i] {
            let keep = wd.len() - i;
            return Option::Some(head_path(wd, keep));
        }
        i = i + 1;
    }
    Option::None
}

} // verus!

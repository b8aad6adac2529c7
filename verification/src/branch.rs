//! Parsing the HEAD reference file's contents into a branch name.

use vstd::prelude::*;

verus! {

/// Whitespace as it appears around HEAD contents: blanks, tabs and line ends.
pub open spec fn is_ws_char(c: char) -> bool {
    c == ' ' || c == '\t' || c == '\n' || c == '\r'
}

/// The number of leading whitespace characters of `s`.
pub open spec fn start_trim(s: Seq<char>) -> int
    decreases s.len(),
{
    if s.len() == 0 {
        0
    } else if is_ws_char(s[0]) {
        1 + start_trim(s.drop_first())
    } else {
        0
    }
}

/// The length of `s` once trailing whitespace is dropped.
pub open spec fn end_trim(s: Seq<char>) -> int
    decreases s.len(),
{
    if s.len() == 0 {
        0
    } else if is_ws_char(s[s.len() - 1]) {
        end_trim(s.drop_last())
    } else {
        s.len() as int
    }
}

/// `s` without surrounding whitespace.
pub open spec fn trim_spec(s: Seq<char>) -> Seq<char> {
    let t = s.subrange(0, end_trim(s));
    t.subrange(start_trim(t), t.len() as int)
}

pub proof fn lemma_start_trim(s: Seq<char>)
    ensures
        0 <= start_trim(s) <= s.len(),
        forall|j: int| 0 <= j < start_trim(s) ==> is_ws_char(s[j]),
        start_trim(s) < s.len() ==> !is_ws_char(s[start_trim(s)]),
    decreases s.len(),
{
    if s.len() > 0 && is_ws_char(s[0]) {
        lemma_start_trim(s.drop_first());
        assert forall|j: int| 0 <= j < start_trim(s) implies is_ws_char(s[j]) by {
            if j > 0 {
                assert(s.drop_first()[j - 1] == s[j]);
            }
        }
    }
}

pub proof fn lemma_end_trim(s: Seq<char>)
    ensures
        0 <= end_trim(s) <= s.len(),
        forall|j: int| end_trim(s) <= j < s.len() ==> is_ws_char(s[j]),
        end_trim(s) > 0 ==> !is_ws_char(s[end_trim(s) - 1]),
    decreases s.len(),
{
    if s.len() > 0 && is_ws_char(s[s.len() - 1]) {
        lemma_end_trim(s.drop_last());
        assert forall|j: int| end_trim(s) <= j < s.len() implies is_ws_char(s[j]) by {
            if j < s.len() - 1 {
                assert(s.drop_last()[j] == s[j]);
            }
        }
    }
}

fn is_ws(c: char) -> (r: bool)
    ensures
        r == is_ws_char(c),
{
    c == ' ' || c == '\t' || c == '\n' || c == '\r'
}

/// `s` without surrounding whitespace, as the original slice's middle.
pub fn trim_str<'a>(s: &'a str) -> (r: &'a str)
    ensures
        r@ == trim_spec(s@),
{
    let n = s.unicode_len();
    let mut b: usize = n;
    while b > 0 && is_ws(s.get_char(b - 1))
        invariant
            b <= n,
            n == s@.len(),
            forall|j: int| b <= j < s@.len() ==> is_ws_char(s@[j]),
        decreases b,
    {
        b = b - 1;
    }
    proof {
        lemma_end_trim(s@);
        assert(end_trim(s@) == b);
    }
    let ghost t = s@.subrange(0, b as int);
    let mut a: usize = 0;
    while a < b && is_ws(s.get_char(a))
        invariant
            a <= b <= n,
            n == s@.len(),
            forall|j: int| 0 <= j < a ==> is_ws_char(s@[j]),
        decreases b - a,
    {
        a = a + 1;
    }
    proof {
        lemma_start_trim(t);
        assert forall|j: int| 0 <= j < a implies is_ws_char(t[j]) by {
            assert(t[j] == s@[j]);
        }
        if a < b {
            assert(t[a as int] == s@[a as int]);
        }
        assert(start_trim(t) == a);
    }
    let r = s.substring_char(a, b);
    proof {
        assert(r@ =~= t.subrange(a as int, t.len() as int));
    }
    r
}

/// The marker with which HEAD names a local branch symbolically.
pub open spec fn ref_prefix() -> Seq<char> {
    "ref: refs/heads/"@
}

/// Whether `s` begins with the symbolic-reference marker.
pub open spec fn starts_with_ref_prefix(s: Seq<char>) -> bool {
    s.len() >= ref_prefix().len() && s.subrange(0, ref_prefix().len() as int) == ref_prefix()
}

/// `s` with the symbolic-reference marker stripped, if it is there.
pub open spec fn strip_ref_prefix(s: Seq<char>) -> Seq<char> {
    if starts_with_ref_prefix(s) {
        s.subrange(ref_prefix().len() as int, s.len() as int)
    } else {
        s
    }
}

/// The branch name that HEAD contents denote: the trimmed text, less the
/// symbolic-reference marker when one leads it. Contents without the marker
/// (a detached-HEAD hash, a reference outside the local branches) pass
/// through trimmed but otherwise verbatim.
pub open spec fn branch_of(contents: Seq<char>) -> Seq<char> {
    strip_ref_prefix(trim_spec(contents))
}

/// Law: writing a symbolic reference for branch `b` into HEAD — the marker,
/// the branch name, a trailing newline — and parsing it back yields `b`
/// exactly: the marker is stripped and any slashes inside the name survive.
/// A name whose own last character is whitespace would lose it to trimming,
/// so such names are left out.
pub proof fn lemma_symbolic_ref_round_trip(b: Seq<char>)
    requires
        b.len() == 0 || !is_ws_char(b[b.len() - 1]),
    ensures
        branch_of(ref_prefix() + b + "\n"@) == b,
{
    reveal_strlit("ref: refs/heads/");
    reveal_strlit("\n");
    let pre = ref_prefix();
    let s = pre + b + "\n"@;
    let t = pre + b;
    assert(s[s.len() - 1] == '\n');
    assert(s.drop_last() =~= t);
    assert(end_trim(s) == end_trim(t));
    if b.len() == 0 {
        assert(t[t.len() - 1] == pre[15]);
        assert(!is_ws_char(pre[15]));
    } else {
        assert(t[t.len() - 1] == b[b.len() - 1]);
    }
    assert(end_trim(t) == t.len());
    assert(s.subrange(0, t.len() as int) =~= t);
    assert(t[0] == 'r');
    assert(start_trim(t) == 0);
    assert(trim_spec(s) == t.subrange(0, t.len() as int));
    assert(t.subrange(0, t.len() as int) =~= t);
    assert(t.subrange(0, 16) =~= pre);
    assert(starts_with_ref_prefix(t));
    assert(t.subrange(16, t.len() as int) =~= b);
}

/// Law: HEAD contents without the symbolic-reference marker — a detached
/// commit hash, say — come back verbatim once trimmed: no validation, no
/// resolution, no change.
pub proof fn lemma_plain_contents_verbatim(c: Seq<char>)
    requires
        !starts_with_ref_prefix(trim_spec(c)),
    ensures
        branch_of(c) == trim_spec(c),
{
}

/// Extract the branch name from the HEAD file's text.
pub fn parse_head(contents: &str) -> (r: String)
    ensures
        r@ == branch_of(contents@),
{
    proof {
        reveal_strlit("ref: refs/heads/");
    }
    let t = trim_str(contents);
    let tlen = t.unicode_len();
    if tlen < 16 {
        return String::from_str(t);
    }
    let mut k: usize = 0;
    while k < 16
        invariant
            k <= 16,
            16 <= tlen,
            tlen == t@.len(),
            t@ == trim_spec(contents@),
            ref_prefix().len() == 16,
            forall|j: int| 0 <= j < k ==> t@[j] == ref_prefix()[j],
        decreases 16 - k,
    {
        if t.get_char(k) != "ref: refs/heads/".get_char(k) {
            proof {
                assert(t@.subrange(0, 16) != ref_prefix()) by {
                    assert(t@.subrange(0, 16)[k as int] == t@[k as int]);
                }
            }
            return String::from_str(t);
        }
        k = k + 1;
    }
    proof {
        assert(t@.subrange(0, 16) =~= ref_prefix());
    }
    let stripped = t.substring_char(16, tlen);
    String::from_str(stripped)
}

} // verus!

//! Dirtiness, formatting, and the whole prompt computation.

use vstd::prelude::*;
use crate::branch::branch_of;
use crate::branch::parse_head;
use crate::locate::dotgit_name;
use crate::locate::inside_dotgit;
use crate::locate::inside_dotgit_dir;

verus! {

/// Dirtiness read off the status query's captured output: any output at all
/// means uncommitted modifications; a query that could not be launched is
/// `None` and counts as clean.
pub open spec fn dirty_of(out: Option<Seq<u8>>) -> bool {
    match out {
        Option::Some(s) => s.len() > 0,
        Option::None => false,
    }
}

/// Decide dirtiness from the status query's captured standard output, or
/// from its absence when the query could not be launched.
pub fn is_dirty(status_output: &Option<Vec<u8>>) -> (r: bool)
    ensures
        r == dirty_of(status_output.deep_view()),
{
    match status_output {
        Option::Some(out) => out.len() > 0,
        Option::None => false,
    }
}

/// The branch name the prompt shows, if any: inside the metadata directory
/// itself, its own name as a fixed sentinel, whatever HEAD holds; otherwise
/// the branch parsed from the HEAD contents, or nothing when no repository
/// was found or HEAD could not be read.
pub open spec fn branch_for(segs: Seq<Seq<char>>, head: Option<Seq<char>>) -> Option<Seq<char>> {
    if inside_dotgit(segs) {
        Option::Some(dotgit_name())
    } else {
        match head {
            Option::Some(c) => Option::Some(branch_of(c)),
            Option::None => Option::None,
        }
    }
}

/// Name the current branch, given the working directory's path segments and
/// the HEAD contents the caller read (`None` when no repository was found or
/// the read failed).
pub fn current_branch(wd: &Vec<String>, head_contents: &Option<String>) -> (r: Option<String>)
    ensures
        r.deep_view() == branch_for(wd.deep_view(), head_contents.deep_view()),
{
    if inside_dotgit_dir(wd) {
        return Option::Some(String::from_str(".git"));
    }
    match head_contents {
        Option::Some(c) => Option::Some(parse_head(c.as_str())),
        Option::None => Option::None,
    }
}

/// The line's fixed styling around a branch name: a leading space, colored
/// delimiters, the name in its own color, and a style reset.
pub open spec fn prompt_base(branch: Seq<char>) -> Seq<char> {
    " %F{blue}(%F{red}"@ + branch + "%F{blue})%f"@
}

/// The glyph appended when the working tree is dirty.
pub open spec fn dirty_marker() -> Seq<char> {
    "\u{1F4A9}"@
}

/// The one line of prompt text: the styled branch name, and the dirty
/// marker right after the closing delimiter, with nothing in between, only
/// when the tree is dirty.
pub open spec fn prompt_line(branch: Seq<char>, dirty: bool) -> Seq<char> {
    if dirty {
        prompt_base(branch) + dirty_marker()
    } else {
        prompt_base(branch)
    }
}

/// Format the prompt line for a branch name and a dirtiness flag.
pub fn format_prompt(branch: &str, dirty: bool) -> (r: String)
    ensures
        r@ == prompt_line(branch@, dirty),
{
    let mut s = String::new();
    s.append(" %F{blue}(%F{red}");
    s.append(branch);
    s.append("%F{blue})%f");
    if dirty {
        s.append("\u{1F4A9}");
    }
    proof {
        assert(s@ =~= prompt_line(branch@, dirty));
    }
    s
}

/// What the whole run prints: nothing when no branch is known — the absence
/// of version control is silent — and otherwise the one styled line.
pub open spec fn prompt_of(
    segs: Seq<Seq<char>>,
    head: Option<Seq<char>>,
    out: Option<Seq<u8>>,
) -> Option<Seq<char>> {
    match branch_for(segs, head) {
        Option::Some(b) => Option::Some(prompt_line(b, dirty_of(out))),
        Option::None => Option::None,
    }
}

/// Law: outside any repository — no ancestor's HEAD was found, so no
/// contents were read — and outside the metadata directory, the run prints
/// nothing, whatever the status query returned.
pub proof fn lemma_no_repository_is_silent(segs: Seq<Seq<char>>, out: Option<Seq<u8>>)
    requires
        !inside_dotgit(segs),
    ensures
        prompt_of(segs, Option::None, out) is None,
{
}

/// Law: a path with the metadata directory's name among its segments always
/// shows that name as the sentinel label, whatever HEAD holds and whether or
/// not it was read at all.
pub proof fn lemma_inside_metadata_sentinel(
    segs: Seq<Seq<char>>,
    head: Option<Seq<char>>,
    out: Option<Seq<u8>>,
)
    requires
        inside_dotgit(segs),
    ensures
        branch_for(segs, head) == Option::Some(dotgit_name()),
        prompt_of(segs, head, out) == Option::Some(prompt_line(dotgit_name(), dirty_of(out))),
{
}

/// Law: the dirty marker stands on the line exactly when the status query
/// produced output, immediately after the closing delimiter with nothing in
/// between; an empty output leaves the line without it.
pub proof fn lemma_dirty_marker(branch: Seq<char>, out: Option<Seq<u8>>)
    ensures
        prompt_line(branch, dirty_of(out)) == (if dirty_of(out) {
            prompt_base(branch) + dirty_marker()
        } else {
            prompt_base(branch)
        }),
{
}

/// Law: a status query that could not be launched counts as clean: the run
/// prints exactly what it would print had the query run and produced no
/// output.
pub proof fn lemma_launch_failure_is_clean(segs: Seq<Seq<char>>, head: Option<Seq<char>>)
    ensures
        !dirty_of(Option::None),
        prompt_of(segs, head, Option::None) == prompt_of(
            segs,
            head,
            Option::Some(Seq::<u8>::empty()),
        ),
{
}

/// The whole computation of one run, from the working directory's segments,
/// the HEAD contents read (if any), and the status query's captured output
/// (if it launched), to the line to print — or `None`, meaning print
/// nothing.
pub fn render_prompt(
    wd: &Vec<String>,
    head_contents: &Option<String>,
    status_output: &Option<Vec<u8>>,
) -> (r: Option<String>)
    ensures
        r.deep_view() == prompt_of(
            wd.deep_view(),
            head_contents.deep_view(),
            status_output.deep_view(),
        ),
{
    match current_branch(wd, head_contents) {
        Option::Some(b) => {
            let dirty = is_dirty(status_output);
            Option::Some(format_prompt(b.as_str(), dirty))
        },
        Option::None => Option::None,
    }
}

} // verus!

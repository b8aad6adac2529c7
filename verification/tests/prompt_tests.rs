use git_prompt::branch::parse_head;
use git_prompt::branch::trim_str;
use git_prompt::locate::find_head;
use git_prompt::locate::head_path;
use git_prompt::locate::inside_dotgit_dir;
use git_prompt::prompt::current_branch;
use git_prompt::prompt::format_prompt;
use git_prompt::prompt::is_dirty;
use git_prompt::prompt::render_prompt;

fn segs(parts: &[&str]) -> Vec<String> {
    parts.iter().map(|p| p.to_string()).collect()
}

#[test]
fn not_in_repo_prints_nothing() {
    let wd = segs(&["home", "me", "notes"]);
    assert_eq!(render_prompt(&wd, &None, &Some(Vec::new())), None);
    assert_eq!(render_prompt(&wd, &None, &None), None);
    assert_eq!(current_branch(&wd, &None), None);
}

#[test]
fn inside_metadata_dir_shows_sentinel() {
    let wd = segs(&["home", "me", "proj", ".git", "hooks"]);
    assert!(inside_dotgit_dir(&wd));
    assert_eq!(
        current_branch(&wd, &Some("ref: refs/heads/main\n".to_string())),
        Some(".git".to_string())
    );
    assert_eq!(current_branch(&wd, &None), Some(".git".to_string()));
}

#[test]
fn metadata_name_must_match_segment_exactly() {
    assert!(!inside_dotgit_dir(&segs(&["home", "me", ".gitlab", "proj"])));
    assert!(!inside_dotgit_dir(&segs(&["home", "git"])));
    assert!(inside_dotgit_dir(&segs(&[".git"])));
    assert!(!inside_dotgit_dir(&segs(&[])));
}

#[test]
fn symbolic_ref_round_trip() {
    assert_eq!(parse_head("ref: refs/heads/feature/x\n"), "feature/x");
    assert_eq!(parse_head("ref: refs/heads/main\n"), "main");
}

#[test]
fn detached_head_hash_verbatim() {
    let hash = "3f786850e387550fdab836ed7e6dc881de23001b";
    let contents = format!("{}\n", hash);
    assert_eq!(parse_head(&contents), hash);
}

#[test]
fn head_parsing_trims_surrounding_whitespace() {
    assert_eq!(parse_head("  main  \n"), "main");
    assert_eq!(parse_head("\t ref: refs/heads/dev \n"), "dev");
    assert_eq!(parse_head(""), "");
    assert_eq!(parse_head(" \n\t\r "), "");
    assert_eq!(parse_head("ref: refs/heads/"), "");
    assert_eq!(trim_str("  a b  "), "a b");
}

#[test]
fn non_branch_refs_pass_through() {
    assert_eq!(parse_head("ref: refs/tags/v1\n"), "ref: refs/tags/v1");
}

#[test]
fn dirty_marker_present_only_on_output() {
    assert_eq!(format_prompt("main", false), " %F{blue}(%F{red}main%F{blue})%f");
    assert_eq!(
        format_prompt("main", true),
        " %F{blue}(%F{red}main%F{blue})%f\u{1F4A9}"
    );
    assert!(!is_dirty(&Some(Vec::new())));
    assert!(is_dirty(&Some(b" M src/main.rs\n".to_vec())));
}

#[test]
fn launch_failure_treated_as_clean() {
    assert!(!is_dirty(&None));
    let wd = segs(&["a"]);
    let head = Some("ref: refs/heads/main\n".to_string());
    assert_eq!(
        render_prompt(&wd, &head, &None),
        Some(" %F{blue}(%F{red}main%F{blue})%f".to_string())
    );
}

#[test]
fn rendered_line_with_dirty_tree() {
    let wd = segs(&["a"]);
    let head = Some("ref: refs/heads/main\n".to_string());
    assert_eq!(
        render_prompt(&wd, &head, &Some(b"?? x\n".to_vec())),
        Some(" %F{blue}(%F{red}main%F{blue})%f\u{1F4A9}".to_string())
    );
}

#[test]
fn nested_repository_nearest_ancestor_wins() {
    // Working directory /a/b/c; both /a/.git/HEAD and /a/b/.git/HEAD exist.
    // Probes come deepest first: /a/b/c, /a/b, /a, /.
    let wd = segs(&["a", "b", "c"]);
    let exists = vec![false, true, true, false];
    assert_eq!(find_head(&wd, &exists), Some("/a/b/.git/HEAD".to_string()));
}

#[test]
fn find_head_misses_when_no_ancestor_has_head() {
    let wd = segs(&["a", "b"]);
    assert_eq!(find_head(&wd, &vec![false, false, false]), None);
}

#[test]
fn find_head_reaches_the_root() {
    let wd = segs(&["a"]);
    assert_eq!(find_head(&wd, &vec![false, true]), Some("/.git/HEAD".to_string()));
    assert_eq!(find_head(&segs(&[]), &vec![true]), Some("/.git/HEAD".to_string()));
}

#[test]
fn head_paths_are_spelled_from_the_root() {
    let wd = segs(&["home", "me", "proj"]);
    assert_eq!(head_path(&wd, 3), "/home/me/proj/.git/HEAD");
    assert_eq!(head_path(&wd, 1), "/home/.git/HEAD");
    assert_eq!(head_path(&wd, 0), "/.git/HEAD");
}

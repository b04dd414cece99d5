use prompter::vcs::apply_git_snapshot;
use prompter::vcs::rest_path;
use prompter::vcs::status_code;
use prompter::vcs::strip_git_meta;
use prompter::vcs::tilde_path;
use prompter::vcs::GitSnapshot;
use prompter::vcs::HeadRaw;
use prompter::vcs::StatusFlags;

fn clean_entry() -> StatusFlags {
    StatusFlags {
        wt_new: false,
        index_new: false,
        index_renamed: false,
        wt_renamed: false,
        index_deleted: false,
        wt_deleted: false,
        index_modified: false,
        wt_modified: false,
        conflicted: false,
    }
}

#[test]
fn status_code_empty() {
    assert_eq!(status_code(&vec![]), "");
    assert_eq!(status_code(&vec![clean_entry(), clean_entry()]), "");
}

#[test]
fn status_code_fixed_order_regardless_of_enumeration() {
    let mut untracked = clean_entry();
    untracked.wt_new = true;
    let mut modified = clean_entry();
    modified.wt_modified = true;
    let mut conflict = clean_entry();
    conflict.conflicted = true;
    let one = vec![untracked, modified, conflict];
    let other = vec![conflict, modified, untracked];
    assert_eq!(status_code(&one), ",?MC[1]");
    assert_eq!(status_code(&other), ",?MC[1]");
}

#[test]
fn status_code_all_letters() {
    let mut a = clean_entry();
    a.wt_new = true;
    a.index_new = true;
    a.conflicted = true;
    let mut b = clean_entry();
    b.index_deleted = true;
    b.wt_renamed = true;
    b.index_modified = true;
    b.conflicted = true;
    assert_eq!(status_code(&vec![a, b]), ",?ADRMC[2]");
}

#[test]
fn status_code_multi_digit_conflict_count() {
    let mut conflict = clean_entry();
    conflict.conflicted = true;
    let entries = vec![conflict; 12];
    assert_eq!(status_code(&entries), ",C[12]");
}

#[test]
fn status_code_aggregates_across_entries() {
    let mut a = clean_entry();
    a.wt_deleted = true;
    let mut b = clean_entry();
    b.index_renamed = true;
    assert_eq!(status_code(&vec![a, b]), ",DR");
}

#[test]
fn strip_meta_component() {
    assert_eq!(strip_git_meta("/home/u/proj/.git/"), "/home/u/proj");
    assert_eq!(strip_git_meta("/home/u/proj/.git"), "/home/u/proj");
    assert_eq!(strip_git_meta("/home/u/proj/"), "/home/u/proj/");
    assert_eq!(strip_git_meta("/.git/"), "/");
    assert_eq!(strip_git_meta(".git/"), "");
    assert_eq!(strip_git_meta("/home/u/.gitx/"), "/home/u/.gitx/");
}

#[test]
fn tilde_substitution_strictly_inside_home() {
    let home = Some(String::from("/home/u"));
    assert_eq!(tilde_path("/home/u/proj", &home), "~/proj");
    assert_eq!(tilde_path("/home/u", &home), "/home/u");
    assert_eq!(tilde_path("/home/uber", &home), "/home/uber");
    assert_eq!(tilde_path("/srv/x", &home), "/srv/x");
    assert_eq!(tilde_path("/home/u/proj", &None), "/home/u/proj");
}

#[test]
fn rest_of_working_directory() {
    assert_eq!(rest_path("/r/a/b", "/r"), "a/b");
    assert_eq!(rest_path("/r", "/r"), "");
    assert_eq!(rest_path("/elsewhere", "/r"), "");
    assert_eq!(rest_path("/r/a", ""), "/r/a");
}

fn snapshot(head: Option<HeadRaw>, statuses: Option<Vec<StatusFlags>>) -> GitSnapshot {
    GitSnapshot { repo_path: String::from("/home/u/proj/.git/"), head, statuses }
}

#[test]
fn classify_clean_repository_at_main() {
    let head = HeadRaw {
        shorthand: Some(String::from("main")),
        is_tag: false,
        target: Some(String::from("abcdef0123456789abcdef0123456789abcdef01")),
    };
    let snap = snapshot(Some(head), Some(vec![clean_entry()]));
    let home = Some(String::from("/home/u"));
    let mut vars = vec![String::new(); 6];
    apply_git_snapshot(1, &home, "/home/u/proj/sub", &snap, &mut vars);
    assert_eq!(vars[1], "git");
    assert_eq!(vars[2], "~/proj");
    assert_eq!(vars[3], "main:abcdef0");
    assert_eq!(vars[4], "/sub");
    assert_eq!(vars[0], "");
    assert_eq!(vars[5], "");
}

#[test]
fn classify_is_idempotent() {
    let head = HeadRaw {
        shorthand: Some(String::from("main")),
        is_tag: false,
        target: Some(String::from("abcdef0123456789abcdef0123456789abcdef01")),
    };
    let mut dirty = clean_entry();
    dirty.wt_modified = true;
    let snap = snapshot(Some(head), Some(vec![dirty]));
    let home = Some(String::from("/home/u"));
    let mut first = vec![String::new(); 6];
    apply_git_snapshot(1, &home, "/home/u/proj", &snap, &mut first);
    let mut second = vec![String::from("x"); 6];
    apply_git_snapshot(1, &home, "/home/u/proj", &snap, &mut second);
    assert_eq!(first[1..5], second[1..5]);
    assert_eq!(first[2], "~/proj");
    assert_eq!(first[3], "main:abcdef0,M");
    assert_eq!(first[4], "/");
}

#[test]
fn classify_tag_head() {
    let head = HeadRaw {
        shorthand: Some(String::from("v1.0")),
        is_tag: true,
        target: None,
    };
    let snap = snapshot(Some(head), Some(vec![]));
    let mut vars = vec![String::new(); 6];
    apply_git_snapshot(1, &None, "/home/u/proj", &snap, &mut vars);
    assert_eq!(vars[3], "tag:v1.0:0000000");
}

#[test]
fn classify_without_head_or_statuses() {
    let snap = snapshot(None, None);
    let mut vars = vec![String::new(); 6];
    apply_git_snapshot(1, &None, "/home/u/proj", &snap, &mut vars);
    assert_eq!(vars[3], "UNKNOWN:0000000");
}

#[test]
fn classify_unreadable_shorthand() {
    let head = HeadRaw { shorthand: None, is_tag: false, target: None };
    let snap = snapshot(Some(head), Some(vec![]));
    let mut vars = vec![String::new(); 6];
    apply_git_snapshot(1, &None, "/home/u/proj", &snap, &mut vars);
    assert_eq!(vars[3], "!:0000000");
}

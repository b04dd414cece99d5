//! Version-control status classification.
//!
//! The classifier reads a snapshot of the repository — metadata
//! directory path, head descriptor, per-entry status flags — through a
//! small set of trusted calls into git2, and then computes four prompt
//! variables from it in verified code: the label, the repository root
//! (with the home directory shortened to `~`), the head info string
//! `head:shortid[,code]`, and the path remainder below the root.

use crate::text::dec_spec;
use crate::text::ends_with_spec;
use crate::text::opt_str_view;
use crate::text::starts_with_spec;
use crate::text::str_ends_with;
use crate::text::str_eq;
use crate::text::str_starts_with;
use crate::text::usize_dec;
use vstd::prelude::*;
use vstd::string::StrSliceExecFns;
use vstd::string::StringExecFns;

verus! {

/// The status bits of one index/working-tree entry, as plain booleans.
#[derive(Clone, Copy)]
pub struct StatusFlags {
    pub wt_new: bool,
    pub index_new: bool,
    pub index_renamed: bool,
    pub wt_renamed: bool,
    pub index_deleted: bool,
    pub wt_deleted: bool,
    pub index_modified: bool,
    pub wt_modified: bool,
    pub conflicted: bool,
}

/// The head descriptor read from the repository: the short reference
/// name, whether the head is a tag, and the full hex commit identifier.
pub struct HeadRaw {
    pub shorthand: Option<String>,
    pub is_tag: bool,
    pub target: Option<String>,
}

/// Everything the classifier reads from one repository: the metadata
/// directory path, the head (if resolvable), and the status entries
/// (if status computation succeeded).
pub struct GitSnapshot {
    pub repo_path: String,
    pub head: Option<HeadRaw>,
    pub statuses: Option<Vec<StatusFlags>>,
}

#[verifier::external_type_specification]
#[verifier::external_body]
pub struct ExRepository(git2::Repository);

#[verifier::external_type_specification]
#[verifier::external_body]
pub struct ExStatus(git2::Status);

/// Relies on `git2::Repository::open_ext`: upward discovery from the
/// current directory, crossing filesystem boundaries, bounded by the
/// home directory, as the host git tool's own discovery behaves.
#[verifier::external_body]
fn open_repo(home: &Option<String>) -> (r: Option<git2::Repository>) {
    git2::Repository::open_ext(".", git2::RepositoryOpenFlags::CROSS_FS, home.as_deref()).ok()
}

/// Relies on `git2::Repository::path`: the path of the repository's
/// metadata directory.
#[verifier::external_body]
fn repo_path_string(repo: &git2::Repository) -> (r: String) {
    repo.path().to_string_lossy().into_owned()
}

/// Relies on `git2::Repository::head` and the `git2::Reference`
/// accessors `shorthand`, `is_tag` and `target`; the commit identifier
/// is hex-encoded by `git2::Oid`'s display.
#[verifier::external_body]
fn repo_head_raw(repo: &git2::Repository) -> (r: Option<HeadRaw>) {
    match repo.head() {
        Ok(h) => Some(
            HeadRaw {
                shorthand: h.shorthand().ok().map(|s| s.to_owned()),
                is_tag: h.is_tag(),
                target: h.target().map(|o| o.to_string()),
            },
        ),
        Err(_) => None,
    }
}

/// Relies on `git2::Repository::statuses` with untracked files
/// included and rename/rewrite detection enabled, as well as
/// `StatusEntry::status` to read each entry's bits.
#[verifier::external_body]
fn repo_status_list(repo: &git2::Repository) -> (r: Option<Vec<git2::Status>>) {
    let mut opts = git2::StatusOptions::new();
    opts.show(git2::StatusShow::IndexAndWorkdir)
        .include_untracked(true)
        .renames_head_to_index(true)
        .renames_index_to_workdir(true)
        .renames_from_rewrites(true)
        .update_index(true);
    match repo.statuses(Some(&mut opts)) {
        Ok(list) => Some(list.iter().map(|e| e.status()).collect()),
        Err(_) => None,
    }
}

/// Relies on the `git2::Status` bit tests (`is_wt_new`, `is_index_new`,
/// ...) to read one entry's flags into plain booleans.
#[verifier::external_body]
fn status_flags_of(s: &git2::Status) -> (r: StatusFlags) {
    StatusFlags {
        wt_new: s.is_wt_new(),
        index_new: s.is_index_new(),
        index_renamed: s.is_index_renamed(),
        wt_renamed: s.is_wt_renamed(),
        index_deleted: s.is_index_deleted(),
        wt_deleted: s.is_wt_deleted(),
        index_modified: s.is_index_modified(),
        wt_modified: s.is_wt_modified(),
        conflicted: s.is_conflicted(),
    }
}

/// Some entry is an untracked file.
pub open spec fn has_untracked(s: Seq<StatusFlags>) -> bool
    decreases s.len(),
{
    if s.len() == 0 {
        false
    } else {
        has_untracked(s.drop_last()) || s.last().wt_new
    }
}

/// Some entry is newly added to the index.
pub open spec fn has_added(s: Seq<StatusFlags>) -> bool
    decreases s.len(),
{
    if s.len() == 0 {
        false
    } else {
        has_added(s.drop_last()) || s.last().index_new
    }
}

/// Some entry is deleted in the index or the working tree.
pub open spec fn has_removed(s: Seq<StatusFlags>) -> bool
    decreases s.len(),
{
    if s.len() == 0 {
        false
    } else {
        has_removed(s.drop_last()) || s.last().index_deleted || s.last().wt_deleted
    }
}

/// Some entry is renamed in the index or the working tree.
pub open spec fn has_renamed(s: Seq<StatusFlags>) -> bool
    decreases s.len(),
{
    if s.len() == 0 {
        false
    } else {
        has_renamed(s.drop_last()) || s.last().index_renamed || s.last().wt_renamed
    }
}

/// Some entry is modified in the index or the working tree.
pub open spec fn has_modified(s: Seq<StatusFlags>) -> bool
    decreases s.len(),
{
    if s.len() == 0 {
        false
    } else {
        has_modified(s.drop_last()) || s.last().index_modified || s.last().wt_modified
    }
}

/// How many entries are conflicted.
pub open spec fn conflict_count(s: Seq<StatusFlags>) -> nat
    decreases s.len(),
{
    if s.len() == 0 {
        0
    } else {
        conflict_count(s.drop_last()) + if s.last().conflicted {
            1nat
        } else {
            0nat
        }
    }
}

/// The compressed status code: one letter per aggregate flag in the
/// fixed order `? A D R M`, then `C[n]` for `n > 0` conflicts, the
/// whole prefixed by a comma when non-empty.
pub open spec fn status_code_spec(s: Seq<StatusFlags>) -> Seq<char> {
    let core = (if has_untracked(s) {
        seq!['?']
    } else {
        Seq::empty()
    }) + (if has_added(s) {
        seq!['A']
    } else {
        Seq::empty()
    }) + (if has_removed(s) {
        seq!['D']
    } else {
        Seq::empty()
    }) + (if has_renamed(s) {
        seq!['R']
    } else {
        Seq::empty()
    }) + (if has_modified(s) {
        seq!['M']
    } else {
        Seq::empty()
    }) + (if conflict_count(s) > 0 {
        "C["@ + dec_spec(conflict_count(s)) + "]"@
    } else {
        Seq::empty()
    });
    if core.len() == 0 {
        Seq::empty()
    } else {
        seq![','] + core
    }
}

/// The code when status computation failed is empty.
pub open spec fn status_code_opt_spec(o: Option<Seq<StatusFlags>>) -> Seq<char> {
    match o {
        Option::None => Seq::empty(),
        Option::Some(s) => status_code_spec(s),
    }
}

/// The repository root: the metadata directory's parent, stripping one
/// trailing metadata-directory component if present, never more.
pub open spec fn strip_meta_spec(p: Seq<char>) -> Seq<char> {
    if ends_with_spec(p, "/.git/"@) {
        if p.len() == 6 {
            seq!['/']
        } else {
            p.take(p.len() - 6)
        }
    } else if p == ".git/"@ {
        Seq::empty()
    } else if ends_with_spec(p, "/.git"@) {
        if p.len() == 5 {
            seq!['/']
        } else {
            p.take(p.len() - 5)
        }
    } else if p == ".git"@ {
        Seq::empty()
    } else {
        p
    }
}

/// Home-directory substitution: when the root lies strictly inside the
/// home directory, the home prefix is rewritten to `~`.
pub open spec fn tilde_spec(root: Seq<char>, home: Option<Seq<char>>) -> Seq<char> {
    match home {
        Option::None => root,
        Option::Some(h) => {
            if root.len() > h.len() && root.take(h.len() as int) == h && root[h.len() as int]
                == '/' {
                seq!['~'] + root.skip(h.len() as int)
            } else {
                root
            }
        },
    }
}

/// The path remainder between the repository root and the current
/// working directory; empty when the two are equal or unrelated.
pub open spec fn rest_spec(cwd: Seq<char>, root: Seq<char>) -> Seq<char> {
    if root.len() == 0 {
        cwd
    } else if cwd == root {
        Seq::empty()
    } else {
        let pref = if root[root.len() - 1] == '/' {
            root
        } else {
            root + seq!['/']
        };
        if starts_with_spec(cwd, pref) {
            cwd.skip(pref.len() as int)
        } else {
            Seq::empty()
        }
    }
}

/// The head descriptor: the short name, `tag:`-prefixed for a tag,
/// `!` when the name is unreadable, `UNKNOWN` without a head.
pub open spec fn head_name_spec(h: Option<HeadRaw>) -> Seq<char> {
    match h {
        Option::None => "UNKNOWN"@,
        Option::Some(hr) => {
            let short = match hr.shorthand {
                Option::None => "!"@,
                Option::Some(s) => s@,
            };
            if hr.is_tag {
                "tag:"@ + short
            } else {
                short
            }
        },
    }
}

/// The short commit identifier: the first 7 characters of the hex
/// identifier, or the all-zero sentinel truncated the same way.
pub open spec fn short_id_spec(h: Option<HeadRaw>) -> Seq<char> {
    let target = match h {
        Option::None => Option::<String>::None,
        Option::Some(hr) => hr.target,
    };
    match target {
        Option::None => "0000000"@,
        Option::Some(t) => {
            if t@.len() <= 7 {
                t@
            } else {
                t@.take(7)
            }
        },
    }
}

/// The info variable: `head:shortid` followed by the status code.
pub open spec fn info_spec(head: Option<HeadRaw>, st: Option<Seq<StatusFlags>>) -> Seq<char> {
    head_name_spec(head) + seq![':'] + short_id_spec(head) + status_code_opt_spec(st)
}

/// The view of the optional status entry list.
pub open spec fn statuses_view(o: Option<Vec<StatusFlags>>) -> Option<Seq<StatusFlags>> {
    match o {
        Option::None => Option::None,
        Option::Some(v) => Option::Some(v@),
    }
}

/// The four variables a classification writes from a snapshot: label,
/// root with tilde substitution, head info, path remainder.
pub open spec fn git_slots_written(
    base: int,
    home: Option<Seq<char>>,
    cwd: Seq<char>,
    snap: GitSnapshot,
    v: Seq<String>,
) -> bool {
    &&& 0 <= base
    &&& base + 4 <= v.len()
    &&& v[base]@ == "git"@
    &&& v[base + 1]@ == tilde_spec(strip_meta_spec(snap.repo_path@), home)
    &&& v[base + 2]@ == info_spec(snap.head, statuses_view(snap.statuses))
    &&& v[base + 3]@ == seq!['/'] + rest_spec(cwd, strip_meta_spec(snap.repo_path@))
}

/// Strip one trailing metadata-directory component from a path.
pub fn strip_git_meta(p: &str) -> (r: String)
    ensures
        r@ == strip_meta_spec(p@),
{
    proof {
        reveal_strlit("/.git/");
        reveal_strlit("/.git");
        reveal_strlit(".git/");
        reveal_strlit(".git");
        reveal_strlit("/");
    }
    let n = p.unicode_len();
    if str_ends_with(p, "/.git/") {
        if n == 6 {
            String::from_str("/")
        } else {
            String::from_str(p.substring_char(0, n - 6))
        }
    } else if str_eq(p, ".git/") {
        String::new()
    } else if str_ends_with(p, "/.git") {
        if n == 5 {
            String::from_str("/")
        } else {
            String::from_str(p.substring_char(0, n - 5))
        }
    } else if str_eq(p, ".git") {
        String::new()
    } else {
        String::from_str(p)
    }
}

/// Rewrite the home-directory prefix of `root` to `~` when `root` lies
/// strictly inside the home directory.
pub fn tilde_path(root: &str, home: &Option<String>) -> (r: String)
    ensures
        r@ == tilde_spec(root@, opt_str_view(*home)),
{
    match home {
        Option::None => String::from_str(root),
        Option::Some(h) => {
            let rl = root.unicode_len();
            let hl = h.as_str().unicode_len();
            if rl > hl && str_starts_with(root, h.as_str()) && root.get_char(hl) == '/' {
                let mut out = String::new();
                out.push('~');
                out.append(root.substring_char(hl, rl));
                out
            } else {
                String::from_str(root)
            }
        },
    }
}

/// The path remainder of `cwd` below `root`.
pub fn rest_path(cwd: &str, root: &str) -> (r: String)
    ensures
        r@ == rest_spec(cwd@, root@),
{
    let rl = root.unicode_len();
    if rl == 0 {
        return String::from_str(cwd);
    }
    if str_eq(cwd, root) {
        return String::new();
    }
    let mut pref = String::from_str(root);
    if root.get_char(rl - 1) != '/' {
        pref.push('/');
    }
    let pl = pref.as_str().unicode_len();
    if str_starts_with(cwd, pref.as_str()) {
        let cl = cwd.unicode_len();
        String::from_str(cwd.substring_char(pl, cl))
    } else {
        String::new()
    }
}

/// The head descriptor string.
pub fn head_name(h: &Option<HeadRaw>) -> (r: String)
    ensures
        r@ == head_name_spec(*h),
{
    match h {
        Option::None => String::from_str("UNKNOWN"),
        Option::Some(hr) => {
            let base = match &hr.shorthand {
                Option::None => String::from_str("!"),
                Option::Some(s) => s.clone(),
            };
            if hr.is_tag {
                let mut out = String::from_str("tag:");
                out.append(base.as_str());
                out
            } else {
                base
            }
        },
    }
}

/// The short commit identifier string, 7 characters via the all-zero
/// sentinel when no commit exists.
pub fn short_id(h: &Option<HeadRaw>) -> (r: String)
    ensures
        r@ == short_id_spec(*h),
{
    let target = match h {
        Option::None => &Option::<String>::None,
        Option::Some(hr) => &hr.target,
    };
    match target {
        Option::None => String::from_str("0000000"),
        Option::Some(t) => {
            let n = t.as_str().unicode_len();
            if n <= 7 {
                t.clone()
            } else {
                String::from_str(t.as_str().substring_char(0, 7))
            }
        },
    }
}

/// The compressed status code over all entries.
#[verifier::rlimit(60)]
pub fn status_code(entries: &Vec<StatusFlags>) -> (r: String)
    ensures
        r@ == status_code_spec(entries@),
{
    let n = entries.len();
    let mut untracked = false;
    let mut added = false;
    let mut removed = false;
    let mut renamed = false;
    let mut modified = false;
    let mut conflicted: usize = 0;
    let mut i: usize = 0;
    while i < n
        invariant
            i <= n,
            n == entries@.len(),
            conflicted <= i,
            untracked == has_untracked(entries@.take(i as int)),
            added == has_added(entries@.take(i as int)),
            removed == has_removed(entries@.take(i as int)),
            renamed == has_renamed(entries@.take(i as int)),
            modified == has_modified(entries@.take(i as int)),
            conflicted as nat == conflict_count(entries@.take(i as int)),
        decreases n - i,
    {
        let e = entries[i];
        if e.conflicted {
            conflicted = conflicted + 1;
        }
        untracked = untracked || e.wt_new;
        added = added || e.index_new;
        renamed = renamed || e.index_renamed || e.wt_renamed;
        removed = removed || e.index_deleted || e.wt_deleted;
        modified = modified || e.index_modified || e.wt_modified;
        proof {
            assert(entries@.take(i + 1).drop_last() =~= entries@.take(i as int));
            assert(entries@.take(i + 1).last() == entries@[i as int]);
        }
        i = i + 1;
    }
    proof {
        assert(entries@.take(n as int) =~= entries@);
    }
    let mut code = String::new();
    if untracked {
        code.push('?');
    }
    if added {
        code.push('A');
    }
    if removed {
        code.push('D');
    }
    if renamed {
        code.push('R');
    }
    if modified {
        code.push('M');
    }
    if conflicted > 0 {
        code.append("C[");
        let num = usize_dec(conflicted);
        code.append(num.as_str());
        code.append("]");
    }
    if code.as_str().is_empty() {
        proof {
            assert(code@ =~= status_code_spec(entries@));
        }
        code
    } else {
        let mut out = String::new();
        out.push(',');
        out.append(code.as_str());
        proof {
            assert(out@ =~= status_code_spec(entries@));
        }
        out
    }
}

/// Write the four variables computed from `snap` into the array.
pub fn apply_git_snapshot(
    base: usize,
    home: &Option<String>,
    cwd: &str,
    snap: &GitSnapshot,
    psvars: &mut Vec<String>,
)
    requires
        base + 4 <= old(psvars)@.len(),
    ensures
        final(psvars)@.len() == old(psvars)@.len(),
        forall|i: int|
            0 <= i < final(psvars)@.len() && !(base <= i <= base + 3) ==> final(psvars)@[i]
                == old(psvars)@[i],
        git_slots_written(base as int, opt_str_view(*home), cwd@, *snap, final(psvars)@),
{
    let n = psvars.len();
    psvars.set(base, String::from_str("git"));
    let root_raw = strip_git_meta(snap.repo_path.as_str());
    let root = tilde_path(root_raw.as_str(), home);
    psvars.set(base + 1, root);
    let rest = rest_path(cwd, root_raw.as_str());
    let mut below = String::new();
    below.push('/');
    below.append(rest.as_str());
    psvars.set(base + 3, below);
    let mut info = head_name(&snap.head);
    info.push(':');
    let sid = short_id(&snap.head);
    info.append(sid.as_str());
    match &snap.statuses {
        Option::None => {},
        Option::Some(list) => {
            let c = status_code(list);
            info.append(c.as_str());
        },
    }
    psvars.set(base + 2, info);
}

/// Read one snapshot of the repository found at or above the current
/// directory, if any.
fn read_git_snapshot(home: &Option<String>) -> Option<GitSnapshot> {
    let repo = match open_repo(home) {
        Option::None => {
            return Option::None;
        },
        Option::Some(r) => r,
    };
    let repo_path = repo_path_string(&repo);
    let head = repo_head_raw(&repo);
    let statuses = match repo_status_list(&repo) {
        Option::None => Option::None,
        Option::Some(list) => {
            let mut flags: Vec<StatusFlags> = Vec::new();
            let mut i: usize = 0;
            while i < list.len()
                invariant
                    i <= list@.len(),
                decreases list@.len() - i,
            {
                let f = status_flags_of(&list[i]);
                flags.push(f);
                i = i + 1;
            }
            Option::Some(flags)
        },
    };
    Option::Some(GitSnapshot { repo_path, head, statuses })
}

/// Fill the four version-control variables from the repository at or
/// above the current directory: on failure to locate one, every target
/// slot is left unchanged; on success the slots hold the classification
/// of the snapshot that was read.
pub fn fill_git_vars(base: usize, home: &Option<String>, cwd: &str, psvars: &mut Vec<String>)
    requires
        base + 4 <= old(psvars)@.len(),
    ensures
        final(psvars)@.len() == old(psvars)@.len(),
        forall|i: int|
            0 <= i < final(psvars)@.len() && !(base <= i <= base + 3) ==> final(psvars)@[i]
                == old(psvars)@[i],
        (forall|i: int| base <= i <= base + 3 ==> final(psvars)@[i] == old(psvars)@[i]) || (exists|
            snap: GitSnapshot,
        | git_slots_written(base as int, opt_str_view(*home), cwd@, snap, final(psvars)@)),
{
    match read_git_snapshot(home) {
        Option::None => {},
        Option::Some(snap) => {
            apply_git_snapshot(base, home, cwd, &snap, psvars);
        },
    }
}

/// Without a repository the version-control source contributes
/// nothing: when a fill took the no-repository branch (its target
/// slots unchanged, as `fill_git_vars` ensures) and those slots were
/// pre-initialized empty, they are still empty afterwards.
pub proof fn lemma_no_repository_leaves_slots_empty(
    base: int,
    pre: Seq<String>,
    post: Seq<String>,
)
    requires
        forall|i: int| base <= i <= base + 3 ==> post[i] == pre[i],
        forall|i: int| base <= i <= base + 3 ==> 0 <= i < pre.len() && pre[i]@ == Seq::<
            char,
        >::empty(),
    ensures
        forall|i: int| base <= i <= base + 3 ==> post[i]@ == Seq::<char>::empty(),
{
}

/// Classifying the same repository state twice yields identical slot
/// contents: the four variables are a function of the snapshot, the
/// home directory and the working directory alone.
pub proof fn lemma_classification_idempotent(
    base: int,
    home: Option<Seq<char>>,
    cwd: Seq<char>,
    snap: GitSnapshot,
    v1: Seq<String>,
    v2: Seq<String>,
)
    requires
        git_slots_written(base, home, cwd, snap, v1),
        git_slots_written(base, home, cwd, snap, v2),
    ensures
        v1[base]@ == v2[base]@,
        v1[base + 1]@ == v2[base + 1]@,
        v1[base + 2]@ == v2[base + 2]@,
        v1[base + 3]@ == v2[base + 3]@,
{
}

/// With an untracked and a modified file present, one conflict, and
/// nothing added, removed or renamed, the status code is exactly
/// `,?MC[1]` — the letters in fixed order, however the entries were
/// enumerated.
pub proof fn lemma_status_code_ordering(entries: Seq<StatusFlags>)
    requires
        has_untracked(entries),
        has_modified(entries),
        !has_added(entries),
        !has_removed(entries),
        !has_renamed(entries),
        conflict_count(entries) == 1,
    ensures
        status_code_spec(entries) == ",?MC[1]"@,
{
    reveal_strlit(",?MC[1]");
    reveal_strlit("C[");
    reveal_strlit("]");
    assert(dec_spec(1nat) =~= seq!['1']);
    assert(status_code_spec(entries) =~= ",?MC[1]"@);
}

} // verus!

//! Implementation of data sources.
//!
//! Each data source writes into one or more fixed offsets from its
//! declared base slot.  The outcomes of the external probes — the
//! privilege check, the toolchain query, the marker-file searches and
//! the environment lookups — are threaded in as an explicit read-only
//! [`Context`], so that the slot values are a verified function of
//! those plain outcomes.

use crate::config::DataSource;
use crate::text::find_char;
use crate::text::first_ix;
use crate::text::opt_str_view;
use crate::text::starts_with_spec;
use crate::text::str_starts_with;
use vstd::prelude::*;
use vstd::string::StrSliceExecFns;
use vstd::string::StringExecFns;

verus! {

/// The read-only environment a render call works from: the home and
/// working directories, and the outcome of every external probe.
pub struct Context {
    /// The home directory, when known.
    pub home: Option<String>,
    /// The current working directory.
    pub cwd: String,
    /// The non-interactive privilege check succeeded.
    pub sudo_ok: bool,
    /// A toolchain project marker was found by upward search.
    pub cargo_marker: bool,
    /// The toolchain query's output, when it ran and was readable.
    pub toolchain: Option<String>,
    /// The directory-environment marker variable is present.
    pub direnv_set: bool,
    /// The key-agent environment variable is present.
    pub key_env_set: bool,
    /// The hardware-key status command succeeded.
    pub key_ok: bool,
    /// A flake marker file was found by upward search.
    pub flake_marker: bool,
}

/// The privilege slot: an affirmative tag on success, else empty.
pub open spec fn sudo_value_spec(ok: bool) -> Seq<char> {
    if ok {
        "yes"@
    } else {
        Seq::empty()
    }
}

/// The toolchain glyph computed from the toolchain query's output: the
/// channel is the word before the first space; `stable-`, `beta-` and
/// `nightly-` channels get a fixed glyph, any other channel shows its
/// name up to the first dash.
pub open spec fn rust_label_spec(out: Option<Seq<char>>) -> Seq<char> {
    match out {
        Option::None => Seq::empty(),
        Option::Some(s) => {
            if first_ix(s, ' ') == -1 {
                Seq::empty()
            } else {
                let chain = s.take(first_ix(s, ' '));
                if starts_with_spec(chain, "stable-"@) {
                    "🦀🏠"@
                } else if starts_with_spec(chain, "beta-"@) {
                    "🦀β"@
                } else if starts_with_spec(chain, "nightly-"@) {
                    "🦀🌙"@
                } else if first_ix(chain, '-') == -1 {
                    "🦀"@ + chain
                } else {
                    "🦀"@ + chain.take(first_ix(chain, '-'))
                }
            }
        },
    }
}

/// The toolchain slot: passthrough without a project marker, else the
/// previous contents with the toolchain glyph appended.
pub open spec fn rust_value_spec(prefix: Seq<char>, marker: bool, out: Option<Seq<char>>) -> Seq<
    char,
> {
    if marker {
        prefix + rust_label_spec(out)
    } else {
        prefix
    }
}

/// The directory-environment slot: passthrough, or the previous
/// contents with the fixed glyph appended.
pub open spec fn direnv_value_spec(prefix: Seq<char>, set: bool) -> Seq<char> {
    if set {
        prefix + "📂"@
    } else {
        prefix
    }
}

/// The key-agent slot: a glyph only when the designated environment
/// variable is present and the status command succeeded.
pub open spec fn key_value_spec(env_set: bool, ok: bool) -> Seq<char> {
    if env_set && ok {
        "🔑"@
    } else {
        Seq::empty()
    }
}

/// The project-marker slot: a glyph when the marker file was found.
pub open spec fn flake_value_spec(found: bool) -> Seq<char> {
    if found {
        "❄ "@
    } else {
        Seq::empty()
    }
}

/// The value a slot held before a fill, empty where the array did not
/// yet reach it.
pub open spec fn prior(v: Seq<String>, i: int) -> Seq<char> {
    if 0 <= i < v.len() {
        v[i]@
    } else {
        Seq::empty()
    }
}

/// The privilege slot value.
pub fn calc_sudo(sudo_ok: bool) -> (r: String)
    ensures
        r@ == sudo_value_spec(sudo_ok),
{
    if sudo_ok {
        String::from_str("yes")
    } else {
        String::new()
    }
}

/// The toolchain glyph for the given query output.
fn rust_label(toolchain: &Option<String>) -> (r: String)
    ensures
        r@ == rust_label_spec(opt_str_view(*toolchain)),
{
    match toolchain {
        Option::None => String::new(),
        Option::Some(s) => {
            match find_char(s.as_str(), ' ') {
                Option::None => String::new(),
                Option::Some(ix) => {
                    let chain = s.as_str().substring_char(0, ix);
                    if str_starts_with(chain, "stable-") {
                        String::from_str("🦀🏠")
                    } else if str_starts_with(chain, "beta-") {
                        String::from_str("🦀β")
                    } else if str_starts_with(chain, "nightly-") {
                        String::from_str("🦀🌙")
                    } else {
                        let mut out = String::from_str("🦀");
                        match find_char(chain, '-') {
                            Option::None => {
                                out.append(chain);
                            },
                            Option::Some(d) => {
                                out.append(chain.substring_char(0, d));
                            },
                        }
                        out
                    }
                },
            }
        },
    }
}

/// The toolchain slot value over the previous slot contents.
pub fn calc_rust(prefix: &str, cargo_marker: bool, toolchain: &Option<String>) -> (r: String)
    ensures
        r@ == rust_value_spec(prefix@, cargo_marker, opt_str_view(*toolchain)),
{
    if cargo_marker {
        let mut out = String::from_str(prefix);
        let label = rust_label(toolchain);
        out.append(label.as_str());
        out
    } else {
        String::from_str(prefix)
    }
}

/// The directory-environment slot value over the previous contents.
pub fn calc_direnv(prefix: &str, direnv_set: bool) -> (r: String)
    ensures
        r@ == direnv_value_spec(prefix@, direnv_set),
{
    if direnv_set {
        let mut out = String::from_str(prefix);
        out.append("📂");
        out
    } else {
        String::from_str(prefix)
    }
}

/// The key-agent slot value.
pub fn calc_key(key_env_set: bool, key_ok: bool) -> (r: String)
    ensures
        r@ == key_value_spec(key_env_set, key_ok),
{
    if key_env_set && key_ok {
        String::from_str("🔑")
    } else {
        String::new()
    }
}

/// The project-marker slot value.
pub fn calc_flake(flake_marker: bool) -> (r: String)
    ensures
        r@ == flake_value_spec(flake_marker),
{
    if flake_marker {
        String::from_str("❄ ")
    } else {
        String::new()
    }
}

impl DataSource {
    /// The highest slot index this source requires.
    pub open spec fn max_slot(self) -> int {
        match self {
            DataSource::Git(base) => base + 3,
            DataSource::Sudo(n) => n as int,
            DataSource::Rust(n) => n as int,
            DataSource::Direnv(n) => n as int,
            DataSource::Key(n) => n as int,
            DataSource::Flake(n) => n as int,
        }
    }

    /// The array length this source requires.
    pub open spec fn needed(self) -> int {
        self.max_slot() + 1
    }

    /// Whether this source writes slot `i`.
    pub open spec fn writes(self, i: int) -> bool {
        match self {
            DataSource::Git(base) => base <= i <= base + 3,
            DataSource::Sudo(n) => i == n,
            DataSource::Rust(n) => i == n,
            DataSource::Direnv(n) => i == n,
            DataSource::Key(n) => i == n,
            DataSource::Flake(n) => i == n,
        }
    }

    /// A fill grows the array exactly to what the source needs and
    /// touches no slot outside the source's own targets.
    pub open spec fn fill_frame(self, pre: Seq<String>, post: Seq<String>) -> bool {
        &&& post.len() == if pre.len() >= self.needed() {
            pre.len() as int
        } else {
            self.needed()
        }
        &&& forall|i: int| 0 <= i < post.len() && !self.writes(i) ==> post[i]@ == prior(pre, i)
    }

    /// What a fill writes into its target slots, as a function of the
    /// context and the prior contents.
    pub open spec fn fill_values(
        self,
        ctx: Context,
        home: Option<Seq<char>>,
        cwd: Seq<char>,
        pre: Seq<String>,
        post: Seq<String>,
    ) -> bool {
        match self {
            DataSource::Git(base) => (forall|i: int|
                base <= i <= base + 3 ==> post[i]@ == prior(pre, i)) || (exists|
                snap: crate::vcs::GitSnapshot,
            | crate::vcs::git_slots_written(base as int, home, cwd, snap, post)),
            DataSource::Sudo(n) => post[n as int]@ == sudo_value_spec(ctx.sudo_ok),
            DataSource::Rust(n) => post[n as int]@ == rust_value_spec(
                prior(pre, n as int),
                ctx.cargo_marker,
                opt_str_view(ctx.toolchain),
            ),
            DataSource::Direnv(n) => post[n as int]@ == direnv_value_spec(
                prior(pre, n as int),
                ctx.direnv_set,
            ),
            DataSource::Key(n) => post[n as int]@ == key_value_spec(ctx.key_env_set, ctx.key_ok),
            DataSource::Flake(n) => post[n as int]@ == flake_value_spec(ctx.flake_marker),
        }
    }

    /// Grow the array to this source's needed length, appending empty
    /// strings; existing entries are never shrunk or overwritten.
    pub fn max_needed(&self, psvars: &mut Vec<String>)
        requires
            self.needed() <= usize::MAX,
        ensures
            final(psvars)@.len() == if old(psvars)@.len() >= self.needed() {
                old(psvars)@.len() as int
            } else {
                self.needed()
            },
            forall|i: int|
                0 <= i < old(psvars)@.len() ==> final(psvars)@[i] == old(psvars)@[i],
            forall|i: int|
                old(psvars)@.len() <= i < final(psvars)@.len() ==> final(psvars)@[i]@
                    == Seq::<char>::empty(),
    {
        let needed: usize = (match self {
            DataSource::Git(base) => *base + 3,
            DataSource::Sudo(n) => *n,
            DataSource::Rust(n) => *n,
            DataSource::Direnv(n) => *n,
            DataSource::Key(n) => *n,
            DataSource::Flake(n) => *n,
        }) + 1;
        while psvars.len() < needed
            invariant
                needed == self.needed(),
                old(psvars)@.len() <= psvars@.len(),
                psvars@.len() <= if old(psvars)@.len() >= self.needed() {
                    old(psvars)@.len() as int
                } else {
                    self.needed()
                },
                forall|i: int| 0 <= i < old(psvars)@.len() ==> psvars@[i] == old(psvars)@[i],
                forall|i: int|
                    old(psvars)@.len() <= i < psvars@.len() ==> psvars@[i]@
                        == Seq::<char>::empty(),
            decreases needed - psvars@.len(),
        {
            psvars.push(String::new());
        }
    }

    /// Compute this source's value(s) and write them into the array,
    /// growing it first; no slot outside the source's targets changes.
    pub fn fill_vars(&self, ctx: &Context, psvars: &mut Vec<String>)
        requires
            self.needed() <= usize::MAX,
        ensures
            self.fill_frame(old(psvars)@, final(psvars)@),
            self.fill_values(
                *ctx,
                opt_str_view(ctx.home),
                ctx.cwd@,
                old(psvars)@,
                final(psvars)@,
            ),
    {
        self.max_needed(psvars);
        match self {
            DataSource::Git(base) => {
                crate::vcs::fill_git_vars(*base, &ctx.home, ctx.cwd.as_str(), psvars);
            },
            DataSource::Sudo(var) => {
                let v = calc_sudo(ctx.sudo_ok);
                psvars.set(*var, v);
            },
            DataSource::Rust(var) => {
                let prefix = psvars[*var].clone();
                let v = calc_rust(prefix.as_str(), ctx.cargo_marker, &ctx.toolchain);
                psvars.set(*var, v);
            },
            DataSource::Direnv(var) => {
                let prefix = psvars[*var].clone();
                let v = calc_direnv(prefix.as_str(), ctx.direnv_set);
                psvars.set(*var, v);
            },
            DataSource::Key(var) => {
                let v = calc_key(ctx.key_env_set, ctx.key_ok);
                psvars.set(*var, v);
            },
            DataSource::Flake(var) => {
                let v = calc_flake(ctx.flake_marker);
                psvars.set(*var, v);
            },
        }
    }
}

/// Slot allocation never destroys: after a fill the array reaches the
/// source's maximum required index, and every previously populated
/// slot outside the source's own targets is unchanged.
pub proof fn lemma_fill_preserves(src: DataSource, pre: Seq<String>, post: Seq<String>)
    requires
        src.fill_frame(pre, post),
    ensures
        post.len() >= src.max_slot() + 1,
        forall|i: int| 0 <= i < pre.len() && !src.writes(i) ==> post[i]@ == pre[i]@,
{
}

/// Later sources decorate, never replace: a toolchain fill and a
/// directory-environment fill append their glyphs to whatever an
/// earlier source left in the shared slot.
pub proof fn lemma_composition_appends(prefix: Seq<char>, out: Option<Seq<char>>)
    ensures
        rust_value_spec(prefix, true, out) == prefix + rust_label_spec(out),
        direnv_value_spec(prefix, true) == prefix + "📂"@,
{
}

} // verus!

//! The prompt-element tree, its renderer, and the composition root.
//!
//! A prompt side is an ordered sequence of `PromptElement`s; rendering
//! serializes the tree into an escape-coded prompt string.  Literal text
//! is escaped so that `%` and `)` survive the consuming shell's prompt
//! substitution; wrapped constructs emit matching opening and closing
//! markers; ternaries emit the conditional's textual encoding.

use crate::sources::Context;
use crate::text::dec_spec;
use crate::text::usize_dec;
use vstd::prelude::*;
use vstd::string::StrSliceExecFns;
use vstd::string::StringExecFns;

verus! {

pub struct Config {
    pub left_prompt: Vec<PromptElement>,
    pub right_prompt: Vec<PromptElement>,
    pub sources: Vec<DataSource>,
}

pub enum PromptElement {
    Username,
    Lit(char),
    Literal(String),
    Hostname,
    Path,
    UserOrRoot,
    LastExit,
    Bold(Vec<PromptElement>),
    Underline(Vec<PromptElement>),
    Foreground(Colour, Vec<PromptElement>),
    Background(Colour, Vec<PromptElement>),
    Ternary(TernaryTest, Vec<PromptElement>, Vec<PromptElement>),
    PsVar(u8),
}

pub enum TernaryTest {
    PsVarSet(u8),
    ExitCode(u8),
}

pub enum Colour {
    Black,
    Red,
    Green,
    Yellow,
    Blue,
    Magenta,
    Cyan,
    White,
}

/// Each data source carries the base index of the slot(s) it writes.
pub enum DataSource {
    Git(usize),
    Sudo(usize),
    Rust(usize),
    Direnv(usize),
    Key(usize),
    Flake(usize),
}

/// How one character comes out of the escape transform: the two
/// syntactically significant characters are doubled by prefixing `%`.
pub open spec fn escape_char(c: char) -> Seq<char> {
    if c == '%' || c == ')' {
        seq!['%', c]
    } else {
        seq![c]
    }
}

/// The escape transform over a whole string.
pub open spec fn escape_spec(s: Seq<char>) -> Seq<char>
    decreases s.len(),
{
    if s.len() == 0 {
        Seq::empty()
    } else {
        escape_char(s[0]) + escape_spec(s.drop_first())
    }
}

/// The consuming shell's unescape rule: `%` takes the next character
/// literally; anything else stands for itself.
pub open spec fn unescape_spec(s: Seq<char>) -> Seq<char>
    decreases s.len(),
{
    if s.len() == 0 {
        Seq::empty()
    } else if s[0] == '%' && s.len() >= 2 {
        seq![s[1]] + unescape_spec(s.skip(2))
    } else {
        seq![s[0]] + unescape_spec(s.drop_first())
    }
}

/// Lowercase name of a terminal colour, as used in colour markers.
pub open spec fn colour_name(c: Colour) -> Seq<char> {
    match c {
        Colour::Black => "black"@,
        Colour::Red => "red"@,
        Colour::Green => "green"@,
        Colour::Yellow => "yellow"@,
        Colour::Blue => "blue"@,
        Colour::Magenta => "magenta"@,
        Colour::Cyan => "cyan"@,
        Colour::White => "white"@,
    }
}

/// Short encoding of a ternary test: `{n}V` or `{n}?`.
pub open spec fn test_spec(t: TernaryTest) -> Seq<char> {
    match t {
        TernaryTest::PsVarSet(n) => dec_spec(n as nat) + seq!['V'],
        TernaryTest::ExitCode(n) => dec_spec(n as nat) + seq!['?'],
    }
}

/// The rendering of one prompt element.
pub open spec fn render_spec(e: PromptElement) -> Seq<char>
    decreases e,
{
    match e {
        PromptElement::Username => "%n"@,
        PromptElement::Lit(c) => escape_char(c),
        PromptElement::Literal(s) => escape_spec(s@),
        PromptElement::Hostname => "%m"@,
        PromptElement::Path => "%~"@,
        PromptElement::UserOrRoot => "%#"@,
        PromptElement::LastExit => "%?"@,
        PromptElement::Bold(rest) => "%B"@ + render_seq_spec(rest@) + "%b"@,
        PromptElement::Underline(rest) => "%U"@ + render_seq_spec(rest@) + "%u"@,
        PromptElement::Foreground(c, rest) => "%F{"@ + colour_name(c) + "}"@ + render_seq_spec(
            rest@,
        ) + "%f"@,
        PromptElement::Background(c, rest) => "%K{"@ + colour_name(c) + "}"@ + render_seq_spec(
            rest@,
        ) + "%k"@,
        PromptElement::Ternary(t, truthy, falsey) => "%("@ + test_spec(t) + "."@ + render_seq_spec(
            truthy@,
        ) + "."@ + render_seq_spec(falsey@) + ")"@,
        PromptElement::PsVar(n) => seq!['%'] + dec_spec(n as nat) + seq!['v'],
    }
}

/// The renderings of a sequence of elements, concatenated in order.
pub open spec fn render_seq_spec(s: Seq<PromptElement>) -> Seq<char>
    decreases s,
{
    if s.len() == 0 {
        Seq::empty()
    } else {
        render_spec(s[0]) + render_seq_spec(s.drop_first())
    }
}

/// The escape transform distributes over concatenation.
pub proof fn lemma_escape_append(a: Seq<char>, b: Seq<char>)
    ensures
        escape_spec(a + b) == escape_spec(a) + escape_spec(b),
    decreases a.len(),
{
    if a.len() == 0 {
        assert(a + b =~= b);
        assert(escape_spec(a) + escape_spec(b) =~= escape_spec(b));
    } else {
        assert((a + b).drop_first() =~= a.drop_first() + b);
        lemma_escape_append(a.drop_first(), b);
        assert(escape_spec(a + b) =~= escape_spec(a) + escape_spec(b));
    }
}

proof fn lemma_render_seq_snoc(s: Seq<PromptElement>, i: int)
    requires
        0 <= i < s.len(),
    ensures
        render_seq_spec(s.take(i + 1)) == render_seq_spec(s.take(i)) + render_spec(s[i]),
    decreases i,
{
    if i == 0 {
        assert(s.take(1).drop_first() =~= Seq::<PromptElement>::empty());
        assert(render_seq_spec(Seq::<PromptElement>::empty()) =~= Seq::<char>::empty());
        assert(s.take(1)[0] == s[0]);
        assert(render_seq_spec(s.take(1)) =~= render_spec(s[0]));
        assert(s.take(0) =~= Seq::<PromptElement>::empty());
        assert(render_seq_spec(s.take(0)) + render_spec(s[0]) =~= render_spec(s[0]));
    } else {
        lemma_render_seq_snoc(s.drop_first(), i - 1);
        assert(s.take(i + 1).drop_first() =~= s.drop_first().take(i));
        assert(s.take(i).drop_first() =~= s.drop_first().take(i - 1));
        assert(s.take(i + 1)[0] == s[0]);
        assert(s.drop_first()[i - 1] == s[i]);
        assert(render_seq_spec(s.take(i + 1)) =~= render_seq_spec(s.take(i)) + render_spec(s[i]));
    }
}

proof fn lemma_render_seq_one(a: PromptElement)
    ensures
        render_seq_spec(seq![a]) == render_spec(a),
{
    assert(seq![a].drop_first() =~= Seq::<PromptElement>::empty());
    assert(render_seq_spec(Seq::<PromptElement>::empty()) =~= Seq::<char>::empty());
    assert(render_seq_spec(seq![a]) =~= render_spec(a));
}

proof fn lemma_render_seq_two(a: PromptElement, b: PromptElement)
    ensures
        render_seq_spec(seq![a, b]) == render_spec(a) + render_spec(b),
{
    assert(seq![a, b].drop_first() =~= seq![b]);
    lemma_render_seq_one(b);
    assert(render_seq_spec(seq![a, b]) =~= render_spec(a) + render_spec(b));
}

proof fn lemma_render_seq_three(a: PromptElement, b: PromptElement, c: PromptElement)
    ensures
        render_seq_spec(seq![a, b, c]) == render_spec(a) + render_spec(b) + render_spec(c),
{
    assert(seq![a, b, c].drop_first() =~= seq![b, c]);
    lemma_render_seq_two(b, c);
    assert(render_seq_spec(seq![a, b, c]) =~= render_spec(a) + render_spec(b) + render_spec(c));
}

proof fn lemma_render_seq_four(a: PromptElement, b: PromptElement, c: PromptElement, d: PromptElement)
    ensures
        render_seq_spec(seq![a, b, c, d]) == render_spec(a) + render_spec(b) + render_spec(c)
            + render_spec(d),
{
    assert(seq![a, b, c, d].drop_first() =~= seq![b, c, d]);
    lemma_render_seq_three(b, c, d);
    assert(render_seq_spec(seq![a, b, c, d]) =~= render_spec(a) + render_spec(b) + render_spec(c)
        + render_spec(d));
}

proof fn lemma_render_seq_five(
    a: PromptElement,
    b: PromptElement,
    c: PromptElement,
    d: PromptElement,
    e: PromptElement,
)
    ensures
        render_seq_spec(seq![a, b, c, d, e]) == render_spec(a) + render_spec(b) + render_spec(c)
            + render_spec(d) + render_spec(e),
{
    assert(seq![a, b, c, d, e].drop_first() =~= seq![b, c, d, e]);
    lemma_render_seq_four(b, c, d, e);
    assert(render_seq_spec(seq![a, b, c, d, e]) =~= render_spec(a) + render_spec(b) + render_spec(
        c,
    ) + render_spec(d) + render_spec(e));
}

proof fn lemma_escape_one(s: Seq<char>)
    requires
        s.len() == 1,
    ensures
        escape_spec(s) == escape_char(s[0]),
{
    assert(s.drop_first() =~= Seq::<char>::empty());
    assert(escape_spec(Seq::<char>::empty()) =~= Seq::<char>::empty());
    assert(escape_spec(s) =~= escape_char(s[0]));
}

impl Colour {
    /// The colour's lowercase name.
    pub fn name(&self) -> (r: String)
        ensures
            r@ == colour_name(*self),
    {
        match self {
            Colour::Black => String::from_str("black"),
            Colour::Red => String::from_str("red"),
            Colour::Green => String::from_str("green"),
            Colour::Yellow => String::from_str("yellow"),
            Colour::Blue => String::from_str("blue"),
            Colour::Magenta => String::from_str("magenta"),
            Colour::Cyan => String::from_str("cyan"),
            Colour::White => String::from_str("white"),
        }
    }
}

impl TernaryTest {
    /// The test's short textual encoding.
    pub fn render(&self) -> (r: String)
        ensures
            r@ == test_spec(*self),
    {
        match self {
            TernaryTest::PsVarSet(n) => {
                let mut s = usize_dec(*n as usize);
                s.push('V');
                s
            },
            TernaryTest::ExitCode(n) => {
                let mut s = usize_dec(*n as usize);
                s.push('?');
                s
            },
        }
    }
}

impl PromptElement {
    /// The escape transform: double every `%` and `)` by prefixing `%`.
    pub fn escape(s: &str) -> (r: String)
        ensures
            r@ == escape_spec(s@),
    {
        let n = s.unicode_len();
        let mut out = String::new();
        let mut i: usize = 0;
        while i < n
            invariant
                n == s@.len(),
                i <= n,
                out@ == escape_spec(s@.take(i as int)),
            decreases n - i,
        {
            let c = s.get_char(i);
            if c == '%' || c == ')' {
                out.push('%');
            }
            out.push(c);
            proof {
                assert(s@.take(i + 1) =~= s@.take(i as int) + seq![s@[i as int]]);
                lemma_escape_append(s@.take(i as int), seq![s@[i as int]]);
                assert(seq![c].drop_first() =~= Seq::<char>::empty());
                assert(escape_spec(Seq::<char>::empty()) =~= Seq::<char>::empty());
                assert(escape_spec(seq![c]) =~= escape_char(c));
                assert(out@ =~= escape_spec(s@.take(i + 1)));
            }
            i = i + 1;
        }
        proof {
            assert(s@.take(n as int) =~= s@);
        }
        out
    }

    /// An opening marker, then every child in order, then a closing marker.
    pub fn wrapped(first: &str, second: &str, rest: &Vec<PromptElement>) -> (r: String)
        ensures
            r@ == first@ + render_seq_spec(rest@) + second@,
        decreases rest@, 1int,
    {
        let mut out = String::from_str(first);
        let mid = Self::render_elems(rest);
        out.append(mid.as_str());
        out.append(second);
        out
    }

    /// The renderings of `elems`, concatenated in order.
    pub fn render_elems(elems: &Vec<PromptElement>) -> (r: String)
        ensures
            r@ == render_seq_spec(elems@),
        decreases elems@, 0int,
    {
        let mut out = String::new();
        let mut i: usize = 0;
        while i < elems.len()
            invariant
                i <= elems@.len(),
                out@ == render_seq_spec(elems@.take(i as int)),
            decreases elems@.len() - i,
        {
            proof {
                assert(decreases_to!(elems@, 0int => elems@[i as int], 2int));
            }
            let piece = elems[i].render();
            out.append(piece.as_str());
            proof {
                lemma_render_seq_snoc(elems@, i as int);
            }
            i = i + 1;
        }
        proof {
            assert(elems@.take(elems@.len() as int) =~= elems@);
        }
        out
    }

    /// Serialize this element into its prompt-escape string.
    pub fn render(&self) -> (r: String)
        ensures
            r@ == render_spec(*self),
        decreases *self, 2int,
    {
        match self {
            PromptElement::Username => String::from_str("%n"),
            PromptElement::Lit(c) => {
                let mut out = String::new();
                if *c == '%' || *c == ')' {
                    out.push('%');
                }
                out.push(*c);
                proof {
                    assert(out@ =~= escape_char(*c));
                }
                out
            },
            PromptElement::Literal(s) => Self::escape(s.as_str()),
            PromptElement::Hostname => String::from_str("%m"),
            PromptElement::Path => String::from_str("%~"),
            PromptElement::UserOrRoot => String::from_str("%#"),
            PromptElement::LastExit => String::from_str("%?"),
            PromptElement::Bold(rest) => {
                let r = Self::wrapped("%B", "%b", rest);
                r
            },
            PromptElement::Underline(rest) => Self::wrapped("%U", "%u", rest),
            PromptElement::Foreground(c, rest) => {
                let mut first = String::from_str("%F{");
                let name = c.name();
                first.append(name.as_str());
                first.append("}");
                let r = Self::wrapped(first.as_str(), "%f", rest);
                proof {
                    assert(r@ =~= render_spec(*self));
                }
                r
            },
            PromptElement::Background(c, rest) => {
                let mut first = String::from_str("%K{");
                let name = c.name();
                first.append(name.as_str());
                first.append("}");
                let r = Self::wrapped(first.as_str(), "%k", rest);
                proof {
                    assert(r@ =~= render_spec(*self));
                }
                r
            },
            PromptElement::Ternary(test, truthy, falsey) => {
                let mut out = String::from_str("%(");
                let t = test.render();
                out.append(t.as_str());
                out.append(".");
                let a = Self::render_elems(truthy);
                out.append(a.as_str());
                out.append(".");
                let b = Self::render_elems(falsey);
                out.append(b.as_str());
                out.append(")");
                proof {
                    assert(out@ =~= render_spec(*self));
                }
                out
            },
            PromptElement::PsVar(n) => {
                let mut out = String::new();
                out.push('%');
                let d = usize_dec(*n as usize);
                out.append(d.as_str());
                out.push('v');
                proof {
                    assert(out@ =~= render_spec(*self));
                }
                out
            },
        }
    }
}

/// The array length a whole source list requires: the largest of the
/// sources' needs, zero with no sources.
pub open spec fn total_needed(srcs: Seq<DataSource>) -> int
    decreases srcs.len(),
{
    if srcs.len() == 0 {
        0
    } else {
        let rest = total_needed(srcs.drop_last());
        let last = srcs.last().needed();
        if last > rest {
            last
        } else {
            rest
        }
    }
}

/// `post` is the left fold of the sources' fills over `pre`, in
/// declaration order, each fill fully completing before the next.
pub open spec fn filled_from(
    srcs: Seq<DataSource>,
    ctx: Context,
    pre: Seq<String>,
    post: Seq<String>,
) -> bool
    decreases srcs.len(),
{
    if srcs.len() == 0 {
        post == pre
    } else {
        exists|mid: Seq<String>|
            {
                &&& filled_from(srcs.drop_last(), ctx, pre, mid)
                &&& #[trigger] srcs.last().fill_frame(mid, post)
                &&& srcs.last().fill_values(
                    ctx,
                    crate::text::opt_str_view(ctx.home),
                    ctx.cwd@,
                    mid,
                    post,
                )
            }
    }
}

/// No source in the list writes slot `i`.
pub open spec fn untargeted(srcs: Seq<DataSource>, i: int) -> bool {
    forall|k: int| 0 <= k < srcs.len() ==> !(#[trigger] srcs[k]).writes(i)
}

impl Config {
    /// Compute every declared data source in order into a fresh
    /// variable array: the result is the fold of the sources' fills in
    /// declaration order, the array grows exactly to the largest index
    /// any source requires, and every slot no source targets — the
    /// reserved index 0 among them — stays empty.
    pub fn render(&self, ctx: &Context) -> (r: Vec<String>)
        requires
            forall|k: int|
                0 <= k < self.sources@.len() ==> (#[trigger] self.sources@[k]).needed()
                    <= usize::MAX,
        ensures
            r@.len() == total_needed(self.sources@),
            filled_from(self.sources@, *ctx, Seq::empty(), r@),
            forall|i: int|
                0 <= i < r@.len() && untargeted(self.sources@, i) ==> r@[i]@
                    == Seq::<char>::empty(),
    {
        let mut psvars: Vec<String> = Vec::new();
        let mut k: usize = 0;
        while k < self.sources.len()
            invariant
                k <= self.sources@.len(),
                forall|j: int|
                    0 <= j < self.sources@.len() ==> (#[trigger] self.sources@[j]).needed()
                        <= usize::MAX,
                psvars@.len() == total_needed(self.sources@.take(k as int)),
                filled_from(self.sources@.take(k as int), *ctx, Seq::empty(), psvars@),
                forall|i: int|
                    0 <= i < psvars@.len() && untargeted(self.sources@.take(k as int), i)
                        ==> psvars@[i]@ == Seq::<char>::empty(),
            decreases self.sources@.len() - k,
        {
            proof {
                assert(self.sources@.take(k + 1).drop_last() =~= self.sources@.take(k as int));
                assert(self.sources@.take(k + 1).last() == self.sources@[k as int]);
            }
            let ghost mid: Seq<String> = psvars@;
            self.sources[k].fill_vars(ctx, &mut psvars);
            proof {
                assert(filled_from(self.sources@.take(k + 1).drop_last(), *ctx, Seq::empty(), mid));
                assert(self.sources@.take(k + 1).last().fill_frame(mid, psvars@));
                assert(filled_from(self.sources@.take(k + 1), *ctx, Seq::empty(), psvars@));
                assert forall|i: int|
                    0 <= i < psvars@.len() && untargeted(self.sources@.take(k + 1), i)
                        implies psvars@[i]@ == Seq::<char>::empty() by {
                    assert(forall|j: int|
                        0 <= j < k ==> self.sources@.take(k + 1)[j] == self.sources@.take(
                            k as int,
                        )[j]);
                    assert(untargeted(self.sources@.take(k as int), i));
                    assert(!self.sources@[k as int].writes(i));
                    assert(psvars@[i]@ == crate::sources::prior(mid, i));
                }
            }
            k = k + 1;
        }
        proof {
            assert(self.sources@.take(self.sources@.len() as int) =~= self.sources@);
        }
        psvars
    }

    /// The left prompt side: every top-level element rendered in order.
    pub fn left_prompt(&self) -> (r: String)
        ensures
            r@ == render_seq_spec(self.left_prompt@),
    {
        PromptElement::render_elems(&self.left_prompt)
    }

    /// The right prompt side: every top-level element rendered in order.
    pub fn right_prompt(&self) -> (r: String)
        ensures
            r@ == render_seq_spec(self.right_prompt@),
    {
        PromptElement::render_elems(&self.right_prompt)
    }
}

impl Default for Config {
    /// The stock prompt layout: hostname (red when privilege is
    /// available), the version-control and label variables on the left;
    /// the repository path, head info and flake marker on the right.
    /// The two trees are pinned by their rendered forms.
    #[verifier::rlimit(100)]
    fn default() -> (r: Self)
        ensures
            r.sources@ == seq![
                DataSource::Git(1),
                DataSource::Sudo(5),
                DataSource::Rust(6),
                DataSource::Key(7),
                DataSource::Flake(8),
            ],
            r.left_prompt@.len() == 5,
            r.right_prompt@.len() == 1,
            render_seq_spec(r.left_prompt@) == "%(5V.%F{red}%m%f.%m)%(1V.%F{blue}(%1v%)%f.)%(6V.(%6v%).)%# "@,
            render_seq_spec(r.right_prompt@) == "%(1V.%2v%F{yellow}[%(8V.%8v .)%3v]%f%4v.%~)"@,
    {
        proof {
            reveal_strlit("(");
            reveal_strlit(")");
            reveal_strlit(" ");
            reveal_strlit("%m");
            reveal_strlit("%~");
            reveal_strlit("%F{");
            reveal_strlit("}");
            reveal_strlit("%f");
            reveal_strlit("%(");
            reveal_strlit(".");
            reveal_strlit("red");
            reveal_strlit("blue");
            reveal_strlit("yellow");
            reveal_strlit("%(5V.%F{red}%m%f.%m)");
            reveal_strlit("%(1V.%F{blue}(%1v%)%f.)");
            reveal_strlit("%(6V.(%6v%).)");
            reveal_strlit("%#");
            reveal_strlit("%(8V.%8v .)");
            reveal_strlit("%F{yellow}[%(8V.%8v .)%3v]%f");
            reveal_strlit("%(1V.%2v%F{yellow}[%(8V.%8v .)%3v]%f%4v.%~)");
            reveal_strlit("%(5V.%F{red}%m%f.%m)%(1V.%F{blue}(%1v%)%f.)%(6V.(%6v%).)%# ");
        }
        let e1_red_children = vec![PromptElement::Hostname];
        proof {
            lemma_render_seq_one(PromptElement::Hostname);
            assert(e1_red_children@ =~= seq![PromptElement::Hostname]);
            assert(render_seq_spec(e1_red_children@) == "%m"@);
        }
        let e1_true = vec![PromptElement::Foreground(Colour::Red, e1_red_children)];
        let e1_false = vec![PromptElement::Hostname];
        proof {
            assert(e1_true@ =~= seq![e1_true@[0]]);
            lemma_render_seq_one(e1_true@[0]);
            assert(render_seq_spec(e1_true@) =~= "%F{"@ + "red"@ + "}"@ + "%m"@ + "%f"@);
            assert(e1_false@ =~= seq![PromptElement::Hostname]);
            assert(render_seq_spec(e1_false@) == "%m"@);
        }
        let e1 = PromptElement::Ternary(TernaryTest::PsVarSet(5), e1_true, e1_false);
        proof {
            assert(render_spec(e1) =~= "%(5V.%F{red}%m%f.%m)"@);
        }
        let e2_lit = vec![
            PromptElement::Literal(String::from_str("(")),
            PromptElement::PsVar(1),
            PromptElement::Literal(String::from_str(")")),
        ];
        proof {
            assert(e2_lit@ =~= seq![e2_lit@[0], e2_lit@[1], e2_lit@[2]]);
            lemma_render_seq_three(e2_lit@[0], e2_lit@[1], e2_lit@[2]);
            lemma_escape_one("("@);
            lemma_escape_one(")"@);
            assert(render_spec(e2_lit@[0]) =~= seq!['(']);
            assert(render_spec(e2_lit@[1]) =~= seq!['%', '1', 'v']);
            assert(render_spec(e2_lit@[2]) =~= seq!['%', ')']);
            assert(render_seq_spec(e2_lit@) =~= seq!['(', '%', '1', 'v', '%', ')']);
        }
        let e2_true = vec![PromptElement::Foreground(Colour::Blue, e2_lit)];
        let e2_false: Vec<PromptElement> = vec![];
        proof {
            assert(e2_true@ =~= seq![e2_true@[0]]);
            lemma_render_seq_one(e2_true@[0]);
            assert(render_seq_spec(e2_true@) =~= "%F{"@ + "blue"@ + "}"@ + seq![
                '(',
                '%',
                '1',
                'v',
                '%',
                ')',
            ] + "%f"@);
            assert(e2_false@ =~= Seq::<PromptElement>::empty());
            assert(render_seq_spec(e2_false@) =~= Seq::<char>::empty());
        }
        let e2 = PromptElement::Ternary(TernaryTest::PsVarSet(1), e2_true, e2_false);
        proof {
            assert(render_spec(e2) =~= "%(1V.%F{blue}(%1v%)%f.)"@);
        }
        let e3_children = vec![
            PromptElement::Literal(String::from_str("(")),
            PromptElement::PsVar(6),
            PromptElement::Literal(String::from_str(")")),
        ];
        let e3_false: Vec<PromptElement> = vec![];
        proof {
            assert(e3_children@ =~= seq![e3_children@[0], e3_children@[1], e3_children@[2]]);
            lemma_render_seq_three(e3_children@[0], e3_children@[1], e3_children@[2]);
            lemma_escape_one("("@);
            lemma_escape_one(")"@);
            assert(render_spec(e3_children@[0]) =~= seq!['(']);
            assert(render_spec(e3_children@[1]) =~= seq!['%', '6', 'v']);
            assert(render_spec(e3_children@[2]) =~= seq!['%', ')']);
            assert(render_seq_spec(e3_children@) =~= seq!['(', '%', '6', 'v', '%', ')']);
            assert(e3_false@ =~= Seq::<PromptElement>::empty());
            assert(render_seq_spec(e3_false@) =~= Seq::<char>::empty());
        }
        let e3 = PromptElement::Ternary(TernaryTest::PsVarSet(6), e3_children, e3_false);
        proof {
            assert(render_spec(e3) =~= "%(6V.(%6v%).)"@);
        }
        let e5 = PromptElement::Literal(String::from_str(" "));
        proof {
            lemma_escape_one(" "@);
            assert(render_spec(e5) =~= " "@);
        }
        let left_prompt = vec![e1, e2, e3, PromptElement::UserOrRoot, e5];
        proof {
            assert(left_prompt@ =~= seq![
                left_prompt@[0],
                left_prompt@[1],
                left_prompt@[2],
                left_prompt@[3],
                left_prompt@[4],
            ]);
            lemma_render_seq_five(
                left_prompt@[0],
                left_prompt@[1],
                left_prompt@[2],
                left_prompt@[3],
                left_prompt@[4],
            );
            assert(render_seq_spec(left_prompt@)
                =~= "%(5V.%F{red}%m%f.%m)%(1V.%F{blue}(%1v%)%f.)%(6V.(%6v%).)%# "@);
        }
        let t8_true = vec![PromptElement::PsVar(8), PromptElement::Lit(' ')];
        let t8_false: Vec<PromptElement> = vec![];
        proof {
            assert(t8_true@ =~= seq![t8_true@[0], t8_true@[1]]);
            lemma_render_seq_two(t8_true@[0], t8_true@[1]);
            assert(render_spec(t8_true@[0]) =~= seq!['%', '8', 'v']);
            assert(render_spec(t8_true@[1]) =~= seq![' ']);
            assert(render_seq_spec(t8_true@) =~= seq!['%', '8', 'v', ' ']);
            assert(t8_false@ =~= Seq::<PromptElement>::empty());
            assert(render_seq_spec(t8_false@) =~= Seq::<char>::empty());
        }
        let t8 = PromptElement::Ternary(TernaryTest::PsVarSet(8), t8_true, t8_false);
        proof {
            assert(render_spec(t8) =~= "%(8V.%8v .)"@);
        }
        let fgy_children = vec![
            PromptElement::Lit('['),
            t8,
            PromptElement::PsVar(3),
            PromptElement::Lit(']'),
        ];
        proof {
            assert(fgy_children@ =~= seq![
                fgy_children@[0],
                fgy_children@[1],
                fgy_children@[2],
                fgy_children@[3],
            ]);
            lemma_render_seq_four(
                fgy_children@[0],
                fgy_children@[1],
                fgy_children@[2],
                fgy_children@[3],
            );
            assert(render_spec(fgy_children@[0]) =~= seq!['[']);
            assert(render_spec(fgy_children@[2]) =~= seq!['%', '3', 'v']);
            assert(render_spec(fgy_children@[3]) =~= seq![']']);
        }
        let fgy = PromptElement::Foreground(Colour::Yellow, fgy_children);
        proof {
            assert(render_spec(fgy) =~= "%F{yellow}[%(8V.%8v .)%3v]%f"@);
        }
        let r_true = vec![PromptElement::PsVar(2), fgy, PromptElement::PsVar(4)];
        let r_false = vec![PromptElement::Path];
        proof {
            assert(r_true@ =~= seq![r_true@[0], r_true@[1], r_true@[2]]);
            lemma_render_seq_three(r_true@[0], r_true@[1], r_true@[2]);
            assert(render_spec(r_true@[0]) =~= seq!['%', '2', 'v']);
            assert(render_spec(r_true@[2]) =~= seq!['%', '4', 'v']);
            assert(r_false@ =~= seq![PromptElement::Path]);
            lemma_render_seq_one(PromptElement::Path);
            assert(render_seq_spec(r_false@) == "%~"@);
        }
        let r1 = PromptElement::Ternary(TernaryTest::PsVarSet(1), r_true, r_false);
        proof {
            assert(render_spec(r1) =~= "%(1V.%2v%F{yellow}[%(8V.%8v .)%3v]%f%4v.%~)"@);
        }
        let right_prompt = vec![r1];
        proof {
            assert(right_prompt@ =~= seq![right_prompt@[0]]);
            lemma_render_seq_one(right_prompt@[0]);
            assert(render_seq_spec(right_prompt@)
                == "%(1V.%2v%F{yellow}[%(8V.%8v .)%3v]%f%4v.%~)"@);
        }
        let sources = vec![
            DataSource::Git(1),
            DataSource::Sudo(5),
            DataSource::Rust(6),
            DataSource::Key(7),
            DataSource::Flake(8),
        ];
        Config { left_prompt, right_prompt, sources }
    }
}

/// Escaping decodes back: the consuming shell's unescape rule recovers
/// exactly the literal string that was escaped.
pub proof fn lemma_escape_round_trip(s: Seq<char>)
    ensures
        unescape_spec(escape_spec(s)) == s,
    decreases s.len(),
{
    if s.len() == 0 {
        assert(unescape_spec(escape_spec(s)) =~= s);
    } else {
        let c = s[0];
        lemma_escape_round_trip(s.drop_first());
        let e = escape_spec(s);
        assert(e == escape_char(c) + escape_spec(s.drop_first()));
        if c == '%' || c == ')' {
            assert(e[0] == '%' && e.len() >= 2);
            assert(e[1] == c);
            assert(e.skip(2) =~= escape_spec(s.drop_first()));
            assert(unescape_spec(e) =~= s);
        } else {
            assert(e[0] == c && c != '%');
            assert(e.drop_first() =~= escape_spec(s.drop_first()));
            assert(unescape_spec(e) =~= s);
        }
    }
}

/// Escaping is injective: two literals with the same escaped form are equal.
pub proof fn lemma_escape_injective(a: Seq<char>, b: Seq<char>)
    requires
        escape_spec(a) == escape_spec(b),
    ensures
        a == b,
{
    lemma_escape_round_trip(a);
    lemma_escape_round_trip(b);
}

/// Wrapped constructs surround their children's renderings with the
/// matching opening and closing markers.
pub proof fn lemma_render_wrapping(children: Vec<PromptElement>, colour: Colour)
    ensures
        render_spec(PromptElement::Bold(children)) == "%B"@ + render_seq_spec(children@) + "%b"@,
        render_spec(PromptElement::Underline(children)) == "%U"@ + render_seq_spec(children@)
            + "%u"@,
        render_spec(PromptElement::Foreground(colour, children)) == "%F{"@ + colour_name(colour)
            + "}"@ + render_seq_spec(children@) + "%f"@,
        render_spec(PromptElement::Background(colour, children)) == "%K{"@ + colour_name(colour)
            + "}"@ + render_seq_spec(children@) + "%k"@,
{
}

/// A ternary on a variable-is-set test renders as
/// `%(` + n + `V.` + truthy + `.` + falsey + `)`.
pub proof fn lemma_ternary_round_trip(n: u8, a: Vec<PromptElement>, b: Vec<PromptElement>)
    ensures
        render_spec(PromptElement::Ternary(TernaryTest::PsVarSet(n), a, b)) == "%("@ + dec_spec(
            n as nat,
        ) + "V."@ + render_seq_spec(a@) + "."@ + render_seq_spec(b@) + ")"@,
{
    reveal_strlit("V.");
    reveal_strlit("V");
    reveal_strlit(".");
    assert(render_spec(PromptElement::Ternary(TernaryTest::PsVarSet(n), a, b)) =~= "%("@
        + dec_spec(n as nat) + "V."@ + render_seq_spec(a@) + "."@ + render_seq_spec(b@) + ")"@);
}

} // verus!

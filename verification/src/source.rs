//! An output buffer with indentation tracking.
//!
//! `Source` accumulates generated text. Input handed to [`Source::push_str`]
//! is split into lines (delimited by `'\n'`); each line is re-indented
//! according to the brace structure seen so far: a line ending in `{` raises
//! the indentation of following lines by one step (two spaces), a line
//! starting with `}` lowers it, and text after a `//` line comment is left
//! alone until the end of the line. The whole behaviour is specified by
//! [`source_push`].

use vstd::prelude::*;

verus! {

/// The abstract state of a [`Source`] buffer.
#[verifier::ext_equal]
pub ghost struct SourceModel {
    /// The accumulated text.
    pub s: Seq<char>,
    /// The current indentation level, in steps of two spaces.
    pub indent: nat,
    /// Whether the current line sits inside a `//` comment.
    pub in_line_comment: bool,
    /// Whether the current output line has already been started.
    pub continuing_line: bool,
}

/// Indentation never grows past this bound; one more `{` leaves it unchanged.
pub const MAX_INDENT: usize = 0xffff_ffff;

/// Whitespace, for line trimming.
pub open spec fn is_ws(c: char) -> bool {
    c == ' ' || c == '\t' || c == '\r' || c == '\n' || c == '\u{b}' || c == '\u{c}'
}

/// The number of leading whitespace characters of `s`.
pub open spec fn first_non_ws(s: Seq<char>) -> int
    decreases s.len(),
{
    if s.len() == 0 {
        0
    } else if is_ws(s[0]) {
        1 + first_non_ws(s.drop_first())
    } else {
        0
    }
}

/// The length of `s` with trailing whitespace removed.
pub open spec fn trimmed_end(s: Seq<char>) -> int
    decreases s.len(),
{
    if s.len() == 0 {
        0
    } else if is_ws(s.last()) {
        trimmed_end(s.drop_last())
    } else {
        s.len() as int
    }
}

/// `s` without leading whitespace.
pub open spec fn trim_start(s: Seq<char>) -> Seq<char> {
    s.skip(first_non_ws(s))
}

/// `s` without leading and trailing whitespace.
pub open spec fn trim(s: Seq<char>) -> Seq<char> {
    s.take(trimmed_end(s)).skip(first_non_ws(s.take(trimmed_end(s))))
}

/// The position of the first `'\n'` in `s`, or `s.len()` if there is none.
pub open spec fn first_nl(s: Seq<char>) -> int
    decreases s.len(),
{
    if s.len() == 0 {
        0
    } else if s[0] == '\n' {
        0
    } else {
        1 + first_nl(s.drop_first())
    }
}

/// The lines of `s`, split at `'\n'`; a final line ending is optional and
/// produces no extra empty line.
pub open spec fn lines_of(s: Seq<char>) -> Seq<Seq<char>>
    decreases s.len(),
    via lines_of_dec
{
    if s.len() == 0 {
        Seq::empty()
    } else {
        let i = first_nl(s);
        if i == s.len() {
            seq![s]
        } else {
            seq![s.take(i)] + lines_of(s.skip(i + 1))
        }
    }
}

/// The first newline position lies within the sequence.
pub proof fn lemma_first_nl_bounds(s: Seq<char>)
    ensures
        0 <= first_nl(s) <= s.len(),
        first_nl(s) < s.len() ==> s[first_nl(s)] == '\n',
    decreases s.len(),
{
    if s.len() > 0 && s[0] != '\n' {
        lemma_first_nl_bounds(s.drop_first());
    }
}

#[via_fn]
proof fn lines_of_dec(s: Seq<char>) {
    lemma_first_nl_bounds(s);
}

/// `n` indentation steps of two spaces each.
pub open spec fn indent_ws(n: nat) -> Seq<char>
    decreases n,
{
    if n == 0 {
        Seq::empty()
    } else {
        indent_ws((n - 1) as nat) + seq![' ', ' ']
    }
}

/// One level deeper, saturating at [`MAX_INDENT`].
pub open spec fn bump(n: nat) -> nat {
    if n < MAX_INDENT as nat {
        n + 1
    } else {
        n
    }
}

/// The effect of appending one line of input on a [`SourceModel`].
///
/// `single` says the whole input was a single line (such a line keeps its
/// leading whitespace); `is_last` says no line follows; `ends_nl` says the
/// input ended with a newline.
pub open spec fn line_step(
    m: SourceModel,
    line: Seq<char>,
    single: bool,
    is_last: bool,
    ends_nl: bool,
) -> SourceModel {
    let m5 = line_step_m5(m, line, single);
    if !is_last || ends_nl {
        SourceModel {
            s: m5.s.push('\n'),
            in_line_comment: false,
            continuing_line: false,
            ..m5
        }
    } else {
        m5
    }
}

/// Fold [`line_step`] over a sequence of lines.
pub open spec fn push_lines(
    m: SourceModel,
    lines: Seq<Seq<char>>,
    single: bool,
    ends_nl: bool,
) -> SourceModel
    decreases lines.len(),
{
    if lines.len() == 0 {
        m
    } else {
        push_lines(
            line_step(m, lines[0], single, lines.len() == 1, ends_nl),
            lines.drop_first(),
            single,
            ends_nl,
        )
    }
}

/// The state of a buffer in state `m` after pushing the text `src`.
pub open spec fn source_push(m: SourceModel, src: Seq<char>) -> SourceModel {
    push_lines(
        m,
        lines_of(src),
        lines_of(src).len() == 1,
        src.len() > 0 && src.last() == '\n',
    )
}

/// An output buffer that tracks indentation; see the module documentation.
pub struct Source {
    s: Vec<char>,
    indent: usize,
    in_line_comment: bool,
    continuing_line: bool,
}

impl View for Source {
    type V = SourceModel;

    closed spec fn view(&self) -> SourceModel {
        SourceModel {
            s: self.s@,
            indent: self.indent as nat,
            in_line_comment: self.in_line_comment,
            continuing_line: self.continuing_line,
        }
    }
}

proof fn lemma_first_non_ws_at(s: Seq<char>, a: int)
    requires
        0 <= a <= s.len(),
        forall|k: int| 0 <= k < a ==> is_ws(s[k]),
        a < s.len() ==> !is_ws(s[a]),
    ensures
        first_non_ws(s) == a,
    decreases s.len(),
{
    if s.len() == 0 {
    } else if is_ws(s[0]) {
        assert(a >= 1) by {
            if a == 0 {
                assert(a < s.len());
            }
        }
        lemma_first_non_ws_at(s.drop_first(), a - 1);
    } else {
        assert(a == 0) by {
            if a > 0 {
                assert(is_ws(s[0]));
            }
        }
    }
}

proof fn lemma_trimmed_end_at(s: Seq<char>, b: int)
    requires
        0 <= b <= s.len(),
        forall|k: int| b <= k < s.len() ==> is_ws(s[k]),
        b > 0 ==> !is_ws(s[b - 1]),
    ensures
        trimmed_end(s) == b,
    decreases s.len(),
{
    if s.len() == 0 {
    } else if is_ws(s.last()) {
        assert(b < s.len()) by {
            if b == s.len() {
                assert(!is_ws(s[b - 1]));
            }
        }
        lemma_trimmed_end_at(s.drop_last(), b);
    } else {
        assert(b == s.len()) by {
            if b < s.len() {
                assert(is_ws(s.last()));
            }
        }
    }
}

proof fn lemma_first_nl_at(s: Seq<char>, j: int)
    requires
        0 <= j <= s.len(),
        forall|k: int| 0 <= k < j ==> s[k] != '\n',
        j < s.len() ==> s[j] == '\n',
    ensures
        first_nl(s) == j,
    decreases s.len(),
{
    if s.len() == 0 {
    } else if s[0] == '\n' {
        assert(j == 0) by {
            if j > 0 {
                assert(s[0] != '\n');
            }
        }
    } else {
        assert(j >= 1) by {
            if j == 0 {
                assert(j < s.len());
            }
        }
        lemma_first_nl_at(s.drop_first(), j - 1);
    }
}

/// The first `'\n'` at or after `from`, or `v.len()` if there is none.
fn find_nl(v: &Vec<char>, from: usize) -> (j: usize)
    requires
        from <= v.len(),
    ensures
        from <= j <= v.len(),
        first_nl(v@.skip(from as int)) == j - from,
        j < v.len() ==> v@[j as int] == '\n',
        forall|k: int| from <= k < j ==> v@[k] != '\n',
{
    let mut j: usize = from;
    while j < v.len()
        invariant
            from <= j <= v.len(),
            forall|k: int| from <= k < j ==> v@[k] != '\n',
        decreases v.len() - j,
    {
        if v[j] == '\n' {
            proof {
                lemma_first_nl_at(v@.skip(from as int), j - from);
            }
            return j;
        }
        j += 1;
    }
    proof {
        lemma_first_nl_at(v@.skip(from as int), j - from);
    }
    j
}

/// The copy of `v[a..b]`.
fn subvec(v: &Vec<char>, a: usize, b: usize) -> (r: Vec<char>)
    requires
        a <= b <= v.len(),
    ensures
        r@ == v@.subrange(a as int, b as int),
{
    let mut r: Vec<char> = Vec::new();
    let mut i: usize = a;
    while i < b
        invariant
            a <= i <= b <= v.len(),
            r@ == v@.subrange(a as int, i as int),
        decreases b - i,
    {
        r.push(v[i]);
        proof {
            assert(r@ =~= v@.subrange(a as int, i + 1 as int));
        }
        i += 1;
    }
    r
}

impl Source {
    /// An empty buffer at indentation zero.
    pub fn new() -> (r: Source)
        ensures
            r@ == (SourceModel {
                s: Seq::<char>::empty(),
                indent: 0,
                in_line_comment: false,
                continuing_line: false,
            }),
    {
        Source { s: Vec::new(), indent: 0, in_line_comment: false, continuing_line: false }
    }

    /// The number of characters accumulated so far.
    pub fn len(&self) -> (r: usize)
        ensures
            r == self@.s.len(),
    {
        self.s.len()
    }

    /// The accumulated text.
    pub fn as_str(&self) -> (r: String)
        ensures
            r@ == self@.s,
    {
        crate::text::chars_string(&self.s)
    }

    /// The accumulated text, as characters.
    pub fn chars(&self) -> (r: &Vec<char>)
        ensures
            r@ == self@.s,
    {
        &self.s
    }

    /// Raise the indentation by `amt` steps, saturating at [`MAX_INDENT`].
    pub fn indent(&mut self, amt: usize)
        ensures
            final(self)@ == (SourceModel {
                indent: if old(self)@.indent + amt <= MAX_INDENT as nat {
                    (old(self)@.indent + amt) as nat
                } else {
                    MAX_INDENT as nat
                },
                ..old(self)@
            }),
    {
        if amt <= MAX_INDENT && self.indent <= MAX_INDENT - amt {
            self.indent = self.indent + amt;
        } else {
            self.indent = MAX_INDENT;
        }
    }

    /// Lower the indentation by `amt` steps.
    pub fn deindent(&mut self, amt: usize)
        requires
            amt <= old(self)@.indent,
        ensures
            final(self)@ == (SourceModel {
                indent: (old(self)@.indent - amt) as nat,
                ..old(self)@
            }),
    {
        self.indent = self.indent - amt;
    }

    /// Set the indentation level, and return the old level.
    pub fn set_indent(&mut self, amt: usize) -> (r: usize)
        ensures
            final(self)@ == (SourceModel { indent: amt as nat, ..old(self)@ }),
            r == old(self)@.indent,
    {
        let old_amt = self.indent;
        self.indent = amt;
        old_amt
    }

    /// Append the raw text of `src` and fold its indentation and comment
    /// state into this buffer.
    pub fn append_src(&mut self, src: &Source)
        ensures
            final(self)@ == (SourceModel {
                s: old(self)@.s + src@.s,
                indent: if old(self)@.indent + src@.indent <= MAX_INDENT as nat {
                    (old(self)@.indent + src@.indent) as nat
                } else {
                    MAX_INDENT as nat
                },
                in_line_comment: src@.in_line_comment,
                continuing_line: old(self)@.continuing_line,
            }),
    {
        crate::text::push_chars(&mut self.s, &src.s);
        if src.indent <= MAX_INDENT && self.indent <= MAX_INDENT - src.indent {
            self.indent = self.indent + src.indent;
        } else {
            self.indent = MAX_INDENT;
        }
        self.in_line_comment = src.in_line_comment;
    }

    /// Drop all text past the first `n` characters; the rest of the state is
    /// kept.
    pub fn truncate(&mut self, n: usize)
        requires
            n <= old(self)@.s.len(),
        ensures
            final(self)@ == (SourceModel { s: old(self)@.s.take(n as int), ..old(self)@ }),
    {
        self.s.truncate(n);
    }

    /// Insert `ins` at character position `at`.
    pub fn insert_chars(&mut self, at: usize, ins: &Vec<char>)
        requires
            at <= old(self)@.s.len(),
        ensures
            final(self)@ == (SourceModel {
                s: old(self)@.s.take(at as int) + ins@ + old(self)@.s.skip(at as int),
                ..old(self)@
            }),
    {
        let tail = self.s.split_off(at);
        crate::text::push_chars(&mut self.s, ins);
        crate::text::push_chars(&mut self.s, &tail);
        proof {
            assert(final(self)@.s =~= old(self)@.s.take(at as int) + ins@ + old(self)@.s.skip(
                at as int,
            ));
        }
    }

    fn newline(&mut self)
        ensures
            final(self)@ == (SourceModel {
                s: old(self)@.s.push('\n'),
                in_line_comment: false,
                continuing_line: false,
                ..old(self)@
            }),
    {
        self.in_line_comment = false;
        self.continuing_line = false;
        self.s.push('\n');
    }

    /// Append `src`, re-indenting it line by line; see [`source_push`].
    pub fn push_str(&mut self, src: &str)
        ensures
            final(self)@ == source_push(old(self)@, src@),
    {
        let v = crate::text::str_chars(src);
        self.push_vec(&v);
    }

    /// Append the text of `src`, re-indenting it line by line; see
    /// [`source_push`].
    pub fn push_vec(&mut self, src: &Vec<char>)
        ensures
            final(self)@ == source_push(old(self)@, src@),
    {
        let ghost m0 = self@;
        let ghost whole = src@;
        let ghost goal = source_push(m0, whole);
        if src.len() == 0 {
            proof {
                assert(lines_of(whole) =~= Seq::<Seq<char>>::empty());
            }
            return ;
        }
        // Whether the input forms a single line, and whether it ends in a
        // newline: both fixed properties of the whole input.
        let j0 = find_nl(src, 0);
        let single = j0 == src.len() || j0 + 1 == src.len();
        let ends_nl = src[src.len() - 1] == '\n';
        proof {
            assert(whole.skip(0) =~= whole);
            if j0 == src.len() {
                assert(lines_of(whole) =~= seq![whole]);
            } else if j0 + 1 == src.len() {
                assert(whole.skip(j0 + 1) =~= Seq::<char>::empty());
                assert(lines_of(whole) =~= seq![whole.take(j0 as int)]);
            } else {
                assert(lines_of(whole).len() == 1 + lines_of(whole.skip(j0 + 1)).len());
                assert(whole.skip(j0 + 1).len() > 0);
                assert(lines_of(whole.skip(j0 + 1)).len() > 0);
            }
            assert(single == (lines_of(whole).len() == 1));
            assert(ends_nl == (whole.len() > 0 && whole.last() == '\n'));
        }
        let mut p: usize = 0;
        while p < src.len()
            invariant
                p <= src.len(),
                whole == src@,
                whole.len() > 0,
                single == (lines_of(whole).len() == 1),
                ends_nl == (whole.len() > 0 && whole.last() == '\n'),
                goal == source_push(m0, whole),
                push_lines(self@, lines_of(whole.skip(p as int)), single, ends_nl) == goal,
            decreases src.len() - p,
        {
            let ghost mpre = self@;
            let ghost rem = whole.skip(p as int);
            let j = find_nl(src, p);
            let line = subvec(src, p, j);
            let next_p = if j == src.len() {
                j
            } else {
                j + 1
            };
            let is_last = next_p == src.len();
            proof {
                // The remaining input decomposes as this line plus the rest.
                assert(first_nl(rem) == j - p);
                assert(rem.len() > 0);
                if j == src.len() {
                    assert(rem.take(first_nl(rem)) =~= rem);
                    assert(line@ =~= rem);
                    assert(whole.skip(next_p as int) =~= Seq::<char>::empty());
                    assert(lines_of(rem) =~= seq![line@] + lines_of(whole.skip(next_p as int)));
                } else {
                    assert(line@ =~= rem.take(first_nl(rem)));
                    assert(rem.skip(first_nl(rem) + 1) =~= whole.skip(next_p as int));
                    assert(lines_of(rem) =~= seq![line@] + lines_of(whole.skip(next_p as int)));
                }
                if is_last {
                    assert(lines_of(whole.skip(next_p as int)) =~= Seq::<Seq<char>>::empty());
                    assert(lines_of(rem).len() == 1);
                } else {
                    assert(whole.skip(next_p as int).len() > 0);
                    assert(lines_of(whole.skip(next_p as int)).len() > 0);
                    assert(lines_of(rem).len() != 1);
                }
                assert(lines_of(rem).drop_first() =~= lines_of(whole.skip(next_p as int)));
            }
            self.push_line(&line, single, is_last, ends_nl);
            proof {
                assert(self@ == line_step(mpre, line@, single, is_last, ends_nl));
                assert(push_lines(self@, lines_of(whole.skip(next_p as int)), single, ends_nl)
                    == goal);
            }
            p = next_p;
        }
        proof {
            assert(whole.skip(p as int) =~= Seq::<char>::empty());
            assert(lines_of(whole.skip(p as int)) =~= Seq::<Seq<char>>::empty());
        }
    }

    /// Append one line of input; the spec is [`line_step`].
    fn push_line(&mut self, line: &Vec<char>, single: bool, is_last: bool, ends_nl: bool)
        ensures
            final(self)@ == line_step(old(self)@, line@, single, is_last, ends_nl),
    {
        let ghost m = self@;
        if !self.continuing_line {
            if line.len() > 0 {
                let mut k: usize = 0;
                let n = self.indent;
                while k < n
                    invariant
                        k <= n,
                        n == m.indent,
                        self@ == (SourceModel { s: m.s + indent_ws(k as nat), ..m }),
                    decreases n - k,
                {
                    self.s.push(' ');
                    self.s.push(' ');
                    proof {
                        assert(self@.s =~= m.s + indent_ws((k + 1) as nat));
                    }
                    k += 1;
                }
            }
            self.continuing_line = true;
        }
        let ghost m1 = line_step_m1(m, line@);
        proof {
            assert(self@ =~= m1);
        }
        // Locate the trimmed part of the line.
        let mut a: usize = 0;
        while a < line.len() && is_ws_exec(line[a])
            invariant
                a <= line.len(),
                forall|k: int| 0 <= k < a ==> is_ws(line@[k]),
            decreases line.len() - a,
        {
            a += 1;
        }
        let mut b: usize = line.len();
        while b > a && is_ws_exec(line[b - 1])
            invariant
                a <= b <= line.len(),
                forall|k: int| b <= k < line.len() ==> is_ws(line@[k]),
            decreases b,
        {
            b -= 1;
        }
        proof {
            lemma_first_non_ws_at(line@, a as int);
            if b == a {
                // Fully whitespace: the trimmed line is empty.
                lemma_trimmed_end_at(line@, 0);
                assert(line@.take(0) =~= Seq::<char>::empty());
                lemma_first_non_ws_at(line@.take(trimmed_end(line@)), 0);
                assert(trim(line@) =~= Seq::<char>::empty());
            } else {
                assert(!is_ws(line@[a as int]));
                assert(!is_ws(line@[b - 1]));
                lemma_trimmed_end_at(line@, b as int);
                lemma_first_non_ws_at(line@.take(b as int), a as int);
                assert(trim(line@) =~= line@.subrange(a as int, b as int));
            }
            assert(trim_start(line@) =~= line@.subrange(a as int, line@.len() as int));
        }
        let ghost t = trim(line@);
        if b - a >= 2 && line[a] == '/' && line[a + 1] == '/' {
            self.in_line_comment = true;
        }
        let ghost m2 = line_step_m2(m, line@);
        proof {
            assert(self@ =~= m2);
        }
        if !self.in_line_comment && b - a >= 1 && line[a] == '}' && self.s.len() >= 2 {
            let sl = self.s.len();
            if self.s[sl - 1] == ' ' && self.s[sl - 2] == ' ' {
                let _ = self.s.pop();
                let _ = self.s.pop();
                proof {
                    assert(self@.s =~= m2.s.take(m2.s.len() - 2));
                }
            }
        }
        let ghost m3 = line_step_m3(m, line@);
        proof {
            assert(self@ =~= m3);
        }
        if single {
            let c = subvec(line, 0, line.len());
            crate::text::push_chars(&mut self.s, &c);
            proof {
                assert(c@ =~= line@);
            }
        } else {
            let c = subvec(line, a, line.len());
            crate::text::push_chars(&mut self.s, &c);
        }
        let ghost m4 = line_step_m4(m, line@, single);
        proof {
            assert(self@ =~= m4);
        }
        if !self.in_line_comment {
            if b - a >= 1 && line[b - 1] == '{' {
                proof {
                    assert(t.last() == line@[b - 1]);
                }
                if self.indent < MAX_INDENT {
                    self.indent = self.indent + 1;
                }
            }
            if b - a >= 1 && line[a] == '}' {
                if self.indent > 0 {
                    self.indent = self.indent - 1;
                }
            }
        }
        let ghost m5 = line_step_m5(m, line@, single);
        proof {
            if b > a {
                assert(t.len() >= 1);
                assert(t.last() == line@[b - 1]);
                assert(t[0] == line@[a as int]);
            }
            assert(self@ =~= m5);
        }
        if !is_last || ends_nl {
            self.newline();
        }
        proof {
            assert(self@ =~= line_step(m, line@, single, is_last, ends_nl));
        }
    }
}

impl Default for Source {
    /// An empty buffer at indentation zero.
    fn default() -> (r: Source)
        ensures
            r@ == (SourceModel {
                s: Seq::<char>::empty(),
                indent: 0,
                in_line_comment: false,
                continuing_line: false,
            }),
    {
        Source::new()
    }
}

fn is_ws_exec(c: char) -> (r: bool)
    ensures
        r == is_ws(c),
{
    c == ' ' || c == '\t' || c == '\r' || c == '\n' || c == '\u{b}' || c == '\u{c}'
}

/// The intermediate states of [`line_step`], named so the implementation can
/// be checked stage by stage.
pub open spec fn line_step_m1(m: SourceModel, line: Seq<char>) -> SourceModel {
    if !m.continuing_line {
        SourceModel {
            s: if line.len() > 0 {
                m.s + indent_ws(m.indent)
            } else {
                m.s
            },
            continuing_line: true,
            ..m
        }
    } else {
        m
    }
}

pub open spec fn line_step_m2(m: SourceModel, line: Seq<char>) -> SourceModel {
    let m1 = line_step_m1(m, line);
    let t = trim(line);
    if t.len() >= 2 && t[0] == '/' && t[1] == '/' {
        SourceModel { in_line_comment: true, ..m1 }
    } else {
        m1
    }
}

pub open spec fn line_step_m3(m: SourceModel, line: Seq<char>) -> SourceModel {
    let m2 = line_step_m2(m, line);
    let t = trim(line);
    if !m2.in_line_comment && t.len() >= 1 && t[0] == '}' && m2.s.len() >= 2 && m2.s[
        m2.s.len() - 1
    ] == ' ' && m2.s[m2.s.len() - 2] == ' ' {
        SourceModel { s: m2.s.take(m2.s.len() - 2), ..m2 }
    } else {
        m2
    }
}

pub open spec fn line_step_m4(m: SourceModel, line: Seq<char>, single: bool) -> SourceModel {
    let m3 = line_step_m3(m, line);
    SourceModel {
        s: m3.s + (if single {
            line
        } else {
            trim_start(line)
        }),
        ..m3
    }
}

pub open spec fn line_step_m5(m: SourceModel, line: Seq<char>, single: bool) -> SourceModel {
    let m4 = line_step_m4(m, line, single);
    let t = trim(line);
    if !m4.in_line_comment {
        let i1 = if t.len() >= 1 && t.last() == '{' {
            bump(m4.indent)
        } else {
            m4.indent
        };
        let i2 = if t.len() >= 1 && t[0] == '}' {
            if i1 > 0 {
                (i1 - 1) as nat
            } else {
                0
            }
        } else {
            i1
        };
        SourceModel { indent: i2, ..m4 }
    } else {
        m4
    }
}

/// Whether `s` ends with `suf`.
pub open spec fn ends_with(s: Seq<char>, suf: Seq<char>) -> bool {
    s.len() >= suf.len() && s.subrange(s.len() - suf.len(), s.len() as int) == suf
}

/// Pushing a lone `end;` line leaves the buffer ending in that line: the
/// line holds no brace or comment, so it is appended (behind any indent) and
/// closed with its newline.
pub proof fn lemma_push_end_line(m: SourceModel)
    ensures
        ends_with(source_push(m, "end;\n"@).s, "end;\n"@),
{
    reveal_strlit("end;\n");
    let lit = "end;\n"@;
    assert(lit.len() == 5);
    lemma_first_nl_at(lit, 4);
    let line = lit.take(4);
    assert(lit.skip(5) =~= Seq::<char>::empty());
    assert(lines_of(Seq::<char>::empty()) =~= Seq::<Seq<char>>::empty());
    assert(lines_of(lit) =~= seq![line]);
    assert(line.len() == 4);
    assert(line[0] == 'e' && line[1] == 'n' && line[2] == 'd' && line[3] == ';');
    lemma_first_non_ws_at(line, 0);
    lemma_trimmed_end_at(line, 4);
    assert(line.take(4) =~= line);
    assert(trim(line) =~= line);
    let stepped = line_step(m, line, true, true, true);
    assert(push_lines(stepped, seq![line].drop_first(), true, true) == stepped) by {
        assert(seq![line].drop_first().len() == 0);
    }
    assert(source_push(m, lit) == stepped);
    let m1 = line_step_m1(m, line);
    assert(line_step_m3(m, line).s == m1.s);
    assert(stepped.s =~= m1.s + line + seq!['\n']);
    assert(stepped.s.len() >= 5);
    assert(stepped.s.subrange(stepped.s.len() - 5, stepped.s.len() as int) =~= lit);
}

} // verus!

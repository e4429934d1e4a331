//! Text as sequences of characters: appending literals and slicing sources.
use vstd::prelude::*;
use crate::ast::Span;

verus! {

/// Appends the characters of `s` to `out`.
pub fn push_str(out: &mut Vec<char>, s: &str)
    ensures
        final(out)@ == old(out)@ + s@,
{
    let ghost start = out@;
    for c in it: s.chars()
        invariant
            it.seq() == s@,
            out@ == start + it.seq().take(it.index() as int),
        ensures
            out@ == start + s@,
    {
        out.push(c);
        proof {
            assert(it.seq().take(it.index() + 1) == it.seq().take(it.index() as int).push(c));
        }
    }
}

/// Appends `s` to `out`.
pub fn push_chars(out: &mut Vec<char>, s: &Vec<char>)
    ensures
        final(out)@ == old(out)@ + s@,
{
    let ghost start = out@;
    let mut i: usize = 0;
    while i < s.len()
        invariant
            i <= s@.len(),
            out@ == start + s@.take(i as int),
        decreases s@.len() - i,
    {
        out.push(s[i]);
        proof {
            assert(s@.take(i + 1) == s@.take(i as int).push(s@[i as int]));
        }
        i = i + 1;
    }
    proof {
        assert(s@.take(i as int) == s@);
    }
}

/// The text shown where a span's source is not available.
pub open spec fn placeholder() -> Seq<char> {
    seq!['.', '.']
}

/// The source text under `sp`, or the placeholder where `sp` is not a range of `src`.
pub open spec fn snippet_of(src: Seq<char>, sp: Span) -> Seq<char> {
    if sp.lo <= sp.hi <= src.len() {
        src.subrange(sp.lo as int, sp.hi as int)
    } else {
        placeholder()
    }
}

pub fn snippet(src: &Vec<char>, sp: Span) -> (r: Vec<char>)
    ensures
        r@ == snippet_of(src@, sp),
{
    let mut r: Vec<char> = Vec::new();
    if sp.lo <= sp.hi && sp.hi <= src.len() {
        let mut i: usize = sp.lo;
        while i < sp.hi
            invariant
                sp.lo <= i <= sp.hi <= src@.len(),
                r@ == src@.subrange(sp.lo as int, i as int),
            decreases sp.hi - i,
        {
            r.push(src[i]);
            proof {
                assert(src@.subrange(sp.lo as int, i + 1) == src@.subrange(sp.lo as int, i as int).push(
                    src@[i as int],
                ));
            }
            i = i + 1;
        }
    } else {
        r.push('.');
        r.push('.');
        proof {
            assert(r@ == placeholder());
        }
    }
    r
}

/// The source after replacing the text under `sp` with `text`.
pub open spec fn apply_edit(src: Seq<char>, sp: Span, text: Seq<char>) -> Seq<char> {
    src.take(sp.lo as int) + text + src.skip(sp.hi as int)
}

/// The column of position `i`: the number of characters since the line break before it.
pub open spec fn column(s: Seq<char>, i: int) -> int
    decreases i,
{
    if i <= 0 {
        0
    } else if s[i - 1] == '\n' {
        0
    } else {
        column(s, i - 1) + 1
    }
}

/// Position `i` lies on the first line of `s`.
pub open spec fn on_first_line(s: Seq<char>, i: int) -> bool
    decreases i,
{
    if i <= 0 {
        true
    } else {
        s[i - 1] != '\n' && on_first_line(s, i - 1)
    }
}

/// The number of consecutive `ch` starting at position `i`.
pub open spec fn lead(s: Seq<char>, i: int, ch: char) -> nat
    decreases s.len() - i,
{
    if 0 <= i < s.len() && s[i] == ch {
        1 + lead(s, i + 1, ch)
    } else {
        0
    }
}

/// Position `i` starts a non-empty line other than the first.
pub open spec fn starts_inner_line(s: Seq<char>, i: int) -> bool {
    0 < i < s.len() && s[i - 1] == '\n' && s[i] != '\n'
}

/// The least indentation by `ch` among the non-empty lines, other than the
/// first, that start before position `n`.
pub open spec fn min_indent_upto(s: Seq<char>, ch: char, n: int) -> Option<nat>
    decreases n,
{
    if n <= 0 {
        None
    } else {
        let prev = min_indent_upto(s, ch, n - 1);
        if starts_inner_line(s, n - 1) {
            let l = lead(s, n - 1, ch);
            match prev {
                Some(m) => Some(if l < m { l } else { m }),
                None => Some(l),
            }
        } else {
            prev
        }
    }
}

/// The indentation by `ch` common to all non-empty lines but the first; 0 where there are none.
pub open spec fn indent_width(s: Seq<char>, ch: char) -> nat {
    match min_indent_upto(s, ch, s.len() as int) {
        Some(m) => m,
        None => 0,
    }
}

/// Dedenting by `x` keeps the character at `i`: it lies on the first line, is a
/// line break, or stands at column `x` or beyond.
pub open spec fn keeps(s: Seq<char>, x: int, i: int) -> bool {
    on_first_line(s, i) || s[i] == '\n' || column(s, i) >= x
}

/// The first `n` characters of `s`, without the first `x` columns of every line but the first.
pub open spec fn dedent_upto(s: Seq<char>, x: int, n: int) -> Seq<char>
    decreases n,
{
    if n <= 0 {
        Seq::empty()
    } else {
        let prev = dedent_upto(s, x, n - 1);
        if keeps(s, x, n - 1) {
            prev.push(s[n - 1])
        } else {
            prev
        }
    }
}

/// `s` with the indentation by `ch` that all its lines but the first share removed.
pub open spec fn dedent(s: Seq<char>, ch: char) -> Seq<char> {
    dedent_upto(s, indent_width(s, ch) as int, s.len() as int)
}

/// `s` re-indented as a block: the common indentation of the lines after the
/// first, by spaces, then tabs, then spaces again, is removed.
pub open spec fn reindent(s: Seq<char>) -> Seq<char> {
    dedent(dedent(dedent(s, ' '), '\t'), ' ')
}

fn lead_at(s: &Vec<char>, i: usize, ch: char) -> (r: usize)
    requires
        i <= s@.len(),
    ensures
        r == lead(s@, i as int, ch),
{
    let mut j: usize = i;
    while j < s.len() && s[j] == ch
        invariant
            i <= j <= s@.len(),
            lead(s@, i as int, ch) == (j - i) + lead(s@, j as int, ch),
        decreases s@.len() - j,
    {
        j = j + 1;
    }
    j - i
}

fn indent_width_of(s: &Vec<char>, ch: char) -> (r: usize)
    ensures
        r == indent_width(s@, ch),
{
    let mut m: Option<usize> = None;
    let mut i: usize = 0;
    while i < s.len()
        invariant
            i <= s@.len(),
            min_indent_upto(s@, ch, i as int) == match m {
                Some(v) => Some(v as nat),
                None => None::<nat>,
            },
        decreases s@.len() - i,
    {
        if i > 0 && s[i - 1] == '\n' && s[i] != '\n' {
            let l = lead_at(s, i, ch);
            m = match m {
                Some(v) => Some(if l < v { l } else { v }),
                None => Some(l),
            };
        }
        i = i + 1;
    }
    match m {
        Some(v) => v,
        None => 0,
    }
}

fn dedent_by(s: &Vec<char>, ch: char) -> (r: Vec<char>)
    ensures
        r@ == dedent(s@, ch),
{
    let x = indent_width_of(s, ch);
    let mut r: Vec<char> = Vec::new();
    let mut col: usize = 0;
    let mut first = true;
    let mut i: usize = 0;
    while i < s.len()
        invariant
            i <= s@.len(),
            col <= i,
            col == column(s@, i as int),
            first == on_first_line(s@, i as int),
            r@ == dedent_upto(s@, x as int, i as int),
        decreases s@.len() - i,
    {
        if first || s[i] == '\n' || col >= x {
            r.push(s[i]);
        }
        if s[i] == '\n' {
            col = 0;
            first = false;
        } else {
            col = col + 1;
        }
        i = i + 1;
    }
    r
}

/// Re-indents `s` as a block.
pub fn reindent_block(s: &Vec<char>) -> (r: Vec<char>)
    ensures
        r@ == reindent(s@),
{
    let a = dedent_by(s, ' ');
    let b = dedent_by(&a, '\t');
    dedent_by(&b, ' ')
}

/// The source under `sp` re-indented as a block, or the placeholder.
pub open spec fn block_snippet_of(src: Seq<char>, sp: Span) -> Seq<char> {
    reindent(snippet_of(src, sp))
}

pub fn snippet_block(src: &Vec<char>, sp: Span) -> (r: Vec<char>)
    ensures
        r@ == block_snippet_of(src@, sp),
{
    let s = snippet(src, sp);
    reindent_block(&s)
}

/// A space or a tab.
pub open spec fn is_blank(c: char) -> bool {
    c == ' ' || c == '\t'
}

/// `s` without its spaces and tabs.
pub open spec fn blanks_removed(s: Seq<char>) -> Seq<char>
    decreases s.len(),
{
    if s.len() == 0 {
        Seq::empty()
    } else {
        let prev = blanks_removed(s.drop_last());
        if is_blank(s.last()) {
            prev
        } else {
            prev.push(s.last())
        }
    }
}

/// Every non-empty line but the first, starting before `n`, is indented by at
/// least the least indentation, and there is one where any such line exists.
proof fn lemma_min_indent_bounds(s: Seq<char>, ch: char, n: int, j: int)
    requires
        0 <= j < n,
        starts_inner_line(s, j),
    ensures
        min_indent_upto(s, ch, n) is Some,
        lead(s, j, ch) >= min_indent_upto(s, ch, n)->0,
    decreases n,
{
    if j < n - 1 {
        lemma_min_indent_bounds(s, ch, n - 1, j);
    }
}

/// A position off the first line lies `column` characters after the start of its line.
proof fn lemma_line_start(s: Seq<char>, i: int)
    requires
        0 <= i < s.len(),
        !on_first_line(s, i),
    ensures
        0 < i - column(s, i) <= i,
        s[i - column(s, i) - 1] == '\n',
        forall|k: int| i - column(s, i) <= k < i ==> s[k] != '\n',
    decreases i,
{
    if s[i - 1] != '\n' {
        lemma_line_start(s, i - 1);
    }
}

proof fn lemma_lead_char(s: Seq<char>, j: int, ch: char, c: int)
    requires
        0 <= c < lead(s, j, ch),
    ensures
        s[j + c] == ch,
    decreases c,
{
    if c > 0 {
        lemma_lead_char(s, j + 1, ch, c - 1);
    }
}

proof fn lemma_blanks_removed_push(s: Seq<char>, c: char)
    ensures
        blanks_removed(s.push(c)) == if is_blank(c) {
            blanks_removed(s)
        } else {
            blanks_removed(s).push(c)
        },
{
    assert(s.push(c).drop_last() == s);
}

/// Dedenting by a blank drops only that blank.
proof fn lemma_dedent_upto_blanks(s: Seq<char>, ch: char, n: int)
    requires
        is_blank(ch),
        0 <= n <= s.len(),
    ensures
        blanks_removed(dedent_upto(s, indent_width(s, ch) as int, n)) == blanks_removed(s.take(n)),
    decreases n,
{
    let x = indent_width(s, ch) as int;
    if n > 0 {
        lemma_dedent_upto_blanks(s, ch, n - 1);
        let i = n - 1;
        assert(s.take(n) == s.take(i).push(s[i]));
        lemma_blanks_removed_push(s.take(i), s[i]);
        if keeps(s, x, i) {
            lemma_blanks_removed_push(dedent_upto(s, x, i), s[i]);
        } else {
            lemma_line_start(s, i);
            let c = column(s, i);
            let ls = i - c;
            assert(s[ls] != '\n');
            assert(starts_inner_line(s, ls));
            lemma_min_indent_bounds(s, ch, s.len() as int, ls);
            lemma_lead_char(s, ls, ch, c);
        }
    }
}

/// Re-indenting removes spaces and tabs only.
pub proof fn lemma_reindent_removes_blanks_only(s: Seq<char>)
    ensures
        blanks_removed(reindent(s)) == blanks_removed(s),
{
    lemma_dedent_upto_blanks(s, ' ', s.len() as int);
    assert(s.take(s.len() as int) == s);
    let a = dedent(s, ' ');
    lemma_dedent_upto_blanks(a, '\t', a.len() as int);
    assert(a.take(a.len() as int) == a);
    let b = dedent(a, '\t');
    lemma_dedent_upto_blanks(b, ' ', b.len() as int);
    assert(b.take(b.len() as int) == b);
}

} // verus!

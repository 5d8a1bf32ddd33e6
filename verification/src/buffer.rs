//! The in-memory document: an ordered sequence of lines, built by splitting
//! file contents on line boundaries.

use vstd::prelude::*;
use vstd::string::StrSliceExecFns;
use crate::line::Line;

verus! {

/// Index of the first line feed in `s`, or `s.len()` if there is none.
pub open spec fn line_break(s: Seq<char>) -> nat
    decreases s.len(),
{
    if s.len() == 0 {
        0
    } else if s[0] == '\n' {
        0
    } else {
        1 + line_break(s.skip(1))
    }
}

/// `s` with one trailing carriage return removed, if it has one.
pub open spec fn chomp(s: Seq<char>) -> Seq<char> {
    if s.len() > 0 && s.last() == '\r' {
        s.drop_last()
    } else {
        s
    }
}

/// The physical lines of a text: pieces delimited by line feeds, each with a
/// trailing carriage return removed, the final line ending optional. An empty
/// text has no lines; a piece after the last line feed is a line only if it
/// is non-empty (and keeps a trailing carriage return, since no line feed
/// follows it).
pub open spec fn lines_of(s: Seq<char>) -> Seq<Seq<char>>
    decreases s.len(),
{
    if s.len() == 0 {
        Seq::empty()
    } else {
        let e = line_break(s);
        if e >= s.len() {
            seq![s]
        } else {
            seq![chomp(s.take(e as int))] + lines_of(s.skip(e as int + 1))
        }
    }
}

/// The defining properties of `line_break`: it never passes the end, and
/// nothing before it is a line feed.
pub proof fn lemma_line_break_props(s: Seq<char>)
    ensures
        line_break(s) <= s.len(),
        forall|j: int| 0 <= j < line_break(s) ==> s[j] != '\n',
    decreases s.len(),
{
    if s.len() > 0 && s[0] != '\n' {
        let t = s.skip(1);
        lemma_line_break_props(t);
        assert(forall|j: int| 1 <= j < line_break(s) ==> s[j] == t[j - 1]);
    }
}

/// `line_break` is pinned down by its characterization: everything before
/// index `k` is ordinary text and `k` is a line feed or the end.
pub proof fn lemma_line_break_at(s: Seq<char>, k: nat)
    requires
        k <= s.len(),
        forall|j: int| 0 <= j < k ==> s[j] != '\n',
        k == s.len() || s[k as int] == '\n',
    ensures
        line_break(s) == k,
    decreases s.len(),
{
    if s.len() == 0 {
    } else if k == 0 {
    } else {
        assert(s[0] != '\n');
        let t = s.skip(1);
        assert(forall|j: int| 0 <= j < k - 1 ==> t[j] == s[j + 1] && t[j] != '\n');
        lemma_line_break_at(t, (k - 1) as nat);
    }
}

/// Splitting a text that starts with one full line: the first physical line
/// is that piece (with a trailing carriage return removed), and the rest of
/// the lines are those of the remainder.
pub proof fn lemma_lines_of_step(piece: Seq<char>, rest: Seq<char>)
    requires
        forall|j: int| 0 <= j < piece.len() ==> piece[j] != '\n',
    ensures
        lines_of(piece + seq!['\n'] + rest) == seq![chomp(piece)] + lines_of(rest),
{
    let s = piece + seq!['\n'] + rest;
    assert(s[piece.len() as int] == '\n');
    assert(forall|j: int| 0 <= j < piece.len() ==> s[j] == piece[j]);
    lemma_line_break_at(s, piece.len());
    assert(s.take(piece.len() as int) =~= piece);
    assert(s.skip(piece.len() as int + 1) =~= rest);
}

/// A non-empty text without a line feed is a single physical line, kept as it
/// stands.
pub proof fn lemma_lines_of_last(piece: Seq<char>)
    requires
        piece.len() > 0,
        forall|j: int| 0 <= j < piece.len() ==> piece[j] != '\n',
    ensures
        lines_of(piece) == seq![piece],
{
    lemma_line_break_at(piece, piece.len());
}

/// The views of a sequence of lines.
pub open spec fn views_of(ls: Seq<Line>) -> Seq<Seq<char>> {
    ls.map_values(|l: Line| l@)
}

/// The ordered lines of the viewed document. Its view is the sequence of its
/// lines' character sequences, in file order.
#[derive(Debug)]
pub struct Buffer {
    pub lines: Vec<Line>,
}

impl View for Buffer {
    type V = Seq<Seq<char>>;

    open spec fn view(&self) -> Seq<Seq<char>> {
        views_of(self.lines@)
    }
}

impl Default for Buffer {
    fn default() -> (r: Self)
        ensures
            r@ == Seq::<Seq<char>>::empty(),
    {
        let r = Buffer { lines: Vec::new() };
        proof {
            assert(r@ =~= Seq::<Seq<char>>::empty());
        }
        r
    }
}

impl Buffer {
    /// Whether zero lines are present; decides whether the placeholder rows
    /// are drawn instead of file content.
    pub fn is_empty(&self) -> (r: bool)
        ensures
            r == (self@.len() == 0),
    {
        self.lines.is_empty()
    }

    /// Splits already-read file contents into physical lines. The result
    /// holds exactly the lines of `contents`, in order.
    pub fn build(contents: &str) -> (r: Self)
        ensures
            r@ == lines_of(contents@),
    {
        let n = contents.unicode_len();
        let mut lines: Vec<Line> = Vec::new();
        let mut start: usize = 0;
        let mut i: usize = 0;
        proof {
            assert(views_of(lines@) =~= Seq::<Seq<char>>::empty());
            assert(contents@.skip(0) =~= contents@);
            assert(Seq::<Seq<char>>::empty() + lines_of(contents@) =~= lines_of(contents@));
        }
        while i < n
            invariant
                n == contents@.len(),
                start <= i <= n,
                forall|j: int| start <= j < i ==> contents@[j] != '\n',
                lines_of(contents@) == views_of(lines@) + lines_of(contents@.skip(start as int)),
            decreases n - i,
        {
            let c = contents.get_char(i);
            if c == '\n' {
                let end = if i > start && contents.get_char(i - 1) == '\r' {
                    i - 1
                } else {
                    i
                };
                let piece = contents.substring_char(start, end);
                proof {
                    let tail = contents@.skip(start as int);
                    let full = contents@.subrange(start as int, i as int);
                    assert(forall|j: int|
                        0 <= j < full.len() ==> full[j] == contents@[start + j] && full[j] != '\n');
                    assert(tail =~= full + seq!['\n'] + contents@.skip(i as int + 1));
                    lemma_lines_of_step(full, contents@.skip(i as int + 1));
                    assert(chomp(full) =~= contents@.subrange(start as int, end as int));
                }
                let ghost old_lines = lines@;
                lines.push(Line::from(piece));
                proof {
                    assert(views_of(lines@) =~= views_of(old_lines).push(piece@));
                    assert(views_of(old_lines) + lines_of(contents@.skip(start as int)) =~= (
                    views_of(old_lines).push(piece@)) + lines_of(contents@.skip(i as int + 1)));
                }
                start = i + 1;
            }
            i = i + 1;
        }
        if start < n {
            let piece = contents.substring_char(start, n);
            proof {
                let tail = contents@.skip(start as int);
                assert(forall|j: int| 0 <= j < tail.len() ==> tail[j] == contents@[start + j]
                    && tail[j] != '\n');
                lemma_lines_of_last(tail);
                assert(piece@ =~= tail);
            }
            let ghost old_lines = lines@;
            lines.push(Line::from(piece));
            proof {
                assert(views_of(lines@) =~= views_of(old_lines).push(piece@));
                assert(views_of(old_lines) + seq![piece@] =~= views_of(lines@));
            }
        } else {
            proof {
                assert(contents@.skip(start as int) =~= Seq::<char>::empty());
                assert(views_of(lines@) + lines_of(contents@.skip(start as int)) =~= views_of(
                    lines@,
                ));
            }
        }
        Buffer { lines }
    }
}

/// The invariant of every loaded line: splitting embeds no line terminator in
/// any physical line.
pub proof fn lemma_lines_have_no_line_feeds(s: Seq<char>)
    ensures
        forall|i: int, j: int|
            0 <= i < lines_of(s).len() && 0 <= j < lines_of(s)[i].len() ==> #[trigger] lines_of(
                s,
            )[i][j] != '\n',
    decreases s.len(),
{
    if s.len() > 0 {
        let e = line_break(s);
        lemma_line_break_props(s);
        if e >= s.len() {
            assert(forall|j: int| 0 <= j < s.len() ==> s[j] != '\n');
        } else {
            let first = chomp(s.take(e as int));
            assert(forall|j: int| 0 <= j < first.len() ==> first[j] == s[j] && first[j] != '\n');
            lemma_lines_have_no_line_feeds(s.skip(e as int + 1));
            assert(forall|i: int, j: int|
                1 <= i < lines_of(s).len() && 0 <= j < lines_of(s)[i].len() ==> lines_of(s)[i][j]
                    == lines_of(s.skip(e as int + 1))[i - 1][j]);
        }
    }
}

/// The text of a file whose every line, `ls[i]`, is followed by one line
/// feed.
pub open spec fn file_of(ls: Seq<Seq<char>>) -> Seq<char>
    decreases ls.len(),
{
    if ls.len() == 0 {
        Seq::empty()
    } else {
        ls[0] + seq!['\n'] + file_of(ls.skip(1))
    }
}

/// Loading a well-formed file reproduces its lines exactly: a text of `n`
/// lines, each free of line feeds and not ending in a carriage return, each
/// followed by one line feed, splits into exactly those `n` lines.
pub proof fn lemma_lines_of_file(ls: Seq<Seq<char>>)
    requires
        forall|i: int, j: int|
            0 <= i < ls.len() && 0 <= j < ls[i].len() ==> #[trigger] ls[i][j] != '\n',
        forall|i: int| 0 <= i < ls.len() && ls[i].len() > 0 ==> (#[trigger] ls[i]).last() != '\r',
    ensures
        lines_of(file_of(ls)) == ls,
    decreases ls.len(),
{
    if ls.len() == 0 {
        assert(lines_of(file_of(ls)) =~= ls);
    } else {
        lemma_lines_of_step(ls[0], file_of(ls.skip(1)));
        assert(chomp(ls[0]) == ls[0]);
        lemma_lines_of_file(ls.skip(1));
        assert(seq![ls[0]] + ls.skip(1) =~= ls);
    }
}

} // verus!

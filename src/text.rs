use vstd::prelude::*;

verus! {

/// What `char::is_alphanumeric` answers for `c` (Unicode Alphabetic or Numeric).
pub uninterp spec fn is_word_char(c: char) -> bool;

/// Relies on `char::is_alphanumeric`: its answer depends on the character alone.
#[verifier::external_body]
pub(crate) fn word_char(c: char) -> (r: bool)
    ensures
        r == is_word_char(c),
{
    c.is_alphanumeric()
}

/// The contents of each line of a buffer.
pub open spec fn views(v: Seq<Vec<char>>) -> Seq<Seq<char>> {
    v.map_values(|l: Vec<char>| l@)
}

/// Whether a word (a maximal run of word characters) starts at `i`.
pub open spec fn starts_word(line: Seq<char>, i: int) -> bool {
    is_word_char(line[i]) && (i == 0 || !is_word_char(line[i - 1]))
}

/// Number of words that start before column `n`.
pub open spec fn words_before(line: Seq<char>, n: int) -> nat
    decreases n,
{
    if n <= 0 {
        0
    } else {
        words_before(line, n - 1) + if starts_word(line, n - 1) {
            1nat
        } else {
            0nat
        }
    }
}

/// Number of words of a line.
pub open spec fn line_words(line: Seq<char>) -> nat {
    words_before(line, line.len() as int)
}

/// Number of words of a text; a word never spans a line break.
pub open spec fn text_words(lines: Seq<Seq<char>>) -> nat
    decreases lines.len(),
{
    if lines.len() == 0 {
        0
    } else {
        text_words(lines.drop_last()) + line_words(lines.last())
    }
}

/// `line` without one trailing carriage return.
pub open spec fn strip_cr(line: Seq<char>) -> Seq<char> {
    if line.len() > 0 && line.last() == '\r' {
        line.drop_last()
    } else {
        line
    }
}

/// Reading `s` from the left: the lines already ended by a newline, and the
/// characters of the line under way.
pub open spec fn scan(s: Seq<char>) -> (Seq<Seq<char>>, Seq<char>)
    decreases s.len(),
{
    if s.len() == 0 {
        (seq![], seq![])
    } else {
        let (done, cur) = scan(s.drop_last());
        if s.last() == '\n' {
            (done.push(strip_cr(cur)), seq![])
        } else {
            (done, cur.push(s.last()))
        }
    }
}

/// The lines of `s`: split at each newline (a carriage return before it is
/// dropped); a final newline ends the last line instead of opening an empty one.
pub open spec fn lines_of(s: Seq<char>) -> Seq<Seq<char>> {
    let (done, cur) = scan(s);
    if cur.len() == 0 {
        done
    } else {
        done.push(cur)
    }
}

/// The lines joined with one newline between each two.
pub open spec fn joined(lines: Seq<Seq<char>>) -> Seq<char>
    decreases lines.len(),
{
    if lines.len() == 0 {
        seq![]
    } else if lines.len() == 1 {
        lines[0]
    } else {
        joined(lines.drop_last()) + seq!['\n'] + lines.last()
    }
}

/// Whether `s` holds no carriage return.
pub open spec fn no_cr(s: Seq<char>) -> bool {
    forall|i: int| 0 <= i < s.len() ==> s[i] != '\r'
}

/// Splits a text into its lines (see `lines_of`).
pub fn split_lines(text: &Vec<char>) -> (r: Vec<Vec<char>>)
    ensures
        views(r@) == lines_of(text@),
{
    let mut done: Vec<Vec<char>> = Vec::new();
    let mut cur: Vec<char> = Vec::new();
    let mut i: usize = 0;
    while i < text.len()
        invariant
            i <= text.len(),
            (views(done@), cur@) == scan(text@.subrange(0, i as int)),
        decreases text.len() - i,
    {
        let c = text[i];
        assert(text@.subrange(0, i + 1).drop_last() =~= text@.subrange(0, i as int));
        if c == '\n' {
            if cur.len() > 0 && cur[cur.len() - 1] == '\r' {
                cur.pop();
            }
            let ghost before = views(done@);
            done.push(cur);
            assert(views(done@) =~= before.push(done@.last()@));
            cur = Vec::new();
            assert(cur@ =~= seq![]);
        } else {
            cur.push(c);
        }
        i += 1;
    }
    assert(text@.subrange(0, text.len() as int) =~= text@);
    if cur.len() > 0 {
        let ghost before = views(done@);
        done.push(cur);
        assert(views(done@) =~= before.push(done@.last()@));
    }
    done
}

/// Joins lines with a newline between each two (see `joined`).
pub fn join_lines(lines: &Vec<Vec<char>>) -> (r: Vec<char>)
    ensures
        r@ == joined(views(lines@)),
{
    let mut out: Vec<char> = Vec::new();
    let mut i: usize = 0;
    while i < lines.len()
        invariant
            i <= lines.len(),
            out@ == joined(views(lines@).subrange(0, i as int)),
        decreases lines.len() - i,
    {
        let ghost prefix = out@;
        let line = &lines[i];
        if i > 0 {
            out.push('\n');
        }
        let ghost mid = out@;
        let mut j: usize = 0;
        while j < line.len()
            invariant
                j <= line.len(),
                line == lines@[i as int],
                out@ == mid + line@.subrange(0, j as int),
            decreases line.len() - j,
        {
            out.push(line[j]);
            assert(mid + line@.subrange(0, j + 1) =~= (mid + line@.subrange(0, j as int)).push(
                line@[j as int],
            ));
            j += 1;
        }
        let ghost ls = views(lines@).subrange(0, i + 1);
        assert(ls.drop_last() =~= views(lines@).subrange(0, i as int));
        assert(line@.subrange(0, line.len() as int) =~= line@);
        if i == 0 {
            assert(out@ =~= ls[0]);
        } else {
            assert(out@ =~= prefix + seq!['\n'] + ls.last());
        }
        i += 1;
    }
    assert(views(lines@).subrange(0, lines.len() as int) =~= views(lines@));
    out
}

/// The buffer that loading `s` gives: its lines, at least one, ending with an
/// empty line so that the cursor can rest below the last written line.
pub open spec fn loaded(s: Seq<char>) -> Seq<Seq<char>> {
    let ls = lines_of(s);
    let base = if ls.len() == 0 {
        seq![seq![]]
    } else {
        ls
    };
    if base.last().len() > 0 {
        base.push(seq![])
    } else {
        base
    }
}

/// Whether a text comes back unchanged from loading and saving: it is empty,
/// or it ends with a single newline after a written character, and it holds
/// no carriage return.
pub open spec fn round_trips(s: Seq<char>) -> bool {
    &&& no_cr(s)
    &&& (s.len() == 0 || (s.len() >= 2 && s.last() == '\n' && s[s.len() - 2] != '\n'))
}

proof fn lemma_scan_joined(s: Seq<char>)
    requires
        no_cr(s),
    ensures
        joined(scan(s).0.push(scan(s).1)) == s,
        no_cr(scan(s).1),
        scan(s).1.len() == 0 <==> (s.len() == 0 || s.last() == '\n'),
    decreases s.len(),
{
    if s.len() > 0 {
        let t = s.drop_last();
        assert(no_cr(t));
        lemma_scan_joined(t);
        let (done, cur) = scan(t);
        assert(strip_cr(cur) == cur);
        if s.last() == '\n' {
            let ls = done.push(cur).push(seq![]);
            assert(ls.drop_last() =~= done.push(cur));
            assert(joined(ls) =~= s);
        } else {
            let ls = done.push(cur.push(s.last()));
            if done.len() == 0 {
                assert(joined(ls) =~= s);
            } else {
                assert(ls.drop_last() =~= done);
                let ws = done.push(cur);
                assert(ws.drop_last() =~= done);
                assert(joined(ws) == joined(done) + seq!['\n'] + cur);
                assert(joined(ls) == joined(done) + seq!['\n'] + cur.push(s.last()));
                assert(s =~= t.push(s.last()));
                assert(joined(ls) =~= s);
            }
            assert(no_cr(cur.push(s.last())));
        }
    }
}

/// Loading a text and saving it with no edit in between writes back the same
/// text, for every text that `round_trips` admits.
pub proof fn load_then_save(s: Seq<char>)
    requires
        round_trips(s),
    ensures
        joined(loaded(s)) == s,
{
    if s.len() > 0 {
        let t = s.drop_last();
        assert(no_cr(t));
        lemma_scan_joined(t);
        lemma_scan_joined(s);
        let (done, cur) = scan(t);
        assert(cur.len() > 0);
        assert(strip_cr(cur) == cur);
        assert(loaded(s) == done.push(cur).push(seq![]));
    }
}

/// `s` without its trailing newlines.
pub open spec fn trim_newlines(s: Seq<char>) -> Seq<char>
    decreases s.len(),
{
    if s.len() > 0 && s.last() == '\n' {
        trim_newlines(s.drop_last())
    } else {
        s
    }
}

/// Loading any text without carriage returns and saving it with no edit in
/// between writes back the same text up to its trailing newlines.
pub proof fn load_then_save_trimmed(s: Seq<char>)
    requires
        no_cr(s),
    ensures
        trim_newlines(joined(loaded(s))) == trim_newlines(s),
{
    lemma_scan_joined(s);
    let (done, cur) = scan(s);
    if s.len() == 0 {
        assert(loaded(s) =~= seq![seq![]]);
    } else if cur.len() > 0 {
        let ls = done.push(cur);
        assert(loaded(s) == ls.push(seq![]));
        assert(ls.push(seq![]).drop_last() =~= ls);
        assert(joined(ls.push(seq![])) =~= s.push('\n'));
        assert(s.push('\n').drop_last() =~= s);
    } else {
        assert(s.last() == '\n');
        let t = s.drop_last();
        assert(no_cr(t));
        lemma_scan_joined(t);
        assert(done.len() > 0);
        let full = done.push(seq![]);
        assert(full.drop_last() =~= done);
        assert(joined(full) == joined(done) + seq!['\n'] + Seq::<char>::empty());
        assert(joined(done) =~= t);
        if done.last().len() > 0 {
            assert(loaded(s) == full);
        } else {
            assert(loaded(s) == done);
        }
    }
}

/// The buffer that loading `text` gives (see `loaded`).
pub fn loaded_lines(text: &Vec<char>) -> (r: Vec<Vec<char>>)
    ensures
        views(r@) == loaded(text@),
{
    let mut lines = split_lines(text);
    if lines.len() == 0 {
        lines.push(Vec::new());
        assert(views(lines@) =~= seq![seq![]]);
    }
    let ghost base = views(lines@);
    if lines[lines.len() - 1].len() > 0 {
        lines.push(Vec::new());
        assert(views(lines@) =~= base.push(seq![]));
    }
    lines
}

/// Number of words in `line`, as `line_words`.
pub fn count_line_words(line: &Vec<char>) -> (r: usize)
    ensures
        r == line_words(line@),
{
    let mut count: usize = 0;
    let mut in_word = false;
    let mut i: usize = 0;
    while i < line.len()
        invariant
            i <= line.len(),
            count == words_before(line@, i as int),
            count <= i,
            in_word == (i > 0 && is_word_char(line@[i - 1])),
        decreases line.len() - i,
    {
        if word_char(line[i]) {
            if !in_word {
                count += 1;
                in_word = true;
            }
        } else {
            in_word = false;
        }
        i += 1;
    }
    count
}

/// Number of words in the text, saturating at the largest `usize`.
pub fn count_text_words(lines: &Vec<Vec<char>>) -> (r: usize)
    ensures
        r as int == if text_words(views(lines@)) > usize::MAX {
            usize::MAX as int
        } else {
            text_words(views(lines@)) as int
        },
{
    let mut total: usize = 0;
    let mut i: usize = 0;
    while i < lines.len()
        invariant
            i <= lines.len(),
            total as int == if text_words(views(lines@).subrange(0, i as int)) > usize::MAX {
                usize::MAX as int
            } else {
                text_words(views(lines@).subrange(0, i as int)) as int
            },
        decreases lines.len() - i,
    {
        let n = count_line_words(&lines[i]);
        let ghost ls = views(lines@).subrange(0, i + 1);
        assert(ls.drop_last() =~= views(lines@).subrange(0, i as int));
        if total > usize::MAX - n {
            total = usize::MAX;
        } else {
            total = total + n;
        }
        i += 1;
    }
    assert(views(lines@).subrange(0, lines.len() as int) =~= views(lines@));
    total
}

} // verus!

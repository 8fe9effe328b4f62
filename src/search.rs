use vstd::prelude::*;
use crate::editor::Editor;
use crate::text::views;

verus! {

/// Whether `pat` occurs in `line` starting at column `x`.
pub open spec fn occurs_at(line: Seq<char>, pat: Seq<char>, x: int) -> bool {
    &&& 0 <= x
    &&& x + pat.len() <= line.len()
    &&& forall|i: int| 0 <= i < pat.len() ==> line[x + i] == pat[i]
}

/// Whether `pat` occurs in the text at row `y`, column `x`.
pub open spec fn is_match(lines: Seq<Seq<char>>, pat: Seq<char>, y: int, x: int) -> bool {
    0 <= y < lines.len() && occurs_at(lines[y], pat, x)
}

/// Whether position `(y1, x1)` comes before `(y2, x2)` in reading order.
pub open spec fn precedes(y1: int, x1: int, y2: int, x2: int) -> bool {
    y1 < y2 || (y1 == y2 && x1 < x2)
}

/// Whether `(y, x)` is the first match after `(cy, cx)` in reading order.
pub open spec fn first_match_after(
    lines: Seq<Seq<char>>,
    pat: Seq<char>,
    cy: int,
    cx: int,
    y: int,
    x: int,
) -> bool {
    &&& is_match(lines, pat, y, x)
    &&& precedes(cy, cx, y, x)
    &&& forall|yy: int, xx: int|
        #[trigger] is_match(lines, pat, yy, xx) && precedes(cy, cx, yy, xx) ==> !precedes(yy, xx, y, x)
}

/// Whether `(y, x)` is the first match of the whole text and comes before `(cy, cx)`.
pub open spec fn first_match_before(
    lines: Seq<Seq<char>>,
    pat: Seq<char>,
    cy: int,
    cx: int,
    y: int,
    x: int,
) -> bool {
    &&& is_match(lines, pat, y, x)
    &&& precedes(y, x, cy, cx)
    &&& forall|yy: int, xx: int| #[trigger] is_match(lines, pat, yy, xx) ==> !precedes(yy, xx, y, x)
}

/// Whether `(y, x)` is the last match before `(cy, cx)`.
pub open spec fn last_match_before(
    lines: Seq<Seq<char>>,
    pat: Seq<char>,
    cy: int,
    cx: int,
    y: int,
    x: int,
) -> bool {
    &&& is_match(lines, pat, y, x)
    &&& precedes(y, x, cy, cx)
    &&& forall|yy: int, xx: int|
        #[trigger] is_match(lines, pat, yy, xx) && precedes(yy, xx, cy, cx) ==> !precedes(y, x, yy, xx)
}

/// Where a forward search from `(cy, cx)` lands: the first match after the
/// position; failing that, wrapping around, the first match before it;
/// failing that, the position itself.
pub open spec fn forward_target(
    lines: Seq<Seq<char>>,
    pat: Seq<char>,
    cy: int,
    cx: int,
    y: int,
    x: int,
) -> bool {
    if exists|yy: int, xx: int| #[trigger] is_match(lines, pat, yy, xx) && precedes(cy, cx, yy, xx) {
        first_match_after(lines, pat, cy, cx, y, x)
    } else if exists|yy: int, xx: int| #[trigger] is_match(lines, pat, yy, xx) && precedes(yy, xx, cy, cx) {
        first_match_before(lines, pat, cy, cx, y, x)
    } else {
        y == cy && x == cx
    }
}

/// Where a backward search from `(cy, cx)` lands: the last match before the
/// position, or the position itself; it does not wrap around.
pub open spec fn backward_target(
    lines: Seq<Seq<char>>,
    pat: Seq<char>,
    cy: int,
    cx: int,
    y: int,
    x: int,
) -> bool {
    if exists|yy: int, xx: int| #[trigger] is_match(lines, pat, yy, xx) && precedes(yy, xx, cy, cx) {
        last_match_before(lines, pat, cy, cx, y, x)
    } else {
        y == cy && x == cx
    }
}

/// Whether `pat` occurs in `line` at column `x`.
pub fn occurs(line: &Vec<char>, pat: &Vec<char>, x: usize) -> (r: bool)
    ensures
        r == occurs_at(line@, pat@, x as int),
{
    if x > line.len() || pat.len() > line.len() - x {
        return false;
    }
    let mut i: usize = 0;
    while i < pat.len()
        invariant
            i <= pat.len(),
            x + pat.len() <= line.len(),
            forall|k: int| 0 <= k < i ==> line@[x + k] == pat@[k],
        decreases pat.len() - i,
    {
        if line[x + i] != pat[i] {
            return false;
        }
        i += 1;
    }
    true
}

/// The first column in `[from, to)` of `line` where `pat` occurs.
fn first_in_row(line: &Vec<char>, pat: &Vec<char>, from: usize, to: usize) -> (r: Option<usize>)
    ensures
        match r {
            Some(x) => from <= x < to && occurs_at(line@, pat@, x as int) && forall|k: int|
                from <= k < x ==> !occurs_at(line@, pat@, k),
            None => forall|k: int| from <= k < to ==> !occurs_at(line@, pat@, k),
        },
{
    let mut x: usize = from;
    while x < to
        invariant
            from <= x,
            forall|k: int| from <= k < x ==> !occurs_at(line@, pat@, k),
        decreases to - x,
    {
        if occurs(line, pat, x) {
            return Some(x);
        }
        x += 1;
    }
    None
}

/// The last column in `[0, to)` of `line` where `pat` occurs.
fn last_in_row(line: &Vec<char>, pat: &Vec<char>, to: usize) -> (r: Option<usize>)
    ensures
        match r {
            Some(x) => x < to && occurs_at(line@, pat@, x as int) && forall|k: int|
                x < k < to ==> !occurs_at(line@, pat@, k),
            None => forall|k: int| 0 <= k < to ==> !occurs_at(line@, pat@, k),
        },
{
    let mut x: usize = to;
    while x > 0
        invariant
            x <= to,
            forall|k: int| x <= k < to ==> !occurs_at(line@, pat@, k),
        decreases x,
    {
        if occurs(line, pat, x - 1) {
            return Some(x - 1);
        }
        x -= 1;
    }
    None
}

/// Forward search for `pat` from `(cy, cx)`, wrapping around once.
pub fn find_forward(lines: &Vec<Vec<char>>, pat: &Vec<char>, cy: usize, cx: usize) -> (r: (
    usize,
    usize,
))
    requires
        cy < lines.len(),
        pat.len() > 0,
    ensures
        forward_target(views(lines@), pat@, cy as int, cx as int, r.0 as int, r.1 as int),
{
    let ghost ls = views(lines@);
    let mut y: usize = cy;
    while y < lines.len()
        invariant
            cy <= y <= lines.len(),
            ls == views(lines@),
            cy < lines.len(),
            pat.len() > 0,
            forall|yy: int, xx: int|
                #[trigger] is_match(ls, pat@, yy, xx) && precedes(cy as int, cx as int, yy, xx) && yy < y
                    ==> false,
        decreases lines.len() - y,
    {
        let line = &lines[y];
        assert(ls[y as int] == line@);
        if y > cy || cx < line.len() {
            let from: usize = if y == cy { cx + 1 } else { 0 };
            match first_in_row(line, pat, from, line.len()) {
                Some(x) => {
                    assert forall|yy: int, xx: int|
                        #[trigger] is_match(ls, pat@, yy, xx) && precedes(cy as int, cx as int, yy, xx)
                        implies !precedes(yy, xx, y as int, x as int) by {
                        if yy == y && xx < x {
                            assert(from <= xx);
                        }
                    }
                    assert(is_match(ls, pat@, y as int, x as int) && precedes(
                        cy as int,
                        cx as int,
                        y as int,
                        x as int,
                    ));
                    return (y, x);
                },
                None => {
                    assert forall|yy: int, xx: int|
                        #[trigger] is_match(ls, pat@, yy, xx) && precedes(cy as int, cx as int, yy, xx)
                            && yy < y + 1 implies false by {
                        if yy == y {
                            assert(xx < line.len());
                        }
                    }
                },
            }
        } else {
            assert forall|yy: int, xx: int|
                #[trigger] is_match(ls, pat@, yy, xx) && precedes(cy as int, cx as int, yy, xx) && yy < y
                    + 1 implies false by {
                if yy == y {
                    assert(xx < line.len());
                }
            }
        }
        y += 1;
    }
    assert(!exists|yy: int, xx: int|
        #[trigger] is_match(ls, pat@, yy, xx) && precedes(cy as int, cx as int, yy, xx));
    let mut y: usize = 0;
    while y <= cy
        invariant
            y <= cy + 1,
            ls == views(lines@),
            cy < lines.len(),
            pat.len() > 0,
            !exists|yy: int, xx: int|
                #[trigger] is_match(ls, pat@, yy, xx) && precedes(cy as int, cx as int, yy, xx),
            forall|yy: int, xx: int|
                #[trigger] is_match(ls, pat@, yy, xx) && yy < y ==> !precedes(yy, xx, cy as int, cx as int),
        decreases cy + 1 - y,
    {
        let line = &lines[y];
        assert(ls[y as int] == line@);
        let to: usize = if y == cy && cx < line.len() { cx } else { line.len() };
        match first_in_row(line, pat, 0, to) {
            Some(x) => {
                assert forall|yy: int, xx: int| #[trigger] is_match(ls, pat@, yy, xx) implies !precedes(
                    yy,
                    xx,
                    y as int,
                    x as int,
                ) by {
                    if yy == y && xx < x {
                        assert(0 <= xx);
                    }
                }
                assert(is_match(ls, pat@, y as int, x as int) && precedes(
                    y as int,
                    x as int,
                    cy as int,
                    cx as int,
                ));
                return (y, x);
            },
            None => {
                assert forall|yy: int, xx: int| #[trigger] is_match(ls, pat@, yy, xx) && yy < y + 1 implies !precedes(
                    yy,
                    xx,
                    cy as int,
                    cx as int,
                ) by {
                    if yy == y {
                        assert(xx < line.len());
                    }
                }
            },
        }
        y += 1;
    }
    (cy, cx)
}

/// Backward search for `pat` from `(cy, cx)`, without wrapping around.
pub fn find_backward(lines: &Vec<Vec<char>>, pat: &Vec<char>, cy: usize, cx: usize) -> (r: (
    usize,
    usize,
))
    requires
        cy < lines.len(),
        pat.len() > 0,
    ensures
        backward_target(views(lines@), pat@, cy as int, cx as int, r.0 as int, r.1 as int),
{
    let ghost ls = views(lines@);
    let mut y: usize = cy + 1;
    while y > 0
        invariant
            y <= cy + 1,
            ls == views(lines@),
            cy < lines.len(),
            pat.len() > 0,
            forall|yy: int, xx: int|
                #[trigger] is_match(ls, pat@, yy, xx) && precedes(yy, xx, cy as int, cx as int) && yy >= y
                    ==> false,
        decreases y,
    {
        let row = y - 1;
        let line = &lines[row];
        assert(ls[row as int] == line@);
        let to: usize = if row == cy && cx < line.len() { cx } else { line.len() };
        match last_in_row(line, pat, to) {
            Some(x) => {
                assert forall|yy: int, xx: int|
                    #[trigger] is_match(ls, pat@, yy, xx) && precedes(yy, xx, cy as int, cx as int)
                    implies !precedes(row as int, x as int, yy, xx) by {
                    if yy == row && xx > x {
                        assert(xx < line.len());
                    }
                }
                assert(is_match(ls, pat@, row as int, x as int) && precedes(
                    row as int,
                    x as int,
                    cy as int,
                    cx as int,
                ));
                return (row, x);
            },
            None => {
                assert forall|yy: int, xx: int|
                    #[trigger] is_match(ls, pat@, yy, xx) && precedes(yy, xx, cy as int, cx as int)
                        && yy >= row implies false by {
                    if yy == row {
                        assert(xx < line.len());
                    }
                }
            },
        }
        y -= 1;
    }
    (cy, cx)
}

impl Editor {
    pub open spec fn spec_search_next(a: Editor, b: Editor) -> bool {
        match a.last_search {
            Some(p) => if p@.len() > 0 {
                Self::searched_to(a, b, p@, true) && b.last_search == a.last_search
            } else {
                b == a
            },
            None => b == a,
        }
    }

    /// Moves to the next occurrence of the stored pattern, wrapping around
    /// past the end; an empty or absent pattern does nothing.
    pub fn search_next(&mut self)
        requires
            old(self).wf(),
        ensures
            final(self).wf(),
            Self::spec_search_next(*old(self), *final(self)),
    {
        if let Some(pat) = &self.last_search {
            if pat.len() > 0 {
                let (y, x) = find_forward(&self.buffer, pat, self.cursor_y, self.cursor_x);
                self.cursor_y = y;
                self.cursor_x = x;
                self.dirty = true;
            }
        }
    }

    pub open spec fn spec_search_prev(a: Editor, b: Editor) -> bool {
        match a.last_search {
            Some(p) => if p@.len() > 0 {
                Self::searched_to(a, b, p@, false) && b.last_search == a.last_search
            } else {
                b == a
            },
            None => b == a,
        }
    }

    /// Moves to the previous occurrence of the stored pattern, without
    /// wrapping around; an empty or absent pattern does nothing.
    pub fn search_prev(&mut self)
        requires
            old(self).wf(),
        ensures
            final(self).wf(),
            Self::spec_search_prev(*old(self), *final(self)),
    {
        if let Some(pat) = &self.last_search {
            if pat.len() > 0 {
                let (y, x) = find_backward(&self.buffer, pat, self.cursor_y, self.cursor_x);
                self.cursor_y = y;
                self.cursor_x = x;
                self.dirty = true;
            }
        }
    }
}

} // verus!

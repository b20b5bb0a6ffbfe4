//! Line- and character-level mutation primitives of the text buffer.
//!
//! Every operation is stated over the mathematical model of the document — a
//! sequence of character sequences, obtained through `deep_view()` — and
//! preserves the cursor invariant: the cursor always points at an existing
//! line, at a column no greater than that line's length.

use vstd::prelude::*;
use vstd::pervasive::VecAdditionalExecFns;
use crate::functions::{cursor_wf, doc_wf};

verus! {

/// A defensive failure: an operation was handed a column beyond the end of
/// its line. Under the cursor invariant this never happens.
#[derive(Clone, Copy, Debug, PartialEq, Eq, Structural)]
pub enum EditorError {
    IndexOutOfRange,
}

/// The document after a character is inserted at `col` in line `line`.
pub open spec fn insert_char_spec(lines: Seq<Seq<char>>, line: int, col: int, c: char) -> Seq<
    Seq<char>,
> {
    lines.update(line, lines[line].insert(col, c))
}

/// The document after the character before `col` in line `line` is removed.
pub open spec fn remove_before_spec(lines: Seq<Seq<char>>, line: int, col: int) -> Seq<Seq<char>> {
    lines.update(line, lines[line].remove(col - 1))
}

/// The document after line `line` is merged onto the end of the line above
/// it and removed.
pub open spec fn join_lines_spec(lines: Seq<Seq<char>>, line: int) -> Seq<Seq<char>> {
    lines.update(line - 1, lines[line - 1] + lines[line]).remove(line)
}

/// The document after line `line` is split at `col`: the text from `col`
/// onward moves to a new line inserted directly below.
pub open spec fn split_at_spec(lines: Seq<Seq<char>>, line: int, col: int) -> Seq<Seq<char>> {
    lines.update(line, lines[line].subrange(0, col)).insert(
        line + 1,
        lines[line].subrange(col, lines[line].len() as int),
    )
}

/// The document after two adjacent lines exchange their contents.
pub open spec fn swap_lines_spec(lines: Seq<Seq<char>>, a: int, b: int) -> Seq<Seq<char>> {
    lines.update(a, lines[b]).update(b, lines[a])
}

/// The four-space indent that a tab key inserts.
pub open spec fn tab_text() -> Seq<char> {
    seq![' ', ' ', ' ', ' ']
}

/// The document after a four-space indent is inserted at `col` in `line`.
pub open spec fn insert_tab_spec(lines: Seq<Seq<char>>, line: int, col: int) -> Seq<Seq<char>> {
    lines.update(
        line,
        lines[line].subrange(0, col) + tab_text() + lines[line].subrange(
            col,
            lines[line].len() as int,
        ),
    )
}

/// Splitting a line and then deleting backward at the resulting join point
/// restores the original document, whatever the split column was; the join
/// point sits at the end of the shortened line, so the restored cursor
/// column is the split column.
pub proof fn lemma_split_then_delete_restores(lines: Seq<Seq<char>>, line: int, col: int)
    requires
        0 <= line < lines.len(),
        0 <= col <= lines[line].len(),
    ensures
        join_lines_spec(split_at_spec(lines, line, col), line + 1) == lines,
        split_at_spec(lines, line, col)[line].len() == col,
{
    let split = split_at_spec(lines, line, col);
    assert(split[line] + split[line + 1] =~= lines[line]);
    assert(join_lines_spec(split, line + 1) =~~= lines);
}

/// An exact copy of one character vector.
pub(crate) fn clone_line(v: &Vec<char>) -> (r: Vec<char>)
    ensures
        r@ == v@,
{
    let r = v.clone();
    assert(r@ =~= v@);
    r
}

/// Inserts `c` at column `col` of line `line`. A column beyond the end of
/// the line is refused with `IndexOutOfRange` and leaves the document
/// untouched; the cursor invariant rules that case out for normal callers.
pub fn insert_char(lines: &mut Vec<Vec<char>>, line: usize, col: usize, c: char) -> (r: Result<
    (),
    EditorError,
>)
    requires
        line < old(lines)@.len(),
        old(lines)@[line as int]@.len() + 1 <= usize::MAX,
    ensures
        col <= old(lines).deep_view()[line as int].len() ==> r is Ok && final(lines).deep_view()
            == insert_char_spec(old(lines).deep_view(), line as int, col as int, c),
        col > old(lines).deep_view()[line as int].len() ==> (r matches Err(
            EditorError::IndexOutOfRange,
        )) && final(lines)@ == old(lines)@,
{
    if col > lines[line].len() {
        return Err(EditorError::IndexOutOfRange);
    }
    let mut ln = clone_line(&lines[line]);
    ln.insert(col, c);
    lines.set(line, ln);
    assert(lines.deep_view() =~~= insert_char_spec(old(lines).deep_view(), line as int, col as int, c));
    Ok(())
}

/// Removes the character before the cursor. At column 0 the current line is
/// merged into the previous one and the cursor lands on the join point (the
/// previous line's original length); at the very start of the document
/// nothing happens and `changed` is false.
pub fn delete_before(
    lines: &mut Vec<Vec<char>>,
    current_line: &mut usize,
    current_char: &mut usize,
) -> (changed: bool)
    requires
        doc_wf(old(lines).deep_view()),
        cursor_wf(old(lines).deep_view(), *old(current_line) as int, *old(current_char) as int),
        *old(current_line) >= 1 ==> old(lines).deep_view()[*old(current_line) - 1].len() + old(
            lines,
        ).deep_view()[*old(current_line) as int].len() <= usize::MAX,
    ensures
        changed == (*old(current_char) > 0 || *old(current_line) > 0),
        *old(current_char) > 0 ==> {
            &&& final(lines).deep_view() == remove_before_spec(
                old(lines).deep_view(),
                *old(current_line) as int,
                *old(current_char) as int,
            )
            &&& *final(current_line) == *old(current_line)
            &&& *final(current_char) == *old(current_char) - 1
        },
        *old(current_char) == 0 && *old(current_line) > 0 ==> {
            &&& final(lines).deep_view() == join_lines_spec(
                old(lines).deep_view(),
                *old(current_line) as int,
            )
            &&& *final(current_line) == *old(current_line) - 1
            &&& *final(current_char) == old(lines).deep_view()[*old(current_line) - 1].len()
        },
        *old(current_char) == 0 && *old(current_line) == 0 ==> final(lines)@ == old(lines)@
            && *final(current_line) == 0 && *final(current_char) == 0,
        doc_wf(final(lines).deep_view()),
        cursor_wf(final(lines).deep_view(), *final(current_line) as int, *final(current_char) as int),
{
    if *current_char == 0 {
        if *current_line == 0 {
            return false;
        }
        let mut prev = clone_line(&lines[*current_line - 1]);
        let join_col = prev.len();
        let mut tail = clone_line(&lines[*current_line]);
        prev.append(&mut tail);
        lines.set(*current_line - 1, prev);
        lines.remove(*current_line);
        *current_line -= 1;
        *current_char = join_col;
        assert(lines.deep_view() =~~= join_lines_spec(
            old(lines).deep_view(),
            *old(current_line) as int,
        ));
        true
    } else {
        let mut ln = clone_line(&lines[*current_line]);
        ln.remove(*current_char - 1);
        lines.set(*current_line, ln);
        *current_char -= 1;
        assert(lines.deep_view() =~~= remove_before_spec(
            old(lines).deep_view(),
            *old(current_line) as int,
            *old(current_char) as int,
        ));
        true
    }
}

/// Breaks the current line at the cursor: the text from the cursor onward
/// moves to a new line inserted directly below, and the cursor lands at the
/// start of that new line.
pub fn split_line_at(
    lines: &mut Vec<Vec<char>>,
    current_line: &mut usize,
    current_char: &mut usize,
)
    requires
        doc_wf(old(lines).deep_view()),
        cursor_wf(old(lines).deep_view(), *old(current_line) as int, *old(current_char) as int),
        old(lines)@.len() + 1 <= usize::MAX,
    ensures
        final(lines).deep_view() == split_at_spec(
            old(lines).deep_view(),
            *old(current_line) as int,
            *old(current_char) as int,
        ),
        *final(current_line) == *old(current_line) + 1,
        *final(current_char) == 0,
        doc_wf(final(lines).deep_view()),
        cursor_wf(final(lines).deep_view(), *final(current_line) as int, *final(current_char) as int),
{
    let mut head = clone_line(&lines[*current_line]);
    let tail = head.split_off(*current_char);
    lines.set(*current_line, head);
    lines.insert(*current_line + 1, tail);
    *current_line += 1;
    *current_char = 0;
    assert(lines.deep_view() =~~= split_at_spec(
        old(lines).deep_view(),
        *old(current_line) as int,
        *old(current_char) as int,
    ));
}

/// Exchanges the contents of line `line` and the line above it; at the top
/// of the buffer nothing happens.
pub fn swap_with_previous(lines: &mut Vec<Vec<char>>, line: usize) -> (changed: bool)
    requires
        line < old(lines)@.len(),
    ensures
        changed == (line > 0),
        changed ==> final(lines).deep_view() == swap_lines_spec(
            old(lines).deep_view(),
            line - 1,
            line as int,
        ),
        !changed ==> final(lines)@ == old(lines)@,
        final(lines).deep_view().len() == old(lines).deep_view().len(),
{
    if line == 0 {
        return false;
    }
    let upper = clone_line(&lines[line - 1]);
    let lower = clone_line(&lines[line]);
    lines.set(line - 1, lower);
    lines.set(line, upper);
    assert(lines.deep_view() =~~= swap_lines_spec(old(lines).deep_view(), line - 1, line as int));
    true
}

/// Exchanges the contents of line `line` and the line below it; at the
/// bottom of the buffer nothing happens.
pub fn swap_with_next(lines: &mut Vec<Vec<char>>, line: usize) -> (changed: bool)
    requires
        line < old(lines)@.len(),
    ensures
        changed == (line + 1 < old(lines)@.len()),
        changed ==> final(lines).deep_view() == swap_lines_spec(
            old(lines).deep_view(),
            line as int,
            line + 1,
        ),
        !changed ==> final(lines)@ == old(lines)@,
        final(lines).deep_view().len() == old(lines).deep_view().len(),
{
    if line >= lines.len() - 1 {
        return false;
    }
    let upper = clone_line(&lines[line]);
    let lower = clone_line(&lines[line + 1]);
    lines.set(line, lower);
    lines.set(line + 1, upper);
    assert(lines.deep_view() =~~= swap_lines_spec(old(lines).deep_view(), line as int, line + 1));
    true
}

/// Inserts a fixed four-space indent at the cursor position, as one
/// operation.
pub fn insert_tab(lines: &mut Vec<Vec<char>>, line: usize, col: usize)
    requires
        line < old(lines)@.len(),
        col <= old(lines).deep_view()[line as int].len(),
        old(lines)@[line as int]@.len() + 4 <= usize::MAX,
    ensures
        final(lines).deep_view() == insert_tab_spec(old(lines).deep_view(), line as int, col as int),
{
    let mut ln = clone_line(&lines[line]);
    ln.insert(col, ' ');
    ln.insert(col, ' ');
    ln.insert(col, ' ');
    ln.insert(col, ' ');
    lines.set(line, ln);
    assert(lines.deep_view()[line as int] =~~= insert_tab_spec(
        old(lines).deep_view(),
        line as int,
        col as int,
    )[line as int]);
    assert(lines.deep_view() =~~= insert_tab_spec(old(lines).deep_view(), line as int, col as int));
}

} // verus!

//! Cursor movement and viewport bookkeeping.
//!
//! The document is a vector of lines, each line a vector of characters; a
//! cursor is a line index plus a column offset, where the column may equal
//! the line length (meaning "after the last character"). All offsets count
//! characters, never encoded bytes.

use vstd::prelude::*;

verus! {

/// A document always holds at least one line.
pub open spec fn doc_wf(lines: Seq<Seq<char>>) -> bool {
    lines.len() >= 1
}

/// The cursor points at an existing line, and its column is at most that
/// line's length.
pub open spec fn cursor_wf(lines: Seq<Seq<char>>, line: int, col: int) -> bool {
    &&& 0 <= line < lines.len()
    &&& 0 <= col <= lines[line].len()
}

pub open spec fn clamp_spec(num: int, low: int, high: int) -> int {
    if num > high {
        high
    } else if num < low {
        low
    } else {
        num
    }
}

/// Bounds a value into `[low, high]`, preferring `high` when the interval is
/// empty, exactly as `clamp_spec` says.
pub fn clamp(num: usize, low: usize, high: usize) -> (r: usize)
    ensures
        r == clamp_spec(num as int, low as int, high as int),
{
    if num > high {
        high
    } else if num < low {
        low
    } else {
        num
    }
}

/// Rows of the terminal that remain for text once the frame (header, status
/// bar and menu rows) is drawn.
pub fn calculate_editor_height(current_height: &usize) -> (r: usize)
    requires
        *current_height >= 4,
    ensures
        r == *current_height - 4,
{
    *current_height - 4
}

/// Where the scroll offset lands after a recomputation: the cursor is pulled
/// into the window, with a two-row margin at the bottom and a one-row margin
/// at the top whenever the window is tall enough to afford one.
pub open spec fn recompute_scroll_spec(line: int, scroll: int, height: int) -> int {
    if line + 2 > scroll + height {
        if height >= 2 {
            line + 2 - height
        } else {
            line
        }
    } else if line == 0 {
        0
    } else if line < scroll + 1 {
        if height >= 2 {
            line - 1
        } else {
            line
        }
    } else {
        scroll
    }
}

/// Recomputes the scroll offset so the cursor row stays inside the visible
/// window. Whatever the previous offset was, afterwards
/// `scroll <= line < scroll + height` holds.
pub fn jump_to_editor_point(
    current_line: &mut usize,
    current_scroll: &mut usize,
    editor_height: &usize,
)
    requires
        *editor_height >= 1,
        *old(current_line) + 2 <= usize::MAX,
        *old(current_scroll) + *editor_height <= usize::MAX,
    ensures
        *final(current_line) == *old(current_line),
        *final(current_scroll) == recompute_scroll_spec(
            *old(current_line) as int,
            *old(current_scroll) as int,
            *editor_height as int,
        ),
        *final(current_scroll) <= *old(current_line) < *final(current_scroll) + *editor_height,
{
    let line = *current_line;
    let h = *editor_height;
    if line + 2 > *current_scroll + h {
        if h >= 2 {
            *current_scroll = line + 2 - h;
        } else {
            *current_scroll = line;
        }
    } else if line == 0 {
        *current_scroll = 0;
    } else if line < *current_scroll + 1 {
        if h >= 2 {
            *current_scroll = line - 1;
        } else {
            *current_scroll = line;
        }
    }
}

/// Word movement treats a space as the only separator; a word is a maximal
/// run of non-space characters.
pub open spec fn is_space(c: char) -> bool {
    c == ' '
}

/// First position at or past `i` that is not inside the non-space run
/// starting at `i`.
pub open spec fn skip_word(l: Seq<char>, i: int) -> int
    decreases l.len() - i when 0 <= i <= l.len()
{
    if i < l.len() && !is_space(l[i]) {
        skip_word(l, i + 1)
    } else {
        i
    }
}

/// First position at or past `i` that does not hold a space.
pub open spec fn skip_spaces(l: Seq<char>, i: int) -> int
    decreases l.len() - i when 0 <= i <= l.len()
{
    if i < l.len() && is_space(l[i]) {
        skip_spaces(l, i + 1)
    } else {
        i
    }
}

/// Scanning backward from `i`, the position of the first non-space at or
/// below `i` (or 0).
pub open spec fn back_skip_spaces(l: Seq<char>, i: int) -> int
    decreases i when i >= 0
{
    if i > 0 && is_space(l[i]) {
        back_skip_spaces(l, i - 1)
    } else {
        i
    }
}

/// Scanning backward from `i`, the start of the word that `i` is in.
pub open spec fn back_to_word_start(l: Seq<char>, i: int) -> int
    decreases i when i >= 0
{
    if i > 0 && !is_space(l[i - 1]) {
        back_to_word_start(l, i - 1)
    } else {
        i
    }
}

/// The column after a rightward move: one step, or — for a whole-word move —
/// past the rest of the current word and the following spaces, landing on
/// the next word boundary or the end of the line. At the end of the line the
/// move is a no-op.
pub open spec fn move_right_spec(l: Seq<char>, col: int, whole_word: bool) -> int {
    if col >= l.len() {
        col
    } else if !whole_word {
        col + 1
    } else {
        skip_spaces(l, skip_word(l, col + 1))
    }
}

/// The column after a leftward move: one step back, or — for a whole-word
/// move — back over any spaces and then to the start of the word reached.
/// At column 0 the move is a no-op.
pub open spec fn move_left_spec(l: Seq<char>, col: int, whole_word: bool) -> int {
    if col <= 0 {
        0
    } else if !whole_word {
        col - 1
    } else {
        back_to_word_start(l, back_skip_spaces(l, col - 1))
    }
}

/// Moving right and then left (both without whole-word) returns the column
/// to its original value; the exception is the end-of-line boundary, where
/// moving right is already a no-op.
pub proof fn lemma_move_right_then_left(l: Seq<char>, col: int)
    requires
        0 <= col <= l.len(),
    ensures
        col < l.len() ==> move_left_spec(l, move_right_spec(l, col, false), false) == col,
        col == l.len() ==> move_right_spec(l, col, false) == col,
{
}

/// Advances the cursor column within the current line; reports whether
/// anything changed (at the end of the line nothing does).
pub fn move_right(
    current_char: &mut usize,
    current_line: &usize,
    lines: &Vec<Vec<char>>,
    whole_word: bool,
) -> (changed: bool)
    requires
        *current_line < lines@.len(),
        *old(current_char) <= lines@[*current_line as int]@.len(),
    ensures
        *final(current_char) == move_right_spec(
            lines@[*current_line as int]@,
            *old(current_char) as int,
            whole_word,
        ),
        *final(current_char) <= lines@[*current_line as int]@.len(),
        changed == (*old(current_char) < lines@[*current_line as int]@.len()),
{
    let ghost l = lines@[*current_line as int]@;
    let line_len = lines[*current_line].len();
    if *current_char >= line_len {
        return false;
    }

    *current_char += 1;

    if whole_word {
        let ghost start = *current_char as int;
        while *current_char < line_len && lines[*current_line][*current_char] != ' '
            invariant
                *current_line < lines@.len(),
                l == lines@[*current_line as int]@,
                line_len == l.len(),
                start <= *current_char <= line_len,
                skip_word(l, start) == skip_word(l, *current_char as int),
            decreases line_len - *current_char,
        {
            *current_char += 1;
        }
        assert(skip_word(l, start) == *current_char as int);
        let ghost mid = *current_char as int;
        while *current_char < line_len && lines[*current_line][*current_char] == ' '
            invariant
                *current_line < lines@.len(),
                l == lines@[*current_line as int]@,
                line_len == l.len(),
                mid <= *current_char <= line_len,
                skip_spaces(l, mid) == skip_spaces(l, *current_char as int),
            decreases line_len - *current_char,
        {
            *current_char += 1;
        }
        assert(skip_spaces(l, mid) == *current_char as int);
    }
    true
}

/// Moves the cursor column back within the current line; reports whether
/// anything changed (at column 0 nothing does).
pub fn move_left(
    current_char: &mut usize,
    current_line: &usize,
    lines: &Vec<Vec<char>>,
    whole_word: bool,
) -> (changed: bool)
    requires
        *current_line < lines@.len(),
        *old(current_char) <= lines@[*current_line as int]@.len(),
    ensures
        *final(current_char) == move_left_spec(
            lines@[*current_line as int]@,
            *old(current_char) as int,
            whole_word,
        ),
        *final(current_char) <= lines@[*current_line as int]@.len(),
        changed == (*old(current_char) > 0),
{
    let ghost l = lines@[*current_line as int]@;
    if *current_char == 0 {
        return false;
    }

    *current_char -= 1;

    if whole_word {
        let ghost start = *current_char as int;
        while *current_char > 0 && lines[*current_line][*current_char] == ' '
            invariant
                *current_line < lines@.len(),
                l == lines@[*current_line as int]@,
                start < l.len(),
                0 <= *current_char <= start,
                back_skip_spaces(l, start) == back_skip_spaces(l, *current_char as int),
            decreases *current_char,
        {
            *current_char -= 1;
        }
        assert(back_skip_spaces(l, start) == *current_char as int);
        let ghost mid = *current_char as int;
        while *current_char > 0 && lines[*current_line][*current_char - 1] != ' '
            invariant
                *current_line < lines@.len(),
                l == lines@[*current_line as int]@,
                mid < l.len(),
                0 <= *current_char <= mid,
                back_to_word_start(l, mid) == back_to_word_start(l, *current_char as int),
            decreases *current_char,
        {
            *current_char -= 1;
        }
        assert(back_to_word_start(l, mid) == *current_char as int);
    }
    true
}

/// The column after the cursor lands on a (possibly shorter) other line:
/// clamped to that line's length.
pub open spec fn landed_col_spec(l: Seq<char>, col: int) -> int {
    if col >= l.len() {
        l.len() as int
    } else {
        col
    }
}

/// Moves the cursor down one line, keeps the cursor row visible, and clamps
/// the column to the new line's length. At the last line nothing changes and
/// `changed` is false, so the caller can skip the redraw.
pub fn move_down(
    current_line: &mut usize,
    current_char: &mut usize,
    current_scroll: &mut usize,
    editor_height: &usize,
    lines: &Vec<Vec<char>>,
) -> (changed: bool)
    requires
        doc_wf(lines.deep_view()),
        cursor_wf(lines.deep_view(), *old(current_line) as int, *old(current_char) as int),
        *editor_height >= 1,
        lines@.len() + 1 <= usize::MAX,
        *old(current_scroll) + *editor_height <= usize::MAX,
    ensures
        changed == (*old(current_line) + 1 < lines@.len()),
        !changed ==> *final(current_line) == *old(current_line)
            && *final(current_char) == *old(current_char)
            && *final(current_scroll) == *old(current_scroll),
        changed ==> {
            &&& *final(current_line) == *old(current_line) + 1
            &&& *final(current_char) == landed_col_spec(
                lines.deep_view()[*final(current_line) as int],
                *old(current_char) as int,
            )
            &&& *final(current_scroll) == recompute_scroll_spec(
                *final(current_line) as int,
                *old(current_scroll) as int,
                *editor_height as int,
            )
        },
        cursor_wf(lines.deep_view(), *final(current_line) as int, *final(current_char) as int),
{
    if *current_line == lines.len() - 1 {
        return false;
    }

    *current_line += 1;

    jump_to_editor_point(current_line, current_scroll, editor_height);

    if *current_char >= lines[*current_line].len() {
        *current_char = lines[*current_line].len();
    }
    true
}

/// The scroll offset after an upward move: the window first follows the
/// cursor to its row if the cursor would leave through the top, then the
/// margins are recomputed.
pub open spec fn move_up_scroll_spec(line2: int, scroll: int, height: int) -> int {
    recompute_scroll_spec(line2, if line2 <= scroll { line2 } else { scroll }, height)
}

/// Moves the cursor up one line, keeps the cursor row visible, and clamps
/// the column to the new line's length. At the first line only the scroll
/// offset is reset, and `changed` is false.
pub fn move_up(
    current_line: &mut usize,
    current_char: &mut usize,
    current_scroll: &mut usize,
    editor_height: &usize,
    lines: &Vec<Vec<char>>,
) -> (changed: bool)
    requires
        doc_wf(lines.deep_view()),
        cursor_wf(lines.deep_view(), *old(current_line) as int, *old(current_char) as int),
        *editor_height >= 1,
        lines@.len() + 1 <= usize::MAX,
        *old(current_scroll) + *editor_height <= usize::MAX,
    ensures
        changed == (*old(current_line) > 0),
        !changed ==> *final(current_line) == *old(current_line)
            && *final(current_char) == *old(current_char)
            && *final(current_scroll) == 0,
        changed ==> {
            &&& *final(current_line) == *old(current_line) - 1
            &&& *final(current_char) == landed_col_spec(
                lines.deep_view()[*final(current_line) as int],
                *old(current_char) as int,
            )
            &&& *final(current_scroll) == move_up_scroll_spec(
                *final(current_line) as int,
                *old(current_scroll) as int,
                *editor_height as int,
            )
        },
        cursor_wf(lines.deep_view(), *final(current_line) as int, *final(current_char) as int),
{
    if *current_line == 0 {
        *current_scroll = 0;
        return false;
    }

    *current_line -= 1;

    if *current_line <= *current_scroll {
        *current_scroll = *current_line;
    }

    if *current_char >= lines[*current_line].len() {
        *current_char = lines[*current_line].len();
    }
    jump_to_editor_point(current_line, current_scroll, editor_height);
    true
}

} // verus!

//! The text of the status line: scroll offset, cursor line and column,
//! rendered in decimal, followed by the fixed indent and file-type note.
//! Drawing the surrounding frame is the renderer's job; this module only
//! produces the characters.

use vstd::prelude::*;

verus! {

/// The decimal digit character for `d`.
pub open spec fn digit_char(d: int) -> char {
    if d == 0 {
        '0'
    } else if d == 1 {
        '1'
    } else if d == 2 {
        '2'
    } else if d == 3 {
        '3'
    } else if d == 4 {
        '4'
    } else if d == 5 {
        '5'
    } else if d == 6 {
        '6'
    } else if d == 7 {
        '7'
    } else if d == 8 {
        '8'
    } else {
        '9'
    }
}

/// The usual decimal rendering of `n`: most significant digit first, no
/// leading zeroes (and a single `'0'` for zero itself).
pub open spec fn decimal_of(n: int) -> Seq<char>
    decreases n when n >= 0
{
    if n < 10 {
        seq![digit_char(n)]
    } else {
        decimal_of(n / 10).push(digit_char(n % 10))
    }
}

fn digit_to_char(d: usize) -> (r: char)
    requires
        d < 10,
    ensures
        r == digit_char(d as int),
{
    if d == 0 {
        '0'
    } else if d == 1 {
        '1'
    } else if d == 2 {
        '2'
    } else if d == 3 {
        '3'
    } else if d == 4 {
        '4'
    } else if d == 5 {
        '5'
    } else if d == 6 {
        '6'
    } else if d == 7 {
        '7'
    } else if d == 8 {
        '8'
    } else {
        '9'
    }
}

/// Renders `n` in decimal, exactly as `decimal_of` says.
pub fn decimal_chars(n: usize) -> (r: Vec<char>)
    ensures
        r@ == decimal_of(n as int),
{
    let mut rev: Vec<char> = Vec::new();
    let mut m: usize = n;
    proof {
        assert(decimal_of(m as int) + rev@.reverse() =~= decimal_of(n as int));
    }
    while m >= 10
        invariant
            decimal_of(m as int) + rev@.reverse() == decimal_of(n as int),
        decreases m,
    {
        let d = m % 10;
        rev.push(digit_to_char(d));
        proof {
            let ghost prev = rev@.drop_last();
            assert(rev@.reverse() =~= seq![digit_char(d as int)] + prev.reverse());
            assert(decimal_of((m / 10) as int) + rev@.reverse() =~= decimal_of(m as int)
                + prev.reverse());
        }
        m = m / 10;
    }
    rev.push(digit_to_char(m));
    proof {
        let ghost prev = rev@.drop_last();
        assert(rev@.reverse() =~= seq![digit_char(m as int)] + prev.reverse());
        assert(rev@.reverse() =~= decimal_of(n as int));
    }
    let mut r: Vec<char> = Vec::new();
    let mut i = rev.len();
    while i > 0
        invariant
            i <= rev@.len(),
            r@ == rev@.subrange(i as int, rev@.len() as int).reverse(),
        decreases i,
    {
        i -= 1;
        r.push(rev[i]);
        proof {
            assert(r@ =~= rev@.subrange(i as int, rev@.len() as int).reverse());
        }
    }
    proof {
        assert(rev@.subrange(0, rev@.len() as int) =~= rev@);
    }
    r
}

/// The fixed pieces of the status line.
pub open spec fn info_scroll_label() -> Seq<char> {
    seq!['S', 'c', ':', ' ']
}

pub open spec fn info_line_label() -> Seq<char> {
    seq![' ', 'L', 'n', ':', ' ']
}

pub open spec fn info_char_label() -> Seq<char> {
    seq![' ', 'C', 'h', ':', ' ']
}

pub open spec fn info_tail() -> Seq<char> {
    seq![' ', '│', ' ', 'S', 'p', 'a', 'c', 'e', 's', ':', ' ', '4', ' ', '│', ' ', 'P', 'l', 'a',
        'i', 'n', ' ', 'T', 'e', 'x', 't', ' ']
}

/// The whole status line for a given scroll offset and cursor position.
pub open spec fn line_info_spec(line: int, ch: int, scroll: int) -> Seq<char> {
    info_scroll_label() + decimal_of(scroll) + info_line_label() + decimal_of(line)
        + info_char_label() + decimal_of(ch) + info_tail()
}

/// Builds the status line text, exactly as `line_info_spec` says.
#[verifier::rlimit(100)]
pub fn generate_line_info(current_line: &usize, current_char: &usize, current_scroll: &usize) -> (r:
    Vec<char>)
    ensures
        r@ == line_info_spec(*current_line as int, *current_char as int, *current_scroll as int),
{
    let mut r: Vec<char> = Vec::new();
    r.push('S');
    r.push('c');
    r.push(':');
    r.push(' ');
    let mut scroll_digits = decimal_chars(*current_scroll);
    r.append(&mut scroll_digits);
    r.push(' ');
    r.push('L');
    r.push('n');
    r.push(':');
    r.push(' ');
    let mut line_digits = decimal_chars(*current_line);
    r.append(&mut line_digits);
    r.push(' ');
    r.push('C');
    r.push('h');
    r.push(':');
    r.push(' ');
    let mut char_digits = decimal_chars(*current_char);
    r.append(&mut char_digits);
    r.push(' ');
    r.push('│');
    r.push(' ');
    r.push('S');
    r.push('p');
    r.push('a');
    r.push('c');
    r.push('e');
    r.push('s');
    r.push(':');
    r.push(' ');
    r.push('4');
    r.push(' ');
    r.push('│');
    r.push(' ');
    r.push('P');
    r.push('l');
    r.push('a');
    r.push('i');
    r.push('n');
    r.push(' ');
    r.push('T');
    r.push('e');
    r.push('x');
    r.push('t');
    r.push(' ');
    proof {
        assert(r@ =~= line_info_spec(
            *current_line as int,
            *current_char as int,
            *current_scroll as int,
        ));
    }
    r
}

} // verus!

use vstd::prelude::*;

use crate::error::{ErrorKind, WinfetchError, WinfetchResult};
use crate::text::string_from_chars;

verus! {

/// The start of an ANSI escape sequence.
pub const ANSI_ESCAPE_SEQUENCE: &'static str = "\x1B[";

/// The escape character that starts an ANSI sequence.
pub open spec fn esc() -> char {
    '\x1B'
}

/// A filled cell of the bar in the colour of code `a b`, then a reset.
pub open spec fn colored_cell(a: char, b: char) -> Seq<char> {
    seq![esc(), '[', a, b, 'm', '\u{25A0}', esc(), '[', '0', 'm']
}

/// The `i`-th filled cell (from 1): green up to 6, yellow up to 8, red above.
pub open spec fn cell(i: int) -> Seq<char> {
    if i <= 6 {
        colored_cell('3', '2')
    } else if i <= 8 {
        colored_cell('9', '3')
    } else {
        colored_cell('9', '1')
    }
}

/// The first `k` filled cells.
pub open spec fn filled_cells(k: nat) -> Seq<char>
    decreases k,
{
    if k == 0 {
        Seq::empty()
    } else {
        filled_cells((k - 1) as nat) + cell(k as int)
    }
}

/// The bar for `percentage` in 0..=100: one cell per whole ten percent,
/// the rest of the ten cells as dashes, between brackets.
pub open spec fn percentage_bar(percentage: int) -> Seq<char> {
    seq!['[', ' '] + filled_cells((percentage / 10) as nat) + Seq::new(
        (10 - percentage / 10) as nat,
        |i: int| '-',
    ) + seq![' ', ']']
}

fn push_cell(out: &mut Vec<char>, i: i32)
    ensures
        final(out)@ == old(out)@ + cell(i as int),
{
    let (a, b) = if i <= 6 {
        ('3', '2')
    } else if i <= 8 {
        ('9', '3')
    } else {
        ('9', '1')
    };
    out.push('\x1B');
    out.push('[');
    out.push(a);
    out.push(b);
    out.push('m');
    out.push('\u{25A0}');
    out.push('\x1B');
    out.push('[');
    out.push('0');
    out.push('m');
    assert(final(out)@ =~= old(out)@ + cell(i as int));
}

/// A ten-cell bar for a percentage; a percentage outside 0..=100 is an
/// input error, never clamped.
pub fn GeneratePercentageBar(percentage: i32) -> (r: WinfetchResult<String>)
    ensures
        0 <= percentage <= 100 ==> r is Ok && r->Ok_0@ == percentage_bar(percentage as int),
        !(0 <= percentage <= 100) ==> r is Err && r->Err_0.0 == ErrorKind::InvalidInput,
{
    if percentage < 0 || percentage > 100 {
        return Err(WinfetchError::new(
            ErrorKind::InvalidInput,
            "invalid percentage value; expected a value between 0 and 100 (inclusive)",
        ));
    }
    let squares = percentage / 10;
    let mut bar: Vec<char> = Vec::new();
    bar.push('[');
    bar.push(' ');
    let mut i: i32 = 1;
    while i <= squares
        invariant
            0 <= squares <= 10,
            1 <= i <= squares + 1,
            bar@ == seq!['[', ' '] + filled_cells((i - 1) as nat),
        decreases squares + 1 - i,
    {
        push_cell(&mut bar, i);
        assert(bar@ =~= seq!['[', ' '] + filled_cells(i as nat));
        i = i + 1;
    }
    let mut j: i32 = squares;
    while j < 10
        invariant
            0 <= squares <= j <= 10,
            bar@ == seq!['[', ' '] + filled_cells(squares as nat) + Seq::new(
                (j - squares) as nat,
                |k: int| '-',
            ),
        decreases 10 - j,
    {
        bar.push('-');
        j = j + 1;
        assert(bar@ =~= seq!['[', ' '] + filled_cells(squares as nat) + Seq::new(
            (j - squares) as nat,
            |k: int| '-',
        ));
    }
    bar.push(' ');
    bar.push(']');
    assert(bar@ =~= percentage_bar(percentage as int));
    Ok(string_from_chars(&bar))
}

} // verus!

use vstd::prelude::*;

use crate::grid::Setup;

verus! {

#[verifier::external_type_specification]
#[verifier::external_body]
pub struct ExBuilder(string_builder::Builder);

/// The text a builder has accumulated so far.
pub uninterp spec fn builder_text(b: string_builder::Builder) -> Seq<char>;

/// The builder's byte buffer is exactly the UTF-8 encoding of its text.
/// This holds of every builder that only strings and characters were
/// appended to, and it is what makes `string` succeed.
pub uninterp spec fn builder_wf(b: string_builder::Builder) -> bool;

/// The text of a builder that holds nothing.
pub open spec fn no_text() -> Seq<char> {
    Seq::empty()
}

/// Relies on string_builder::Builder::default: a fresh builder holds
/// nothing, and an empty buffer is valid UTF-8.
#[verifier::external_body]
fn builder_new() -> (b: string_builder::Builder)
    ensures
        builder_text(b) == no_text(),
        builder_wf(b),
{
    string_builder::Builder::default()
}

/// Relies on string_builder::Builder::append for &str: the string's bytes
/// are appended, extending the accumulated text by the string's text. A
/// string's bytes are valid UTF-8, so a valid buffer stays valid.
#[verifier::external_body]
fn builder_append_str(b: &mut string_builder::Builder, s: &str)
    ensures
        builder_text(*final(b)) == builder_text(*old(b)) + s@,
        builder_wf(*old(b)) ==> builder_wf(*final(b)),
{
    b.append(s)
}

/// Relies on string_builder::Builder::append for char: the character's
/// UTF-8 encoding is appended, extending the accumulated text by the
/// character and keeping a valid buffer valid.
#[verifier::external_body]
fn builder_append_char(b: &mut string_builder::Builder, c: char)
    ensures
        builder_text(*final(b)) == builder_text(*old(b)).push(c),
        builder_wf(*old(b)) ==> builder_wf(*final(b)),
{
    b.append(c)
}

/// Relies on string_builder::Builder::string: decoding a valid UTF-8
/// buffer succeeds and returns exactly the accumulated text.
#[verifier::external_body]
fn builder_string(b: string_builder::Builder) -> (r: Option<String>)
    ensures
        builder_wf(b) ==> r is Some,
        r matches Some(out) ==> out@ == builder_text(b),
{
    b.string().ok()
}

/// The character a cell renders as: a mark when occupied, a blank otherwise.
pub open spec fn cell_char(v: u8) -> char {
    if v > 0 {
        '#'
    } else {
        ' '
    }
}

/// The decimal digit character for a row index 0..=9.
pub open spec fn digit_char(i: int) -> char {
    ((i + 48) as u8) as char
}

/// The rendered characters of the first n cells of row i.
pub open spec fn row_cells_text(s: Setup, i: int, n: int) -> Seq<char> {
    Seq::new(n as nat, |j: int| cell_char(s[i][j]))
}

/// The rendered line for row i: a line break, the row number, the cells.
pub open spec fn row_text(s: Setup, i: int) -> Seq<char> {
    seq!['\n', digit_char(i)] + row_cells_text(s, i, 10)
}

/// The rendered lines of the first n rows.
pub open spec fn rows_text_upto(s: Setup, n: int) -> Seq<char>
    decreases n,
{
    if n <= 0 {
        Seq::empty()
    } else {
        rows_text_upto(s, n - 1) + row_text(s, n - 1)
    }
}

/// The whole rendered board: a column-number header, then one line per
/// row, occupied cells marked.
pub open spec fn board_text(s: Setup) -> Seq<char> {
    " 0123456789"@ + rows_text_upto(s, 10)
}

/// Render a board as text: a column-number header, then one line per row
/// with its occupied cells marked.
pub fn render_board(setup: &Setup) -> (r: Option<String>)
    ensures
        r matches Some(out) && out@ == board_text(*setup),
{
    let mut b = builder_new();
    builder_append_str(&mut b, " 0123456789");
    proof {
        assert(builder_text(b) =~= " 0123456789"@);
    }
    for i in 0..10
        invariant
            builder_wf(b),
            builder_text(b) == " 0123456789"@ + rows_text_upto(*setup, i as int),
    {
        builder_append_char(&mut b, '\n');
        let d: char = (48u8 + (i as u8)) as char;
        proof {
            assert(d == digit_char(i as int));
        }
        builder_append_char(&mut b, d);
        proof {
            assert(builder_text(b) =~= " 0123456789"@ + rows_text_upto(*setup, i as int) + seq![
                '\n',
                digit_char(i as int),
            ] + row_cells_text(*setup, i as int, 0));
        }
        for j in 0..10
            invariant
                0 <= i < 10,
                builder_wf(b),
                builder_text(b) == " 0123456789"@ + rows_text_upto(*setup, i as int) + seq![
                    '\n',
                    digit_char(i as int),
                ] + row_cells_text(*setup, i as int, j as int),
        {
            if setup[i][j] > 0 {
                builder_append_char(&mut b, '#');
            } else {
                builder_append_char(&mut b, ' ');
            }
            proof {
                assert(builder_text(b) =~= " 0123456789"@ + rows_text_upto(*setup, i as int)
                    + seq!['\n', digit_char(i as int)] + row_cells_text(
                    *setup,
                    i as int,
                    j as int + 1,
                ));
            }
        }
        proof {
            assert(builder_text(b) =~= " 0123456789"@ + rows_text_upto(*setup, i as int + 1));
        }
    }
    proof {
        assert(board_text(*setup) == " 0123456789"@ + rows_text_upto(*setup, 10));
    }
    builder_string(b)
}

} // verus!

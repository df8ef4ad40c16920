//! The line-number gutter of the editor panel.
//!
//! The gutter shows one right-aligned line number per line of the edited
//! text, all padded to the width of the largest number, joined with
//! newlines. The text is counted the way the editor displays it: a final
//! newline opens one more (empty) line, and an empty buffer still shows
//! line one.

use vstd::prelude::*;

verus! {

/// Number of newline characters in `text`.
pub open spec fn newline_count(text: Seq<char>) -> nat
    decreases text.len(),
{
    if text.len() == 0 {
        0
    } else {
        newline_count(text.drop_last()) + (if text.last() == '\n' {
            1nat
        } else {
            0nat
        })
    }
}

/// Number of display lines of `text`: every newline opens one more line,
/// and even an empty text shows one.
pub open spec fn line_count(text: Seq<char>) -> nat {
    newline_count(text) + 1
}

/// The decimal digit characters of `n`, most significant first.
pub open spec fn dec_digits(n: nat) -> Seq<char>
    decreases n,
{
    if n < 10 {
        seq![digit_char(n % 10)]
    } else {
        dec_digits(n / 10).push(digit_char(n % 10))
    }
}

/// The character for a single decimal digit.
pub open spec fn digit_char(d: nat) -> char {
    if d == 0 {
        '0'
    } else if d == 1 {
        '1'
    } else if d == 2 {
        '2'
    } else if d == 3 {
        '3'
    } else if d == 4 {
        '4'
    } else if d == 5 {
        '5'
    } else if d == 6 {
        '6'
    } else if d == 7 {
        '7'
    } else if d == 8 {
        '8'
    } else {
        '9'
    }
}

/// `k` space characters.
pub open spec fn spaces(k: nat) -> Seq<char>
    decreases k,
{
    if k == 0 {
        Seq::empty()
    } else {
        spaces((k - 1) as nat).push(' ')
    }
}

/// Line number `i` padded with spaces on the left up to `width`
/// characters; a number already wider than `width` is not cut.
pub open spec fn padded_number(i: nat, width: nat) -> Seq<char> {
    let digits = dec_digits(i);
    if digits.len() <= width {
        spaces((width - digits.len()) as nat) + digits
    } else {
        digits
    }
}

/// The gutter text for lines `1..=total`, each padded to `width`, joined
/// with newlines.
pub open spec fn gutter_lines(total: nat, width: nat) -> Seq<char>
    decreases total,
{
    if total == 0 {
        Seq::empty()
    } else if total == 1 {
        padded_number(1, width)
    } else {
        gutter_lines((total - 1) as nat, width) + seq!['\n'] + padded_number(total, width)
    }
}

/// The whole gutter for `text`: its line numbers, padded to the width of
/// the largest one.
pub open spec fn spec_gutter(text: Seq<char>) -> Seq<char> {
    gutter_lines(line_count(text), dec_digits(line_count(text)).len())
}

/// Count the display lines of `text`.
pub fn line_total(text: &str) -> (n: usize)
    requires
        text@.len() < usize::MAX,
    ensures
        n == line_count(text@),
{
    let len = text.unicode_len();
    let mut newlines: usize = 0;
    let mut i: usize = 0;
    while i < len
        invariant
            0 <= i <= len,
            len == text@.len() < usize::MAX,
            newlines == newline_count(text@.subrange(0, i as int)),
            newlines <= i,
        decreases len - i,
    {
        let c = text.get_char(i);
        proof {
            assert(text@.subrange(0, i + 1).drop_last() =~= text@.subrange(0, i as int));
            assert(text@.subrange(0, i + 1).last() == text@[i as int]);
        }
        if c == '\n' {
            newlines = newlines + 1;
        }
        i = i + 1;
    }
    proof {
        assert(text@.subrange(0, len as int) =~= text@);
    }
    newlines + 1
}

/// A one-character string for a decimal digit.
fn digit_str(d: usize) -> (s: String)
    requires
        d < 10,
    ensures
        s@ =~= seq![digit_char(d as nat)],
{
    proof {
        reveal_strlit("0");
        reveal_strlit("1");
        reveal_strlit("2");
        reveal_strlit("3");
        reveal_strlit("4");
        reveal_strlit("5");
        reveal_strlit("6");
        reveal_strlit("7");
        reveal_strlit("8");
        reveal_strlit("9");
    }
    if d == 0 {
        "0".to_owned()
    } else if d == 1 {
        "1".to_owned()
    } else if d == 2 {
        "2".to_owned()
    } else if d == 3 {
        "3".to_owned()
    } else if d == 4 {
        "4".to_owned()
    } else if d == 5 {
        "5".to_owned()
    } else if d == 6 {
        "6".to_owned()
    } else if d == 7 {
        "7".to_owned()
    } else if d == 8 {
        "8".to_owned()
    } else {
        "9".to_owned()
    }
}

/// Format `n` in decimal.
pub fn format_number(n: usize) -> (s: String)
    ensures
        s@ == dec_digits(n as nat),
    decreases n,
{
    if n < 10 {
        digit_str(n)
    } else {
        let mut s = format_number(n / 10);
        let last = digit_str(n % 10);
        s.append(last.as_str());
        proof {
            assert(s@ =~= dec_digits(n as nat));
        }
        s
    }
}

/// Append `k` spaces to `s`.
fn append_spaces(s: &mut String, k: usize)
    ensures
        final(s)@ == old(s)@ + spaces(k as nat),
{
    proof {
        reveal_strlit(" ");
    }
    let mut j: usize = 0;
    while j < k
        invariant
            0 <= j <= k,
            s@ =~= old(s)@ + spaces(j as nat),
            " "@ =~= seq![' '],
        decreases k - j,
    {
        s.append(" ");
        j = j + 1;
    }
    proof {
        assert(s@ =~= old(s)@ + spaces(k as nat));
    }
}

/// Append line number `i` to `s`, left-padded to `width` characters.
fn append_padded_number(s: &mut String, i: usize, width: usize)
    ensures
        final(s)@ == old(s)@ + padded_number(i as nat, width as nat),
{
    let label = format_number(i);
    let label_len = label.as_str().unicode_len();
    let pad = if width >= label_len {
        width - label_len
    } else {
        0
    };
    append_spaces(s, pad);
    s.append(label.as_str());
    proof {
        assert(s@ =~= old(s)@ + padded_number(i as nat, width as nat));
    }
}

/// Build the line-number gutter for `text`: one right-aligned number per
/// display line, padded to the width of the largest one, joined with
/// newlines.
pub fn numlines_text(text: &str) -> (s: String)
    requires
        text@.len() < usize::MAX,
    ensures
        s@ == spec_gutter(text@),
{
    proof {
        reveal_strlit("\n");
    }
    let total = line_total(text);
    let widest = format_number(total);
    let width = widest.as_str().unicode_len();

    let mut s = String::new();
    append_padded_number(&mut s, 1, width);
    proof {
        assert(s@ =~= gutter_lines(1, width as nat));
    }
    let mut i: usize = 1;
    while i < total
        invariant
            1 <= i <= total,
            total == line_count(text@),
            width == dec_digits(line_count(text@)).len(),
            s@ == gutter_lines(i as nat, width as nat),
            "\n"@ =~= seq!['\n'],
        decreases total - i,
    {
        i = i + 1;
        s.append("\n");
        append_padded_number(&mut s, i, width);
        proof {
            assert(s@ =~= gutter_lines(i as nat, width as nat));
        }
    }
    s
}

} // verus!

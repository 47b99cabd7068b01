//! The reporter: exact textual form of match lines and count lines.

use vstd::prelude::*;

verus! {

/// The decimal digit character for `d`.
pub open spec fn digit_char(d: int) -> char {
    if d == 0 {
        '0'
    } else if d == 1 {
        '1'
    } else if d == 2 {
        '2'
    } else if d == 3 {
        '3'
    } else if d == 4 {
        '4'
    } else if d == 5 {
        '5'
    } else if d == 6 {
        '6'
    } else if d == 7 {
        '7'
    } else if d == 8 {
        '8'
    } else {
        '9'
    }
}

/// The usual decimal rendering of a non-negative number, no leading zeros.
pub open spec fn decimal_seq(n: int) -> Seq<char>
    decreases n,
{
    if n < 10 {
        seq![digit_char(n)]
    } else {
        decimal_seq(n / 10).push(digit_char(n % 10))
    }
}

fn digit_str(d: usize) -> (r: &'static str)
    requires
        d < 10,
    ensures
        r@ == seq![digit_char(d as int)],
{
    let r: &'static str = if d == 0 {
        "0"
    } else if d == 1 {
        "1"
    } else if d == 2 {
        "2"
    } else if d == 3 {
        "3"
    } else if d == 4 {
        "4"
    } else if d == 5 {
        "5"
    } else if d == 6 {
        "6"
    } else if d == 7 {
        "7"
    } else if d == 8 {
        "8"
    } else {
        "9"
    };
    proof {
        reveal_strlit("0");
        reveal_strlit("1");
        reveal_strlit("2");
        reveal_strlit("3");
        reveal_strlit("4");
        reveal_strlit("5");
        reveal_strlit("6");
        reveal_strlit("7");
        reveal_strlit("8");
        reveal_strlit("9");
        assert(r@ =~= seq![digit_char(d as int)]);
    }
    r
}

/// Append the decimal rendering of `n` to `s`.
pub fn push_decimal(s: &mut String, n: usize)
    ensures
        final(s)@ == old(s)@ + decimal_seq(n as int),
    decreases n,
{
    let ghost start = s@;
    if n >= 10 {
        push_decimal(s, n / 10);
    }
    s.append(digit_str(n % 10));
    proof {
        assert(s@ =~= start + decimal_seq(n as int));
    }
}

use crate::engine::{MatchRecord, PathError};

/// A single colon, the separator of every prefixed output line.
pub open spec fn colon() -> Seq<char> {
    ":"@
}

/// The view of an optional path label.
pub open spec fn label_view(label: Option<&str>) -> Option<Seq<char>> {
    match label {
        Some(l) => Some(l@),
        None => None,
    }
}

/// `<label>:` before a path-bearing line; nothing before a bare one.
pub open spec fn label_prefix(label: Option<Seq<char>>) -> Seq<char> {
    match label {
        Some(l) => l + colon(),
        None => Seq::empty(),
    }
}

/// The exact text of one reported match line.
pub open spec fn match_line_spec(
    label: Option<Seq<char>>,
    show_line_number: bool,
    line_number: int,
    text: Seq<char>,
) -> Seq<char> {
    label_prefix(label) + (if show_line_number {
        decimal_seq(line_number) + colon()
    } else {
        Seq::empty()
    }) + text
}

/// The exact text of one count-mode line.
pub open spec fn count_line_spec(label: Option<Seq<char>>, count: int) -> Seq<char> {
    label_prefix(label) + decimal_seq(count)
}

/// Format one match record for output, original casing untouched.
pub fn format_match(label: Option<&str>, show_line_number: bool, rec: &MatchRecord) -> (r: String)
    ensures
        r@ == match_line_spec(
            label_view(label),
            show_line_number,
            rec.line_number as int,
            rec.text@,
        ),
{
    let mut s = String::new();
    if let Some(l) = label {
        s.append(l);
        s.append(":");
    }
    if show_line_number {
        push_decimal(&mut s, rec.line_number);
        s.append(":");
    }
    s.append(rec.text.as_str());
    proof {
        assert(s@ =~= match_line_spec(
            label_view(label),
            show_line_number,
            rec.line_number as int,
            rec.text@,
        ));
    }
    s
}

/// Format one count-mode line for output.
pub fn format_count(label: Option<&str>, count: usize) -> (r: String)
    ensures
        r@ == count_line_spec(label_view(label), count as int),
{
    let mut s = String::new();
    if let Some(l) = label {
        s.append(l);
        s.append(":");
    }
    push_decimal(&mut s, count);
    proof {
        assert(s@ =~= count_line_spec(label_view(label), count as int));
    }
    s
}

/// The reason text of a path-level failure.
pub open spec fn path_error_text(e: PathError) -> Seq<char> {
    match e {
        PathError::InvalidPath => "path is neither a regular file nor a directory"@,
        PathError::DirectoryNotRecursive => "is a directory; recursion is not enabled"@,
        PathError::OpenFailed => "cannot be opened for reading"@,
        PathError::ReadFailed => "reading failed partway through"@,
    }
}

/// The reason text, as a plain string.
pub fn path_error_message(e: &PathError) -> (r: &'static str)
    ensures
        r@ == path_error_text(*e),
{
    match e {
        PathError::InvalidPath => "path is neither a regular file nor a directory",
        PathError::DirectoryNotRecursive => "is a directory; recursion is not enabled",
        PathError::OpenFailed => "cannot be opened for reading",
        PathError::ReadFailed => "reading failed partway through",
    }
}

/// The exact text of one path-level diagnostic line: the path, then the reason.
pub open spec fn error_line_spec(path: Seq<char>, e: PathError) -> Seq<char> {
    path + ": "@ + path_error_text(e)
}

/// Format one path-level diagnostic line, destined for the error channel.
pub fn format_error(path: &str, e: &PathError) -> (r: String)
    ensures
        r@ == error_line_spec(path@, *e),
{
    let mut s = String::new();
    s.append(path);
    s.append(": ");
    s.append(path_error_message(e));
    proof {
        assert(s@ =~= error_line_spec(path@, *e));
    }
    s
}

} // verus!

use vstd::prelude::*;
use vstd::string::StringExecFns;

verus! {

/// The decimal digit character for one digit value.
pub open spec fn digit_char(d: nat) -> char
    recommends
        d < 10,
{
    if d == 0 {
        '0'
    } else if d == 1 {
        '1'
    } else if d == 2 {
        '2'
    } else if d == 3 {
        '3'
    } else if d == 4 {
        '4'
    } else if d == 5 {
        '5'
    } else if d == 6 {
        '6'
    } else if d == 7 {
        '7'
    } else if d == 8 {
        '8'
    } else {
        '9'
    }
}

/// The decimal rendering of a number, most significant digit first,
/// with no leading zeros (a single `'0'` for zero itself).
pub open spec fn decimal_digits(n: nat) -> Seq<char>
    decreases n,
{
    if n < 10 {
        seq![digit_char(n)]
    } else {
        decimal_digits(n / 10).push(digit_char(n % 10))
    }
}

/// The call-site stamp `[<file>:<line>:<column>]` that opens every
/// diagnostic line of the inspection facility.
pub open spec fn location_text(file: Seq<char>, line: u64, column: u64) -> Seq<char> {
    seq!['['] + file + seq![':'] + decimal_digits(line as nat) + seq![':'] + decimal_digits(
        column as nat,
    ) + seq![']']
}

/// One inspection line: the call-site stamp, the source text of the
/// inspected expression, and the rendering of its value.
pub open spec fn inspect_text(
    file: Seq<char>,
    line: u64,
    column: u64,
    source: Seq<char>,
    value: Seq<char>,
) -> Seq<char> {
    location_text(file, line, column) + seq![' '] + source + seq![' ', '=', ' '] + value
}

/// One crash report: the word `program` and the runtime's own default
/// rendering of the fatal error.
pub open spec fn fatal_text(info: Seq<char>) -> Seq<char> {
    "program "@ + info
}

/// Append the character of one decimal digit.
fn append_digit(out: &mut String, d: u64)
    requires
        d < 10,
    ensures
        final(out)@ == old(out)@.push(digit_char(d as nat)),
{
    let digit: &str = if d == 0 {
        "0"
    } else if d == 1 {
        "1"
    } else if d == 2 {
        "2"
    } else if d == 3 {
        "3"
    } else if d == 4 {
        "4"
    } else if d == 5 {
        "5"
    } else if d == 6 {
        "6"
    } else if d == 7 {
        "7"
    } else if d == 8 {
        "8"
    } else {
        "9"
    };
    proof {
        reveal_strlit("0");
        reveal_strlit("1");
        reveal_strlit("2");
        reveal_strlit("3");
        reveal_strlit("4");
        reveal_strlit("5");
        reveal_strlit("6");
        reveal_strlit("7");
        reveal_strlit("8");
        reveal_strlit("9");
    }
    out.append(digit);
    proof {
        assert(out@ =~= old(out)@.push(digit_char(d as nat)));
    }
}

/// Append the decimal rendering of a number.
fn append_decimal(out: &mut String, n: u64)
    ensures
        final(out)@ == old(out)@ + decimal_digits(n as nat),
    decreases n,
{
    if n < 10 {
        append_digit(out, n);
        proof {
            assert(out@ =~= old(out)@ + decimal_digits(n as nat));
        }
    } else {
        append_decimal(out, n / 10);
        append_digit(out, n % 10);
        proof {
            assert(out@ =~= old(out)@ + decimal_digits(n as nat));
        }
    }
}

/// Render the call-site stamp `[<file>:<line>:<column>]`.
pub fn render_location(file: &str, line: u64, column: u64) -> (out: String)
    ensures
        out@ == location_text(file@, line, column),
{
    let mut out = String::new();
    out.append("[");
    out.append(file);
    out.append(":");
    append_decimal(&mut out, line);
    out.append(":");
    append_decimal(&mut out, column);
    out.append("]");
    proof {
        reveal_strlit("[");
        reveal_strlit(":");
        reveal_strlit("]");
        assert(out@ =~= location_text(file@, line, column));
    }
    out
}

/// Render one inspection line from the call site, the source text of the
/// inspected expression, and the rendering of its value.
pub fn render_inspect_line(
    file: &str,
    line: u64,
    column: u64,
    source: &str,
    value_text: &str,
) -> (out: String)
    ensures
        out@ == inspect_text(file@, line, column, source@, value_text@),
{
    let mut out = render_location(file, line, column);
    out.append(" ");
    out.append(source);
    out.append(" = ");
    out.append(value_text);
    proof {
        reveal_strlit(" ");
        reveal_strlit(" = ");
        assert(out@ =~= inspect_text(file@, line, column, source@, value_text@));
    }
    out
}

/// Render one crash report from the runtime's default fatal-error text.
pub fn render_fatal_line(info: &str) -> (out: String)
    ensures
        out@ == fatal_text(info@),
{
    let mut out = String::from_str("program ");
    out.append(info);
    out
}

} // verus!

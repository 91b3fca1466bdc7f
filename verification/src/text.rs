//! Text building blocks for the renderer: indentation, decimal formatting,
//! string escaping, and the one-line serialized form of a structured value.

use vstd::prelude::*;
use vstd::string::StringExecFns;
use vstd::std_specs::iter::IteratorSpec;

verus! {

/// Relies on `String::push` of std: appends the given character to the end
/// of the string.
pub assume_specification[ String::push ](s: &mut String, c: char)
    ensures
        final(s)@ == old(s)@ + seq![c],
;

/// Indentation is two spaces per depth level.
pub open spec fn spec_indent(depth: nat) -> Seq<char> {
    Seq::new(2 * depth, |i: int| ' ')
}

/// Growing one nesting level appends exactly two spaces.
pub proof fn lemma_indent_step(depth: nat)
    ensures
        spec_indent(depth + 1) == spec_indent(depth) + "  "@,
{
    reveal_strlit("  ");
    assert(spec_indent(depth + 1) =~= spec_indent(depth) + "  "@);
}

/// The character for one decimal digit.
pub open spec fn spec_digit(d: nat) -> char
    recommends
        d < 10,
{
    if d == 0 { '0' }
    else if d == 1 { '1' }
    else if d == 2 { '2' }
    else if d == 3 { '3' }
    else if d == 4 { '4' }
    else if d == 5 { '5' }
    else if d == 6 { '6' }
    else if d == 7 { '7' }
    else if d == 8 { '8' }
    else { '9' }
}

/// The decimal representation of a natural number, most significant digit
/// first, with no leading zeros (a lone zero for 0).
pub open spec fn spec_decimal(n: nat) -> Seq<char>
    decreases n,
{
    if n < 10 {
        seq![spec_digit(n)]
    } else {
        spec_decimal(n / 10) + seq![spec_digit(n % 10)]
    }
}

fn digit_char(d: u16) -> (r: char)
    requires
        d < 10,
    ensures
        r == spec_digit(d as nat),
{
    match d {
        0 => '0',
        1 => '1',
        2 => '2',
        3 => '3',
        4 => '4',
        5 => '5',
        6 => '6',
        7 => '7',
        8 => '8',
        _ => '9',
    }
}

fn append_decimal(n: u16, out: &mut String)
    ensures
        final(out)@ == old(out)@ + spec_decimal(n as nat),
    decreases n,
{
    if n < 10 {
        out.push(digit_char(n));
    } else {
        proof {
            assert(n / 10 < n && 1 <= n / 10) by (nonlinear_arith)
                requires
                    n >= 10,
            ;
        }
        append_decimal(n / 10, out);
        out.push(digit_char(n % 10));
        assert(out@ =~= old(out)@ + spec_decimal(n as nat));
    }
}

/// The decimal text of a 16-bit number.
pub fn decimal_of(n: u16) -> (r: String)
    ensures
        r@ == spec_decimal(n as nat),
{
    let mut out = String::new();
    append_decimal(n, &mut out);
    out
}

/// The escaped form of one character inside a quoted text value: quote,
/// backslash, newline, carriage return and tab are escaped, every other
/// character stands for itself.
pub open spec fn spec_escape_char(c: char) -> Seq<char> {
    if c == '"' { seq!['\\', '"'] }
    else if c == '\\' { seq!['\\', '\\'] }
    else if c == '\n' { seq!['\\', 'n'] }
    else if c == '\r' { seq!['\\', 'r'] }
    else if c == '\t' { seq!['\\', 't'] }
    else { seq![c] }
}

/// The escaped form of a whole text value, character by character.
pub open spec fn spec_escape(s: Seq<char>) -> Seq<char>
    decreases s.len(),
{
    if s.len() == 0 {
        Seq::empty()
    } else {
        spec_escape(s.subrange(0, s.len() - 1)) + spec_escape_char(s[s.len() - 1])
    }
}

/// A text value in its serialized form: double-quoted and escaped.
pub open spec fn spec_quoted(s: Seq<char>) -> Seq<char> {
    seq!['"'] + spec_escape(s) + seq!['"']
}

fn push_escaped_char(c: char, out: &mut String)
    ensures
        final(out)@ == old(out)@ + spec_escape_char(c),
{
    if c == '"' {
        out.push('\\');
        out.push('"');
    } else if c == '\\' {
        out.push('\\');
        out.push('\\');
    } else if c == '\n' {
        out.push('\\');
        out.push('n');
    } else if c == '\r' {
        out.push('\\');
        out.push('r');
    } else if c == '\t' {
        out.push('\\');
        out.push('t');
    } else {
        out.push(c);
    }
    assert(out@ =~= old(out)@ + spec_escape_char(c));
}

/// Appends the double-quoted, escaped form of `s`.
pub fn append_quoted(s: &str, out: &mut String)
    ensures
        final(out)@ == old(out)@ + spec_quoted(s@),
{
    broadcast use vstd::string::axiom_spec_iter, vstd::string::next_postcondition;

    out.push('"');
    let ghost base = out@;
    let mut it = s.chars();
    let ghost all = s@;
    let ghost mut seen: Seq<char> = Seq::empty();
    assert(it.remaining() == all);
    loop
        invariant_except_break
            it.obeys_prophetic_iter_laws(),
            seen + it.remaining() == all,
            out@ == base + spec_escape(seen),
        ensures
            out@ == base + spec_escape(all),
        decreases all.len() - seen.len(),
    {
        let ghost prev = seen;
        match it.next() {
            Some(c) => {
                push_escaped_char(c, out);
                proof {
                    seen = prev + seq![c];
                    assert(seen.subrange(0, seen.len() - 1) =~= prev);
                    assert(seen[seen.len() - 1] == c);
                    assert(seen + it.remaining() =~= all);
                }
            },
            None => {
                proof {
                    assert(it.remaining().len() == 0);
                    assert(seen =~= all);
                }
                break;
            },
        }
    }
    out.push('"');
    assert(out@ =~= old(out)@ + spec_quoted(s@));
}

} // verus!

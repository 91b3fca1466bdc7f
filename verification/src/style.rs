//! Console styling: the rendered lines and banners with their parts
//! highlighted through terminal escape codes. Whether color is applied
//! depends on the terminal environment, so the contracts state only that
//! each styled piece carries its text, wrapped in whatever codes the
//! styling chose.

use vstd::prelude::*;
use vstd::string::StringExecFns;
use colored::Colorize;
use crate::render::Line;
use crate::render::LineKind;
use crate::render::SpecLineKind;
use crate::resolve::spec_report_lines;
use crate::resolve::AddressOutcome;
use crate::resolve::AddressReport;
use crate::text::decimal_of;
use crate::text::spec_decimal;

verus! {

/// The text holds no terminal escape character.
pub open spec fn ansi_free(s: Seq<char>) -> bool {
    forall|i: int| 0 <= i < s.len() ==> s[i] != '\u{1b}'
}

/// `out` is `inner` with some prefix and suffix around it: unchanged text,
/// or text wrapped in terminal escape codes.
pub open spec fn styled_as(out: Seq<char>, inner: Seq<char>) -> bool {
    exists|a: Seq<char>, b: Seq<char>| out == a + inner + b
}

/// Relies on `colored::Colorize::bold` and `blue`, and on `ColoredString`'s
/// `Display`: a text free of escape characters comes out verbatim, either
/// unchanged or between the style's escape codes.
#[verifier::external_body]
fn style_key(s: &str) -> (r: String)
    ensures
        ansi_free(s@) ==> styled_as(r@, s@),
{
    s.bold().blue().to_string()
}

/// Relies on `colored::Colorize::green`, as `style_key` does on its chain.
#[verifier::external_body]
fn style_value(s: &str) -> (r: String)
    ensures
        ansi_free(s@) ==> styled_as(r@, s@),
{
    s.green().to_string()
}

/// Relies on `colored::Colorize::bold` and `yellow`, as `style_key` does.
#[verifier::external_body]
fn style_notice(s: &str) -> (r: String)
    ensures
        ansi_free(s@) ==> styled_as(r@, s@),
{
    s.bold().yellow().to_string()
}

/// Relies on `colored::Colorize::green` and `bold`, as `style_key` does.
#[verifier::external_body]
fn style_success_tag(s: &str) -> (r: String)
    ensures
        ansi_free(s@) ==> styled_as(r@, s@),
{
    s.green().bold().to_string()
}

/// Relies on `colored::Colorize::cyan`, as `style_key` does on its chain.
#[verifier::external_body]
fn style_success_msg(s: &str) -> (r: String)
    ensures
        ansi_free(s@) ==> styled_as(r@, s@),
{
    s.cyan().to_string()
}

/// Relies on `colored::Colorize::red` and `bold`, as `style_key` does.
#[verifier::external_body]
fn style_error_tag(s: &str) -> (r: String)
    ensures
        ansi_free(s@) ==> styled_as(r@, s@),
{
    s.red().bold().to_string()
}

/// Relies on `colored::Colorize::yellow`, as `style_key` does on its chain.
#[verifier::external_body]
fn style_error_msg(s: &str) -> (r: String)
    ensures
        ansi_free(s@) ==> styled_as(r@, s@),
{
    s.yellow().to_string()
}

/// A console line carries a model line: indentation, then the line's parts
/// in order, each key and each value possibly wrapped in style codes.
pub open spec fn console_line_ok(t: Seq<char>, l: Line) -> bool {
    match l.kind@ {
        SpecLineKind::KeyOpen(k) => ansi_free(k) ==> exists|sk: Seq<char>|
            styled_as(sk, k) && t == l.indent@ + sk + seq![':'],
        SpecLineKind::KeyScalar(k, v) => ansi_free(k) && ansi_free(v) ==> exists|
            sk: Seq<char>,
            sv: Seq<char>,
        | styled_as(sk, k) && styled_as(sv, v) && t == l.indent@ + sk + seq![':', ' '] + sv,
        SpecLineKind::SeqOpen(k) => ansi_free(k) ==> exists|sk: Seq<char>|
            styled_as(sk, k) && t == l.indent@ + sk + seq![':', ' ', '['],
        SpecLineKind::SeqItem(v) => ansi_free(v) ==> exists|sv: Seq<char>|
            styled_as(sv, v) && t == l.indent@ + sv,
        SpecLineKind::SeqClose => t == l.indent@ + seq![']'],
    }
}

/// The console text of one rendered line.
pub fn console_line(l: &Line) -> (r: String)
    ensures
        console_line_ok(r@, *l),
{
    let mut out = l.indent.clone();
    match &l.kind {
        LineKind::KeyOpen(k) => {
            let sk = style_key(k.as_str());
            out.append(sk.as_str());
            out.push(':');
            proof {
                if ansi_free(k@) {
                    assert(styled_as(sk@, k@) && out@ == l.indent@ + sk@ + seq![':']);
                }
            }
        },
        LineKind::KeyScalar(k, v) => {
            let sk = style_key(k.as_str());
            out.append(sk.as_str());
            out.push(':');
            out.push(' ');
            let sv = style_value(v.as_str());
            out.append(sv.as_str());
            proof {
                if ansi_free(k@) && ansi_free(v@) {
                    assert(out@ =~= l.indent@ + sk@ + seq![':', ' '] + sv@);
                    assert(styled_as(sk@, k@) && styled_as(sv@, v@) && out@ == l.indent@ + sk@
                        + seq![':', ' '] + sv@);
                }
            }
        },
        LineKind::SeqOpen(k) => {
            let sk = style_key(k.as_str());
            out.append(sk.as_str());
            out.push(':');
            out.push(' ');
            out.push('[');
            proof {
                if ansi_free(k@) {
                    assert(out@ =~= l.indent@ + sk@ + seq![':', ' ', '[']);
                    assert(styled_as(sk@, k@) && out@ == l.indent@ + sk@ + seq![':', ' ', '[']);
                }
            }
        },
        LineKind::SeqItem(v) => {
            let sv = style_value(v.as_str());
            out.append(sv.as_str());
            proof {
                if ansi_free(v@) {
                    assert(styled_as(sv@, v@) && out@ == l.indent@ + sv@);
                }
            }
        },
        LineKind::SeqClose => {
            out.push(']');
            assert(out@ =~= l.indent@ + seq![']']);
        },
    }
    out
}

/// A console banner carries its tag and its message, each possibly wrapped
/// in style codes, separated by one space.
pub open spec fn console_banner_ok(t: Seq<char>, tag: Seq<char>, msg: Seq<char>) -> bool {
    ansi_free(tag) && ansi_free(msg) ==> exists|st: Seq<char>, sm: Seq<char>|
        styled_as(st, tag) && styled_as(sm, msg) && t == st + seq![' '] + sm
}

fn banner(tag: &str, msg: &str, is_error: bool) -> (r: String)
    ensures
        console_banner_ok(r@, tag@, msg@),
{
    let mut out = if is_error {
        style_error_tag(tag)
    } else {
        style_success_tag(tag)
    };
    let ghost stv = out@;
    out.push(' ');
    let sm = if is_error {
        style_error_msg(msg)
    } else {
        style_success_msg(msg)
    };
    out.append(sm.as_str());
    proof {
        if ansi_free(tag@) && ansi_free(msg@) {
            assert(out@ =~= stv + seq![' '] + sm@);
            assert(styled_as(stv, tag@) && styled_as(sm@, msg@) && out@ == stv + seq![' '] + sm@);
        }
    }
    out
}

/// A console notice carries its whole text, possibly wrapped in style codes.
pub open spec fn console_notice_ok(t: Seq<char>, full: Seq<char>) -> bool {
    ansi_free(full) ==> styled_as(t, full)
}

fn success_msg(address: &String) -> (r: String)
    ensures
        r@ == "Fetched data for IP: "@ + address@,
{
    let mut s = String::from_str("Fetched data for IP: ");
    s.append(address.as_str());
    s
}

fn rejection_msg(address: &String, status: u16) -> (r: String)
    ensures
        r@ == "Failed to fetch data for IP "@ + address@ + ". Status: "@ + spec_decimal(
            status as nat,
        ),
{
    let mut s = String::from_str("Failed to fetch data for IP ");
    s.append(address.as_str());
    s.append(". Status: ");
    let d = decimal_of(status);
    s.append(d.as_str());
    s
}

fn parse_error_msg(address: &String) -> (r: String)
    ensures
        r@ == "Failed to parse data for IP "@ + address@ + "."@,
{
    let mut s = String::from_str("Failed to parse data for IP ");
    s.append(address.as_str());
    s.append(".");
    s
}

fn transport_msg(address: &String) -> (r: String)
    ensures
        r@ == "Failed to fetch data for IP "@ + address@ + ". Transport failure."@,
{
    let mut s = String::from_str("Failed to fetch data for IP ");
    s.append(address.as_str());
    s.append(". Transport failure.");
    s
}

fn notice_text(address: &String) -> (r: String)
    ensures
        r@ == "Fetching IP information for: "@ + address@,
{
    let mut s = String::from_str("Fetching IP information for: ");
    s.append(address.as_str());
    s
}

/// The pre-request notice for one address, styled for the console: shown
/// before the lookup is attempted, in verbose runs.
pub fn console_notice(address: &String) -> (r: String)
    ensures
        console_notice_ok(r@, "Fetching IP information for: "@ + address@),
{
    let t = notice_text(address);
    style_notice(t.as_str())
}

/// The console lines of one address's report, in print order: the same
/// lines as the plain report, with keys, values, banners and notices
/// carried inside whatever style codes the terminal settings chose.
pub fn console_report_lines(r: &AddressReport, verbose: bool) -> (out: Vec<String>)
    ensures
        out@.len() == spec_report_lines(r.address@, r.outcome, verbose).len(),
        ({
            let base: int = if verbose {
                1
            } else {
                0
            };
            &&& (verbose ==> console_notice_ok(
                out@[0]@,
                "Fetching IP information for: "@ + r.address@,
            ))
            &&& match r.outcome {
                AddressOutcome::Rendered(lines) => {
                    &&& console_banner_ok(
                        out@[base]@,
                        "\u{2714} Success:"@,
                        "Fetched data for IP: "@ + r.address@,
                    )
                    &&& forall|j: int|
                        0 <= j < lines@.len() ==> console_line_ok(
                            (#[trigger] out@[base + 1 + j])@,
                            lines@[j],
                        )
                    &&& out@[out@.len() - 1]@ == Seq::<char>::empty()
                },
                AddressOutcome::RemoteRejection(status) => {
                    &&& console_banner_ok(
                        out@[base]@,
                        "\u{2718} Error:"@,
                        "Failed to fetch data for IP "@ + r.address@ + ". Status: "@
                            + spec_decimal(status as nat),
                    )
                    &&& out@[base + 1]@ == Seq::<char>::empty()
                },
                AddressOutcome::ResponseParseError => {
                    &&& console_banner_ok(
                        out@[base]@,
                        "\u{2718} Error:"@,
                        "Failed to parse data for IP "@ + r.address@ + "."@,
                    )
                    &&& out@[base + 1]@ == Seq::<char>::empty()
                },
                AddressOutcome::TransportFailure => {
                    &&& console_banner_ok(
                        out@[base]@,
                        "\u{2718} Error:"@,
                        "Failed to fetch data for IP "@ + r.address@ + ". Transport failure."@,
                    )
                    &&& out@[base + 1]@ == Seq::<char>::empty()
                },
            }
        }),
{
    let ghost base: int = if verbose { 1 } else { 0 };
    let mut out: Vec<String> = Vec::new();
    if verbose {
        let t = notice_text(&r.address);
        let styled = style_notice(t.as_str());
        out.push(styled);
    }
    match &r.outcome {
        AddressOutcome::Rendered(lines) => {
            let msg = success_msg(&r.address);
            let b = banner("\u{2714} Success:", msg.as_str(), false);
            out.push(b);
            let mut j: usize = 0;
            while j < lines.len()
                invariant
                    r.outcome matches AddressOutcome::Rendered(ls) && ls == lines,
                    base == if verbose { 1int } else { 0int },
                    j <= lines@.len(),
                    out@.len() == base + 1 + j,
                    verbose ==> console_notice_ok(
                        out@[0]@,
                        "Fetching IP information for: "@ + r.address@,
                    ),
                    console_banner_ok(
                        out@[base]@,
                        "\u{2714} Success:"@,
                        "Fetched data for IP: "@ + r.address@,
                    ),
                    forall|k: int|
                        0 <= k < j ==> console_line_ok((#[trigger] out@[base + 1 + k])@, lines@[k]),
                decreases lines@.len() - j,
            {
                let ghost prev = out@;
                let t = console_line(&lines[j]);
                out.push(t);
                proof {
                    assert(out@ == prev.push(t));
                    assert(forall|i: int| 0 <= i < prev.len() ==> #[trigger] out@[i] == prev[i]);
                    assert(out@[base] == prev[base]);
                    if verbose {
                        assert(out@[0] == prev[0]);
                    }
                    assert forall|k: int| 0 <= k < j + 1 implies console_line_ok(
                        (#[trigger] out@[base + 1 + k])@,
                        lines@[k],
                    ) by {
                        if k < j {
                            assert(out@[base + 1 + k] == prev[base + 1 + k]);
                        } else {
                            assert(out@[base + 1 + k] == t);
                        }
                    }
                }
                j = j + 1;
            }
            out.push(String::new());
        },
        AddressOutcome::RemoteRejection(status) => {
            let msg = rejection_msg(&r.address, *status);
            let b = banner("\u{2718} Error:", msg.as_str(), true);
            out.push(b);
            out.push(String::new());
        },
        AddressOutcome::ResponseParseError => {
            let msg = parse_error_msg(&r.address);
            let b = banner("\u{2718} Error:", msg.as_str(), true);
            out.push(b);
            out.push(String::new());
        },
        AddressOutcome::TransportFailure => {
            let msg = transport_msg(&r.address);
            let b = banner("\u{2718} Error:", msg.as_str(), true);
            out.push(b);
            out.push(String::new());
        },
    }
    out
}

} // verus!

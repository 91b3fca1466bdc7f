//! The batch resolver: classifies what the transport brought back for each
//! address, renders successful responses, and words the per-address report
//! lines. Failures are isolated: no address's outcome affects another's.

use vstd::prelude::*;
use vstd::string::StringExecFns;
use crate::parse::parse_structured;
use crate::parse::parsed_body;
use crate::render::line_text;
use crate::render::lines_match;
use crate::render::render_document;
use crate::render::spec_kind_text;
use crate::render::spec_render_document;
use crate::render::Line;
use crate::store::Credential;
use crate::text::decimal_of;
use crate::text::spec_decimal;

verus! {

/// What one lookup attempt brought back: a response with its status code
/// and body text, or a transport-level failure (connection, timeout, TLS).
pub enum TransportOutcome {
    Response(u16, String),
    Failure,
}

/// The terminal state of one address after its single attempt.
pub enum AddressOutcome {
    /// A success response whose body parsed: the rendered lines.
    Rendered(Vec<Line>),
    /// A response outside the success range: its status code.
    RemoteRejection(u16),
    /// A success response whose body did not parse.
    ResponseParseError,
    /// No response at all.
    TransportFailure,
}

/// One address's report: the address and how its attempt ended.
pub struct AddressReport {
    pub address: String,
    pub outcome: AddressOutcome,
}

/// A success response has a status in the 2xx range.
pub open spec fn spec_is_success(status: u16) -> bool {
    200 <= status < 300
}

/// How an outcome must classify what the transport brought: a 2xx response
/// with a well-formed body renders the parsed value; a 2xx response with a
/// malformed body is a parse error; any other response is a remote
/// rejection carrying its status; no response is a transport failure.
pub open spec fn outcome_matches(t: TransportOutcome, o: AddressOutcome) -> bool {
    match t {
        TransportOutcome::Response(status, body) => {
            if spec_is_success(status) {
                match parsed_body(body@) {
                    Some(v) => o matches AddressOutcome::Rendered(lines) && lines_match(
                        lines@,
                        spec_render_document(v),
                    ),
                    None => o is ResponseParseError,
                }
            } else {
                o matches AddressOutcome::RemoteRejection(s) && s == status
            }
        },
        TransportOutcome::Failure => o is TransportFailure,
    }
}

/// Classifies one address's attempt: exactly one terminal outcome per
/// attempt, no retries.
pub fn resolve_one(address: String, fetched: &TransportOutcome) -> (r: AddressReport)
    ensures
        r.address == address,
        outcome_matches(*fetched, r.outcome),
{
    let outcome = match fetched {
        TransportOutcome::Response(status, body) => {
            if 200 <= *status && *status < 300 {
                match parse_structured(body.as_str()) {
                    Some(v) => AddressOutcome::Rendered(render_document(&v)),
                    None => AddressOutcome::ResponseParseError,
                }
            } else {
                AddressOutcome::RemoteRejection(*status)
            }
        },
        TransportOutcome::Failure => AddressOutcome::TransportFailure,
    };
    AddressReport { address, outcome }
}

/// Classifies a whole batch, in list order: the i-th report is for the i-th
/// address, and every address gets its report whatever became of the
/// others — one failure blocks nothing.
pub fn resolve_batch(addresses: &Vec<String>, fetched: &Vec<TransportOutcome>) -> (reports: Vec<
    AddressReport,
>)
    requires
        addresses@.len() == fetched@.len(),
    ensures
        reports@.len() == addresses@.len(),
        forall|i: int|
            0 <= i < reports@.len() ==> (#[trigger] reports@[i]).address == addresses@[i]
                && outcome_matches(fetched@[i], reports@[i].outcome),
{
    let mut reports: Vec<AddressReport> = Vec::new();
    let mut i: usize = 0;
    while i < addresses.len()
        invariant
            addresses@.len() == fetched@.len(),
            i <= addresses@.len(),
            reports@.len() == i,
            forall|j: int|
                0 <= j < i ==> (#[trigger] reports@[j]).address == addresses@[j]
                    && outcome_matches(fetched@[j], reports@[j].outcome),
        decreases addresses@.len() - i,
    {
        let report = resolve_one(addresses[i].clone(), &fetched[i]);
        reports.push(report);
        i = i + 1;
    }
    reports
}

/// The pre-request notice, shown only in verbose runs.
pub open spec fn spec_notice(address: Seq<char>) -> Seq<char> {
    "Fetching IP information for: "@ + address
}

/// The banner above a rendered response.
pub open spec fn spec_success_banner(address: Seq<char>) -> Seq<char> {
    "\u{2714} Success: Fetched data for IP: "@ + address
}

/// The banner for a response outside the success range.
pub open spec fn spec_rejection_banner(address: Seq<char>, status: u16) -> Seq<char> {
    "\u{2718} Error: Failed to fetch data for IP "@ + address + ". Status: "@ + spec_decimal(
        status as nat,
    )
}

/// The banner for a success response whose body did not parse.
pub open spec fn spec_parse_error_banner(address: Seq<char>) -> Seq<char> {
    "\u{2718} Error: Failed to parse data for IP "@ + address + "."@
}

/// The banner for an attempt that got no response.
pub open spec fn spec_transport_banner(address: Seq<char>) -> Seq<char> {
    "\u{2718} Error: Failed to fetch data for IP "@ + address + ". Transport failure."@
}

/// The views of a list of text lines.
pub open spec fn string_views(ss: Seq<String>) -> Seq<Seq<char>> {
    ss.map_values(|s: String| s@)
}

/// The texts of a list of rendered lines.
pub open spec fn spec_line_texts(lines: Seq<Line>) -> Seq<Seq<char>> {
    lines.map_values(|l: Line| l.indent@ + spec_kind_text(l.kind@))
}

/// Everything printed for one address: the optional verbose notice, then a
/// success banner and the rendered lines, or one failure banner; and a
/// blank separator line last.
pub open spec fn spec_report_lines(
    address: Seq<char>,
    o: AddressOutcome,
    verbose: bool,
) -> Seq<Seq<char>> {
    let pre: Seq<Seq<char>> = if verbose {
        seq![spec_notice(address)]
    } else {
        Seq::empty()
    };
    let body: Seq<Seq<char>> = match o {
        AddressOutcome::Rendered(lines) => seq![spec_success_banner(address)] + spec_line_texts(
            lines@,
        ) + seq![Seq::<char>::empty()],
        AddressOutcome::RemoteRejection(status) => seq![
            spec_rejection_banner(address, status),
            Seq::<char>::empty(),
        ],
        AddressOutcome::ResponseParseError => seq![
            spec_parse_error_banner(address),
            Seq::<char>::empty(),
        ],
        AddressOutcome::TransportFailure => seq![
            spec_transport_banner(address),
            Seq::<char>::empty(),
        ],
    };
    pre + body
}

fn notice_line(address: &String) -> (r: String)
    ensures
        r@ == spec_notice(address@),
{
    let mut s = String::from_str("Fetching IP information for: ");
    s.append(address.as_str());
    s
}

fn success_banner(address: &String) -> (r: String)
    ensures
        r@ == spec_success_banner(address@),
{
    let mut s = String::from_str("\u{2714} Success: Fetched data for IP: ");
    s.append(address.as_str());
    s
}

fn rejection_banner(address: &String, status: u16) -> (r: String)
    ensures
        r@ == spec_rejection_banner(address@, status),
{
    let mut s = String::from_str("\u{2718} Error: Failed to fetch data for IP ");
    s.append(address.as_str());
    s.append(". Status: ");
    let d = decimal_of(status);
    s.append(d.as_str());
    s
}

fn parse_error_banner(address: &String) -> (r: String)
    ensures
        r@ == spec_parse_error_banner(address@),
{
    let mut s = String::from_str("\u{2718} Error: Failed to parse data for IP ");
    s.append(address.as_str());
    s.append(".");
    s
}

fn transport_banner(address: &String) -> (r: String)
    ensures
        r@ == spec_transport_banner(address@),
{
    let mut s = String::from_str("\u{2718} Error: Failed to fetch data for IP ");
    s.append(address.as_str());
    s.append(". Transport failure.");
    s
}

proof fn lemma_views_push(ss: Seq<String>, s: String)
    ensures
        string_views(ss.push(s)) == string_views(ss).push(s@),
{
    assert(string_views(ss.push(s)) =~= string_views(ss).push(s@));
}

/// The plain text lines of one address's report, in print order.
pub fn report_plain_lines(r: &AddressReport, verbose: bool) -> (out: Vec<String>)
    ensures
        string_views(out@) == spec_report_lines(r.address@, r.outcome, verbose),
{
    let mut out: Vec<String> = Vec::new();
    if verbose {
        let ghost o0 = out@;
        let n = notice_line(&r.address);
        proof {
            lemma_views_push(o0, n);
        }
        out.push(n);
    }
    let ghost pre = string_views(out@);
    match &r.outcome {
        AddressOutcome::Rendered(lines) => {
            let ghost o1 = out@;
            let b = success_banner(&r.address);
            proof {
                lemma_views_push(o1, b);
            }
            out.push(b);
            assert(string_views(out@) =~= pre + seq![spec_success_banner(r.address@)]
                + spec_line_texts(lines@.subrange(0, 0)));
            let mut j: usize = 0;
            while j < lines.len()
                invariant
                    r.outcome matches AddressOutcome::Rendered(ls) && ls == lines,
                    j <= lines.len(),
                    string_views(out@) == pre + seq![spec_success_banner(r.address@)]
                        + spec_line_texts(lines@.subrange(0, j as int)),
                decreases lines.len() - j,
            {
                let ghost oj = out@;
                let t = line_text(&lines[j]);
                proof {
                    lemma_views_push(oj, t);
                }
                out.push(t);
                proof {
                    assert(lines@.subrange(0, j + 1) =~= lines@.subrange(0, j as int).push(
                        lines@[j as int],
                    ));
                    assert(spec_line_texts(lines@.subrange(0, j + 1)) =~= spec_line_texts(
                        lines@.subrange(0, j as int),
                    ).push(lines@[j as int].indent@ + spec_kind_text(lines@[j as int].kind@)));
                    assert(string_views(out@) =~= pre + seq![spec_success_banner(r.address@)]
                        + spec_line_texts(lines@.subrange(0, j + 1)));
                }
                j = j + 1;
            }
            let ghost o2 = out@;
            let blank = String::new();
            proof {
                lemma_views_push(o2, blank);
            }
            out.push(blank);
            proof {
                assert(lines@.subrange(0, lines@.len() as int) =~= lines@);
                assert(string_views(out@) =~= spec_report_lines(r.address@, r.outcome, verbose));
            }
        },
        AddressOutcome::RemoteRejection(status) => {
            let ghost o1 = out@;
            let b = rejection_banner(&r.address, *status);
            proof {
                lemma_views_push(o1, b);
            }
            out.push(b);
            let ghost o2 = out@;
            let blank = String::new();
            proof {
                lemma_views_push(o2, blank);
            }
            out.push(blank);
            assert(string_views(out@) =~= spec_report_lines(r.address@, r.outcome, verbose));
        },
        AddressOutcome::ResponseParseError => {
            let ghost o1 = out@;
            let b = parse_error_banner(&r.address);
            proof {
                lemma_views_push(o1, b);
            }
            out.push(b);
            let ghost o2 = out@;
            let blank = String::new();
            proof {
                lemma_views_push(o2, blank);
            }
            out.push(blank);
            assert(string_views(out@) =~= spec_report_lines(r.address@, r.outcome, verbose));
        },
        AddressOutcome::TransportFailure => {
            let ghost o1 = out@;
            let b = transport_banner(&r.address);
            proof {
                lemma_views_push(o1, b);
            }
            out.push(b);
            let ghost o2 = out@;
            let blank = String::new();
            proof {
                lemma_views_push(o2, blank);
            }
            out.push(blank);
            assert(string_views(out@) =~= spec_report_lines(r.address@, r.outcome, verbose));
        },
    }
    out
}

/// Merges the work list: positional addresses first, then the file-sourced
/// lines in file order, each list's own order kept.
pub fn merge_addresses(positional: Vec<String>, from_file: Option<Vec<String>>) -> (r: Vec<String>)
    ensures
        match from_file {
            None => r@ == positional@,
            Some(f) => r@ == positional@ + f@,
        },
{
    let mut r = positional;
    match from_file {
        None => r,
        Some(mut f) => {
            r.append(&mut f);
            r
        },
    }
}

/// The fixed lookup endpoint.
pub fn lookup_url() -> (r: String)
    ensures
        r@ == "https://ipinfo.io/account/search"@,
{
    String::from_str("https://ipinfo.io/account/search")
}

/// The name of the query parameter that carries the address.
pub fn query_parameter() -> (r: String)
    ensures
        r@ == "query"@,
{
    String::from_str("query")
}

/// The request headers: the credential as a cookie-style header, then the
/// fixed browser-impersonation set.
pub fn lookup_headers(c: &Credential) -> (hs: Vec<(String, String)>)
    ensures
        hs@.len() == 8,
        hs@[0].0@ == "cookie"@ && hs@[0].1 == c.token,
        hs@[1].0@ == "host"@ && hs@[1].1@ == "ipinfo.io"@,
        hs@[2].0@ == "referrer"@ && hs@[2].1@ == "https://ipinfo.io/account/search"@,
        hs@[3].0@ == "user-agent"@ && hs@[3].1@
            == "Mozilla/5.0 (X11; Linux x86_64; rv:131.0) Gecko/20100101 Firefox/131.0"@,
        hs@[4].0@ == "content-type"@ && hs@[4].1@ == "application/json"@,
        hs@[5].0@ == "connection"@ && hs@[5].1@ == "keep-alive"@,
        hs@[6].0@ == "cache-control"@ && hs@[6].1@ == "no-cache"@,
        hs@[7].0@ == "te"@ && hs@[7].1@ == "trailers"@,
{
    let mut hs: Vec<(String, String)> = Vec::new();
    hs.push((String::from_str("cookie"), c.token.clone()));
    hs.push((String::from_str("host"), String::from_str("ipinfo.io")));
    hs.push(
        (String::from_str("referrer"), String::from_str("https://ipinfo.io/account/search")),
    );
    hs.push(
        (
            String::from_str("user-agent"),
            String::from_str(
                "Mozilla/5.0 (X11; Linux x86_64; rv:131.0) Gecko/20100101 Firefox/131.0",
            ),
        ),
    );
    hs.push((String::from_str("content-type"), String::from_str("application/json")));
    hs.push((String::from_str("connection"), String::from_str("keep-alive")));
    hs.push((String::from_str("cache-control"), String::from_str("no-cache")));
    hs.push((String::from_str("te"), String::from_str("trailers")));
    hs
}

} // verus!

//! The structured renderer: walks a structured value and produces indented
//! lines, in entry order, leaving out every mapping entry whose key is the
//! reserved sentinel.

use vstd::prelude::*;
use vstd::string::StringExecFns;
use crate::serialize::serialized;
use crate::serialize::spec_serialized;
use crate::text::lemma_indent_step;
use crate::text::spec_indent;
use crate::value::lemma_view_entries;
use crate::value::lemma_view_items;
use crate::value::view_entries;
use crate::value::view_items;
use crate::value::SpecValue;
use crate::value::StructuredValue;

verus! {

/// The reserved mapping key whose whole subtree is left out of rendered
/// output: exact, case-sensitive match.
pub open spec fn spec_sentinel() -> Seq<char> {
    "tokenDetails"@
}

/// The content of one rendered line, without its indentation.
pub enum LineKind {
    /// `key:` introducing a nested mapping.
    KeyOpen(String),
    /// `key: value` for a scalar entry.
    KeyScalar(String, String),
    /// `key: [` opening a sequence.
    SeqOpen(String),
    /// One serialized sequence element.
    SeqItem(String),
    /// `]` closing a sequence.
    SeqClose,
}

/// One rendered line: its indentation prefix and its content.
pub struct Line {
    pub indent: String,
    pub kind: LineKind,
}

/// The model of a line's content.
pub enum SpecLineKind {
    KeyOpen(Seq<char>),
    KeyScalar(Seq<char>, Seq<char>),
    SeqOpen(Seq<char>),
    SeqItem(Seq<char>),
    SeqClose,
}

/// The model of one rendered line: nesting depth and content.
pub struct SpecLine {
    pub depth: nat,
    pub kind: SpecLineKind,
}

impl View for LineKind {
    type V = SpecLineKind;

    open spec fn view(&self) -> SpecLineKind {
        match self {
            LineKind::KeyOpen(k) => SpecLineKind::KeyOpen(k@),
            LineKind::KeyScalar(k, t) => SpecLineKind::KeyScalar(k@, t@),
            LineKind::SeqOpen(k) => SpecLineKind::SeqOpen(k@),
            LineKind::SeqItem(t) => SpecLineKind::SeqItem(t@),
            LineKind::SeqClose => SpecLineKind::SeqClose,
        }
    }
}

/// An executable line carries exactly the indentation and content of a model
/// line.
pub open spec fn line_matches(l: Line, s: SpecLine) -> bool {
    l.indent@ == spec_indent(s.depth) && l.kind@ == s.kind
}

/// The executable lines carry exactly the model lines, in order.
pub open spec fn lines_match(ls: Seq<Line>, ss: Seq<SpecLine>) -> bool {
    ls.len() == ss.len() && forall|i: int|
        0 <= i < ls.len() ==> line_matches(#[trigger] ls[i], ss[i])
}

/// The lines rendered for one mapping entry at the given depth. An entry
/// whose key is the sentinel renders as nothing at all; a mapping value
/// renders as `key:` followed by its own entries one level deeper; a
/// sequence renders as `key: [`, one line per serialized element one level
/// deeper, and a closing `]`; a scalar renders as `key: value` on one line.
pub open spec fn spec_render_entry(e: (Seq<char>, SpecValue), depth: nat) -> Seq<SpecLine>
    decreases e, 0nat,
{
    if e.0 == spec_sentinel() {
        Seq::empty()
    } else {
        match e.1 {
            SpecValue::Mapping(es) => seq![
                SpecLine { depth, kind: SpecLineKind::KeyOpen(e.0) },
            ] + spec_render_entries(es, depth + 1),
            SpecValue::Sequence(items) => seq![
                SpecLine { depth, kind: SpecLineKind::SeqOpen(e.0) },
            ] + spec_item_lines(items, depth + 1) + seq![
                SpecLine { depth, kind: SpecLineKind::SeqClose },
            ],
            _ => seq![
                SpecLine {
                    depth,
                    kind: SpecLineKind::KeyScalar(e.0, spec_serialized(e.1)),
                },
            ],
        }
    }
}

/// The lines rendered for a list of mapping entries, in their stored order.
pub open spec fn spec_render_entries(es: Seq<(Seq<char>, SpecValue)>, depth: nat) -> Seq<SpecLine>
    decreases es, 1nat,
{
    if es.len() == 0 {
        Seq::empty()
    } else {
        spec_render_entries(es.subrange(0, es.len() - 1), depth) + spec_render_entry(
            es[es.len() - 1],
            depth,
        )
    }
}

/// One line per sequence element, in order: the element's serialized text.
/// Elements are never expanded into key/value form.
pub open spec fn spec_item_lines(items: Seq<SpecValue>, depth: nat) -> Seq<SpecLine>
    decreases items.len(),
{
    if items.len() == 0 {
        Seq::empty()
    } else {
        spec_item_lines(items.subrange(0, items.len() - 1), depth).push(
            SpecLine {
                depth,
                kind: SpecLineKind::SeqItem(
                    spec_serialized(items[items.len() - 1]),
                ),
            },
        )
    }
}

/// Rendering one response: the entries of the top-level mapping at depth 0;
/// a response that is not a mapping renders as nothing.
pub open spec fn spec_render_document(v: SpecValue) -> Seq<SpecLine> {
    match v {
        SpecValue::Mapping(es) => spec_render_entries(es, 0),
        _ => Seq::empty(),
    }
}

/// `post` is `pre` with lines matching `ss` appended.
pub open spec fn appended_match(pre: Seq<Line>, post: Seq<Line>, ss: Seq<SpecLine>) -> bool {
    &&& post.len() == pre.len() + ss.len()
    &&& forall|i: int| 0 <= i < pre.len() ==> post[i] == pre[i]
    &&& forall|i: int| 0 <= i < ss.len() ==> line_matches(#[trigger] post[pre.len() + i], ss[i])
}

proof fn lemma_appended_chain(
    a: Seq<Line>,
    b: Seq<Line>,
    c: Seq<Line>,
    s1: Seq<SpecLine>,
    s2: Seq<SpecLine>,
)
    requires
        appended_match(a, b, s1),
        appended_match(b, c, s2),
    ensures
        appended_match(a, c, s1 + s2),
{
    assert forall|i: int| 0 <= i < (s1 + s2).len() implies line_matches(
        #[trigger] c[a.len() + i],
        (s1 + s2)[i],
    ) by {
        if i < s1.len() {
            assert(c[a.len() + i] == b[a.len() + i]);
        } else {
            assert((s1 + s2)[i] == s2[i - s1.len()]);
            assert(a.len() + i == b.len() + (i - s1.len()));
        }
    }
}

fn sentinel_string() -> (r: String)
    ensures
        r@ == spec_sentinel(),
{
    String::from_str("tokenDetails")
}

fn render_entry(
    key: &String,
    v: &StructuredValue,
    indent: &String,
    Ghost(depth): Ghost<nat>,
    out: &mut Vec<Line>,
)
    requires
        indent@ == spec_indent(depth),
    ensures
        appended_match(old(out)@, final(out)@, spec_render_entry((key@, (*v)@), depth)),
    decreases v, 0nat,
{
    let sent = sentinel_string();
    if *key == sent {
        return;
    }
    let ghost pre = out@;
    match v {
        StructuredValue::Mapping(es) => {
            out.push(Line { indent: indent.clone(), kind: LineKind::KeyOpen(key.clone()) });
            let ghost head = seq![SpecLine { depth, kind: SpecLineKind::KeyOpen(key@) }];
            let ghost mid = out@;
            assert(appended_match(pre, mid, head));
            let mut child = indent.clone();
            child.append("  ");
            proof {
                lemma_indent_step(depth);
            }
            render_entries(es, &child, Ghost(depth + 1), out);
            proof {
                lemma_appended_chain(
                    pre,
                    mid,
                    out@,
                    head,
                    spec_render_entries(view_entries(es@), depth + 1),
                );
            }
        },
        StructuredValue::Sequence(items) => {
            proof {
                lemma_view_items(items@);
            }
            let ghost vi = view_items(items@);
            out.push(Line { indent: indent.clone(), kind: LineKind::SeqOpen(key.clone()) });
            let ghost head = seq![SpecLine { depth, kind: SpecLineKind::SeqOpen(key@) }];
            let ghost mid = out@;
            assert(appended_match(pre, mid, head));
            let mut child = indent.clone();
            child.append("  ");
            proof {
                lemma_indent_step(depth);
            }
            let mut i: usize = 0;
            while i < items.len()
                invariant
                    *v == StructuredValue::Sequence(*items),
                    i <= items.len(),
                    vi == view_items(items@),
                    vi.len() == items@.len(),
                    forall|j: int| 0 <= j < items@.len() ==> #[trigger] vi[j] == items@[j]@,
                    child@ == spec_indent(depth + 1),
                    appended_match(mid, out@, spec_item_lines(vi.subrange(0, i as int), depth + 1)),
                decreases items.len() - i,
            {
                let txt = serialized(&items[i]);
                out.push(Line { indent: child.clone(), kind: LineKind::SeqItem(txt) });
                proof {
                    let cur = vi.subrange(0, i + 1);
                    assert(cur.subrange(0, cur.len() - 1) =~= vi.subrange(0, i as int));
                    assert(cur[cur.len() - 1] == vi[i as int]);
                }
                i = i + 1;
            }
            let ghost after_items = out@;
            out.push(Line { indent: indent.clone(), kind: LineKind::SeqClose });
            proof {
                assert(vi.subrange(0, items@.len() as int) =~= vi);
                let body = spec_item_lines(vi, depth + 1);
                let tail = seq![SpecLine { depth, kind: SpecLineKind::SeqClose }];
                lemma_appended_chain(pre, mid, after_items, head, body);
                assert(appended_match(after_items, out@, tail));
                lemma_appended_chain(pre, after_items, out@, head + body, tail);
                assert(spec_render_entry((key@, (*v)@), depth) =~= head + body + tail);
            }
        },
        StructuredValue::Null
        | StructuredValue::Boolean(_)
        | StructuredValue::Number(_)
        | StructuredValue::Text(_) => {
            let txt = serialized(v);
            out.push(
                Line {
                    indent: indent.clone(),
                    kind: LineKind::KeyScalar(key.clone(), txt),
                },
            );
            assert(appended_match(
                pre,
                out@,
                seq![
                    SpecLine {
                        depth,
                        kind: SpecLineKind::KeyScalar(key@, spec_serialized((*v)@)),
                    },
                ],
            ));
        },
    }
}

fn render_entries(
    es: &Vec<(String, StructuredValue)>,
    indent: &String,
    Ghost(depth): Ghost<nat>,
    out: &mut Vec<Line>,
)
    requires
        indent@ == spec_indent(depth),
    ensures
        appended_match(old(out)@, final(out)@, spec_render_entries(view_entries(es@), depth)),
    decreases es, 1nat,
{
    proof {
        lemma_view_entries(es@);
    }
    let ghost ve = view_entries(es@);
    let ghost pre = out@;
    let mut i: usize = 0;
    while i < es.len()
        invariant
            indent@ == spec_indent(depth),
            i <= es.len(),
            ve == view_entries(es@),
            ve.len() == es@.len(),
            forall|j: int| 0 <= j < es@.len() ==> #[trigger] ve[j] == (es@[j].0@, es@[j].1@),
            appended_match(pre, out@, spec_render_entries(ve.subrange(0, i as int), depth)),
        decreases es.len() - i,
    {
        let ghost mid = out@;
        proof {
            vstd::std_specs::vec::axiom_vec_index_decreases(*es, i as int);
        }
        render_entry(&es[i].0, &es[i].1, indent, Ghost(depth), out);
        proof {
            lemma_appended_chain(
                pre,
                mid,
                out@,
                spec_render_entries(ve.subrange(0, i as int), depth),
                spec_render_entry(ve[i as int], depth),
            );
            let cur = ve.subrange(0, i + 1);
            assert(cur.subrange(0, cur.len() - 1) =~= ve.subrange(0, i as int));
            assert(cur[cur.len() - 1] == ve[i as int]);
        }
        i = i + 1;
    }
    proof {
        assert(ve.subrange(0, es@.len() as int) =~= ve);
    }
}

/// Renders one response: the entries of a top-level mapping, in stored
/// order, at depth 0. Any other top-level value renders as nothing.
pub fn render_document(v: &StructuredValue) -> (lines: Vec<Line>)
    ensures
        lines_match(lines@, spec_render_document((*v)@)),
{
    let mut out: Vec<Line> = Vec::new();
    match v {
        StructuredValue::Mapping(es) => {
            let ind = String::new();
            proof {
                assert(ind@ =~= spec_indent(0));
            }
            render_entries(es, &ind, Ghost(0nat), &mut out);
            proof {
                let ss = spec_render_entries(view_entries(es@), 0);
                assert forall|i: int| 0 <= i < out@.len() implies line_matches(
                    #[trigger] out@[i],
                    ss[i],
                ) by {
                    assert(line_matches(out@[0 + i], ss[i]));
                }
                assert((*v)@ == SpecValue::Mapping(view_entries(es@)));
            }
        },
        _ => {},
    }
    out
}

/// The content text of a model line, without indentation.
pub open spec fn spec_kind_text(k: SpecLineKind) -> Seq<char> {
    match k {
        SpecLineKind::KeyOpen(key) => key + seq![':'],
        SpecLineKind::KeyScalar(key, txt) => key + seq![':', ' '] + txt,
        SpecLineKind::SeqOpen(key) => key + seq![':', ' ', '['],
        SpecLineKind::SeqItem(txt) => txt,
        SpecLineKind::SeqClose => seq![']'],
    }
}

/// The full text of a model line: indentation, then content.
pub open spec fn spec_line_text(s: SpecLine) -> Seq<char> {
    spec_indent(s.depth) + spec_kind_text(s.kind)
}

/// The plain text of one rendered line.
pub fn line_text(l: &Line) -> (r: String)
    ensures
        r@ == l.indent@ + spec_kind_text(l.kind@),
{
    let mut out = l.indent.clone();
    match &l.kind {
        LineKind::KeyOpen(k) => {
            out.append(k.as_str());
            out.push(':');
        },
        LineKind::KeyScalar(k, t) => {
            out.append(k.as_str());
            out.push(':');
            out.push(' ');
            out.append(t.as_str());
        },
        LineKind::SeqOpen(k) => {
            out.append(k.as_str());
            out.push(':');
            out.push(' ');
            out.push('[');
        },
        LineKind::SeqItem(t) => {
            out.append(t.as_str());
        },
        LineKind::SeqClose => {
            out.push(']');
        },
    }
    assert(out@ =~= l.indent@ + spec_kind_text(l.kind@));
    out
}

/// Renders one response as plain text lines: byte-for-byte the model's
/// rendering, with two spaces of indentation per depth level.
pub fn render_plain(v: &StructuredValue) -> (r: Vec<String>)
    ensures
        r@.len() == spec_render_document((*v)@).len(),
        forall|i: int|
            0 <= i < r@.len() ==> (#[trigger] r@[i])@ == spec_line_text(
                spec_render_document((*v)@)[i],
            ),
{
    let lines = render_document(v);
    let mut out: Vec<String> = Vec::new();
    let mut i: usize = 0;
    while i < lines.len()
        invariant
            i <= lines.len(),
            lines_match(lines@, spec_render_document((*v)@)),
            out@.len() == i,
            forall|j: int|
                0 <= j < i ==> (#[trigger] out@[j])@ == spec_line_text(
                    spec_render_document((*v)@)[j],
                ),
        decreases lines.len() - i,
    {
        let t = line_text(&lines[i]);
        out.push(t);
        i = i + 1;
    }
    out
}

/// Rendering a concatenation of entry lists renders the first list's lines,
/// then the second's: the output preserves the stored entry order, with no
/// sorting and no interleaving.
pub proof fn lemma_render_entries_concat(
    es1: Seq<(Seq<char>, SpecValue)>,
    es2: Seq<(Seq<char>, SpecValue)>,
    depth: nat,
)
    ensures
        spec_render_entries(es1 + es2, depth) == spec_render_entries(es1, depth)
            + spec_render_entries(es2, depth),
    decreases es2.len(),
{
    if es2.len() == 0 {
        assert(es1 + es2 =~= es1);
        assert(spec_render_entries(es1, depth) + spec_render_entries(es2, depth)
            =~= spec_render_entries(es1, depth));
    } else {
        let all = es1 + es2;
        let prefix2 = es2.subrange(0, es2.len() - 1);
        lemma_render_entries_concat(es1, prefix2, depth);
        assert(all.subrange(0, all.len() - 1) =~= es1 + prefix2);
        assert(all[all.len() - 1] == es2[es2.len() - 1]);
        assert(spec_render_entries(es1, depth) + spec_render_entries(es2, depth)
            =~= spec_render_entries(all, depth));
    }
}

/// A mapping entry whose key is the sentinel leaves no trace: the rendering
/// of an entry list with such an entry equals the rendering of the list with
/// that entry removed, at any depth.
pub proof fn lemma_sentinel_suppressed(es: Seq<(Seq<char>, SpecValue)>, i: int, depth: nat)
    requires
        0 <= i < es.len(),
        es[i].0 == spec_sentinel(),
    ensures
        spec_render_entries(es, depth) == spec_render_entries(es.remove(i), depth),
{
    let left = es.subrange(0, i);
    let mid = seq![es[i]];
    let right = es.subrange(i + 1, es.len() as int);
    assert(es =~= left + mid + right);
    lemma_render_entries_concat(left + mid, right, depth);
    lemma_render_entries_concat(left, mid, depth);
    assert(mid.subrange(0, 0) =~= Seq::<(Seq<char>, SpecValue)>::empty());
    assert(spec_render_entry(mid[0], depth) =~= Seq::<SpecLine>::empty());
    assert(spec_render_entries(mid, depth) == spec_render_entries(mid.subrange(0, 0), depth)
        + spec_render_entry(mid[0], depth));
    assert(spec_render_entries(mid, depth) =~= Seq::<SpecLine>::empty());
    lemma_render_entries_concat(left, right, depth);
    assert(es.remove(i) =~= left + right);
    assert(spec_render_entries(es, depth) =~= spec_render_entries(es.remove(i), depth));
}

/// Rendering is deterministic, hence idempotent: any two renderings of the
/// same value, line for line as `render_plain` produces them, are
/// byte-identical.
pub proof fn lemma_render_idempotent(v: SpecValue, first: Seq<Seq<char>>, second: Seq<Seq<char>>)
    requires
        first.len() == spec_render_document(v).len(),
        forall|i: int|
            0 <= i < first.len() ==> #[trigger] first[i] == spec_line_text(
                spec_render_document(v)[i],
            ),
        second.len() == spec_render_document(v).len(),
        forall|i: int|
            0 <= i < second.len() ==> #[trigger] second[i] == spec_line_text(
                spec_render_document(v)[i],
            ),
    ensures
        first == second,
{
    assert(first =~= second);
}

} // verus!

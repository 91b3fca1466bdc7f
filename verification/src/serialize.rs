//! The one-line serialized text of a structured value: the form in which
//! sequence elements and scalars are rendered.

use vstd::prelude::*;
use vstd::string::StringExecFns;
use crate::text::append_quoted;
use crate::text::spec_quoted;
use crate::value::lemma_view_entries;
use crate::value::lemma_view_items;
use crate::value::view_entries;
use crate::value::view_items;
use crate::value::SpecValue;
use crate::value::StructuredValue;

verus! {

/// The serialized text of a value, on one line: `null`, `true` or `false`,
/// the number's decimal text, a quoted and escaped text value, or the
/// brace- or bracket-enclosed, comma-separated entries or elements.
pub open spec fn spec_serialized(v: SpecValue) -> Seq<char>
    decreases v, 0nat,
{
    match v {
        SpecValue::Null => "null"@,
        SpecValue::Boolean(b) => if b { "true"@ } else { "false"@ },
        SpecValue::Number(s) => s,
        SpecValue::Text(s) => spec_quoted(s),
        SpecValue::Mapping(es) => seq!['{'] + spec_serialized_entries(es) + seq!['}'],
        SpecValue::Sequence(items) => seq!['['] + spec_serialized_items(items) + seq![']'],
    }
}

/// The serialized entries of a mapping, in order, comma-separated, each as
/// `"key":value`.
pub open spec fn spec_serialized_entries(es: Seq<(Seq<char>, SpecValue)>) -> Seq<char>
    decreases es, 1nat,
{
    if es.len() == 0 {
        Seq::empty()
    } else {
        let sep: Seq<char> = if es.len() == 1 { Seq::empty() } else { seq![','] };
        spec_serialized_entries(es.subrange(0, es.len() - 1)) + sep + spec_quoted(
            es[es.len() - 1].0,
        ) + seq![':'] + spec_serialized(es[es.len() - 1].1)
    }
}

/// The serialized elements of a sequence, in order, comma-separated.
pub open spec fn spec_serialized_items(items: Seq<SpecValue>) -> Seq<char>
    decreases items, 1nat,
{
    if items.len() == 0 {
        Seq::empty()
    } else {
        let sep: Seq<char> = if items.len() == 1 { Seq::empty() } else { seq![','] };
        spec_serialized_items(items.subrange(0, items.len() - 1)) + sep + spec_serialized(
            items[items.len() - 1],
        )
    }
}

fn append_serialized(v: &StructuredValue, out: &mut String)
    ensures
        final(out)@ == old(out)@ + spec_serialized(v@),
    decreases v, 0nat,
{
    match v {
        StructuredValue::Null => {
            out.append("null");
        },
        StructuredValue::Boolean(b) => {
            if *b {
                out.append("true");
            } else {
                out.append("false");
            }
        },
        StructuredValue::Number(s) => {
            out.append(s.as_str());
        },
        StructuredValue::Text(s) => {
            append_quoted(s.as_str(), out);
        },
        StructuredValue::Mapping(es) => {
            proof {
                lemma_view_entries(es@);
            }
            let ghost ve = view_entries(es@);
            let ghost base = out@;
            out.push('{');
            let mut i: usize = 0;
            while i < es.len()
                invariant
                    *v == StructuredValue::Mapping(*es),
                    i <= es.len(),
                    ve == view_entries(es@),
                    ve.len() == es@.len(),
                    forall|j: int| 0 <= j < es@.len() ==> #[trigger] ve[j] == (
                        es@[j].0@,
                        es@[j].1@,
                    ),
                    out@ == base + seq!['{'] + spec_serialized_entries(ve.subrange(0, i as int)),
                decreases es.len() - i,
            {
                if i > 0 {
                    out.push(',');
                }
                append_quoted(es[i].0.as_str(), out);
                out.push(':');
                proof {
                    vstd::std_specs::vec::axiom_vec_index_decreases(*es, i as int);
                    assert(*es == v->Mapping_0);
                    assert(decreases_to!(*v => v->Mapping_0));
                }
                append_serialized(&es[i].1, out);
                proof {
                    let pre = ve.subrange(0, i as int);
                    let cur = ve.subrange(0, i + 1);
                    assert(cur.subrange(0, cur.len() - 1) =~= pre);
                    assert(cur[cur.len() - 1] == ve[i as int]);
                    assert(out@ =~= base + seq!['{'] + spec_serialized_entries(cur));
                }
                i = i + 1;
            }
            out.push('}');
            proof {
                assert(ve.subrange(0, es@.len() as int) =~= ve);
                assert(out@ =~= old(out)@ + spec_serialized(v@));
            }
        },
        StructuredValue::Sequence(items) => {
            proof {
                lemma_view_items(items@);
            }
            let ghost vi = view_items(items@);
            let ghost base = out@;
            out.push('[');
            let mut i: usize = 0;
            while i < items.len()
                invariant
                    *v == StructuredValue::Sequence(*items),
                    i <= items.len(),
                    vi == view_items(items@),
                    vi.len() == items@.len(),
                    forall|j: int| 0 <= j < items@.len() ==> #[trigger] vi[j] == items@[j]@,
                    out@ == base + seq!['['] + spec_serialized_items(vi.subrange(0, i as int)),
                decreases items.len() - i,
            {
                if i > 0 {
                    out.push(',');
                }
                proof {
                    vstd::std_specs::vec::axiom_vec_index_decreases(*items, i as int);
                    assert(*items == v->Sequence_0);
                    assert(decreases_to!(*v => v->Sequence_0));
                }
                append_serialized(&items[i], out);
                proof {
                    let pre = vi.subrange(0, i as int);
                    let cur = vi.subrange(0, i + 1);
                    assert(cur.subrange(0, cur.len() - 1) =~= pre);
                    assert(cur[cur.len() - 1] == vi[i as int]);
                    assert(out@ =~= base + seq!['['] + spec_serialized_items(cur));
                }
                i = i + 1;
            }
            out.push(']');
            proof {
                assert(vi.subrange(0, items@.len() as int) =~= vi);
                assert(out@ =~= old(out)@ + spec_serialized(v@));
            }
        },
    }
}

/// The serialized one-line text of a structured value.
pub fn serialized(v: &StructuredValue) -> (r: String)
    ensures
        r@ == spec_serialized(v@),
{
    let mut out = String::new();
    append_serialized(v, &mut out);
    out
}

} // verus!

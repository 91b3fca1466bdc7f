//! The recursive structured value: the parsed shape of one remote response.

use vstd::prelude::*;

verus! {

/// A JSON-like tree: the shape of one remote lookup response.
///
/// Numbers are carried as their decimal text, so that a value holds plain
/// data only; the renderer never does arithmetic on them. A `Mapping`
/// preserves the insertion order of its entries.
#[derive(Debug)]
pub enum StructuredValue {
    Null,
    Boolean(bool),
    Number(String),
    Text(String),
    Mapping(Vec<(String, StructuredValue)>),
    Sequence(Vec<StructuredValue>),
}

/// The mathematical model of a `StructuredValue`: the same tree over
/// sequences of characters.
pub enum SpecValue {
    Null,
    Boolean(bool),
    Number(Seq<char>),
    Text(Seq<char>),
    Mapping(Seq<(Seq<char>, SpecValue)>),
    Sequence(Seq<SpecValue>),
}

/// The model of a list of mapping entries, in order.
pub open spec fn view_entries(es: Seq<(String, StructuredValue)>) -> Seq<(Seq<char>, SpecValue)>
    decreases es, 1nat,
{
    if es.len() == 0 {
        Seq::empty()
    } else {
        view_entries(es.subrange(0, es.len() - 1)).push(
            (es[es.len() - 1].0@, es[es.len() - 1].1@),
        )
    }
}

/// The model of a list of sequence elements, in order.
pub open spec fn view_items(items: Seq<StructuredValue>) -> Seq<SpecValue>
    decreases items, 1nat,
{
    if items.len() == 0 {
        Seq::empty()
    } else {
        view_items(items.subrange(0, items.len() - 1)).push(items[items.len() - 1]@)
    }
}

impl View for StructuredValue {
    type V = SpecValue;

    open spec fn view(&self) -> SpecValue
        decreases self, 0nat,
    {
        match self {
            StructuredValue::Null => SpecValue::Null,
            StructuredValue::Boolean(b) => SpecValue::Boolean(*b),
            StructuredValue::Number(s) => SpecValue::Number(s@),
            StructuredValue::Text(s) => SpecValue::Text(s@),
            StructuredValue::Mapping(es) => SpecValue::Mapping(view_entries(es@)),
            StructuredValue::Sequence(items) => SpecValue::Sequence(view_items(items@)),
        }
    }
}

/// `view_entries` maps the entries one to one: length and each pair.
pub proof fn lemma_view_entries(es: Seq<(String, StructuredValue)>)
    ensures
        view_entries(es).len() == es.len(),
        forall|i: int|
            0 <= i < es.len() ==> #[trigger] view_entries(es)[i] == (es[i].0@, es[i].1@),
    decreases es.len(),
{
    if es.len() > 0 {
        let prefix0 = es.subrange(0, es.len() - 1);
        lemma_view_entries(prefix0);
        assert(view_entries(es) == view_entries(prefix0).push(
            (es[es.len() - 1].0@, es[es.len() - 1].1@),
        ));
        assert forall|i: int| 0 <= i < es.len() implies #[trigger] view_entries(es)[i] == (
            es[i].0@,
            es[i].1@,
        ) by {
            let prefix = es.subrange(0, es.len() - 1);
            assert(view_entries(es) == view_entries(prefix).push(
                (es[es.len() - 1].0@, es[es.len() - 1].1@),
            ));
            if i < es.len() - 1 {
                assert(prefix[i] == es[i]);
            }
        }
    }
}

/// `view_items` maps the elements one to one: length and each element.
pub proof fn lemma_view_items(items: Seq<StructuredValue>)
    ensures
        view_items(items).len() == items.len(),
        forall|i: int|
            0 <= i < items.len() ==> #[trigger] view_items(items)[i] == items[i]@,
    decreases items.len(),
{
    if items.len() > 0 {
        let prefix0 = items.subrange(0, items.len() - 1);
        lemma_view_items(prefix0);
        assert(view_items(items) == view_items(prefix0).push(items[items.len() - 1]@));
        assert forall|i: int| 0 <= i < items.len() implies #[trigger] view_items(items)[i]
            == items[i]@ by {
            let prefix = items.subrange(0, items.len() - 1);
            assert(view_items(items) == view_items(prefix).push(items[items.len() - 1]@));
            if i < items.len() - 1 {
                assert(prefix[i] == items[i]);
            }
        }
    }
}

} // verus!

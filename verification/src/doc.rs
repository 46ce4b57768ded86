//! The neutral tree-shaped value a walk produces.
//!
//! A [`DocValue`] is a JSON-compatible tree; what the host serializer does
//! with it is outside this crate.  Floating-point fields of the target are
//! carried as their raw IEEE-754 bit patterns ([`DocValue::F32Bits`]) and
//! only turned into numbers by the serializer.  An object keeps its entries
//! in emission order.

use vstd::prelude::*;

verus! {

/// The mathematical shape of a document value, with strings as character
/// sequences and collections as sequences.
pub enum SpecDoc {
    Null,
    Bool(bool),
    Int(i64),
    UInt(u64),
    F32Bits(u32),
    Text(Seq<char>),
    Arr(Seq<SpecDoc>),
    Obj(Seq<(Seq<char>, SpecDoc)>),
}

/// One key/value entry of a document object.
#[derive(Debug, PartialEq, Eq)]
pub struct DocEntry {
    pub key: String,
    pub value: DocValue,
}

/// A keyed collection of document values, in emission order.
#[derive(Debug, PartialEq, Eq)]
pub struct Doc {
    pub entries: Vec<DocEntry>,
}

/// A JSON-compatible tree value.
#[derive(Debug, PartialEq, Eq)]
pub enum DocValue {
    Null,
    Bool(bool),
    Int(i64),
    UInt(u64),
    /// The raw bit pattern of a 32-bit IEEE-754 value.
    F32Bits(u32),
    Text(String),
    Arr(Vec<DocValue>),
    Obj(Doc),
}

pub open spec fn spec_value_view(d: DocValue) -> SpecDoc
    decreases d, 1int,
{
    match d {
        DocValue::Null => SpecDoc::Null,
        DocValue::Bool(b) => SpecDoc::Bool(b),
        DocValue::Int(v) => SpecDoc::Int(v),
        DocValue::UInt(v) => SpecDoc::UInt(v),
        DocValue::F32Bits(v) => SpecDoc::F32Bits(v),
        DocValue::Text(s) => SpecDoc::Text(s@),
        DocValue::Arr(v) => {
            proof {
                assert(decreases_to!(d => v));
                assert(decreases_to!(v => v@));
            }
            SpecDoc::Arr(spec_arr_view(v@))
        },
        DocValue::Obj(o) => {
            proof {
                assert(decreases_to!(d => o));
                assert(decreases_to!(o => o.entries));
                assert(decreases_to!(o.entries => o.entries@));
            }
            SpecDoc::Obj(spec_entries_view(o.entries@))
        },
    }
}

pub open spec fn spec_arr_view(s: Seq<DocValue>) -> Seq<SpecDoc>
    decreases s, 0int,
{
    if s.len() == 0 {
        Seq::empty()
    } else {
        proof {
            assert(s.drop_last() == s.subrange(0, s.len() - 1));
            assert(decreases_to!(s => s.subrange(0, s.len() - 1)));
            assert(s.last() == s[s.len() - 1]);
            assert(decreases_to!(s => s[s.len() - 1]));
        }
        spec_arr_view(s.drop_last()).push(spec_value_view(s.last()))
    }
}

pub open spec fn spec_entries_view(es: Seq<DocEntry>) -> Seq<(Seq<char>, SpecDoc)>
    decreases es, 0int,
{
    if es.len() == 0 {
        Seq::empty()
    } else {
        proof {
            assert(es.drop_last() == es.subrange(0, es.len() - 1));
            assert(decreases_to!(es => es.subrange(0, es.len() - 1)));
            assert(es.last() == es[es.len() - 1]);
            assert(decreases_to!(es => es[es.len() - 1]));
            assert(decreases_to!(es[es.len() - 1] => es[es.len() - 1].value));
        }
        spec_entries_view(es.drop_last()).push(
            (es.last().key@, spec_value_view(es.last().value)),
        )
    }
}

impl View for DocValue {
    type V = SpecDoc;

    open spec fn view(&self) -> SpecDoc {
        spec_value_view(*self)
    }
}

impl View for Doc {
    type V = Seq<(Seq<char>, SpecDoc)>;

    open spec fn view(&self) -> Seq<(Seq<char>, SpecDoc)> {
        spec_entries_view(self.entries@)
    }
}

/// Appending a value to an array appends its shape to the array's shape.
pub proof fn lemma_arr_view_push(s: Seq<DocValue>, v: DocValue)
    ensures
        spec_arr_view(s.push(v)) == spec_arr_view(s).push(spec_value_view(v)),
{
    assert(s.push(v).drop_last() =~= s);
    assert(s.push(v).last() == v);
}

/// Appending an entry to an object appends its shape to the object's shape.
pub proof fn lemma_entries_view_push(es: Seq<DocEntry>, e: DocEntry)
    ensures
        spec_entries_view(es.push(e)) == spec_entries_view(es).push(
            (e.key@, spec_value_view(e.value)),
        ),
{
    assert(es.push(e).drop_last() =~= es);
    assert(es.push(e).last() == e);
}

/// An object's shape has one pair per entry.
pub proof fn lemma_entries_view_len(es: Seq<DocEntry>)
    ensures
        spec_entries_view(es).len() == es.len(),
    decreases es.len(),
{
    if es.len() > 0 {
        lemma_entries_view_len(es.drop_last());
    }
}

impl Doc {
    pub fn new() -> (d: Doc)
        ensures
            d@ == Seq::<(Seq<char>, SpecDoc)>::empty(),
    {
        let d = Doc { entries: Vec::new() };
        assert(d.entries@ =~= Seq::<DocEntry>::empty());
        d
    }

    /// Appends one entry; keys of distinct properties and classes are
    /// distinct, so emission order is all an object needs.
    pub fn insert(&mut self, key: String, value: DocValue)
        ensures
            final (self)@ == old(self)@.push((key@, value@)),
    {
        let ghost prior = self.entries@;
        let ghost k = key@;
        let ghost v = value@;
        let entry = DocEntry { key, value };
        proof {
            lemma_entries_view_push(prior, entry);
        }
        self.entries.push(entry);
    }

    /// The number of entries.
    pub fn len(&self) -> (n: usize)
        ensures
            n == self@.len(),
    {
        proof {
            lemma_entries_view_len(self.entries@);
        }
        self.entries.len()
    }
}

} // verus!

//! Structured notes: the named values recovered from an epoch's free-text
//! notes.

use crate::assoc::{
    last_with_key, lemma_distinct_keys_count, lemma_map_of_update, lemma_overlay_lookup, map_of,
};
use vstd::prelude::*;

verus! {

/// A JSON number, in the three kinds that `serde_json` keeps apart: an
/// integer that is not negative, a negative integer, and any other number,
/// which is held as the bit pattern of its binary64 value.
#[derive(Clone, Copy, Debug, PartialEq, Eq, Structural)]
pub enum JsonNumber {
    PosInt(u64),
    NegInt(i64),
    Float(u64),
}

/// The number that `serde_json` reads from `text`, `None` where `text` is not
/// a JSON number.
pub uninterp spec fn json_number(text: Seq<char>) -> Option<JsonNumber>;

/// Parses `text` with `serde_json::from_str` as a `serde_json::Number`. The
/// contract names the outcome `json_number(text)`: the parse depends on the
/// text alone, and nothing more is claimed of it. The number is handed out
/// in the kind that `Number::as_u64`, `as_i64` and `as_f64` show it to be,
/// a float by its bits.
#[verifier::external_body]
fn parse_json_number(text: &str) -> (parsed: Option<JsonNumber>)
    ensures
        parsed == json_number(text@),
{
    let number = serde_json::from_str::<serde_json::Number>(text).ok()?;
    if let Some(value) = number.as_u64() {
        return Some(JsonNumber::PosInt(value));
    }
    if let Some(value) = number.as_i64() {
        return Some(JsonNumber::NegInt(value));
    }
    number.as_f64().map(|value| JsonNumber::Float(value.to_bits()))
}

/// The value of one structured field.
#[derive(Debug, PartialEq, Eq)]
pub enum NoteValue {
    Number(JsonNumber),
    Text(String),
}

pub enum NoteValueView {
    Number(JsonNumber),
    Text(Seq<char>),
}

impl View for NoteValue {
    type V = NoteValueView;

    open spec fn view(&self) -> NoteValueView {
        match self {
            NoteValue::Number(number) => NoteValueView::Number(*number),
            NoteValue::Text(text) => NoteValueView::Text(text@),
        }
    }
}

impl DeepView for NoteValue {
    type V = NoteValueView;

    open spec fn deep_view(&self) -> NoteValueView {
        self@
    }
}

impl Clone for NoteValue {
    fn clone(&self) -> (copy: NoteValue)
        ensures
            copy@ == self@,
    {
        match self {
            NoteValue::Number(number) => NoteValue::Number(*number),
            NoteValue::Text(text) => NoteValue::Text(text.clone()),
        }
    }
}

/// The value that captured text stands for, given what the number parser
/// made of it: the number where it is one, the text itself otherwise.
pub open spec fn value_given(text: Seq<char>, parsed: Option<JsonNumber>) -> NoteValueView {
    match parsed {
        Some(number) => NoteValueView::Number(number),
        None => NoteValueView::Text(text),
    }
}

/// The value that captured text stands for.
pub open spec fn value_of(text: Seq<char>) -> NoteValueView {
    value_given(text, json_number(text))
}

/// Turns captured text and the outcome of parsing it as a number into a
/// value.
pub fn note_value_from(text: &str, parsed: Option<JsonNumber>) -> (value: NoteValue)
    ensures
        value@ == value_given(text@, parsed),
{
    match parsed {
        Some(number) => NoteValue::Number(number),
        None => NoteValue::Text(text.to_owned()),
    }
}

/// Reads captured text: as a number where it parses as one, as a string
/// otherwise.
pub fn note_value(text: &str) -> (value: NoteValue)
    ensures
        value@ == value_of(text@),
{
    let parsed = parse_json_number(text);
    note_value_from(text, parsed)
}

/// One named value.
#[derive(Debug, PartialEq, Eq)]
pub struct NoteField {
    pub name: String,
    pub value: NoteValue,
}

/// The fields as pairs of name and value.
pub open spec fn field_pairs(fields: Seq<NoteField>) -> Seq<(Seq<char>, NoteValueView)> {
    Seq::new(fields.len(), |i: int| (fields[i].name@, fields[i].value@))
}

/// No name occurs in two fields.
pub open spec fn names_distinct(fields: Seq<NoteField>) -> bool {
    forall|i: int, j: int| 0 <= i < j < fields.len() ==> fields[i].name@ != fields[j].name@
}

/// A flat mapping from field name to value: a list of fields in which no
/// name occurs twice.
#[derive(Debug, PartialEq, Eq)]
pub struct StructuredNotes {
    entries: Vec<NoteField>,
}

impl StructuredNotes {
    #[verifier::type_invariant]
    spec fn well_formed(self) -> bool {
        names_distinct(self.entries@)
    }

    /// The fields as pairs of name and value, in the order in which their
    /// names were first filed.
    pub closed spec fn pairs(&self) -> Seq<(Seq<char>, NoteValueView)> {
        field_pairs(self.entries@)
    }
}

impl View for StructuredNotes {
    type V = Map<Seq<char>, NoteValueView>;

    closed spec fn view(&self) -> Map<Seq<char>, NoteValueView> {
        map_of(self.pairs())
    }
}

impl DeepView for StructuredNotes {
    type V = Map<Seq<char>, NoteValueView>;

    open spec fn deep_view(&self) -> Map<Seq<char>, NoteValueView> {
        self@
    }
}

impl Clone for StructuredNotes {
    fn clone(&self) -> (copy: StructuredNotes)
        ensures
            copy@ == self@,
            copy.pairs() == self.pairs(),
    {
        proof {
            use_type_invariant(self);
        }
        let mut entries: Vec<NoteField> = Vec::new();
        let mut i: usize = 0;
        while i < self.entries.len()
            invariant
                i <= self.entries.len(),
                entries.len() == i,
                forall|j: int|
                    0 <= j < i ==> entries[j].name@ == self.entries[j].name@ && entries[j].value@
                        == self.entries[j].value@,
            decreases self.entries.len() - i,
        {
            entries.push(
                NoteField { name: self.entries[i].name.clone(), value: self.entries[i].value.clone() },
            );
            i += 1;
        }
        proof {
            assert(field_pairs(entries@) =~= self.pairs());
        }
        StructuredNotes { entries }
    }
}

impl StructuredNotes {
    /// The empty mapping.
    pub fn new() -> (notes: StructuredNotes)
        ensures
            notes@ == Map::<Seq<char>, NoteValueView>::empty(),
            notes.pairs().len() == 0,
    {
        StructuredNotes { entries: Vec::new() }
    }

    /// The fields of the mapping: each name once, with the value filed
    /// under it.
    pub fn fields(&self) -> (fields: &Vec<NoteField>)
        ensures
            names_distinct(fields@),
            field_pairs(fields@) == self.pairs(),
            map_of(field_pairs(fields@)) == self@,
    {
        proof {
            use_type_invariant(self);
        }
        &self.entries
    }

    /// The position of the field named `name`, if the mapping has the name.
    pub fn position(&self, name: &String) -> (found: Option<usize>)
        ensures
            match found {
                Some(i) => i < self.pairs().len() && last_with_key(self.pairs(), name@) == Some(
                    i as int,
                ),
                None => last_with_key(self.pairs(), name@) is None,
            },
    {
        let ghost pairs = self.pairs();
        let mut i: usize = self.entries.len();
        proof {
            assert(pairs.take(i as int) =~= pairs);
        }
        while i > 0
            invariant
                i <= self.entries.len(),
                pairs == self.pairs(),
                last_with_key(pairs, name@) == last_with_key(pairs.take(i as int), name@),
            decreases i,
        {
            if self.entries[i - 1].name == *name {
                return Some(i - 1);
            }
            proof {
                assert(pairs.take(i as int).drop_last() =~= pairs.take(i - 1));
            }
            i -= 1;
        }
        None
    }

    /// The value filed under `name`, if any.
    pub fn get(&self, name: &str) -> (found: Option<&NoteValue>)
        ensures
            match found {
                Some(value) => self@.contains_key(name@) && value@ == self@[name@],
                None => !self@.contains_key(name@),
            },
    {
        let owned = name.to_owned();
        proof {
            lemma_overlay_lookup(Map::empty(), self.pairs(), name@);
        }
        match self.position(&owned) {
            Some(i) => Some(&self.entries[i].value),
            None => None,
        }
    }

    /// Files `value` under `name`, in place of any value the name had.
    pub fn insert(&mut self, name: String, value: NoteValue)
        ensures
            final(self)@ == old(self)@.insert(name@, value@),
    {
        proof {
            use_type_invariant(&*self);
        }
        let ghost before = self.pairs();
        let ghost key = name@;
        let ghost added = value@;
        proof {
            lemma_overlay_lookup(Map::empty(), before, key);
        }
        let found = self.position(&name);
        let mut taken = StructuredNotes { entries: Vec::new() };
        std::mem::swap(self, &mut taken);
        let StructuredNotes { entries } = taken;
        let mut entries = entries;
        let ghost fields = entries@;
        match found {
            Some(i) => {
                proof {
                    lemma_map_of_update(before, i as int, added);
                }
                entries[i].value = value;
                proof {
                    assert(field_pairs(entries@) =~= before.update(i as int, (key, added)));
                    assert(forall|j: int|
                        0 <= j < fields.len() ==> (#[trigger] entries@[j]).name@ == fields[j].name@);
                }
            },
            None => {
                entries.push(NoteField { name, value });
                proof {
                    assert(field_pairs(entries@) =~= before.push((key, added)));
                    assert(before.push((key, added)).drop_last() =~= before);
                    assert(forall|j: int|
                        0 <= j < fields.len() ==> (#[trigger] entries@[j]).name@ == before[j].0);
                }
            },
        }
        *self = StructuredNotes { entries };
    }

    /// The number of names that the mapping holds.
    pub fn len(&self) -> (count: usize)
        ensures
            self@.dom().finite(),
            count == self@.dom().len(),
    {
        proof {
            use_type_invariant(self);
            lemma_distinct_keys_count(self.pairs());
        }
        self.entries.len()
    }
}

} // verus!

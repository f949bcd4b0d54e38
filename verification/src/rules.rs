//! Extraction of structured notes from free-text note lines by an ordered
//! list of rules.

use crate::assoc::{lemma_overlay_concat, lemma_overlay_idempotent, map_of, overlay};
use crate::notes::{note_value, value_of, NoteValueView, StructuredNotes};
use vstd::prelude::*;

verus! {

/// One extraction rule: a pattern with capture groups, and the field names
/// that the groups are bound to, the first group to the first name.
#[derive(Debug, PartialEq, Eq)]
pub struct NoteRule {
    pub fields: Vec<String>,
    pub pattern: String,
}

pub struct NoteRuleView {
    pub fields: Seq<Seq<char>>,
    pub pattern: Seq<char>,
}

impl View for NoteRule {
    type V = NoteRuleView;

    open spec fn view(&self) -> NoteRuleView {
        NoteRuleView { fields: self.fields.deep_view(), pattern: self.pattern@ }
    }
}

impl DeepView for NoteRule {
    type V = NoteRuleView;

    open spec fn deep_view(&self) -> NoteRuleView {
        self@
    }
}

/// The capture groups of the first match of `pattern` in `haystack`, as the
/// `regex` crate finds them: group 0 is the whole match, and a group that
/// took no part in the match is `None`. The result is `None` where nothing
/// matches, and where `pattern` is not a regular expression.
pub uninterp spec fn regex_captures(pattern: Seq<char>, haystack: Seq<char>) -> Option<
    Seq<Option<Seq<char>>>,
>;

/// Compiles `pattern` with `regex::Regex::new` and searches `line` with
/// `Regex::captures`. The contract names the outcome
/// `regex_captures(pattern, line)`: it depends on the two texts alone, and
/// nothing more is claimed of it. The groups are handed out in the order of
/// `Captures::iter`, each as the text it matched. A pattern that does not
/// compile is reported as no match.
#[verifier::external_body]
fn capture_groups(pattern: &str, line: &str) -> (groups: Option<Vec<Option<String>>>)
    ensures
        groups.deep_view() == regex_captures(pattern@, line@),
{
    let matcher = regex::Regex::new(pattern).ok()?;
    let found = matcher.captures(line)?;
    Some(found.iter().map(|group| group.map(|part| part.as_str().to_string())).collect())
}

/// The fields that a match binds, in the order of the fields: field `i`
/// takes the value of group `i + 1`. A field whose group is missing or took
/// no part in the match is not bound.
pub open spec fn bound_fields(fields: Seq<Seq<char>>, groups: Seq<Option<Seq<char>>>) -> Seq<
    (Seq<char>, NoteValueView),
>
    decreases fields.len(),
{
    if fields.len() == 0 {
        Seq::empty()
    } else {
        let front = bound_fields(fields.drop_last(), groups);
        let g = fields.len() as int;
        if g < groups.len() && groups[g] is Some {
            front.push((fields.last(), value_of(groups[g]->0)))
        } else {
            front
        }
    }
}

/// The index of the first rule whose pattern matches `line`.
pub open spec fn first_match(rules: Seq<NoteRuleView>, line: Seq<char>) -> Option<int>
    decreases rules.len(),
{
    if rules.len() == 0 {
        None
    } else {
        match first_match(rules.drop_last(), line) {
            Some(r) => Some(r),
            None => if regex_captures(rules.last().pattern, line) is Some {
                Some(rules.len() - 1)
            } else {
                None
            },
        }
    }
}

/// The fields that one note line binds: those of the first rule that
/// matches, none where no rule does.
pub open spec fn line_bindings(rules: Seq<NoteRuleView>, line: Seq<char>) -> Seq<
    (Seq<char>, NoteValueView),
> {
    match first_match(rules, line) {
        Some(r) => bound_fields(rules[r].fields, regex_captures(rules[r].pattern, line)->0),
        None => Seq::empty(),
    }
}

/// The bindings of all lines, in the order of the lines.
pub open spec fn all_bindings(rules: Seq<NoteRuleView>, lines: Seq<Seq<char>>) -> Seq<
    (Seq<char>, NoteValueView),
>
    decreases lines.len(),
{
    if lines.len() == 0 {
        Seq::empty()
    } else {
        all_bindings(rules, lines.drop_last()) + line_bindings(rules, lines.last())
    }
}

/// The mapping extracted from `lines`: every binding, a later one replacing
/// an earlier one of the same field.
pub open spec fn extracted(rules: Seq<NoteRuleView>, lines: Seq<Seq<char>>) -> Map<
    Seq<char>,
    NoteValueView,
> {
    map_of(all_bindings(rules, lines))
}

/// The indices of the lines that no rule matches, ascending.
pub open spec fn unmatched_lines(rules: Seq<NoteRuleView>, lines: Seq<Seq<char>>) -> Seq<usize>
    decreases lines.len(),
{
    if lines.len() == 0 {
        Seq::empty()
    } else {
        let front = unmatched_lines(rules, lines.drop_last());
        if first_match(rules, lines.last()) is None {
            front.push((lines.len() - 1) as usize)
        } else {
            front
        }
    }
}

/// `first_match` names the first matching rule: it matches and none before
/// it does; where it names none, none matches.
pub proof fn lemma_first_match(rules: Seq<NoteRuleView>, line: Seq<char>)
    ensures
        match first_match(rules, line) {
            Some(r) => {
                &&& 0 <= r < rules.len()
                &&& regex_captures(rules[r].pattern, line) is Some
                &&& forall|j: int| 0 <= j < r ==> regex_captures(rules[j].pattern, line) is None
            },
            None => forall|j: int|
                0 <= j < rules.len() ==> regex_captures(rules[j].pattern, line) is None,
        },
    decreases rules.len(),
{
    if rules.len() > 0 {
        let front = rules.drop_last();
        lemma_first_match(front, line);
        assert(forall|j: int| 0 <= j < front.len() ==> front[j] == rules[j]);
    }
}

/// A rule that matches, with no match before it, is the first match.
pub proof fn lemma_first_match_is(rules: Seq<NoteRuleView>, line: Seq<char>, r: int)
    requires
        0 <= r < rules.len(),
        regex_captures(rules[r].pattern, line) is Some,
        forall|j: int| 0 <= j < r ==> regex_captures(rules[j].pattern, line) is None,
    ensures
        first_match(rules, line) == Some(r),
{
    lemma_first_match(rules, line);
}

/// The bindings of two runs of lines, one after the other, are the bindings
/// of the first followed by those of the second.
pub proof fn lemma_all_bindings_concat(
    rules: Seq<NoteRuleView>,
    first: Seq<Seq<char>>,
    second: Seq<Seq<char>>,
)
    ensures
        all_bindings(rules, first + second) == all_bindings(rules, first) + all_bindings(
            rules,
            second,
        ),
    decreases second.len(),
{
    if second.len() == 0 {
        assert(all_bindings(rules, first) + all_bindings(rules, second) =~= all_bindings(
            rules,
            first,
        ));
    } else {
        lemma_all_bindings_concat(rules, first, second.drop_last());
        assert((first + second).drop_last() =~= first + second.drop_last());
        assert(all_bindings(rules, first + second) =~= all_bindings(rules, first) + all_bindings(
            rules,
            second,
        ));
    }
}

/// Extraction is idempotent: reading the same lines a second time, after
/// the first, yields the mapping that reading them once yields, and filing
/// their bindings once more in that mapping leaves it as it is.
pub proof fn lemma_extraction_idempotent(rules: Seq<NoteRuleView>, lines: Seq<Seq<char>>)
    ensures
        extracted(rules, lines + lines) == extracted(rules, lines),
        overlay(extracted(rules, lines), all_bindings(rules, lines)) == extracted(rules, lines),
{
    let bindings = all_bindings(rules, lines);
    lemma_all_bindings_concat(rules, lines, lines);
    lemma_overlay_concat(Map::empty(), bindings, bindings);
    lemma_overlay_idempotent(Map::empty(), bindings);
}

/// Extraction is deterministic: two mappings extracted from the same lines
/// by the same rules are the same mapping.
pub proof fn lemma_extraction_deterministic(
    rules: Seq<NoteRuleView>,
    lines: Seq<Seq<char>>,
    first: StructuredNotes,
    second: StructuredNotes,
)
    requires
        first@ == extracted(rules, lines),
        second@ == extracted(rules, lines),
    ensures
        first@ == second@,
{
}

/// Binds the groups of a match to the fields of its rule: each field whose
/// group took part in the match is filed in `notes` with the group's value,
/// in place of any value the field had.
pub fn bind_captures(
    fields: &Vec<String>,
    groups: &Vec<Option<String>>,
    notes: &mut StructuredNotes,
)
    ensures
        final(notes)@ == overlay(
            old(notes)@,
            bound_fields(fields.deep_view(), groups.deep_view()),
        ),
{
    let ghost names = fields.deep_view();
    let ghost parts = groups.deep_view();
    let mut i: usize = 0;
    while i < fields.len()
        invariant
            i <= fields.len(),
            names == fields.deep_view(),
            parts == groups.deep_view(),
            notes@ == overlay(old(notes)@, bound_fields(names.take(i as int), parts)),
        decreases fields.len() - i,
    {
        proof {
            assert(names.take(i + 1).drop_last() =~= names.take(i as int));
        }
        if i + 1 < groups.len() {
            match &groups[i + 1] {
                Some(text) => {
                    let ghost front = bound_fields(names.take(i as int), parts);
                    let value = note_value(text.as_str());
                    proof {
                        assert(front.push((fields[i as int]@, value@)).drop_last() =~= front);
                    }
                    notes.insert(fields[i].clone(), value);
                },
                None => {},
            }
        }
        i += 1;
    }
    proof {
        assert(names.take(i as int) =~= names);
    }
}

/// What extraction yields: the mapping, and the lines that no rule matched.
#[derive(Debug, PartialEq, Eq)]
pub struct NoteExtraction {
    pub notes: StructuredNotes,
    /// Indices of the lines left out, ascending.
    pub unmatched: Vec<usize>,
}

/// Applies the first matching rule to one line and files what it binds in
/// `notes`. Returns whether a rule matched.
pub fn extract_line(rules: &Vec<NoteRule>, line: &str, notes: &mut StructuredNotes) -> (matched:
    bool)
    ensures
        matched == first_match(rules.deep_view(), line@) is Some,
        final(notes)@ == overlay(old(notes)@, line_bindings(rules.deep_view(), line@)),
{
    let ghost views = rules.deep_view();
    let mut r: usize = 0;
    while r < rules.len()
        invariant
            r <= rules.len(),
            views == rules.deep_view(),
            forall|j: int| 0 <= j < r ==> regex_captures(views[j].pattern, line@) is None,
            notes@ == old(notes)@,
        decreases rules.len() - r,
    {
        let rule = &rules[r];
        match capture_groups(rule.pattern.as_str(), line) {
            Some(groups) => {
                proof {
                    lemma_first_match_is(views, line@, r as int);
                }
                bind_captures(&rule.fields, &groups, notes);
                return true;
            },
            None => {},
        }
        r += 1;
    }
    proof {
        lemma_first_match(views, line@);
    }
    false
}

/// Extracts structured notes from `lines` by `rules`. Each line is read by
/// the first rule that matches it; a line that no rule matches is left out
/// and reported, never an error.
pub fn extract_notes(rules: &Vec<NoteRule>, lines: &Vec<String>) -> (extraction: NoteExtraction)
    ensures
        extraction.notes@ == extracted(rules.deep_view(), lines.deep_view()),
        extraction.unmatched@ == unmatched_lines(rules.deep_view(), lines.deep_view()),
{
    let ghost views = rules.deep_view();
    let ghost texts = lines.deep_view();
    let mut notes = StructuredNotes::new();
    let mut unmatched: Vec<usize> = Vec::new();
    let mut i: usize = 0;
    while i < lines.len()
        invariant
            i <= lines.len(),
            views == rules.deep_view(),
            texts == lines.deep_view(),
            notes@ == extracted(views, texts.take(i as int)),
            unmatched@ == unmatched_lines(views, texts.take(i as int)),
        decreases lines.len() - i,
    {
        proof {
            assert(texts.take(i + 1).drop_last() =~= texts.take(i as int));
            lemma_overlay_concat(
                Map::empty(),
                all_bindings(views, texts.take(i as int)),
                line_bindings(views, lines[i as int]@),
            );
        }
        let matched = extract_line(rules, lines[i].as_str(), &mut notes);
        if !matched {
            unmatched.push(i);
        }
        i += 1;
    }
    proof {
        assert(texts.take(i as int) =~= texts);
    }
    NoteExtraction { notes, unmatched }
}

} // verus!

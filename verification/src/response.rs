//! The upstream response schema, and the answer a response carries.
//!
//! A response is an object with an optional list `candidates`; a candidate
//! is an object with an optional `content`; a content is an object with an
//! optional list `parts`; a part is an object with an optional string
//! `text`. A member that is absent or `null` is simply not there. The answer
//! is the first candidate's first part's text.

use vstd::prelude::*;
use vstd::string::*;
use crate::json::{elements, is_null, is_object, json_of, member, text, Json};

verus! {

/// The member of a response that lists its candidates.
pub const CANDIDATES: &'static str = "candidates";

/// The member of a candidate that holds its content.
pub const CONTENT: &'static str = "content";

/// The member of a content that lists its parts.
pub const PARTS: &'static str = "parts";

/// The member of a part that holds its text.
pub const TEXT: &'static str = "text";

/// What looking for the answer in a piece of a response comes to.
#[derive(Debug, PartialEq, Eq)]
pub enum Found {
    /// The piece does not have the shape the schema gives it.
    Misfit,
    /// The piece fits the schema and holds no answer.
    Nothing,
    /// The piece fits the schema and this is the answer.
    Text(String),
}

/// The mathematical value of a [`Found`].
pub enum FoundView {
    Misfit,
    Nothing,
    Text(Seq<char>),
}

impl View for Found {
    type V = FoundView;

    open spec fn view(&self) -> FoundView {
        match self {
            Found::Misfit => FoundView::Misfit,
            Found::Nothing => FoundView::Nothing,
            Found::Text(answer) => FoundView::Text(answer@),
        }
    }
}

/// What each value of a list holds.
pub open spec fn models_of(values: Seq<serde_json::Value>) -> Seq<Json> {
    Seq::new(values.len(), |i: int| json_of(values[i]))
}

/// The member of `doc` named `key`, where `doc` is an object that has one
/// and it is not `null`.
pub open spec fn field_spec(doc: Json, key: Seq<char>) -> Option<Json> {
    match doc {
        Json::Object(members) => if members.contains_key(key) && !(members[key] is Null) {
            Some(members[key])
        } else {
            None
        },
        _ => None,
    }
}

/// The answer in one part.
pub open spec fn part_found(part: Json) -> FoundView {
    if !(part is Object) {
        FoundView::Misfit
    } else {
        match field_spec(part, TEXT@) {
            None => FoundView::Nothing,
            Some(Json::Text(answer)) => FoundView::Text(answer),
            Some(_) => FoundView::Misfit,
        }
    }
}

/// The answer in a list of parts: every part must fit, the first one
/// counts.
pub open spec fn parts_found(parts: Seq<Json>) -> FoundView {
    if exists|i: int| 0 <= i < parts.len() && #[trigger] part_found(parts[i]) is Misfit {
        FoundView::Misfit
    } else if parts.len() == 0 {
        FoundView::Nothing
    } else {
        part_found(parts[0])
    }
}

/// The answer in one content.
pub open spec fn content_found(content: Json) -> FoundView {
    if !(content is Object) {
        FoundView::Misfit
    } else {
        match field_spec(content, PARTS@) {
            None => FoundView::Nothing,
            Some(Json::Array(parts)) => parts_found(parts),
            Some(_) => FoundView::Misfit,
        }
    }
}

/// The answer in one candidate.
pub open spec fn candidate_found(candidate: Json) -> FoundView {
    if !(candidate is Object) {
        FoundView::Misfit
    } else {
        match field_spec(candidate, CONTENT@) {
            None => FoundView::Nothing,
            Some(content) => content_found(content),
        }
    }
}

/// The answer in a list of candidates: every candidate must fit, the first
/// one counts.
pub open spec fn candidates_found(candidates: Seq<Json>) -> FoundView {
    if exists|i: int|
        0 <= i < candidates.len() && #[trigger] candidate_found(candidates[i]) is Misfit {
        FoundView::Misfit
    } else if candidates.len() == 0 {
        FoundView::Nothing
    } else {
        candidate_found(candidates[0])
    }
}

/// The answer in a whole response.
pub open spec fn response_found(doc: Json) -> FoundView {
    if !(doc is Object) {
        FoundView::Misfit
    } else {
        match field_spec(doc, CANDIDATES@) {
            None => FoundView::Nothing,
            Some(Json::Array(candidates)) => candidates_found(candidates),
            Some(_) => FoundView::Misfit,
        }
    }
}

/// The member of `value` named `key`, unless there is none or it is `null`.
pub fn field<'a>(value: &'a serde_json::Value, key: &str) -> (found: Option<
    &'a serde_json::Value,
>)
    ensures
        match found {
            Some(inner) => field_spec(json_of(*value), key@) == Some(json_of(*inner)),
            None => field_spec(json_of(*value), key@) is None,
        },
{
    match member(value, key) {
        Some(inner) => if is_null(inner) {
            None
        } else {
            Some(inner)
        },
        None => None,
    }
}

/// Looks for the answer in one part.
pub fn find_in_part(part: &serde_json::Value) -> (found: Found)
    ensures
        found@ == part_found(json_of(*part)),
{
    if !is_object(part) {
        return Found::Misfit;
    }
    match field(part, TEXT) {
        None => Found::Nothing,
        Some(inner) => match text(inner) {
            Some(answer) => Found::Text(answer.to_owned()),
            None => Found::Misfit,
        },
    }
}

/// Looks for the answer in a list of parts.
pub fn find_in_parts(parts: &Vec<serde_json::Value>) -> (found: Found)
    ensures
        found@ == parts_found(models_of(parts@)),
{
    let ghost models = models_of(parts@);
    let mut first = Found::Nothing;
    let mut i: usize = 0;
    while i < parts.len()
        invariant
            i <= parts@.len(),
            models == models_of(parts@),
            forall|j: int| 0 <= j < i ==> !(#[trigger] part_found(models[j]) is Misfit),
            first@ == if i == 0 {
                FoundView::Nothing
            } else {
                part_found(models[0])
            },
        decreases parts@.len() - i,
    {
        let found = find_in_part(&parts[i]);
        match found {
            Found::Misfit => {
                assert(part_found(models[i as int]) is Misfit);
                return Found::Misfit;
            },
            _ => {
                if i == 0 {
                    first = found;
                }
            },
        }
        i += 1;
    }
    first
}

/// Looks for the answer in one content.
pub fn find_in_content(content: &serde_json::Value) -> (found: Found)
    ensures
        found@ == content_found(json_of(*content)),
{
    if !is_object(content) {
        return Found::Misfit;
    }
    match field(content, PARTS) {
        None => Found::Nothing,
        Some(inner) => match elements(inner) {
            None => Found::Misfit,
            Some(parts) => {
                assert(json_of(*inner)->Array_0 =~= models_of(parts@));
                find_in_parts(parts)
            },
        },
    }
}

/// Looks for the answer in one candidate.
pub fn find_in_candidate(candidate: &serde_json::Value) -> (found: Found)
    ensures
        found@ == candidate_found(json_of(*candidate)),
{
    if !is_object(candidate) {
        return Found::Misfit;
    }
    match field(candidate, CONTENT) {
        None => Found::Nothing,
        Some(content) => find_in_content(content),
    }
}

/// Looks for the answer in a list of candidates.
pub fn find_in_candidates(candidates: &Vec<serde_json::Value>) -> (found: Found)
    ensures
        found@ == candidates_found(models_of(candidates@)),
{
    let ghost models = models_of(candidates@);
    let mut first = Found::Nothing;
    let mut i: usize = 0;
    while i < candidates.len()
        invariant
            i <= candidates@.len(),
            models == models_of(candidates@),
            forall|j: int| 0 <= j < i ==> !(#[trigger] candidate_found(models[j]) is Misfit),
            first@ == if i == 0 {
                FoundView::Nothing
            } else {
                candidate_found(models[0])
            },
        decreases candidates@.len() - i,
    {
        let found = find_in_candidate(&candidates[i]);
        match found {
            Found::Misfit => {
                assert(candidate_found(models[i as int]) is Misfit);
                return Found::Misfit;
            },
            _ => {
                if i == 0 {
                    first = found;
                }
            },
        }
        i += 1;
    }
    first
}

/// Looks for the answer in a whole response.
pub fn find_in_response(doc: &serde_json::Value) -> (found: Found)
    ensures
        found@ == response_found(json_of(*doc)),
{
    if !is_object(doc) {
        return Found::Misfit;
    }
    match field(doc, CANDIDATES) {
        None => Found::Nothing,
        Some(inner) => match elements(inner) {
            None => Found::Misfit,
            Some(candidates) => {
                assert(json_of(*inner)->Array_0 =~= models_of(candidates@));
                find_in_candidates(candidates)
            },
        },
    }
}

} // verus!

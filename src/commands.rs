//! What the commands decide before and after talking to the API: request
//! bodies built from the user's options, tag edits, confirmations and the
//! health-check verdict.

use vstd::prelude::*;

use crate::dates::{bad_date_message, parse_due_date, parsed_day, spec_end_of_day, DATE_INPUT};
use crate::error::BlazeError;
use crate::filter::contains_tag;
use crate::text::{texts, trim, trimmed};
use crate::types::{
    CardCreate, CardUpdate, Column, PlanCreate, PlanFileCreate, PlanFileUpdate, PlanStatus,
    PlanUpdate, Priority, Timestamp,
};

verus! {

broadcast use vstd::seq_lib::group_seq_properties;

/// Options of `blaze add`.
pub struct AddOptions {
    pub title: String,
    pub description: Option<String>,
    pub column: Column,
    pub priority: Priority,
    pub tags: Vec<String>,
    pub due: Option<String>,
}

/// Options of `blaze edit`.
pub struct EditOptions {
    pub card_id: String,
    pub title: Option<String>,
    pub description: Option<String>,
    pub column: Option<Column>,
    pub priority: Option<Priority>,
    pub tags_add: Vec<String>,
    pub tags_remove: Vec<String>,
    pub due: Option<String>,
    pub clear_due: bool,
}

/// The due date an optional `YYYY-MM-DD` text stands for.
pub open spec fn due_outcome(due: Option<String>) -> Result<Option<Timestamp>, ()> {
    match due {
        None => Ok(None),
        Some(t) => match parsed_day(t@, DATE_INPUT@) {
            Some(d) => Ok(Some(spec_end_of_day(d))),
            None => Err(()),
        },
    }
}

fn parse_optional_due(due: &Option<String>) -> (r: Result<Option<Timestamp>, BlazeError>)
    ensures
        due_outcome(*due) matches Ok(d) ==> r == Ok::<Option<Timestamp>, BlazeError>(d),
        due_outcome(*due) is Err ==> (r matches Err(BlazeError::InvalidInput(m)) && due matches Some(
            t,
        ) && m@ == bad_date_message(t@)),
{
    match due {
        Some(t) => match parse_due_date(t.as_str()) {
            Ok(d) => Ok(Some(d)),
            Err(e) => Err(e),
        },
        None => Ok(None),
    }
}

/// The body that creates a card from the options of `blaze add`. A due date
/// that does not read as `YYYY-MM-DD` is an invalid-input error.
pub fn build_card_create(options: AddOptions) -> (r: Result<CardCreate, BlazeError>)
    ensures
        due_outcome(options.due) matches Ok(d) ==> r == Ok::<CardCreate, BlazeError>(
            CardCreate {
                title: options.title,
                description: options.description,
                priority: options.priority,
                column: options.column,
                due_date: d,
                tags: options.tags,
            },
        ),
        due_outcome(options.due) is Err ==> (r matches Err(BlazeError::InvalidInput(m))
            && options.due matches Some(t) && m@ == bad_date_message(t@)),
{
    let due_date = match parse_optional_due(&options.due) {
        Ok(d) => d,
        Err(e) => {
            return Err(e);
        },
    };
    Ok(
        CardCreate {
            title: options.title,
            description: options.description,
            priority: options.priority,
            column: options.column,
            due_date,
            tags: options.tags,
        },
    )
}

/// `current` with each tag of `add` that it lacks appended, in order.
pub open spec fn with_added(current: Seq<Seq<char>>, add: Seq<Seq<char>>) -> Seq<Seq<char>>
    decreases add.len(),
{
    if add.len() == 0 {
        current
    } else {
        let before = with_added(current, add.drop_last());
        if before.contains(add.last()) {
            before
        } else {
            before.push(add.last())
        }
    }
}

pub open spec fn not_in(remove: Seq<Seq<char>>) -> spec_fn(Seq<char>) -> bool {
    |t: Seq<char>| !remove.contains(t)
}

/// The tags of a card after an edit: the missing tags of `add` are appended,
/// then every tag of `remove` is dropped.
pub open spec fn merged_tags(current: Seq<Seq<char>>, add: Seq<Seq<char>>, remove: Seq<Seq<char>>) -> Seq<Seq<char>> {
    with_added(current, add).filter(not_in(remove))
}

/// Applies an edit of tags: appends each tag of `add` that is missing, then
/// drops every tag listed in `remove`.
pub fn merge_tags(current: Vec<String>, add: &Vec<String>, remove: &Vec<String>) -> (r: Vec<String>)
    ensures
        texts(r@) == merged_tags(texts(current@), texts(add@), texts(remove@)),
{
    let mut tags = current;
    let mut i: usize = 0;
    while i < add.len()
        invariant
            i <= add@.len(),
            texts(tags@) == with_added(texts(current@), texts(add@).subrange(0, i as int)),
        decreases add@.len() - i,
    {
        let ghost before = texts(tags@);
        let present = contains_tag(&tags, &add[i]);
        assert(texts(add@).subrange(0, i + 1).drop_last() =~= texts(add@).subrange(0, i as int));
        assert(present == before.contains(add@[i as int]@)) by {
            if present {
                let j = choose|j: int| 0 <= j < tags@.len() && tags@[j]@ == add@[i as int]@;
                assert(before[j] == add@[i as int]@);
            }
            if before.contains(add@[i as int]@) {
                let j = choose|j: int| 0 <= j < before.len() && before[j] == add@[i as int]@;
                assert(tags@[j]@ == add@[i as int]@);
            }
        }
        if !present {
            tags.push(add[i].clone());
            assert(texts(tags@) =~= before.push(add@[i as int]@));
        }
        i = i + 1;
    }
    assert(texts(add@).subrange(0, add@.len() as int) =~= texts(add@));
    let ghost kept = texts(tags@);
    let ghost all = tags@;
    let ghost pred = not_in(texts(remove@));
    let mut rest = tags;
    let mut out: Vec<String> = Vec::new();
    let ghost k: int = 0;
    while rest.len() > 0
        invariant
            pred == not_in(texts(remove@)),
            kept == texts(all),
            0 <= k <= all.len(),
            rest@ == all.subrange(k, all.len() as int),
            texts(out@) == kept.subrange(0, k).filter(pred),
        decreases rest@.len(),
    {
        let t = rest.remove(0);
        proof {
            assert(kept.subrange(0, k + 1) =~= kept.subrange(0, k).push(t@));
            kept.subrange(0, k).lemma_filter_push(t@, pred);
            k = k + 1;
        }
        let dropped = contains_tag(remove, &t);
        assert(dropped == texts(remove@).contains(t@)) by {
            if dropped {
                let j = choose|j: int| 0 <= j < remove@.len() && remove@[j]@ == t@;
                assert(texts(remove@)[j] == t@);
            }
            if texts(remove@).contains(t@) {
                let j = choose|j: int| 0 <= j < texts(remove@).len() && texts(remove@)[j] == t@;
                assert(remove@[j]@ == t@);
            }
        }
        if !dropped {
            let ghost prev = texts(out@);
            out.push(t);
            assert(texts(out@) =~= prev.push(t@));
        }
        assert(rest@ =~= all.subrange(k, all.len() as int));
    }
    assert(kept.subrange(0, k) =~= kept);
    out
}

/// The edit changes tags, so the card's current tags are needed first.
pub open spec fn spec_edits_tags(options: &EditOptions) -> bool {
    options.tags_add@.len() > 0 || options.tags_remove@.len() > 0
}

/// Whether the edit changes tags, so that the card's current tags must be
/// fetched before the update is built.
pub fn edits_tags(options: &EditOptions) -> (r: bool)
    ensures
        r == spec_edits_tags(options),
{
    !options.tags_add.is_empty() || !options.tags_remove.is_empty()
}

/// Message of an edit that changes nothing.
pub const NOTHING_TO_UPDATE: &'static str = "No fields to update. Specify at least one option.";

/// The due date an edit sets: none when it clears the due date.
pub open spec fn edit_due(options: &EditOptions) -> Result<Option<Timestamp>, ()> {
    if options.clear_due {
        Ok(None)
    } else {
        due_outcome(options.due)
    }
}

/// The edit, with due date `due`, changes nothing.
pub open spec fn edit_is_empty(options: &EditOptions, due: Option<Timestamp>) -> bool {
    options.title is None && options.description is None && options.column is None
        && options.priority is None && !spec_edits_tags(options) && due is None
        && !options.clear_due
}

/// `u` carries every field of the edit, with due date `due` and the tags
/// merged into `current_tags`.
pub open spec fn update_matches(u: CardUpdate, options: &EditOptions, due: Option<Timestamp>, current_tags: Option<Vec<String>>) -> bool {
    &&& u.title == options.title
    &&& u.description == options.description
    &&& u.priority == options.priority
    &&& u.column == options.column
    &&& u.due_date == due
    &&& u.agent_assignable is None
    &&& spec_edits_tags(options) <==> u.tags is Some
    &&& u.tags matches Some(t) ==> texts(t@) == merged_tags(
        texts(current_tags->0@),
        texts(options.tags_add@),
        texts(options.tags_remove@),
    )
}

/// The body that updates a card from the options of `blaze edit`, given the
/// card's current tags when the edit changes tags. `clear_due` wins over a
/// due date. A due date that does not read as `YYYY-MM-DD` is an
/// invalid-input error; so is an edit that changes nothing.
pub fn build_card_update(options: EditOptions, current_tags: Option<Vec<String>>) -> (r: Result<CardUpdate, BlazeError>)
    requires
        spec_edits_tags(&options) ==> current_tags is Some,
    ensures
        edit_due(&options) is Err ==> (r matches Err(BlazeError::InvalidInput(m))
            && options.due matches Some(t) && m@ == bad_date_message(t@)),
        edit_due(&options) matches Ok(d) ==> (edit_is_empty(&options, d) ==> (r matches Err(
            BlazeError::InvalidInput(m),
        ) && m@ == NOTHING_TO_UPDATE@)),
        edit_due(&options) matches Ok(d) ==> (!edit_is_empty(&options, d) ==> (r matches Ok(u)
            && update_matches(u, &options, d, current_tags))),
{
    let touches = edits_tags(&options);
    let tags = if touches {
        match current_tags {
            Some(cur) => Some(merge_tags(cur, &options.tags_add, &options.tags_remove)),
            None => None,
        }
    } else {
        None
    };
    let due_date = if options.clear_due {
        None
    } else {
        match parse_optional_due(&options.due) {
            Ok(d) => d,
            Err(e) => {
                return Err(e);
            },
        }
    };
    if options.title.is_none() && options.description.is_none() && options.column.is_none()
        && options.priority.is_none() && tags.is_none() && due_date.is_none()
        && !options.clear_due {
        return Err(BlazeError::InvalidInput(String::from_str(NOTHING_TO_UPDATE)));
    }
    Ok(
        CardUpdate {
            title: options.title,
            description: options.description,
            priority: options.priority,
            column: options.column,
            due_date,
            tags,
            agent_assignable: None,
        },
    )
}

/// A confirmation answer reads `y` or `Y` once trimmed.
pub open spec fn spec_is_yes(t: Seq<char>) -> bool {
    t == seq!['y'] || t == seq!['Y']
}

/// Whether an already trimmed answer confirms.
pub fn answer_is_yes(trimmed_answer: &str) -> (r: bool)
    ensures
        r == spec_is_yes(trimmed_answer@),
{
    if trimmed_answer.unicode_len() != 1 {
        return false;
    }
    let c = trimmed_answer.get_char(0);
    assert(trimmed_answer@ =~= seq![c]);
    c == 'y' || c == 'Y'
}

/// Whether the answer to a deletion prompt confirms it: `y` or `Y`, with
/// surrounding white space ignored.
pub fn is_confirmation(answer: &str) -> (r: bool)
    ensures
        r == spec_is_yes(trimmed(answer@)),
{
    let t = trim(answer);
    answer_is_yes(t.as_str())
}

/// The body that creates a plan, with one empty file when a file name is
/// given.
pub fn build_plan_create(title: String, file: Option<String>) -> (r: PlanCreate)
    ensures
        r.title == title,
        file is None ==> r.files@.len() == 0,
        file matches Some(name) ==> (r.files@.len() == 1 && r.files@[0].name == name
            && r.files@[0].content@.len() == 0),
{
    let mut files: Vec<PlanFileCreate> = Vec::new();
    match file {
        Some(name) => {
            files.push(PlanFileCreate { name, content: String::new() });
        },
        None => {},
    }
    PlanCreate { title, files }
}

/// The body that adds an empty file to a plan.
pub fn build_plan_file_create(filename: &str) -> (r: PlanFileCreate)
    ensures
        r.name@ == filename@,
        r.content@.len() == 0,
{
    PlanFileCreate { name: String::from_str(filename), content: String::new() }
}

/// The body that updates a plan.
pub fn build_plan_update(title: Option<String>, status: Option<PlanStatus>) -> (r: PlanUpdate)
    ensures
        r.title == title,
        r.status == status,
{
    PlanUpdate { title, status }
}

/// The body that renames a plan file or replaces its content.
pub fn build_plan_file_update(name: Option<String>, content: Option<String>) -> (r: PlanFileUpdate)
    ensures
        r.name == name,
        r.content == content,
{
    PlanFileUpdate { name, content }
}

/// The verdict of `blaze ping`.
#[derive(Clone, Debug, PartialEq)]
pub struct PingResult {
    pub ok: bool,
    pub url: String,
    pub error: Option<String>,
}

/// The health check answered with `status` (or failed): the API is healthy
/// exactly when the status reads `ok`; otherwise the error says why.
pub fn ping_result(url: &str, outcome: &Result<String, BlazeError>) -> (r: PingResult)
    ensures
        r.url@ == url@,
        outcome matches Ok(s) ==> (r.ok == (s@ == "ok"@) && (r.ok <==> r.error is None) && (
        r.error matches Some(m) ==> m@ == "Unexpected status: "@ + s@)),
        outcome matches Err(e) ==> (!r.ok && (r.error matches Some(m) && m@ == e.spec_message())),
{
    match outcome {
        Ok(status) => {
            let ok = status.eq(&String::from_str("ok"));
            let error = if ok {
                None
            } else {
                let mut m = String::from_str("Unexpected status: ");
                m.append(status.as_str());
                Some(m)
            };
            PingResult { ok, url: String::from_str(url), error }
        },
        Err(e) => PingResult { ok: false, url: String::from_str(url), error: Some(e.message()) },
    }
}

} // verus!

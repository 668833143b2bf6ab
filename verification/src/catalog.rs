//! The list of courses that still await an evaluation.
//!
//! The portal answers the list query with an envelope that holds the records
//! under `data.records`. A record that carries the flag `"1"` has been
//! evaluated already; every other record is pending. An answer without
//! records is no fault: then nothing is pending.

use vstd::prelude::*;
use vstd::string::*;
use crate::form::{form_view, put, FormField};
use crate::json::Json;

verus! {

pub const DATA_KEY: &'static str = "data";

pub const RECORDS_KEY: &'static str = "records";

/// The member that tells whether a record has been evaluated.
pub const FLAG_KEY: &'static str = "SFPG";

/// The value of the flag on a record that has been evaluated.
pub const EVALUATED: &'static str = "1";

pub const SESSION_ID_KEY: &'static str = "KTID";

pub const COURSE_NAME_KEY: &'static str = "KCM";

pub const FORM_ID_KEY: &'static str = "WJBM";

/// One course that awaits its evaluation.
pub struct EvaluationRecord {
    pub course_session_id: String,
    pub course_name: String,
    pub form_definition_id: String,
}

/// What an `EvaluationRecord` holds, as texts.
pub struct RecordView {
    pub course_session_id: Seq<char>,
    pub course_name: Seq<char>,
    pub form_definition_id: Seq<char>,
}

impl View for EvaluationRecord {
    type V = RecordView;

    open spec fn view(&self) -> RecordView {
        RecordView {
            course_session_id: self.course_session_id@,
            course_name: self.course_name@,
            form_definition_id: self.form_definition_id@,
        }
    }
}

/// What the list query found.
pub enum Catalog {
    /// No course awaits an evaluation.
    NothingPending,
    /// The courses that await one, in the order of the answer; at least one.
    Pending(Vec<EvaluationRecord>),
}

/// Why an answer to the list query could not be used.
#[derive(Debug, Clone, Copy, PartialEq, Eq, Structural)]
pub enum CatalogError {
    /// The pending record at this position lacks an identifier or a name.
    MalformedRecord(usize),
}

/// The records of an answer; none where the envelope holds no array of them.
pub open spec fn listed_entries(body: Json) -> Seq<Json> {
    match body.member(DATA_KEY@) {
        Some(data) => match data.member(RECORDS_KEY@) {
            Some(records) => match records.items() {
                Some(items) => items,
                None => Seq::empty(),
            },
            None => Seq::empty(),
        },
        None => Seq::empty(),
    }
}

/// A record has been evaluated when its flag is the text `"1"`.
pub open spec fn is_evaluated(entry: Json) -> bool {
    entry.member_text(FLAG_KEY@) == Some(EVALUATED@)
}

/// The test that a pending record passes.
pub open spec fn is_pending() -> spec_fn(Json) -> bool {
    |entry: Json| !is_evaluated(entry)
}

/// The records of an answer that have not been evaluated, in their order.
pub open spec fn pending_entries_of(body: Json) -> Seq<Json> {
    listed_entries(body).filter(is_pending())
}

/// What a record holds, where it has its two identifiers and its name as
/// texts.
pub open spec fn record_of(entry: Json) -> Option<RecordView> {
    match (
        entry.member_text(SESSION_ID_KEY@),
        entry.member_text(COURSE_NAME_KEY@),
        entry.member_text(FORM_ID_KEY@),
    ) {
        (Some(session), Some(name), Some(form)) => Some(
            RecordView { course_session_id: session, course_name: name, form_definition_id: form },
        ),
        _ => None,
    }
}

/// The body of the list query: the first page, thirty records a page, the
/// category of course evaluations.
pub open spec fn query_form_spec() -> Seq<(Seq<char>, Seq<char>)> {
    seq![("pageNum"@, "1"@), ("pageSize"@, "30"@), ("flag"@, "kt"@)]
}

/// Every record without the flag `"1"` is pending, no record with it is, and
/// filtering adds nothing.
pub proof fn lemma_pending_is_exactly_the_unevaluated(body: Json)
    ensures
        pending_entries_of(body).len() <= listed_entries(body).len(),
        forall|k: int|
            0 <= k < pending_entries_of(body).len() ==> !is_evaluated(
                #[trigger] pending_entries_of(body)[k],
            ) && listed_entries(body).contains(pending_entries_of(body)[k]),
        forall|k: int|
            0 <= k < listed_entries(body).len() && !is_evaluated(
                #[trigger] listed_entries(body)[k],
            ) ==> pending_entries_of(body).contains(listed_entries(body)[k]),
{
    broadcast use vstd::seq_lib::group_filter_ensures;

    let listed = listed_entries(body);
    let pending = listed.filter(is_pending());
    assert forall|k: int| 0 <= k < pending.len() implies !is_evaluated(#[trigger] pending[k])
        && listed.contains(pending[k]) by {
        assert(is_pending()(pending[k]));
        assert(pending.contains(pending[k]));
        listed.lemma_filter_contains_rev(is_pending(), pending[k]);
    }
    assert forall|k: int| 0 <= k < listed.len() && !is_evaluated(
        #[trigger] listed[k],
    ) implies pending.contains(listed[k]) by {
        assert(is_pending()(listed[k]));
    }
}

/// What one more record adds to the pending ones.
proof fn lemma_pending_step(items: Seq<Json>, i: int)
    requires
        0 <= i < items.len(),
    ensures
        items.take(i + 1).filter(is_pending()) == if is_evaluated(items[i]) {
            items.take(i).filter(is_pending())
        } else {
            items.take(i).filter(is_pending()).push(items[i])
        },
{
    reveal(Seq::filter);
    assert(items.take(i + 1).drop_last() =~= items.take(i));
}

/// Builds the body of the list query.
pub fn query_form() -> (form: Vec<FormField>)
    ensures
        form_view(form@) == query_form_spec(),
{
    let mut form: Vec<FormField> = Vec::new();
    assert(form_view(form@) =~= Seq::empty());
    put(&mut form, "pageNum", "1");
    put(&mut form, "pageSize", "30");
    put(&mut form, "flag", "kt");
    assert(form_view(form@) =~= query_form_spec());
    form
}

/// The records of an answer, where its envelope holds an array of them.
pub fn listed(body: &Json) -> (r: Option<&Vec<Json>>)
    ensures
        match r {
            Some(items) => listed_entries(*body) == items@,
            None => listed_entries(*body).len() == 0,
        },
{
    match body.get(DATA_KEY) {
        Some(data) => match data.get(RECORDS_KEY) {
            Some(records) => records.as_array(),
            None => None,
        },
        None => None,
    }
}

/// Tells whether a record carries the flag of an evaluated course.
pub fn has_been_evaluated(entry: &Json) -> (b: bool)
    ensures
        b == is_evaluated(*entry),
{
    match entry.get_text(FLAG_KEY) {
        Some(flag) => {
            let evaluated = String::from_str(EVALUATED);
            *flag == evaluated
        },
        None => false,
    }
}

/// The records of an answer that have not been evaluated, in their order.
pub fn pending_entries(body: &Json) -> (pending: Vec<&Json>)
    ensures
        pending@.len() == pending_entries_of(*body).len(),
        forall|k: int| 0 <= k < pending@.len() ==> *(#[trigger] pending@[k]) == pending_entries_of(*body)[k],
{
    let mut pending: Vec<&Json> = Vec::new();
    match listed(body) {
        None => {
            assert(listed_entries(*body) =~= Seq::empty());
            pending
        },
        Some(items) => {
            let mut i: usize = 0;
            proof {
                reveal(Seq::filter);
                assert(items@.take(0) =~= Seq::empty());
            }
            while i < items.len()
                invariant
                    i <= items.len(),
                    pending@.len() == items@.take(i as int).filter(is_pending()).len(),
                    forall|k: int|
                        0 <= k < pending@.len() ==> *(#[trigger] pending@[k]) == items@.take(
                            i as int,
                        ).filter(is_pending())[k],
                decreases items.len() - i,
            {
                proof {
                    lemma_pending_step(items@, i as int);
                }
                if !has_been_evaluated(&items[i]) {
                    pending.push(&items[i]);
                }
                i += 1;
            }
            assert(items@.take(items.len() as int) =~= items@);
            pending
        },
    }
}

/// Reads a record with its two identifiers and its name.
pub fn read_record(entry: &Json) -> (r: Option<EvaluationRecord>)
    ensures
        match r {
            Some(record) => record_of(*entry) == Some(record@),
            None => record_of(*entry) is None,
        },
{
    let session = match entry.get_text(SESSION_ID_KEY) {
        Some(s) => s.clone(),
        None => {
            return None;
        },
    };
    let name = match entry.get_text(COURSE_NAME_KEY) {
        Some(s) => s.clone(),
        None => {
            return None;
        },
    };
    let form = match entry.get_text(FORM_ID_KEY) {
        Some(s) => s.clone(),
        None => {
            return None;
        },
    };
    Some(EvaluationRecord { course_session_id: session, course_name: name, form_definition_id: form })
}

/// Reads the courses that await an evaluation from the answer to the list
/// query. The first pending record that cannot be read is an error.
pub fn pending_records(body: &Json) -> (r: Result<Catalog, CatalogError>)
    ensures
        match r {
            Ok(Catalog::NothingPending) => pending_entries_of(*body).len() == 0,
            Ok(Catalog::Pending(records)) => {
                &&& records@.len() > 0
                &&& records@.len() == pending_entries_of(*body).len()
                &&& forall|k: int|
                    0 <= k < records@.len() ==> record_of(pending_entries_of(*body)[k]) == Some(
                        (#[trigger] records@[k])@,
                    )
            },
            Err(CatalogError::MalformedRecord(at)) => {
                &&& at < pending_entries_of(*body).len()
                &&& record_of(pending_entries_of(*body)[at as int]) is None
                &&& forall|k: int|
                    0 <= k < at ==> record_of(#[trigger] pending_entries_of(*body)[k]) is Some
            },
        },
{
    let entries = pending_entries(body);
    let mut records: Vec<EvaluationRecord> = Vec::new();
    let mut i: usize = 0;
    while i < entries.len()
        invariant
            i <= entries.len(),
            entries@.len() == pending_entries_of(*body).len(),
            forall|k: int|
                0 <= k < entries@.len() ==> *(#[trigger] entries@[k]) == pending_entries_of(
                    *body,
                )[k],
            records@.len() == i,
            forall|k: int|
                0 <= k < i ==> record_of(pending_entries_of(*body)[k]) == Some(
                    (#[trigger] records@[k])@,
                ),
        decreases entries.len() - i,
    {
        match read_record(entries[i]) {
            Some(record) => {
                records.push(record);
            },
            None => {
                assert forall|k: int| 0 <= k < i implies record_of(
                    #[trigger] pending_entries_of(*body)[k],
                ) is Some by {
                    assert(record_of(pending_entries_of(*body)[k]) == Some(records@[k]@));
                }
                return Err(CatalogError::MalformedRecord(i));
            },
        }
        i += 1;
    }
    if records.len() == 0 {
        Ok(Catalog::NothingPending)
    } else {
        Ok(Catalog::Pending(records))
    }
}

} // verus!

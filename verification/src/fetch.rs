//! The data fetchers' parsing half: mapping a portal JSON response body
//! into typed records. Missing scalar keys yield empty strings; a
//! missing GPA array is an error.

use vstd::prelude::*;
use crate::errors::FetchError;
use crate::json::{
    arr_field, get_arr_field, get_num_field, get_str_field, json_doc, num_field, parse_json,
    str_field,
};
use crate::records::{BasicInfo, BasicInfoView, SemesterGPA, SemesterGPAView};

verus! {

/// The content of an optional string field, with the empty string for a
/// missing one.
pub open spec fn or_empty(o: Option<Seq<char>>) -> Seq<char> {
    match o {
        Some(s) => s,
        None => Seq::empty(),
    }
}

fn str_field_or_empty(v: &serde_json::Value, key: &str) -> (r: String)
    ensures
        r@ == or_empty(str_field(*v, key@)),
{
    match get_str_field(v, key) {
        Some(s) => s,
        None => String::new(),
    }
}

/// The [`BasicInfo`] record a portal document maps to: one fixed key per
/// field, the empty string standing in for a missing or non-string value.
pub open spec fn spec_basic_info_of(v: serde_json::Value) -> BasicInfoView {
    BasicInfoView {
        id: or_empty(str_field(v, "ID"@)),
        sid: or_empty(str_field(v, "XH"@)),
        name: or_empty(str_field(v, "XM"@)),
        email: or_empty(str_field(v, "DZYX"@)),
        year: or_empty(str_field(v, "NJMC"@)),
        department: or_empty(str_field(v, "YXMC"@)),
        major: or_empty(str_field(v, "ZYMC"@)),
    }
}

/// Maps a parsed portal document to a [`BasicInfo`] record.
pub fn basic_info_of(v: &serde_json::Value) -> (r: BasicInfo)
    ensures
        r@ == spec_basic_info_of(*v),
{
    BasicInfo {
        id: str_field_or_empty(v, "ID"),
        sid: str_field_or_empty(v, "XH"),
        name: str_field_or_empty(v, "XM"),
        email: str_field_or_empty(v, "DZYX"),
        year: str_field_or_empty(v, "NJMC"),
        department: str_field_or_empty(v, "YXMC"),
        major: str_field_or_empty(v, "ZYMC"),
    }
}

/// The result of the basic-info fetcher on a response body.
pub open spec fn spec_fetch_basic_info(s: Seq<char>) -> Result<BasicInfoView, FetchError> {
    match json_doc(s) {
        None => Err(FetchError::Parse),
        Some(v) => Ok(spec_basic_info_of(v)),
    }
}

/// Parses a basic-info response body into a [`BasicInfo`] record.
pub fn parse_basic_info(body: &str) -> (r: Result<BasicInfo, FetchError>)
    ensures
        match r {
            Ok(b) => spec_fetch_basic_info(body@) == Ok::<BasicInfoView, FetchError>(b@),
            Err(e) => spec_fetch_basic_info(body@) == Err::<BasicInfoView, FetchError>(e),
        },
{
    match parse_json(body) {
        None => Err(FetchError::Parse),
        Some(v) => Ok(basic_info_of(&v)),
    }
}

/// The key of the GPA array in the portal's response.
pub open spec fn gpa_array_key() -> Seq<char> {
    "xnanxqxfj"@
}

/// The GPA number token of a record, with `"0.0"` standing in for a
/// missing or non-numeric value.
pub open spec fn gpa_or_default(o: Option<Seq<char>>) -> Seq<char> {
    match o {
        Some(s) => s,
        None => "0.0"@,
    }
}

/// The [`SemesterGPA`] record one array element maps to.
pub open spec fn spec_gpa_of(e: serde_json::Value) -> SemesterGPAView {
    SemesterGPAView {
        semester_full_name: or_empty(str_field(e, "XNXQ"@)),
        semester_year: or_empty(str_field(e, "XN"@)),
        semester_number: or_empty(str_field(e, "XQ"@)),
        gpa: gpa_or_default(num_field(e, "XQXFJ"@)),
    }
}

/// Maps one element of the GPA array to a [`SemesterGPA`] record.
pub fn gpa_record_of(e: &serde_json::Value) -> (r: SemesterGPA)
    ensures
        r@ == spec_gpa_of(*e),
{
    SemesterGPA {
        semester_full_name: str_field_or_empty(e, "XNXQ"),
        semester_year: str_field_or_empty(e, "XN"),
        semester_number: str_field_or_empty(e, "XQ"),
        gpa: match get_num_field(e, "XQXFJ") {
            Some(s) => s,
            None => "0.0".to_owned(),
        },
    }
}

/// The result of the GPA fetcher on a parsed portal document.
pub open spec fn spec_gpa_records_of(v: serde_json::Value) -> Result<
    Seq<SemesterGPAView>,
    FetchError,
> {
    match arr_field(v, gpa_array_key()) {
        None => Err(FetchError::MissingField),
        Some(es) => Ok(es.map_values(|e: serde_json::Value| spec_gpa_of(e))),
    }
}

/// Maps a parsed portal document to the sequence of [`SemesterGPA`]
/// records, keeping the array's order; a missing or non-array field is
/// an error.
pub fn gpa_records_of(v: &serde_json::Value) -> (r: Result<Vec<SemesterGPA>, FetchError>)
    ensures
        match r {
            Ok(gs) => spec_gpa_records_of(*v) == Ok::<Seq<SemesterGPAView>, FetchError>(
                gs.deep_view(),
            ),
            Err(e) => spec_gpa_records_of(*v) == Err::<Seq<SemesterGPAView>, FetchError>(e),
        },
{
    let es = match get_arr_field(v, "xnanxqxfj") {
        None => {
            return Err(FetchError::MissingField);
        },
        Some(es) => es,
    };
    let mut out: Vec<SemesterGPA> = Vec::new();
    let mut i: usize = 0;
    while i < es.len()
        invariant
            i <= es.len(),
            out@.len() == i,
            forall|j: int| 0 <= j < i ==> out@[j]@ == spec_gpa_of(es@[j]),
        decreases es.len() - i,
    {
        let rec = gpa_record_of(&es[i]);
        out.push(rec);
        i += 1;
    }
    proof {
        assert(out.deep_view() =~= es@.map_values(|e: serde_json::Value| spec_gpa_of(e)));
    }
    Ok(out)
}

/// The result of the GPA fetcher on a response body.
pub open spec fn spec_fetch_gpa(s: Seq<char>) -> Result<Seq<SemesterGPAView>, FetchError> {
    match json_doc(s) {
        None => Err(FetchError::Parse),
        Some(v) => spec_gpa_records_of(v),
    }
}

/// Parses a GPA response body into the ordered records of its array.
pub fn parse_semester_gpa(body: &str) -> (r: Result<Vec<SemesterGPA>, FetchError>)
    ensures
        match r {
            Ok(gs) => spec_fetch_gpa(body@) == Ok::<Seq<SemesterGPAView>, FetchError>(
                gs.deep_view(),
            ),
            Err(e) => spec_fetch_gpa(body@) == Err::<Seq<SemesterGPAView>, FetchError>(e),
        },
{
    match parse_json(body) {
        None => Err(FetchError::Parse),
        Some(v) => gpa_records_of(&v),
    }
}

/// Law: a response whose GPA array is present and empty yields the empty
/// sequence of records, not an error.
pub proof fn lemma_gpa_empty_array(s: Seq<char>, v: serde_json::Value)
    requires
        json_doc(s) == Some(v),
        arr_field(v, gpa_array_key()) == Some(Seq::<serde_json::Value>::empty()),
    ensures
        spec_fetch_gpa(s) == Ok::<Seq<SemesterGPAView>, FetchError>(Seq::<SemesterGPAView>::empty()),
{
    assert(Seq::<serde_json::Value>::empty().map_values(
        |e: serde_json::Value| spec_gpa_of(e),
    ) =~= Seq::<SemesterGPAView>::empty());
}

/// Law: a response that parses as JSON but lacks the GPA array field
/// yields exactly the missing-field error.
pub proof fn lemma_gpa_missing_field(s: Seq<char>, v: serde_json::Value)
    requires
        json_doc(s) == Some(v),
        arr_field(v, gpa_array_key()) is None,
    ensures
        spec_fetch_gpa(s) == Err::<Seq<SemesterGPAView>, FetchError>(FetchError::MissingField),
{
}

} // verus!

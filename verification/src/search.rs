//! The manufacturer search pipeline: extract records from a parsed JSON
//! document, filter them by a case-sensitive keyword, and render a numbered
//! report.
//!
//! The pipeline is strictly linear: argument validation, fetch, extraction,
//! filtering, reporting. Fetching is the caller's concern; everything from the
//! response text onward is verified here, with the JSON parse itself behind
//! the trusted bridge in [`crate::json`].

use vstd::prelude::*;

verus! {

use vstd::string::StringExecFns;
use crate::json::{JsonValue, json_of, lookup, lookup_field, parse_json};
use crate::strutil::{contains_sub, dec_str, str_contains, u64_to_string};

/// The mathematical model of a manufacturer record: three optional fields of
/// text. Absence is distinct from the empty string.
pub struct RecordModel {
    pub name: Option<Seq<char>>,
    pub common_name: Option<Seq<char>>,
    pub country: Option<Seq<char>>,
}

/// One manufacturer entry: an optional name, common name and country. All
/// three may be absent; records are built once per response and never change.
#[derive(Debug)]
pub struct Manufacturer {
    pub name: Option<String>,
    pub common_name: Option<String>,
    pub country: Option<String>,
}

impl View for Manufacturer {
    type V = RecordModel;

    open spec fn view(&self) -> RecordModel {
        RecordModel {
            name: self.name.deep_view(),
            common_name: self.common_name.deep_view(),
            country: self.country.deep_view(),
        }
    }
}

impl DeepView for Manufacturer {
    type V = RecordModel;

    open spec fn deep_view(&self) -> RecordModel {
        self.view()
    }
}

/// An absent field reads as the empty string for matching and printing.
pub open spec fn or_empty(field: Option<Seq<char>>) -> Seq<char> {
    match field {
        Some(text) => text,
        None => Seq::empty(),
    }
}

/// The keyword occurs, case-sensitively, in at least one of the three fields,
/// an absent field reading as empty.
pub open spec fn record_matches(record: RecordModel, keyword: Seq<char>) -> bool {
    ||| contains_sub(or_empty(record.name), keyword)
    ||| contains_sub(or_empty(record.common_name), keyword)
    ||| contains_sub(or_empty(record.country), keyword)
}

/// The field's text, or the empty string when the field is absent.
fn field_str(field: &Option<String>) -> (r: &str)
    ensures
        r@ == or_empty(field.deep_view()),
{
    match field {
        Some(text) => text.as_str(),
        None => {
            proof {
                reveal_strlit("");
                assert(""@ =~= Seq::<char>::empty());
            }
            ""
        },
    }
}

/// Things that can be searched for a keyword.
pub trait Contains {
    /// What it means for the keyword to occur in `self`.
    spec fn matches_model(&self, keyword: Seq<char>) -> bool;

    /// Decides `matches_model`.
    fn contains(&self, needle: &str) -> (r: bool)
        ensures
            r == self.matches_model(needle@),
    ;
}

impl Contains for Manufacturer {
    open spec fn matches_model(&self, keyword: Seq<char>) -> bool {
        record_matches(self@, keyword)
    }

    fn contains(&self, needle: &str) -> (r: bool) {
        str_contains(field_str(&self.name), needle) || str_contains(
            field_str(&self.common_name),
            needle,
        ) || str_contains(field_str(&self.country), needle)
    }
}

/// The three-line description of a record: name, common name and country,
/// each reading as empty when absent.
pub open spec fn description_model(record: RecordModel) -> Seq<char> {
    "\tName: "@ + or_empty(record.name) + "\n\tCommon Name: "@ + or_empty(record.common_name)
        + "\n\tCountry: "@ + or_empty(record.country)
}

impl Manufacturer {
    /// Renders the record as its three-line description.
    pub fn description(&self) -> (r: String)
        ensures
            r@ == description_model(self@),
    {
        let mut text = String::from_str("\tName: ");
        text.append(field_str(&self.name));
        text.append("\n\tCommon Name: ");
        text.append(field_str(&self.common_name));
        text.append("\n\tCountry: ");
        text.append(field_str(&self.country));
        proof {
            assert(text@ =~= description_model(self@));
        }
        text
    }
}

/// How a run of the pipeline can fail.
#[derive(Clone, Copy, Debug, PartialEq, Eq, Structural)]
pub enum SearchError {
    /// No keyword was supplied on the command line.
    Usage,
    /// The request could not complete or the response never arrived.
    Network,
    /// The response was not JSON of the expected shape.
    Parse,
    /// No record matched the keyword; an empty result is a failure here.
    NoResults,
}

impl SearchError {
    /// The human-readable description of each failure.
    pub open spec fn message_model(self) -> Seq<char> {
        match self {
            SearchError::Usage => "missing search term"@,
            SearchError::Network => "the manufacturer service could not be reached"@,
            SearchError::Parse => "malformed manufacturer data"@,
            SearchError::NoResults => "No manufacturers found"@,
        }
    }

    /// Renders the failure for the process boundary.
    pub fn message(&self) -> (r: String)
        ensures
            r@ == self.message_model(),
    {
        match self {
            SearchError::Usage => String::from_str("missing search term"),
            SearchError::Network => String::from_str(
                "the manufacturer service could not be reached",
            ),
            SearchError::Parse => String::from_str("malformed manufacturer data"),
            SearchError::NoResults => String::from_str("No manufacturers found"),
        }
    }
}

/// The text under `key` in `fields`, when the member is there and holds text.
pub open spec fn str_field(fields: Seq<(String, JsonValue)>, key: Seq<char>) -> Option<Seq<char>> {
    match lookup(fields, key) {
        Some(JsonValue::Text(s)) => Some(s@),
        _ => None,
    }
}

/// The record an object element maps to: the three named members, each absent
/// unless present as text.
pub open spec fn record_of(fields: Seq<(String, JsonValue)>) -> RecordModel {
    RecordModel {
        name: str_field(fields, "Mfr_Name"@),
        common_name: str_field(fields, "Mfr_CommonName"@),
        country: str_field(fields, "Country"@),
    }
}

/// The record an array element maps to; a non-object element has none.
pub open spec fn record_of_elem(elem: JsonValue) -> Option<RecordModel> {
    match elem {
        JsonValue::Object(fields) => Some(record_of(fields@)),
        _ => None,
    }
}

/// The records of a "Results" array, one per element in order; any non-object
/// element is fatal to the whole extraction.
pub open spec fn records_of(elems: Seq<JsonValue>) -> Option<Seq<RecordModel>>
    decreases elems.len(),
{
    if elems.len() == 0 {
        Some(Seq::empty())
    } else {
        match (record_of_elem(elems[0]), records_of(elems.drop_first())) {
            (Some(record), Some(rest)) => Some(seq![record] + rest),
            _ => None,
        }
    }
}

/// The elements of the document's "Results" array; absent unless the document
/// is an object whose "Results" member holds an array.
pub open spec fn results_of(doc: JsonValue) -> Option<Seq<JsonValue>> {
    match doc {
        JsonValue::Object(fields) => match lookup(fields@, "Results"@) {
            Some(JsonValue::Array(elems)) => Some(elems@),
            _ => None,
        },
        _ => None,
    }
}

/// What extraction yields for a whole document.
pub open spec fn extract_model(doc: JsonValue) -> Option<Seq<RecordModel>> {
    match results_of(doc) {
        Some(elems) => records_of(elems),
        None => None,
    }
}

/// Extraction is total on well-formed arrays and fatal otherwise: it succeeds
/// exactly when every element is an object, and then yields exactly one record
/// per element, in order.
pub proof fn lemma_extraction_counts(elems: Seq<JsonValue>)
    ensures
        records_of(elems) is Some <==> (forall|i: int|
            0 <= i < elems.len() ==> record_of_elem(#[trigger] elems[i]) is Some),
        records_of(elems) is Some ==> records_of(elems).unwrap().len() == elems.len(),
        records_of(elems) is Some ==> (forall|i: int|
            0 <= i < elems.len() ==> records_of(elems).unwrap()[i] == record_of_elem(
                #[trigger] elems[i],
            ).unwrap()),
    decreases elems.len(),
{
    if elems.len() > 0 {
        let rest = elems.drop_first();
        lemma_extraction_counts(rest);
        assert(forall|i: int| 0 <= i < rest.len() ==> #[trigger] rest[i] == elems[i + 1]);
        if forall|i: int| 0 <= i < elems.len() ==> record_of_elem(#[trigger] elems[i]) is Some {
            assert forall|i: int|
                0 <= i < rest.len() implies record_of_elem(#[trigger] rest[i]) is Some by {
                assert(rest[i] == elems[i + 1]);
                assert(record_of_elem(elems[i + 1]) is Some);
            }
            assert(record_of_elem(elems[0]) is Some);
            assert(records_of(rest) is Some);
        }
        if records_of(elems) is Some {
            assert forall|i: int|
                0 <= i < elems.len() implies record_of_elem(#[trigger] elems[i]) is Some by {
                if i > 0 {
                    assert(rest[i - 1] == elems[i]);
                    assert(record_of_elem(rest[i - 1]) is Some);
                }
            }
        }
        if records_of(elems) is Some {
            let full = records_of(elems).unwrap();
            assert forall|i: int| 0 <= i < elems.len() implies full[i] == record_of_elem(
                #[trigger] elems[i],
            ).unwrap() by {
                if i > 0 {
                    assert(full[i] == records_of(rest).unwrap()[i - 1]);
                    assert(rest[i - 1] == elems[i]);
                }
            }
        }
    }
}

/// The text member of `fields` under `key`, deciding `str_field`.
fn get_str_field(fields: &Vec<(String, JsonValue)>, key: &String) -> (r: Option<String>)
    ensures
        r.deep_view() == str_field(fields@, key@),
{
    match lookup_field(fields, key) {
        Some(value) => match value {
            JsonValue::Text(s) => Some(s.clone()),
            _ => None,
        },
        None => None,
    }
}

/// Maps each element of a "Results" array to a record, deciding `records_of`.
fn extract_records(elems: &Vec<JsonValue>) -> (r: Result<Vec<Manufacturer>, SearchError>)
    ensures
        match r {
            Ok(list) => records_of(elems@) == Some(list.deep_view()),
            Err(e) => records_of(elems@) is None && e == SearchError::Parse,
        },
{
    let name_key = String::from_str("Mfr_Name");
    let common_key = String::from_str("Mfr_CommonName");
    let country_key = String::from_str("Country");
    let n = elems.len();
    let mut out: Vec<Manufacturer> = Vec::new();
    let mut i: usize = 0;
    while i < n
        invariant
            n == elems@.len(),
            i <= n,
            name_key@ == "Mfr_Name"@,
            common_key@ == "Mfr_CommonName"@,
            country_key@ == "Country"@,
            out@.len() == i,
            forall|k: int| 0 <= k < i ==> record_of_elem(#[trigger] elems@[k]) is Some,
            forall|k: int|
                0 <= k < i ==> #[trigger] out@[k].deep_view() == record_of_elem(
                    elems@[k],
                ).unwrap(),
        decreases n - i,
    {
        let elem = &elems[i];
        match elem {
            JsonValue::Object(fields) => {
                let record = Manufacturer {
                    name: get_str_field(fields, &name_key),
                    common_name: get_str_field(fields, &common_key),
                    country: get_str_field(fields, &country_key),
                };
                out.push(record);
            },
            _ => {
                proof {
                    lemma_extraction_counts(elems@);
                }
                return Err(SearchError::Parse);
            },
        }
        i = i + 1;
    }
    proof {
        lemma_extraction_counts(elems@);
        assert(out.deep_view() =~= records_of(elems@).unwrap());
    }
    Ok(out)
}

/// Extracts the manufacturer records of a parsed document, deciding
/// `extract_model`: the document must be an object whose "Results" member is
/// an array of objects, and anything else is a parse failure.
pub fn extract_manufacturers(doc: &JsonValue) -> (r: Result<Vec<Manufacturer>, SearchError>)
    ensures
        match r {
            Ok(list) => extract_model(*doc) == Some(list.deep_view()),
            Err(e) => extract_model(*doc) is None && e == SearchError::Parse,
        },
{
    match doc {
        JsonValue::Object(fields) => {
            let results_key = String::from_str("Results");
            match lookup_field(fields, &results_key) {
                Some(value) => match value {
                    JsonValue::Array(elems) => extract_records(elems),
                    _ => Err(SearchError::Parse),
                },
                None => Err(SearchError::Parse),
            }
        },
        _ => Err(SearchError::Parse),
    }
}

/// The records of `records` whose fields contain `keyword`, in their original
/// order; `Seq::filter` keeps the source order.
pub open spec fn matching(records: Seq<RecordModel>, keyword: Seq<char>) -> Seq<RecordModel> {
    records.filter(|record: RecordModel| record_matches(record, keyword))
}

/// Keeps the records that contain the keyword, deciding `matching`; the
/// source order is preserved.
pub fn filter_manufacturers(list: Vec<Manufacturer>, keyword: &str) -> (r: Vec<Manufacturer>)
    ensures
        r.deep_view() == matching(list.deep_view(), keyword@),
{
    broadcast use vstd::seq_lib::group_filter_ensures;

    let ghost orig = list.deep_view();
    let mut rest = list;
    let mut out: Vec<Manufacturer> = Vec::new();
    let ghost pred = (|record: RecordModel| record_matches(record, keyword@));
    proof {
        assert(rest.deep_view() =~= orig.skip(0));
        assert(orig.take(0).filter(pred) =~= Seq::<RecordModel>::empty());
    }
    while rest.len() > 0
        invariant
            rest@.len() <= orig.len(),
            rest.deep_view() =~= orig.skip(orig.len() - rest@.len()),
            out.deep_view() == orig.take(orig.len() - rest@.len()).filter(pred),
            pred == (|record: RecordModel| record_matches(record, keyword@)),
        decreases rest@.len(),
    {
        let ghost i = orig.len() - rest@.len();
        let ghost rest_before = rest@;
        let ghost dv_before = rest.deep_view();
        let record = rest.remove(0);
        proof {
            assert(record.deep_view() == dv_before[0]);
            assert(dv_before[0] == orig.skip(i)[0]);
            assert(orig.skip(i)[0] == orig[i]);
            assert forall|k: int|
                0 <= k < rest@.len() implies #[trigger] rest.deep_view()[k] == orig.skip(i + 1)[k]
            by {
                assert(rest@[k] == rest_before[k + 1]);
                assert(rest.deep_view()[k] == rest@[k].deep_view());
                assert(dv_before[k + 1] == rest_before[k + 1].deep_view());
                assert(dv_before[k + 1] == orig.skip(i)[k + 1]);
                assert(orig.skip(i)[k + 1] == orig[i + 1 + k]);
                assert(orig.skip(i + 1)[k] == orig[i + 1 + k]);
            }
            assert(rest.deep_view() =~= orig.skip(i + 1));
            assert(orig.take(i + 1) =~= orig.take(i).push(orig[i]));
            broadcast use vstd::prelude::Seq::lemma_filter_push;

        }
        if record.contains(keyword) {
            let ghost out_before = out.deep_view();
            out.push(record);
            proof {
                assert(out.deep_view() =~= out_before.push(record.deep_view()));
            }
        }
    }
    proof {
        assert(orig.take(orig.len() as int) =~= orig);
    }
    out
}

/// One numbered block of the report: the 1-based index line, then the
/// description.
pub open spec fn block_model(record: RecordModel, index: nat) -> Seq<char> {
    "Manufacturer #"@ + dec_str(index) + "\n"@ + description_model(record) + "\n"@
}

/// The first `count` blocks of the report, indices starting at 1.
pub open spec fn blocks_upto(records: Seq<RecordModel>, count: int) -> Seq<char>
    decreases count,
{
    if count <= 0 {
        Seq::empty()
    } else {
        blocks_upto(records, count - 1) + block_model(records[count - 1], count as nat)
    }
}

/// The whole report: the headline with the number of matches, then one block
/// per match.
pub open spec fn report_model(records: Seq<RecordModel>) -> Seq<char> {
    "Found "@ + dec_str(records.len()) + " manufacturers:\n"@ + blocks_upto(
        records,
        records.len() as int,
    )
}

/// Renders the found records as the numbered report, or fails when nothing
/// was found: an empty result is an error, not an empty success.
pub fn report(found: &Vec<Manufacturer>) -> (r: Result<String, SearchError>)
    ensures
        found@.len() == 0 ==> (r matches Err(e) && e == SearchError::NoResults),
        found@.len() > 0 ==> (r matches Ok(text) && text@ == report_model(found.deep_view())),
{
    if found.len() == 0 {
        return Err(SearchError::NoResults);
    }
    let n = found.len();
    let mut text = String::from_str("Found ");
    let count = u64_to_string(n as u64);
    text.append(count.as_str());
    text.append(" manufacturers:\n");
    let ghost header = text@;
    let mut i: usize = 0;
    while i < n
        invariant
            n == found@.len(),
            i <= n,
            header == "Found "@ + dec_str(found@.len()) + " manufacturers:\n"@,
            text@ == header + blocks_upto(found.deep_view(), i as int),
        decreases n - i,
    {
        text.append("Manufacturer #");
        let index = u64_to_string((i + 1) as u64);
        text.append(index.as_str());
        text.append("\n");
        let entry = &found[i];
        let line = entry.description();
        text.append(line.as_str());
        text.append("\n");
        proof {
            assert(found.deep_view()[i as int] == found@[i as int].deep_view());
            assert(text@ =~= header + blocks_upto(found.deep_view(), i + 1));
        }
        i = i + 1;
    }
    proof {
        assert(text@ =~= report_model(found.deep_view()));
    }
    Ok(text)
}

/// The outcome the pipeline owes for a given parse result and keyword: a
/// parse failure when the text or its shape is malformed, a no-results
/// failure when nothing matches, and otherwise the report of the matches.
pub open spec fn search_outcome(parsed: Option<JsonValue>, keyword: Seq<char>) -> Result<
    Seq<char>,
    SearchError,
> {
    match parsed {
        None => Err(SearchError::Parse),
        Some(doc) => match extract_model(doc) {
            None => Err(SearchError::Parse),
            Some(records) => {
                let found = matching(records, keyword);
                if found.len() == 0 {
                    Err(SearchError::NoResults)
                } else {
                    Ok(report_model(found))
                }
            },
        },
    }
}

/// Runs the whole pipeline after the fetch: parse the response text, extract
/// the records, filter by the keyword, and render the report.
pub fn run_search(body: &str, keyword: &str) -> (r: Result<String, SearchError>)
    ensures
        ({
            let outcome = search_outcome(json_of(body@), keyword@);
            match r {
                Ok(text) => outcome matches Ok(expected) && text@ == expected,
                Err(e) => outcome matches Err(expected) && e == expected,
            }
        }),
{
    let parsed = parse_json(body);
    match parsed {
        None => Err(SearchError::Parse),
        Some(doc) => {
            let records = extract_manufacturers(&doc)?;
            let found = filter_manufacturers(records, keyword);
            report(&found)
        },
    }
}

/// The filter keeps exactly the matching records: every kept record matches,
/// every matching record is kept, and a keyword that occurs in at least one
/// record leaves the output non-empty. `matching` is `Seq::filter`, which
/// keeps the source order.
pub proof fn lemma_filter_exact(records: Seq<RecordModel>, keyword: Seq<char>)
    ensures
        forall|i: int|
            0 <= i < matching(records, keyword).len() ==> record_matches(
                #[trigger] matching(records, keyword)[i],
                keyword,
            ),
        forall|i: int|
            0 <= i < records.len() && record_matches(#[trigger] records[i], keyword)
                ==> matching(records, keyword).contains(records[i]),
        (exists|i: int| 0 <= i < records.len() && record_matches(#[trigger] records[i], keyword))
            ==> matching(records, keyword).len() > 0,
        matching(records, keyword).len() <= records.len(),
{
    broadcast use vstd::seq_lib::group_filter_ensures;

    let found = matching(records, keyword);
    if exists|i: int| 0 <= i < records.len() && record_matches(#[trigger] records[i], keyword) {
        let i = choose|i: int|
            0 <= i < records.len() && record_matches(#[trigger] records[i], keyword);
        assert(found.contains(records[i]));
    }
}

/// The filter preserves the source order: splitting the records anywhere
/// splits the filtered output at the matching point, so kept records never
/// change their relative order.
pub proof fn lemma_filter_keeps_order(records: Seq<RecordModel>, keyword: Seq<char>, at: int)
    requires
        0 <= at <= records.len(),
    ensures
        matching(records, keyword) == matching(records.take(at), keyword) + matching(
            records.skip(at),
            keyword,
        ),
{
    broadcast use vstd::prelude::Seq::filter_distributes_over_add;

    assert(records =~= records.take(at) + records.skip(at));
}

/// A keyword that matches no record makes the pipeline fail with the
/// no-results error, for any document the extraction accepts.
pub proof fn lemma_no_match_fails(doc: JsonValue, keyword: Seq<char>)
    requires
        extract_model(doc) is Some,
        forall|i: int|
            0 <= i < extract_model(doc).unwrap().len() ==> !record_matches(
                #[trigger] extract_model(doc).unwrap()[i],
                keyword,
            ),
    ensures
        search_outcome(Some(doc), keyword) == Result::<Seq<char>, SearchError>::Err(
            SearchError::NoResults,
        ),
{
    broadcast use vstd::seq_lib::group_filter_ensures;

    broadcast use vstd::prelude::Seq::lemma_filter_contains_rev;

    let records = extract_model(doc).unwrap();
    let found = matching(records, keyword);
    if found.len() > 0 {
        assert(record_matches(found[0], keyword));
        assert(found.contains(found[0]));
        assert(records.contains(found[0]));
        let i = choose|i: int| 0 <= i < records.len() && records[i] == found[0];
        assert(!record_matches(records[i], keyword));
    }
}

/// An absent or null member maps to an absent record field, which reads as
/// the empty string when matched or printed; it is never the text "null".
pub proof fn lemma_absent_fields(fields: Seq<(String, JsonValue)>, key: Seq<char>)
    ensures
        lookup(fields, key) is None ==> str_field(fields, key) is None,
        lookup(fields, key) matches Some(value) && value is Null ==> str_field(fields, key)
            is None,
        str_field(fields, key) is None ==> or_empty(str_field(fields, key))
            == Seq::<char>::empty(),
        str_field(fields, key) is None ==> or_empty(str_field(fields, key)) != "null"@,
{
    reveal_strlit("null");
    assert(("null"@).len() == 4);
}

/// A malformed response is fatal before the filter ever runs: when the text
/// is not JSON, or the document has no "Results" array of objects, the
/// outcome is a parse failure whatever the keyword.
pub proof fn lemma_malformed_fails(
    parsed: Option<JsonValue>,
    keyword: Seq<char>,
    other_keyword: Seq<char>,
)
    requires
        match parsed {
            None => true,
            Some(doc) => extract_model(doc) is None,
        },
    ensures
        search_outcome(parsed, keyword) == Result::<Seq<char>, SearchError>::Err(
            SearchError::Parse,
        ),
        search_outcome(parsed, keyword) == search_outcome(parsed, other_keyword),
{
}

/// A "Results" array with a non-object element makes the whole extraction
/// fail.
pub proof fn lemma_bad_element_fails(doc: JsonValue, at: int)
    requires
        results_of(doc) is Some,
        0 <= at < results_of(doc).unwrap().len(),
        !(results_of(doc).unwrap()[at] is Object),
    ensures
        extract_model(doc) is None,
{
    let elems = results_of(doc).unwrap();
    lemma_extraction_counts(elems);
    assert(record_of_elem(elems[at]) is None);
}

/// The keyword is the first argument after the program name; with fewer than
/// two arguments there is none.
pub fn keyword_of_args(args: &Vec<String>) -> (r: Option<String>)
    ensures
        args@.len() >= 2 ==> (r matches Some(keyword) && keyword@ == args@[1]@),
        args@.len() < 2 ==> r is None,
{
    if args.len() >= 2 {
        Some(args[1].clone())
    } else {
        None
    }
}

/// The usage line printed when no keyword was supplied.
pub fn usage_message(program: &str) -> (r: String)
    ensures
        r@ == "Usage: "@ + program@ + " <search term>"@,
{
    let mut text = String::from_str("Usage: ");
    text.append(program);
    text.append(" <search term>");
    proof {
        assert(text@ =~= "Usage: "@ + program@ + " <search term>"@);
    }
    text
}

/// The fixed endpoint the report is fetched from.
pub fn api_url() -> (r: &'static str)
    ensures
        r@ == "https://vpic.nhtsa.dot.gov/api/vehicles/getallmanufacturers?format=json"@,
{
    "https://vpic.nhtsa.dot.gov/api/vehicles/getallmanufacturers?format=json"
}

} // verus!

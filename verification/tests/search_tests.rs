use manufacturers::json::JsonValue;
use manufacturers::search::{
    api_url, extract_manufacturers, filter_manufacturers, keyword_of_args, report, run_search,
    usage_message, Contains, Manufacturer, SearchError,
};

fn bmw() -> Manufacturer {
    Manufacturer {
        name: Some("BMW".to_string()),
        common_name: Some("BMW".to_string()),
        country: Some("Germany".to_string()),
    }
}

fn ford() -> Manufacturer {
    Manufacturer {
        name: Some("Ford".to_string()),
        common_name: Some("Ford".to_string()),
        country: Some("USA".to_string()),
    }
}

const TWO_RECORDS: &str = "{\"Results\":[\
{\"Country\":\"Germany\",\"Mfr_CommonName\":\"BMW\",\"Mfr_Name\":\"BMW\"},\
{\"Country\":\"USA\",\"Mfr_CommonName\":\"Ford\",\"Mfr_Name\":\"Ford\"}]}";

#[test]
fn filter_keeps_only_the_bmw_record() {
    let found = filter_manufacturers(vec![bmw(), ford()], "BMW");
    assert_eq!(found.len(), 1);
    assert_eq!(found[0].name, Some("BMW".to_string()));
    assert_eq!(found[0].common_name, Some("BMW".to_string()));
    assert_eq!(found[0].country, Some("Germany".to_string()));
}

#[test]
fn bmw_keyword_reports_one_match() {
    let out = run_search(TWO_RECORDS, "BMW").unwrap();
    assert_eq!(
        out,
        "Found 1 manufacturers:\nManufacturer #1\n\tName: BMW\n\tCommon Name: BMW\n\tCountry: Germany\n"
    );
}

#[test]
fn matching_is_a_case_sensitive_substring_test() {
    assert!(bmw().contains("BM"));
    assert!(bmw().contains("Germ"));
    assert!(!bmw().contains("bmw"));
    assert!(ford().contains(""));
}

#[test]
fn keyword_in_country_field_matches_too() {
    let out = run_search(TWO_RECORDS, "USA").unwrap();
    assert_eq!(
        out,
        "Found 1 manufacturers:\nManufacturer #1\n\tName: Ford\n\tCommon Name: Ford\n\tCountry: USA\n"
    );
}

#[test]
fn every_record_matches_the_empty_keyword() {
    let out = run_search(TWO_RECORDS, "").unwrap();
    assert!(out.starts_with("Found 2 manufacturers:\nManufacturer #1\n"));
    assert!(out.contains("Manufacturer #2\n\tName: Ford\n"));
}

#[test]
fn no_matching_record_is_a_failure() {
    assert_eq!(run_search(TWO_RECORDS, "Zeppelin"), Err(SearchError::NoResults));
}

#[test]
fn empty_results_array_is_a_no_results_failure() {
    assert_eq!(run_search("{\"Results\":[]}", "BMW"), Err(SearchError::NoResults));
}

#[test]
fn text_that_is_not_json_fails_as_a_parse_error() {
    assert_eq!(run_search("not json at all", "BMW"), Err(SearchError::Parse));
}

#[test]
fn missing_results_member_fails_as_a_parse_error() {
    assert_eq!(run_search("{\"Outcomes\":[]}", "BMW"), Err(SearchError::Parse));
}

#[test]
fn non_array_results_member_fails_as_a_parse_error() {
    assert_eq!(run_search("{\"Results\":7}", "BMW"), Err(SearchError::Parse));
}

#[test]
fn non_object_element_fails_as_a_parse_error() {
    assert_eq!(run_search("{\"Results\":[4]}", "BMW"), Err(SearchError::Parse));
}

#[test]
fn non_object_document_fails_as_a_parse_error() {
    assert_eq!(run_search("[1,2,3]", "BMW"), Err(SearchError::Parse));
}

#[test]
fn extraction_yields_one_record_per_element_in_order() {
    let doc = JsonValue::Object(vec![(
        "Results".to_string(),
        JsonValue::Array(vec![
            JsonValue::Object(vec![
                ("Country".to_string(), JsonValue::Text("Germany".to_string())),
                ("Mfr_CommonName".to_string(), JsonValue::Text("BMW".to_string())),
                ("Mfr_Name".to_string(), JsonValue::Text("BMW".to_string())),
            ]),
            JsonValue::Object(vec![
                ("Country".to_string(), JsonValue::Text("USA".to_string())),
                ("Mfr_CommonName".to_string(), JsonValue::Text("Ford".to_string())),
                ("Mfr_Name".to_string(), JsonValue::Text("Ford".to_string())),
            ]),
        ]),
    )]);
    let records = extract_manufacturers(&doc).unwrap();
    assert_eq!(records.len(), 2);
    assert_eq!(records[0].name, Some("BMW".to_string()));
    assert_eq!(records[1].name, Some("Ford".to_string()));
}

#[test]
fn absent_and_null_members_become_absent_fields() {
    let out = run_search(
        "{\"Results\":[{\"Mfr_Name\":\"BMW\",\"Mfr_CommonName\":null}]}",
        "BMW",
    )
    .unwrap();
    assert_eq!(
        out,
        "Found 1 manufacturers:\nManufacturer #1\n\tName: BMW\n\tCommon Name: \n\tCountry: \n"
    );
    assert!(!out.contains("null"));
}

#[test]
fn description_prints_absent_fields_as_empty() {
    let bare = Manufacturer { name: None, common_name: None, country: None };
    assert_eq!(bare.description(), "\tName: \n\tCommon Name: \n\tCountry: ");
}

#[test]
fn report_numbers_matches_from_one() {
    let report_text = report(&vec![bmw(), ford()]).unwrap();
    assert_eq!(
        report_text,
        "Found 2 manufacturers:\n\
         Manufacturer #1\n\tName: BMW\n\tCommon Name: BMW\n\tCountry: Germany\n\
         Manufacturer #2\n\tName: Ford\n\tCommon Name: Ford\n\tCountry: USA\n"
    );
}

#[test]
fn report_of_nothing_is_the_no_results_error() {
    assert_eq!(report(&vec![]), Err(SearchError::NoResults));
}

#[test]
fn keyword_is_the_second_argument() {
    let args = vec!["manufacturers".to_string(), "BMW".to_string()];
    assert_eq!(keyword_of_args(&args), Some("BMW".to_string()));
    assert_eq!(keyword_of_args(&vec!["manufacturers".to_string()]), None);
    assert_eq!(keyword_of_args(&vec![]), None);
}

#[test]
fn usage_line_names_the_program() {
    assert_eq!(usage_message("manufacturers"), "Usage: manufacturers <search term>");
}

#[test]
fn the_endpoint_is_fixed() {
    assert_eq!(
        api_url(),
        "https://vpic.nhtsa.dot.gov/api/vehicles/getallmanufacturers?format=json"
    );
}

#[test]
fn each_failure_has_its_message() {
    assert_eq!(SearchError::Usage.message(), "missing search term");
    assert_eq!(
        SearchError::Network.message(),
        "the manufacturer service could not be reached"
    );
    assert_eq!(SearchError::Parse.message(), "malformed manufacturer data");
    assert_eq!(SearchError::NoResults.message(), "No manufacturers found");
}

use rustech::emit::semester_gpas_to_json;
use rustech::errors::FetchError;
use rustech::fetch::{parse_basic_info, parse_semester_gpa};

#[test]
fn gpa_scenario_single_record() {
    let body = "{\"xnanxqxfj\":[{\"XNXQ\":\"2023 Fall\",\"XN\":\"2023\",\"XQ\":\"1\",\"XQXFJ\":3.8}]}";
    let records = parse_semester_gpa(body).unwrap();
    assert_eq!(records.len(), 1);
    assert_eq!(records[0].semester_full_name, "2023 Fall");
    assert_eq!(records[0].semester_year, "2023");
    assert_eq!(records[0].semester_number, "1");
    assert_eq!(records[0].gpa, "3.8");
    let json = semester_gpas_to_json(&records);
    assert_eq!(
        json,
        "[{\"semester_full_name\":\"2023 Fall\",\"semester_year\":\"2023\",\"semester_number\":\"1\",\"gpa\":3.8}]"
    );
}

#[test]
fn gpa_empty_array_is_not_an_error() {
    let records = parse_semester_gpa("{\"xnanxqxfj\":[]}").unwrap();
    assert!(records.is_empty());
    assert_eq!(semester_gpas_to_json(&records), "[]");
}

#[test]
fn gpa_missing_array_field() {
    assert_eq!(parse_semester_gpa("{\"other\":1}"), Err(FetchError::MissingField));
}

#[test]
fn gpa_array_field_of_wrong_type() {
    assert_eq!(
        parse_semester_gpa("{\"xnanxqxfj\":\"not an array\"}"),
        Err(FetchError::MissingField)
    );
}

#[test]
fn gpa_body_that_is_not_json() {
    assert_eq!(parse_semester_gpa("<html>502</html>"), Err(FetchError::Parse));
}

#[test]
fn gpa_missing_number_defaults() {
    let body = "{\"xnanxqxfj\":[{\"XNXQ\":\"2024 Spring\",\"XN\":\"2024\",\"XQ\":\"2\"}]}";
    let records = parse_semester_gpa(body).unwrap();
    assert_eq!(records[0].gpa, "0.0");
    let json = semester_gpas_to_json(&records);
    assert!(json.contains("\"gpa\":0.0"));
}

#[test]
fn gpa_keeps_array_order() {
    let body = "{\"xnanxqxfj\":[{\"XNXQ\":\"a\"},{\"XNXQ\":\"b\"},{\"XNXQ\":\"c\"}]}";
    let records = parse_semester_gpa(body).unwrap();
    let names: Vec<&str> = records.iter().map(|r| r.semester_full_name.as_str()).collect();
    assert_eq!(names, vec!["a", "b", "c"]);
}

#[test]
fn basic_info_missing_email_key() {
    let body = "{\"ID\":\"7\",\"XH\":\"12012345\",\"XM\":\"Li Hua\",\"NJMC\":\"2020\",\"YXMC\":\"CSE\",\"ZYMC\":\"CS\"}";
    let info = parse_basic_info(body).unwrap();
    assert_eq!(info.email, "");
    assert_eq!(info.id, "7");
    assert_eq!(info.sid, "12012345");
    assert_eq!(info.name, "Li Hua");
    assert_eq!(info.year, "2020");
    assert_eq!(info.department, "CSE");
    assert_eq!(info.major, "CS");
}

#[test]
fn basic_info_all_fields_present() {
    let body = "{\"ID\":\"1\",\"XH\":\"2\",\"XM\":\"n\",\"DZYX\":\"e@x\",\"NJMC\":\"y\",\"YXMC\":\"d\",\"ZYMC\":\"m\"}";
    let info = parse_basic_info(body).unwrap();
    assert_eq!(info.email, "e@x");
}

#[test]
fn basic_info_non_string_field_becomes_empty() {
    let body = "{\"ID\":3,\"XH\":\"2\"}";
    let info = parse_basic_info(body).unwrap();
    assert_eq!(info.id, "");
    assert_eq!(info.sid, "2");
}

#[test]
fn basic_info_body_that_is_not_json() {
    assert_eq!(parse_basic_info("oops"), Err(FetchError::Parse));
}

#[test]
fn fetch_error_messages() {
    assert_eq!(FetchError::Transport.message(), "Unable to send the request to the portal");
    assert_eq!(FetchError::Parse.message(), "Unable to parse the response as JSON");
    assert_eq!(FetchError::MissingField.message(), "Missing field in the portal response");
}

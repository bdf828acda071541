use rustech::html::{extract_execution_token, token_from_inputs};

#[test]
fn token_from_scenario_page() {
    let html = "<form><input type=\"hidden\" name=\"execution\" value=\"abc123\"></form>";
    let token = extract_execution_token(html).unwrap();
    assert_eq!(token, "abc123");
}

#[test]
fn token_absent_yields_empty_string() {
    let html = "<form><input type=\"text\" name=\"username\"></form>";
    let token = extract_execution_token(html).unwrap();
    assert_eq!(token, "");
}

#[test]
fn token_no_inputs_at_all() {
    let token = extract_execution_token("<p>no form here</p>").unwrap();
    assert_eq!(token, "");
}

#[test]
fn token_last_execution_input_wins() {
    let html = "<form>\
        <input name=\"execution\" value=\"first\">\
        <input name=\"other\" value=\"x\">\
        <input name=\"execution\" value=\"second\">\
        </form>";
    let token = extract_execution_token(html).unwrap();
    assert_eq!(token, "second");
}

#[test]
fn token_execution_without_value() {
    let html = "<form><input name=\"execution\"></form>";
    let token = extract_execution_token(html).unwrap();
    assert_eq!(token, "");
}

#[test]
fn token_scan_over_plain_pairs() {
    let pairs: Vec<(Option<String>, Option<String>)> = vec![
        (Some("username".to_owned()), None),
        (Some("execution".to_owned()), Some("tok".to_owned())),
        (None, Some("stray".to_owned())),
    ];
    assert_eq!(token_from_inputs(&pairs), "tok");
}

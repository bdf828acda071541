use rustech::chars::is_substring;
use rustech::emit::basic_info_to_json;
use rustech::parse::parse_basic_info_json;
use rustech::records::BasicInfo;
use rustech::routes::{cas_login_greeting, index_greeting, rocket};

fn sample() -> BasicInfo {
    BasicInfo {
        id: "7".to_owned(),
        sid: "12012345".to_owned(),
        name: "Li Hua".to_owned(),
        email: "lh@mail.sustech.edu.cn".to_owned(),
        year: "2020".to_owned(),
        department: "CSE".to_owned(),
        major: "Computer Science".to_owned(),
    }
}

#[test]
fn basic_info_json_is_exact() {
    let json = basic_info_to_json(&sample());
    assert_eq!(
        json,
        "{\"id\":\"7\",\"sid\":\"12012345\",\"name\":\"Li Hua\",\"email\":\"lh@mail.sustech.edu.cn\",\"year\":\"2020\",\"department\":\"CSE\",\"major\":\"Computer Science\"}"
    );
}

#[test]
fn basic_info_round_trip_plain() {
    let b = sample();
    let parsed = parse_basic_info_json(&basic_info_to_json(&b)).unwrap();
    assert_eq!(parsed, b);
}

#[test]
fn basic_info_round_trip_with_escapes() {
    let b = BasicInfo {
        id: "quote:\" backslash:\\".to_owned(),
        sid: "line\nbreak".to_owned(),
        name: "tab\tand\rreturn".to_owned(),
        email: "control:\u{0001}\u{001f}".to_owned(),
        year: "unicode: \u{00e9}\u{4e2d}".to_owned(),
        department: "".to_owned(),
        major: "}{\",\"".to_owned(),
    };
    let json = basic_info_to_json(&b);
    let parsed = parse_basic_info_json(&json).unwrap();
    assert_eq!(parsed, b);
}

#[test]
fn basic_info_escaping_in_text() {
    let b = BasicInfo {
        id: "a\"b".to_owned(),
        sid: "c\\d".to_owned(),
        name: "e\nf".to_owned(),
        email: "\u{0002}".to_owned(),
        year: String::new(),
        department: String::new(),
        major: String::new(),
    };
    let json = basic_info_to_json(&b);
    assert!(json.contains("a\\\"b"));
    assert!(json.contains("c\\\\d"));
    assert!(json.contains("e\\nf"));
    assert!(json.contains("\\u0002"));
}

#[test]
fn parse_rejects_malformed_text() {
    assert_eq!(parse_basic_info_json(""), None);
    assert_eq!(parse_basic_info_json("{\"id\":\"x\"}"), None);
    assert_eq!(parse_basic_info_json("garbage"), None);
    let good = basic_info_to_json(&sample());
    let mut trailing = good.clone();
    trailing.push(' ');
    assert_eq!(parse_basic_info_json(&trailing), None);
    let truncated = &good[..good.len() - 1];
    assert_eq!(parse_basic_info_json(truncated), None);
}

#[test]
fn substring_search_edges() {
    assert!(is_substring("Log In Successful", "Log In Successful"));
    assert!(is_substring("xLog In Successfuly", "Log In Successful"));
    assert!(!is_substring("Log In Successfu", "Log In Successful"));
    assert!(is_substring("anything", ""));
    assert!(!is_substring("", "a"));
}

#[test]
fn greetings_and_routes() {
    assert_eq!(index_greeting(), "Hello, rustech!\n");
    assert_eq!(cas_login_greeting(), "Hello world!");
    let routes = rocket();
    let paths: Vec<&str> = routes.iter().map(|r| r.path.as_str()).collect();
    assert_eq!(paths, vec!["/", "/cas_login", "/basic_info", "/semester_gpa"]);
    assert!(!routes[0].takes_credentials);
    assert!(routes[1].takes_credentials);
    assert!(routes[2].takes_credentials);
    assert!(routes[3].takes_credentials);
}

use rustech::cas::{
    basic_info_url, cas_login_url, login_outcome, login_succeeded, portal_cas_url,
    semester_gpa_url, FlowAction, FlowEvent, FlowState, LoginFlow,
};
use rustech::errors::AuthError;
use rustech::form::login_form_body;

#[test]
fn marker_present_means_success() {
    let body = "<html>Log In Successful - welcome</html>";
    assert!(login_succeeded(body));
    assert_eq!(login_outcome(body), Ok(()));
}

#[test]
fn marker_absent_means_login_failed() {
    let body = "<html>Invalid credentials.</html>";
    assert!(!login_succeeded(body));
    assert_eq!(login_outcome(body), Err(AuthError::LoginFailed));
}

#[test]
fn marker_must_match_exactly() {
    assert!(!login_succeeded("log in successful"));
    assert!(login_succeeded("Log In Successful"));
    assert!(!login_succeeded(""));
}

#[test]
fn form_body_of_scenario() {
    let body = login_form_body("u", "p", "abc123");
    assert_eq!(body, "execution=abc123&username=u&password=p&_eventId=submit&locale=en");
    assert!(body.contains("execution=abc123&username=u&password=p&_eventId=submit&locale=en"));
}

#[test]
fn form_body_encodes_values() {
    let body = login_form_body("a b", "p&q=r", "t/x");
    assert_eq!(body, "execution=t%2Fx&username=a+b&password=p%26q%3Dr&_eventId=submit&locale=en");
}

#[test]
fn form_body_encodes_multibyte_characters() {
    let body = login_form_body("n\u{00fc}", "p", "t");
    assert_eq!(body, "execution=t&username=n%C3%BC&password=p&_eventId=submit&locale=en");
}

#[test]
fn cas_flow_runs_the_scenario() {
    let mut flow = LoginFlow::cas_flow("u".to_owned(), "p".to_owned());
    assert_eq!(flow.state, FlowState::Ready);

    let act = flow.step(FlowEvent::Begin);
    match act {
        FlowAction::Get(url) => assert_eq!(url, cas_login_url()),
        _ => panic!("expected a GET of the login page"),
    }

    let page = "<form><input type=\"hidden\" name=\"execution\" value=\"abc123\"></form>";
    let act = flow.step(FlowEvent::Response(page.to_owned()));
    match act {
        FlowAction::PostForm { url, body } => {
            assert_eq!(url, cas_login_url());
            assert_eq!(body, "execution=abc123&username=u&password=p&_eventId=submit&locale=en");
        },
        _ => panic!("expected the credential POST"),
    }

    let act = flow.step(FlowEvent::Response("... Log In Successful ...".to_owned()));
    match act {
        FlowAction::Done(outcome) => assert_eq!(outcome, Ok(())),
        _ => panic!("expected the flow to finish"),
    }
    assert_eq!(flow.state, FlowState::Succeeded);
}

#[test]
fn cas_flow_reports_login_failure() {
    let mut flow = LoginFlow::cas_flow("u".to_owned(), "p".to_owned());
    flow.step(FlowEvent::Begin);
    flow.step(FlowEvent::Response("<form></form>".to_owned()));
    let act = flow.step(FlowEvent::Response("nope".to_owned()));
    match act {
        FlowAction::Done(outcome) => assert_eq!(outcome, Err(AuthError::LoginFailed)),
        _ => panic!("expected the flow to finish"),
    }
    assert_eq!(flow.state, FlowState::Failed(AuthError::LoginFailed));
}

#[test]
fn portal_flow_bridges_after_success() {
    let mut flow = LoginFlow::portal_flow("u".to_owned(), "p".to_owned());
    let act = flow.step(FlowEvent::Begin);
    match act {
        FlowAction::Get(url) => assert_eq!(url, portal_cas_url()),
        _ => panic!("expected a GET of the login page"),
    }
    flow.step(FlowEvent::Response(
        "<input name=\"execution\" value=\"e1\">".to_owned(),
    ));
    let act = flow.step(FlowEvent::Response("Log In Successful".to_owned()));
    match act {
        FlowAction::GetWithHeaders { url, headers } => {
            assert_eq!(url, portal_cas_url());
            assert_eq!(headers.len(), 4);
            assert_eq!(headers[0].0, "Referer");
            assert_eq!(headers[0].1, "https://tis.sustech.edu.cn/");
            assert_eq!(headers[1].0, "Accept");
            assert_eq!(
                headers[1].1,
                "text/html,application/xhtml+xml,application/xml;q=0.9,*/*;q=0.8"
            );
            assert_eq!(headers[2].0, "Accept-Language");
            assert_eq!(headers[2].1, "zh-cn");
            assert_eq!(headers[3].0, "Accept-Encoding");
            assert_eq!(headers[3].1, "gzip, deflate, br");
        },
        _ => panic!("expected the bridge GET"),
    }
    let act = flow.step(FlowEvent::BridgeDone);
    match act {
        FlowAction::Done(outcome) => assert_eq!(outcome, Ok(())),
        _ => panic!("expected the flow to finish"),
    }
    assert_eq!(flow.state, FlowState::Succeeded);
}

#[test]
fn transport_failure_fails_the_flow() {
    let mut flow = LoginFlow::cas_flow("u".to_owned(), "p".to_owned());
    flow.step(FlowEvent::Begin);
    let act = flow.step(FlowEvent::TransportFailed);
    match act {
        FlowAction::Done(outcome) => assert_eq!(outcome, Err(AuthError::RequestFailed)),
        _ => panic!("expected the flow to finish"),
    }
    assert_eq!(flow.state, FlowState::Failed(AuthError::RequestFailed));
}

#[test]
fn auth_error_messages() {
    assert_eq!(AuthError::LoginFailed.message(), "Login Failed");
    assert_eq!(AuthError::RequestFailed.message(), "Unable to send request to cas page");
    assert_eq!(AuthError::ParseFailed.message(), "Unable to parse HTML to fragment");
}

#[test]
fn endpoint_urls() {
    assert_eq!(cas_login_url(), "https://cas.sustech.edu.cn/cas/login");
    assert_eq!(
        portal_cas_url(),
        "https://cas.sustech.edu.cn/cas/login?service=https://tis.sustech.edu.cn/cas"
    );
    assert_eq!(basic_info_url(), "https://tis.sustech.edu.cn/UserManager/queryxsxx");
    assert_eq!(
        semester_gpa_url(),
        "https://tis.sustech.edu.cn/cjgl/xscjgl/xsgrcjcx/queryXnAndXqXfj"
    );
}

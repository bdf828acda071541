//! The CAS login handshake and the portal session bridge, as a state
//! machine: every decision of the sequence is a verified transition, and
//! the embedding program only performs the requested HTTP actions and
//! hands the responses back.

use vstd::prelude::*;
use crate::chars::{contains_seq, is_substring};
use crate::errors::AuthError;
use crate::form::{login_form_body, login_form_spec};
use crate::html::{extract_execution_token, spec_extract_token};

verus! {

/// URL of the CAS login endpoint.
pub fn cas_login_url() -> (r: String)
    ensures
        r@ == "https://cas.sustech.edu.cn/cas/login"@,
{
    "https://cas.sustech.edu.cn/cas/login".to_owned()
}

/// URL of the CAS login endpoint with the portal's acceptance callback
/// as its `service` parameter.
pub fn portal_cas_url() -> (r: String)
    ensures
        r@ == "https://cas.sustech.edu.cn/cas/login?service=https://tis.sustech.edu.cn/cas"@,
{
    "https://cas.sustech.edu.cn/cas/login?service=https://tis.sustech.edu.cn/cas".to_owned()
}

/// URL of the portal's student-info query endpoint.
pub fn basic_info_url() -> (r: String)
    ensures
        r@ == "https://tis.sustech.edu.cn/UserManager/queryxsxx"@,
{
    "https://tis.sustech.edu.cn/UserManager/queryxsxx".to_owned()
}

/// URL of the portal's GPA query endpoint.
pub fn semester_gpa_url() -> (r: String)
    ensures
        r@ == "https://tis.sustech.edu.cn/cjgl/xscjgl/xsgrcjcx/queryXnAndXqXfj"@,
{
    "https://tis.sustech.edu.cn/cjgl/xscjgl/xsgrcjcx/queryXnAndXqXfj".to_owned()
}

/// The headers of the bridge request, as (name, value) pairs.
pub open spec fn portal_headers_ok(h: Seq<(String, String)>) -> bool {
    &&& h.len() == 4
    &&& h[0].0@ == "Referer"@ && h[0].1@ == "https://tis.sustech.edu.cn/"@
    &&& h[1].0@ == "Accept"@ && h[1].1@
        == "text/html,application/xhtml+xml,application/xml;q=0.9,*/*;q=0.8"@
    &&& h[2].0@ == "Accept-Language"@ && h[2].1@ == "zh-cn"@
    &&& h[3].0@ == "Accept-Encoding"@ && h[3].1@ == "gzip, deflate, br"@
}

/// The browser-like headers sent with the bridge request.
pub fn portal_headers() -> (r: Vec<(String, String)>)
    ensures
        portal_headers_ok(r@),
{
    let mut v: Vec<(String, String)> = Vec::new();
    v.push(("Referer".to_owned(), "https://tis.sustech.edu.cn/".to_owned()));
    v.push(
        (
            "Accept".to_owned(),
            "text/html,application/xhtml+xml,application/xml;q=0.9,*/*;q=0.8".to_owned(),
        ),
    );
    v.push(("Accept-Language".to_owned(), "zh-cn".to_owned()));
    v.push(("Accept-Encoding".to_owned(), "gzip, deflate, br".to_owned()));
    v
}

/// The user agent the bridge session presents.
pub fn portal_user_agent() -> (r: String)
    ensures
        r@ == "Mozilla/5.0 (Windows NT 10.0; Win64; x64; rv:89.0) Gecko/20100101 Firefox/89.0"@,
{
    "Mozilla/5.0 (Windows NT 10.0; Win64; x64; rv:89.0) Gecko/20100101 Firefox/89.0".to_owned()
}

/// The marker whose presence in the credential response means success.
pub open spec fn login_success_marker() -> Seq<char> {
    "Log In Successful"@
}

/// A credential response body means success exactly when it contains
/// the marker.
pub open spec fn login_succeeded_spec(body: Seq<char>) -> bool {
    contains_seq(body, login_success_marker())
}

/// Whether a credential response body contains the success marker.
pub fn login_succeeded(body: &str) -> (r: bool)
    ensures
        r == login_succeeded_spec(body@),
{
    is_substring(body, "Log In Successful")
}

/// The verdict on a credential response: success exactly when the body
/// contains the marker, the login failure otherwise — whatever the HTTP
/// status was.
pub fn login_outcome(body: &str) -> (r: Result<(), AuthError>)
    ensures
        r == if login_succeeded_spec(body@) {
            Ok::<(), AuthError>(())
        } else {
            Err::<(), AuthError>(AuthError::LoginFailed)
        },
{
    if login_succeeded(body) {
        Ok(())
    } else {
        Err(AuthError::LoginFailed)
    }
}

/// Where a login flow stands.
#[derive(Clone, Copy, Debug, PartialEq, Eq, Structural)]
pub enum FlowState {
    /// Nothing requested yet.
    Ready,
    /// The login page was requested; its body is awaited.
    AwaitingPage,
    /// The credentials were posted; the verdict body is awaited.
    AwaitingVerdict,
    /// The bridge request was issued; its completion is awaited.
    AwaitingBridge,
    /// The handshake ended in success.
    Succeeded,
    /// The handshake ended in this error.
    Failed(AuthError),
}

/// What the transport hands back to the flow.
pub enum FlowEvent {
    /// Start the handshake.
    Begin,
    /// A response body for the pending request.
    Response(String),
    /// The bridge request completed (its body is not consumed).
    BridgeDone,
    /// The pending request could not be sent or read.
    TransportFailed,
}

/// What the flow asks the transport to do next.
pub enum FlowAction {
    /// Issue a GET to the URL.
    Get(String),
    /// POST the form-encoded body to the URL.
    PostForm { url: String, body: String },
    /// Issue a GET to the URL with the given headers; the body need not
    /// be read.
    GetWithHeaders { url: String, headers: Vec<(String, String)> },
    /// The flow is over with this outcome.
    Done(Result<(), AuthError>),
}

/// The outcome a finished or interrupted flow reports.
pub open spec fn flow_outcome(st: FlowState) -> Result<(), AuthError> {
    match st {
        FlowState::Succeeded => Ok(()),
        FlowState::Failed(e) => Err(e),
        _ => Err(AuthError::RequestFailed),
    }
}

/// One CAS login handshake, optionally extended by the portal bridge.
pub struct LoginFlow {
    pub username: String,
    pub password: String,
    /// The login page is fetched from and the credentials posted to
    /// this URL.
    pub login_url: String,
    /// After a successful login, a GET to this URL (with the browser
    /// headers) makes the portal trust the session.
    pub bridge_url: Option<String>,
    pub state: FlowState,
}

impl LoginFlow {
    /// A flow that authenticates against CAS alone.
    pub fn cas_flow(username: String, password: String) -> (r: LoginFlow)
        ensures
            r.username == username,
            r.password == password,
            r.login_url@ == "https://cas.sustech.edu.cn/cas/login"@,
            r.bridge_url is None,
            r.state == FlowState::Ready,
    {
        LoginFlow {
            username,
            password,
            login_url: cas_login_url(),
            bridge_url: None,
            state: FlowState::Ready,
        }
    }

    /// A flow that authenticates against CAS with the portal callback
    /// and then bridges the session to the portal.
    pub fn portal_flow(username: String, password: String) -> (r: LoginFlow)
        ensures
            r.username == username,
            r.password == password,
            r.login_url@
                == "https://cas.sustech.edu.cn/cas/login?service=https://tis.sustech.edu.cn/cas"@,
            r.bridge_url matches Some(b) && b@
                == "https://cas.sustech.edu.cn/cas/login?service=https://tis.sustech.edu.cn/cas"@,
            r.state == FlowState::Ready,
    {
        LoginFlow {
            username,
            password,
            login_url: portal_cas_url(),
            bridge_url: Some(portal_cas_url()),
            state: FlowState::Ready,
        }
    }

    /// One transition of the handshake: from the current state and the
    /// transport's event to the next state and the next action.
    pub fn step(&mut self, ev: FlowEvent) -> (act: FlowAction)
        ensures
            final(self).username == old(self).username,
            final(self).password == old(self).password,
            final(self).login_url == old(self).login_url,
            final(self).bridge_url == old(self).bridge_url,
            match (old(self).state, ev) {
                (FlowState::Ready, FlowEvent::Begin) => final(self).state
                    == FlowState::AwaitingPage && (act matches FlowAction::Get(url) && url@ == old(
                    self,
                ).login_url@),
                (FlowState::AwaitingPage, FlowEvent::Response(page)) => match spec_extract_token(
                    page@,
                ) {
                    Err(e) => final(self).state == FlowState::Failed(e) && act
                        == FlowAction::Done(Err(e)),
                    Ok(t) => final(self).state == FlowState::AwaitingVerdict
                        && (act matches FlowAction::PostForm { url, body } && url@ == old(
                        self,
                    ).login_url@ && body@ == login_form_spec(
                        old(self).username@,
                        old(self).password@,
                        t,
                    )),
                },
                (FlowState::AwaitingVerdict, FlowEvent::Response(body)) => if login_succeeded_spec(
                    body@,
                ) {
                    match old(self).bridge_url {
                        Some(b) => final(self).state == FlowState::AwaitingBridge
                            && (act matches FlowAction::GetWithHeaders { url, headers } && url@
                            == b@ && portal_headers_ok(headers@)),
                        None => final(self).state == FlowState::Succeeded && act
                            == FlowAction::Done(Ok(())),
                    }
                } else {
                    final(self).state == FlowState::Failed(AuthError::LoginFailed) && act
                        == FlowAction::Done(Err(AuthError::LoginFailed))
                },
                (FlowState::AwaitingBridge, FlowEvent::BridgeDone) => final(self).state
                    == FlowState::Succeeded && act == FlowAction::Done(Ok(())),
                (FlowState::AwaitingPage, FlowEvent::TransportFailed)
                | (FlowState::AwaitingVerdict, FlowEvent::TransportFailed)
                | (FlowState::AwaitingBridge, FlowEvent::TransportFailed) => final(self).state
                    == FlowState::Failed(AuthError::RequestFailed) && act == FlowAction::Done(
                    Err(AuthError::RequestFailed),
                ),
                _ => final(self).state == old(self).state && act == FlowAction::Done(
                    flow_outcome(old(self).state),
                ),
            },
    {
        match (self.state, ev) {
            (FlowState::Ready, FlowEvent::Begin) => {
                self.state = FlowState::AwaitingPage;
                FlowAction::Get(self.login_url.clone())
            },
            (FlowState::AwaitingPage, FlowEvent::Response(page)) => {
                match extract_execution_token(page.as_str()) {
                    Err(e) => {
                        self.state = FlowState::Failed(e);
                        FlowAction::Done(Err(e))
                    },
                    Ok(t) => {
                        let body = login_form_body(
                            self.username.as_str(),
                            self.password.as_str(),
                            t.as_str(),
                        );
                        self.state = FlowState::AwaitingVerdict;
                        FlowAction::PostForm { url: self.login_url.clone(), body }
                    },
                }
            },
            (FlowState::AwaitingVerdict, FlowEvent::Response(body)) => {
                if login_succeeded(body.as_str()) {
                    match &self.bridge_url {
                        Some(b) => {
                            let url = b.clone();
                            self.state = FlowState::AwaitingBridge;
                            FlowAction::GetWithHeaders { url, headers: portal_headers() }
                        },
                        None => {
                            self.state = FlowState::Succeeded;
                            FlowAction::Done(Ok(()))
                        },
                    }
                } else {
                    self.state = FlowState::Failed(AuthError::LoginFailed);
                    FlowAction::Done(Err(AuthError::LoginFailed))
                }
            },
            (FlowState::AwaitingBridge, FlowEvent::BridgeDone) => {
                self.state = FlowState::Succeeded;
                FlowAction::Done(Ok(()))
            },
            (FlowState::AwaitingPage, FlowEvent::TransportFailed)
            | (FlowState::AwaitingVerdict, FlowEvent::TransportFailed)
            | (FlowState::AwaitingBridge, FlowEvent::TransportFailed) => {
                self.state = FlowState::Failed(AuthError::RequestFailed);
                FlowAction::Done(Err(AuthError::RequestFailed))
            },
            (_, _) => {
                let outcome = match self.state {
                    FlowState::Succeeded => Ok(()),
                    FlowState::Failed(e) => Err(e),
                    _ => Err(AuthError::RequestFailed),
                };
                FlowAction::Done(outcome)
            },
        }
    }
}

} // verus!

//! The request proxy: one call of the user interface becomes one HTTP exchange
//! with the agent.
//!
//! The proxy itself never touches the network. `agent_request` decides what is
//! to be sent, the caller performs the exchange and reports its `Outcome`, and
//! `agent_response` decides what the user interface is told.

use crate::endpoint::{base_url_text, lemma_agent_port_text, AgentEndpoint, AGENT_PORT};
use crate::status::{status_line, Status};
use crate::text::{
    contains_text, decimal_text, has_prefix, lemma_contains_middle, lemma_contains_transitive,
    lemma_leading_word_is_contained, same_text, to_uppercase, uppercase,
};
use vstd::prelude::*;
use vstd::string::*;

verus! {

/// The HTTP methods that the proxy forwards.
#[derive(Clone, Copy, Debug, PartialEq, Eq, Structural)]
pub enum Method {
    Get,
    Post,
}

impl Method {
    /// The method that an upper-case name stands for.
    pub open spec fn parse(upper: Seq<char>) -> Option<Method> {
        if upper == "GET"@ {
            Some(Method::Get)
        } else if upper == "POST"@ {
            Some(Method::Post)
        } else {
            None
        }
    }

    /// Reads a method name that is already in upper case.
    pub fn from_uppercase(upper: &str) -> (method: Option<Method>)
        ensures
            method == Method::parse(upper@),
    {
        if same_text(upper, "GET") {
            Some(Method::Get)
        } else if same_text(upper, "POST") {
            Some(Method::Post)
        } else {
            None
        }
    }
}

/// A header line of a request.
#[derive(Clone, Debug, PartialEq, Eq)]
pub struct Header {
    pub name: String,
    pub value: String,
}

/// A request to the agent, ready to be sent.
#[derive(Clone, Debug, PartialEq, Eq)]
pub struct HttpRequest {
    pub method: Method,
    pub url: String,
    pub header: Option<Header>,
    pub body: Option<String>,
}

/// What a request says, as plain sequences of characters.
pub struct RequestModel {
    pub method: Method,
    pub url: Seq<char>,
    pub header: Option<(Seq<char>, Seq<char>)>,
    pub body: Option<Seq<char>>,
}

/// The characters of an optional string.
pub open spec fn opt_text(text: Option<String>) -> Option<Seq<char>> {
    match text {
        Some(t) => Some(t@),
        None => None,
    }
}

impl View for HttpRequest {
    type V = RequestModel;

    open spec fn view(&self) -> RequestModel {
        RequestModel {
            method: self.method,
            url: self.url@,
            header: match self.header {
                Some(h) => Some((h.name@, h.value@)),
                None => None,
            },
            body: opt_text(self.body),
        }
    }
}

/// What the transport reports once an exchange is over.
#[derive(Clone, Debug, PartialEq, Eq)]
pub enum Outcome {
    /// No full response arrived: the connection was refused, timed out, or
    /// broke while the body was read.
    Failed { description: String },
    /// The agent answered.
    Responded { status: Status, body: String },
}

/// An outcome as plain values: the status by its number, texts by their
/// characters.
pub enum OutcomeModel {
    Failed { description: Seq<char> },
    Responded { status: u16, body: Seq<char> },
}

impl View for Outcome {
    type V = OutcomeModel;

    open spec fn view(&self) -> OutcomeModel {
        match self {
            Outcome::Failed { description } => OutcomeModel::Failed { description: description@ },
            Outcome::Responded { status, body } => OutcomeModel::Responded {
                status: status@,
                body: body@,
            },
        }
    }
}

/// Why a call did not yield a body.
#[derive(Clone, Debug, PartialEq, Eq)]
pub enum ProxyError {
    /// The caller asked for a method other than GET and POST.
    UnsupportedMethod { method: String },
    /// The agent could not be reached, or its answer could not be read.
    TransportFailure { description: String },
    /// The agent answered with a status that is not a success.
    UpstreamError { status: Status, body: String },
}

/// An error as plain values.
pub enum ErrorModel {
    UnsupportedMethod { method: Seq<char> },
    TransportFailure { description: Seq<char> },
    UpstreamError { status: u16, body: Seq<char> },
}

impl View for ProxyError {
    type V = ErrorModel;

    open spec fn view(&self) -> ErrorModel {
        match self {
            ProxyError::UnsupportedMethod { method } => ErrorModel::UnsupportedMethod {
                method: method@,
            },
            ProxyError::TransportFailure { description } => ErrorModel::TransportFailure {
                description: description@,
            },
            ProxyError::UpstreamError { status, body } => ErrorModel::UpstreamError {
                status: status@,
                body: body@,
            },
        }
    }
}

/// The request that is sent for a call with a supported method: the path is
/// appended to the base URL as it stands, only POST carries a body, and a body
/// is declared as JSON.
pub open spec fn request_for(method: Method, path: Seq<char>, body: Option<Seq<char>>)
    -> RequestModel {
    let sent = if method == Method::Post {
        body
    } else {
        None
    };
    RequestModel {
        method,
        url: base_url_text(AGENT_PORT) + path,
        header: if sent is Some {
            Some(("Content-Type"@, "application/json"@))
        } else {
            None
        },
        body: sent,
    }
}

/// The plan for a call, given the upper-case form of its method name.
pub open spec fn plan_spec(
    upper: Seq<char>,
    method: Seq<char>,
    path: Seq<char>,
    body: Option<Seq<char>>,
) -> Result<RequestModel, ErrorModel> {
    match Method::parse(upper) {
        Some(m) => Ok(request_for(m, path, body)),
        None => Err(ErrorModel::UnsupportedMethod { method }),
    }
}

/// What an outcome means for the caller: the body of a 2xx response is the
/// result, everything else is an error.
pub open spec fn conclude_spec(outcome: OutcomeModel) -> Result<Seq<char>, ErrorModel> {
    match outcome {
        OutcomeModel::Failed { description } => Err(ErrorModel::TransportFailure { description }),
        OutcomeModel::Responded { status, body } => if Status::success(status) {
            Ok(body)
        } else {
            Err(ErrorModel::UpstreamError { status, body })
        },
    }
}

/// The message that tells the user interface of an error.
pub open spec fn message_text(error: ErrorModel) -> Seq<char> {
    match error {
        ErrorModel::UnsupportedMethod { method } => "Unsupported method: "@ + method,
        ErrorModel::TransportFailure { description } => description,
        ErrorModel::UpstreamError { status, body } => "Agent error "@ + status_line(status) + ": "@
            + body,
    }
}

impl ProxyError {
    /// The error as one line of text. For an upstream error the line holds the
    /// status, number and reason, and the response body.
    pub fn message(&self) -> (msg: String)
        ensures
            msg@ == message_text(self@),
            self@ matches ErrorModel::UpstreamError { status, body } ==> contains_text(
                msg@,
                decimal_text(status as nat),
            ),
    {
        match self {
            ProxyError::UnsupportedMethod { method } => {
                "Unsupported method: ".to_owned().concat(method.as_str())
            },
            ProxyError::TransportFailure { description } => description.clone(),
            ProxyError::UpstreamError { status, body } => {
                let line = status.line();
                let msg = "Agent error ".to_owned().concat(line.as_str()).concat(": ").concat(
                    body.as_str(),
                );
                proof {
                    let number = decimal_text(status@ as nat);
                    lemma_leading_word_is_contained(line@, number, ' ');
                    lemma_contains_middle("Agent error "@, line@, ": "@ + body@);
                    assert("Agent error "@ + line@ + (": "@ + body@) =~= msg@);
                    lemma_contains_transitive(msg@, line@, number);
                }
                msg
            },
        }
    }
}

/// Builds the request for a call whose method is known.
pub fn build_request(method: Method, path: &str, body: Option<String>) -> (request: HttpRequest)
    ensures
        request@ == request_for(method, path@, opt_text(body)),
{
    let url = AgentEndpoint::fixed().base_url().concat(path);
    let sent = match method {
        Method::Post => body,
        Method::Get => None,
    };
    let header = match &sent {
        Some(_) => Some(
            Header { name: "Content-Type".to_owned(), value: "application/json".to_owned() },
        ),
        None => None,
    };
    HttpRequest { method, url, header, body: sent }
}

/// Plans a call: checks the method, whatever its case, and builds the request.
/// A call with another method than GET or POST is an error, and nothing is to
/// be sent for it.
pub fn plan_request(method: &str, path: &str, body: Option<String>) -> (plan: Result<
    HttpRequest,
    ProxyError,
>)
    ensures
        match plan_spec(uppercase(method@), method@, path@, opt_text(body)) {
            Ok(model) => plan matches Ok(request) && request@ == model,
            Err(model) => plan matches Err(error) && error@ == model,
        },
{
    let upper = to_uppercase(method);
    match Method::from_uppercase(upper.as_str()) {
        Some(m) => Ok(build_request(m, path, body)),
        None => Err(ProxyError::UnsupportedMethod { method: method.to_owned() }),
    }
}

/// Reads the outcome of an exchange: the body of a successful response, or the
/// error that the outcome amounts to.
pub fn conclude(outcome: Outcome) -> (result: Result<String, ProxyError>)
    ensures
        match conclude_spec(outcome@) {
            Ok(text) => result matches Ok(body) && body@ == text,
            Err(model) => result matches Err(error) && error@ == model,
        },
{
    match outcome {
        Outcome::Failed { description } => Err(ProxyError::TransportFailure { description }),
        Outcome::Responded { status, body } => {
            if status.is_success() {
                Ok(body)
            } else {
                Err(ProxyError::UpstreamError { status, body })
            }
        },
    }
}

/// What the proxy does first for a call.
#[derive(Clone, Debug, PartialEq, Eq)]
pub enum Step {
    /// Send this request and report the outcome to `agent_response`.
    Send(HttpRequest),
    /// Send nothing: the call fails with this message.
    Refuse(String),
}

/// A step as plain values.
pub enum StepModel {
    Send(RequestModel),
    Refuse(Seq<char>),
}

impl View for Step {
    type V = StepModel;

    open spec fn view(&self) -> StepModel {
        match self {
            Step::Send(request) => StepModel::Send(request@),
            Step::Refuse(message) => StepModel::Refuse(message@),
        }
    }
}

/// The first step for a call, given the upper-case form of its method name.
pub open spec fn request_spec(
    upper: Seq<char>,
    method: Seq<char>,
    path: Seq<char>,
    body: Option<Seq<char>>,
) -> StepModel {
    match plan_spec(upper, method, path, body) {
        Ok(request) => StepModel::Send(request),
        Err(error) => StepModel::Refuse(message_text(error)),
    }
}

/// What the user interface is told after an exchange.
pub open spec fn response_spec(outcome: OutcomeModel) -> Result<Seq<char>, Seq<char>> {
    match conclude_spec(outcome) {
        Ok(body) => Ok(body),
        Err(error) => Err(message_text(error)),
    }
}

/// What a whole call returns when the exchange, if there is one, ends in
/// `outcome`.
pub open spec fn proxy_spec(
    upper: Seq<char>,
    method: Seq<char>,
    path: Seq<char>,
    body: Option<Seq<char>>,
    outcome: OutcomeModel,
) -> Result<Seq<char>, Seq<char>> {
    match request_spec(upper, method, path, body) {
        StepModel::Send(_) => response_spec(outcome),
        StepModel::Refuse(message) => Err(message),
    }
}

/// Starts a call of the user interface: either a request to send, or the
/// message with which the call fails at once.
pub fn agent_request(method: String, path: String, body: Option<String>) -> (step: Step)
    ensures
        step@ == request_spec(uppercase(method@), method@, path@, opt_text(body)),
{
    match plan_request(method.as_str(), path.as_str(), body) {
        Ok(request) => Step::Send(request),
        Err(error) => Step::Refuse(error.message()),
    }
}

/// Ends a call: turns the outcome of the exchange into what the user interface
/// gets, the response body or an error message.
pub fn agent_response(outcome: Outcome) -> (reply: Result<String, String>)
    ensures
        match response_spec(outcome@) {
            Ok(text) => reply matches Ok(body) && body@ == text,
            Err(text) => reply matches Err(message) && message@ == text,
        },
        outcome@ matches OutcomeModel::Responded { status, body } ==> (!Status::success(status)
            ==> (reply matches Err(message) && contains_text(
            message@,
            decimal_text(status as nat),
        ))),
{
    match conclude(outcome) {
        Ok(body) => Ok(body),
        Err(error) => Err(error.message()),
    }
}

/// Whether the method name, in whatever case, is one that the proxy forwards.
pub open spec fn supported(method: Seq<char>) -> bool {
    uppercase(method) == "GET"@ || uppercase(method) == "POST"@
}

/// A call with a method other than GET and POST fails with a message that
/// names the method as unsupported. No request is planned for it, and nothing
/// that the transport could report changes the result.
pub proof fn lemma_unsupported_method_is_refused(
    method: Seq<char>,
    path: Seq<char>,
    body: Option<Seq<char>>,
    outcome: OutcomeModel,
)
    requires
        !supported(method),
    ensures
        request_spec(uppercase(method), method, path, body) == StepModel::Refuse(
            "Unsupported method: "@ + method,
        ),
        proxy_spec(uppercase(method), method, path, body, outcome) == Err::<Seq<char>, Seq<char>>(
            "Unsupported method: "@ + method,
        ),
        contains_text("Unsupported method: "@ + method, method),
{
    lemma_contains_middle("Unsupported method: "@, method, Seq::empty());
    assert("Unsupported method: "@ + method + Seq::<char>::empty() =~= "Unsupported method: "@
        + method);
}

/// A call with a supported method leads to a request, and when the agent
/// cannot be reached the call fails with the description of the transport
/// error: it never returns a body.
pub proof fn lemma_transport_failure_is_reported(
    method: Seq<char>,
    path: Seq<char>,
    body: Option<Seq<char>>,
    description: Seq<char>,
)
    requires
        supported(method),
    ensures
        request_spec(uppercase(method), method, path, body) is Send,
        proxy_spec(
            uppercase(method),
            method,
            path,
            body,
            (OutcomeModel::Failed { description }),
        ) == Err::<Seq<char>, Seq<char>>(description),
{
}

/// A response with a status from 200 to 299 makes the call succeed with the
/// response body, unchanged.
pub proof fn lemma_success_returns_body(
    method: Seq<char>,
    path: Seq<char>,
    body: Option<Seq<char>>,
    status: u16,
    response: Seq<char>,
)
    requires
        supported(method),
        200 <= status < 300,
    ensures
        proxy_spec(
            uppercase(method),
            method,
            path,
            body,
            (OutcomeModel::Responded { status, body: response }),
        ) == Ok::<Seq<char>, Seq<char>>(response),
{
}

/// A response with any other status makes the call fail with a message that
/// holds the status as it is printed and the response body, unchanged.
pub proof fn lemma_upstream_error_holds_status_and_body(
    method: Seq<char>,
    path: Seq<char>,
    body: Option<Seq<char>>,
    status: u16,
    response: Seq<char>,
)
    requires
        supported(method),
        !(200 <= status < 300),
    ensures
        proxy_spec(
            uppercase(method),
            method,
            path,
            body,
            (OutcomeModel::Responded { status, body: response }),
        ) matches Err(message) && contains_text(message, status_line(status)) && contains_text(
            message,
            response,
        ),
{
    let message = "Agent error "@ + status_line(status) + ": "@ + response;
    lemma_contains_middle("Agent error "@, status_line(status), ": "@ + response);
    assert("Agent error "@ + status_line(status) + (": "@ + response) =~= message);
    lemma_contains_middle("Agent error "@ + status_line(status) + ": "@, response, Seq::empty());
    assert("Agent error "@ + status_line(status) + ": "@ + response + Seq::<char>::empty()
        =~= message);
}

/// A call fails in exactly three cases: its method is not supported, the
/// transport failed, or the agent answered with a status that is no success.
pub proof fn lemma_failure_cases(
    method: Seq<char>,
    path: Seq<char>,
    body: Option<Seq<char>>,
    outcome: OutcomeModel,
)
    ensures
        proxy_spec(uppercase(method), method, path, body, outcome) is Err <==> {
            ||| !supported(method)
            ||| outcome is Failed
            ||| (outcome matches OutcomeModel::Responded { status, .. } && !Status::success(status))
        },
{
}

/// Every request goes to the agent's port: its URL is the base URL of
/// `AGENT_PORT`, the port that `get_agent_port` returns, followed by the path
/// of the call as it was given.
pub proof fn lemma_requests_go_to_agent_port(
    method: Method,
    path: Seq<char>,
    body: Option<Seq<char>>,
)
    ensures
        request_for(method, path, body).url == base_url_text(AGENT_PORT) + path,
        has_prefix(request_for(method, path, body).url, base_url_text(AGENT_PORT)),
        has_prefix(request_for(method, path, body).url, "http://127.0.0.1:12345"@),
{
    let url = request_for(method, path, body).url;
    lemma_agent_port_text();
    assert(url.subrange(0, base_url_text(AGENT_PORT).len() as int) =~= base_url_text(AGENT_PORT));
}

} // verus!

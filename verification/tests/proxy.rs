use agent_bridge::proxy::{
    agent_request, agent_response, build_request, conclude, plan_request, Header, HttpRequest,
    Method, Outcome, ProxyError, Step,
};
use agent_bridge::status::Status;

fn status(code: u16) -> Status {
    Status::from_u16(code).unwrap()
}

fn responded(code: u16, body: &str) -> Outcome {
    Outcome::Responded { status: status(code), body: body.to_string() }
}

fn failed(description: &str) -> Outcome {
    Outcome::Failed { description: description.to_string() }
}

fn json_header() -> Header {
    Header { name: "Content-Type".to_string(), value: "application/json".to_string() }
}

#[test]
fn lower_case_get_is_sent_and_its_body_returned() {
    let step = agent_request("get".to_string(), "/health".to_string(), None);
    assert_eq!(
        step,
        Step::Send(HttpRequest {
            method: Method::Get,
            url: "http://127.0.0.1:12345/health".to_string(),
            header: None,
            body: None,
        })
    );
    let reply = agent_response(responded(200, "{\"status\":\"ok\"}"));
    assert_eq!(reply, Ok("{\"status\":\"ok\"}".to_string()));
}

#[test]
fn post_with_body_is_sent_as_json_and_its_body_returned() {
    let step = agent_request(
        "POST".to_string(),
        "/settings".to_string(),
        Some("{\"lang\":\"en\"}".to_string()),
    );
    assert_eq!(
        step,
        Step::Send(HttpRequest {
            method: Method::Post,
            url: "http://127.0.0.1:12345/settings".to_string(),
            header: Some(json_header()),
            body: Some("{\"lang\":\"en\"}".to_string()),
        })
    );
    let reply = agent_response(responded(201, "{\"id\":1}"));
    assert_eq!(reply, Ok("{\"id\":1}".to_string()));
}

#[test]
fn put_is_refused_at_once() {
    let step = agent_request("PUT".to_string(), "/health".to_string(), None);
    assert_eq!(step, Step::Refuse("Unsupported method: PUT".to_string()));
}

#[test]
fn unreachable_agent_gives_the_transport_error() {
    let step = agent_request("GET".to_string(), "/health".to_string(), None);
    assert!(matches!(step, Step::Send(_)));
    let reply = agent_response(failed("error sending request: connection refused"));
    assert_eq!(reply, Err("error sending request: connection refused".to_string()));
}

#[test]
fn missing_route_gives_status_and_body() {
    let step = agent_request("GET".to_string(), "/missing".to_string(), None);
    assert!(matches!(step, Step::Send(_)));
    let reply = agent_response(responded(404, "not found"));
    let message = reply.unwrap_err();
    assert!(message.contains("404"));
    assert!(message.contains("not found"));
    assert_eq!(message, "Agent error 404 Not Found: not found");
}

#[test]
fn unsupported_message_keeps_the_method_as_given() {
    let step = agent_request("delete".to_string(), "/x".to_string(), Some("b".to_string()));
    assert_eq!(step, Step::Refuse("Unsupported method: delete".to_string()));
    let step = agent_request(String::new(), "/x".to_string(), None);
    assert_eq!(step, Step::Refuse("Unsupported method: ".to_string()));
    let step = agent_request("GET ".to_string(), "/x".to_string(), None);
    assert_eq!(step, Step::Refuse("Unsupported method: GET ".to_string()));
}

#[test]
fn method_case_does_not_matter() {
    for name in ["get", "Get", "gEt", "GET"] {
        let plan = plan_request(name, "/a", None).unwrap();
        assert_eq!(plan.method, Method::Get);
    }
    for name in ["post", "Post", "pOsT", "POST"] {
        let plan = plan_request(name, "/a", None).unwrap();
        assert_eq!(plan.method, Method::Post);
    }
}

#[test]
fn method_is_compared_after_unicode_uppercasing() {
    // U+017F, the long s, has S as its upper-case form.
    let plan = plan_request("po\u{17f}t", "/a", None).unwrap();
    assert_eq!(plan.method, Method::Post);
    assert_eq!(Method::from_uppercase("po\u{17f}t"), None);
}

#[test]
fn from_uppercase_reads_only_upper_case_names() {
    assert_eq!(Method::from_uppercase("GET"), Some(Method::Get));
    assert_eq!(Method::from_uppercase("POST"), Some(Method::Post));
    assert_eq!(Method::from_uppercase("get"), None);
    assert_eq!(Method::from_uppercase("post"), None);
    assert_eq!(Method::from_uppercase("PUT"), None);
    assert_eq!(Method::from_uppercase("GETS"), None);
    assert_eq!(Method::from_uppercase("GE"), None);
    assert_eq!(Method::from_uppercase(""), None);
}

#[test]
fn plan_request_names_the_unsupported_method() {
    let plan = plan_request("Patch", "/a", Some("{}".to_string()));
    assert_eq!(plan, Err(ProxyError::UnsupportedMethod { method: "Patch".to_string() }));
}

#[test]
fn get_drops_the_body() {
    let request = build_request(Method::Get, "/health", Some("ignored".to_string()));
    assert_eq!(request.method, Method::Get);
    assert_eq!(request.header, None);
    assert_eq!(request.body, None);
}

#[test]
fn post_without_body_has_no_header() {
    let request = build_request(Method::Post, "/settings", None);
    assert_eq!(
        request,
        HttpRequest {
            method: Method::Post,
            url: "http://127.0.0.1:12345/settings".to_string(),
            header: None,
            body: None,
        }
    );
}

#[test]
fn post_with_empty_body_is_still_json() {
    let request = build_request(Method::Post, "/settings", Some(String::new()));
    assert_eq!(request.header, Some(json_header()));
    assert_eq!(request.body, Some(String::new()));
}

#[test]
fn path_is_appended_verbatim() {
    let request = build_request(Method::Get, "/a b?q=1&r=é#frag", None);
    assert_eq!(request.url, "http://127.0.0.1:12345/a b?q=1&r=é#frag");
    let request = build_request(Method::Get, "no-slash", None);
    assert_eq!(request.url, "http://127.0.0.1:12345no-slash");
    let request = build_request(Method::Get, "", None);
    assert_eq!(request.url, "http://127.0.0.1:12345");
}

#[test]
fn success_is_any_status_from_200_to_299() {
    for code in [200u16, 201, 204, 250, 299] {
        assert_eq!(conclude(responded(code, "body")), Ok("body".to_string()));
    }
    for code in [100u16, 199, 300, 301, 404, 500, 999] {
        assert_eq!(
            conclude(responded(code, "body")),
            Err(ProxyError::UpstreamError { status: status(code), body: "body".to_string() })
        );
    }
}

#[test]
fn success_body_is_returned_unchanged() {
    let body = "  line one\r\nline two\t\u{0}\u{1f600} é  ";
    assert_eq!(agent_response(responded(200, body)), Ok(body.to_string()));
    assert_eq!(agent_response(responded(204, "")), Ok(String::new()));
}

#[test]
fn transport_failure_is_never_a_success() {
    assert_eq!(
        conclude(failed("timed out")),
        Err(ProxyError::TransportFailure { description: "timed out".to_string() })
    );
    assert_eq!(agent_response(failed("")), Err(String::new()));
}

#[test]
fn upstream_error_message_holds_status_line_and_body() {
    assert_eq!(
        agent_response(responded(500, "boom")),
        Err("Agent error 500 Internal Server Error: boom".to_string())
    );
    assert_eq!(
        agent_response(responded(302, "")),
        Err("Agent error 302 Found: ".to_string())
    );
    assert_eq!(
        agent_response(responded(799, "odd")),
        Err("Agent error 799 <unknown status code>: odd".to_string())
    );
}

#[test]
fn upstream_error_message_holds_number_and_body_for_every_status() {
    for code in 100u16..=999 {
        if (200..300).contains(&code) {
            continue;
        }
        let message = agent_response(responded(code, "the body")).unwrap_err();
        assert!(message.starts_with("Agent error "));
        assert!(message.contains(&code.to_string()));
        assert!(message.ends_with(": the body"));
    }
}

#[test]
fn each_error_has_its_message() {
    let unsupported = ProxyError::UnsupportedMethod { method: "HEAD".to_string() };
    assert_eq!(unsupported.message(), "Unsupported method: HEAD");
    let transport = ProxyError::TransportFailure { description: "connection reset".to_string() };
    assert_eq!(transport.message(), "connection reset");
    let upstream = ProxyError::UpstreamError { status: status(503), body: "busy".to_string() };
    assert_eq!(upstream.message(), "Agent error 503 Service Unavailable: busy");
}

#[test]
fn refusal_does_not_depend_on_path_or_body() {
    let a = agent_request("PUT".to_string(), "/a".to_string(), None);
    let b = agent_request("PUT".to_string(), "/b".to_string(), Some("{}".to_string()));
    assert_eq!(a, b);
    assert!(matches!(a, Step::Refuse(_)));
}

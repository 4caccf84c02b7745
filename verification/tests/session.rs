use dns_mcp::lookup::{DnsLookupRequest, FetchOutcome};
use dns_mcp::outcome::{ContentBlock, ToolResult};
use dns_mcp::schema::{Argument, Value};
use dns_mcp::service::{DnsService, ToolInvocationRequest};
use dns_mcp::session::{Action, Event, Message, Reply, Request, Response, Session};

fn invoke(id: u64, tool: &str, domain: &str) -> Event {
    Event::Received(Message {
        id,
        request: Request::Invoke(ToolInvocationRequest {
            tool: tool.to_string(),
            arguments: vec![Argument {
                name: "domain".to_string(),
                value: Value::Text(domain.to_string()),
            }],
        }),
    })
}

fn text(id: u64, body: &str) -> Action {
    Action::Respond(Response {
        id,
        reply: Reply::Outcome(ToolResult::Success {
            content: vec![ContentBlock::Text(body.to_string())],
        }),
    })
}

#[test]
fn new_session_is_open_with_nothing_in_flight() {
    let service = DnsService::new();
    let session = Session::new(&service);
    assert!(session.is_open());
    assert_eq!(session.in_flight(), None);
}

#[test]
fn discovery_is_answered_at_once() {
    let service = DnsService::new();
    let mut session = Session::new(&service);
    let action = session.step(Event::Received(Message { id: 1, request: Request::Discover }));
    assert_eq!(
        action,
        Action::Respond(Response { id: 1, reply: Reply::Descriptor(service.describe()) })
    );
    assert!(session.is_open());
    assert_eq!(session.in_flight(), None);
}

#[test]
fn discovery_twice_gives_the_same_descriptor() {
    let service = DnsService::new();
    let mut session = Session::new(&service);
    let first = session.step(Event::Received(Message { id: 1, request: Request::Discover }));
    let second = session.step(Event::Received(Message { id: 2, request: Request::Discover }));
    match (first, second) {
        (Action::Respond(a), Action::Respond(b)) => {
            assert_eq!(a.id, 1);
            assert_eq!(b.id, 2);
            assert_eq!(a.reply, b.reply);
        }
        other => panic!("expected two responses, got {:?}", other),
    }
}

#[test]
fn tool_list_is_answered_at_once() {
    let service = DnsService::new();
    let mut session = Session::new(&service);
    let action = session.step(Event::Received(Message { id: 7, request: Request::ListTools }));
    assert_eq!(
        action,
        Action::Respond(Response { id: 7, reply: Reply::Tools(vec![DnsLookupRequest::schema()]) })
    );
}

#[test]
fn discovery_then_invocation_end_to_end() {
    let service = DnsService::new();
    let mut session = Session::new(&service);
    let listed = session.step(Event::Received(Message { id: 1, request: Request::ListTools }));
    match listed {
        Action::Respond(Response { id: 1, reply: Reply::Tools(tools) }) => {
            assert_eq!(tools.len(), 1);
            assert_eq!(tools[0].name, "dns_lookup");
            assert_eq!(tools[0].fields[0].name, "domain");
            assert!(tools[0].fields[0].required);
        }
        other => panic!("expected the tool list, got {:?}", other),
    }
    let asked = session.step(invoke(2, "dns_lookup", "example.com"));
    assert_eq!(
        asked,
        Action::Fetch("https://api.hackertarget.com/dnslookup/?q=example.com".to_string())
    );
    assert_eq!(session.in_flight(), Some(2));
    let answered = session.step(Event::Fetched(FetchOutcome::Body("1.2.3.4".to_string())));
    assert_eq!(answered, text(2, "1.2.3.4"));
    assert_eq!(session.in_flight(), None);
    assert!(session.is_open());
}

#[test]
fn invalid_invocation_is_answered_without_a_fetch() {
    let service = DnsService::new();
    let mut session = Session::new(&service);
    let action = session.step(invoke(3, "dns_lookup", ""));
    assert_eq!(
        action,
        Action::Respond(Response {
            id: 3,
            reply: Reply::Outcome(ToolResult::Failure {
                code: -32602,
                message: "Invalid arguments: domain: must not be empty".to_string(),
                data: None,
            }),
        })
    );
    assert_eq!(session.in_flight(), None);
    assert!(session.is_open());
}

#[test]
fn unknown_tool_is_answered_and_the_session_goes_on() {
    let service = DnsService::new();
    let mut session = Session::new(&service);
    let action = session.step(invoke(4, "unknown_tool", "example.com"));
    assert_eq!(
        action,
        Action::Respond(Response {
            id: 4,
            reply: Reply::Outcome(ToolResult::Failure {
                code: -32602,
                message: "Unknown tool: unknown_tool".to_string(),
                data: None,
            }),
        })
    );
    assert!(session.is_open());
    assert_eq!(
        session.step(invoke(5, "dns_lookup", "example.com")),
        Action::Fetch("https://api.hackertarget.com/dnslookup/?q=example.com".to_string())
    );
}

#[test]
fn failed_fetch_is_answered_and_the_session_goes_on() {
    let service = DnsService::new();
    let mut session = Session::new(&service);
    session.step(invoke(1, "dns_lookup", "example.com"));
    let action =
        session.step(Event::Fetched(FetchOutcome::RequestFailed("refused".to_string())));
    assert_eq!(
        action,
        Action::Respond(Response {
            id: 1,
            reply: Reply::Outcome(ToolResult::Failure {
                code: -32603,
                message: "Request failed: refused".to_string(),
                data: None,
            }),
        })
    );
    assert!(session.is_open());
}

#[test]
fn responses_come_in_the_order_of_the_requests() {
    let service = DnsService::new();
    let mut session = Session::new(&service);
    let mut ids: Vec<u64> = Vec::new();
    let events = vec![
        Event::Received(Message { id: 10, request: Request::Discover }),
        invoke(11, "dns_lookup", "a.example"),
        Event::Fetched(FetchOutcome::Body("1".to_string())),
        Event::Received(Message { id: 12, request: Request::ListTools }),
        invoke(13, "dns_lookup", "b.example"),
        Event::Fetched(FetchOutcome::ReadFailed("cut".to_string())),
    ];
    for event in events {
        if let Action::Respond(response) = session.step(event) {
            ids.push(response.id);
        }
    }
    assert_eq!(ids, vec![10, 11, 12, 13]);
}

#[test]
fn request_while_one_is_in_flight_is_left_aside() {
    let service = DnsService::new();
    let mut session = Session::new(&service);
    session.step(invoke(1, "dns_lookup", "example.com"));
    assert_eq!(
        session.step(Event::Received(Message { id: 2, request: Request::Discover })),
        Action::OutOfTurn
    );
    assert_eq!(session.in_flight(), Some(1));
    assert_eq!(
        session.step(Event::Fetched(FetchOutcome::Body("1.2.3.4".to_string()))),
        text(1, "1.2.3.4")
    );
}

#[test]
fn fetch_outcome_without_a_request_is_left_aside() {
    let service = DnsService::new();
    let mut session = Session::new(&service);
    assert_eq!(
        session.step(Event::Fetched(FetchOutcome::Body("stray".to_string()))),
        Action::OutOfTurn
    );
    assert!(session.is_open());
    assert_eq!(session.in_flight(), None);
}

#[test]
fn close_ends_the_session_cleanly() {
    let service = DnsService::new();
    let mut session = Session::new(&service);
    assert_eq!(session.step(Event::Closed), Action::Finish);
    assert!(!session.is_open());
    assert_eq!(
        session.step(Event::Received(Message { id: 1, request: Request::Discover })),
        Action::OutOfTurn
    );
    assert_eq!(session.step(Event::Closed), Action::OutOfTurn);
}

#[test]
fn close_abandons_the_request_in_flight() {
    let service = DnsService::new();
    let mut session = Session::new(&service);
    session.step(invoke(1, "dns_lookup", "example.com"));
    assert_eq!(session.step(Event::Closed), Action::Finish);
    assert_eq!(session.in_flight(), None);
    assert_eq!(
        session.step(Event::Fetched(FetchOutcome::Body("late".to_string()))),
        Action::OutOfTurn
    );
}

#[test]
fn broken_connection_hands_its_cause_on() {
    let service = DnsService::new();
    let mut session = Session::new(&service);
    assert_eq!(
        session.step(Event::Broken("unexpected end of input".to_string())),
        Action::Abort("unexpected end of input".to_string())
    );
    assert!(!session.is_open());
    assert_eq!(session.step(invoke(1, "dns_lookup", "example.com")), Action::OutOfTurn);
}

#[test]
fn broken_connection_ends_a_session_with_a_request_in_flight() {
    let service = DnsService::new();
    let mut session = Session::new(&service);
    session.step(invoke(1, "dns_lookup", "example.com"));
    assert_eq!(
        session.step(Event::Broken("pipe closed".to_string())),
        Action::Abort("pipe closed".to_string())
    );
    assert!(!session.is_open());
    assert_eq!(session.in_flight(), None);
}

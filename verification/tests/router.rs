use dns_mcp::error::ToolError;
use dns_mcp::lookup::{DnsLookupRequest, FetchOutcome};
use dns_mcp::outcome::{ContentBlock, ToolResult};
use dns_mcp::router::{Handler, Invocation, Router};
use dns_mcp::schema::{Argument, Fault, FieldSpec, FieldType, InvalidArguments, ToolSchema, Value};

fn schema_named(name: &str) -> ToolSchema {
    ToolSchema {
        name: name.to_string(),
        description: format!("the tool {}", name),
        fields: vec![FieldSpec {
            name: "domain".to_string(),
            kind: FieldType::Text,
            required: true,
            description: String::new(),
        }],
    }
}

fn domain(text: &str) -> Vec<Argument> {
    vec![Argument { name: "domain".to_string(), value: Value::Text(text.to_string()) }]
}

fn lookup_router() -> Router {
    let mut router = Router::new();
    assert_eq!(router.register(DnsLookupRequest::schema(), Handler::DnsLookup), Ok(()));
    router
}

fn never_called(_url: String) -> FetchOutcome {
    panic!("the handler was reached")
}

#[test]
fn new_router_lists_nothing() {
    let router = Router::new();
    assert_eq!(router.len(), 0);
    assert_eq!(router.list(), Vec::new());
    assert!(!router.contains("dns_lookup"));
}

#[test]
fn list_is_in_registration_order() {
    let mut router = Router::new();
    assert_eq!(router.register(schema_named("zeta"), Handler::DnsLookup), Ok(()));
    assert_eq!(router.register(schema_named("alpha"), Handler::DnsLookup), Ok(()));
    assert_eq!(router.register(schema_named("mid"), Handler::DnsLookup), Ok(()));
    assert_eq!(router.len(), 3);
    assert_eq!(
        router.list(),
        vec![schema_named("zeta"), schema_named("alpha"), schema_named("mid")]
    );
}

#[test]
fn duplicate_name_is_refused_and_changes_nothing() {
    let mut router = Router::new();
    assert_eq!(router.register(schema_named("one"), Handler::DnsLookup), Ok(()));
    assert_eq!(router.register(schema_named("two"), Handler::DnsLookup), Ok(()));
    let mut again = schema_named("one");
    again.description = "another description".to_string();
    assert_eq!(
        router.register(again, Handler::DnsLookup),
        Err(ToolError::DuplicateToolName("one".to_string()))
    );
    assert_eq!(router.len(), 2);
    assert_eq!(router.list(), vec![schema_named("one"), schema_named("two")]);
}

#[test]
fn find_gives_the_registered_tool() {
    let router = lookup_router();
    let tool = router.find("dns_lookup").expect("the tool is registered");
    assert_eq!(tool.schema, DnsLookupRequest::schema());
    assert_eq!(tool.handler, Handler::DnsLookup);
    assert!(router.find("dns").is_none());
}

#[test]
fn unknown_tool_is_refused_and_registry_unchanged() {
    let router = lookup_router();
    let before = router.list();
    assert_eq!(
        router.dispatch("unknown_tool", &Vec::new(), never_called),
        Err(ToolError::UnknownTool("unknown_tool".to_string()))
    );
    assert_eq!(router.list(), before);
    assert_eq!(router.len(), 1);
}

#[test]
fn empty_domain_never_reaches_the_handler() {
    let router = lookup_router();
    assert_eq!(
        router.dispatch("dns_lookup", &domain(""), never_called),
        Err(ToolError::InvalidArguments(InvalidArguments {
            field: "domain".to_string(),
            reason: Fault::Empty,
        }))
    );
}

#[test]
fn missing_domain_never_reaches_the_handler() {
    let router = lookup_router();
    assert_eq!(
        router.dispatch("dns_lookup", &Vec::new(), never_called),
        Err(ToolError::InvalidArguments(InvalidArguments {
            field: "domain".to_string(),
            reason: Fault::Missing,
        }))
    );
}

#[test]
fn unknown_argument_never_reaches_the_handler() {
    let router = lookup_router();
    let mut arguments = domain("example.com");
    arguments.push(Argument { name: "server".to_string(), value: Value::Null });
    assert_eq!(
        router.dispatch("dns_lookup", &arguments, never_called),
        Err(ToolError::InvalidArguments(InvalidArguments {
            field: "server".to_string(),
            reason: Fault::Unknown,
        }))
    );
}

#[test]
fn resolve_gives_the_validated_request() {
    let router = lookup_router();
    let invocation = router.resolve("dns_lookup", &domain("example.com")).expect("resolves");
    assert_eq!(
        invocation,
        Invocation::DnsLookup(DnsLookupRequest { domain: "example.com".to_string() })
    );
    assert_eq!(invocation.url(), "https://api.hackertarget.com/dnslookup/?q=example.com");
}

#[test]
fn completed_invocation_hands_on_the_body() {
    let router = lookup_router();
    let invocation = router.resolve("dns_lookup", &domain("example.com")).expect("resolves");
    assert_eq!(
        invocation.complete(FetchOutcome::Body("93.184.216.34".to_string())),
        ToolResult::Success { content: vec![ContentBlock::Text("93.184.216.34".to_string())] }
    );
    assert_eq!(
        invocation.complete(FetchOutcome::RequestFailed("timed out".to_string())),
        ToolResult::Failure {
            code: -32603,
            message: "Request failed: timed out".to_string(),
            data: None,
        }
    );
}

#[test]
fn dispatch_runs_the_handler_with_the_collaborator() {
    let router = lookup_router();
    let result = router.dispatch("dns_lookup", &domain("example.com"), |url: String| {
        assert_eq!(url, "https://api.hackertarget.com/dnslookup/?q=example.com");
        FetchOutcome::Body("104.16.1.1\n".to_string())
    });
    assert_eq!(
        result,
        Ok(ToolResult::Success { content: vec![ContentBlock::Text("104.16.1.1\n".to_string())] })
    );
}

#[test]
fn dispatch_reports_a_failed_request_as_a_result() {
    let router = lookup_router();
    let result = router.dispatch("dns_lookup", &domain("example.com"), |_url: String| {
        FetchOutcome::RequestFailed("connection reset".to_string())
    });
    match result {
        Ok(ToolResult::Failure { code, message, .. }) => {
            assert_eq!(code, -32603);
            assert!(message.contains("Request failed"));
        }
        other => panic!("expected a failure result, got {:?}", other),
    }
}

#[test]
fn tool_under_another_name_resolves_by_that_name() {
    let mut router = lookup_router();
    assert_eq!(router.register(schema_named("resolve_host"), Handler::DnsLookup), Ok(()));
    assert!(router.resolve("resolve_host", &domain("example.net")).is_ok());
    assert!(router.contains("resolve_host"));
    assert!(router.contains("dns_lookup"));
}

#[test]
fn errors_read_as_messages() {
    assert_eq!(
        ToolError::UnknownTool("whois".to_string()).message(),
        "Unknown tool: whois"
    );
    assert_eq!(
        ToolError::DuplicateToolName("dns_lookup".to_string()).message(),
        "Duplicate tool name: dns_lookup"
    );
    let invalid = ToolError::InvalidArguments(InvalidArguments {
        field: "domain".to_string(),
        reason: Fault::Empty,
    });
    assert_eq!(invalid.message(), "Invalid arguments: domain: must not be empty");
    assert_eq!(invalid.code(), -32602);
    assert_eq!(ToolError::UnknownTool("whois".to_string()).code(), -32602);
    assert_eq!(ToolError::DuplicateToolName("x".to_string()).code(), -32603);
}

#[test]
fn errors_become_failures_for_the_client() {
    let error = ToolError::InvalidArguments(InvalidArguments {
        field: "domain".to_string(),
        reason: Fault::Missing,
    });
    assert_eq!(
        error.to_result(),
        ToolResult::Failure {
            code: -32602,
            message: "Invalid arguments: domain: missing required field".to_string(),
            data: None,
        }
    );
    let wrong = ToolError::InvalidArguments(InvalidArguments {
        field: "domain".to_string(),
        reason: Fault::WrongType,
    });
    assert_eq!(wrong.message(), "Invalid arguments: domain: value of the wrong type");
    let unknown = ToolError::InvalidArguments(InvalidArguments {
        field: "server".to_string(),
        reason: Fault::Unknown,
    });
    assert_eq!(unknown.message(), "Invalid arguments: server: unknown field");
}

#[test]
fn invocation_with_an_empty_domain_is_refused_when_run() {
    let invocation = Invocation::DnsLookup(DnsLookupRequest { domain: String::new() });
    assert_eq!(
        invocation.run(never_called),
        ToolResult::Failure {
            code: -32602,
            message: "Invalid arguments: domain: must not be empty".to_string(),
            data: None,
        }
    );
}

#[test]
fn invocation_with_an_empty_domain_stays_refused_when_completed() {
    let invocation = Invocation::DnsLookup(DnsLookupRequest { domain: String::new() });
    assert_eq!(
        invocation.complete(FetchOutcome::Body("1.2.3.4".to_string())),
        ToolResult::Failure {
            code: -32602,
            message: "Invalid arguments: domain: must not be empty".to_string(),
            data: None,
        }
    );
}

#[test]
fn cloned_router_lists_the_same_tools() {
    let mut router = lookup_router();
    assert_eq!(router.register(schema_named("second"), Handler::DnsLookup), Ok(()));
    let copy = router.clone();
    assert_eq!(copy.list(), router.list());
    assert_eq!(copy.len(), 2);
    assert!(copy.contains("second"));
}

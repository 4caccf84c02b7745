use dns_mcp::error::ToolError;
use dns_mcp::lookup::FetchOutcome;
use dns_mcp::outcome::{ContentBlock, ToolResult};
use dns_mcp::schema::{Argument, Fault, FieldType, InvalidArguments, Value};
use dns_mcp::service::{Capabilities, DnsService, Identity, ServiceDescriptor, ToolInvocationRequest};

fn lookup_of(domain: &str) -> ToolInvocationRequest {
    ToolInvocationRequest {
        tool: "dns_lookup".to_string(),
        arguments: vec![Argument {
            name: "domain".to_string(),
            value: Value::Text(domain.to_string()),
        }],
    }
}

#[test]
fn describe_is_idempotent() {
    let service = DnsService::new();
    let first = service.describe();
    let second = service.describe();
    assert_eq!(first, second);
}

#[test]
fn descriptor_advertises_tools_and_instructions() {
    let descriptor = DnsService::new().describe();
    assert!(descriptor.capabilities.tools);
    assert_eq!(
        descriptor.instructions,
        "A DNS lookup service that queries domain information using the HackerTarget API. Use the dns_lookup tool to perform DNS lookups for any domain name."
    );
    assert!(!descriptor.identity.name.is_empty());
    assert!(!descriptor.identity.version.is_empty());
}

#[test]
fn default_service_is_a_new_service() {
    let service = DnsService::default();
    assert_eq!(service.describe(), DnsService::new().describe());
    assert_eq!(service.list_tools(), DnsService::new().list_tools());
}

#[test]
fn discovery_then_invocation() {
    let service = DnsService::new();
    assert!(service.describe().capabilities.tools);
    let tools = service.list_tools();
    assert_eq!(tools.len(), 1);
    assert_eq!(tools[0].name, "dns_lookup");
    assert_eq!(tools[0].fields.len(), 1);
    assert_eq!(tools[0].fields[0].name, "domain");
    assert_eq!(tools[0].fields[0].kind, FieldType::Text);
    assert!(tools[0].fields[0].required);

    let result =
        service.invoke(&lookup_of("example.com"), |_url: String| FetchOutcome::Body("1.2.3.4".to_string()));
    assert_eq!(
        result,
        Ok(ToolResult::Success { content: vec![ContentBlock::Text("1.2.3.4".to_string())] })
    );
}

#[test]
fn invocation_in_two_steps() {
    let service = DnsService::new();
    let invocation = service.begin(&lookup_of("example.com")).expect("resolves");
    assert_eq!(invocation.url(), "https://api.hackertarget.com/dnslookup/?q=example.com");
    assert_eq!(
        invocation.complete(FetchOutcome::ReadFailed("decoding failed".to_string())),
        ToolResult::Failure {
            code: -32603,
            message: "Failed to read response: decoding failed".to_string(),
            data: None,
        }
    );
}

#[test]
fn service_refuses_an_unknown_tool() {
    let service = DnsService::new();
    let request = ToolInvocationRequest { tool: "unknown_tool".to_string(), arguments: Vec::new() };
    assert_eq!(service.begin(&request), Err(ToolError::UnknownTool("unknown_tool".to_string())));
    assert_eq!(service.list_tools().len(), 1);
}

#[test]
fn service_refuses_an_empty_domain() {
    let service = DnsService::new();
    assert_eq!(
        service.begin(&lookup_of("")),
        Err(ToolError::InvalidArguments(InvalidArguments {
            field: "domain".to_string(),
            reason: Fault::Empty,
        }))
    );
}

#[test]
fn service_serves_one_request_after_another() {
    let service = DnsService::new();
    let failed = service.invoke(&lookup_of("example.com"), |_url: String| {
        FetchOutcome::RequestFailed("no route to host".to_string())
    });
    assert_eq!(
        failed,
        Ok(ToolResult::Failure {
            code: -32603,
            message: "Request failed: no route to host".to_string(),
            data: None,
        })
    );
    let served =
        service.invoke(&lookup_of("example.com"), |_url: String| FetchOutcome::Body("1.2.3.4".to_string()));
    assert_eq!(
        served,
        Ok(ToolResult::Success { content: vec![ContentBlock::Text("1.2.3.4".to_string())] })
    );
}

fn fixed_instructions() -> String {
    "A DNS lookup service that queries domain information using the HackerTarget API. Use the dns_lookup tool to perform DNS lookups for any domain name.".to_string()
}

#[test]
fn new_service_has_the_identity_of_the_protocol_implementation() {
    assert_eq!(
        DnsService::new().describe(),
        ServiceDescriptor {
            capabilities: Capabilities { tools: true },
            identity: Identity { name: "rmcp".to_string(), version: "3.7.0".to_string() },
            instructions: fixed_instructions(),
        }
    );
}

#[test]
fn any_two_services_describe_themselves_alike() {
    let one = DnsService::new();
    let other = DnsService::new();
    let third = DnsService::default();
    assert_eq!(one.describe(), other.describe());
    assert_eq!(one.describe(), third.describe());
    assert_eq!(one.list_tools(), third.list_tools());
}

#[test]
fn service_can_be_given_an_identity() {
    let identity = Identity { name: "dns-lookup".to_string(), version: "0.1.0".to_string() };
    let service = DnsService::with_identity(identity);
    assert_eq!(
        service.describe(),
        ServiceDescriptor {
            capabilities: Capabilities { tools: true },
            identity: Identity { name: "dns-lookup".to_string(), version: "0.1.0".to_string() },
            instructions: fixed_instructions(),
        }
    );
    assert_eq!(service.list_tools(), DnsService::new().list_tools());
}

#[test]
fn cloned_service_is_the_same_service() {
    let service =
        DnsService::with_identity(Identity { name: "a".to_string(), version: "b".to_string() });
    let copy = service.clone();
    assert_eq!(copy.describe(), service.describe());
    assert_eq!(copy.list_tools(), service.list_tools());
    assert!(format!("{:?}", copy).contains("dns_lookup"));
}

#[test]
fn service_refuses_an_empty_domain_without_asking_the_collaborator() {
    let service = DnsService::new();
    let calls = std::cell::Cell::new(0u32);
    let result = service.invoke(&lookup_of(""), |_url: String| {
        calls.set(calls.get() + 1);
        FetchOutcome::Body("1.2.3.4".to_string())
    });
    assert_eq!(calls.get(), 0);
    assert_eq!(
        result,
        Err(ToolError::InvalidArguments(InvalidArguments {
            field: "domain".to_string(),
            reason: Fault::Empty,
        }))
    );
}

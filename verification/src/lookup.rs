//! The DNS lookup tool: the outbound request it needs, and what becomes of
//! that request's outcome.

use vstd::prelude::*;
use crate::error::{error_result, ToolError, ToolErrorView};
use crate::outcome::{ContentBlockView, ToolResult, ToolResultView, INTERNAL_ERROR};
use crate::schema::{
    arguments_view, find_value, value_of, Argument, ArgumentView, Fault, FieldSpec, FieldSpecView,
    FieldType, InvalidArguments, InvalidArgumentsView, ToolSchema, ToolSchemaView, Value,
    ValueView,
};

verus! {

/// The validated input of the DNS lookup tool.
#[derive(Debug, PartialEq, Eq)]
pub struct DnsLookupRequest {
    pub domain: String,
}

/// The mathematical model of a [`DnsLookupRequest`].
pub struct DnsLookupRequestView {
    pub domain: Seq<char>,
}

impl View for DnsLookupRequest {
    type V = DnsLookupRequestView;

    open spec fn view(&self) -> DnsLookupRequestView {
        DnsLookupRequestView { domain: self.domain@ }
    }
}

/// The name under which the lookup tool is advertised and invoked.
pub open spec fn tool_name() -> Seq<char> {
    "dns_lookup"@
}

/// The name of the lookup tool's one field.
pub open spec fn domain_field() -> Seq<char> {
    "domain"@
}

/// The schema that the lookup tool advertises: one required field of text,
/// the domain.
pub open spec fn lookup_schema() -> ToolSchemaView {
    ToolSchemaView {
        name: tool_name(),
        description: "Perform DNS lookup for a domain name"@,
        fields: seq![
            FieldSpecView {
                name: domain_field(),
                kind: FieldType::Text,
                required: true,
                description: "The domain name to lookup"@,
            },
        ],
    }
}

/// The request that `arguments` make of the lookup tool, or why they make
/// none: the domain must be given, as text, and must not be empty.
pub open spec fn request_of(arguments: Seq<ArgumentView>) -> Result<
    DnsLookupRequestView,
    InvalidArgumentsView,
> {
    match value_of(arguments, domain_field()) {
        None => Err(InvalidArgumentsView { field: domain_field(), reason: Fault::Missing }),
        Some(ValueView::Text(domain)) => if domain.len() == 0 {
            Err(InvalidArgumentsView { field: domain_field(), reason: Fault::Empty })
        } else {
            Ok(DnsLookupRequestView { domain })
        },
        Some(_) => Err(InvalidArgumentsView { field: domain_field(), reason: Fault::WrongType }),
    }
}

impl DnsLookupRequest {
    /// The schema of the lookup tool.
    pub fn schema() -> (schema: ToolSchema)
        ensures
            schema@ == lookup_schema(),
    {
        let mut fields: Vec<FieldSpec> = Vec::new();
        fields.push(
            FieldSpec {
                name: String::from_str("domain"),
                kind: FieldType::Text,
                required: true,
                description: String::from_str("The domain name to lookup"),
            },
        );
        let schema = ToolSchema {
            name: String::from_str("dns_lookup"),
            description: String::from_str("Perform DNS lookup for a domain name"),
            fields,
        };
        assert(schema@.fields =~= lookup_schema().fields);
        schema
    }

    /// Reads the request out of the arguments of an invocation.
    pub fn from_arguments(arguments: &Vec<Argument>) -> (r: Result<
        DnsLookupRequest,
        InvalidArguments,
    >)
        ensures
            match r {
                Ok(request) => request_of(arguments_view(arguments@)) == Ok::<
                    DnsLookupRequestView,
                    InvalidArgumentsView,
                >(request@),
                Err(fault) => request_of(arguments_view(arguments@)) == Err::<
                    DnsLookupRequestView,
                    InvalidArgumentsView,
                >(fault@),
            },
    {
        let field = String::from_str("domain");
        match find_value(arguments, &field) {
            None => Err(InvalidArguments { field, reason: Fault::Missing }),
            Some(Value::Text(domain)) => {
                if domain.as_str().is_empty() {
                    Err(InvalidArguments { field, reason: Fault::Empty })
                } else {
                    Ok(DnsLookupRequest { domain: domain.clone() })
                }
            },
            Some(_) => Err(InvalidArguments { field, reason: Fault::WrongType }),
        }
    }
}

/// What the outbound HTTP request came to.
#[derive(Debug, PartialEq, Eq)]
pub enum FetchOutcome {
    /// A response was received and its body read.
    Body(String),
    /// The request failed before a response was received; the text is the cause.
    RequestFailed(String),
    /// A response was received, but its body could not be read; the text is the cause.
    ReadFailed(String),
}

/// The mathematical model of a [`FetchOutcome`].
pub enum FetchOutcomeView {
    Body(Seq<char>),
    RequestFailed(Seq<char>),
    ReadFailed(Seq<char>),
}

impl View for FetchOutcome {
    type V = FetchOutcomeView;

    open spec fn view(&self) -> FetchOutcomeView {
        match self {
            FetchOutcome::Body(text) => FetchOutcomeView::Body(text@),
            FetchOutcome::RequestFailed(cause) => FetchOutcomeView::RequestFailed(cause@),
            FetchOutcome::ReadFailed(cause) => FetchOutcomeView::ReadFailed(cause@),
        }
    }
}

/// The provider's endpoint, up to and including the name of the query parameter.
pub open spec fn endpoint() -> Seq<char> {
    "https://api.hackertarget.com/dnslookup/?q="@
}

/// The address that a lookup of `domain` is fetched from: the endpoint with
/// the domain behind it, as it was given.
pub open spec fn lookup_url_of(domain: Seq<char>) -> Seq<char> {
    endpoint() + domain
}

/// The start of the message of a failure to reach the provider.
pub open spec fn request_failed_prefix() -> Seq<char> {
    "Request failed: "@
}

/// The start of the message of a failure to read the provider's response.
pub open spec fn read_failed_prefix() -> Seq<char> {
    "Failed to read response: "@
}

/// The result that a lookup hands to the client for each outcome of the
/// outbound request. A body is passed on as one block of text, unchanged and
/// unexamined; either failure becomes an internal error whose message names
/// the cause.
pub open spec fn lookup_result_of(outcome: FetchOutcomeView) -> ToolResultView {
    match outcome {
        FetchOutcomeView::Body(text) => ToolResultView::Success {
            content: seq![ContentBlockView::Text(text)],
        },
        FetchOutcomeView::RequestFailed(cause) => ToolResultView::Failure {
            code: INTERNAL_ERROR as int,
            message: request_failed_prefix() + cause,
            data: None,
        },
        FetchOutcomeView::ReadFailed(cause) => ToolResultView::Failure {
            code: INTERNAL_ERROR as int,
            message: read_failed_prefix() + cause,
            data: None,
        },
    }
}

/// Whether the collaborator `fetch` can be called with the address `url`.
pub open spec fn accepts<F: FnOnce(String) -> FetchOutcome>(fetch: F, url: Seq<char>) -> bool {
    forall|address: String| address@ == url ==> call_requires(fetch, (address,))
}

/// Whether `r` is what a lookup for `request` may come to with the
/// collaborator `fetch`: `fetch` was called with the address of the lookup,
/// and `r` is the result for what it returned.
pub open spec fn looked_up<F: FnOnce(String) -> FetchOutcome>(
    request: DnsLookupRequestView,
    fetch: F,
    r: ToolResultView,
) -> bool {
    exists|address: String, outcome: FetchOutcome|
        address@ == lookup_url_of(request.domain) && call_ensures(fetch, (address,), outcome) && r
            == lookup_result_of(outcome@)
}

/// The address to fetch for `request`.
pub fn lookup_url(request: &DnsLookupRequest) -> (url: String)
    ensures
        url@ == lookup_url_of(request.domain@),
{
    let url = String::from_str("https://api.hackertarget.com/dnslookup/?q=");
    url.concat(request.domain.as_str())
}

/// The result of a lookup whose outbound request came to `outcome`.
pub fn lookup_result(outcome: FetchOutcome) -> (r: ToolResult)
    ensures
        r@ == lookup_result_of(outcome@),
{
    match outcome {
        FetchOutcome::Body(text) => ToolResult::text(text),
        FetchOutcome::RequestFailed(cause) => {
            let message = String::from_str("Request failed: ").concat(cause.as_str());
            ToolResult::failure(INTERNAL_ERROR, message)
        },
        FetchOutcome::ReadFailed(cause) => {
            let message = String::from_str("Failed to read response: ").concat(cause.as_str());
            ToolResult::failure(INTERNAL_ERROR, message)
        },
    }
}

/// Looks `request` up. A request whose domain is empty is refused as
/// invalid, and `fetch` is left alone. For any other, the address of the
/// lookup is handed to `fetch`, the collaborator that makes the outbound
/// request, once, and what comes back is turned into the result for the
/// client.
pub fn dns_lookup<F: FnOnce(String) -> FetchOutcome>(request: &DnsLookupRequest, fetch: F) -> (r:
    ToolResult)
    requires
        request.domain@.len() > 0 ==> accepts(fetch, lookup_url_of(request.domain@)),
    ensures
        request.domain@.len() == 0 ==> r@ == error_result(
            ToolErrorView::InvalidArguments(
                InvalidArgumentsView { field: domain_field(), reason: Fault::Empty },
            ),
        ),
        request.domain@.len() > 0 ==> looked_up(request@, fetch, r@),
{
    if request.domain.as_str().is_empty() {
        let refusal = ToolError::InvalidArguments(
            InvalidArguments { field: String::from_str("domain"), reason: Fault::Empty },
        );
        return refusal.to_result();
    }
    let url = lookup_url(request);
    let outcome = fetch(url);
    lookup_result(outcome)
}

} // verus!

//! The service: what it says of itself, and how it answers an invocation.

use vstd::prelude::*;
use vstd::pervasive::unreached;
use crate::error::{ToolError, ToolErrorView};
use crate::lookup::{
    accepts, domain_field, lookup_schema, request_of, tool_name, DnsLookupRequest, FetchOutcome,
};
use crate::outcome::ToolResult;
use crate::router::{
    dispatched, has_tool, invocation_url, lemma_unknown_tool, names_distinct, resolved,
    schemas_of, schemas_view, tool_named, Handler, Invocation, InvocationView, Router, ToolView,
};
use crate::schema::{
    arguments_view, conforms, lemma_valid_iff_conforms, value_of, Argument, ArgumentView,
    FieldType, ToolSchema, ValueView,
};

verus! {

/// The features that a service advertises.
#[derive(Clone, Copy, Debug, PartialEq, Eq, Structural)]
pub struct Capabilities {
    pub tools: bool,
}

/// The name and version of the implementation behind a service.
#[derive(Debug, PartialEq, Eq)]
pub struct Identity {
    pub name: String,
    pub version: String,
}

/// The mathematical model of an [`Identity`].
pub struct IdentityView {
    pub name: Seq<char>,
    pub version: Seq<char>,
}

impl View for Identity {
    type V = IdentityView;

    open spec fn view(&self) -> IdentityView {
        IdentityView { name: self.name@, version: self.version@ }
    }
}

/// What a service says of itself when a client asks.
#[derive(Debug, PartialEq, Eq)]
pub struct ServiceDescriptor {
    pub capabilities: Capabilities,
    pub identity: Identity,
    pub instructions: String,
}

/// The mathematical model of a [`ServiceDescriptor`].
pub struct ServiceDescriptorView {
    pub capabilities: Capabilities,
    pub identity: IdentityView,
    pub instructions: Seq<char>,
}

impl View for ServiceDescriptor {
    type V = ServiceDescriptorView;

    open spec fn view(&self) -> ServiceDescriptorView {
        ServiceDescriptorView {
            capabilities: self.capabilities,
            identity: self.identity@,
            instructions: self.instructions@,
        }
    }
}

impl Clone for ServiceDescriptor {
    fn clone(&self) -> (r: Self)
        ensures
            r@ == self@,
    {
        ServiceDescriptor {
            capabilities: self.capabilities,
            identity: Identity {
                name: self.identity.name.clone(),
                version: self.identity.version.clone(),
            },
            instructions: self.instructions.clone(),
        }
    }
}

/// One invocation as a client sends it: the tool's name and the arguments.
#[derive(Debug, PartialEq, Eq)]
pub struct ToolInvocationRequest {
    pub tool: String,
    pub arguments: Vec<Argument>,
}

/// The mathematical model of a [`ToolInvocationRequest`].
pub struct ToolInvocationRequestView {
    pub tool: Seq<char>,
    pub arguments: Seq<ArgumentView>,
}

impl View for ToolInvocationRequest {
    type V = ToolInvocationRequestView;

    open spec fn view(&self) -> ToolInvocationRequestView {
        ToolInvocationRequestView {
            tool: self.tool@,
            arguments: arguments_view(self.arguments@),
        }
    }
}

/// What the service tells a client of its purpose.
pub open spec fn instructions() -> Seq<char> {
    "A DNS lookup service that queries domain information using the HackerTarget API. Use the dns_lookup tool to perform DNS lookups for any domain name."@
}

/// The tools of the service: the DNS lookup, and no other.
pub open spec fn service_tools() -> Seq<ToolView> {
    seq![ToolView { schema: lookup_schema(), handler: Handler::DnsLookup }]
}

/// The name that the protocol implementation was built under.
pub open spec fn build_name() -> Seq<char> {
    "rmcp"@
}

/// The version that the protocol implementation was built as.
pub open spec fn build_version() -> Seq<char> {
    "3.7.0"@
}

/// The descriptor of a service of this `identity`: it advertises tools and
/// gives the fixed instructions.
pub open spec fn descriptor_with(identity: IdentityView) -> ServiceDescriptorView {
    ServiceDescriptorView {
        capabilities: Capabilities { tools: true },
        identity,
        instructions: instructions(),
    }
}

/// The descriptor of every service that is made without an identity of its
/// own: its identity is that of the protocol implementation.
pub open spec fn service_descriptor() -> ServiceDescriptorView {
    descriptor_with(IdentityView { name: build_name(), version: build_version() })
}

/// Asks `rmcp::model::Implementation::from_build_env` for the identity that
/// the protocol implementation was built with, and hands on its name and its
/// version. That function reads both from the build of `rmcp` itself: the
/// name of that crate and the version that it was published as, which is
/// the one that this crate depends on. The contract claims those two texts.
#[verifier::external_body]
fn build_identity() -> (identity: Identity)
    ensures
        identity@ == (IdentityView { name: build_name(), version: build_version() }),
{
    let built = rmcp::model::Implementation::from_build_env();
    Identity { name: built.name, version: built.version }
}

/// The DNS lookup service. Its tools and its descriptor are fixed when it is
/// made and stay as they are.
#[derive(Debug)]
pub struct DnsService {
    router: Router,
    descriptor: ServiceDescriptor,
}

impl DnsService {
    #[verifier::type_invariant]
    spec fn fixed(&self) -> bool {
        &&& self.router@ == service_tools()
        &&& self.descriptor.capabilities.tools
        &&& self.descriptor.instructions@ == instructions()
    }

    /// The descriptor that this service was made with.
    pub closed spec fn descriptor(&self) -> ServiceDescriptorView {
        self.descriptor@
    }

    /// A service of the given identity, with the DNS lookup tool registered.
    /// It advertises tools and the fixed instructions.
    pub fn with_identity(identity: Identity) -> (service: DnsService)
        ensures
            service.descriptor() == descriptor_with(identity@),
    {
        let mut router = Router::new();
        match router.register(DnsLookupRequest::schema(), Handler::DnsLookup) {
            Ok(_) => {},
            Err(_) => {
                unreached::<()>();
            },
        }
        assert(router@ =~= service_tools());
        let descriptor = ServiceDescriptor {
            capabilities: Capabilities { tools: true },
            identity,
            instructions: String::from_str(
                "A DNS lookup service that queries domain information using the HackerTarget API. Use the dns_lookup tool to perform DNS lookups for any domain name.",
            ),
        };
        DnsService { router, descriptor }
    }

    /// A service with the DNS lookup tool registered, under the identity of
    /// the protocol implementation. Every such service has the same
    /// descriptor.
    pub fn new() -> (service: DnsService)
        ensures
            service.descriptor() == service_descriptor(),
    {
        DnsService::with_identity(build_identity())
    }

    /// What the service says of itself: always the descriptor that it was
    /// made with, which advertises tools and gives the fixed instructions.
    pub fn describe(&self) -> (d: ServiceDescriptor)
        ensures
            d@ == self.descriptor(),
            d@.capabilities.tools,
            d@.instructions == instructions(),
    {
        proof {
            use_type_invariant(self);
        }
        self.descriptor.clone()
    }

    /// The schemas of the tools that the service advertises: that of the DNS
    /// lookup, and no other.
    pub fn list_tools(&self) -> (schemas: Vec<ToolSchema>)
        ensures
            schemas_view(schemas@) == seq![lookup_schema()],
    {
        proof {
            use_type_invariant(self);
        }
        let schemas = self.router.list();
        assert(schemas_view(schemas@) =~= seq![lookup_schema()]);
        schemas
    }

    /// Resolves `request` among the tools of the service, up to the point
    /// where the outbound request is due.
    pub fn begin(&self, request: &ToolInvocationRequest) -> (r: Result<Invocation, ToolError>)
        ensures
            match r {
                Ok(invocation) => resolved(service_tools(), request@.tool, request@.arguments)
                    == Ok::<InvocationView, ToolErrorView>(invocation@),
                Err(error) => resolved(service_tools(), request@.tool, request@.arguments) == Err::<
                    InvocationView,
                    ToolErrorView,
                >(error@),
            },
    {
        proof {
            use_type_invariant(self);
        }
        self.router.resolve(request.tool.as_str(), &request.arguments)
    }

    /// Answers `request`, with `fetch` as the collaborator that makes the
    /// outbound request.
    pub fn invoke<F: FnOnce(String) -> FetchOutcome>(
        &self,
        request: &ToolInvocationRequest,
        fetch: F,
    ) -> (r: Result<ToolResult, ToolError>)
        requires
            resolved(service_tools(), request@.tool, request@.arguments) matches Ok(invocation)
                ==> accepts(fetch, invocation_url(invocation)),
        ensures
            dispatched(service_tools(), request@.tool, request@.arguments, fetch, r),
    {
        proof {
            use_type_invariant(self);
        }
        self.router.dispatch(request.tool.as_str(), &request.arguments, fetch)
    }
}

impl Default for DnsService {
    /// The same service as [`DnsService::new`] makes.
    fn default() -> (service: DnsService)
        ensures
            service.descriptor() == service_descriptor(),
    {
        DnsService::new()
    }
}

impl Clone for DnsService {
    /// A service with the same tools and the same descriptor.
    fn clone(&self) -> (r: Self)
        ensures
            r.descriptor() == self.descriptor(),
    {
        proof {
            use_type_invariant(self);
        }
        DnsService { router: self.router.clone(), descriptor: self.descriptor.clone() }
    }
}

/// Any two services that were made without an identity of their own, by
/// `new` or by `default`, describe themselves alike.
pub proof fn lemma_services_describe_alike(
    one: &DnsService,
    other: &DnsService,
    first: ServiceDescriptor,
    second: ServiceDescriptor,
)
    requires
        one.descriptor() == service_descriptor(),
        other.descriptor() == service_descriptor(),
        first@ == one.descriptor(),
        second@ == other.descriptor(),
    ensures
        first@ == second@,
        first@.identity == (IdentityView { name: build_name(), version: build_version() }),
        first@.capabilities.tools,
        first@.instructions == instructions(),
{
}

/// Asked twice, a service describes itself in the same words: each
/// descriptor is the one that the service was made with.
pub proof fn lemma_describe_is_idempotent(
    service: &DnsService,
    first: ServiceDescriptor,
    second: ServiceDescriptor,
)
    requires
        first@ == service.descriptor(),
        second@ == service.descriptor(),
    ensures
        first@ == second@,
{
}

/// The service advertises exactly one tool, the DNS lookup, whose input is
/// one required field of text, the domain.
pub proof fn lemma_one_tool_advertised()
    ensures
        schemas_of(service_tools()) == seq![lookup_schema()],
        names_distinct(service_tools()),
        lookup_schema().name == tool_name(),
        lookup_schema().fields.len() == 1,
        lookup_schema().fields[0].name == domain_field(),
        lookup_schema().fields[0].kind == FieldType::Text,
        lookup_schema().fields[0].required,
{
    assert(schemas_of(service_tools()) =~= seq![lookup_schema()]);
}

/// The service knows no tool but the DNS lookup: any other name is refused
/// as unknown, whatever the arguments.
pub proof fn lemma_other_tools_are_unknown(name: Seq<char>, arguments: Seq<ArgumentView>)
    requires
        name != tool_name(),
    ensures
        resolved(service_tools(), name, arguments) == Err::<InvocationView, ToolErrorView>(
            ToolErrorView::UnknownTool(name),
        ),
{
    assert(!has_tool(service_tools(), name));
    lemma_unknown_tool(service_tools(), name, arguments);
}

/// The service takes a lookup up exactly where the arguments fit the
/// lookup's schema and give a domain that is not empty, and then with that
/// domain. Every other lookup is refused as invalid.
pub proof fn lemma_lookup_is_taken_up(arguments: Seq<ArgumentView>)
    ensures
        resolved(service_tools(), tool_name(), arguments) is Ok <==> conforms(
            lookup_schema(),
            arguments,
        ) && request_of(arguments) is Ok,
        resolved(service_tools(), tool_name(), arguments) matches Ok(invocation) ==> invocation
            == InvocationView::DnsLookup(request_of(arguments)->Ok_0),
        resolved(service_tools(), tool_name(), arguments) matches Err(error) ==> error
            is InvalidArguments,
{
    let tool = service_tools()[0];
    assert(tool_named(service_tools(), tool_name()) == Some(tool));
    lemma_valid_iff_conforms(lookup_schema(), arguments);
}

/// The service refuses a lookup without a domain, or with an empty one, as
/// invalid.
pub proof fn lemma_lookup_without_domain_is_refused(arguments: Seq<ArgumentView>)
    requires
        value_of(arguments, domain_field()) is None || value_of(arguments, domain_field()) == Some(
            ValueView::Text(Seq::empty()),
        ),
    ensures
        resolved(service_tools(), tool_name(), arguments) matches Err(error) && error
            is InvalidArguments,
{
    lemma_lookup_is_taken_up(arguments);
}

} // verus!

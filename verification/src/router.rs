//! The registry of tools, and the resolution of an invocation by name.

use vstd::prelude::*;
use crate::error::{error_result, ToolError, ToolErrorView};
use crate::lookup::{
    accepts, dns_lookup, domain_field, looked_up, lookup_result, lookup_result_of, lookup_url,
    lookup_url_of, request_of, DnsLookupRequest, DnsLookupRequestView, FetchOutcome,
    FetchOutcomeView,
};
use crate::outcome::{ToolResult, ToolResultView};
use crate::schema::{
    arguments_view, conforms, first_fault, lemma_valid_iff_conforms, value_of, Argument,
    ArgumentView, Fault, InvalidArguments, InvalidArgumentsView, ToolSchema, ToolSchemaView,
    ValueView,
};

verus! {

/// What a registered tool does when it is invoked.
#[derive(Clone, Copy, Debug, PartialEq, Eq, Structural)]
pub enum Handler {
    /// Looks a domain up at the provider.
    DnsLookup,
}

/// A registered tool: its schema and its handler.
#[derive(Debug, PartialEq, Eq)]
pub struct Tool {
    pub schema: ToolSchema,
    pub handler: Handler,
}

/// The mathematical model of a [`Tool`].
pub struct ToolView {
    pub schema: ToolSchemaView,
    pub handler: Handler,
}

impl View for Tool {
    type V = ToolView;

    open spec fn view(&self) -> ToolView {
        ToolView { schema: self.schema@, handler: self.handler }
    }
}

impl Clone for Tool {
    fn clone(&self) -> (r: Self)
        ensures
            r@ == self@,
    {
        Tool { schema: self.schema.clone(), handler: self.handler }
    }
}

/// The models of a sequence of tools, in order.
pub open spec fn tools_view(tools: Seq<Tool>) -> Seq<ToolView> {
    tools.map_values(|tool: Tool| tool@)
}

/// The models of a sequence of schemas, in order.
pub open spec fn schemas_view(schemas: Seq<ToolSchema>) -> Seq<ToolSchemaView> {
    schemas.map_values(|schema: ToolSchema| schema@)
}

/// The schemas of `tools`, in order.
pub open spec fn schemas_of(tools: Seq<ToolView>) -> Seq<ToolSchemaView> {
    tools.map_values(|tool: ToolView| tool.schema)
}

/// Whether one of `tools` is called `name`.
pub open spec fn has_tool(tools: Seq<ToolView>, name: Seq<char>) -> bool {
    exists|i: int| 0 <= i < tools.len() && #[trigger] tools[i].schema.name == name
}

/// Whether no two of `tools` have the same name.
pub open spec fn names_distinct(tools: Seq<ToolView>) -> bool {
    forall|i: int, j: int|
        0 <= i < j < tools.len() ==> #[trigger] tools[i].schema.name
            != #[trigger] tools[j].schema.name
}

/// The tool among `tools` that is called `name`: the first of that name.
pub open spec fn tool_named(tools: Seq<ToolView>, name: Seq<char>) -> Option<ToolView>
    decreases tools.len(),
{
    if tools.len() == 0 {
        None
    } else if tools[0].schema.name == name {
        Some(tools[0])
    } else {
        tool_named(tools.skip(1), name)
    }
}

/// The tools after an attempt to register `tool` among `tools`: a new name
/// goes behind the others, a name that is taken changes nothing.
pub open spec fn register_of(tools: Seq<ToolView>, tool: ToolView) -> Seq<ToolView> {
    if has_tool(tools, tool.schema.name) {
        tools
    } else {
        tools.push(tool)
    }
}

/// The tools of a router that started empty and saw `attempts` to register,
/// in this order.
pub open spec fn registered(attempts: Seq<ToolView>) -> Seq<ToolView>
    decreases attempts.len(),
{
    if attempts.len() == 0 {
        Seq::empty()
    } else {
        register_of(registered(attempts.drop_last()), attempts.last())
    }
}

/// An invocation that was resolved and validated, ready for its handler.
#[derive(Debug, PartialEq, Eq)]
pub enum Invocation {
    DnsLookup(DnsLookupRequest),
}

/// The mathematical model of an [`Invocation`].
pub enum InvocationView {
    DnsLookup(DnsLookupRequestView),
}

impl View for Invocation {
    type V = InvocationView;

    open spec fn view(&self) -> InvocationView {
        match self {
            Invocation::DnsLookup(request) => InvocationView::DnsLookup(request@),
        }
    }
}

/// The address that the handler of `invocation` fetches.
pub open spec fn invocation_url(invocation: InvocationView) -> Seq<char> {
    match invocation {
        InvocationView::DnsLookup(request) => lookup_url_of(request.domain),
    }
}

/// The failure with which the handler of `invocation` refuses it by itself,
/// if it does: a lookup of an empty domain is invalid.
pub open spec fn refusal(invocation: InvocationView) -> Option<ToolResultView> {
    match invocation {
        InvocationView::DnsLookup(request) => if request.domain.len() == 0 {
            Some(
                error_result(
                    ToolErrorView::InvalidArguments(
                        InvalidArgumentsView { field: domain_field(), reason: Fault::Empty },
                    ),
                ),
            )
        } else {
            None
        },
    }
}

/// Whether the handler of `invocation` asks the collaborator at all: it
/// does unless it refuses the invocation by itself.
pub open spec fn fetches(invocation: InvocationView) -> bool {
    refusal(invocation) is None
}

/// The result of `invocation` once its outbound request came to `outcome`.
/// What the handler refuses by itself stays refused, whatever the outcome.
pub open spec fn invocation_result(
    invocation: InvocationView,
    outcome: FetchOutcomeView,
) -> ToolResultView {
    match refusal(invocation) {
        Some(failure) => failure,
        None => match invocation {
            InvocationView::DnsLookup(_) => lookup_result_of(outcome),
        },
    }
}

/// What the handler makes of arguments that fit the tool's schema: the
/// invocation to run, or the fault that the handler itself finds in them.
pub open spec fn prepared(handler: Handler, arguments: Seq<ArgumentView>) -> Result<
    InvocationView,
    ToolErrorView,
> {
    match handler {
        Handler::DnsLookup => match request_of(arguments) {
            Ok(request) => Ok(InvocationView::DnsLookup(request)),
            Err(fault) => Err(ToolErrorView::InvalidArguments(fault)),
        },
    }
}

/// What an invocation of `name` with `arguments` resolves to among `tools`.
/// An unknown name fails as such. Arguments that do not fit the schema of
/// the tool, or that its handler refuses, fail with the first fault. Only
/// what passes both is handed on.
pub open spec fn resolved(
    tools: Seq<ToolView>,
    name: Seq<char>,
    arguments: Seq<ArgumentView>,
) -> Result<InvocationView, ToolErrorView> {
    match tool_named(tools, name) {
        None => Err(ToolErrorView::UnknownTool(name)),
        Some(tool) => match first_fault(tool.schema, arguments) {
            Some(fault) => Err(ToolErrorView::InvalidArguments(fault)),
            None => prepared(tool.handler, arguments),
        },
    }
}

/// Whether `r` is what running `invocation` with the collaborator `fetch`
/// may come to. What the handler refuses by itself is refused. For any
/// other invocation, `fetch` was called with the invocation's address, and
/// `r` is the result for what it returned.
pub open spec fn ran<F: FnOnce(String) -> FetchOutcome>(
    invocation: InvocationView,
    fetch: F,
    r: ToolResultView,
) -> bool {
    match refusal(invocation) {
        Some(failure) => r == failure,
        None => match invocation {
            InvocationView::DnsLookup(request) => looked_up(request, fetch, r),
        },
    }
}

/// Whether `r` is what dispatching `name` with `arguments` among `tools` may
/// come to, with `fetch` as the collaborator: the error where the invocation
/// does not resolve, else the result of running it.
pub open spec fn dispatched<F: FnOnce(String) -> FetchOutcome>(
    tools: Seq<ToolView>,
    name: Seq<char>,
    arguments: Seq<ArgumentView>,
    fetch: F,
    r: Result<ToolResult, ToolError>,
) -> bool {
    match resolved(tools, name, arguments) {
        Err(error) => r matches Err(e) && e@ == error,
        Ok(invocation) => r matches Ok(result) && ran(invocation, fetch, result@),
    }
}

impl Invocation {
    /// Runs the handler, with `fetch` as the collaborator that makes the
    /// outbound request. What the handler refuses by itself never reaches
    /// `fetch`.
    pub fn run<F: FnOnce(String) -> FetchOutcome>(&self, fetch: F) -> (r: ToolResult)
        requires
            fetches(self@) ==> accepts(fetch, invocation_url(self@)),
        ensures
            ran(self@, fetch, r@),
    {
        match self {
            Invocation::DnsLookup(request) => dns_lookup(request, fetch),
        }
    }

    /// The address that the handler fetches.
    pub fn url(&self) -> (url: String)
        ensures
            url@ == invocation_url(self@),
    {
        match self {
            Invocation::DnsLookup(request) => lookup_url(request),
        }
    }

    /// The result of this invocation, given what its outbound request came
    /// to. What the handler refuses by itself stays refused.
    pub fn complete(&self, outcome: FetchOutcome) -> (r: ToolResult)
        ensures
            r@ == invocation_result(self@, outcome@),
    {
        match self {
            Invocation::DnsLookup(request) => {
                if request.domain.as_str().is_empty() {
                    let refused = ToolError::InvalidArguments(
                        InvalidArguments {
                            field: String::from_str("domain"),
                            reason: Fault::Empty,
                        },
                    );
                    refused.to_result()
                } else {
                    lookup_result(outcome)
                }
            },
        }
    }
}

/// The tools of a service, in the order in which they were registered. No
/// two of them have the same name.
#[derive(Debug)]
pub struct Router {
    tools: Vec<Tool>,
}

impl View for Router {
    type V = Seq<ToolView>;

    closed spec fn view(&self) -> Seq<ToolView> {
        tools_view(self.tools@)
    }
}

impl Clone for Router {
    /// A router with the same tools in the same order.
    fn clone(&self) -> (r: Self)
        ensures
            r@ == self@,
    {
        proof {
            use_type_invariant(self);
        }
        let mut tools: Vec<Tool> = Vec::new();
        let mut i: usize = 0;
        while i < self.tools.len()
            invariant
                i <= self.tools.len(),
                tools@.len() == i,
                forall|k: int| 0 <= k < i ==> (#[trigger] tools@[k])@ == self.tools@[k]@,
            decreases self.tools.len() - i,
        {
            tools.push(self.tools[i].clone());
            i = i + 1;
        }
        assert(tools_view(tools@) =~= tools_view(self.tools@));
        Router { tools }
    }
}

impl Router {
    #[verifier::type_invariant]
    spec fn names_are_distinct(&self) -> bool {
        names_distinct(tools_view(self.tools@))
    }

    /// A router without tools.
    pub fn new() -> (router: Router)
        ensures
            router@ == Seq::<ToolView>::empty(),
    {
        let router = Router { tools: Vec::new() };
        assert(router@ =~= Seq::<ToolView>::empty());
        router
    }

    /// Whether a tool called `name` is registered.
    pub fn contains(&self, name: &str) -> (b: bool)
        ensures
            b == has_tool(self@, name@),
    {
        let wanted = String::from_str(name);
        let mut i: usize = 0;
        while i < self.tools.len()
            invariant
                i <= self.tools.len(),
                wanted@ == name@,
                forall|k: int| 0 <= k < i ==> (#[trigger] self@[k]).schema.name != name@,
            decreases self.tools.len() - i,
        {
            if self.tools[i].schema.name == wanted {
                assert(self@[i as int].schema.name == name@);
                return true;
            }
            i = i + 1;
        }
        false
    }

    /// The number of registered tools.
    pub fn len(&self) -> (n: usize)
        ensures
            n == self@.len(),
    {
        self.tools.len()
    }

    /// The tool called `name`, if one is registered.
    pub fn find(&self, name: &str) -> (r: Option<&Tool>)
        ensures
            match r {
                Some(tool) => tool_named(self@, name@) == Some(tool@),
                None => tool_named(self@, name@) is None,
            },
    {
        let wanted = String::from_str(name);
        let ghost all = self@;
        assert(all.skip(0) =~= all);
        let mut i: usize = 0;
        while i < self.tools.len()
            invariant
                i <= self.tools.len(),
                wanted@ == name@,
                all == self@,
                tool_named(all, name@) == tool_named(all.skip(i as int), name@),
            decreases self.tools.len() - i,
        {
            let tool = &self.tools[i];
            assert(all.skip(i as int)[0] == tool@);
            if tool.schema.name == wanted {
                return Some(tool);
            }
            assert(all.skip(i as int).skip(1) =~= all.skip(i as int + 1));
            i = i + 1;
        }
        None
    }

    /// The schemas of the registered tools, in the order of registration. No
    /// name occurs twice among them.
    pub fn list(&self) -> (schemas: Vec<ToolSchema>)
        ensures
            schemas_view(schemas@) == schemas_of(self@),
            names_distinct(self@),
    {
        proof {
            use_type_invariant(self);
        }
        let mut schemas: Vec<ToolSchema> = Vec::new();
        let mut i: usize = 0;
        while i < self.tools.len()
            invariant
                i <= self.tools.len(),
                schemas@.len() == i,
                forall|k: int| 0 <= k < i ==> (#[trigger] schemas@[k])@ == self@[k].schema,
            decreases self.tools.len() - i,
        {
            schemas.push(self.tools[i].schema.clone());
            i = i + 1;
        }
        assert(schemas_view(schemas@) =~= schemas_of(self@));
        schemas
    }

    /// Resolves an invocation: finds the tool called `name`, checks
    /// `arguments` against its schema and lets its handler read them. The
    /// handler's outbound request is not made here.
    pub fn resolve(&self, name: &str, arguments: &Vec<Argument>) -> (r: Result<
        Invocation,
        ToolError,
    >)
        ensures
            match r {
                Ok(invocation) => resolved(self@, name@, arguments_view(arguments@)) == Ok::<
                    InvocationView,
                    ToolErrorView,
                >(invocation@),
                Err(error) => resolved(self@, name@, arguments_view(arguments@)) == Err::<
                    InvocationView,
                    ToolErrorView,
                >(error@),
            },
    {
        let tool = match self.find(name) {
            Some(tool) => tool,
            None => {
                return Err(ToolError::UnknownTool(String::from_str(name)));
            },
        };
        match tool.schema.validate(arguments) {
            Ok(_) => {},
            Err(fault) => {
                return Err(ToolError::InvalidArguments(fault));
            },
        }
        match tool.handler {
            Handler::DnsLookup => match DnsLookupRequest::from_arguments(arguments) {
                Ok(request) => Ok(Invocation::DnsLookup(request)),
                Err(fault) => Err(ToolError::InvalidArguments(fault)),
            },
        }
    }

    /// Resolves an invocation and runs its handler, with `fetch` as the
    /// collaborator that makes the outbound request. An invocation that does
    /// not resolve fails before `fetch` is called.
    pub fn dispatch<F: FnOnce(String) -> FetchOutcome>(
        &self,
        name: &str,
        arguments: &Vec<Argument>,
        fetch: F,
    ) -> (r: Result<ToolResult, ToolError>)
        requires
            resolved(self@, name@, arguments_view(arguments@)) matches Ok(invocation)
                ==> accepts(fetch, invocation_url(invocation)),
        ensures
            dispatched(self@, name@, arguments_view(arguments@), fetch, r),
    {
        match self.resolve(name, arguments) {
            Ok(invocation) => Ok(invocation.run(fetch)),
            Err(error) => Err(error),
        }
    }

    /// Registers a tool behind the ones that are there. A name that is taken
    /// is refused, and the router stays as it was.
    pub fn register(&mut self, schema: ToolSchema, handler: Handler) -> (r: Result<(), ToolError>)
        ensures
            final(self)@ == register_of(old(self)@, ToolView { schema: schema@, handler }),
            names_distinct(final(self)@),
            match r {
                Ok(_) => !has_tool(old(self)@, schema@.name) && final(self)@ == old(self)@.push(
                    ToolView { schema: schema@, handler },
                ),
                Err(error) => has_tool(old(self)@, schema@.name) && final(self)@ == old(self)@
                    && error@ == ToolErrorView::DuplicateToolName(schema@.name),
            },
    {
        proof {
            use_type_invariant(&*self);
        }
        if self.contains(schema.name.as_str()) {
            return Err(ToolError::DuplicateToolName(schema.name));
        }
        let ghost before = self@;
        let mut taken = Router::new();
        core::mem::swap(self, &mut taken);
        let mut tools = taken.tools;
        tools.push(Tool { schema, handler });
        assert(tools_view(tools@) =~= before.push(ToolView { schema: schema@, handler }));
        *self = Router { tools };
        Ok(())
    }
}

/// A name resolves to a tool exactly where a tool of that name is
/// registered, and then to a registered tool of that name.
pub proof fn lemma_tool_named(tools: Seq<ToolView>, name: Seq<char>)
    ensures
        tool_named(tools, name) is Some <==> has_tool(tools, name),
        tool_named(tools, name) matches Some(tool) ==> tool.schema.name == name && tools.contains(
            tool,
        ),
    decreases tools.len(),
{
    if tools.len() > 0 {
        if tools[0].schema.name == name {
            assert(tools.contains(tools[0]));
        } else {
            let rest = tools.skip(1);
            lemma_tool_named(rest, name);
            assert(forall|i: int| 0 <= i < rest.len() ==> rest[i] == tools[i + 1]);
            if has_tool(tools, name) {
                let i = choose|i: int| 0 <= i < tools.len() && #[trigger] tools[i].schema.name == name;
                assert(rest[i - 1].schema.name == name);
            }
            if tool_named(rest, name) is Some {
                let tool = tool_named(rest, name)->Some_0;
                let k = choose|k: int| 0 <= k < rest.len() && rest[k] == tool;
                assert(tools[k + 1] == tool);
            }
        }
    }
}

/// Where the names are distinct, a name resolves to the one tool that has it.
pub proof fn lemma_tool_named_at(tools: Seq<ToolView>, i: int)
    requires
        names_distinct(tools),
        0 <= i < tools.len(),
    ensures
        tool_named(tools, tools[i].schema.name) == Some(tools[i]),
{
    let name = tools[i].schema.name;
    lemma_tool_named(tools, name);
    let tool = tool_named(tools, name)->Some_0;
    let k = choose|k: int| 0 <= k < tools.len() && tools[k] == tool;
    assert(tools[k].schema.name == tools[i].schema.name);
}

/// Registration keeps the names distinct, keeps every tool that was there at
/// its place, and leaves the new name registered.
pub proof fn lemma_register(tools: Seq<ToolView>, tool: ToolView)
    requires
        names_distinct(tools),
    ensures
        names_distinct(register_of(tools, tool)),
        has_tool(register_of(tools, tool), tool.schema.name),
        tools.is_prefix_of(register_of(tools, tool)),
{
    let after = register_of(tools, tool);
    if !has_tool(tools, tool.schema.name) {
        assert(after[tools.len() as int].schema.name == tool.schema.name);
        assert forall|i: int, j: int| 0 <= i < j < after.len() implies #[trigger] after[i].schema.name
            != #[trigger] after[j].schema.name by {
            if j == tools.len() {
                assert(tools[i].schema.name != tool.schema.name);
            } else {
                assert(tools[i].schema.name != tools[j].schema.name);
            }
        }
    }
}

/// Whatever was registered, in whatever order: no name is listed twice, and
/// every name that was offered is listed.
pub proof fn lemma_registered(attempts: Seq<ToolView>)
    ensures
        names_distinct(registered(attempts)),
        forall|i: int|
            0 <= i < attempts.len() ==> has_tool(
                registered(attempts),
                (#[trigger] attempts[i]).schema.name,
            ),
        forall|k: int|
            0 <= k < registered(attempts).len() ==> attempts.contains(
                #[trigger] registered(attempts)[k],
            ),
    decreases attempts.len(),
{
    if attempts.len() > 0 {
        let earlier = attempts.drop_last();
        let before = registered(earlier);
        let after = registered(attempts);
        lemma_registered(earlier);
        lemma_register(before, attempts.last());
        assert forall|i: int| 0 <= i < attempts.len() implies has_tool(
            after,
            (#[trigger] attempts[i]).schema.name,
        ) by {
            if i < earlier.len() {
                assert(earlier[i] == attempts[i]);
                let k = choose|k: int|
                    0 <= k < before.len() && #[trigger] before[k].schema.name
                        == attempts[i].schema.name;
                assert(after[k].schema.name == attempts[i].schema.name);
            }
        }
        assert forall|k: int| 0 <= k < after.len() implies attempts.contains(
            #[trigger] after[k],
        ) by {
            if k < before.len() {
                assert(after[k] == before[k]);
                let i = choose|i: int| 0 <= i < earlier.len() && earlier[i] == before[k];
                assert(attempts[i] == after[k]);
            } else {
                assert(after[k] == attempts.last());
                assert(attempts[attempts.len() - 1] == after[k]);
            }
        }
    }
}

/// Tools that are registered under names of their own are listed as they
/// were registered: all of them, in that order.
pub proof fn lemma_registered_in_order(attempts: Seq<ToolView>)
    requires
        names_distinct(attempts),
    ensures
        registered(attempts) == attempts,
        schemas_of(registered(attempts)) == schemas_of(attempts),
    decreases attempts.len(),
{
    if attempts.len() > 0 {
        let earlier = attempts.drop_last();
        assert(forall|i: int| 0 <= i < earlier.len() ==> earlier[i] == attempts[i]);
        lemma_registered_in_order(earlier);
        if has_tool(earlier, attempts.last().schema.name) {
            let i = choose|i: int|
                0 <= i < earlier.len() && #[trigger] earlier[i].schema.name
                    == attempts.last().schema.name;
            assert(attempts[i].schema.name != attempts[attempts.len() - 1].schema.name);
        }
        assert(registered(attempts) =~= attempts);
    } else {
        assert(registered(attempts) =~= attempts);
    }
}

/// A name that is not registered resolves to nothing but the error that
/// says so, whatever the arguments.
pub proof fn lemma_unknown_tool(tools: Seq<ToolView>, name: Seq<char>, arguments: Seq<ArgumentView>)
    requires
        !has_tool(tools, name),
    ensures
        resolved(tools, name, arguments) == Err::<InvocationView, ToolErrorView>(
            ToolErrorView::UnknownTool(name),
        ),
{
    lemma_tool_named(tools, name);
}

/// A lookup without a domain, or with an empty one, is refused as invalid
/// before any handler runs, under whatever name and schema the lookup is
/// registered.
pub proof fn lemma_lookup_needs_domain(
    tools: Seq<ToolView>,
    name: Seq<char>,
    arguments: Seq<ArgumentView>,
)
    requires
        tool_named(tools, name) matches Some(tool) && tool.handler == Handler::DnsLookup,
        value_of(arguments, domain_field()) is None || value_of(arguments, domain_field()) == Some(
            ValueView::Text(Seq::empty()),
        ),
    ensures
        resolved(tools, name, arguments) matches Err(error) && error is InvalidArguments,
{
}

/// What resolves was registered, fits the schema it was registered with,
/// and carries the domain that the arguments give, which is not empty.
pub proof fn lemma_resolved_is_valid(
    tools: Seq<ToolView>,
    name: Seq<char>,
    arguments: Seq<ArgumentView>,
)
    ensures
        resolved(tools, name, arguments) matches Ok(invocation) ==> {
            &&& tool_named(tools, name) matches Some(tool)
            &&& conforms(tool.schema, arguments)
            &&& invocation matches InvocationView::DnsLookup(request)
            &&& request.domain.len() > 0
            &&& value_of(arguments, domain_field()) == Some(ValueView::Text(request.domain))
            &&& refusal(invocation) is None
        },
{
    if tool_named(tools, name) is Some {
        lemma_valid_iff_conforms(tool_named(tools, name)->Some_0.schema, arguments);
    }
}

} // verus!

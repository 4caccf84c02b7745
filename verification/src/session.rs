//! The decisions of the loop that serves one session: what to do about each
//! thing that happens on the connection, one request at a time.
//!
//! The host reads the connection and makes the outbound requests. It tells
//! the session of each event and carries out the action that comes back.

use vstd::prelude::*;
use crate::error::error_result;
use crate::lookup::{FetchOutcome, FetchOutcomeView};
use crate::outcome::{ToolResult, ToolResultView};
use crate::router::{
    invocation_result, invocation_url, resolved, schemas_of, schemas_view, Invocation,
    InvocationView, ToolView,
};
use crate::schema::{ToolSchema, ToolSchemaView};
use crate::service::{
    service_tools, DnsService, ServiceDescriptor, ServiceDescriptorView, ToolInvocationRequest,
    ToolInvocationRequestView,
};

verus! {

/// What a client asks for.
#[derive(Debug, PartialEq, Eq)]
pub enum Request {
    /// What the service is and can do.
    Discover,
    /// The tools that the service offers.
    ListTools,
    /// One invocation of a tool.
    Invoke(ToolInvocationRequest),
}

/// The mathematical model of a [`Request`].
pub enum RequestView {
    Discover,
    ListTools,
    Invoke(ToolInvocationRequestView),
}

impl View for Request {
    type V = RequestView;

    open spec fn view(&self) -> RequestView {
        match self {
            Request::Discover => RequestView::Discover,
            Request::ListTools => RequestView::ListTools,
            Request::Invoke(request) => RequestView::Invoke(request@),
        }
    }
}

/// One request as it arrives: the number that its response must carry, and
/// what is asked.
#[derive(Debug, PartialEq, Eq)]
pub struct Message {
    pub id: u64,
    pub request: Request,
}

/// The mathematical model of a [`Message`].
pub struct MessageView {
    pub id: u64,
    pub request: RequestView,
}

impl View for Message {
    type V = MessageView;

    open spec fn view(&self) -> MessageView {
        MessageView { id: self.id, request: self.request@ }
    }
}

/// The body of a response.
#[derive(Debug, PartialEq, Eq)]
pub enum Reply {
    Descriptor(ServiceDescriptor),
    Tools(Vec<ToolSchema>),
    Outcome(ToolResult),
}

/// The mathematical model of a [`Reply`].
pub enum ReplyView {
    Descriptor(ServiceDescriptorView),
    Tools(Seq<ToolSchemaView>),
    Outcome(ToolResultView),
}

impl View for Reply {
    type V = ReplyView;

    open spec fn view(&self) -> ReplyView {
        match self {
            Reply::Descriptor(descriptor) => ReplyView::Descriptor(descriptor@),
            Reply::Tools(schemas) => ReplyView::Tools(schemas_view(schemas@)),
            Reply::Outcome(result) => ReplyView::Outcome(result@),
        }
    }
}

/// The response to one request, carrying that request's number.
#[derive(Debug, PartialEq, Eq)]
pub struct Response {
    pub id: u64,
    pub reply: Reply,
}

/// The mathematical model of a [`Response`].
pub struct ResponseView {
    pub id: u64,
    pub reply: ReplyView,
}

impl View for Response {
    type V = ResponseView;

    open spec fn view(&self) -> ResponseView {
        ResponseView { id: self.id, reply: self.reply@ }
    }
}

/// Something that happened, as the host reports it.
#[derive(Debug, PartialEq, Eq)]
pub enum Event {
    /// A request was read from the connection.
    Received(Message),
    /// The outbound request that the session asked for came to an end.
    Fetched(FetchOutcome),
    /// The client closed the connection.
    Closed,
    /// Reading, writing or framing failed; the text is the cause.
    Broken(String),
}

/// The mathematical model of an [`Event`].
pub enum EventView {
    Received(MessageView),
    Fetched(FetchOutcomeView),
    Closed,
    Broken(Seq<char>),
}

impl View for Event {
    type V = EventView;

    open spec fn view(&self) -> EventView {
        match self {
            Event::Received(message) => EventView::Received(message@),
            Event::Fetched(outcome) => EventView::Fetched(outcome@),
            Event::Closed => EventView::Closed,
            Event::Broken(cause) => EventView::Broken(cause@),
        }
    }
}

/// What the host is to do next.
#[derive(Debug, PartialEq, Eq)]
pub enum Action {
    /// Write this response, then read the next request.
    Respond(Response),
    /// Fetch this address and report what it came to.
    Fetch(String),
    /// Stop serving: the session ended as it should.
    Finish,
    /// Stop serving and hand the cause on as the session's error.
    Abort(String),
    /// Nothing: the event was not due in this state and was left aside.
    OutOfTurn,
}

/// The mathematical model of an [`Action`].
pub enum ActionView {
    Respond(ResponseView),
    Fetch(Seq<char>),
    Finish,
    Abort(Seq<char>),
    OutOfTurn,
}

impl View for Action {
    type V = ActionView;

    open spec fn view(&self) -> ActionView {
        match self {
            Action::Respond(response) => ActionView::Respond(response@),
            Action::Fetch(url) => ActionView::Fetch(url@),
            Action::Finish => ActionView::Finish,
            Action::Abort(cause) => ActionView::Abort(cause@),
            Action::OutOfTurn => ActionView::OutOfTurn,
        }
    }
}

/// Where a session stands.
pub enum Phase {
    /// Waiting for the next request.
    Ready,
    /// Waiting for the outbound request of the invocation with this number.
    Awaiting { id: u64, invocation: InvocationView },
    /// Ended by the client.
    Finished,
    /// Ended by a failure of the connection.
    Failed,
}

/// The next phase and the action, for each phase and event. A request is
/// taken up only when none is in flight, and answered with its own number:
/// at once, unless it is an invocation that resolves, which is answered when
/// its outbound request has come to an end. The end of the connection, clean
/// or not, ends the session whatever is in flight, and nothing is answered
/// after it.
pub open spec fn step_of(
    tools: Seq<ToolView>,
    descriptor: ServiceDescriptorView,
    phase: Phase,
    event: EventView,
) -> (Phase, ActionView) {
    match phase {
        Phase::Ready => match event {
            EventView::Received(message) => match message.request {
                RequestView::Discover => (
                    Phase::Ready,
                    ActionView::Respond(
                        ResponseView { id: message.id, reply: ReplyView::Descriptor(descriptor) },
                    ),
                ),
                RequestView::ListTools => (
                    Phase::Ready,
                    ActionView::Respond(
                        ResponseView { id: message.id, reply: ReplyView::Tools(schemas_of(tools)) },
                    ),
                ),
                RequestView::Invoke(request) => match resolved(
                    tools,
                    request.tool,
                    request.arguments,
                ) {
                    Err(error) => (
                        Phase::Ready,
                        ActionView::Respond(
                            ResponseView {
                                id: message.id,
                                reply: ReplyView::Outcome(error_result(error)),
                            },
                        ),
                    ),
                    Ok(invocation) => (
                        Phase::Awaiting { id: message.id, invocation },
                        ActionView::Fetch(invocation_url(invocation)),
                    ),
                },
            },
            EventView::Fetched(_) => (Phase::Ready, ActionView::OutOfTurn),
            EventView::Closed => (Phase::Finished, ActionView::Finish),
            EventView::Broken(cause) => (Phase::Failed, ActionView::Abort(cause)),
        },
        Phase::Awaiting { id, invocation } => match event {
            EventView::Received(_) => (phase, ActionView::OutOfTurn),
            EventView::Fetched(outcome) => (
                Phase::Ready,
                ActionView::Respond(
                    ResponseView {
                        id,
                        reply: ReplyView::Outcome(invocation_result(invocation, outcome)),
                    },
                ),
            ),
            EventView::Closed => (Phase::Finished, ActionView::Finish),
            EventView::Broken(cause) => (Phase::Failed, ActionView::Abort(cause)),
        },
        Phase::Finished => (Phase::Finished, ActionView::OutOfTurn),
        Phase::Failed => (Phase::Failed, ActionView::OutOfTurn),
    }
}

enum State {
    Ready,
    Awaiting { id: u64, invocation: Invocation },
    Finished,
    Failed,
}

/// The state of one session, bound to the service that it serves for as
/// long as it lasts.
pub struct Session<'a> {
    service: &'a DnsService,
    state: State,
}

impl<'a> View for Session<'a> {
    type V = Phase;

    closed spec fn view(&self) -> Phase {
        match self.state {
            State::Ready => Phase::Ready,
            State::Awaiting { id, invocation } => Phase::Awaiting { id, invocation: invocation@ },
            State::Finished => Phase::Finished,
            State::Failed => Phase::Failed,
        }
    }
}

impl<'a> Session<'a> {
    /// The descriptor of the service that this session serves.
    pub closed spec fn descriptor(&self) -> ServiceDescriptorView {
        self.service.descriptor()
    }

    /// A session for `service` that waits for its first request.
    pub fn new(service: &'a DnsService) -> (session: Session<'a>)
        ensures
            session@ == Phase::Ready,
            session.descriptor() == service.descriptor(),
    {
        Session { service, state: State::Ready }
    }

    /// Whether the session still serves.
    pub fn is_open(&self) -> (b: bool)
        ensures
            b == (self@ is Ready || self@ is Awaiting),
    {
        match self.state {
            State::Ready => true,
            State::Awaiting { .. } => true,
            State::Finished => false,
            State::Failed => false,
        }
    }

    /// The number of the request whose outbound request is awaited, if any.
    pub fn in_flight(&self) -> (id: Option<u64>)
        ensures
            match id {
                Some(n) => self@ is Awaiting && self@->id == n,
                None => !(self@ is Awaiting),
            },
    {
        match self.state {
            State::Awaiting { id, .. } => Some(id),
            _ => None,
        }
    }

    /// Takes `event` up and says what the host is to do. The session stays
    /// with its service.
    pub fn step(&mut self, event: Event) -> (action: Action)
        ensures
            (final(self)@, action@) == step_of(
                service_tools(),
                old(self).descriptor(),
                old(self)@,
                event@,
            ),
            final(self).descriptor() == old(self).descriptor(),
    {
        let service = self.service;
        let mut state = State::Finished;
        core::mem::swap(&mut self.state, &mut state);
        match state {
            State::Ready => match event {
                Event::Received(message) => {
                    let id = message.id;
                    match message.request {
                        Request::Discover => {
                            self.state = State::Ready;
                            Action::Respond(
                                Response { id, reply: Reply::Descriptor(service.describe()) },
                            )
                        },
                        Request::ListTools => {
                            self.state = State::Ready;
                            let schemas = service.list_tools();
                            assert(schemas_view(schemas@) =~= schemas_of(service_tools()));
                            Action::Respond(Response { id, reply: Reply::Tools(schemas) })
                        },
                        Request::Invoke(request) => match service.begin(&request) {
                            Err(error) => {
                                self.state = State::Ready;
                                Action::Respond(
                                    Response { id, reply: Reply::Outcome(error.to_result()) },
                                )
                            },
                            Ok(invocation) => {
                                let url = invocation.url();
                                self.state = State::Awaiting { id, invocation };
                                Action::Fetch(url)
                            },
                        },
                    }
                },
                Event::Fetched(_) => {
                    self.state = State::Ready;
                    Action::OutOfTurn
                },
                Event::Closed => {
                    self.state = State::Finished;
                    Action::Finish
                },
                Event::Broken(cause) => {
                    self.state = State::Failed;
                    Action::Abort(cause)
                },
            },
            State::Awaiting { id, invocation } => match event {
                Event::Received(_) => {
                    self.state = State::Awaiting { id, invocation };
                    Action::OutOfTurn
                },
                Event::Fetched(outcome) => {
                    self.state = State::Ready;
                    Action::Respond(
                        Response { id, reply: Reply::Outcome(invocation.complete(outcome)) },
                    )
                },
                Event::Closed => {
                    self.state = State::Finished;
                    Action::Finish
                },
                Event::Broken(cause) => {
                    self.state = State::Failed;
                    Action::Abort(cause)
                },
            },
            State::Finished => {
                self.state = State::Finished;
                Action::OutOfTurn
            },
            State::Failed => {
                self.state = State::Failed;
                Action::OutOfTurn
            },
        }
    }
}

/// The phase of a session that started ready and saw `events`, in this order.
pub open spec fn phase_after(
    tools: Seq<ToolView>,
    descriptor: ServiceDescriptorView,
    events: Seq<EventView>,
) -> Phase
    decreases events.len(),
{
    if events.len() == 0 {
        Phase::Ready
    } else {
        step_of(
            tools,
            descriptor,
            phase_after(tools, descriptor, events.drop_last()),
            events.last(),
        ).0
    }
}

/// The action with which such a session met the last of `events`.
pub open spec fn last_action(
    tools: Seq<ToolView>,
    descriptor: ServiceDescriptorView,
    events: Seq<EventView>,
) -> ActionView
    recommends
        events.len() > 0,
{
    step_of(
        tools,
        descriptor,
        phase_after(tools, descriptor, events.drop_last()),
        events.last(),
    ).1
}

/// The numbers of the requests that such a session took up, in the order
/// in which they arrived.
pub open spec fn taken_up(
    tools: Seq<ToolView>,
    descriptor: ServiceDescriptorView,
    events: Seq<EventView>,
) -> Seq<u64>
    decreases events.len(),
{
    if events.len() == 0 {
        Seq::empty()
    } else {
        let before = taken_up(tools, descriptor, events.drop_last());
        match events.last() {
            EventView::Received(message) => if last_action(tools, descriptor, events)
                is OutOfTurn {
                before
            } else {
                before.push(message.id)
            },
            _ => before,
        }
    }
}

/// The numbers of the responses that such a session had written, in the
/// order in which it wrote them.
pub open spec fn answered(
    tools: Seq<ToolView>,
    descriptor: ServiceDescriptorView,
    events: Seq<EventView>,
) -> Seq<u64>
    decreases events.len(),
{
    if events.len() == 0 {
        Seq::empty()
    } else {
        let before = answered(tools, descriptor, events.drop_last());
        match last_action(tools, descriptor, events) {
            ActionView::Respond(response) => before.push(response.id),
            _ => before,
        }
    }
}

/// Whatever happens on a session, in whatever order: the responses carry
/// the numbers of the requests that were taken up, each once and in the
/// order of arrival. While the session waits for the next request, every
/// request has its response; while an outbound request is awaited, the
/// request in flight is the one without; a session that ended left at most
/// the request that was in flight unanswered.
pub proof fn lemma_one_response_per_request(
    tools: Seq<ToolView>,
    descriptor: ServiceDescriptorView,
    events: Seq<EventView>,
)
    ensures
        answered(tools, descriptor, events).is_prefix_of(taken_up(tools, descriptor, events)),
        match phase_after(tools, descriptor, events) {
            Phase::Ready => answered(tools, descriptor, events) == taken_up(
                tools,
                descriptor,
                events,
            ),
            Phase::Awaiting { id, .. } => taken_up(tools, descriptor, events) == answered(
                tools,
                descriptor,
                events,
            ).push(id),
            _ => taken_up(tools, descriptor, events).len() <= answered(
                tools,
                descriptor,
                events,
            ).len() + 1,
        },
    decreases events.len(),
{
    if events.len() > 0 {
        lemma_one_response_per_request(tools, descriptor, events.drop_last());
    }
}

/// A session that ended stays as it ended: it meets every further event
/// with no action at all.
pub proof fn lemma_ended_session_is_silent(
    tools: Seq<ToolView>,
    descriptor: ServiceDescriptorView,
    phase: Phase,
    event: EventView,
)
    requires
        phase is Finished || phase is Failed,
    ensures
        step_of(tools, descriptor, phase, event) == (phase, ActionView::OutOfTurn),
{
}

/// The end of the connection ends the session whatever it was doing: a
/// close ends it cleanly, a failure hands its cause on, and in neither case
/// is anything written for a request in flight.
pub proof fn lemma_connection_end_ends_session(
    tools: Seq<ToolView>,
    descriptor: ServiceDescriptorView,
    phase: Phase,
    cause: Seq<char>,
)
    requires
        phase is Ready || phase is Awaiting,
    ensures
        step_of(tools, descriptor, phase, EventView::Closed) == (
            Phase::Finished,
            ActionView::Finish,
        ),
        step_of(tools, descriptor, phase, EventView::Broken(cause)) == (
            Phase::Failed,
            ActionView::Abort(cause),
        ),
{
}

/// Asking a waiting session what the service is changes nothing and gives
/// the same descriptor each time, under the number of the request.
pub proof fn lemma_discovery_is_idempotent(
    tools: Seq<ToolView>,
    descriptor: ServiceDescriptorView,
    first: u64,
    second: u64,
)
    ensures
        ({
            let ask = |id: u64|
                EventView::Received(MessageView { id, request: RequestView::Discover });
            let (phase, action) = step_of(tools, descriptor, Phase::Ready, ask(first));
            let (again, repeated) = step_of(tools, descriptor, phase, ask(second));
            &&& phase == Phase::Ready
            &&& again == Phase::Ready
            &&& action == ActionView::Respond(
                ResponseView { id: first, reply: ReplyView::Descriptor(descriptor) },
            )
            &&& repeated == ActionView::Respond(
                ResponseView { id: second, reply: ReplyView::Descriptor(descriptor) },
            )
        }),
{
}

} // verus!

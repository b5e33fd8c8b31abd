use vstd::prelude::*;

use crate::ids::{AgentId, AgentIdView};
use crate::timing::{LongTermTiming, ShortTermTiming};

verus! {

/// Properties of an incoming request.
pub struct RequestProperties {
    pub method: String,
    /// The agent that sent the request.
    pub agent_id: AgentId,
    /// The requester's correlation token, echoed by the response.
    pub correlation_data: String,
    /// Where the requester expects the response.
    pub response_topic: String,
    pub tracking_id: String,
    pub long_term_timing: LongTermTiming,
}

pub ghost struct RequestPropertiesView {
    pub method: Seq<char>,
    pub agent_id: AgentIdView,
    pub correlation_data: Seq<char>,
    pub response_topic: Seq<char>,
    pub tracking_id: Seq<char>,
    pub long_term_timing: LongTermTiming,
}

impl View for RequestProperties {
    type V = RequestPropertiesView;

    open spec fn view(&self) -> RequestPropertiesView {
        RequestPropertiesView {
            method: self.method@,
            agent_id: self.agent_id@,
            correlation_data: self.correlation_data@,
            response_topic: self.response_topic@,
            tracking_id: self.tracking_id@,
            long_term_timing: self.long_term_timing,
        }
    }
}

impl RequestProperties {
    pub fn duplicate(&self) -> (r: RequestProperties)
        ensures
            r@ == self@,
    {
        RequestProperties {
            method: self.method.clone(),
            agent_id: self.agent_id.duplicate(),
            correlation_data: self.correlation_data.clone(),
            response_topic: self.response_topic.clone(),
            tracking_id: self.tracking_id.clone(),
            long_term_timing: self.long_term_timing,
        }
    }
}

/// Properties of an incoming response.
pub struct ResponseProperties {
    pub status: u16,
    /// The agent that sent the response.
    pub agent_id: AgentId,
    /// The token of the request that this response answers.
    pub correlation_data: String,
    pub tracking_id: String,
    pub long_term_timing: LongTermTiming,
}

/// Properties of an incoming event.
pub struct EventProperties {
    pub label: Option<String>,
    /// The agent that sent the event.
    pub agent_id: AgentId,
    pub tracking_id: String,
    pub long_term_timing: LongTermTiming,
}

pub struct IncomingRequest {
    pub properties: RequestProperties,
    /// The payload as JSON text.
    pub payload: String,
}

pub struct IncomingResponse {
    pub properties: ResponseProperties,
    /// The payload as JSON text.
    pub payload: String,
}

pub struct IncomingEvent {
    pub properties: EventProperties,
    /// The payload as JSON text.
    pub payload: String,
}

/// An envelope received from the broker.
pub enum IncomingMessage {
    Request(IncomingRequest),
    Response(IncomingResponse),
    Event(IncomingEvent),
}

/// The body of an error response (problem details).
pub struct Problem {
    pub kind: String,
    pub title: String,
    pub detail: String,
}

pub ghost struct ProblemView {
    pub kind: Seq<char>,
    pub title: Seq<char>,
    pub detail: Seq<char>,
}

impl View for Problem {
    type V = ProblemView;

    open spec fn view(&self) -> ProblemView {
        ProblemView { kind: self.kind@, title: self.title@, detail: self.detail@ }
    }
}

pub enum ResponseBody {
    /// JSON text.
    Data(String),
    Problem(Problem),
}

pub ghost enum ResponseBodyView {
    Data(Seq<char>),
    Problem(ProblemView),
}

impl View for ResponseBody {
    type V = ResponseBodyView;

    open spec fn view(&self) -> ResponseBodyView {
        match self {
            ResponseBody::Data(d) => ResponseBodyView::Data(d@),
            ResponseBody::Problem(p) => ResponseBodyView::Problem(p@),
        }
    }
}

/// A request to publish, addressed to one agent.
pub struct OutgoingRequest {
    pub topic: String,
    pub method: String,
    /// JSON text.
    pub payload: String,
    pub correlation_data: String,
    pub response_topic: String,
    pub tracking_id: String,
    pub long_term_timing: LongTermTiming,
    pub short_term_timing: ShortTermTiming,
}

/// A response to publish, addressed to one agent.
pub struct OutgoingResponse {
    pub topic: String,
    pub status: u16,
    pub body: ResponseBody,
    pub correlation_data: String,
    pub tracking_id: String,
    pub long_term_timing: LongTermTiming,
    pub short_term_timing: ShortTermTiming,
}

/// An event to publish to everyone who subscribed to its topic.
pub struct OutgoingEvent {
    pub topic: String,
    pub label: String,
    /// JSON text.
    pub payload: String,
    pub tracking_id: String,
    pub long_term_timing: LongTermTiming,
    pub short_term_timing: ShortTermTiming,
}

/// One envelope to publish.
pub enum OutgoingMessage {
    Request(OutgoingRequest),
    Response(OutgoingResponse),
    Event(OutgoingEvent),
}

pub ghost struct OutgoingRequestView {
    pub topic: Seq<char>,
    pub method: Seq<char>,
    pub payload: Seq<char>,
    pub correlation_data: Seq<char>,
    pub response_topic: Seq<char>,
    pub tracking_id: Seq<char>,
    pub long_term_timing: LongTermTiming,
    pub short_term_timing: ShortTermTiming,
}

pub ghost struct OutgoingResponseView {
    pub topic: Seq<char>,
    pub status: u16,
    pub body: ResponseBodyView,
    pub correlation_data: Seq<char>,
    pub tracking_id: Seq<char>,
    pub long_term_timing: LongTermTiming,
    pub short_term_timing: ShortTermTiming,
}

pub ghost struct OutgoingEventView {
    pub topic: Seq<char>,
    pub label: Seq<char>,
    pub payload: Seq<char>,
    pub tracking_id: Seq<char>,
    pub long_term_timing: LongTermTiming,
    pub short_term_timing: ShortTermTiming,
}

pub ghost enum OutgoingMessageView {
    Request(OutgoingRequestView),
    Response(OutgoingResponseView),
    Event(OutgoingEventView),
}

impl View for OutgoingRequest {
    type V = OutgoingRequestView;

    open spec fn view(&self) -> OutgoingRequestView {
        OutgoingRequestView {
            topic: self.topic@,
            method: self.method@,
            payload: self.payload@,
            correlation_data: self.correlation_data@,
            response_topic: self.response_topic@,
            tracking_id: self.tracking_id@,
            long_term_timing: self.long_term_timing,
            short_term_timing: self.short_term_timing,
        }
    }
}

impl View for OutgoingResponse {
    type V = OutgoingResponseView;

    open spec fn view(&self) -> OutgoingResponseView {
        OutgoingResponseView {
            topic: self.topic@,
            status: self.status,
            body: self.body@,
            correlation_data: self.correlation_data@,
            tracking_id: self.tracking_id@,
            long_term_timing: self.long_term_timing,
            short_term_timing: self.short_term_timing,
        }
    }
}

impl View for OutgoingEvent {
    type V = OutgoingEventView;

    open spec fn view(&self) -> OutgoingEventView {
        OutgoingEventView {
            topic: self.topic@,
            label: self.label@,
            payload: self.payload@,
            tracking_id: self.tracking_id@,
            long_term_timing: self.long_term_timing,
            short_term_timing: self.short_term_timing,
        }
    }
}

impl View for OutgoingMessage {
    type V = OutgoingMessageView;

    open spec fn view(&self) -> OutgoingMessageView {
        match self {
            OutgoingMessage::Request(m) => OutgoingMessageView::Request(m@),
            OutgoingMessage::Response(m) => OutgoingMessageView::Response(m@),
            OutgoingMessage::Event(m) => OutgoingMessageView::Event(m@),
        }
    }
}

/// The views of a sequence of outgoing messages.
pub open spec fn messages_view(s: Seq<OutgoingMessage>) -> Seq<OutgoingMessageView> {
    s.map_values(|m: OutgoingMessage| m@)
}

} // verus!

//! The dispatcher: routes each incoming envelope to its handler and turns
//! what the handler decided into the envelopes to publish. No handler error
//! escapes: a request always gets a response, and a response or an event
//! that cannot be handled is dropped and reported.
use vstd::prelude::*;

use crate::context::{response_view, Context};
use crate::endpoint::{
    broadcast_counters, broadcast_outcome, callback_outcome, outcome_view, unicast_outcome,
    BroadcastHandler, BroadcastRequest, CallbackHandler, UnicastHandler, UnicastRequest,
};
use crate::envelope::{
    messages_view, IncomingEvent, IncomingMessage, IncomingRequest, IncomingResponse,
    OutgoingMessage, OutgoingMessageView, ProblemView, Problem, RequestProperties,
    RequestPropertiesView, ResponseBody, ResponseBodyView, ResponseProperties,
};
use crate::error::{AppError, ErrorKind, BAD_REQUEST, METHOD_NOT_ALLOWED};
use crate::presence::Directory;
use crate::text::{owned, same_text};
use crate::token::{decode, token_props};

verus! {

/// The request handlers, by method.
#[derive(Clone, Copy, Debug, PartialEq, Eq, Structural)]
pub enum RequestRoute {
    /// `message.unicast`
    Unicast,
    /// `message.broadcast`
    Broadcast,
}

/// The response handlers, by the method of the request that was answered.
#[derive(Clone, Copy, Debug, PartialEq, Eq, Structural)]
pub enum ResponseRoute {
    /// Replies to a `message.unicast` that was sent on to its target.
    Callback,
}

pub open spec fn request_route(method: Seq<char>) -> Option<RequestRoute> {
    if method == "message.unicast"@ {
        Some(RequestRoute::Unicast)
    } else if method == "message.broadcast"@ {
        Some(RequestRoute::Broadcast)
    } else {
        None
    }
}

pub open spec fn response_route(method: Seq<char>) -> Option<ResponseRoute> {
    if method == "message.unicast"@ {
        Some(ResponseRoute::Callback)
    } else {
        None
    }
}

/// The handler registered for a request method; the match is exact.
pub fn route_request(method: &str) -> (r: Option<RequestRoute>)
    ensures
        r == request_route(method@),
{
    if same_text(method, "message.unicast") {
        Some(RequestRoute::Unicast)
    } else if same_text(method, "message.broadcast") {
        Some(RequestRoute::Broadcast)
    } else {
        None
    }
}

/// The handler registered for responses to requests of `method`; the match is exact.
pub fn route_response(method: &str) -> (r: Option<ResponseRoute>)
    ensures
        r == response_route(method@),
{
    if same_text(method, "message.unicast") {
        Some(ResponseRoute::Callback)
    } else {
        None
    }
}

/// Whether `s` is the text of one JSON value.
pub uninterp spec fn json_text_valid(s: Seq<char>) -> bool;

/// Relies on `serde_json::from_str::<serde_json::Value>`: whether it reads the
/// text as one JSON value depends on the text alone.
#[verifier::external_body]
fn is_json(s: &str) -> (r: bool)
    ensures
        r == json_text_valid(s@),
{
    serde_json::from_str::<serde_json::Value>(s).is_ok()
}

/// What one dispatch produced: the envelopes to publish in order, the error
/// to report (if any), and the stats counters to increment.
pub struct Dispatch {
    pub messages: Vec<OutgoingMessage>,
    pub reported: Option<AppError>,
    pub counters: Vec<String>,
}

pub ghost struct DispatchView {
    pub messages: Seq<OutgoingMessageView>,
    pub reported: Option<ErrorKind>,
    pub counters: Seq<Seq<char>>,
}

impl View for Dispatch {
    type V = DispatchView;

    open spec fn view(&self) -> DispatchView {
        DispatchView {
            messages: messages_view(self.messages@),
            reported: match self.reported {
                Some(e) => Some(e.kind),
                None => None,
            },
            counters: self.counters@.map_values(|c: String| c@),
        }
    }
}

/// Nothing to publish, nothing to report.
pub open spec fn nothing() -> DispatchView {
    DispatchView { messages: seq![], reported: None, counters: seq![] }
}

/// Nothing to publish; `k` to report.
pub open spec fn dropped(k: ErrorKind) -> DispatchView {
    DispatchView { messages: seq![], reported: Some(k), counters: seq![] }
}

/// An error response to the request with properties `reqp`.
pub open spec fn error_response_view(
    ctx: Context,
    reqp: RequestPropertiesView,
    status: u16,
    kind: Seq<char>,
    title: Seq<char>,
    detail: Seq<char>,
) -> OutgoingMessageView {
    OutgoingMessageView::Response(
        response_view(
            ctx,
            reqp,
            status,
            ResponseBodyView::Problem(ProblemView { kind, title, detail }),
        ),
    )
}

/// What a request's dispatch produces once its handler has decided.
pub open spec fn answer(
    ctx: Context,
    reqp: RequestPropertiesView,
    outcome: Result<Seq<OutgoingMessageView>, ErrorKind>,
    counters: Seq<Seq<char>>,
) -> DispatchView {
    match outcome {
        Ok(ms) => DispatchView { messages: ms, reported: None, counters },
        Err(k) => DispatchView {
            messages: seq![
                error_response_view(
                    ctx,
                    reqp,
                    k.status_spec(),
                    k.kind_spec(),
                    k.title_spec(),
                    k.detail_spec(),
                ),
            ],
            reported: Some(k),
            counters: seq![],
        },
    }
}

/// The text of every part of the response to a request of an unknown method.
pub open spec fn unknown_method_text() -> Seq<char> {
    "Unknown method"@
}

/// The dispatch of a request whose method has no handler.
pub open spec fn unknown_method(ctx: Context, reqp: RequestPropertiesView) -> DispatchView {
    DispatchView {
        messages: seq![
            error_response_view(
                ctx,
                reqp,
                METHOD_NOT_ALLOWED,
                unknown_method_text(),
                unknown_method_text(),
                unknown_method_text(),
            ),
        ],
        reported: None,
        counters: seq![],
    }
}

/// The dispatch of a request whose payload could not be read: a 400
/// response whose kind is the method, with the handler's title.
pub open spec fn bad_payload(
    ctx: Context,
    reqp: RequestPropertiesView,
    title: Seq<char>,
    error: Seq<char>,
) -> DispatchView {
    DispatchView {
        messages: seq![error_response_view(ctx, reqp, BAD_REQUEST, reqp.method, title, error)],
        reported: None,
        counters: seq![],
    }
}

pub open spec fn unicast_dispatch(
    ctx: Context,
    dir: Directory,
    reqp: RequestPropertiesView,
    parsed: Result<UnicastRequest, String>,
) -> DispatchView {
    match parsed {
        Err(e) => bad_payload(ctx, reqp, "Failed to send unicast message"@, e@),
        Ok(p) => answer(ctx, reqp, unicast_outcome(ctx, dir, p, reqp), seq![]),
    }
}

pub open spec fn broadcast_dispatch(
    ctx: Context,
    dir: Directory,
    reqp: RequestPropertiesView,
    parsed: Result<BroadcastRequest, String>,
) -> DispatchView {
    match parsed {
        Err(e) => bad_payload(ctx, reqp, "Failed to send broadcast message"@, e@),
        Ok(p) => answer(ctx, reqp, broadcast_outcome(ctx, dir, p, reqp), broadcast_counters(ctx, p)),
    }
}

/// The dispatch of a response routed to the callback, where `payload_is_json`
/// tells whether its payload is one JSON value.
pub open spec fn callback_dispatch(
    ctx: Context,
    payload: Seq<char>,
    respp: ResponseProperties,
    payload_is_json: bool,
) -> DispatchView {
    if !payload_is_json {
        dropped(ErrorKind::PayloadParsingFailed)
    } else {
        match callback_outcome(ctx, payload, respp) {
            Ok(ms) => DispatchView { messages: ms, reported: None, counters: seq![] },
            Err(k) => dropped(k),
        }
    }
}

/// The dispatch of a response: its correlation token names the request it
/// answers, whose method selects the handler.
pub open spec fn response_dispatch(
    ctx: Context,
    payload: Seq<char>,
    respp: ResponseProperties,
) -> DispatchView {
    match token_props(respp.correlation_data@) {
        None => dropped(ErrorKind::MessageParsingFailed),
        Some(reqp) => match response_route(reqp.method) {
            None => nothing(),
            Some(ResponseRoute::Callback) => callback_dispatch(
                ctx,
                payload,
                respp,
                json_text_valid(payload),
            ),
        },
    }
}

/// An error response to the request with properties `reqp`.
pub fn error_response(
    ctx: &Context,
    reqp: &RequestProperties,
    status: u16,
    kind: &str,
    title: &str,
    detail: &str,
) -> (r: OutgoingMessage)
    ensures
        r@ == error_response_view(*ctx, reqp@, status, kind@, title@, detail@),
{
    let problem = Problem { kind: owned(kind), title: owned(title), detail: owned(detail) };
    OutgoingMessage::Response(ctx.respond(reqp, status, ResponseBody::Problem(problem)))
}

fn finish_request(
    ctx: &Context,
    reqp: &RequestProperties,
    result: Result<Vec<OutgoingMessage>, AppError>,
    counters: Vec<String>,
) -> (r: Dispatch)
    ensures
        r@ == answer(*ctx, reqp@, outcome_view(result), counters@.map_values(|c: String| c@)),
{
    match result {
        Ok(messages) => Dispatch { messages, reported: None, counters },
        Err(e) => {
            let resp = error_response(ctx, reqp, e.status(), e.kind(), e.title(), e.detail());
            let messages = vec![resp];
            let none: Vec<String> = Vec::new();
            let r = Dispatch { messages, reported: Some(e), counters: none };
            assert(r@.messages =~= answer(*ctx, reqp@, outcome_view(result), seq![]).messages);
            assert(r@.counters =~= seq![]);
            r
        },
    }
}

fn rejected_payload(ctx: &Context, reqp: &RequestProperties, title: &str, error: &String) -> (r:
    Dispatch)
    ensures
        r@ == bad_payload(*ctx, reqp@, title@, error@),
{
    let resp = error_response(ctx, reqp, BAD_REQUEST, reqp.method.as_str(), title, error.as_str());
    let r = Dispatch { messages: vec![resp], reported: None, counters: Vec::new() };
    assert(r@.messages =~= bad_payload(*ctx, reqp@, title@, error@).messages);
    assert(r@.counters =~= seq![]);
    r
}

/// Dispatches a `message.unicast` request whose payload was read as `parsed`.
pub fn handle_unicast_envelope(
    ctx: &Context,
    dir: &Directory,
    reqp: &RequestProperties,
    parsed: Result<UnicastRequest, String>,
) -> (r: Dispatch)
    requires
        dir.wf(),
    ensures
        r@ == unicast_dispatch(*ctx, *dir, reqp@, parsed),
{
    match parsed {
        Err(e) => rejected_payload(ctx, reqp, UnicastHandler::error_title(), &e),
        Ok(payload) => {
            let result = UnicastHandler::handle(ctx, dir, &payload, reqp);
            let counters: Vec<String> = Vec::new();
            assert(counters@.map_values(|c: String| c@) =~= seq![]);
            finish_request(ctx, reqp, result, counters)
        },
    }
}

/// Dispatches a `message.broadcast` request whose payload was read as `parsed`.
pub fn handle_broadcast_envelope(
    ctx: &Context,
    dir: &Directory,
    reqp: &RequestProperties,
    parsed: Result<BroadcastRequest, String>,
) -> (r: Dispatch)
    requires
        dir.wf(),
    ensures
        r@ == broadcast_dispatch(*ctx, *dir, reqp@, parsed),
{
    match parsed {
        Err(e) => rejected_payload(ctx, reqp, BroadcastHandler::error_title(), &e),
        Ok(payload) => {
            let mut counters: Vec<String> = Vec::new();
            let result = BroadcastHandler::handle(ctx, dir, &payload, reqp, &mut counters);
            assert(Seq::<String>::empty().map_values(|c: String| c@) =~= seq![]);
            finish_request(ctx, reqp, result, counters)
        },
    }
}

/// Dispatches a request: the method selects the handler, whose payload
/// reader turns the payload text into its payload.
///
/// A method with no handler gets a 405 response; a payload that cannot be
/// read gets a 400 response whose kind is the method and whose title is the
/// handler's.
pub fn dispatch_request<FU, FB>(
    ctx: &Context,
    dir: &Directory,
    req: &IncomingRequest,
    read_unicast: FU,
    read_broadcast: FB,
) -> (r: Dispatch) where FU: Fn(&String) -> Result<UnicastRequest, String>, FB: Fn(&String) -> Result<BroadcastRequest, String>
    requires
        dir.wf(),
        read_unicast.requires((&req.payload,)),
        read_broadcast.requires((&req.payload,)),
    ensures
        request_route(req.properties.method@) is None ==> r@ == unknown_method(
            *ctx,
            req.properties@,
        ),
        request_route(req.properties.method@) == Some(RequestRoute::Unicast) ==> exists|
            parsed: Result<UnicastRequest, String>,
        |
            read_unicast.ensures((&req.payload,), parsed) && r@ == unicast_dispatch(
                *ctx,
                *dir,
                req.properties@,
                parsed,
            ),
        request_route(req.properties.method@) == Some(RequestRoute::Broadcast) ==> exists|
            parsed: Result<BroadcastRequest, String>,
        |
            read_broadcast.ensures((&req.payload,), parsed) && r@ == broadcast_dispatch(
                *ctx,
                *dir,
                req.properties@,
                parsed,
            ),
{
    let reqp = &req.properties;
    match route_request(reqp.method.as_str()) {
        None => {
            let text = "Unknown method";
            let resp = error_response(ctx, reqp, METHOD_NOT_ALLOWED, text, text, text);
            let r = Dispatch { messages: vec![resp], reported: None, counters: Vec::new() };
            assert(r@.messages =~= unknown_method(*ctx, reqp@).messages);
            assert(r@.counters =~= seq![]);
            r
        },
        Some(RequestRoute::Unicast) => {
            let parsed = read_unicast(&req.payload);
            handle_unicast_envelope(ctx, dir, reqp, parsed)
        },
        Some(RequestRoute::Broadcast) => {
            let parsed = read_broadcast(&req.payload);
            handle_broadcast_envelope(ctx, dir, reqp, parsed)
        },
    }
}

/// Dispatches a response. Nothing is published where the response cannot
/// be handled: there is no one to answer.
pub fn dispatch_response(ctx: &Context, resp: &IncomingResponse) -> (r: Dispatch)
    ensures
        r@ == response_dispatch(*ctx, resp.payload@, resp.properties),
{
    let respp = &resp.properties;
    let reqp = match decode(respp.correlation_data.as_str()) {
        Ok(p) => p,
        Err(_) => {
            return dropped_with(ErrorKind::MessageParsingFailed);
        },
    };
    match route_response(reqp.method.as_str()) {
        None => {
            let r = Dispatch { messages: Vec::new(), reported: None, counters: Vec::new() };
            assert(r@.messages =~= seq![]);
            assert(r@.counters =~= seq![]);
            r
        },
        Some(ResponseRoute::Callback) => {
            let payload_is_json = is_json(resp.payload.as_str());
            handle_callback_envelope(ctx, resp, payload_is_json)
        },
    }
}

/// Dispatches a response routed to the callback; `payload_is_json` tells
/// whether its payload is one JSON value. A payload that is not is dropped.
pub fn handle_callback_envelope(ctx: &Context, resp: &IncomingResponse, payload_is_json: bool) -> (r:
    Dispatch)
    ensures
        r@ == callback_dispatch(*ctx, resp.payload@, resp.properties, payload_is_json),
{
    if !payload_is_json {
        return dropped_with(ErrorKind::PayloadParsingFailed);
    }
    match CallbackHandler::handle(ctx, &resp.payload, &resp.properties) {
        Ok(messages) => {
            let r = Dispatch { messages, reported: None, counters: Vec::new() };
            assert(r@.counters =~= seq![]);
            r
        },
        Err(e) => dropped_with(e.kind),
    }
}

fn dropped_with(k: ErrorKind) -> (r: Dispatch)
    ensures
        r@ == dropped(k),
{
    let r = Dispatch { messages: Vec::new(), reported: Some(AppError::new(k)), counters: Vec::new() };
    assert(r@.messages =~= seq![]);
    assert(r@.counters =~= seq![]);
    r
}

/// Dispatches an event. This endpoint registers no event handler, so every
/// event is dropped without a report.
pub fn dispatch_event(ctx: &Context, event: &IncomingEvent) -> (r: Dispatch)
    ensures
        r@ == nothing(),
{
    let r = Dispatch { messages: Vec::new(), reported: None, counters: Vec::new() };
    assert(r@.messages =~= seq![]);
    assert(r@.counters =~= seq![]);
    r
}

/// What the dispatch of `msg` produces, where `read_unicast` and
/// `read_broadcast` read the payloads of requests.
pub open spec fn dispatched<FU, FB>(
    ctx: Context,
    dir: Directory,
    msg: IncomingMessage,
    read_unicast: FU,
    read_broadcast: FB,
    d: DispatchView,
) -> bool where
    FU: Fn(&String) -> Result<UnicastRequest, String>,
    FB: Fn(&String) -> Result<BroadcastRequest, String>,
 {
    match msg {
        IncomingMessage::Request(req) => match request_route(req.properties.method@) {
            None => d == unknown_method(ctx, req.properties@),
            Some(RequestRoute::Unicast) => exists|parsed: Result<UnicastRequest, String>|
                read_unicast.ensures((&req.payload,), parsed) && d == unicast_dispatch(
                    ctx,
                    dir,
                    req.properties@,
                    parsed,
                ),
            Some(RequestRoute::Broadcast) => exists|parsed: Result<BroadcastRequest, String>|
                read_broadcast.ensures((&req.payload,), parsed) && d == broadcast_dispatch(
                    ctx,
                    dir,
                    req.properties@,
                    parsed,
                ),
        },
        IncomingMessage::Response(resp) => d == response_dispatch(
            ctx,
            resp.payload@,
            resp.properties,
        ),
        IncomingMessage::Event(_) => d == nothing(),
    }
}

/// Dispatches one envelope of any kind.
pub fn dispatch<FU, FB>(
    ctx: &Context,
    dir: &Directory,
    msg: &IncomingMessage,
    read_unicast: FU,
    read_broadcast: FB,
) -> (r: Dispatch) where
    FU: Fn(&String) -> Result<UnicastRequest, String>,
    FB: Fn(&String) -> Result<BroadcastRequest, String>,

    requires
        dir.wf(),
        forall|s: &String| #[trigger] read_unicast.requires((s,)),
        forall|s: &String| #[trigger] read_broadcast.requires((s,)),
    ensures
        dispatched(*ctx, *dir, *msg, read_unicast, read_broadcast, r@),
{
    match msg {
        IncomingMessage::Request(req) => dispatch_request(ctx, dir, req, read_unicast, read_broadcast),
        IncomingMessage::Response(resp) => dispatch_response(ctx, resp),
        IncomingMessage::Event(event) => dispatch_event(ctx, event),
    }
}

/// Dispatches every envelope of a batch. Each outcome is the one that the
/// envelope would have on its own: dispatches share nothing but the
/// directory, which they only read.
pub fn dispatch_all<FU, FB>(
    ctx: &Context,
    dir: &Directory,
    msgs: &Vec<IncomingMessage>,
    read_unicast: FU,
    read_broadcast: FB,
) -> (r: Vec<Dispatch>) where
    FU: Fn(&String) -> Result<UnicastRequest, String> + Copy,
    FB: Fn(&String) -> Result<BroadcastRequest, String> + Copy,

    requires
        dir.wf(),
        forall|s: &String| #[trigger] read_unicast.requires((s,)),
        forall|s: &String| #[trigger] read_broadcast.requires((s,)),
    ensures
        r@.len() == msgs@.len(),
        forall|i: int|
            0 <= i < msgs@.len() ==> dispatched(
                *ctx,
                *dir,
                #[trigger] msgs@[i],
                read_unicast,
                read_broadcast,
                r@[i]@,
            ),
{
    let mut out: Vec<Dispatch> = Vec::new();
    let mut i: usize = 0;
    while i < msgs.len()
        invariant
            dir.wf(),
            forall|s: &String| #[trigger] read_unicast.requires((s,)),
            forall|s: &String| #[trigger] read_broadcast.requires((s,)),
            0 <= i <= msgs@.len(),
            out@.len() == i,
            forall|k: int|
                0 <= k < i ==> dispatched(
                    *ctx,
                    *dir,
                    #[trigger] msgs@[k],
                    read_unicast,
                    read_broadcast,
                    out@[k]@,
                ),
        decreases msgs@.len() - i,
    {
        let d = dispatch(ctx, dir, &msgs[i], read_unicast, read_broadcast);
        out.push(d);
        i = i + 1;
    }
    out
}

} // verus!

//! The handlers of the message endpoint: unicast, broadcast, and the
//! callback that carries a unicast reply back to the original requester.
use vstd::prelude::*;

use crate::context::{hop_timing, response_view, Context};
use crate::envelope::{
    messages_view, OutgoingEvent, OutgoingEventView, OutgoingMessage, OutgoingMessageView,
    OutgoingRequest, OutgoingRequestView, OutgoingResponseView, RequestProperties,
    RequestPropertiesView, ResponseBody, ResponseBodyView, ResponseProperties,
};
use crate::error::{AppError, ErrorKind, OK};
use crate::ids::{AgentId, AgentIdView};
use crate::presence::{Directory, RoomTimeRequirement};
use crate::text::{append_str, owned};
use crate::token::{decode, encode, token_props, token_text};
use crate::topics::{
    app_topic, app_topic_of, inbox_topic, inbox_topic_of, outbox_topic, outbox_topic_of,
    room_events_uri, room_events_uri_of,
};

verus! {

/// What a handler's result says, up to the detail of its error.
pub open spec fn outcome_view(r: Result<Vec<OutgoingMessage>, AppError>) -> Result<
    Seq<OutgoingMessageView>,
    ErrorKind,
> {
    match r {
        Ok(ms) => Ok(messages_view(ms@)),
        Err(e) => Err(e.kind),
    }
}

/// The payload of `message.unicast`.
pub struct UnicastRequest {
    /// The agent to send the data to.
    pub agent_id: AgentId,
    pub room_id: u128,
    /// JSON text, passed on as it is.
    pub data: String,
}

/// The payload of `message.broadcast`.
pub struct BroadcastRequest {
    pub room_id: u128,
    /// JSON text, passed on as it is.
    pub data: String,
    /// Names a counter to increment, where stats are collected.
    pub label: Option<String>,
}

pub struct UnicastHandler;

pub struct BroadcastHandler;

pub struct CallbackHandler;

/// The request that `message.unicast` sends on to its target.
pub open spec fn unicast_request_view(
    ctx: Context,
    target: AgentIdView,
    data: Seq<char>,
    reqp: RequestPropertiesView,
) -> OutgoingRequestView {
    let hop = hop_timing(ctx);
    OutgoingRequestView {
        topic: inbox_topic(target, ctx.agent_id.account_id@),
        method: reqp.method,
        payload: data,
        correlation_data: token_text(reqp),
        response_topic: outbox_topic(target, ctx.agent_id.account_id@),
        tracking_id: reqp.tracking_id,
        long_term_timing: reqp.long_term_timing.after_hop(hop),
        short_term_timing: hop,
    }
}

/// What `message.unicast` does: the room must be open, and both the sender
/// and the target present in it; then one request goes to the target.
pub open spec fn unicast_outcome(
    ctx: Context,
    dir: Directory,
    payload: UnicastRequest,
    reqp: RequestPropertiesView,
) -> Result<Seq<OutgoingMessageView>, ErrorKind> {
    if !dir.finds_room(payload.room_id, RoomTimeRequirement::Open, ctx.now) {
        Err(ErrorKind::RoomNotFound)
    } else if !dir.is_present(payload.room_id, reqp.agent_id) {
        Err(ErrorKind::AgentNotEnteredTheRoom)
    } else if !dir.is_present(payload.room_id, payload.agent_id@) {
        Err(ErrorKind::AgentNotEnteredTheRoom)
    } else {
        Ok(
            seq![
                OutgoingMessageView::Request(
                    unicast_request_view(ctx, payload.agent_id@, payload.data@, reqp),
                ),
            ],
        )
    }
}

/// The label of the event that a broadcast emits.
pub open spec fn broadcast_label() -> Seq<char> {
    "message.broadcast"@
}

/// The event that `message.broadcast` emits to the room.
pub open spec fn broadcast_event_view(
    ctx: Context,
    room_id: u128,
    data: Seq<char>,
    reqp: RequestPropertiesView,
) -> OutgoingEventView {
    let hop = hop_timing(ctx);
    OutgoingEventView {
        topic: app_topic(ctx.agent_id.account_id@, room_events_uri(room_id)),
        label: broadcast_label(),
        payload: data,
        tracking_id: reqp.tracking_id,
        long_term_timing: reqp.long_term_timing.after_hop(hop),
        short_term_timing: hop,
    }
}

/// What `message.broadcast` does: the room must be open and the sender
/// present in it; then the sender gets an empty 200 response, and after it
/// the room gets the data as an event.
pub open spec fn broadcast_outcome(
    ctx: Context,
    dir: Directory,
    payload: BroadcastRequest,
    reqp: RequestPropertiesView,
) -> Result<Seq<OutgoingMessageView>, ErrorKind> {
    if !dir.finds_room(payload.room_id, RoomTimeRequirement::Open, ctx.now) {
        Err(ErrorKind::RoomNotFound)
    } else if !dir.is_present(payload.room_id, reqp.agent_id) {
        Err(ErrorKind::AgentNotEnteredTheRoom)
    } else {
        Ok(
            seq![
                OutgoingMessageView::Response(
                    response_view(ctx, reqp, OK, ResponseBodyView::Data("{}"@)),
                ),
                OutgoingMessageView::Event(
                    broadcast_event_view(ctx, payload.room_id, payload.data@, reqp),
                ),
            ],
        )
    }
}

/// The counters that a successful broadcast increments.
pub open spec fn broadcast_counters(ctx: Context, payload: BroadcastRequest) -> Seq<Seq<char>> {
    match payload.label {
        Some(label) => if ctx.dynamic_stats {
            seq!["message_broadcast_"@ + label@]
        } else {
            seq![]
        },
        None => seq![],
    }
}

/// The response that carries a downstream reply back to the original requester.
pub open spec fn callback_response_view(
    ctx: Context,
    payload: Seq<char>,
    respp: ResponseProperties,
    reqp: RequestPropertiesView,
) -> OutgoingResponseView {
    let hop = hop_timing(ctx);
    OutgoingResponseView {
        topic: inbox_topic(reqp.agent_id, ctx.agent_id.account_id@),
        status: respp.status,
        body: ResponseBodyView::Data(payload),
        correlation_data: reqp.correlation_data,
        tracking_id: respp.tracking_id@,
        long_term_timing: respp.long_term_timing.after_hop(hop),
        short_term_timing: hop,
    }
}

/// What the callback does: the response's correlation token must carry the
/// original request's properties; then one response goes to the original
/// requester, with the downstream payload as it came.
pub open spec fn callback_outcome(
    ctx: Context,
    payload: Seq<char>,
    respp: ResponseProperties,
) -> Result<Seq<OutgoingMessageView>, ErrorKind> {
    match token_props(respp.correlation_data@) {
        None => Err(ErrorKind::MessageParsingFailed),
        Some(reqp) => Ok(
            seq![
                OutgoingMessageView::Response(
                    callback_response_view(ctx, payload, respp, reqp),
                ),
            ],
        ),
    }
}

impl UnicastHandler {
    /// The title of the response that rejects a malformed payload.
    pub fn error_title() -> (r: &'static str)
        ensures
            r@ == "Failed to send unicast message"@,
    {
        "Failed to send unicast message"
    }

    pub fn handle(
        ctx: &Context,
        dir: &Directory,
        payload: &UnicastRequest,
        reqp: &RequestProperties,
    ) -> (r: Result<Vec<OutgoingMessage>, AppError>)
        requires
            dir.wf(),
        ensures
            outcome_view(r) == unicast_outcome(*ctx, *dir, *payload, reqp@),
    {
        let room = match dir.find_room_by_id(payload.room_id, RoomTimeRequirement::Open, ctx.now) {
            Ok(room) => room,
            Err(e) => {
                return Err(e);
            },
        };
        proof {
            let i = choose|i: int|
                0 <= i < dir.rooms().len() && #[trigger] dir.rooms()[i].id == payload.room_id;
        }
        assert(room.id == payload.room_id);
        match dir.check_room_presence(room, &reqp.agent_id) {
            Ok(()) => {},
            Err(e) => {
                return Err(e);
            },
        }
        match dir.check_room_presence(room, &payload.agent_id) {
            Ok(()) => {},
            Err(e) => {
                return Err(e);
            },
        }
        let me = &ctx.agent_id.account_id;
        let hop = ctx.hop();
        let req = OutgoingRequest {
            topic: inbox_topic_of(&payload.agent_id, me),
            method: reqp.method.clone(),
            payload: payload.data.clone(),
            correlation_data: encode(reqp),
            response_topic: outbox_topic_of(&payload.agent_id, me),
            tracking_id: reqp.tracking_id.clone(),
            long_term_timing: reqp.long_term_timing.update_cumulative_timings(&hop),
            short_term_timing: hop,
        };
        let out = vec![OutgoingMessage::Request(req)];
        assert(messages_view(out@) =~= seq![
            OutgoingMessageView::Request(
                unicast_request_view(*ctx, payload.agent_id@, payload.data@, reqp@),
            ),
        ]);
        Ok(out)
    }
}

impl BroadcastHandler {
    /// The title of the response that rejects a malformed payload.
    pub fn error_title() -> (r: &'static str)
        ensures
            r@ == "Failed to send broadcast message"@,
    {
        "Failed to send broadcast message"
    }

    /// Handles a broadcast; the counters to increment are added to `counters`.
    pub fn handle(
        ctx: &Context,
        dir: &Directory,
        payload: &BroadcastRequest,
        reqp: &RequestProperties,
        counters: &mut Vec<String>,
    ) -> (r: Result<Vec<OutgoingMessage>, AppError>)
        requires
            dir.wf(),
        ensures
            outcome_view(r) == broadcast_outcome(*ctx, *dir, *payload, reqp@),
            r is Ok ==> final(counters)@.map_values(|c: String| c@) == old(counters)@.map_values(
                |c: String| c@,
            ) + broadcast_counters(*ctx, *payload),
            r is Err ==> final(counters)@ == old(counters)@,
    {
        let room = match dir.find_room_by_id(payload.room_id, RoomTimeRequirement::Open, ctx.now) {
            Ok(room) => room,
            Err(e) => {
                return Err(e);
            },
        };
        proof {
            let i = choose|i: int|
                0 <= i < dir.rooms().len() && #[trigger] dir.rooms()[i].id == payload.room_id;
        }
        assert(room.id == payload.room_id);
        match dir.check_room_presence(room, &reqp.agent_id) {
            Ok(()) => {},
            Err(e) => {
                return Err(e);
            },
        }
        let ghost before = counters@;
        if ctx.dynamic_stats {
            match &payload.label {
                Some(label) => {
                    let mut name = owned("message_broadcast_");
                    append_str(&mut name, label.as_str());
                    counters.push(name);
                },
                None => {},
            }
        }
        assert(counters@.map_values(|c: String| c@) =~= before.map_values(|c: String| c@)
            + broadcast_counters(*ctx, *payload));
        let response = ctx.respond(reqp, OK, ResponseBody::Data(owned("{}")));
        let hop = ctx.hop();
        let uri = room_events_uri_of(room.id);
        let event = OutgoingEvent {
            topic: app_topic_of(&ctx.agent_id.account_id, uri.as_str()),
            label: owned("message.broadcast"),
            payload: payload.data.clone(),
            tracking_id: reqp.tracking_id.clone(),
            long_term_timing: reqp.long_term_timing.update_cumulative_timings(&hop),
            short_term_timing: hop,
        };
        let out = vec![OutgoingMessage::Response(response), OutgoingMessage::Event(event)];
        assert(messages_view(out@) =~= seq![
            OutgoingMessageView::Response(
                response_view(*ctx, reqp@, OK, ResponseBodyView::Data("{}"@)),
            ),
            OutgoingMessageView::Event(
                broadcast_event_view(*ctx, payload.room_id, payload.data@, reqp@),
            ),
        ]);
        Ok(out)
    }
}

impl CallbackHandler {
    /// Carries a downstream reply back to the requester whose properties the
    /// response's correlation token holds.
    pub fn handle(ctx: &Context, payload: &String, respp: &ResponseProperties) -> (r: Result<
        Vec<OutgoingMessage>,
        AppError,
    >)
        ensures
            outcome_view(r) == callback_outcome(*ctx, payload@, *respp),
    {
        let reqp = match decode(respp.correlation_data.as_str()) {
            Ok(p) => p,
            Err(_) => {
                return Err(AppError::new(ErrorKind::MessageParsingFailed));
            },
        };
        let hop = ctx.hop();
        let resp = crate::envelope::OutgoingResponse {
            topic: inbox_topic_of(&reqp.agent_id, &ctx.agent_id.account_id),
            status: respp.status,
            body: ResponseBody::Data(payload.clone()),
            correlation_data: reqp.correlation_data,
            tracking_id: respp.tracking_id.clone(),
            long_term_timing: respp.long_term_timing.update_cumulative_timings(&hop),
            short_term_timing: hop,
        };
        let out = vec![OutgoingMessage::Response(resp)];
        assert(messages_view(out@) =~= seq![
            OutgoingMessageView::Response(
                callback_response_view(*ctx, payload@, *respp, reqp@),
            ),
        ]);
        Ok(out)
    }
}

} // verus!

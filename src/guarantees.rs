//! What the dispatcher guarantees of the envelopes it produces, stated over
//! the specifications that the dispatch functions meet.
use vstd::prelude::*;

use crate::context::Context;
use crate::dispatch::{
    broadcast_dispatch, response_dispatch, unicast_dispatch, unknown_method, json_text_valid,
    response_route, ResponseRoute, DispatchView,
};
use crate::endpoint::{broadcast_label, BroadcastRequest, UnicastRequest};
use crate::envelope::{
    OutgoingMessageView, ProblemView, RequestPropertiesView, ResponseBodyView, ResponseProperties,
};
use crate::error::{ErrorKind, BAD_REQUEST, METHOD_NOT_ALLOWED, NOT_FOUND, OK};
use crate::presence::{Directory, RoomTimeRequirement};
use crate::token::token_props;
use crate::topics::{app_topic, inbox_topic, room_events_uri};

verus! {

/// Whether `m` is an error response with this status, kind and title.
pub open spec fn is_error_response(
    m: OutgoingMessageView,
    status: u16,
    kind: Seq<char>,
    title: Seq<char>,
) -> bool {
    match m {
        OutgoingMessageView::Response(r) => r.status == status && r.body == ResponseBodyView::Problem(
            ProblemView { kind, title, detail: r.body->Problem_0.detail },
        ),
        _ => false,
    }
}

/// Whether the dispatch answered with one 404 error response of kind `k`,
/// and reported `k`.
pub open spec fn rejected_as_not_found(d: DispatchView, k: ErrorKind) -> bool {
    &&& d.reported == Some(k)
    &&& d.messages.len() == 1
    &&& is_error_response(d.messages[0], NOT_FOUND, k.kind_spec(), k.title_spec())
}

/// A request whose method has no handler gets exactly one response: status
/// 405, kind "Unknown method".
pub proof fn lemma_unknown_method_rejected(ctx: Context, reqp: RequestPropertiesView)
    ensures
        unknown_method(ctx, reqp).messages.len() == 1,
        is_error_response(
            unknown_method(ctx, reqp).messages[0],
            METHOD_NOT_ALLOWED,
            "Unknown method"@,
            "Unknown method"@,
        ),
{
}

/// A request whose payload cannot be read gets exactly one response: status
/// 400, the method as its kind, and the handler's title.
pub proof fn lemma_bad_payload_rejected(
    ctx: Context,
    dir: Directory,
    reqp: RequestPropertiesView,
    error: String,
)
    ensures
        unicast_dispatch(ctx, dir, reqp, Err(error)).messages.len() == 1,
        is_error_response(
            unicast_dispatch(ctx, dir, reqp, Err(error)).messages[0],
            BAD_REQUEST,
            reqp.method,
            "Failed to send unicast message"@,
        ),
        broadcast_dispatch(ctx, dir, reqp, Err(error)).messages.len() == 1,
        is_error_response(
            broadcast_dispatch(ctx, dir, reqp, Err(error)).messages[0],
            BAD_REQUEST,
            reqp.method,
            "Failed to send broadcast message"@,
        ),
{
}

/// Unicast: a room that is missing (or not open) is `room_not_found`; a
/// sender or a target that has not entered the room is
/// `agent_not_entered_the_room`, both with status 404. Otherwise exactly one
/// request goes out, to the target's inbox, with the data unchanged.
pub proof fn lemma_unicast(
    ctx: Context,
    dir: Directory,
    reqp: RequestPropertiesView,
    payload: UnicastRequest,
)
    ensures
        ({
            let d = unicast_dispatch(ctx, dir, reqp, Ok(payload));
            let open = dir.finds_room(payload.room_id, RoomTimeRequirement::Open, ctx.now);
            let sender = dir.is_present(payload.room_id, reqp.agent_id);
            let target = dir.is_present(payload.room_id, payload.agent_id@);
            &&& !open ==> rejected_as_not_found(d, ErrorKind::RoomNotFound)
            &&& open && !sender ==> rejected_as_not_found(d, ErrorKind::AgentNotEnteredTheRoom)
            &&& open && !target ==> rejected_as_not_found(d, ErrorKind::AgentNotEnteredTheRoom)
            &&& open && sender && target ==> {
                &&& d.reported is None
                &&& d.messages.len() == 1
                &&& d.messages[0] is Request
                &&& d.messages[0]->Request_0.topic == inbox_topic(
                    payload.agent_id@,
                    ctx.agent_id.account_id@,
                )
                &&& d.messages[0]->Request_0.payload == payload.data@
            }
        }),
{
}

/// Broadcast: a missing room is `room_not_found`, a sender that has not
/// entered the room is `agent_not_entered_the_room`. Otherwise exactly two
/// messages go out, in order: a 200 response with body `{}`, then the event
/// `message.broadcast` with the data, on the room's events topic.
pub proof fn lemma_broadcast(
    ctx: Context,
    dir: Directory,
    reqp: RequestPropertiesView,
    payload: BroadcastRequest,
)
    ensures
        ({
            let d = broadcast_dispatch(ctx, dir, reqp, Ok(payload));
            let open = dir.finds_room(payload.room_id, RoomTimeRequirement::Open, ctx.now);
            let sender = dir.is_present(payload.room_id, reqp.agent_id);
            &&& !open ==> rejected_as_not_found(d, ErrorKind::RoomNotFound)
            &&& open && !sender ==> rejected_as_not_found(d, ErrorKind::AgentNotEnteredTheRoom)
            &&& open && sender ==> {
                &&& d.reported is None
                &&& d.messages.len() == 2
                &&& d.messages[0] is Response
                &&& d.messages[0]->Response_0.status == OK
                &&& d.messages[0]->Response_0.body == ResponseBodyView::Data("{}"@)
                &&& d.messages[1] is Event
                &&& d.messages[1]->Event_0.label == broadcast_label()
                &&& d.messages[1]->Event_0.payload == payload.data@
                &&& d.messages[1]->Event_0.topic == app_topic(
                    ctx.agent_id.account_id@,
                    room_events_uri(payload.room_id),
                )
            }
        }),
{
}

/// Callback: a response whose correlation token cannot be decoded produces
/// nothing to publish. A decodable token of a unicast, with a JSON payload,
/// produces exactly one response, to the requester that the token names,
/// carrying the payload unchanged.
pub proof fn lemma_callback(ctx: Context, payload: Seq<char>, respp: ResponseProperties)
    ensures
        token_props(respp.correlation_data@) is None ==> response_dispatch(
            ctx,
            payload,
            respp,
        ).messages.len() == 0,
        token_props(respp.correlation_data@) matches Some(reqp) ==> (response_route(reqp.method)
            == Some(ResponseRoute::Callback) && json_text_valid(payload) ==> {
            let d = response_dispatch(ctx, payload, respp);
            &&& d.messages.len() == 1
            &&& d.messages[0] is Response
            &&& d.messages[0]->Response_0.topic == inbox_topic(
                reqp.agent_id,
                ctx.agent_id.account_id@,
            )
            &&& d.messages[0]->Response_0.body == ResponseBodyView::Data(payload)
            &&& d.messages[0]->Response_0.correlation_data == reqp.correlation_data
        }),
{
}

} // verus!

use conference::dispatch::{
    dispatch, dispatch_all, dispatch_request, dispatch_response, handle_callback_envelope,
};
use conference::endpoint::{BroadcastHandler, BroadcastRequest, UnicastHandler, UnicastRequest};
use conference::envelope::{
    IncomingMessage, IncomingRequest, IncomingResponse, OutgoingMessage, RequestProperties, ResponseBody,
    ResponseProperties,
};
use conference::context::Context;
use conference::error::ErrorKind;
use conference::ids::{AccountId, AgentId};
use conference::presence::{Directory, Room};
use conference::timing::{LongTermTiming, TimeBound};
use conference::token;
use conference::topics::API_VERSION;

const SVC_AUDIENCE: &str = "dev.svc.example.org";
const USR_AUDIENCE: &str = "dev.usr.example.org";
const NOW: i64 = 1_600_000_000_000;

fn test_agent(label: &str, account_label: &str, audience: &str) -> AgentId {
    AgentId::new(label, AccountId::new(account_label, audience))
}

fn context() -> Context {
    let me = AgentId::new("alpha", AccountId::new("conference", SVC_AUDIENCE));
    Context::new(me, NOW - 5, NOW, false)
}

fn request_properties(method: &str, sender: &AgentId) -> RequestProperties {
    RequestProperties {
        method: method.to_owned(),
        agent_id: sender.duplicate(),
        correlation_data: "123456789".to_owned(),
        response_topic: format!(
            "agents/{}/api/{}/in/conference.{}",
            sender.to_text(),
            API_VERSION,
            SVC_AUDIENCE
        ),
        tracking_id: "tracking".to_owned(),
        long_term_timing: LongTermTiming::new(NOW - 100),
    }
}

fn insert_room(dir: &mut Directory) -> u128 {
    let id = uuid::Uuid::new_v4().as_u128();
    let room = Room::new(id, USR_AUDIENCE, TimeBound::Included(NOW / 1000 * 1000), TimeBound::Unbounded);
    assert!(dir.add_room(room));
    id
}

fn json(text: &str) -> serde_json::Value {
    serde_json::from_str(text).unwrap()
}

fn find_request(messages: &[OutgoingMessage]) -> (serde_json::Value, String) {
    for m in messages {
        if let OutgoingMessage::Request(r) = m {
            return (json(&r.payload), r.topic.clone());
        }
    }
    panic!("no request among the messages");
}

#[test]
fn unicast_message() {
    let sender = test_agent("web", "sender", USR_AUDIENCE);
    let receiver = test_agent("web", "receiver", USR_AUDIENCE);

    // Insert room with online both sender and receiver.
    let mut dir = Directory::new();
    let room_id = insert_room(&mut dir);
    dir.add_presence(room_id, sender.duplicate());
    dir.add_presence(room_id, receiver.duplicate());

    // Make message.unicast request.
    let context = context();
    let payload = UnicastRequest {
        agent_id: receiver.duplicate(),
        room_id,
        data: r#"{ "key": "value" }"#.to_owned(),
    };
    let reqp = request_properties("message.unicast", &sender);

    let messages = UnicastHandler::handle(&context, &dir, &payload, &reqp)
        .expect("Unicast message sending failed");

    // Assert outgoing request.
    let (payload, topic) = find_request(&messages);
    let expected_topic = format!(
        "agents/{}/api/{}/in/conference.{}",
        receiver.to_text(),
        API_VERSION,
        SVC_AUDIENCE,
    );
    assert_eq!(topic, expected_topic);
    assert_eq!(payload, json(r#"{"key": "value"}"#));
}

#[test]
fn unicast_message_to_missing_room() {
    let dir = Directory::new();
    let context = context();
    let sender = test_agent("web", "sender", USR_AUDIENCE);
    let receiver = test_agent("web", "receiver", USR_AUDIENCE);

    let payload = UnicastRequest {
        agent_id: receiver.duplicate(),
        room_id: uuid::Uuid::new_v4().as_u128(),
        data: r#"{ "key": "value" }"#.to_owned(),
    };
    let reqp = request_properties("message.unicast", &sender);

    let err = match UnicastHandler::handle(&context, &dir, &payload, &reqp) {
        Ok(_) => panic!("Unexpected success on unicast message sending"),
        Err(err) => err,
    };
    assert_eq!(err.status(), 404);
    assert_eq!(err.kind(), "room_not_found");
}

#[test]
fn unicast_message_when_sender_is_not_in_the_room() {
    let sender = test_agent("web", "sender", USR_AUDIENCE);
    let receiver = test_agent("web", "receiver", USR_AUDIENCE);

    // Insert room with online receiver only.
    let mut dir = Directory::new();
    let room_id = insert_room(&mut dir);
    dir.add_presence(room_id, receiver.duplicate());

    let context = context();
    let payload = UnicastRequest {
        agent_id: receiver.duplicate(),
        room_id,
        data: r#"{ "key": "value" }"#.to_owned(),
    };
    let reqp = request_properties("message.unicast", &sender);

    let err = match UnicastHandler::handle(&context, &dir, &payload, &reqp) {
        Ok(_) => panic!("Unexpected success on unicast message sending"),
        Err(err) => err,
    };
    assert_eq!(err.status(), 404);
    assert_eq!(err.kind(), "agent_not_entered_the_room");
}

#[test]
fn unicast_message_when_receiver_is_not_in_the_room() {
    let sender = test_agent("web", "sender", USR_AUDIENCE);
    let receiver = test_agent("web", "receiver", USR_AUDIENCE);

    // Insert room with online sender only.
    let mut dir = Directory::new();
    let room_id = insert_room(&mut dir);
    dir.add_presence(room_id, sender.duplicate());

    let context = context();
    let payload = UnicastRequest {
        agent_id: receiver.duplicate(),
        room_id,
        data: r#"{ "key": "value" }"#.to_owned(),
    };
    let reqp = request_properties("message.unicast", &sender);

    let err = match UnicastHandler::handle(&context, &dir, &payload, &reqp) {
        Ok(_) => panic!("Unexpected success on unicast message sending"),
        Err(err) => err,
    };
    assert_eq!(err.status(), 404);
    assert_eq!(err.kind(), "agent_not_entered_the_room");
}

#[test]
fn broadcast_message() {
    let sender = test_agent("web", "sender", USR_AUDIENCE);

    // Insert room with online agent.
    let mut dir = Directory::new();
    let room_id = insert_room(&mut dir);
    dir.add_presence(room_id, sender.duplicate());

    // Make message.broadcast request.
    let context = context();
    let payload = BroadcastRequest {
        room_id,
        data: r#"{ "key": "value" }"#.to_owned(),
        label: None,
    };
    let reqp = request_properties("message.broadcast", &sender);
    let mut counters = Vec::new();

    let messages = BroadcastHandler::handle(&context, &dir, &payload, &reqp, &mut counters)
        .expect("Broadcast message sending failed");

    // Assert response.
    let status = messages
        .iter()
        .find_map(|m| match m {
            OutgoingMessage::Response(r) => Some(r.status),
            _ => None,
        })
        .expect("no response among the messages");
    assert_eq!(status, 200);

    // Assert broadcast event.
    let (payload, topic) = messages
        .iter()
        .find_map(|m| match m {
            OutgoingMessage::Event(e) => Some((json(&e.payload), e.topic.clone())),
            _ => None,
        })
        .expect("no event among the messages");
    let expected_topic = format!(
        "apps/conference.{}/api/{}/rooms/{}/events",
        SVC_AUDIENCE,
        API_VERSION,
        uuid::Uuid::from_u128(room_id),
    );
    assert_eq!(topic, expected_topic);
    assert_eq!(payload, json(r#"{"key": "value"}"#));
}

#[test]
fn broadcast_message_to_missing_room() {
    let dir = Directory::new();
    let context = context();
    let sender = test_agent("web", "sender", USR_AUDIENCE);

    let payload = BroadcastRequest {
        room_id: uuid::Uuid::new_v4().as_u128(),
        data: r#"{ "key": "value" }"#.to_owned(),
        label: None,
    };
    let reqp = request_properties("message.broadcast", &sender);
    let mut counters = Vec::new();

    let err = match BroadcastHandler::handle(&context, &dir, &payload, &reqp, &mut counters) {
        Ok(_) => panic!("Unexpected success on unicast message sending"),
        Err(err) => err,
    };
    assert_eq!(err.status(), 404);
    assert_eq!(err.kind(), "room_not_found");
}

#[test]
fn broadcast_message_when_not_in_the_room() {
    let sender = test_agent("web", "sender", USR_AUDIENCE);

    // Insert room with online agent.
    let mut dir = Directory::new();
    let room_id = insert_room(&mut dir);

    let context = context();
    let payload = BroadcastRequest {
        room_id,
        data: r#"{ "key": "value" }"#.to_owned(),
        label: None,
    };
    let reqp = request_properties("message.broadcast", &sender);
    let mut counters = Vec::new();

    let err = match BroadcastHandler::handle(&context, &dir, &payload, &reqp, &mut counters) {
        Ok(_) => panic!("Unexpected success on unicast message sending"),
        Err(err) => err,
    };
    assert_eq!(err.status(), 404);
    assert_eq!(err.kind(), "agent_not_entered_the_room");
}

// ---------------------------------------------------------------------------
// The dispatcher.

fn no_unicast(_: &String) -> Result<UnicastRequest, String> {
    Err("unused".to_owned())
}

fn no_broadcast(_: &String) -> Result<BroadcastRequest, String> {
    Err("unused".to_owned())
}

fn problem_of(m: &OutgoingMessage) -> (u16, String, String, String) {
    match m {
        OutgoingMessage::Response(r) => match &r.body {
            ResponseBody::Problem(p) => (r.status, p.kind.clone(), p.title.clone(), p.detail.clone()),
            ResponseBody::Data(_) => panic!("not an error response"),
        },
        _ => panic!("not a response"),
    }
}

#[test]
fn unknown_method_gets_405() {
    let sender = test_agent("web", "sender", USR_AUDIENCE);
    let dir = Directory::new();
    let req = IncomingRequest {
        properties: request_properties("message.multicast", &sender),
        payload: "{}".to_owned(),
    };
    let d = dispatch_request(&context(), &dir, &req, no_unicast, no_broadcast);
    assert_eq!(d.messages.len(), 1);
    assert!(d.reported.is_none());
    let (status, kind, title, _) = problem_of(&d.messages[0]);
    assert_eq!(status, 405);
    assert_eq!(kind, "Unknown method");
    assert_eq!(title, "Unknown method");
    // The response goes back to the sender.
    if let OutgoingMessage::Response(r) = &d.messages[0] {
        assert_eq!(
            r.topic,
            format!("agents/web.sender.{}/api/v1/in/conference.{}", USR_AUDIENCE, SVC_AUDIENCE)
        );
        assert_eq!(r.correlation_data, "123456789");
        assert_eq!(r.short_term_timing.timestamp, NOW);
        assert_eq!(r.short_term_timing.processing_time, 5);
        assert_eq!(r.long_term_timing.cumulative_processing_time, 5);
    }
}

#[test]
fn malformed_payload_gets_400_with_title() {
    let sender = test_agent("web", "sender", USR_AUDIENCE);
    let dir = Directory::new();
    let req = IncomingRequest {
        properties: request_properties("message.broadcast", &sender),
        payload: "not json".to_owned(),
    };
    let d = dispatch_request(&context(), &dir, &req, no_unicast, |_: &String| {
        Err("expected value at line 1 column 1".to_owned())
    });
    assert_eq!(d.messages.len(), 1);
    let (status, kind, title, detail) = problem_of(&d.messages[0]);
    assert_eq!(status, 400);
    assert_eq!(kind, "message.broadcast");
    assert_eq!(title, "Failed to send broadcast message");
    assert_eq!(detail, "expected value at line 1 column 1");

    let req = IncomingRequest {
        properties: request_properties("message.unicast", &sender),
        payload: "[]".to_owned(),
    };
    let d = dispatch_request(&context(), &dir, &req, no_unicast, no_broadcast);
    let (status, kind, title, _) = problem_of(&d.messages[0]);
    assert_eq!(status, 400);
    assert_eq!(kind, "message.unicast");
    assert_eq!(title, "Failed to send unicast message");
}

#[test]
fn handler_error_becomes_a_response_and_a_report() {
    let sender = test_agent("web", "sender", USR_AUDIENCE);
    let dir = Directory::new();
    let req = IncomingRequest {
        properties: request_properties("message.broadcast", &sender),
        payload: "{}".to_owned(),
    };
    let d = dispatch_request(&context(), &dir, &req, no_unicast, |_: &String| {
        Ok(BroadcastRequest { room_id: 7, data: "{}".to_owned(), label: None })
    });
    assert_eq!(d.messages.len(), 1);
    assert_eq!(d.reported.map(|e| e.kind), Some(ErrorKind::RoomNotFound));
    let (status, kind, title, detail) = problem_of(&d.messages[0]);
    assert_eq!(status, 404);
    assert_eq!(kind, "room_not_found");
    assert_eq!(title, "Room not found");
    assert_eq!(detail, "Room not found or closed");
}

#[test]
fn broadcast_dispatch_orders_response_before_event_and_counts_label() {
    let sender = test_agent("web", "sender", USR_AUDIENCE);
    let mut dir = Directory::new();
    let room_id = 0x0123_4567_89ab_cdef_0123_4567_89ab_cdef_u128;
    assert!(dir.add_room(Room::new(room_id, USR_AUDIENCE, TimeBound::Unbounded, TimeBound::Unbounded)));
    dir.add_presence(room_id, sender.duplicate());
    let req = IncomingRequest {
        properties: request_properties("message.broadcast", &sender),
        payload: "{}".to_owned(),
    };
    let mut ctx = context();
    ctx.dynamic_stats = true;
    let d = dispatch_request(&ctx, &dir, &req, no_unicast, move |_: &String| {
        Ok(BroadcastRequest {
            room_id,
            data: "[1,2]".to_owned(),
            label: Some("chat".to_owned()),
        })
    });
    assert!(d.reported.is_none());
    assert_eq!(d.counters, vec!["message_broadcast_chat".to_owned()]);
    assert_eq!(d.messages.len(), 2);
    match (&d.messages[0], &d.messages[1]) {
        (OutgoingMessage::Response(r), OutgoingMessage::Event(e)) => {
            assert_eq!(r.status, 200);
            match &r.body {
                ResponseBody::Data(body) => assert_eq!(body, "{}"),
                ResponseBody::Problem(_) => panic!("unexpected error body"),
            }
            assert_eq!(e.label, "message.broadcast");
            assert_eq!(e.payload, "[1,2]");
            assert_eq!(
                e.topic,
                format!(
                    "apps/conference.{}/api/v1/rooms/01234567-89ab-cdef-0123-456789abcdef/events",
                    SVC_AUDIENCE
                )
            );
        }
        _ => panic!("expected a response, then an event"),
    }
}

#[test]
fn closed_room_is_not_found() {
    let sender = test_agent("web", "sender", USR_AUDIENCE);
    let mut dir = Directory::new();
    let room_id = 42;
    let hour = 3_600_000;
    assert!(dir.add_room(Room::new(
        room_id,
        USR_AUDIENCE,
        TimeBound::Included(NOW - 10 * hour),
        TimeBound::Excluded(NOW - 8 * hour),
    )));
    dir.add_presence(room_id, sender.duplicate());
    let payload = BroadcastRequest { room_id, data: "{}".to_owned(), label: None };
    let reqp = request_properties("message.broadcast", &sender);
    let mut counters = Vec::new();
    let err = match BroadcastHandler::handle(&context(), &dir, &payload, &reqp, &mut counters) {
        Ok(_) => panic!("a closed room accepted a broadcast"),
        Err(err) => err,
    };
    assert_eq!(err.kind(), "room_not_found");
    assert!(counters.is_empty());
}

fn unicast_then_reply(reply_payload: &str) -> (AgentId, AgentId, Vec<OutgoingMessage>) {
    let sender = test_agent("web", "sender", USR_AUDIENCE);
    let receiver = test_agent("web", "receiver", USR_AUDIENCE);
    let mut dir = Directory::new();
    let room_id = insert_room(&mut dir);
    dir.add_presence(room_id, sender.duplicate());
    dir.add_presence(room_id, receiver.duplicate());
    let payload = UnicastRequest { agent_id: receiver.duplicate(), room_id, data: "{}".to_owned() };
    let reqp = request_properties("message.unicast", &sender);
    let messages = UnicastHandler::handle(&context(), &dir, &payload, &reqp).unwrap();
    let out = match &messages[0] {
        OutgoingMessage::Request(r) => r,
        _ => panic!("expected a request"),
    };
    assert_eq!(
        out.response_topic,
        format!("agents/web.receiver.{}/api/v1/out/conference.{}", USR_AUDIENCE, SVC_AUDIENCE)
    );
    let resp = IncomingResponse {
        properties: ResponseProperties {
            status: 200,
            agent_id: receiver.duplicate(),
            correlation_data: out.correlation_data.clone(),
            tracking_id: "downstream".to_owned(),
            long_term_timing: out.long_term_timing,
        },
        payload: reply_payload.to_owned(),
    };
    let d = dispatch_response(&context(), &resp);
    (sender, receiver, d.messages)
}

#[test]
fn callback_returns_reply_to_original_requester() {
    let (sender, _, messages) = unicast_then_reply(r#"{"answer":42}"#);
    assert_eq!(messages.len(), 1);
    match &messages[0] {
        OutgoingMessage::Response(r) => {
            assert_eq!(r.status, 200);
            assert_eq!(r.correlation_data, "123456789");
            assert_eq!(
                r.topic,
                format!("agents/{}/api/v1/in/conference.{}", sender.to_text(), SVC_AUDIENCE)
            );
            match &r.body {
                ResponseBody::Data(body) => assert_eq!(body, r#"{"answer":42}"#),
                ResponseBody::Problem(_) => panic!("unexpected error body"),
            }
        }
        _ => panic!("expected a response"),
    }
}

#[test]
fn callback_drops_reply_that_is_not_json() {
    let (_, _, messages) = unicast_then_reply("{not json");
    assert!(messages.is_empty());
}

#[test]
fn callback_drops_undecodable_token() {
    let receiver = test_agent("web", "receiver", USR_AUDIENCE);
    for token in ["", "zz", "0", "00", "ABCD", "é1"] {
        let resp = IncomingResponse {
            properties: ResponseProperties {
                status: 200,
                agent_id: receiver.duplicate(),
                correlation_data: token.to_owned(),
                tracking_id: "t".to_owned(),
                long_term_timing: LongTermTiming::new(0),
            },
            payload: "{}".to_owned(),
        };
        let d = dispatch_response(&context(), &resp);
        assert!(d.messages.is_empty());
        assert_eq!(d.reported.map(|e| e.kind), Some(ErrorKind::MessageParsingFailed));
    }
}

#[test]
fn token_round_trip() {
    let sender = AgentId::new("wéb", AccountId::new("sender", "dev.usr.example.org"));
    let mut reqp = request_properties("message.unicast", &sender);
    reqp.correlation_data = "a.b.c — ∑".to_owned();
    reqp.long_term_timing = LongTermTiming { initial_timestamp: -12, cumulative_processing_time: i64::MAX };
    let t = token::encode(&reqp);
    assert!(t.chars().all(|c| c.is_ascii_hexdigit() && !c.is_ascii_uppercase()));
    let back = token::decode(&t).expect("a token that was encoded decodes");
    assert_eq!(back.method, reqp.method);
    assert_eq!(back.agent_id.to_text(), "wéb.sender.dev.usr.example.org");
    assert_eq!(back.correlation_data, reqp.correlation_data);
    assert_eq!(back.response_topic, reqp.response_topic);
    assert_eq!(back.tracking_id, reqp.tracking_id);
    assert_eq!(back.long_term_timing.initial_timestamp, -12);
    assert_eq!(back.long_term_timing.cumulative_processing_time, i64::MAX);
}

#[test]
fn token_layout() {
    let reqp = RequestProperties {
        method: "m".to_owned(),
        agent_id: AgentId::new("", AccountId::new("", "")),
        correlation_data: String::new(),
        response_topic: String::new(),
        tracking_id: String::new(),
        long_term_timing: LongTermTiming { initial_timestamp: 1, cumulative_processing_time: -1 },
    };
    let t = token::encode(&reqp);
    let expected = format!(
        "{}{}{}{}",
        "00000000000000016d",
        "0000000000000000".repeat(6),
        "0000000000000001",
        "ffffffffffffffff"
    );
    assert_eq!(t, expected);
}

#[test]
fn token_errors() {
    assert_eq!(token::decode("0g").err(), Some(token::DecodingError::NotHex));
    assert_eq!(token::decode("abc").err(), Some(token::DecodingError::NotHex));
    assert_eq!(token::decode("AB").err(), Some(token::DecodingError::NotHex));
    assert_eq!(token::decode("").err(), Some(token::DecodingError::Malformed));
    assert_eq!(token::decode("00ff").err(), Some(token::DecodingError::Malformed));
    // A valid token with one byte more is refused.
    let sender = test_agent("web", "sender", USR_AUDIENCE);
    let t = token::encode(&request_properties("m", &sender));
    assert!(token::decode(&t).is_ok());
    assert_eq!(token::decode(&format!("{}00", t)).err(), Some(token::DecodingError::Malformed));
    assert_eq!(token::decode(&t[..t.len() - 2]).err(), Some(token::DecodingError::Malformed));
    // Text that is not UTF-8 is refused.
    let bad = format!("{}{}", "0000000000000001ff", "0000000000000000".repeat(8));
    assert_eq!(token::decode(&bad).err(), Some(token::DecodingError::Malformed));
}

fn broadcast_to_room_99(_: &String) -> Result<BroadcastRequest, String> {
    Ok(BroadcastRequest { room_id: 99, data: "1".to_owned(), label: None })
}

#[test]
fn batch_outcomes_match_single_dispatches() {
    let sender = test_agent("web", "sender", USR_AUDIENCE);
    let mut dir = Directory::new();
    let room_id = 99;
    assert!(dir.add_room(Room::new(room_id, USR_AUDIENCE, TimeBound::Unbounded, TimeBound::Unbounded)));
    dir.add_presence(room_id, sender.duplicate());

    let make = |method: &str| {
        IncomingMessage::Request(IncomingRequest {
            properties: request_properties(method, &sender),
            payload: "{}".to_owned(),
        })
    };
    let batch = vec![make("message.broadcast"), make("nope"), make("message.unicast")];
    let all = dispatch_all(&context(), &dir, &batch, no_unicast, broadcast_to_room_99);
    assert_eq!(all.len(), 3);
    let counts: Vec<usize> = all.iter().map(|d| d.messages.len()).collect();
    assert_eq!(counts, vec![2, 1, 1]);
    for (msg, outcome) in batch.iter().rev().zip(all.iter().rev()) {
        let alone = dispatch(&context(), &dir, msg, no_unicast, broadcast_to_room_99);
        assert_eq!(alone.messages.len(), outcome.messages.len());
        for (a, b) in alone.messages.iter().zip(outcome.messages.iter()) {
            let topic = |m: &OutgoingMessage| match m {
                OutgoingMessage::Request(r) => r.topic.clone(),
                OutgoingMessage::Response(r) => format!("{} {}", r.topic, r.status),
                OutgoingMessage::Event(e) => e.topic.clone(),
            };
            assert_eq!(topic(a), topic(b));
        }
    }
    let (status, _, _, _) = problem_of(&all[1].messages[0]);
    assert_eq!(status, 405);
    let (status, _, _, _) = problem_of(&all[2].messages[0]);
    assert_eq!(status, 400);
}

#[test]
fn callback_envelope_depends_on_payload_check() {
    let sender = test_agent("web", "sender", USR_AUDIENCE);
    let receiver = test_agent("web", "receiver", USR_AUDIENCE);
    let token = token::encode(&request_properties("message.unicast", &sender));
    let resp = IncomingResponse {
        properties: ResponseProperties {
            status: 201,
            agent_id: receiver.duplicate(),
            correlation_data: token,
            tracking_id: "t".to_owned(),
            long_term_timing: LongTermTiming::new(0),
        },
        payload: "whatever".to_owned(),
    };
    let d = handle_callback_envelope(&context(), &resp, false);
    assert!(d.messages.is_empty());
    assert_eq!(d.reported.map(|e| e.kind), Some(ErrorKind::PayloadParsingFailed));
    let d = handle_callback_envelope(&context(), &resp, true);
    assert_eq!(d.messages.len(), 1);
    match &d.messages[0] {
        OutgoingMessage::Response(r) => {
            assert_eq!(r.status, 201);
            assert_eq!(r.tracking_id, "t");
            match &r.body {
                ResponseBody::Data(body) => assert_eq!(body, "whatever"),
                ResponseBody::Problem(_) => panic!("unexpected error body"),
            }
        }
        _ => panic!("expected a response"),
    }
}

use conference::agent::{Agent, AgentBuilder, SharedGroup};
use conference::ids::{AccountId, AgentId};
use conference::presence::{Directory, Room, RoomTimeRequirement};
use conference::timing::{LongTermTiming, ShortTermTiming, TimeBound};
use conference::topics::room_events_uri_of;

#[test]
fn agent_text_forms() {
    let a = AgentId::new("web", AccountId::new("sender", "dev.usr.example.org"));
    assert_eq!(a.to_text(), "web.sender.dev.usr.example.org");
    assert_eq!(a.as_account_id().to_text(), "sender.dev.usr.example.org");
    assert!(a.same_as(&a.duplicate()));
    assert!(!a.same_as(&AgentId::new("web", AccountId::new("sender", "other"))));
}

#[test]
fn mqtt_client_id() {
    let a = AgentId::new("a", AccountId::new("conference", "svc.example.org"));
    assert_eq!(AgentBuilder::mqtt_client_id(&a), "v1.mqtt3/agents/a.conference.svc.example.org");
    let b = AgentBuilder::new(a, AccountId::new("janus-gateway", "svc.example.org"));
    assert_eq!(b.backend_account_id.to_text(), "janus-gateway.svc.example.org");
}

#[test]
fn backend_topics() {
    let me = AgentId::new("a", AccountId::new("conference", "svc.example.org"));
    let agent = Agent::new(me, AccountId::new("janus-gateway", "svc.example.org"));
    let backend = AgentId::new("a", AccountId::new("janus-gateway", "svc.example.org"));
    assert_eq!(
        agent.backend_input_topic(&backend),
        "agents/a.janus-gateway.svc.example.org/api/v1/in/conference.svc.example.org"
    );
    let group = SharedGroup::new("loadbalancer", AccountId::new("conference", "svc.example.org"));
    assert_eq!(
        agent.backend_responses_subscription(&group),
        "$share/loadbalancer.conference.svc.example.org/apps/janus-gateway.svc.example.org/api/v1/responses"
    );
}

#[test]
fn uuid_text_is_hyphenated_lower_case() {
    assert_eq!(room_events_uri_of(0), "rooms/00000000-0000-0000-0000-000000000000/events");
    assert_eq!(
        room_events_uri_of(0x0123_4567_89AB_CDEF_FEDC_BA98_7654_3210),
        "rooms/01234567-89ab-cdef-fedc-ba9876543210/events"
    );
    assert_eq!(room_events_uri_of(u128::MAX), "rooms/ffffffff-ffff-ffff-ffff-ffffffffffff/events");
}

#[test]
fn room_windows() {
    let r = Room::new(1, "aud", TimeBound::Included(100), TimeBound::Excluded(200));
    assert!(!r.check_time(RoomTimeRequirement::Open, 99));
    assert!(r.check_time(RoomTimeRequirement::Open, 100));
    assert!(r.check_time(RoomTimeRequirement::Open, 199));
    assert!(!r.check_time(RoomTimeRequirement::Open, 200));
    assert!(r.check_time(RoomTimeRequirement::NotClosed, 50));
    assert!(!r.check_time(RoomTimeRequirement::NotClosed, 200));
    assert!(r.check_time(RoomTimeRequirement::Any, 500));
    let r = Room::new(1, "aud", TimeBound::Excluded(100), TimeBound::Included(200));
    assert!(!r.check_time(RoomTimeRequirement::Open, 100));
    assert!(r.check_time(RoomTimeRequirement::Open, 200));
}

#[test]
fn directory_lookups() {
    let mut dir = Directory::new();
    assert!(dir.add_room(Room::new(5, "aud", TimeBound::Unbounded, TimeBound::Unbounded)));
    assert!(!dir.add_room(Room::new(5, "other", TimeBound::Unbounded, TimeBound::Unbounded)));
    let room = dir.find_room_by_id(5, RoomTimeRequirement::Open, 0).ok().unwrap();
    assert_eq!(room.audience, "aud");
    assert_eq!(dir.find_room_by_id(6, RoomTimeRequirement::Any, 0).err().unwrap().kind(), "room_not_found");
    let agent = AgentId::new("web", AccountId::new("x", "aud"));
    let room = Room::new(5, "aud", TimeBound::Unbounded, TimeBound::Unbounded);
    assert_eq!(dir.check_room_presence(&room, &agent).err().unwrap().kind(), "agent_not_entered_the_room");
    dir.add_presence(5, agent.duplicate());
    assert!(dir.check_room_presence(&room, &agent).is_ok());
    let elsewhere = Room::new(6, "aud", TimeBound::Unbounded, TimeBound::Unbounded);
    assert!(dir.check_room_presence(&elsewhere, &agent).is_err());
}

#[test]
fn timings() {
    let hop = ShortTermTiming::until_now(1_000, 1_250);
    assert_eq!(hop.timestamp, 1_250);
    assert_eq!(hop.processing_time, 250);
    let t = LongTermTiming { initial_timestamp: 10, cumulative_processing_time: 40 };
    let t = t.update_cumulative_timings(&hop);
    assert_eq!(t.initial_timestamp, 10);
    assert_eq!(t.cumulative_processing_time, 290);
    let hop = ShortTermTiming::until_now(i64::MIN, i64::MAX);
    assert_eq!(hop.processing_time, i64::MAX);
    let t = LongTermTiming { initial_timestamp: 0, cumulative_processing_time: i64::MAX };
    assert_eq!(t.update_cumulative_timings(&hop).cumulative_processing_time, i64::MAX);
}

#[test]
fn agent_id_from_text() {
    let a = AgentId::parse("web.sender.dev.usr.example.org").unwrap();
    assert_eq!(a.label, "web");
    assert_eq!(a.account_id.label, "sender");
    assert_eq!(a.account_id.audience, "dev.usr.example.org");
    assert_eq!(a.to_text(), "web.sender.dev.usr.example.org");
    let a = AgentId::parse("..").unwrap();
    assert_eq!((a.label.as_str(), a.account_id.label.as_str(), a.account_id.audience.as_str()), ("", "", ""));
    assert!(AgentId::parse("web.sender").is_none());
    assert!(AgentId::parse("web").is_none());
    assert!(AgentId::parse("").is_none());
    let a = AgentId::parse("é.ü.x").unwrap();
    assert_eq!(a.account_id.label, "ü");
}

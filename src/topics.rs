//! Broker topics, as the service's transport lays them out.
use vstd::prelude::*;
use vstd::arithmetic::power::pow;

use crate::ids::{account_text, agent_text, AccountId, AccountIdView, AgentId, AgentIdView};
use crate::text::{append_str, hex_digit};

verus! {

/// The version of the API that this service speaks.
pub const API_VERSION: &'static str = "v1";

/// Digit `i` (from the most significant) of the 32 hexadecimal digits of `id`.
pub open spec fn uuid_digit(id: u128, i: int) -> char {
    hex_digit((id as int / pow(16, (31 - i) as nat)) % 16)
}

/// The hyphenated lower-case text of a UUID, 8-4-4-4-12 digits.
pub open spec fn uuid_text(id: u128) -> Seq<char> {
    let h = Seq::new(32, |i: int| uuid_digit(id, i));
    h.subrange(0, 8) + seq!['-'] + h.subrange(8, 12) + seq!['-'] + h.subrange(12, 16) + seq!['-']
        + h.subrange(16, 20) + seq!['-'] + h.subrange(20, 32)
}

/// Relies on uuid's `Uuid::from_u128` (the sixteen bytes of the id, big-endian)
/// and on its `Display`, which writes the hyphenated lower-case form.
#[verifier::external_body]
pub(crate) fn uuid_to_text(id: u128) -> (r: String)
    ensures
        r@ == uuid_text(id),
{
    uuid::Uuid::from_u128(id).to_string()
}

/// The topic on which `to` receives messages from the application `app`.
pub open spec fn inbox_topic(to: AgentIdView, app: AccountIdView) -> Seq<char> {
    "agents/"@ + agent_text(to) + "/api/v1/in/"@ + account_text(app)
}

/// The topic on which `from` publishes messages for the application `app`.
pub open spec fn outbox_topic(from: AgentIdView, app: AccountIdView) -> Seq<char> {
    "agents/"@ + agent_text(from) + "/api/v1/out/"@ + account_text(app)
}

/// The topic under `uri` on which the application `app` broadcasts.
pub open spec fn app_topic(app: AccountIdView, uri: Seq<char>) -> Seq<char> {
    "apps/"@ + account_text(app) + "/api/v1/"@ + uri
}

/// The path of a room's events.
pub open spec fn room_events_uri(room_id: u128) -> Seq<char> {
    "rooms/"@ + uuid_text(room_id) + "/events"@
}

/// The topic on which `to` receives messages from the application `app`.
pub fn inbox_topic_of(to: &AgentId, app: &AccountId) -> (r: String)
    ensures
        r@ == inbox_topic(to@, app@),
{
    let mut out = String::new();
    append_str(&mut out, "agents/");
    to.write_to(&mut out);
    append_str(&mut out, "/api/v1/in/");
    app.write_to(&mut out);
    assert(out@ =~= inbox_topic(to@, app@));
    out
}

/// The topic on which `from` publishes messages for the application `app`.
pub fn outbox_topic_of(from: &AgentId, app: &AccountId) -> (r: String)
    ensures
        r@ == outbox_topic(from@, app@),
{
    let mut out = String::new();
    append_str(&mut out, "agents/");
    from.write_to(&mut out);
    append_str(&mut out, "/api/v1/out/");
    app.write_to(&mut out);
    assert(out@ =~= outbox_topic(from@, app@));
    out
}

/// The topic under `uri` on which the application `app` broadcasts.
pub fn app_topic_of(app: &AccountId, uri: &str) -> (r: String)
    ensures
        r@ == app_topic(app@, uri@),
{
    let mut out = String::new();
    append_str(&mut out, "apps/");
    app.write_to(&mut out);
    append_str(&mut out, "/api/v1/");
    append_str(&mut out, uri);
    assert(out@ =~= app_topic(app@, uri@));
    out
}

/// The path of a room's events.
pub fn room_events_uri_of(room_id: u128) -> (r: String)
    ensures
        r@ == room_events_uri(room_id),
{
    let mut out = String::new();
    append_str(&mut out, "rooms/");
    let id = uuid_to_text(room_id);
    append_str(&mut out, id.as_str());
    append_str(&mut out, "/events");
    assert(out@ =~= room_events_uri(room_id));
    out
}

} // verus!

//! The service's own broker identity: its client id and the topics it uses
//! to talk to its media backend.
use vstd::prelude::*;

use crate::ids::{account_text, agent_text, AccountId, AccountIdView, AgentId};
use crate::text::append_str;
use crate::topics::{inbox_topic, inbox_topic_of};

verus! {

/// A group of subscribers that share the messages of a topic between them.
pub struct SharedGroup {
    pub label: String,
    pub account_id: AccountId,
}

pub ghost struct SharedGroupView {
    pub label: Seq<char>,
    pub account_id: AccountIdView,
}

impl View for SharedGroup {
    type V = SharedGroupView;

    open spec fn view(&self) -> SharedGroupView {
        SharedGroupView { label: self.label@, account_id: self.account_id@ }
    }
}

/// The text form of a shared group: `label.account_label.audience`.
pub open spec fn group_text(g: SharedGroupView) -> Seq<char> {
    g.label + seq!['.'] + account_text(g.account_id)
}

impl SharedGroup {
    pub fn new(label: &str, account_id: AccountId) -> (r: SharedGroup)
        ensures
            r@ == (SharedGroupView { label: label@, account_id: account_id@ }),
    {
        SharedGroup { label: label.to_owned(), account_id }
    }
}

/// What is needed to start an agent on the broker.
pub struct AgentBuilder {
    pub agent_id: AgentId,
    pub backend_account_id: AccountId,
}

impl AgentBuilder {
    pub fn new(agent_id: AgentId, backend_account_id: AccountId) -> (r: AgentBuilder)
        ensures
            r.agent_id@ == agent_id@,
            r.backend_account_id@ == backend_account_id@,
    {
        AgentBuilder { agent_id, backend_account_id }
    }

    /// The broker client id of an agent: `v1.mqtt3/agents/<agent id>`.
    pub fn mqtt_client_id(agent_id: &AgentId) -> (r: String)
        ensures
            r@ == "v1.mqtt3/agents/"@ + agent_text(agent_id@),
    {
        let mut out = String::new();
        append_str(&mut out, "v1.mqtt3/agents/");
        agent_id.write_to(&mut out);
        assert(out@ =~= "v1.mqtt3/agents/"@ + agent_text(agent_id@));
        out
    }
}

/// An agent started on the broker, as the topics it uses see it.
pub struct Agent {
    pub id: AgentId,
    pub backend_account_id: AccountId,
}

impl Agent {
    pub fn new(id: AgentId, backend_account_id: AccountId) -> (r: Agent)
        ensures
            r.id@ == id@,
            r.backend_account_id@ == backend_account_id@,
    {
        Agent { id, backend_account_id }
    }

    /// The topic on which the backend agent receives this application's requests.
    pub fn backend_input_topic(&self, backend_agent_id: &AgentId) -> (r: String)
        ensures
            r@ == inbox_topic(backend_agent_id@, self.id.account_id@),
    {
        inbox_topic_of(backend_agent_id, &self.id.account_id)
    }

    /// The subscription, shared by `group`, to the backend's responses.
    pub fn backend_responses_subscription(&self, group: &SharedGroup) -> (r: String)
        ensures
            r@ == "$share/"@ + group_text(group@) + "/apps/"@ + account_text(
                self.backend_account_id@,
            ) + "/api/v1/responses"@,
    {
        let mut out = String::new();
        append_str(&mut out, "$share/");
        append_str(&mut out, group.label.as_str());
        append_str(&mut out, ".");
        group.account_id.write_to(&mut out);
        append_str(&mut out, "/apps/");
        self.backend_account_id.write_to(&mut out);
        append_str(&mut out, "/api/v1/responses");
        proof {
            reveal_strlit(".");
        }
        assert(out@ =~= "$share/"@ + group_text(group@) + "/apps/"@ + account_text(
            self.backend_account_id@,
        ) + "/api/v1/responses"@);
        out
    }
}

} // verus!

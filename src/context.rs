use vstd::prelude::*;

use crate::envelope::{
    OutgoingResponse, OutgoingResponseView, RequestProperties,
    RequestPropertiesView, ResponseBody, ResponseBodyView,
};
use crate::ids::AgentId;
use crate::timing::{clamp_i64, ShortTermTiming};
use crate::topics::{inbox_topic, inbox_topic_of};

verus! {

/// What a handler knows of the dispatch it runs in.
pub struct Context {
    /// The agent id of this service instance.
    pub agent_id: AgentId,
    /// When the dispatch of the current envelope began (ms of unix time).
    pub start_timestamp: i64,
    /// The present moment (ms of unix time).
    pub now: i64,
    /// Whether a stats sink collects counters.
    pub dynamic_stats: bool,
}

/// The timing of the current hop: from the start of the dispatch until now.
pub open spec fn hop_timing(ctx: Context) -> ShortTermTiming {
    ShortTermTiming { timestamp: ctx.now, processing_time: clamp_i64(ctx.now - ctx.start_timestamp) }
}

/// A response to the request with properties `reqp`.
pub open spec fn response_view(
    ctx: Context,
    reqp: RequestPropertiesView,
    status: u16,
    body: ResponseBodyView,
) -> OutgoingResponseView {
    let hop = hop_timing(ctx);
    OutgoingResponseView {
        topic: inbox_topic(reqp.agent_id, ctx.agent_id.account_id@),
        status,
        body,
        correlation_data: reqp.correlation_data,
        tracking_id: reqp.tracking_id,
        long_term_timing: reqp.long_term_timing.after_hop(hop),
        short_term_timing: hop,
    }
}

impl Context {
    pub fn new(agent_id: AgentId, start_timestamp: i64, now: i64, dynamic_stats: bool) -> (r: Context)
        ensures
            r.agent_id@ == agent_id@,
            r.start_timestamp == start_timestamp,
            r.now == now,
            r.dynamic_stats == dynamic_stats,
    {
        Context { agent_id, start_timestamp, now, dynamic_stats }
    }

    /// The timing of the current hop.
    pub fn hop(&self) -> (r: ShortTermTiming)
        ensures
            r == hop_timing(*self),
    {
        ShortTermTiming::until_now(self.start_timestamp, self.now)
    }

    /// A response to the request with properties `reqp`, sent back to the requester.
    pub fn respond(&self, reqp: &RequestProperties, status: u16, body: ResponseBody) -> (r: OutgoingResponse)
        ensures
            r@ == response_view(*self, reqp@, status, body@),
    {
        let hop = self.hop();
        OutgoingResponse {
            topic: inbox_topic_of(&reqp.agent_id, &self.agent_id.account_id),
            status,
            body,
            correlation_data: reqp.correlation_data.clone(),
            tracking_id: reqp.tracking_id.clone(),
            long_term_timing: reqp.long_term_timing.update_cumulative_timings(&hop),
            short_term_timing: hop,
        }
    }
}

} // verus!

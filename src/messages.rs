//! Requests and statuses exchanged with an escrow agent, and the agent's interface.
use vstd::prelude::*;

verus! {

/// The bounty an adjudication request asks the oracle to rule on.
pub struct BountyTemplate {
    /// The identifier under which the oracle event is to be announced once approved.
    pub oracle_event_id: String,
    pub title: String,
    pub description: String,
}

pub struct AdjudicationRequest {
    pub bounty_template: BountyTemplate,
}

/// Where a request stands in review.
#[derive(Clone, Copy, Debug, PartialEq, Eq, Structural)]
pub enum AdjudicationRequestState {
    Approved,
    Denied,
    InReview,
}

pub struct AdjudicationRequestStatus {
    /// The event ID of the bounty. It only names an announced event once the request
    /// is approved (see `adjudication_state`).
    pub oracle_event_id: String,
    pub adjudication_state: AdjudicationRequestState,
}

/// An agent that reviews adjudication requests, one per oracle event id.
pub trait EscrowAgent: Sized {
    /// The template and state of every request the agent holds, by event id.
    spec fn adjudication_requests(&self) -> Map<Seq<char>, (BountyTemplate, AdjudicationRequestState)>;

    /// The agent's own consistency, which its operations keep.
    spec fn agent_wf(&self) -> bool;

    /// Files a request in review under its template's event id; a second request for an
    /// id that is already held is refused and changes nothing, the held request included.
    fn request_adjudication(&mut self, adjudication_request: AdjudicationRequest) -> (r: Result<
        AdjudicationRequestStatus,
        String,
    >)
        requires
            old(self).agent_wf(),
        ensures
            final(self).agent_wf(),
            ({
                let id = adjudication_request.bounty_template.oracle_event_id@;
                if old(self).adjudication_requests().contains_key(id) {
                    &&& r is Err
                    &&& *final(self) == *old(self)
                } else {
                    &&& r matches Ok(s) && s.oracle_event_id@ == id && s.adjudication_state
                        == AdjudicationRequestState::InReview
                    &&& final(self).adjudication_requests() == old(
                        self,
                    ).adjudication_requests().insert(
                        id,
                        (adjudication_request.bounty_template, AdjudicationRequestState::InReview),
                    )
                }
            }),
    ;

    /// The status of the request held under `event_id`, if any.
    fn get_adjudication_request_status(&self, event_id: &str) -> (r: Result<
        AdjudicationRequestStatus,
        String,
    >)
        requires
            self.agent_wf(),
        ensures
            self.adjudication_requests().contains_key(event_id@) <==> r is Ok,
            r matches Ok(s) ==> s.oracle_event_id@ == event_id@ && s.adjudication_state
                == self.adjudication_requests()[event_id@].1,
    ;
}

} // verus!

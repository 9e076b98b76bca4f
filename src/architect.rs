use vstd::prelude::*;
use vstd::string::StringExecFns;

use crate::agent::{AgentState, BasicAgent};
use crate::fact_sheet::{FactSheet, ProjectScope};
use crate::validator::{any_condemned, any_unreachable, prune_urls, pruned, texts, ProbeOutcome};

verus! {

/// What the architect needs done next by whoever drives it.
#[derive(Debug, Clone, Copy, PartialEq, Eq, Structural)]
pub enum ArchitectAction {
    /// Ask the model for the project scope of the fact sheet's description.
    RequestScope,
    /// Ask the model for the external URLs the project needs.
    RequestUrls,
    /// Probe each URL of the fact sheet and report the outcomes in order.
    ProbeUrls,
    /// The run is over.
    Done,
}

/// How far an action is from the end of a run.
pub open spec fn action_rank(a: ArchitectAction) -> nat {
    match a {
        ArchitectAction::RequestScope => 3,
        ArchitectAction::RequestUrls => 2,
        ArchitectAction::ProbeUrls => 1,
        ArchitectAction::Done => 0,
    }
}

/// The action that follows the answer to `a`, where `urls_required` is what
/// the scope said about external URLs.
pub open spec fn follows(a: ArchitectAction, urls_required: bool) -> ArchitectAction {
    match a {
        ArchitectAction::RequestScope => if urls_required {
            ArchitectAction::RequestUrls
        } else {
            ArchitectAction::Done
        },
        ArchitectAction::RequestUrls => ArchitectAction::ProbeUrls,
        _ => ArchitectAction::Done,
    }
}

/// Every answer moves a run strictly closer to its end, so a run from any
/// action ends after at most three answers, whatever the scope says.
pub proof fn lemma_execute_terminates(a: ArchitectAction, urls_required: bool)
    ensures
        a != ArchitectAction::Done ==> action_rank(follows(a, urls_required)) < action_rank(a),
        follows(follows(follows(a, urls_required), urls_required), urls_required)
            == ArchitectAction::Done,
{
}

/// No answer leads back to `RequestScope`: within a run the scope is asked for
/// once, so `record_scope` writes it once, and the later steps leave it as it
/// is (their contracts keep `project_scope`).
pub proof fn lemma_scope_requested_once(a: ArchitectAction, urls_required: bool)
    ensures
        follows(a, urls_required) != ArchitectAction::RequestScope,
{
}

/// Two fact sheets agree on every field but `external_urls`.
pub open spec fn same_but_urls(a: FactSheet, b: FactSheet) -> bool {
    &&& a.project_description == b.project_description
    &&& a.project_scope == b.project_scope
    &&& a.backend_code == b.backend_code
    &&& a.api_endpoint_schema == b.api_endpoint_schema
}

/// Two agents agree on everything but their state.
pub open spec fn same_but_state(a: BasicAgent, b: BasicAgent) -> bool {
    &&& a.objective == b.objective
    &&& a.position == b.position
    &&& a.memory == b.memory
}

/// The agent that settles the project scope, finds the external resources the
/// project needs and drops those that are confirmed unreachable.
///
/// A run goes `Discovery -> UnitTesting -> Finished`, or straight from
/// `Discovery` to `Finished` when no external URLs are needed. Whoever drives
/// it performs each returned action and hands the answer to the matching
/// `record_` method.
#[derive(Debug, Clone)]
pub struct AgentSolutionArchitect {
    pub attributes: BasicAgent,
}

impl AgentSolutionArchitect {
    pub fn new() -> (r: Self)
        ensures
            r.attributes.state == AgentState::Discovery,
            r.attributes.position@ == "Solution Architect"@,
            r.attributes.objective@
                == "Gathers information and design solutions for website development"@,
            r.attributes.memory@.len() == 0,
    {
        let attributes = BasicAgent::new(
            String::from_str("Gathers information and design solutions for website development"),
            String::from_str("Solution Architect"),
        );
        Self { attributes }
    }

    pub fn get_attributes_from_agent(&self) -> (r: &BasicAgent)
        ensures
            *r == self.attributes,
    {
        &self.attributes
    }

    /// The first action of a run, from the agent's current state. A state
    /// this agent does not use ends the run.
    pub fn begin(&mut self) -> (r: ArchitectAction)
        ensures
            same_but_state(final(self).attributes, old(self).attributes),
            old(self).attributes.state == AgentState::Discovery ==> r
                == ArchitectAction::RequestScope && final(self).attributes.state
                == AgentState::Discovery,
            old(self).attributes.state == AgentState::UnitTesting ==> r == ArchitectAction::ProbeUrls
                && final(self).attributes.state == AgentState::UnitTesting,
            (old(self).attributes.state == AgentState::Working || old(self).attributes.state
                == AgentState::Finished) ==> r == ArchitectAction::Done
                && final(self).attributes.state == AgentState::Finished,
    {
        match self.attributes.state {
            AgentState::Discovery => ArchitectAction::RequestScope,
            AgentState::UnitTesting => ArchitectAction::ProbeUrls,
            _ => {
                self.attributes.update_state(AgentState::Finished);
                ArchitectAction::Done
            },
        }
    }

    /// Records the scope that answers `RequestScope`. The scope is written
    /// once; the run then asks for URLs if the scope needs them, and is
    /// finished otherwise. Scope is never asked for again in this run.
    pub fn record_scope(&mut self, fact_sheet: &mut FactSheet, scope: ProjectScope) -> (r:
        ArchitectAction)
        requires
            old(self).attributes.state == AgentState::Discovery,
        ensures
            final(fact_sheet).project_scope == Some(scope),
            final(fact_sheet).project_description == old(fact_sheet).project_description,
            final(fact_sheet).external_urls == old(fact_sheet).external_urls,
            final(fact_sheet).backend_code == old(fact_sheet).backend_code,
            final(fact_sheet).api_endpoint_schema == old(fact_sheet).api_endpoint_schema,
            same_but_state(final(self).attributes, old(self).attributes),
            r == follows(ArchitectAction::RequestScope, scope.is_external_urls_required),
            r != ArchitectAction::RequestScope,
            final(self).attributes.state == (if scope.is_external_urls_required {
                AgentState::Discovery
            } else {
                AgentState::Finished
            }),
    {
        fact_sheet.project_scope = Some(scope);
        if scope.is_external_urls_required {
            ArchitectAction::RequestUrls
        } else {
            self.attributes.update_state(AgentState::Finished);
            ArchitectAction::Done
        }
    }

    /// Records the URLs that answer `RequestUrls` and moves to unit testing.
    pub fn record_urls(&mut self, fact_sheet: &mut FactSheet, urls: Vec<String>) -> (r:
        ArchitectAction)
        requires
            old(self).attributes.state == AgentState::Discovery,
        ensures
            final(fact_sheet).external_urls == Some(urls),
            same_but_urls(*final(fact_sheet), *old(fact_sheet)),
            same_but_state(final(self).attributes, old(self).attributes),
            final(self).attributes.state == AgentState::UnitTesting,
            r == follows(ArchitectAction::RequestUrls, true),
    {
        fact_sheet.external_urls = Some(urls);
        self.attributes.update_state(AgentState::UnitTesting);
        ArchitectAction::ProbeUrls
    }

    /// Records the probe outcomes that answer `ProbeUrls`, one per URL in
    /// order, and finishes. The URL list is replaced by its pruned form only
    /// when some probe confirmed a URL unreachable; otherwise it is left as it
    /// was, not rewritten.
    pub fn record_probes(&mut self, fact_sheet: &mut FactSheet, outcomes: &Vec<ProbeOutcome>) -> (r:
        ArchitectAction)
        requires
            old(self).attributes.state == AgentState::UnitTesting,
            old(fact_sheet).external_urls is Some,
            outcomes@.len() == old(fact_sheet).external_urls->0@.len(),
        ensures
            final(fact_sheet).external_urls is Some,
            any_condemned(outcomes@) ==> texts(final(fact_sheet).external_urls->0@) == pruned(
                texts(old(fact_sheet).external_urls->0@),
                outcomes@,
            ),
            !any_condemned(outcomes@) ==> final(fact_sheet).external_urls == old(
                fact_sheet,
            ).external_urls,
            same_but_urls(*final(fact_sheet), *old(fact_sheet)),
            same_but_state(final(self).attributes, old(self).attributes),
            final(self).attributes.state == AgentState::Finished,
            r == follows(ArchitectAction::ProbeUrls, true),
    {
        if any_unreachable(outcomes) {
            let kept = match &fact_sheet.external_urls {
                Some(urls) => prune_urls(urls, outcomes),
                None => Vec::new(),
            };
            fact_sheet.external_urls = Some(kept);
        }
        self.attributes.update_state(AgentState::Finished);
        ArchitectAction::Done
    }
}

} // verus!

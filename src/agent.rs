use vstd::prelude::*;
use vstd::string::StringExecFns;

verus! {

/// The stage an agent has reached within one run.
#[derive(Debug, Clone, Copy, PartialEq, Eq, Structural)]
pub enum AgentState {
    Discovery,
    Working,
    UnitTesting,
    Finished,
}

/// One turn of a conversation with the language model.
#[derive(Debug, Clone)]
pub struct Message {
    pub role: String,
    pub content: String,
}

impl Message {
    /// A message with the given role and text.
    pub fn new(role: &str, content: String) -> (r: Message)
        ensures
            r.role@ == role@,
            r.content == content,
    {
        Message { role: String::from_str(role), content }
    }

    /// A field-by-field copy of this message.
    pub fn duplicate(&self) -> (r: Message)
        ensures
            r == *self,
    {
        Message { role: self.role.clone(), content: self.content.clone() }
    }
}

/// What every agent carries: its goal, its role label, its stage and the
/// conversation so far.
#[derive(Debug, Clone)]
pub struct BasicAgent {
    pub objective: String,
    pub position: String,
    pub state: AgentState,
    pub memory: Vec<Message>,
}

impl BasicAgent {
    /// A fresh agent: in `Discovery`, with an empty memory.
    pub fn new(objective: String, position: String) -> (r: BasicAgent)
        ensures
            r.objective == objective,
            r.position == position,
            r.state == AgentState::Discovery,
            r.memory@.len() == 0,
    {
        BasicAgent { objective, position, state: AgentState::Discovery, memory: Vec::new() }
    }

    /// Moves the agent to `new_state`; nothing else changes.
    pub fn update_state(&mut self, new_state: AgentState)
        ensures
            *final(self) == (BasicAgent { state: new_state, ..*old(self) }),
    {
        self.state = new_state;
    }

    /// Appends a message to the memory, which only ever grows.
    pub fn remember(&mut self, message: Message)
        ensures
            final(self).memory@ == old(self).memory@.push(message),
            final(self).objective == old(self).objective,
            final(self).position == old(self).position,
            final(self).state == old(self).state,
    {
        self.memory.push(message);
    }

    pub fn get_objective(&self) -> (r: &String)
        ensures
            *r == self.objective,
    {
        &self.objective
    }

    pub fn get_position(&self) -> (r: &String)
        ensures
            *r == self.position,
    {
        &self.position
    }

    pub fn get_state(&self) -> (r: &AgentState)
        ensures
            *r == self.state,
    {
        &self.state
    }

    pub fn get_memory(&self) -> (r: &Vec<Message>)
        ensures
            *r == self.memory,
    {
        &self.memory
    }
}

} // verus!

//! The signed-in agents, stored by browser session id.

use vstd::prelude::*;
use vstd::hash_map::StringHashMap;

verus! {

/// Agents stored by the id of the browser session they were signed in from.
#[verifier::reject_recursive_types(A)]
pub struct AgentStore<A> {
    by_session: StringHashMap<A>,
}

impl<A> View for AgentStore<A> {
    type V = Map<Seq<char>, A>;

    closed spec fn view(&self) -> Map<Seq<char>, A> {
        self.by_session@
    }
}

impl<A> AgentStore<A> {
    /// A store with no agents.
    pub fn new() -> (r: AgentStore<A>)
        ensures
            r@ == Map::<Seq<char>, A>::empty(),
    {
        AgentStore { by_session: StringHashMap::new() }
    }

    /// Stores `agent` under `session_id`, replacing any agent stored there.
    pub fn insert(&mut self, session_id: String, agent: A)
        ensures
            final(self)@ == old(self)@.insert(session_id@, agent),
    {
        self.by_session.insert(session_id, agent);
    }

    /// The agent stored under `session_id`, if any.
    pub fn get(&self, session_id: &str) -> (r: Option<&A>)
        ensures
            match r {
                Some(a) => self@.contains_key(session_id@) && *a == self@[session_id@],
                None => !self@.contains_key(session_id@),
            },
    {
        self.by_session.get(session_id)
    }

    /// Forgets the agent stored under `session_id` (signing out).
    pub fn remove(&mut self, session_id: &str)
        ensures
            final(self)@ == old(self)@.remove(session_id@),
    {
        self.by_session.remove(session_id);
    }
}

/// An agent stored under a session id is the one found there until that id
/// is stored over or removed; storing or removing under another id leaves
/// it alone, and after removal nothing is found there.
pub proof fn lemma_agent_store_reads_back<A>(
    m: Map<Seq<char>, A>,
    id: Seq<char>,
    other: Seq<char>,
    agent: A,
    another: A,
)
    requires
        id != other,
    ensures
        m.insert(id, agent).contains_key(id) && m.insert(id, agent)[id] == agent,
        m.insert(id, agent).insert(other, another)[id] == agent,
        m.insert(id, agent).remove(other)[id] == agent,
        !m.insert(id, agent).remove(id).contains_key(id),
{
}

} // verus!

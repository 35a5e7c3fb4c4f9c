//! Binding a workflow's short roles to agent profiles.
use crate::text_map::TextMap;
use crate::workflow::agent::AgentProfile;
use crate::workflow::compile::{CompiledNode, CompiledWorkflow, NodeAction};
use vstd::prelude::*;

verus! {

/// A failure to add a profile to a set: two profiles fulfil the same role.
#[derive(Debug, Clone, PartialEq, Eq)]
pub enum AgentProfileSetError {
    AmbiguousRole { role: String, first: String, second: String },
}

/// A role a workflow references that no loaded profile fulfils.
#[derive(Debug, Clone, PartialEq, Eq)]
pub struct UnresolvedRole {
    /// The step whose agent names the role.
    pub step: String,
    /// The unresolved role.
    pub role: String,
}

impl View for UnresolvedRole {
    type V = (Seq<char>, Seq<char>);

    open spec fn view(&self) -> (Seq<char>, Seq<char>) {
        (self.step@, self.role@)
    }
}

/// A set of agent profiles indexed by the role each fulfils.
#[derive(Debug, Clone)]
pub struct AgentProfileSet {
    by_role: TextMap<AgentProfile>,
}

/// The step and role of every agent node among the first `n` whose role is not in
/// `known`, in compiled order.
pub open spec fn unresolved(
    nodes: Seq<CompiledNode>,
    known: Set<Seq<char>>,
    n: int,
) -> Seq<(Seq<char>, Seq<char>)>
    decreases n,
{
    if n <= 0 {
        Seq::empty()
    } else {
        let rest = unresolved(nodes, known, n - 1);
        match nodes[n - 1].action {
            NodeAction::Agent { role, model_policy, skill } => if known.contains(role@) {
                rest
            } else {
                rest.push((nodes[n - 1].id@, role@))
            },
            NodeAction::Tool { name } => rest,
        }
    }
}

impl View for AgentProfileSet {
    type V = Map<Seq<char>, AgentProfile>;

    closed spec fn view(&self) -> Map<Seq<char>, AgentProfile> {
        self.by_role@
    }
}

impl AgentProfileSet {
    /// Whether every profile is filed under the role it fulfils.
    pub open spec fn well_indexed(self) -> bool {
        forall|role: Seq<char>|
            self@.dom().contains(role) ==> crate::workflow::agent::role_of(#[trigger] self@[role])
                == role
    }

    /// The number of profiles.
    pub open spec fn count(self) -> nat {
        self@.dom().len()
    }

    /// The roles in ascending order.
    pub closed spec fn role_list(self) -> Seq<Seq<char>> {
        crate::text_map::entry_keys(self.by_role.listed())
    }

    /// An empty set: every role is unresolved until profiles are added.
    pub fn new() -> (r: Self)
        ensures
            r@ == Map::<Seq<char>, AgentProfile>::empty(),
            r.well_indexed(),
            r.count() == 0,
    {
        AgentProfileSet { by_role: TextMap::new() }
    }

    /// Adds one profile under the role it fulfils. A role resolves to exactly one
    /// profile: a second one for it is refused and the set stays as it was.
    pub fn insert(&mut self, profile: AgentProfile) -> (r: Result<(), AgentProfileSetError>)
        ensures
            ({
                let role = crate::workflow::agent::role_of(profile);
                match r {
                    Ok(_) => {
                        &&& !old(self)@.dom().contains(role)
                        &&& final(self)@ == old(self)@.insert(role, profile)
                    },
                    Err(AgentProfileSetError::AmbiguousRole { role: named, first, second }) => {
                        &&& old(self)@.dom().contains(role)
                        &&& *final(self) == *old(self)
                        &&& named@ == role
                        &&& first@ == old(self)@[role].id@
                        &&& second@ == profile.id@
                    },
                }
            }),
            old(self).well_indexed() ==> final(self).well_indexed(),
    {
        let role: String = profile.fulfilled_role().to_owned();
        match self.by_role.get(&role) {
            Some(existing) => {
                let first: String = existing.id.clone();
                Err(
                    AgentProfileSetError::AmbiguousRole {
                        role,
                        first,
                        second: profile.id.clone(),
                    },
                )
            },
            None => {
                self.by_role.insert(role, profile);
                Ok(())
            },
        }
    }

    /// The profile fulfilling `role`, if one is loaded.
    pub fn resolve(&self, role: &str) -> (r: Option<&AgentProfile>)
        ensures
            r is Some <==> self@.dom().contains(role@),
            r matches Some(p) ==> *p == self@[role@],
    {
        self.by_role.get(role)
    }

    /// Whether a profile fulfils `role`.
    pub fn has_role(&self, role: &str) -> (r: bool)
        ensures
            r == self@.dom().contains(role@),
    {
        self.by_role.contains_key(role)
    }

    /// The number of loaded profiles, one per fulfilled role.
    pub fn len(&self) -> (r: usize)
        ensures
            self@.dom().finite(),
            r == self@.dom().len(),
            r == self.count(),
            r == self.role_list().len(),
    {
        self.by_role.len()
    }

    /// Whether the set is empty.
    pub fn is_empty(&self) -> (r: bool)
        ensures
            self@.dom().finite(),
            r == (self.count() == 0),
            r == (self@.dom() =~= Set::<Seq<char>>::empty()),
    {
        let count: usize = self.by_role.len();
        let entries: &Vec<(String, AgentProfile)> = self.by_role.entries();
        proof {
            self.by_role.lemma_dom();
            let keys = crate::text_map::entry_keys(entries@);
            if keys.len() > 0 {
                assert(keys.contains(keys[0]));
                assert(self@.dom().contains(keys[0]));
            } else {
                assert forall|k: Seq<char>| !#[trigger] self@.dom().contains(k) by {
                    assert(!keys.contains(k));
                }
            }
        }
        count == 0
    }

    /// The roles this set fulfils, sorted.
    pub fn roles(&self) -> (r: Vec<String>)
        ensures
            crate::text::texts(r@) == self.role_list(),
            crate::text_map::ascending(self.role_list()),
            forall|role: Seq<char>|
                #[trigger] self.role_list().contains(role) <==> self@.dom().contains(role),
    {
        let entries: &Vec<(String, AgentProfile)> = self.by_role.entries();
        let mut out: Vec<String> = Vec::new();
        let mut i: usize = 0;
        while i < entries.len()
            invariant
                i <= entries@.len(),
                out@.len() == i,
                forall|k: int| 0 <= k < i ==> (#[trigger] out@[k])@ == entries@[k].0@,
            decreases entries@.len() - i,
        {
            out.push(entries[i].0.clone());
            i = i + 1;
        }
        proof {
            assert(crate::text::texts(out@) =~= crate::text_map::entry_keys(entries@));
            self.by_role.lemma_dom();
        }
        out
    }

    /// Every agent node in `compiled` whose role no loaded profile fulfils, in compiled
    /// order. Tool nodes carry no role and are never returned.
    pub fn unresolved_roles(&self, compiled: &CompiledWorkflow) -> (r: Vec<UnresolvedRole>)
        ensures
            r@.map_values(|u: UnresolvedRole| u@) == unresolved(
                compiled.nodes@,
                self@.dom(),
                compiled.nodes@.len() as int,
            ),
    {
        let mut out: Vec<UnresolvedRole> = Vec::new();
        let mut k: usize = 0;
        proof {
            assert(out@.map_values(|u: UnresolvedRole| u@) =~= unresolved(
                compiled.nodes@,
                self@.dom(),
                0,
            ));
        }
        while k < compiled.nodes.len()
            invariant
                k <= compiled.nodes@.len(),
                out@.map_values(|u: UnresolvedRole| u@) == unresolved(
                    compiled.nodes@,
                    self@.dom(),
                    k as int,
                ),
            decreases compiled.nodes@.len() - k,
        {
            let node: &CompiledNode = &compiled.nodes[k];
            if let NodeAction::Agent { role, model_policy: _, skill: _ } = &node.action {
                if !self.has_role(role) {
                    let ghost before = out@;
                    out.push(UnresolvedRole { step: node.id.clone(), role: role.clone() });
                    proof {
                        assert(out@.map_values(|u: UnresolvedRole| u@) =~= before.map_values(
                            |u: UnresolvedRole| u@,
                        ).push((node.id@, role@)));
                    }
                }
            }
            k = k + 1;
        }
        out
    }
}

impl Default for AgentProfileSet {
    fn default() -> (r: Self)
        ensures
            r@ == Map::<Seq<char>, AgentProfile>::empty(),
            r.well_indexed(),
            r.count() == 0,
    {
        AgentProfileSet::new()
    }
}

} // verus!

//! The names a workflow may refer to: tools, skills and agent roles.
use crate::text_map::TextMap;
use vstd::prelude::*;

verus! {

/// A lookup over the names a workflow may reference. Each method answers whether a
/// usable item with this exact name exists; the registry is a snapshot, so a lookup is
/// a pure membership test.
pub trait WorkflowRegistry {
    spec fn knows_tool(&self, name: Seq<char>) -> bool;

    spec fn knows_skill(&self, name: Seq<char>) -> bool;

    spec fn knows_agent_role(&self, role: Seq<char>) -> bool;

    /// Whether a tool with this name is registered.
    fn has_tool(&self, name: &str) -> (r: bool)
        ensures
            r == self.knows_tool(name@),
    ;

    /// Whether a skill with this name is registered.
    fn has_skill(&self, name: &str) -> (r: bool)
        ensures
            r == self.knows_skill(name@),
    ;

    /// Whether an agent role with this name is known.
    fn has_agent_role(&self, role: &str) -> (r: bool)
        ensures
            r == self.knows_agent_role(role@),
    ;
}

/// An in-memory [`WorkflowRegistry`] over three name sets.
#[derive(Debug, Clone)]
pub struct SetRegistry {
    tools: TextMap<()>,
    skills: TextMap<()>,
    roles: TextMap<()>,
}

/// `set` with every string of `names` added.
pub open spec fn with_all(set: Set<Seq<char>>, names: Seq<String>) -> Set<Seq<char>>
    decreases names.len(),
{
    if names.len() == 0 {
        set
    } else {
        with_all(set, names.drop_last()).insert(names.last()@)
    }
}

fn add_all(set: &mut TextMap<()>, names: Vec<String>)
    ensures
        final(set)@.dom() == with_all(old(set)@.dom(), names@),
{
    let mut k: usize = 0;
    proof {
        assert(with_all(set@.dom(), names@.take(0)) =~= set@.dom());
    }
    let ghost before = set@.dom();
    while k < names.len()
        invariant
            k <= names@.len(),
            set@.dom() == with_all(before, names@.take(k as int)),
        decreases names@.len() - k,
    {
        set.insert(names[k].clone(), ());
        proof {
            assert(names@.take(k + 1).drop_last() =~= names@.take(k as int));
            assert(set@.dom() =~= with_all(before, names@.take(k + 1)));
        }
        k = k + 1;
    }
    proof {
        assert(names@.take(names@.len() as int) =~= names@);
    }
}

impl SetRegistry {
    pub closed spec fn tools(self) -> Set<Seq<char>> {
        self.tools@.dom()
    }

    pub closed spec fn skills(self) -> Set<Seq<char>> {
        self.skills@.dom()
    }

    pub closed spec fn roles(self) -> Set<Seq<char>> {
        self.roles@.dom()
    }

    /// An empty registry: every lookup fails until names are added.
    pub fn new() -> (r: Self)
        ensures
            r.tools() == Set::<Seq<char>>::empty(),
            r.skills() == Set::<Seq<char>>::empty(),
            r.roles() == Set::<Seq<char>>::empty(),
    {
        let r = SetRegistry { tools: TextMap::new(), skills: TextMap::new(), roles: TextMap::new() };
        proof {
            assert(r.tools() =~= Set::<Seq<char>>::empty());
            assert(r.skills() =~= Set::<Seq<char>>::empty());
            assert(r.roles() =~= Set::<Seq<char>>::empty());
        }
        r
    }

    /// Registers a known tool name.
    pub fn with_tool(self, name: &str) -> (r: Self)
        ensures
            r.tools() == self.tools().insert(name@),
            r.skills() == self.skills(),
            r.roles() == self.roles(),
    {
        let mut r: SetRegistry = self;
        r.tools.insert(name.to_owned(), ());
        proof {
            assert(r.tools() =~= self.tools().insert(name@));
        }
        r
    }

    /// Registers a known skill name.
    pub fn with_skill(self, name: &str) -> (r: Self)
        ensures
            r.tools() == self.tools(),
            r.skills() == self.skills().insert(name@),
            r.roles() == self.roles(),
    {
        let mut r: SetRegistry = self;
        r.skills.insert(name.to_owned(), ());
        proof {
            assert(r.skills() =~= self.skills().insert(name@));
        }
        r
    }

    /// Registers a known agent role.
    pub fn with_agent_role(self, role: &str) -> (r: Self)
        ensures
            r.tools() == self.tools(),
            r.skills() == self.skills(),
            r.roles() == self.roles().insert(role@),
    {
        let mut r: SetRegistry = self;
        r.roles.insert(role.to_owned(), ());
        proof {
            assert(r.roles() =~= self.roles().insert(role@));
        }
        r
    }

    /// Registers every tool name in `names`.
    pub fn add_tools(&mut self, names: Vec<String>)
        ensures
            final(self).tools() == with_all(old(self).tools(), names@),
            final(self).skills() == old(self).skills(),
            final(self).roles() == old(self).roles(),
    {
        add_all(&mut self.tools, names);
    }

    /// Registers every skill name in `names`.
    pub fn add_skills(&mut self, names: Vec<String>)
        ensures
            final(self).tools() == old(self).tools(),
            final(self).skills() == with_all(old(self).skills(), names@),
            final(self).roles() == old(self).roles(),
    {
        add_all(&mut self.skills, names);
    }

    /// Registers every agent role in `roles`.
    pub fn add_agent_roles(&mut self, roles: Vec<String>)
        ensures
            final(self).tools() == old(self).tools(),
            final(self).skills() == old(self).skills(),
            final(self).roles() == with_all(old(self).roles(), roles@),
    {
        add_all(&mut self.roles, roles);
    }
}

impl Default for SetRegistry {
    fn default() -> (r: Self)
        ensures
            r.tools() == Set::<Seq<char>>::empty(),
            r.skills() == Set::<Seq<char>>::empty(),
            r.roles() == Set::<Seq<char>>::empty(),
    {
        SetRegistry::new()
    }
}

impl WorkflowRegistry for SetRegistry {
    open spec fn knows_tool(&self, name: Seq<char>) -> bool {
        self.tools().contains(name)
    }

    open spec fn knows_skill(&self, name: Seq<char>) -> bool {
        self.skills().contains(name)
    }

    open spec fn knows_agent_role(&self, role: Seq<char>) -> bool {
        self.roles().contains(role)
    }

    fn has_tool(&self, name: &str) -> (r: bool) {
        self.tools.contains_key(name)
    }

    fn has_skill(&self, name: &str) -> (r: bool) {
        self.skills.contains_key(name)
    }

    fn has_agent_role(&self, role: &str) -> (r: bool) {
        self.roles.contains_key(role)
    }
}

/// A borrowed registry defers to its owner.
impl<T: WorkflowRegistry + ?Sized> WorkflowRegistry for &T {
    open spec fn knows_tool(&self, name: Seq<char>) -> bool {
        (**self).knows_tool(name)
    }

    open spec fn knows_skill(&self, name: Seq<char>) -> bool {
        (**self).knows_skill(name)
    }

    open spec fn knows_agent_role(&self, role: Seq<char>) -> bool {
        (**self).knows_agent_role(role)
    }

    fn has_tool(&self, name: &str) -> (r: bool) {
        (**self).has_tool(name)
    }

    fn has_skill(&self, name: &str) -> (r: bool) {
        (**self).has_skill(name)
    }

    fn has_agent_role(&self, role: &str) -> (r: bool) {
        (**self).has_agent_role(role)
    }
}

/// Adding names one by one or all at once comes to the same: a name is known exactly
/// when it was known before or is among those added.
pub proof fn law_with_all(set: Set<Seq<char>>, names: Seq<String>, name: Seq<char>)
    ensures
        with_all(set, names).contains(name) <==> set.contains(name) || crate::text::texts(
            names,
        ).contains(name),
    decreases names.len(),
{
    if names.len() > 0 {
        law_with_all(set, names.drop_last(), name);
        let all = crate::text::texts(names);
        let front = crate::text::texts(names.drop_last());
        assert(all[names.len() - 1] == names.last()@);
        if all.contains(name) {
            let k = all.index_of(name);
            if k < front.len() {
                assert(front[k] == name);
            }
        }
        if front.contains(name) {
            let k = front.index_of(name);
            assert(all[k] == name);
        }
    }
}

} // verus!

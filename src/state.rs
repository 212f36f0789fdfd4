use vstd::prelude::*;

verus! {

/// Health points of an entity.
pub struct Health(pub i32);

/// Name of an entity.
pub struct Name(pub &'static str);

/// A store of entities: entity `i` has the components at index `i` of each list.
pub struct World {
    pub health_components: Vec<Option<Health>>,
    pub name_components: Vec<Option<Name>>,
}

impl World {
    /// A world without entities.
    pub fn new() -> (r: World)
        ensures
            r.health_components@ == Seq::<Option<Health>>::empty(),
            r.name_components@ == Seq::<Option<Name>>::empty(),
    {
        World { health_components: Vec::new(), name_components: Vec::new() }
    }

    /// Adds an entity with the given components, after all others.
    pub fn new_entity(&mut self, health: Option<Health>, name: Option<Name>)
        ensures
            final(self).health_components@ == old(self).health_components@.push(health),
            final(self).name_components@ == old(self).name_components@.push(name),
    {
        self.health_components.push(health);
        self.name_components.push(name);
    }
}

} // verus!

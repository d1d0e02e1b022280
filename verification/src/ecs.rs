//! The store of entities and their components.
//!
//! An entity is an identity and a list of components, and a component is
//! one of three kinds. The world keeps its entities in the order in which
//! they were created and each entity keeps its components in the order in
//! which they were given; every search goes through both in that order.
//!
//! The store does not look into what a component carries, so the carried
//! types are parameters: `M` a model, `T` a transform, `L` a light, `B` a
//! buffer and `G` a bind group of the renderer.

use std::rc::Rc;
use vstd::pervasive::unreached;
use vstd::prelude::*;

verus! {

broadcast use vstd::function::group_function_axioms;

/// The three kinds of component.
#[derive(Clone, Copy, Debug, PartialEq, Eq, Structural)]
pub enum Kind {
    Model,
    Transform,
    Light,
}

/// One piece of what an entity is made of.
pub enum Component<M, T, L, B, G> {
    /// A model, which many entities may share.
    Model(Rc<M>),
    /// A transform and the buffer it is drawn from.
    Transform(T, B),
    /// A light, with the buffer and the bind group it is read from.
    Light(L, B, G),
}

/// An identity and its components.
pub struct Entity<M, T, L, B, G> {
    id: u64,
    components: Vec<Component<M, T, L, B, G>>,
}

/// All entities, in the order in which they were created.
pub struct World<M, T, L, B, G> {
    entity_counter: u64,
    entities: Vec<Entity<M, T, L, B, G>>,
}

impl<M, T, L, B, G> Component<M, T, L, B, G> {
    pub open spec fn spec_kind(&self) -> Kind {
        match self {
            Component::Model(_) => Kind::Model,
            Component::Transform(_, _) => Kind::Transform,
            Component::Light(_, _, _) => Kind::Light,
        }
    }

    #[verifier::when_used_as_spec(spec_kind)]
    pub fn kind(&self) -> (kind: Kind)
        ensures
            kind == self.spec_kind(),
    {
        match self {
            Component::Model(_) => Kind::Model,
            Component::Transform(_, _) => Kind::Transform,
            Component::Light(_, _, _) => Kind::Light,
        }
    }
}

/// Whether `at` is the place of the first component of kind `kind` in
/// `components`.
pub open spec fn is_first<M, T, L, B, G>(
    components: Seq<Component<M, T, L, B, G>>,
    kind: Kind,
    at: int,
) -> bool {
    &&& 0 <= at < components.len()
    &&& components[at].spec_kind() == kind
    &&& forall|before: int| 0 <= before < at ==> (#[trigger] components[before]).spec_kind() != kind
}

/// The place of the first component of kind `kind` in `components`, if
/// there is one of that kind.
pub open spec fn first<M, T, L, B, G>(
    components: Seq<Component<M, T, L, B, G>>,
    kind: Kind,
) -> Option<int> {
    if exists|at: int| is_first(components, kind, at) {
        Some(choose|at: int| is_first(components, kind, at))
    } else {
        None
    }
}

/// `first` gives the one place that `is_first` accepts, and gives none
/// exactly when no component is of the kind.
pub proof fn lemma_first<M, T, L, B, G>(components: Seq<Component<M, T, L, B, G>>, kind: Kind)
    ensures
        forall|at: int|
            #[trigger] is_first(components, kind, at) <==> first(components, kind) == Some(at),
        first(components, kind).is_none() <==> forall|at: int|
            0 <= at < components.len() ==> (#[trigger] components[at]).spec_kind() != kind,
{
    assert forall|at: int| #[trigger] is_first(components, kind, at) implies first(
        components,
        kind,
    ) == Some(at) by {
        let chosen = choose|at: int| is_first(components, kind, at);
        assert(is_first(components, kind, chosen));
        if chosen < at {
            assert(components[chosen].spec_kind() != kind);
        }
        if at < chosen {
            assert(components[at].spec_kind() != kind);
        }
    }
    if forall|at: int|
        0 <= at < components.len() ==> (#[trigger] components[at]).spec_kind() != kind {
        assert(first(components, kind).is_none());
    } else {
        let some = choose|at: int|
            0 <= at < components.len() && (#[trigger] components[at]).spec_kind() == kind;
        lemma_some_is_first(components, kind, some);
    }
}

/// Where a component of the kind stands at `at`, there is a first one, at
/// or before `at`.
proof fn lemma_some_is_first<M, T, L, B, G>(
    components: Seq<Component<M, T, L, B, G>>,
    kind: Kind,
    at: int,
)
    requires
        0 <= at < components.len(),
        components[at].spec_kind() == kind,
    ensures
        exists|least: int| is_first(components, kind, least) && least <= at,
    decreases at,
{
    if exists|before: int| 0 <= before < at && (#[trigger] components[before]).spec_kind() == kind {
        let before = choose|before: int|
            0 <= before < at && (#[trigger] components[before]).spec_kind() == kind;
        lemma_some_is_first(components, kind, before);
    } else {
        assert(is_first(components, kind, at));
    }
}

impl<M, T, L, B, G> View for Entity<M, T, L, B, G> {
    type V = Seq<Component<M, T, L, B, G>>;

    /// The components, in the order in which they were given.
    closed spec fn view(&self) -> Seq<Component<M, T, L, B, G>> {
        self.components@
    }
}

impl<M, T, L, B, G> Entity<M, T, L, B, G> {
    /// The identity.
    pub closed spec fn spec_id(&self) -> u64 {
        self.id
    }

    #[verifier::when_used_as_spec(spec_id)]
    pub fn id(&self) -> (id: u64)
        ensures
            id == self.spec_id(),
    {
        self.id
    }

    pub fn components(&self) -> (components: &Vec<Component<M, T, L, B, G>>)
        ensures
            components@ == self@,
    {
        &self.components
    }

    /// The first model of the entity, if it has one.
    pub open spec fn model(&self) -> Option<Rc<M>> {
        match first(self@, Kind::Model) {
            Some(at) => match self@[at] {
                Component::Model(model) => Some(model),
                _ => None,
            },
            None => None,
        }
    }

    /// The first transform of the entity with its buffer, if it has one.
    pub open spec fn transform(&self) -> Option<(T, B)> {
        match first(self@, Kind::Transform) {
            Some(at) => match self@[at] {
                Component::Transform(transform, buffer) => Some((transform, buffer)),
                _ => None,
            },
            None => None,
        }
    }

    /// The first light of the entity with its buffer and its bind group,
    /// if it has one.
    pub open spec fn light(&self) -> Option<(L, B, G)> {
        match first(self@, Kind::Light) {
            Some(at) => match self@[at] {
                Component::Light(light, buffer, bind_group) => Some((light, buffer, bind_group)),
                _ => None,
            },
            None => None,
        }
    }

    /// Whether the entity can be drawn: it has a model and a transform.
    pub open spec fn is_renderable(&self) -> bool {
        self.model().is_some() && self.transform().is_some()
    }

    /// Whether the entity has a light.
    pub open spec fn is_lit(&self) -> bool {
        self.light().is_some()
    }

    /// An entity has a model, a transform or a light exactly when one of
    /// its components is of that kind.
    pub proof fn lemma_has_kind(&self)
        ensures
            self.model().is_some() <==> exists|at: int|
                0 <= at < self@.len() && (#[trigger] self@[at]).spec_kind() == Kind::Model,
            self.transform().is_some() <==> exists|at: int|
                0 <= at < self@.len() && (#[trigger] self@[at]).spec_kind() == Kind::Transform,
            self.light().is_some() <==> exists|at: int|
                0 <= at < self@.len() && (#[trigger] self@[at]).spec_kind() == Kind::Light,
    {
        lemma_first(self@, Kind::Model);
        lemma_first(self@, Kind::Transform);
        lemma_first(self@, Kind::Light);
    }
}

/// The place of the first component of kind `kind`.
fn first_of_kind<M, T, L, B, G>(components: &Vec<Component<M, T, L, B, G>>, kind: Kind) -> (r:
    Option<usize>)
    ensures
        match r {
            Some(at) => first(components@, kind) == Some(at as int),
            None => first(components@, kind).is_none(),
        },
{
    let mut at: usize = 0;
    while at < components.len()
        invariant
            at <= components@.len(),
            forall|before: int| 0 <= before < at ==> (#[trigger] components@[before]).spec_kind() != kind,
        decreases components@.len() - at,
    {
        if components[at].kind() == kind {
            proof {
                lemma_first(components@, kind);
            }
            return Some(at);
        }
        at += 1;
    }
    proof {
        lemma_first(components@, kind);
    }
    None
}

/// The places in `entities` of those that can be drawn, in rising order.
pub open spec fn renderable_places<M, T, L, B, G>(entities: Seq<Entity<M, T, L, B, G>>) -> Seq<int>
    decreases entities.len(),
{
    if entities.len() == 0 {
        Seq::empty()
    } else if entities.last().is_renderable() {
        renderable_places(entities.drop_last()).push(entities.len() - 1)
    } else {
        renderable_places(entities.drop_last())
    }
}

/// The places of the entities that can be drawn lie in the list, rise
/// strictly, and are those of all entities that have a model and a
/// transform and of no other: an entity that lacks either is not among them.
pub proof fn lemma_renderable_places<M, T, L, B, G>(entities: Seq<Entity<M, T, L, B, G>>)
    ensures
        renderable_places(entities).len() <= entities.len(),
        forall|n: int|
            0 <= n < renderable_places(entities).len() ==> {
                let place = #[trigger] renderable_places(entities)[n];
                0 <= place < entities.len() && entities[place].is_renderable()
            },
        forall|m: int, n: int|
            0 <= m < n < renderable_places(entities).len() ==> renderable_places(entities)[m]
                < renderable_places(entities)[n],
        forall|place: int|
            0 <= place < entities.len() && (#[trigger] entities[place]).is_renderable()
                ==> renderable_places(entities).contains(place),
    decreases entities.len(),
{
    if entities.len() > 0 {
        let earlier = entities.drop_last();
        let last = entities.len() - 1;
        lemma_renderable_places(earlier);
        let places = renderable_places(entities);
        assert forall|place: int|
            0 <= place < entities.len() && (#[trigger] entities[place]).is_renderable() implies places.contains(
            place,
        ) by {
            if place < last {
                assert(earlier[place].is_renderable());
                let n = choose|n: int|
                    0 <= n < renderable_places(earlier).len() && renderable_places(earlier)[n]
                        == place;
                assert(places[n] == place);
            } else {
                assert(places[places.len() - 1] == place);
            }
        }
    }
}

/// Whether `at` is the place of the first entity in `entities` that has a
/// light.
pub open spec fn is_first_lit<M, T, L, B, G>(entities: Seq<Entity<M, T, L, B, G>>, at: int) -> bool {
    &&& 0 <= at < entities.len()
    &&& entities[at].is_lit()
    &&& forall|before: int| 0 <= before < at ==> !(#[trigger] entities[before]).is_lit()
}

/// The place of the first entity in `entities` that has a light, if any
/// has one.
pub open spec fn first_lit<M, T, L, B, G>(entities: Seq<Entity<M, T, L, B, G>>) -> Option<int> {
    if exists|at: int| is_first_lit(entities, at) {
        Some(choose|at: int| is_first_lit(entities, at))
    } else {
        None
    }
}

/// `first_lit` gives the one place that `is_first_lit` accepts, and gives
/// none exactly when no entity has a light.
pub proof fn lemma_first_lit<M, T, L, B, G>(entities: Seq<Entity<M, T, L, B, G>>)
    ensures
        forall|at: int| #[trigger] is_first_lit(entities, at) <==> first_lit(entities) == Some(at),
        first_lit(entities).is_none() <==> forall|at: int|
            0 <= at < entities.len() ==> !(#[trigger] entities[at]).is_lit(),
{
    assert forall|at: int| #[trigger] is_first_lit(entities, at) implies first_lit(entities)
        == Some(at) by {
        let chosen = choose|at: int| is_first_lit(entities, at);
        assert(is_first_lit(entities, chosen));
        if chosen < at {
            assert(!entities[chosen].is_lit());
        }
        if at < chosen {
            assert(!entities[at].is_lit());
        }
    }
    if !(forall|at: int| 0 <= at < entities.len() ==> !(#[trigger] entities[at]).is_lit()) {
        let some = choose|at: int| 0 <= at < entities.len() && (#[trigger] entities[at]).is_lit();
        lemma_some_is_first_lit(entities, some);
    }
}

/// Where the entity at `at` has a light, there is a first one that has, at
/// or before `at`.
proof fn lemma_some_is_first_lit<M, T, L, B, G>(entities: Seq<Entity<M, T, L, B, G>>, at: int)
    requires
        0 <= at < entities.len(),
        entities[at].is_lit(),
    ensures
        exists|least: int| is_first_lit(entities, least) && least <= at,
    decreases at,
{
    if exists|before: int| 0 <= before < at && (#[trigger] entities[before]).is_lit() {
        let before = choose|before: int| 0 <= before < at && (#[trigger] entities[before]).is_lit();
        lemma_some_is_first_lit(entities, before);
    } else {
        assert(is_first_lit(entities, at));
    }
}

/// Calls `f` on each of `components`, from the first to the last.
fn visit_each<M, T, L, B, G, F: Fn(&Component<M, T, L, B, G>)>(
    components: &Vec<Component<M, T, L, B, G>>,
    f: &F,
)
    requires
        forall|at: int|
            0 <= at < components@.len() ==> call_requires(*f, (&#[trigger] components@[at],)),
    ensures
        forall|at: int|
            0 <= at < components@.len() ==> call_ensures(*f, (&#[trigger] components@[at],), ()),
{
    let mut at: usize = 0;
    while at < components.len()
        invariant
            at <= components@.len(),
            forall|at: int|
                0 <= at < components@.len() ==> call_requires(*f, (&#[trigger] components@[at],)),
            forall|done: int|
                0 <= done < at ==> call_ensures(*f, (&#[trigger] components@[done],), ()),
        decreases components@.len() - at,
    {
        f(&components[at]);
        at += 1;
    }
}

/// Whether `at` is a place in a list of `len`.
spec fn within(at: int, len: nat) -> bool {
    0 <= at < len
}

/// Calls `f` on each of `components`, from the first to the last, and lets
/// it change them in place.
fn visit_each_mut<M, T, L, B, G, F: FnMut(&mut Component<M, T, L, B, G>)>(
    components: &mut Vec<Component<M, T, L, B, G>>,
    f: &mut F,
)
    requires
        forall|component: &mut Component<M, T, L, B, G>|
            old(components)@.contains(*component) ==> #[trigger] call_requires(
                *old(f),
                (component,),
            ),
    ensures
        final(components)@.len() == old(components)@.len(),
        forall|at: int| #[trigger]
            within(at, old(components)@.len()) ==> exists|component: &mut Component<M, T, L, B, G>|
                {
                    &&& *component == old(components)@[at]
                    &&& *final(component) == final(components)@[at]
                    &&& #[trigger] call_ensures(*old(f), (component,), ())
                },
        *final(f) == *old(f),
{
    let mut at: usize = 0;
    while at < components.len()
        invariant
            *f == *old(f),
            components@.len() == old(components)@.len(),
            at <= components@.len(),
            forall|component: &mut Component<M, T, L, B, G>|
                old(components)@.contains(*component) ==> #[trigger] call_requires(
                    *old(f),
                    (component,),
                ),
            forall|done: int| #[trigger]
                within(done, at as nat) ==> exists|component: &mut Component<M, T, L, B, G>|
                    {
                        &&& *component == old(components)@[done]
                        &&& *final(component) == components@[done]
                        &&& #[trigger] call_ensures(*old(f), (component,), ())
                    },
            forall|ahead: int| at <= ahead < components@.len() ==> components@[ahead] == old(
                components,
            )@[ahead],
        decreases components@.len() - at,
    {
        let ghost before = components@;
        let ghost visited = at as nat;
        proof {
            assert(old(components)@.contains(before[at as int]));
        }
        let component = &mut components[at];
        f(component);
        at += 1;
        proof {
            assert forall|done: int| #[trigger] within(done, at as nat) implies exists|
                component: &mut Component<M, T, L, B, G>,
            |
                {
                    &&& *component == old(components)@[done]
                    &&& *final(component) == components@[done]
                    &&& #[trigger] call_ensures(*old(f), (component,), ())
                } by {
                if done < visited {
                    assert(within(done, visited));
                    assert(components@[done] == before[done]);
                }
            }
        }
    }
    proof {
        assert forall|done: int| #[trigger]
            within(done, old(components)@.len()) implies exists|
            component: &mut Component<M, T, L, B, G>,
        |
            {
                &&& *component == old(components)@[done]
                &&& *final(component) == components@[done]
                &&& #[trigger] call_ensures(*old(f), (component,), ())
            } by {
            assert(within(done, at as nat));
        }
    }
}

impl<M, T, L, B, G> View for World<M, T, L, B, G> {
    type V = Seq<Entity<M, T, L, B, G>>;

    /// The entities, in the order in which they were created.
    closed spec fn view(&self) -> Seq<Entity<M, T, L, B, G>> {
        self.entities@
    }
}

impl<M, T, L, B, G> World<M, T, L, B, G> {
    /// How many entities were created so far.
    pub closed spec fn spec_entity_counter(&self) -> u64 {
        self.entity_counter
    }

    /// Entities are numbered from one in the order of their creation, and
    /// none has been removed.
    pub open spec fn wf(&self) -> bool {
        &&& self.spec_entity_counter() == self@.len()
        &&& forall|at: int| 0 <= at < self@.len() ==> (#[trigger] self@[at]).spec_id() == at + 1
    }

    /// No two entities of a world have the same identity.
    pub proof fn lemma_identities_differ(&self, one: int, other: int)
        requires
            self.wf(),
            0 <= one < self@.len(),
            0 <= other < self@.len(),
            one != other,
        ensures
            self@[one].spec_id() != self@[other].spec_id(),
    {
    }

    /// The light of the world: the first light of the first entity that
    /// has one.
    pub open spec fn light(&self) -> Option<(L, B, G)> {
        match first_lit(self@) {
            Some(at) => self@[at].light(),
            None => None,
        }
    }

    /// What there is to draw: for each entity that has a model and a
    /// transform, in the order of the entities, its first model, its first
    /// transform and that transform's buffer.
    pub open spec fn renderables(&self) -> Seq<(Rc<M>, T, B)> {
        renderable_places(self@).map(
            |n: int, place: int|
                (
                    self@[place].model().unwrap(),
                    self@[place].transform().unwrap().0,
                    self@[place].transform().unwrap().1,
                ),
        )
    }

    /// Whether the world has an entity at `entity` with a component at
    /// `component`.
    pub open spec fn holds_at(&self, entity: int, component: int) -> bool {
        0 <= entity < self@.len() && 0 <= component < self@[entity]@.len()
    }

    /// A world without entities.
    pub fn new() -> (world: Self)
        ensures
            world@ == Seq::<Entity<M, T, L, B, G>>::empty(),
            world.wf(),
    {
        World { entity_counter: 0, entities: Vec::new() }
    }

    #[verifier::when_used_as_spec(spec_entity_counter)]
    pub fn entity_counter(&self) -> (count: u64)
        ensures
            count == self.spec_entity_counter(),
    {
        self.entity_counter
    }

    pub fn entities(&self) -> (entities: &Vec<Entity<M, T, L, B, G>>)
        ensures
            entities@ == self@,
    {
        &self.entities
    }

    /// Adds an entity made of `components`, under an identity that no
    /// entity of this world has.
    pub fn create_entity(&mut self, components: Vec<Component<M, T, L, B, G>>)
        requires
            old(self).wf(),
            old(self)@.len() < u64::MAX,
        ensures
            final(self).wf(),
            final(self)@.len() == old(self)@.len() + 1,
            final(self)@.drop_last() == old(self)@,
            final(self)@.last()@ == components@,
            final(self)@.last().spec_id() == old(self)@.len() + 1,
            forall|at: int|
                0 <= at < old(self)@.len() ==> (#[trigger] old(self)@[at]).spec_id()
                    != final(self)@.last().spec_id(),
    {
        self.entity_counter += 1;
        let entity = Entity { id: self.entity_counter, components };
        self.entities.push(entity);
        proof {
            assert(self@.drop_last() =~= old(self)@);
        }
    }

    /// Whether `component` is a component of some entity.
    pub open spec fn holds(&self, component: Component<M, T, L, B, G>) -> bool {
        exists|entity: int|
            0 <= entity < self@.len() && (#[trigger] self@[entity])@.contains(component)
    }

    /// Calls `f` on every component and lets it change the component in
    /// place: entity by entity in the order of their creation, and within
    /// an entity from its first component to its last. No entity gains or
    /// loses a component or changes its identity.
    pub fn do_on_components<F>(&mut self, f: &mut F) where
        F: FnMut(&mut Component<M, T, L, B, G>) -> (),

        requires
            forall|component: &mut Component<M, T, L, B, G>|
                old(self).holds(*component) ==> #[trigger] call_requires(*old(f), (component,)),
        ensures
            final(self)@.len() == old(self)@.len(),
            final(self).spec_entity_counter() == old(self).spec_entity_counter(),
            forall|entity: int|
                0 <= entity < old(self)@.len() ==> {
                    &&& (#[trigger] final(self)@[entity]).spec_id() == old(self)@[entity].spec_id()
                    &&& final(self)@[entity]@.len() == old(self)@[entity]@.len()
                },
            forall|entity: int, at: int| #[trigger]
                old(self).holds_at(entity, at) ==> exists|component: &mut Component<M, T, L, B, G>|
                    {
                        &&& *component == old(self)@[entity]@[at]
                        &&& *final(component) == final(self)@[entity]@[at]
                        &&& #[trigger] call_ensures(*old(f), (component,), ())
                    },
            old(self).wf() ==> final(self).wf(),
    {
        let mut entity: usize = 0;
        while entity < self.entities.len()
            invariant
                *f == *old(f),
                self@.len() == old(self)@.len(),
                self.spec_entity_counter() == old(self).spec_entity_counter(),
                entity <= self@.len(),
                forall|component: &mut Component<M, T, L, B, G>|
                    old(self).holds(*component) ==> #[trigger] call_requires(
                        *old(f),
                        (component,),
                    ),
                forall|any: int|
                    0 <= any < old(self)@.len() ==> {
                        &&& (#[trigger] self@[any]).spec_id() == old(self)@[any].spec_id()
                        &&& self@[any]@.len() == old(self)@[any]@.len()
                    },
                forall|done: int, at: int| #[trigger]
                    old(self).holds_at(done, at) && done < entity ==> exists|
                        component: &mut Component<M, T, L, B, G>,
                    |
                        {
                            &&& *component == old(self)@[done]@[at]
                            &&& *final(component) == self@[done]@[at]
                            &&& #[trigger] call_ensures(*old(f), (component,), ())
                        },
                forall|ahead: int|
                    entity <= ahead < self@.len() ==> self@[ahead] == old(self)@[ahead],
            decreases self@.len() - entity,
        {
            let ghost before = self@;
            let ghost visiting = entity as int;
            proof {
                assert forall|component: &mut Component<M, T, L, B, G>|
                    before[visiting]@.contains(*component) implies #[trigger] call_requires(
                    *old(f),
                    (component,),
                ) by {
                    assert(old(self)@[visiting]@.contains(*component));
                    assert(old(self).holds(*component));
                }
            }
            visit_each_mut(&mut self.entities[entity].components, f);
            entity += 1;
            proof {
                assert forall|done: int, at: int| #[trigger]
                    old(self).holds_at(done, at) && done < entity implies exists|
                    component: &mut Component<M, T, L, B, G>,
                |
                    {
                        &&& *component == old(self)@[done]@[at]
                        &&& *final(component) == self@[done]@[at]
                        &&& #[trigger] call_ensures(*old(f), (component,), ())
                    } by {
                    if done < visiting {
                        assert(self@[done] == before[done]);
                    } else {
                        assert(within(at, before[visiting]@.len()));
                    }
                }
            }
        }
    }

    /// Calls `f` on every component: entity by entity in the order of
    /// their creation, and within an entity from its first component to
    /// its last.
    pub fn do_with_components<F>(&self, f: F) where F: Fn(&Component<M, T, L, B, G>) -> ()
        requires
            forall|entity: int, at: int| #[trigger]
                self.holds_at(entity, at) ==> call_requires(f, (&self@[entity]@[at],)),
        ensures
            forall|entity: int, at: int| #[trigger]
                self.holds_at(entity, at) ==> call_ensures(f, (&self@[entity]@[at],), ()),
    {
        let mut entity: usize = 0;
        while entity < self.entities.len()
            invariant
                entity <= self@.len(),
                forall|entity: int, at: int| #[trigger]
                    self.holds_at(entity, at) ==> call_requires(f, (&self@[entity]@[at],)),
                forall|done: int, at: int| #[trigger]
                    self.holds_at(done, at) && done < entity ==> call_ensures(
                        f,
                        (&self@[done]@[at],),
                        (),
                    ),
            decreases self@.len() - entity,
        {
            let components = &self.entities[entity].components;
            proof {
                assert forall|at: int| 0 <= at < components@.len() implies call_requires(
                    f,
                    (&#[trigger] components@[at],),
                ) by {
                    assert(self.holds_at(entity as int, at));
                }
            }
            visit_each(components, &f);
            entity += 1;
        }
    }

    /// The light of the world with its buffer and its bind group: the first
    /// light of the first entity that has one, or `None` where no entity
    /// has a light.
    pub fn find_light(&self) -> (found: Option<(&L, &B, &G)>)
        ensures
            match found {
                Some((light, buffer, bind_group)) => self.light() == Some(
                    (*light, *buffer, *bind_group),
                ),
                None => self.light().is_none(),
            },
            found.is_none() <==> forall|entity: int|
                0 <= entity < self@.len() ==> !(#[trigger] self@[entity]).is_lit(),
    {
        proof {
            lemma_first_lit(self@);
        }
        let mut entity: usize = 0;
        while entity < self.entities.len()
            invariant
                entity <= self@.len(),
                forall|before: int| 0 <= before < entity ==> !(#[trigger] self@[before]).is_lit(),
            decreases self@.len() - entity,
        {
            let components = &self.entities[entity].components;
            proof {
                lemma_first(components@, Kind::Light);
            }
            if let Some(at) = first_of_kind(components, Kind::Light) {
                match &components[at] {
                    Component::Light(light, buffer, bind_group) => {
                        proof {
                            assert(is_first_lit(self@, entity as int));
                        }
                        return Some((light, buffer, bind_group));
                    },
                    _ => unreached(),
                }
            }
            entity += 1;
        }
        None
    }

    /// What there is to draw: for each entity that has a model and a
    /// transform, in the order of the entities, its first model, its first
    /// transform and that transform's buffer. An entity that lacks either
    /// is passed over.
    pub fn find_renderables(&self) -> (found: Vec<(&Rc<M>, &T, &B)>)
        ensures
            found@.len() == self.renderables().len(),
            forall|n: int|
                0 <= n < found@.len() ==> (*found@[n].0, *found@[n].1, *found@[n].2)
                    == #[trigger] self.renderables()[n],
    {
        let mut found: Vec<(&Rc<M>, &T, &B)> = Vec::new();
        let mut entity: usize = 0;
        while entity < self.entities.len()
            invariant
                entity <= self@.len(),
                found@.len() == renderable_places(self@.take(entity as int)).len(),
                forall|n: int|
                    0 <= n < found@.len() ==> {
                        let place = #[trigger] renderable_places(self@.take(entity as int))[n];
                        &&& 0 <= place < entity
                        &&& self@[place].model() == Some(*found@[n].0)
                        &&& self@[place].transform() == Some((*found@[n].1, *found@[n].2))
                    },
            decreases self@.len() - entity,
        {
            let components = &self.entities[entity].components;
            let ghost so_far = renderable_places(self@.take(entity as int));
            proof {
                assert(self@.take(entity + 1).drop_last() =~= self@.take(entity as int));
                assert(self@.take(entity + 1).last() == self@[entity as int]);
                lemma_first(components@, Kind::Model);
                lemma_first(components@, Kind::Transform);
            }
            let model = first_of_kind(components, Kind::Model);
            let transform = first_of_kind(components, Kind::Transform);
            if let Some(transform_at) = transform {
                if let Some(model_at) = model {
                    match (&components[model_at], &components[transform_at]) {
                        (Component::Model(model), Component::Transform(transform, buffer)) => {
                            found.push((model, transform, buffer));
                        },
                        _ => unreached(),
                    }
                    proof {
                        assert(renderable_places(self@.take(entity + 1)) == so_far.push(
                            entity as int,
                        ));
                    }
                }
            }
            entity += 1;
        }
        proof {
            assert(self@.take(entity as int) =~= self@);
        }
        found
    }
}

} // verus!

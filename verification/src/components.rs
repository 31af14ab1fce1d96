//! The component dispatcher: a closed, ordered set of interactive components.

use crate::error::{ComponentsErrorView, ComponentsFromInteractionError};
use crate::option::ComponentInteraction;
use crate::scan::{first_hit, first_hit_at, first_hit_is_first, first_hit_none, is_first_hit};
use vstd::prelude::*;

verus! {

/// One component of a set: the canonical name under which it is emitted, and
/// further ids under which it is accepted.
#[derive(Debug, Clone, PartialEq, Eq)]
pub struct SlashComponent {
    pub name: String,
    pub id_alias: Vec<String>,
}

/// What a `SlashComponent` holds, as mathematical values.
pub struct SlashComponentView {
    pub name: Seq<char>,
    pub id_alias: Seq<Seq<char>>,
}

impl SlashComponentView {
    /// Whether the component is accepted under `id`: by its canonical name
    /// or by any of its aliases.
    pub open spec fn goes_by(self, id: Seq<char>) -> bool {
        self.name == id || exists|k: int| 0 <= k < self.id_alias.len() && self.id_alias[k] == id
    }
}

impl View for SlashComponent {
    type V = SlashComponentView;

    open spec fn view(&self) -> SlashComponentView {
        SlashComponentView { name: self.name@, id_alias: self.id_alias.deep_view() }
    }
}

impl DeepView for SlashComponent {
    type V = SlashComponentView;

    open spec fn deep_view(&self) -> SlashComponentView {
        self@
    }
}

impl SlashComponent {
    /// Tests `id` against the canonical name, then against each alias in
    /// turn.
    pub fn goes_by(&self, id: &String) -> (accepted: bool)
        ensures
            accepted == self@.goes_by(id@),
    {
        if *id == self.name {
            return true;
        }
        let mut k: usize = 0;
        while k < self.id_alias.len()
            invariant
                k <= self.id_alias.len(),
                self@.name != id@,
                forall|j: int| 0 <= j < k ==> self@.id_alias[j] != id@,
            decreases self.id_alias.len() - k,
        {
            if *id == self.id_alias[k] {
                assert(self@.id_alias[k as int] == id@);
                return true;
            }
            k = k + 1;
        }
        false
    }
}

/// For each component of `components`, whether it is accepted under `id`.
pub open spec fn going_by(components: Seq<SlashComponentView>, id: Seq<char>) -> Seq<bool> {
    Seq::new(components.len(), |i: int| components[i].goes_by(id))
}

/// What dispatch makes of the custom id `id`: the place of the first
/// component of `components` that is accepted under it, or the id itself as
/// unknown.
pub open spec fn route(components: Seq<SlashComponentView>, id: Seq<char>) -> Result<
    int,
    ComponentsErrorView,
> {
    match first_hit(going_by(components, id)) {
        Some(i) => Ok(i),
        None => Err(ComponentsErrorView::UnknownComponent { id }),
    }
}

/// The outcome of routing a component, as mathematical values.
pub open spec fn route_result_view(r: Result<usize, ComponentsFromInteractionError>) -> Result<
    int,
    ComponentsErrorView,
> {
    match r {
        Ok(i) => Ok(i as int),
        Err(e) => Err(e@),
    }
}

/// A closed set of components, in registration order.
#[derive(Debug, Clone, PartialEq, Eq)]
pub struct SlashComponents {
    pub components: Vec<SlashComponent>,
}

impl View for SlashComponents {
    type V = Seq<SlashComponentView>;

    open spec fn view(&self) -> Seq<SlashComponentView> {
        self.components.deep_view()
    }
}

impl SlashComponents {
    /// Routes a component interaction to the first component of the set
    /// that is accepted under the interaction's custom id, and returns that
    /// component's place in the set.
    pub fn from_interaction(&self, interaction: &ComponentInteraction) -> (r: Result<
        usize,
        ComponentsFromInteractionError,
    >)
        ensures
            route_result_view(r) == route(self@, interaction@),
    {
        let ghost hits = going_by(self@, interaction@);
        let mut i: usize = 0;
        while i < self.components.len()
            invariant
                i <= self.components.len(),
                hits == going_by(self@, interaction@),
                forall|j: int| 0 <= j < i ==> !hits[j],
            decreases self.components.len() - i,
        {
            if self.components[i].goes_by(&interaction.custom_id) {
                proof {
                    first_hit_at(hits, i as int);
                }
                return Ok(i);
            }
            i = i + 1;
        }
        proof {
            first_hit_none(hits);
        }
        Err(ComponentsFromInteractionError::UnknownComponent { id: interaction.custom_id.clone() })
    }

    /// The id under which the component at `variant` is emitted: its
    /// canonical name, never an alias.
    pub fn component_id(&self, variant: usize) -> (id: &str)
        requires
            variant < self@.len(),
        ensures
            id@ == self@[variant as int].name,
    {
        self.components[variant].name.as_str()
    }
}

/// The id that a component is emitted under routes back to that component,
/// unless a component registered before it is accepted under the same id.
pub proof fn component_id_routes_back(components: Seq<SlashComponentView>, variant: int)
    requires
        0 <= variant < components.len(),
        forall|j: int|
            0 <= j < variant ==> !(#[trigger] components[j]).goes_by(components[variant].name),
    ensures
        route(components, components[variant].name) == Ok::<int, ComponentsErrorView>(variant),
{
    first_hit_at(going_by(components, components[variant].name), variant);
}

/// A custom id under which no component of the set is accepted is reported
/// as unknown, and nothing else is.
pub proof fn unknown_id_is_unknown_component(components: Seq<SlashComponentView>, id: Seq<char>)
    ensures
        (forall|i: int| 0 <= i < components.len() ==> !(#[trigger] components[i]).goes_by(id))
            <==> route(components, id) == Err::<int, ComponentsErrorView>(
            ComponentsErrorView::UnknownComponent { id },
        ),
{
    let hits = going_by(components, id);
    first_hit_is_first(hits);
    if forall|i: int| 0 <= i < components.len() ==> !(#[trigger] components[i]).goes_by(id) {
        assert forall|j: int| 0 <= j < hits.len() implies !hits[j] by {
            assert(!components[j].goes_by(id));
        }
    }
    if first_hit(hits) is None {
        assert forall|i: int| 0 <= i < components.len() implies !(#[trigger] components[i]).goes_by(
            id,
        ) by {
            assert(!hits[i]);
        }
    }
}

/// A custom id routes to the component at `i` exactly when that component is
/// accepted under it and none registered before it is.
pub proof fn route_is_first_match(components: Seq<SlashComponentView>, id: Seq<char>, i: int)
    ensures
        route(components, id) == Ok::<int, ComponentsErrorView>(i) <==> is_first_hit(
            going_by(components, id),
            i,
        ),
{
    first_hit_is_first(going_by(components, id));
    if is_first_hit(going_by(components, id), i) {
        first_hit_at(going_by(components, id), i);
    }
}

} // verus!

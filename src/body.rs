use vstd::prelude::*;
use crate::form::{
    apply_movement, get_movement, intents_for, resolved_force, resolved_torque, wrap_movement,
    wrapped, ExternalForce, Form, KeyState, Movement, Movements, Transform, Velocity,
};
use crate::vector::IVec3;

verus! {

/// The controlled body: its intent set, gains, placement, velocity and the
/// force output that the physics side integrates.
pub struct Body {
    pub movements: Movements,
    pub form: Form,
    pub transform: Transform,
    pub velocity: Velocity,
    pub external_force: ExternalForce,
}

/// What a body holds, with its intent set as a sequence and its output as
/// exact vectors.
pub struct BodyView {
    pub intents: Seq<Movement>,
    pub form: Form,
    pub transform: Transform,
    pub velocity: Velocity,
    pub force: IVec3,
    pub torque: IVec3,
}

impl View for Body {
    type V = BodyView;

    open spec fn view(&self) -> BodyView {
        BodyView {
            intents: self.movements@,
            form: self.form,
            transform: self.transform,
            velocity: self.velocity,
            force: self.external_force.force@,
            torque: self.external_force.torque@,
        }
    }
}

/// Intent collection: the stored set becomes the one the keys raise.
pub open spec fn collect_step(b: BodyView, keys: KeyState) -> BodyView {
    BodyView { intents: intents_for(keys), ..b }
}

/// Force/torque resolution: the output becomes the one the stored set gives.
pub open spec fn resolve_step(b: BodyView) -> BodyView {
    BodyView {
        force: resolved_force(b.intents, b.form, b.transform, b.velocity),
        torque: resolved_torque(b.intents, b.form, b.transform, b.velocity),
        ..b
    }
}

/// Bounds wrap: a straying body goes back to the spawn point.
pub open spec fn wrap_step(b: BodyView) -> BodyView {
    BodyView { transform: wrapped(b.transform), ..b }
}

impl Body {
    /// One tick of movement, in the order that makes resolution see this
    /// tick's intents: collection, then resolution, then the bounds wrap.
    pub fn tick(&mut self, keys: &KeyState)
        ensures
            final(self)@ == wrap_step(resolve_step(collect_step(old(self)@, *keys))),
    {
        get_movement(&mut self.movements, keys);
        assert(intents_for(*keys).len() <= 7);
        apply_movement(
            &self.movements,
            &self.form,
            &self.transform,
            &self.velocity,
            &mut self.external_force,
        );
        wrap_movement(&mut self.transform);
    }
}

/// Collection keeps nothing from one tick to the next: with no key held it
/// leaves an empty intent set whatever was stored, and a second collection
/// leaves it empty again.
pub proof fn lemma_idle_collection_is_empty(b: BodyView)
    ensures
        collect_step(b, KeyState::none_spec()).intents == Seq::<Movement>::empty(),
        collect_step(collect_step(b, KeyState::none_spec()), KeyState::none_spec()).intents
            == Seq::<Movement>::empty(),
{
    assert(intents_for(KeyState::none_spec()) =~= Seq::<Movement>::empty());
}

/// Resolution acts on whatever intent set is stored when it runs. After
/// collection it resolves the set this tick's keys raise; before it, the
/// previous tick's set, and the collection that follows replaces the set
/// without touching that output.
pub proof fn lemma_resolution_reads_stored_intents(b: BodyView, keys: KeyState)
    ensures
        resolve_step(collect_step(b, keys)).force == resolved_force(
            intents_for(keys),
            b.form,
            b.transform,
            b.velocity,
        ),
        resolve_step(collect_step(b, keys)).torque == resolved_torque(
            intents_for(keys),
            b.form,
            b.transform,
            b.velocity,
        ),
        collect_step(resolve_step(b), keys).force == resolved_force(
            b.intents,
            b.form,
            b.transform,
            b.velocity,
        ),
        collect_step(resolve_step(b), keys).torque == resolved_torque(
            b.intents,
            b.form,
            b.transform,
            b.velocity,
        ),
        collect_step(resolve_step(b), keys).intents == intents_for(keys),
{
}

} // verus!

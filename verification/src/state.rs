//! The shared simulation-state buffer: named slots registered once during
//! construction, then addressed by stable integer indices.
//!
//! The host engine owns the buffer; this crate registers one infiltration
//! volume and one infiltration temperature slot per space and later reads
//! and writes only through the indices it was given.

use vstd::prelude::*;

verus! {

/// What a state slot holds, tagged with the index of the space it belongs
/// to in the model's space sequence.
#[derive(Clone, Copy, Debug, PartialEq, Eq, Structural)]
pub enum SimulationStateElement {
    /// A space's indoor dry-bulb temperature, registered by the host.
    SpaceDryBulbTemperature(usize),
    /// A space's infiltration volume, registered by this crate.
    SpaceInfiltrationVolume(usize),
    /// A space's infiltration temperature, registered by this crate.
    SpaceInfiltrationTemperature(usize),
}

/// The per-step state buffer: one fixed-point value per registered slot.
pub type SimulationState = Vec<i64>;

/// The registry of state slots, built up during model construction and then
/// frozen into a [`SimulationState`].
pub struct SimulationStateHeader {
    /// What each slot holds, in registration order.
    pub elements: Vec<SimulationStateElement>,
    /// Each slot's initial value, in registration order.
    pub values: Vec<i64>,
}

impl SimulationStateHeader {
    /// One tag per value.
    pub open spec fn wf(self) -> bool {
        self.elements@.len() == self.values@.len()
    }

    /// How many slots are registered.
    pub open spec fn spec_len(self) -> int {
        self.values@.len() as int
    }

    /// An empty registry.
    pub fn new() -> (r: SimulationStateHeader)
        ensures
            r.wf(),
            r.elements@ == Seq::<SimulationStateElement>::empty(),
            r.values@ == Seq::<i64>::empty(),
    {
        SimulationStateHeader { elements: Vec::new(), values: Vec::new() }
    }

    /// Registers a new slot with its initial value and returns its stable
    /// index.
    pub fn push(&mut self, element: SimulationStateElement, value: i64) -> (index: usize)
        requires
            old(self).wf(),
            old(self).spec_len() < usize::MAX,
        ensures
            final(self).wf(),
            index == old(self).spec_len(),
            final(self).elements@ == old(self).elements@.push(element),
            final(self).values@ == old(self).values@.push(value),
    {
        let index = self.values.len();
        self.elements.push(element);
        self.values.push(value);
        index
    }

    /// Number of registered slots.
    pub fn len(&self) -> (r: usize)
        ensures
            r == self.spec_len(),
    {
        self.values.len()
    }

    /// Freezes the registry into the mutable per-step buffer, each slot at
    /// its initial value.
    pub fn take_values(self) -> (r: SimulationState)
        ensures
            r@ == self.values@,
    {
        self.values
    }
}

} // verus!

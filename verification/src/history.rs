//! What an operation has done so far.
use vstd::prelude::*;
use crate::device::DeviceModel;
use crate::effect::{ActionModel, Reply};

verus! {

/// A history of an operation with stages of type `S`: what the device remembered, where the
/// operation stood, what was replied and what was performed, step by step from the beginning. The
/// effect at each place is the one that the step from the stage at that place performs, given the
/// reply at that place.
pub struct History<S> {
    pub models: Seq<DeviceModel>,
    pub stages: Seq<S>,
    pub replies: Seq<Reply>,
    pub effects: Seq<ActionModel>,
}

impl<S> History<S> {
    /// There is a stage before the first effect and one after each.
    pub open spec fn shaped(self) -> bool {
        &&& self.replies.len() == self.effects.len()
        &&& self.stages.len() == self.effects.len() + 1
        &&& self.models.len() == self.effects.len() + 1
    }
}

} // verus!

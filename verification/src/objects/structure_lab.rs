//! What a lab tells about itself.

use crate::constants::types::ResourceType;
use vstd::prelude::*;

verus! {

/// A lab as it was read from the host: the mineral it holds, by the name
/// that the host gave, and how much of it.
#[derive(Clone, Debug, PartialEq, Eq)]
pub struct StructureLab {
    pub mineral_type: String,
    pub mineral_amount: u32,
    pub mineral_capacity: u32,
}

impl StructureLab {
    /// The mineral that the lab holds, if the host's name for it is the
    /// name of a resource.
    pub fn mineral_type(&self) -> (mineral: Option<ResourceType>)
        ensures
            match mineral {
                Some(resource) => resource.spec_name() == self.mineral_type@,
                None => forall|resource: ResourceType| resource.spec_name() != self.mineral_type@,
            },
    {
        ResourceType::from_name(self.mineral_type.as_str())
    }
}

} // verus!

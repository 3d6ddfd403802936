//! Protocol constants.
use vstd::prelude::*;

verus! {

/// How an object on the map changes.
#[derive(Copy, Clone, Debug, PartialEq, Eq, Structural)]
pub enum ObjectUpdateType {
    Remove,
    Add,
    Update,
}

/// Wire byte of an object update type.
pub open spec fn object_update_code(t: ObjectUpdateType) -> u8 {
    match t {
        ObjectUpdateType::Remove => 0,
        ObjectUpdateType::Add => 1,
        ObjectUpdateType::Update => 2,
    }
}

impl ObjectUpdateType {
    /// The wire byte of this update type.
    pub fn primitive(self) -> (r: u8)
        ensures
            r == object_update_code(self),
    {
        match self {
            ObjectUpdateType::Remove => 0,
            ObjectUpdateType::Add => 1,
            ObjectUpdateType::Update => 2,
        }
    }

    /// The update type with the given wire byte, if there is one.
    pub fn try_from_primitive(v: u8) -> (r: Option<ObjectUpdateType>)
        ensures
            v <= 2 ==> (r matches Some(t) && object_update_code(t) == v),
            v > 2 ==> r is None,
    {
        match v {
            0 => Some(ObjectUpdateType::Remove),
            1 => Some(ObjectUpdateType::Add),
            2 => Some(ObjectUpdateType::Update),
            _ => None,
        }
    }
}

} // verus!

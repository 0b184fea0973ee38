use vstd::prelude::*;

use super::notification::Notification;
use super::value_object::UuidVo;

verus! {

/// Something with an identity that gathers validation errors.
pub trait Entity {
    fn entity_id(&self) -> &UuidVo;

    fn notification(&self) -> &Notification;
}

/// An entity that is stored and loaded as a whole.
pub trait AggregateRoot: Entity {

}

} // verus!

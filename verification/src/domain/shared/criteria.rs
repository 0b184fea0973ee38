use vstd::prelude::*;

verus! {

/// A rule that narrows a context, such as a list of entities.
pub trait Criteria<Context> {
    fn apply(&self, context: Context) -> Context;
}

/// A repository whose reads can be narrowed by scopes.
pub trait ScopedRepository {
    /// From now on, reads leave out soft-deleted entities.
    fn ignore_soft_deleted(&mut self);

    /// From now on, reads see every stored entity.
    fn clear_scopes(&mut self);
}

} // verus!

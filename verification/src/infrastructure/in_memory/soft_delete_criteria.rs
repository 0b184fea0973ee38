use vstd::prelude::*;

use crate::domain::category::aggregate::{Category, CategoryView};
use crate::domain::shared::criteria::Criteria;
use crate::domain::shared::listing::{kept, lemma_kept_step};
use crate::domain::shared::nested_map::views_of;

verus! {

/// Keeps the categories that are not soft-deleted.
pub struct SoftDeleteInMemoryCriteria;

/// The category has no deletion time.
pub open spec fn not_deleted(category: CategoryView) -> bool {
    category.deleted_at is None
}

impl Criteria<Vec<Category>> for SoftDeleteInMemoryCriteria {
    /// The categories without a deletion time, in order.
    fn apply(&self, context: Vec<Category>) -> (remaining: Vec<Category>)
        ensures
            views_of(remaining@) == kept(views_of(context@), |c: CategoryView| not_deleted(c)),
    {
        let ghost all = views_of(context@);
        let ghost keep = |c: CategoryView| not_deleted(c);
        let mut remaining: Vec<Category> = Vec::new();
        for i in 0..context.len()
            invariant
                all == views_of(context@),
                keep == (|c: CategoryView| not_deleted(c)),
                views_of(remaining@) == kept(all.take(i as int), keep),
        {
            proof {
                lemma_kept_step(all, keep, i as int);
            }
            if context[i].deleted_at().is_none() {
                let ghost before = views_of(remaining@);
                remaining.push(context[i].clone());
                assert(views_of(remaining@) =~= before.push(context@[i as int]@));
            }
        }
        assert(all.take(context.len() as int) =~= all);
        remaining
    }
}

} // verus!

use vstd::prelude::*;

use super::value_object::UuidVo;

verus! {

/// Direction in which a listing is ordered.
#[derive(Debug, Clone, Copy, PartialEq, Eq, Structural)]
pub enum SortDirection {
    Asc,
    Desc,
}

impl SortDirection {
    /// `asc` or `desc`.
    pub fn as_str(&self) -> (text: &'static str)
        ensures
            text@ == match self {
                SortDirection::Asc => "asc"@,
                SortDirection::Desc => "desc"@,
            },
    {
        match self {
            SortDirection::Asc => "asc",
            SortDirection::Desc => "desc",
        }
    }
}

/// Paging, ordering and filtering asked of a search.
#[derive(Debug, Clone)]
pub struct SearchParams<Filter = String> {
    pub page: usize,
    pub per_page: usize,
    pub sort: Option<String>,
    pub sort_dir: Option<SortDirection>,
    pub filter: Option<Filter>,
}

impl<Filter> Default for SearchParams<Filter> {
    /// The first page of fifteen items, unsorted and unfiltered.
    fn default() -> (params: Self)
        ensures
            params.page == 1,
            params.per_page == 15,
            params.sort is None,
            params.sort_dir is None,
            params.filter is None,
    {
        SearchParams { page: 1, per_page: 15, sort: None, sort_dir: None, filter: None }
    }
}

/// One page of a search and the size of the whole result.
#[derive(Debug, Clone)]
pub struct SearchResult<E> {
    pub items: Vec<E>,
    pub total: usize,
    pub current_page: usize,
    pub per_page: usize,
}

/// The number of the last page: 1 when nothing was found, else the total
/// divided by the page size, rounded up.
pub open spec fn last_page_of(total: int, per_page: int) -> int {
    if total == 0 {
        1
    } else {
        (total + per_page - 1) / per_page
    }
}

impl<E> SearchResult<E> {
    /// The number of the last page. A page size of zero is refused unless
    /// nothing was found (the division would not be defined).
    pub fn last_page(&self) -> (page: usize)
        requires
            self.total == 0 || self.per_page > 0,
        ensures
            page == last_page_of(self.total as int, self.per_page as int),
    {
        if self.total == 0 {
            return 1;
        }
        let q = self.total / self.per_page;
        let r = self.total % self.per_page;
        proof {
            let t = self.total as int;
            let p = self.per_page as int;
            assert(t == p * q + r) by (nonlinear_arith)
                requires
                    p > 0,
                    q == t / p,
                    r == t % p,
            ;
            assert(0 <= r < p);
            if r == 0 {
                assert((t + p - 1) / p == q) by (nonlinear_arith)
                    requires
                        p > 0,
                        t == p * q,
                ;
            } else {
                assert((t + p - 1) / p == q + 1) by (nonlinear_arith)
                    requires
                        p > 0,
                        t == p * q + r,
                        0 < r < p,
                ;
                assert(q + 1 <= t) by (nonlinear_arith)
                    requires
                        p > 0,
                        q >= 0,
                        t == p * q + r,
                        0 < r,
                ;
            }
        }
        if r == 0 {
            q
        } else {
            q + 1
        }
    }
}

/// The entities found for a list of ids, and the ids for which none was found.
pub struct FindByIdsResult<E> {
    pub exists: Vec<E>,
    pub not_exists: Vec<UuidVo>,
}

/// The ids of a list that name a stored entity, and those that do not.
pub struct ExistsByIdResult {
    pub exists: Vec<UuidVo>,
    pub not_exists: Vec<UuidVo>,
}

/// A field to order by and the direction.
#[derive(Debug, Clone)]
pub struct SortOrder {
    pub field: String,
    pub direction: SortDirection,
}

} // verus!

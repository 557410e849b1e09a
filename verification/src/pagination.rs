//! The pagination engine: validation of page parameters and deterministic
//! slicing of the ordered validator address collection.

use vstd::prelude::*;
use vstd::math::min;
use crate::error::ApiError;
use crate::text::{dec_of_u64, dec_string_of};

verus! {

/// Largest page size a request may ask for.
pub const MAX_PER_PAGE: u32 = 50;

/// Page index used when a request names none.
pub const DEFAULT_PAGE: u32 = 1;

/// Page size used when a request names none.
pub const DEFAULT_PER_PAGE: u32 = 10;

/// Pagination parameters as they arrive with a request, each optional.
#[derive(Debug, Clone)]
pub struct ValidatorsQuery {
    pub page: Option<u32>,
    pub per_page: Option<u32>,
}

impl ValidatorsQuery {
    /// Present parameters are in range: a page index of at least 1 and a page
    /// size between 1 and `MAX_PER_PAGE`.
    pub open spec fn spec_valid(&self) -> bool {
        &&& (self.page matches Some(p) ==> p >= 1)
        &&& (self.per_page matches Some(pp) ==> 1 <= pp <= MAX_PER_PAGE)
    }

    /// Accepts the query exactly when the present parameters are in range;
    /// rejected queries name the first offending parameter, the page index
    /// checked before the page size.
    pub fn validate(&self) -> (r: Result<(), ApiError>)
        ensures
            r is Ok <==> self.spec_valid(),
            self.page == Some(0u32) ==> (r matches Err(e) && e matches ApiError::InvalidPagination(
                m,
            ) && m@ == "Page number must be greater than 0"@),
            self.page != Some(0u32) && self.per_page == Some(0u32) ==> (r matches Err(e)
                && e matches ApiError::InvalidPagination(m) && m@
                == "Items per page must be greater than 0"@),
            self.page != Some(0u32) && (self.per_page matches Some(pp) && pp > MAX_PER_PAGE) ==> (
            r matches Err(e) && e matches ApiError::InvalidPagination(m) && m@
                == "Items per page cannot exceed 50"@),
    {
        if let Some(page) = self.page {
            if page == 0 {
                return Err(
                    ApiError::InvalidPagination(
                        String::from_str("Page number must be greater than 0"),
                    ),
                );
            }
        }
        if let Some(per_page) = self.per_page {
            if per_page == 0 {
                return Err(
                    ApiError::InvalidPagination(
                        String::from_str("Items per page must be greater than 0"),
                    ),
                );
            }
            if per_page > MAX_PER_PAGE {
                return Err(
                    ApiError::InvalidPagination(String::from_str("Items per page cannot exceed 50")),
                );
            }
        }
        Ok(())
    }

    /// The page index to use: the given one, or `DEFAULT_PAGE`.
    pub open spec fn spec_page_or_default(&self) -> u32 {
        match self.page {
            Some(p0) => p0,
            None => DEFAULT_PAGE,
        }
    }

    /// The page size to use: the given one, or `DEFAULT_PER_PAGE`.
    pub open spec fn spec_per_page_or_default(&self) -> u32 {
        match self.per_page {
            Some(pp0) => pp0,
            None => DEFAULT_PER_PAGE,
        }
    }

    pub fn page_or_default(&self) -> (p: u32)
        ensures
            p == self.spec_page_or_default(),
    {
        match self.page {
            Some(p) => p,
            None => DEFAULT_PAGE,
        }
    }

    pub fn per_page_or_default(&self) -> (pp: u32)
        ensures
            pp == self.spec_per_page_or_default(),
    {
        match self.per_page {
            Some(pp) => pp,
            None => DEFAULT_PER_PAGE,
        }
    }
}

/// The page count and slice bounds that a response reports beside a page.
#[derive(Debug, Clone, PartialEq, Eq, Structural)]
pub struct Pagination {
    pub total: u64,
    pub page: u32,
    pub per_page: u32,
    pub total_pages: u64,
}

/// How many pages of size `per_page` the collection of `total` items has:
/// the ceiling of `total / per_page`, and 0 for an empty collection.
pub open spec fn spec_total_pages(total: int, per_page: int) -> int
    recommends
        total >= 0,
        per_page >= 1,
{
    if total == 0 {
        0
    } else {
        (total - 1) / per_page + 1
    }
}

/// Index of the first item of `page` (1-based pages).
pub open spec fn spec_page_start(page: int, per_page: int) -> int {
    (page - 1) * per_page
}

/// Index one past the last item of `page`, clipped to `total`.
pub open spec fn spec_page_end(total: int, page: int, per_page: int) -> int {
    min(spec_page_start(page, per_page) + per_page, total)
}

/// The slice of `s` that `page` holds: items `start..end` in input order.
pub open spec fn spec_page_slice<T>(s: Seq<T>, page: int, per_page: int) -> Seq<T> {
    s.subrange(
        min(spec_page_start(page, per_page), s.len() as int),
        spec_page_end(s.len() as int, page, per_page),
    )
}

/// The count of `spec_total_pages` brackets the total: pages before the last
/// are all full, and the last page is not empty.
pub proof fn lemma_total_pages_brackets(total: int, per_page: int)
    requires
        total >= 1,
        per_page >= 1,
    ensures
        (spec_total_pages(total, per_page) - 1) * per_page < total,
        total <= spec_total_pages(total, per_page) * per_page,
        spec_total_pages(total, per_page) >= 1,
{
    let d = (total - 1) / per_page;
    vstd::arithmetic::div_mod::lemma_fundamental_div_mod(total - 1, per_page);
    vstd::arithmetic::div_mod::lemma_div_pos_is_pos(total - 1, per_page);
    assert(d * per_page <= total - 1 < (d + 1) * per_page) by (nonlinear_arith)
        requires
            per_page >= 1,
            total - 1 == per_page * d + (total - 1) % per_page,
            0 <= (total - 1) % per_page < per_page,
    ;
}

/// The pages `1 ..= upto` of `s`, taken in order and concatenated.
pub open spec fn spec_pages_concat<T>(s: Seq<T>, per_page: int, upto: int) -> Seq<T>
    decreases upto,
{
    if upto <= 0 {
        Seq::empty()
    } else {
        spec_pages_concat(s, per_page, upto - 1) + spec_page_slice(s, upto, per_page)
    }
}

/// The first `k` pages, concatenated, are the first `min(k * per_page, |s|)`
/// items of `s`.
proof fn lemma_pages_concat_prefix<T>(s: Seq<T>, per_page: int, k: int)
    requires
        per_page >= 1,
        k >= 0,
    ensures
        spec_pages_concat(s, per_page, k) =~= s.subrange(0, min(k * per_page, s.len() as int)),
    decreases k,
{
    let n = s.len() as int;
    if k == 0 {
        assert(0 * per_page == 0);
    } else {
        lemma_pages_concat_prefix(s, per_page, k - 1);
        assert((k - 1) * per_page == k * per_page - per_page && k * per_page >= per_page)
            by (nonlinear_arith)
            requires
                k >= 1,
                per_page >= 1,
        ;
        let a = min((k - 1) * per_page, n);
        let b = min(k * per_page, n);
        assert(spec_page_slice(s, k, per_page) =~= s.subrange(a, b));
        assert(s.subrange(0, a) + s.subrange(a, b) =~= s.subrange(0, b));
    }
}

/// Law: the pages `1 ..= total_pages` of a collection, taken in order, hold
/// every item of the collection exactly once, with no duplication and no gap:
/// their concatenation is the collection itself.
pub proof fn lemma_pages_partition<T>(s: Seq<T>, per_page: int)
    requires
        1 <= per_page <= MAX_PER_PAGE,
    ensures
        spec_pages_concat(s, per_page, spec_total_pages(s.len() as int, per_page)) =~= s,
{
    let n = s.len() as int;
    let tp = spec_total_pages(n, per_page);
    lemma_pages_concat_prefix(s, per_page, tp);
    if n > 0 {
        lemma_total_pages_brackets(n, per_page);
        assert(min(tp * per_page, n) == n);
    }
}

/// Renders the rejection of a page index past the last page.
fn exceeds_msg(page: u32, total_pages: u64) -> (s: String)
    ensures
        s@ == spec_exceeds_msg(page as int, total_pages as int),
{
    let s = String::from_str("page ").concat(dec_of_u64(page as u64).as_str()).concat(
        " exceeds total pages ",
    ).concat(dec_of_u64(total_pages).as_str());
    s
}

/// The message naming the requested and the available page count.
pub open spec fn spec_exceeds_msg(page: int, total_pages: int) -> Seq<char> {
    "page "@ + dec_string_of(page as nat) + " exceeds total pages "@ + dec_string_of(
        total_pages as nat,
    )
}

/// Slices the ordered address collection into the requested page.
///
/// Validation, in order: the page index must be at least 1; the page size must
/// be between 1 and `MAX_PER_PAGE`; and when the collection is not empty, the
/// page index must not exceed the page count. The returned slice preserves the
/// input order, and the returned `Pagination` reports the full item and page
/// counts.
pub fn paginate(addresses: &Vec<String>, page: u32, per_page: u32) -> (r: Result<
    (Vec<String>, Pagination),
    ApiError,
>)
    ensures
        r is Ok <==> (page >= 1 && 1 <= per_page <= MAX_PER_PAGE && (spec_total_pages(
            addresses@.len() as int,
            per_page as int,
        ) == 0 || page <= spec_total_pages(addresses@.len() as int, per_page as int))),
        r matches Ok(pr) ==> {
            &&& pr.0@ == spec_page_slice(addresses@, page as int, per_page as int)
            &&& addresses@.len() > 0 ==> pr.0@.len() == min(
                per_page as int,
                addresses@.len() - spec_page_start(page as int, per_page as int),
            )
            &&& addresses@.len() == 0 ==> pr.0@.len() == 0
            &&& pr.1 == (Pagination {
                total: addresses@.len() as u64,
                page,
                per_page,
                total_pages: spec_total_pages(addresses@.len() as int, per_page as int) as u64,
            })
        },
        page == 0 ==> (r matches Err(e) && e matches ApiError::InvalidPagination(m) && m@
            == "Page number must be greater than 0"@),
        page >= 1 && per_page == 0 ==> (r matches Err(e) && e matches ApiError::InvalidPagination(m)
            && m@ == "Items per page must be greater than 0"@),
        page >= 1 && per_page > MAX_PER_PAGE ==> (r matches Err(e)
            && e matches ApiError::InvalidPagination(m) && m@ == "Items per page cannot exceed 50"@),
        page >= 1 && 1 <= per_page <= MAX_PER_PAGE && spec_total_pages(
            addresses@.len() as int,
            per_page as int,
        ) > 0 && page > spec_total_pages(addresses@.len() as int, per_page as int) ==> (
        r matches Err(e) && e matches ApiError::InvalidPagination(m) && m@ == spec_exceeds_msg(
            page as int,
            spec_total_pages(addresses@.len() as int, per_page as int),
        )),
{
    let query = ValidatorsQuery { page: Some(page), per_page: Some(per_page) };
    if let Err(e) = query.validate() {
        return Err(e);
    }
    proof {
        assert(query.spec_valid());
        assert(page >= 1 && 1 <= per_page <= MAX_PER_PAGE);
    }
    let total: usize = addresses.len();
    let total_pages: u64 = if total == 0 {
        0
    } else {
        ((total - 1) as u64) / (per_page as u64) + 1
    };
    if total_pages > 0 && (page as u64) > total_pages {
        return Err(ApiError::InvalidPagination(exceeds_msg(page, total_pages)));
    }
    proof {
        if total > 0 {
            lemma_total_pages_brackets(total as int, per_page as int);
            let tp = spec_total_pages(total as int, per_page as int);
            assert((page as int - 1) * (per_page as int) <= (tp - 1) * (per_page as int))
                by (nonlinear_arith)
                requires
                    page as int <= tp,
                    per_page as int >= 1,
            ;
        }
    }
    let pm1: u64 = (page - 1) as u64;
    proof {
        assert(pm1 * (per_page as u64) <= 0xFFFF_FFFFu64 * 50u64) by (nonlinear_arith)
            requires
                pm1 <= 0xFFFF_FFFFu64,
                (per_page as u64) <= 50u64,
        ;
    }
    let start_wide: u64 = pm1 * (per_page as u64);
    let start: usize = if start_wide >= (total as u64) {
        total
    } else {
        start_wide as usize
    };
    let end: usize = if start_wide + (per_page as u64) >= (total as u64) {
        total
    } else {
        (start_wide + (per_page as u64)) as usize
    };
    let mut items: Vec<String> = Vec::new();
    let mut i: usize = start;
    while i < end
        invariant
            start <= i <= end <= total,
            total == addresses@.len(),
            items@ =~= addresses@.subrange(start as int, i as int),
        decreases end - i,
    {
        items.push(addresses[i].clone());
        proof {
            assert(items@ =~= addresses@.subrange(start as int, i + 1 as int));
        }
        i += 1;
    }
    proof {
        assert(items@ =~= spec_page_slice(addresses@, page as int, per_page as int));
    }
    Ok(
        (
            items,
            Pagination {
                total: total as u64,
                page,
                per_page,
                total_pages,
            },
        ),
    )
}

} // verus!

use vstd::prelude::*;
use vstd::string::StringExecFns;

use crate::error::AppError;

verus! {

/// Items on a page when a query names no page size.
pub const DEFAULT_PER_PAGE: i64 = 10;

/// One page of a listing, with the size of the whole listing.
#[derive(Clone, Debug)]
pub struct PaginatedResponse<T> {
    pub data: Vec<T>,
    pub total: i64,
    pub page: i64,
    pub per_page: i64,
    pub total_pages: i64,
}

/// Pages needed for `total` items at `per_page` a page.
pub open spec fn pages_for(total: int, per_page: int) -> int {
    (total + per_page - 1) / per_page
}

impl<T> PaginatedResponse<T> {
    pub fn new(data: Vec<T>, total: i64, page: i64, per_page: i64) -> (r: PaginatedResponse<T>)
        requires
            total >= 0,
            per_page >= 1,
        ensures
            r.data@ == data@,
            r.total == total,
            r.page == page,
            r.per_page == per_page,
            r.total_pages == pages_for(total as int, per_page as int),
    {
        let extra: i64 = if total % per_page != 0 { 1 } else { 0 };
        proof {
            vstd::arithmetic::div_mod::lemma_fundamental_div_mod(total as int, per_page as int);
            let q = total / per_page;
            let m = total % per_page;
            assert(0 <= m < per_page);
            assert(q >= 0) by (nonlinear_arith)
                requires
                    total == per_page * q + m,
                    0 <= m < per_page,
                    total >= 0,
            ;
            assert(q * per_page <= total - extra) by (nonlinear_arith)
                requires
                    total == per_page * q + m,
                    extra <= m,
            ;
            assert(q <= q * per_page) by (nonlinear_arith)
                requires
                    per_page >= 1,
                    q >= 0,
            ;
        }
        let total_pages = total / per_page + extra;
        proof {
            let q = total / per_page;
            let m = total % per_page;
            assert(total == q * per_page + m) by (nonlinear_arith)
                requires
                    total == per_page * q + m,
            ;
            assert(0 <= m < per_page);
            if m != 0 {
                assert(total + per_page - 1 == (q + 1) * per_page + (m - 1)) by (nonlinear_arith)
                    requires
                        total == q * per_page + m,
                ;
                vstd::arithmetic::div_mod::lemma_fundamental_div_mod_converse(
                    (total + per_page - 1) as int,
                    per_page as int,
                    q + 1,
                    m - 1,
                );
            } else {
                assert(total + per_page - 1 == q * per_page + (per_page - 1)) by (nonlinear_arith)
                    requires
                        total == q * per_page + m,
                        m == 0,
                ;
                vstd::arithmetic::div_mod::lemma_fundamental_div_mod_converse(
                    (total + per_page - 1) as int,
                    per_page as int,
                    q as int,
                    per_page - 1,
                );
            }
        }
        PaginatedResponse { data, total, page, per_page, total_pages }
    }
}

/// The page and page size that a query asks for: page 1 and ten items when it
/// names none; `Validation` when either is below 1.
pub fn page_params(page: Option<i64>, per_page: Option<i64>) -> (r: Result<(i64, i64), AppError>)
    ensures
        ({
            let p = match page {
                Some(x) => x,
                None => 1,
            };
            let n = match per_page {
                Some(x) => x,
                None => DEFAULT_PER_PAGE,
            };
            &&& (p >= 1 && n >= 1) ==> r == Ok::<(i64, i64), AppError>((p, n))
            &&& !(p >= 1 && n >= 1) ==> r is Err && r->Err_0 is Validation
        }),
{
    let p = match page {
        Some(x) => x,
        None => 1,
    };
    let n = match per_page {
        Some(x) => x,
        None => DEFAULT_PER_PAGE,
    };
    if p >= 1 && n >= 1 {
        Ok((p, n))
    } else {
        Err(AppError::Validation(String::from_str("page and per_page must be at least 1")))
    }
}

} // verus!

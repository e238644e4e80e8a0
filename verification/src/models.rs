//! Response envelopes, pagination and column descriptions.
use vstd::prelude::*;
use crate::ambient::now_millis;

verus! {

/// The envelope of every API answer.
#[derive(Debug)]
pub struct ApiResponse<T> {
    /// Whether the request succeeded.
    pub success: bool,
    /// The payload of a successful answer.
    pub data: Option<T>,
    /// The error message of a failed answer.
    pub error: Option<String>,
    /// The error code of a failed answer.
    pub code: Option<u16>,
    /// A message for the caller.
    pub message: Option<String>,
    /// The request identifier.
    pub request_id: String,
    /// When the answer was made, in milliseconds since the Unix epoch.
    pub timestamp: i64,
}

impl<T> ApiResponse<T> {
    /// A successful answer carrying `data`, with the message `操作成功`.
    pub fn success(data: T, request_id: String) -> (r: Self)
        ensures
            r.success,
            r.data == Some(data),
            r.error is None,
            r.code is None,
            r.message matches Some(m) && m@ == "操作成功"@,
            r.request_id@ == request_id@,
    {
        ApiResponse {
            success: true,
            data: Some(data),
            error: None,
            code: None,
            message: Some("操作成功".to_string()),
            request_id,
            timestamp: now_millis(),
        }
    }

    /// A failed answer with the given message and code and no payload.
    pub fn error(error: String, code: u16, request_id: String) -> (r: ApiResponse<()>)
        ensures
            !r.success,
            r.data is None,
            r.error matches Some(e) && e@ == error@,
            r.code == Some(code),
            r.message is None,
            r.request_id@ == request_id@,
    {
        ApiResponse {
            success: false,
            data: None,
            error: Some(error),
            code: Some(code),
            message: None,
            request_id,
            timestamp: now_millis(),
        }
    }
}

/// Where a page stands in a paginated list.
#[derive(Debug)]
pub struct Pagination {
    /// The current page, from 1.
    pub page: u32,
    /// Items per page.
    pub page_size: u32,
    /// Number of items in all.
    pub total: u64,
    /// Number of pages.
    pub total_pages: u32,
    /// Whether a later page exists.
    pub has_next: bool,
    /// Whether an earlier page exists.
    pub has_prev: bool,
}

/// A page of items and where it stands.
#[derive(Debug)]
pub struct PaginatedResponse<T> {
    /// The items of the page.
    pub data: Vec<T>,
    /// Where the page stands.
    pub pagination: Pagination,
}

/// A column of a result set.
#[derive(Debug)]
pub struct Column {
    /// Column name.
    pub name: String,
    /// SQL type name.
    pub data_type: String,
    /// Whether the column admits NULL.
    pub nullable: bool,
}

/// The page number and size used for a request: page 1 and size 20 when absent,
/// the page raised to at least 1 and the size kept within 1 to 100.
pub open spec fn pagination_of(page: Option<u32>, page_size: Option<u32>) -> (u32, u32) {
    let p = match page { Some(p) => p, None => 1 };
    let s = match page_size { Some(s) => s, None => 20 };
    (if p < 1 { 1 } else { p }, if s < 1 { 1 } else if s > 100 { 100 } else { s })
}

/// Normalises optional page parameters (see `pagination_of`).
pub fn validate_pagination(page: Option<u32>, page_size: Option<u32>) -> (r: (u32, u32))
    ensures
        r == pagination_of(page, page_size),
        r.0 >= 1,
        1 <= r.1 <= 100,
{
    let p = match page {
        Some(p) => p,
        None => 1,
    };
    let s = match page_size {
        Some(s) => s,
        None => 20,
    };
    let p = if p < 1 { 1 } else { p };
    let s = if s < 1 { 1 } else if s > 100 { 100 } else { s };
    (p, s)
}

/// The number of items before page `page` (counted from 1).
pub fn calculate_offset(page: u32, page_size: u32) -> (offset: u32)
    requires
        page >= 1,
        (page - 1) * page_size <= u32::MAX,
    ensures
        offset == (page - 1) * page_size,
{
    (page - 1) * page_size
}

/// The number of pages of `page_size` items that hold `total` items, rounded up
/// and at most `u32::MAX`. With pages of no items, the quotient is infinite
/// (`u32::MAX`) when there are items, and undefined (0) when there are none, as a
/// floating-point division and a saturating cast give them.
pub open spec fn pages_for(total: u64, page_size: u32) -> u32 {
    if page_size == 0 {
        if total == 0 { 0 } else { u32::MAX }
    } else {
        let p = (total + page_size - 1) / (page_size as int);
        if p > u32::MAX { u32::MAX } else { p as u32 }
    }
}

/// Page `page` of `total` items holding `data`: how many pages there are, and
/// whether pages come after and before it.
pub fn paginated_response<T>(data: Vec<T>, page: u32, page_size: u32, total: u64) -> (r: PaginatedResponse<T>)
    ensures
        r.data == data,
        r.pagination.page == page,
        r.pagination.page_size == page_size,
        r.pagination.total == total,
        r.pagination.total_pages == pages_for(total, page_size),
        r.pagination.has_next == (page < pages_for(total, page_size)),
        r.pagination.has_prev == (page > 1),
{
    if page_size == 0 {
        let total_pages: u32 = if total == 0 { 0 } else { 4294967295 };
        return PaginatedResponse {
            data,
            pagination: Pagination {
                page,
                page_size,
                total,
                total_pages,
                has_next: page < total_pages,
                has_prev: page > 1,
            },
        };
    }
    let ps = page_size as u64;
    let q = total / ps;
    assert(total % ps != 0 ==> q < 0xffff_ffff_ffff_ffff) by (nonlinear_arith)
        requires
            ps >= 1,
            q == total / ps,
            total <= 0xffff_ffff_ffff_ffff,
    ;
    let p: u64 = if total % ps == 0 { q } else { q + 1 };
    assert(p == (total + page_size - 1) / (page_size as int)) by (nonlinear_arith)
        requires
            ps == page_size,
            ps >= 1,
            q == total / ps,
            total % ps == 0 ==> p == q,
            total % ps != 0 ==> p == q + 1,
    ;
    let total_pages: u32 = if p > 4294967295 { 4294967295 } else { p as u32 };
    PaginatedResponse {
        data,
        pagination: Pagination {
            page,
            page_size,
            total,
            total_pages,
            has_next: page < total_pages,
            has_prev: page > 1,
        },
    }
}

/// Normalising page parameters twice changes nothing more: the page and size
/// chosen are kept as they are.
pub proof fn lemma_pagination_stable(page: Option<u32>, page_size: Option<u32>)
    ensures
        pagination_of(Some(pagination_of(page, page_size).0), Some(pagination_of(page, page_size).1))
            == pagination_of(page, page_size),
{
}

/// Unless the count saturates, the pages hold every item and the last page is
/// not empty: `total_pages` pages of `page_size` items reach `total`, one page
/// fewer does not.
pub proof fn lemma_pages_cover_total(total: u64, page_size: u32)
    requires
        page_size >= 1,
        (total + page_size - 1) / (page_size as int) <= u32::MAX,
    ensures
        pages_for(total, page_size) * page_size >= total,
        total > 0 ==> (pages_for(total, page_size) - 1) * page_size < total,
{
    let p = (total + page_size - 1) / (page_size as int);
    assert(pages_for(total, page_size) == p);
    assert(p * page_size >= total && (total > 0 ==> (p - 1) * page_size < total)) by (nonlinear_arith)
        requires
            page_size >= 1,
            p == (total + page_size - 1) / (page_size as int),
            total >= 0,
    ;
}

} // verus!

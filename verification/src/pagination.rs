//! Page arithmetic shared by every listing: the page size, the offset of a
//! page, the number of pages that a count of rows fills, and the rows that a
//! page holds.

use crate::text::{integer_within, parse_i64, same_text};
use vstd::prelude::*;

verus! {

/// Rows on one page.
pub const ITEMS_PER_PAGE: i64 = 10;

/// The page that a request asks for: the first one when none is named or
/// when page zero is named, else the page as given.
pub open spec fn requested_page(page: Option<i64>) -> i64 {
    match page {
        None => 1,
        Some(p) => if p == 0 { 1 } else { p },
    }
}

/// The page to show for the page that a query names.
pub fn normalize_page(page: Option<i64>) -> (p: i64)
    ensures
        p == requested_page(page),
        p != 0,
{
    match page {
        None => 1,
        Some(p) => if p == 0 { 1 } else { p },
    }
}

/// `(page - 1) * ITEMS_PER_PAGE`, held to the range of `i64`.
pub open spec fn offset_of(page: i64) -> int {
    let exact = (page - 1) * ITEMS_PER_PAGE;
    if exact < i64::MIN {
        i64::MIN as int
    } else if exact > i64::MAX {
        i64::MAX as int
    } else {
        exact
    }
}

/// The number of rows that lie before `page`. A page so far out that the
/// product leaves `i64` gets the nearest bound: no table has a row there.
pub fn page_offset(page: i64) -> (offset: i64)
    ensures
        offset == offset_of(page),
        -900_000_000_000_000_000 <= page <= 900_000_000_000_000_000 ==> offset == (page - 1)
            * ITEMS_PER_PAGE,
{
    if page > 922_337_203_685_477_581 {
        i64::MAX
    } else if page < -922_337_203_685_477_579 {
        i64::MIN
    } else {
        (page - 1) * ITEMS_PER_PAGE
    }
}

/// Pages needed for `total` rows: the quotient of `total + ITEMS_PER_PAGE - 1`
/// by `ITEMS_PER_PAGE`, rounded towards zero.
pub open spec fn pages_for(total: int) -> int {
    let padded = total + ITEMS_PER_PAGE - 1;
    if padded >= 0 {
        padded / (ITEMS_PER_PAGE as int)
    } else {
        -((-padded) / (ITEMS_PER_PAGE as int))
    }
}

/// The number of pages that `total_count` rows fill.
pub fn total_pages(total_count: i64) -> (pages: i64)
    ensures
        pages == pages_for(total_count as int),
        total_count >= 0 ==> (pages - 1) * ITEMS_PER_PAGE < total_count <= pages * ITEMS_PER_PAGE,
{
    if total_count > 0 {
        (total_count - 1) / ITEMS_PER_PAGE + 1
    } else if total_count > -ITEMS_PER_PAGE {
        0
    } else {
        let padded: i64 = -(total_count + (ITEMS_PER_PAGE - 1));
        -(padded / ITEMS_PER_PAGE)
    }
}

/// What a listing of products asks of a product's type.
#[derive(Clone, Copy, Debug, PartialEq, Eq, Structural)]
pub enum TypeIdFilter {
    /// Any type, or none.
    Unspecified,
    /// No type.
    IsNull,
    /// The type with this id.
    Equal(i64),
}

/// The filter that the text of a `type_id` parameter names: `null` asks for
/// products without a type, a decimal integer for those of that type, and
/// any other text, like a missing parameter, for all products.
pub open spec fn filter_of(type_id: Option<Seq<char>>) -> TypeIdFilter {
    match type_id {
        None => TypeIdFilter::Unspecified,
        Some(s) => if s == "null"@ {
            TypeIdFilter::IsNull
        } else {
            match integer_within(s, i64::MIN as int, i64::MAX as int) {
                Some(id) => TypeIdFilter::Equal(id as i64),
                None => TypeIdFilter::Unspecified,
            }
        },
    }
}

/// Reads the `type_id` parameter of a query.
pub fn type_filter(type_id: &Option<String>) -> (filter: TypeIdFilter)
    ensures
        filter == filter_of(type_id.deep_view()),
{
    match type_id {
        None => TypeIdFilter::Unspecified,
        Some(s) => {
            if same_text(s.as_str(), "null") {
                TypeIdFilter::IsNull
            } else {
                match parse_i64(s.as_str()) {
                    Some(id) => TypeIdFilter::Equal(id),
                    None => TypeIdFilter::Unspecified,
                }
            }
        },
    }
}

} // verus!

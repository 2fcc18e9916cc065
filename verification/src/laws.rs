//! What holds of the catalog whatever it holds: each law is stated over the
//! effects of the writes and the pages of the listings, and proved.

use crate::effects::{
    deleted_type, disk_of, effect_of, files_saved, has_room, images_added, images_cleared,
    outcome_of, paths_owned, resolved, run_is_effect, trees_removed,
};
use crate::handlers::product_type::{type_rows_of, types_found, types_listed};
use crate::handlers::products::{product_rows_of, products_found, products_listed};
use crate::listing::PageRequestView;
use crate::pagination::{offset_of, pages_for, ITEMS_PER_PAGE};
use crate::response::{endpoint_of, status_of};
use crate::rows::{
    first_type, image_picked, images_where, product_has_type, product_picked, products_where,
    types_where, window, window_start, ImagePick, ImageRowView, ProductPick, ProductRowView,
    TypePick, TypeRowView,
};
use crate::seqs::{
    filter_agrees, filter_counts_add, filter_counts_split, filter_keeps_all, filter_keeps_none,
    filter_twice,
};
use crate::sql::{Owner, ProductFieldsView};
use crate::runner::{perform, run_from, Disk};
use crate::sql::{
    count_products_head, count_types_head, page_of_products_head, page_of_products_tail,
    page_of_types_head, page_of_types_tail, product_predicate, product_predicate_values, sql_of,
    type_predicate, values_of, SqlValueView,
};
use crate::store::CatalogView;
use crate::tables::{
    apply_keeps_wf, ascending, ascending_is_short, filter_keeps_ascending, image_of, one_owner,
    path_of, product_key, renamed, type_key, with_fields, Tables,
};
use crate::transaction::{
    fields_of, name_to_resolve, owner_of, paths_of, steps_left, transition, transition_descends,
    ActionView, CommandView, EventView, Outcome, Progress, Rejection,
};
use vstd::prelude::*;

verus! {

/// The rows that page `page` shows of `total` rows.
pub open spec fn rows_on_page(total: int, page: int) -> int {
    let start = if (page - 1) * ITEMS_PER_PAGE < total {
        (page - 1) * ITEMS_PER_PAGE
    } else {
        total
    };
    let end = if page * ITEMS_PER_PAGE < total {
        page * ITEMS_PER_PAGE
    } else {
        total
    };
    end - start
}

/// The rows that the pages from 1 to `pages` show of `total` rows.
pub open spec fn rows_up_to(total: int, pages: nat) -> int
    decreases pages,
{
    if pages == 0 {
        0
    } else {
        rows_up_to(total, (pages - 1) as nat) + rows_on_page(total, pages as int)
    }
}

proof fn rows_up_to_is_min(total: int, pages: nat)
    requires
        0 <= total,
    ensures
        rows_up_to(total, pages) == if pages * ITEMS_PER_PAGE < total {
            pages * ITEMS_PER_PAGE
        } else {
            total
        },
    decreases pages,
{
    if pages > 0 {
        rows_up_to_is_min(total, (pages - 1) as nat);
    }
}

proof fn page_length<T>(rows: Seq<T>, page: i64)
    requires
        1 <= page <= 922_337_203_685_477_581,
    ensures
        window(rows, offset_of(page) as i64, ITEMS_PER_PAGE).len() == rows_on_page(
            rows.len() as int,
            page as int,
        ),
{
}

/// The same request for another page.
pub open spec fn on_page(request: PageRequestView, page: nat) -> PageRequestView {
    PageRequestView { page: page as i64, ..request }
}

/// The number of product types listed on the pages from 1 to `pages`.
pub open spec fn types_listed_up_to(t: Tables, request: PageRequestView, pages: nat) -> int
    decreases pages,
{
    if pages == 0 {
        0
    } else {
        types_listed_up_to(t, request, (pages - 1) as nat) + types_listed(
            t,
            on_page(request, pages),
        ).0.len()
    }
}

/// The number of products listed on the pages from 1 to `pages`.
pub open spec fn products_listed_up_to(t: Tables, request: PageRequestView, pages: nat) -> int
    decreases pages,
{
    if pages == 0 {
        0
    } else {
        products_listed_up_to(t, request, (pages - 1) as nat) + products_listed(
            t,
            on_page(request, pages),
        ).0.len()
    }
}

proof fn types_up_to(t: Tables, request: PageRequestView, pages: nat)
    requires
        pages <= 922_337_203_685_477_581,
    ensures
        types_listed_up_to(t, request, pages) == rows_up_to(
            types_found(t, request.search).len() as int,
            pages,
        ),
    decreases pages,
{
    if pages > 0 {
        types_up_to(t, request, (pages - 1) as nat);
        page_length(types_found(t, request.search), pages as i64);
    }
}

proof fn products_up_to(t: Tables, request: PageRequestView, pages: nat)
    requires
        pages <= 922_337_203_685_477_581,
    ensures
        products_listed_up_to(t, request, pages) == rows_up_to(
            products_found(t, request).len() as int,
            pages,
        ),
    decreases pages,
{
    if pages > 0 {
        products_up_to(t, request, (pages - 1) as nat);
        page_length(products_found(t, on_page(request, pages)), pages as i64);
    }
}

/// The pages of a listing of product types, from the first to the one that
/// the listing names as last, hold as many entries between them as the
/// listing counts: none is missing and none comes twice. The count and each
/// page are taken from the same rows, those that the search finds.
pub proof fn type_pages_hold_every_row(t: Tables, request: PageRequestView)
    requires
        t.wf(),
    ensures
        types_listed(t, request).1.total_items == types_found(t, request.search).len(),
        types_listed(t, request).1.total_pages >= 0,
        types_listed_up_to(t, request, types_listed(t, request).1.total_pages as nat)
            == types_listed(t, request).1.total_items,
{
    let found = types_found(t, request.search);
    t.types.lemma_filter_len(types_where(TypePick::NameContains(request.search), true));
    ascending_is_short(t.types, type_key(), t.next_type_id);
    let pages = pages_for(found.len() as int);
    rows_up_to_is_min(found.len() as int, pages as nat);
    types_up_to(t, request, pages as nat);
}

/// The pages of a listing of products hold as many entries between them as
/// the listing counts, for every search term and type filter.
pub proof fn product_pages_hold_every_row(t: Tables, request: PageRequestView)
    requires
        t.wf(),
    ensures
        products_listed(t, request).1.total_items == products_found(t, request).len(),
        products_listed(t, request).1.total_pages >= 0,
        products_listed_up_to(t, request, products_listed(t, request).1.total_pages as nat)
            == products_listed(t, request).1.total_items,
{
    let found = products_found(t, request);
    t.products.lemma_filter_len(
        products_where(
            ProductPick::Listed { search: request.search, filter: request.filter },
            true,
        ),
    );
    ascending_is_short(t.products, product_key(), t.next_product_id);
    let pages = pages_for(found.len() as int);
    rows_up_to_is_min(found.len() as int, pages as nat);
    products_up_to(t, request, pages as nat);
}

/// A page lists its product types by ascending id, each once.
pub proof fn type_pages_ascend(t: Tables, request: PageRequestView)
    requires
        t.wf(),
    ensures
        ascending(type_rows_of(t, request), type_key(), t.next_type_id),
{
    let found = types_found(t, request.search);
    filter_keeps_ascending(
        t.types,
        type_key(),
        t.next_type_id,
        types_where(TypePick::NameContains(request.search), true),
    );
    let rows = type_rows_of(t, request);
    let start = window_start(found.len() as int, offset_of(request.page) as i64);
    assert forall|i: int| 0 <= i < rows.len() implies 1 <= #[trigger] type_key()(rows[i])
        < t.next_type_id by {
        assert(rows[i] == found[start + i]);
    }
    assert forall|i: int, j: int| 0 <= i < j < rows.len() implies #[trigger] type_key()(rows[i])
        < #[trigger] type_key()(rows[j]) by {
        assert(rows[i] == found[start + i]);
        assert(rows[j] == found[start + j]);
    }
}

/// A page lists its products by ascending id, each once.
pub proof fn product_pages_ascend(t: Tables, request: PageRequestView)
    requires
        t.wf(),
    ensures
        forall|i: int, j: int|
            0 <= i < j < product_rows_of(t, request).len() ==> (
            #[trigger] product_rows_of(t, request)[i]).row.id < (#[trigger] product_rows_of(
                t,
                request,
            )[j]).row.id,
{
    let found = products_found(t, request);
    filter_keeps_ascending(
        t.products,
        product_key(),
        t.next_product_id,
        products_where(
            ProductPick::Listed { search: request.search, filter: request.filter },
            true,
        ),
    );
    let rows = product_rows_of(t, request);
    let start = window_start(found.len() as int, offset_of(request.page) as i64);
    assert forall|i: int, j: int| 0 <= i < j < rows.len() implies (#[trigger] rows[i]).row.id < (
    #[trigger] rows[j]).row.id by {
        assert(rows[i].row == found[start + i]);
        assert(rows[j].row == found[start + j]);
        assert(product_key()(found[start + i]) < product_key()(found[start + j]));
    }
}

/// The statement that counts and the statement that reads a page share
/// their `WHERE` clause and the values bound to it; the page adds only its
/// order, limit and offset.
pub proof fn page_and_count_share_predicate(request: PageRequestView)
    ensures
        sql_of(request.count_products()) == count_products_head() + product_predicate(
            request.filter,
        ),
        sql_of(request.page_of_products()) == page_of_products_head() + product_predicate(
            request.filter,
        ) + page_of_products_tail(),
        values_of(request.count_products()) == product_predicate_values(
            request.search,
            request.filter,
        ),
        values_of(request.page_of_products()) == product_predicate_values(
            request.search,
            request.filter,
        ) + seq![
            SqlValueView::Integer(ITEMS_PER_PAGE),
            SqlValueView::Integer(offset_of(request.page) as i64),
        ],
        sql_of(request.count_types()) == count_types_head() + type_predicate(),
        sql_of(request.page_of_types()) == page_of_types_head() + type_predicate()
            + page_of_types_tail(),
        values_of(request.count_types()) == seq![SqlValueView::Text(request.search)],
        values_of(request.page_of_types()) == seq![SqlValueView::Text(request.search)] + seq![
            SqlValueView::Integer(ITEMS_PER_PAGE),
            SqlValueView::Integer(offset_of(request.page) as i64),
        ],
{
    assert(values_of(request.page_of_types()) =~= seq![SqlValueView::Text(request.search)] + seq![
        SqlValueView::Integer(ITEMS_PER_PAGE),
        SqlValueView::Integer(offset_of(request.page) as i64),
    ]);
}

proof fn run_keeps_wf(cmd: CommandView, p: Progress, e: EventView, c: CatalogView, d: Disk)
    requires
        c.wf(),
    ensures
        run_from(cmd, p, e, c, d).0.wf(),
    decreases steps_left(cmd, p),
{
    let step = transition(cmd, p, e);
    transition_descends(cmd, p, e);
    match step.1 {
        ActionView::Respond(_) => {},
        ActionView::Run(s) => {
            apply_keeps_wf(c.live, s);
            run_keeps_wf(
                cmd,
                step.0,
                perform(c, d, step.1).2,
                perform(c, d, step.1).0,
                perform(c, d, step.1).1,
            );
        },
        _ => {
            run_keeps_wf(
                cmd,
                step.0,
                perform(c, d, step.1).2,
                perform(c, d, step.1).0,
                perform(c, d, step.1).1,
            );
        },
    }
}

/// Whatever a write does, it leaves the tables well-formed; so no image has
/// both a product type and a product for its owner, and none has neither.
pub proof fn every_image_keeps_one_owner(cmd: CommandView, c: CatalogView)
    requires
        c.wf(),
        paths_of(cmd).len() <= usize::MAX,
    ensures
        outcome_of(cmd, c).0.wf(),
        forall|i: int|
            0 <= i < outcome_of(cmd, c).0.live.images.len() ==> one_owner(
                #[trigger] outcome_of(cmd, c).0.live.images[i],
            ),
{
    run_is_effect(cmd, c);
    run_keeps_wf(cmd, Progress::initial(), EventView::Start, c, Disk::untouched());
}

proof fn no_such_name(types: Seq<TypeRowView>, name: Seq<char>)
    requires
        forall|i: int| 0 <= i < types.len() ==> (#[trigger] types[i]).name != name,
    ensures
        first_type(types, TypePick::Named(name)) is None,
    decreases types.len(),
{
    if types.len() > 0 {
        assert forall|i: int| 0 <= i < types.drop_last().len() implies (
        #[trigger] types.drop_last()[i]).name != name by {
            assert(types.drop_last()[i] == types[i]);
        }
        no_such_name(types.drop_last(), name);
        assert(types.last() == types[types.len() - 1]);
    }
}

/// A product written with the name of a type that no product type bears is
/// turned down as the caller's error, and nothing changes: no product is
/// inserted or updated, no image row is written, no file is saved and no
/// directory removed.
pub proof fn unknown_type_name_changes_nothing(cmd: CommandView, c: CatalogView, name: Seq<char>)
    requires
        cmd is CreateProduct || cmd is UpdateProduct,
        name_to_resolve(cmd) == Some(name),
        forall|i: int| 0 <= i < c.live.types.len() ==> (#[trigger] c.live.types[i]).name != name,
    ensures
        outcome_of(cmd, c) == (c, Outcome::Rejected(Rejection::UnknownTypeName)),
        status_of(endpoint_of(cmd), outcome_of(cmd, c).1) == 400,
        disk_of(cmd, c) == Disk::untouched(),
{
    no_such_name(c.live.types, name);
    assert(trees_removed(cmd, c.live) =~= Seq::empty());
}

/// A request that is turned down, for whatever reason, changes no table,
/// saves no file and removes no directory.
pub proof fn a_request_turned_down_changes_nothing(cmd: CommandView, c: CatalogView)
    requires
        outcome_of(cmd, c).1 is Rejected,
    ensures
        outcome_of(cmd, c).0 == c,
        status_of(endpoint_of(cmd), outcome_of(cmd, c).1) == 400,
        disk_of(cmd, c) == Disk::untouched(),
{
    assert(trees_removed(cmd, c.live) =~= Seq::empty());
}

/// The images of a product type itself.
pub open spec fn images_of_type(t: Tables, id: i64) -> Seq<ImageRowView> {
    t.images.filter(images_where(ImagePick::OwnedBy(Owner::Type(id)), t.products, true))
}

/// The images of one product.
pub open spec fn images_of_product(t: Tables, id: i64) -> Seq<ImageRowView> {
    t.images.filter(images_where(ImagePick::OwnedBy(Owner::Product(id)), t.products, true))
}

/// The products of a product type.
pub open spec fn products_of_type(t: Tables, id: i64) -> Seq<ProductRowView> {
    t.products.filter(products_where(ProductPick::OfType(id), true))
}

/// The images of the products of a product type.
pub open spec fn images_of_products_of_type(t: Tables, id: i64) -> Seq<ImageRowView> {
    t.images.filter(images_where(ImagePick::OfProductsOfType(id), t.products, true))
}

/// After a product type is deleted, no row names it: no type has its id, no
/// product has it for its type, no image has it for its owner, and no image
/// is left of a product that went with it. Exactly the type's products are
/// gone, and of the images exactly the type's own and those of its products.
pub proof fn deleted_type_leaves_no_orphans(t: Tables, id: i64)
    requires
        t.wf(),
    ensures
        ({
            let after = deleted_type(t, id).0;
            &&& forall|i: int| 0 <= i < after.types.len() ==> (#[trigger] after.types[i]).id != id
            &&& forall|i: int|
                0 <= i < after.products.len() ==> (
                #[trigger] after.products[i]).fields.products_type_id != Some(id)
            &&& forall|i: int|
                0 <= i < after.images.len() ==> (#[trigger] after.images[i]).product_type_id
                    != Some(id)
            &&& forall|i: int|
                0 <= i < after.images.len() ==> !image_picked(
                    ImagePick::OfProductsOfType(id),
                    t.products,
                    #[trigger] after.images[i],
                )
            &&& t.types.len() - after.types.len() == t.types.filter(
                types_where(TypePick::WithId(id), true),
            ).len()
            &&& t.products.len() - after.products.len() == products_of_type(t, id).len()
            &&& t.images.len() - after.images.len() == images_of_type(t, id).len()
                + images_of_products_of_type(t, id).len()
        }),
{
    let after = deleted_type(t, id).0;
    let other_type = types_where(TypePick::WithId(id), false);
    let this_type = types_where(TypePick::WithId(id), true);
    let other_products = products_where(ProductPick::OfType(id), false);
    let these_products = products_where(ProductPick::OfType(id), true);
    let not_own = images_where(ImagePick::OwnedBy(Owner::Type(id)), t.products, false);
    let own = images_where(ImagePick::OwnedBy(Owner::Type(id)), t.products, true);
    let not_theirs = images_where(ImagePick::OfProductsOfType(id), t.products, false);
    let theirs = images_where(ImagePick::OfProductsOfType(id), t.products, true);
    let neither = |row: ImageRowView| not_own(row) && not_theirs(row);
    let either = |row: ImageRowView| own(row) || theirs(row);
    assert forall|i: int| 0 <= i < after.types.len() implies (#[trigger] after.types[i]).id
        != id by {
        t.types.lemma_filter_pred(other_type, i);
    }
    assert forall|i: int| 0 <= i < after.products.len() implies (
    #[trigger] after.products[i]).fields.products_type_id != Some(id) by {
        t.products.lemma_filter_pred(other_products, i);
    }
    filter_twice(t.images, not_own, not_theirs, neither);
    assert forall|i: int| 0 <= i < after.images.len() implies (
    #[trigger] after.images[i]).product_type_id != Some(id) && !image_picked(
        ImagePick::OfProductsOfType(id),
        t.products,
        after.images[i],
    ) by {
        t.images.lemma_filter_pred(neither, i);
    }
    filter_counts_split(t.types, this_type, other_type);
    filter_counts_split(t.products, these_products, other_products);
    filter_counts_split(t.images, either, neither);
    assert forall|i: int| 0 <= i < t.images.len() implies !(#[trigger] own(t.images[i])
        && theirs(t.images[i])) by {
        assert(one_owner(t.images[i]));
    }
    filter_counts_add(t.images, own, theirs, either);
}

/// Of `products`, the first `k`.
spec fn first_products(products: Seq<ProductRowView>, k: int) -> Seq<ProductRowView> {
    products.subrange(0, k)
}

proof fn cascade_counts(t: Tables, id: i64, m: nat, k: int)
    requires
        t.wf(),
        0 <= k <= t.products.len(),
        forall|j: int|
            0 <= j < t.products.len() && product_picked(
                ProductPick::OfType(id),
                #[trigger] t.products[j],
            ) ==> images_of_product(t, t.products[j].id).len() == m,
    ensures
        t.images.filter(
            images_where(
                ImagePick::OfProductsOfType(id),
                first_products(t.products, k),
                true,
            ),
        ).len() == first_products(t.products, k).filter(
            products_where(ProductPick::OfType(id), true),
        ).len() * m,
    decreases k,
{
    let of_type = products_where(ProductPick::OfType(id), true);
    let now = images_where(ImagePick::OfProductsOfType(id), first_products(t.products, k), true);
    if k == 0 {
        assert(first_products(t.products, 0) =~= Seq::empty());
        assert forall|i: int| 0 <= i < t.images.len() implies !now(#[trigger] t.images[i]) by {}
        filter_keeps_none(t.images, now);
        assert(first_products(t.products, 0).filter(of_type).len() == 0) by {
            reveal(Seq::filter);
        }
        assert(0 * m == 0) by (nonlinear_arith);
    } else {
        cascade_counts(t, id, m, k - 1);
        let before_rows = first_products(t.products, k - 1);
        let rows = first_products(t.products, k);
        let last = t.products[k - 1];
        let before = images_where(ImagePick::OfProductsOfType(id), before_rows, true);
        assert(rows =~= before_rows.push(last));
        before_rows.lemma_filter_push(last, of_type);
        let n_before = before_rows.filter(of_type).len();
        assert forall|pid: i64| #[trigger]
            product_has_type(rows, pid, id) == (product_has_type(before_rows, pid, id) || (last.id
                == pid && last.fields.products_type_id == Some(id))) by {
            if product_has_type(rows, pid, id) {
                let j = choose|j: int|
                    0 <= j < rows.len() && (#[trigger] rows[j]).id == pid
                        && rows[j].fields.products_type_id == Some(id);
                if j < k - 1 {
                    assert(before_rows[j] == rows[j]);
                }
            }
            if product_has_type(before_rows, pid, id) {
                let j = choose|j: int|
                    0 <= j < before_rows.len() && (#[trigger] before_rows[j]).id == pid
                        && before_rows[j].fields.products_type_id == Some(id);
                assert(rows[j] == before_rows[j]);
            }
            if last.id == pid && last.fields.products_type_id == Some(id) {
                assert(rows[k - 1] == last);
            }
        }
        if product_picked(ProductPick::OfType(id), last) {
            let his = images_where(ImagePick::OwnedBy(Owner::Product(last.id)), t.products, true);
            assert forall|i: int| 0 <= i < t.images.len() implies #[trigger] now(t.images[i]) == (
            before(t.images[i]) || his(t.images[i])) by {
                let row = t.images[i];
                match row.product_id {
                    Some(pid) => {
                        assert(product_has_type(rows, pid, id) == (product_has_type(
                            before_rows,
                            pid,
                            id,
                        ) || (last.id == pid && last.fields.products_type_id == Some(id))));
                    },
                    None => {},
                }
            }
            assert forall|i: int| 0 <= i < t.images.len() implies !(#[trigger] before(
                t.images[i],
            ) && his(t.images[i])) by {
                let row = t.images[i];
                if before(row) && his(row) {
                    let pid = last.id;
                    let j = choose|j: int|
                        0 <= j < before_rows.len() && (#[trigger] before_rows[j]).id == pid
                            && before_rows[j].fields.products_type_id == Some(id);
                    assert(before_rows[j] == t.products[j]);
                    assert(product_key()(t.products[j]) < product_key()(t.products[k - 1]));
                }
            }
            filter_counts_add(t.images, before, his, now);
            assert(images_of_product(t, last.id).len() == m);
            assert((n_before + 1) * m == n_before * m + m) by (nonlinear_arith);
        } else {
            assert forall|i: int| 0 <= i < t.images.len() implies #[trigger] now(t.images[i])
                == before(t.images[i]) by {
                let row = t.images[i];
                match row.product_id {
                    Some(pid) => {
                        assert(product_has_type(rows, pid, id) == (product_has_type(
                            before_rows,
                            pid,
                            id,
                        ) || (last.id == pid && last.fields.products_type_id == Some(id))));
                    },
                    None => {},
                }
            }
            filter_agrees(t.images, now, before);
        }
    }
}

/// A product type that exists is one row, and its deletion removes that
/// one row and no other.
pub proof fn deleted_type_is_one_row(t: Tables, id: i64)
    requires
        t.wf(),
        has_type(t.types, id),
    ensures
        t.types.len() - deleted_type(t, id).0.types.len() == 1,
{
    let this_type = types_where(TypePick::WithId(id), true);
    let other_type = types_where(TypePick::WithId(id), false);
    let hits = t.types.filter(this_type);
    filter_counts_split(t.types, this_type, other_type);
    filter_keeps_ascending(t.types, type_key(), t.next_type_id, this_type);
    let i = choose|i: int| 0 <= i < t.types.len() && (#[trigger] t.types[i]).id == id;
    t.types.lemma_filter_contains(this_type, i);
    if hits.len() > 1 {
        t.types.lemma_filter_pred(this_type, 0);
        t.types.lemma_filter_pred(this_type, 1);
        assert(type_key()(hits[0]) < type_key()(hits[1]));
    }
}

/// Where a product type has N products and each of them M images, its
/// deletion removes N products and N times M images of products, besides
/// the type's own images.
pub proof fn deleted_type_takes_the_images_of_its_products(t: Tables, id: i64, m: nat)
    requires
        t.wf(),
        forall|j: int|
            0 <= j < t.products.len() && product_picked(
                ProductPick::OfType(id),
                #[trigger] t.products[j],
            ) ==> images_of_product(t, t.products[j].id).len() == m,
    ensures
        images_of_products_of_type(t, id).len() == products_of_type(t, id).len() * m,
        t.products.len() - deleted_type(t, id).0.products.len() == products_of_type(t, id).len(),
        t.images.len() - deleted_type(t, id).0.images.len() == images_of_type(t, id).len()
            + products_of_type(t, id).len() * m,
{
    cascade_counts(t, id, m, t.products.len() as int);
    assert(first_products(t.products, t.products.len() as int) =~= t.products);
    deleted_type_leaves_no_orphans(t, id);
}

/// The images of all other owners.
pub open spec fn images_of_others(t: Tables, owner: Owner) -> Seq<ImageRowView> {
    t.images.filter(images_where(ImagePick::OwnedBy(owner), t.products, false))
}

proof fn replaced_images(t: Tables, owner: Owner, paths: Seq<Seq<char>>)
    ensures
        ({
            let after = images_added(images_cleared(t, owner), paths, owner);
            &&& paths_owned(after, owner) == paths
            &&& images_of_others(after, owner) == images_of_others(t, owner)
            &&& after.images.len() == images_of_others(t, owner).len() + paths.len()
        }),
{
    let after = images_added(images_cleared(t, owner), paths, owner);
    let owned = images_where(ImagePick::OwnedBy(owner), t.products, true);
    let not_owned = images_where(ImagePick::OwnedBy(owner), t.products, false);
    let others = t.images.filter(not_owned);
    let fresh = Seq::new(
        paths.len(),
        |k: int| image_of((images_cleared(t, owner).next_image_id + k) as i64, paths[k], owner),
    );
    assert(after.images == others + fresh);
    assert forall|i: int| 0 <= i < others.len() implies !owned(#[trigger] others[i])
        && not_owned(others[i]) by {
        t.images.lemma_filter_pred(not_owned, i);
    }
    assert forall|i: int| 0 <= i < fresh.len() implies owned(#[trigger] fresh[i]) && !not_owned(
        fresh[i],
    ) by {}
    filter_keeps_none(others, owned);
    filter_keeps_all(fresh, owned);
    filter_keeps_all(others, not_owned);
    filter_keeps_none(fresh, not_owned);
    Seq::filter_distributes_over_add(others, fresh, owned);
    Seq::filter_distributes_over_add(others, fresh, not_owned);
    assert(after.images.filter(owned) =~= fresh);
    assert(after.images.filter(not_owned) =~= others);
    assert(fresh.map_values(path_of()) =~= paths);
}

proof fn hit_stays<T>(rows: Seq<T>, hit: spec_fn(T) -> bool, change: spec_fn(T) -> T)
    requires
        rows.filter(hit).len() > 0,
        forall|row: T| hit(#[trigger] change(row)) == hit(row),
    ensures
        rows.map_values(change).filter(hit).len() > 0,
{
    if forall|i: int| 0 <= i < rows.len() ==> !hit(#[trigger] rows[i]) {
        filter_keeps_none(rows, hit);
    }
    let i = choose|i: int| 0 <= i < rows.len() && hit(#[trigger] rows[i]);
    let changed = rows.map_values(change);
    assert(hit(changed[i]));
    changed.lemma_filter_contains(hit, i);
}

/// Whether the row that an update names exists.
pub open spec fn row_exists(cmd: CommandView, t: Tables) -> bool {
    match cmd {
        CommandView::UpdateType { id, .. } => t.types.filter(
            types_where(TypePick::WithId(id), true),
        ).len() > 0,
        CommandView::UpdateProduct { id, .. } => t.products.filter(
            products_where(ProductPick::WithId(id), true),
        ).len() > 0,
        _ => false,
    }
}

/// An update whose row exists leaves its owner with exactly the image paths
/// of the request, in their order: none of the old ones, none twice.
pub proof fn updated_owner_has_the_new_paths(cmd: CommandView, t: Tables)
    requires
        cmd is UpdateType || cmd is UpdateProduct,
        effect_of(cmd, t).1 == Outcome::Done,
        row_exists(cmd, t),
    ensures
        paths_owned(effect_of(cmd, t).0, owner_of(cmd, Progress::initial())) == paths_of(cmd),
{
    match cmd {
        CommandView::UpdateType { id, name, image_paths } => {
            replaced_images(
                Tables { types: t.types.map_values(renamed(id, name)), ..t },
                Owner::Type(id),
                image_paths,
            );
        },
        CommandView::UpdateProduct { id, product, image_paths } => {
            let type_id = resolved(t, name_to_resolve(cmd))->0;
            replaced_images(
                Tables {
                    products: t.products.map_values(with_fields(id, fields_of(product, type_id))),
                    ..t
                },
                Owner::Product(id),
                image_paths,
            );
        },
        _ => {},
    }
}

proof fn update_twice_where_both_end_well(cmd: CommandView, t: Tables)
    requires
        cmd is UpdateType || cmd is UpdateProduct,
        effect_of(cmd, t).1 == Outcome::Done,
        effect_of(cmd, effect_of(cmd, t).0).1 == Outcome::Done,
    ensures
        ({
            let once = effect_of(cmd, t).0;
            let twice = effect_of(cmd, once).0;
            let owner = owner_of(cmd, Progress::initial());
            &&& twice.types == once.types
            &&& twice.products == once.products
            &&& twice.images.len() == once.images.len()
            &&& paths_owned(twice, owner) == paths_owned(once, owner)
            &&& images_of_others(twice, owner) == images_of_others(once, owner)
        }),
{
    let once = effect_of(cmd, t).0;
    let twice = effect_of(cmd, once).0;
    match cmd {
        CommandView::UpdateType { id, name, image_paths } => {
            let hit = types_where(TypePick::WithId(id), true);
            if t.types.filter(hit).len() > 0 {
                let first = Tables { types: t.types.map_values(renamed(id, name)), ..t };
                replaced_images(first, Owner::Type(id), image_paths);
                hit_stays(t.types, hit, renamed(id, name));
                let second = Tables { types: once.types.map_values(renamed(id, name)), ..once };
                assert(second.types =~= once.types);
                replaced_images(second, Owner::Type(id), image_paths);
            }
        },
        CommandView::UpdateProduct { id, product, image_paths } => {
            let hit = products_where(ProductPick::WithId(id), true);
            assert(resolved(once, name_to_resolve(cmd)) == resolved(t, name_to_resolve(cmd)));
            let type_id = resolved(t, name_to_resolve(cmd))->0;
            let change = with_fields(id, fields_of(product, type_id));
            if t.products.filter(hit).len() > 0 {
                let first = Tables { products: t.products.map_values(change), ..t };
                replaced_images(first, Owner::Product(id), image_paths);
                hit_stays(t.products, hit, change);
                let second = Tables { products: once.products.map_values(change), ..once };
                assert(second.products =~= once.products);
                replaced_images(second, Owner::Product(id), image_paths);
            }
        },
        _ => {},
    }
}

/// An update made twice with the same request leaves what it left the
/// first time: the same rows of types and products, as many image rows, the
/// same paths for the owner, and the images of all others untouched.
pub proof fn update_twice_is_update_once(cmd: CommandView, t: Tables)
    requires
        cmd is UpdateType || cmd is UpdateProduct,
    ensures
        ({
            let once = effect_of(cmd, t).0;
            let twice = effect_of(cmd, once).0;
            let owner = owner_of(cmd, Progress::initial());
            &&& twice.types == once.types
            &&& twice.products == once.products
            &&& twice.images.len() == once.images.len()
            &&& paths_owned(twice, owner) == paths_owned(once, owner)
            &&& images_of_others(twice, owner) == images_of_others(once, owner)
        }),
{
    let once = effect_of(cmd, t).0;
    if effect_of(cmd, t).1 == Outcome::Done {
        if effect_of(cmd, once).1 == Outcome::Done {
            update_twice_where_both_end_well(cmd, t);
        } else {
            assert(effect_of(cmd, once).0 == once);
        }
    } else {
        assert(once == t);
    }
}

/// Where an update ends well and the image table has ids left for as many
/// rows again, the same update made a second time ends well too and is
/// answered alike. It leaves the rows of types and products, the number of
/// image rows, the paths of the owner and the images of all others as the
/// first left them; and where the updated row exists, the owner's paths are
/// exactly those of the request, each once and in their order.
pub proof fn a_second_update_ends_well(cmd: CommandView, t: Tables)
    requires
        cmd is UpdateType || cmd is UpdateProduct,
        effect_of(cmd, t).1 == Outcome::Done,
        has_room(effect_of(cmd, t).0, paths_of(cmd).len()),
    ensures
        ({
            let once = effect_of(cmd, t).0;
            let twice = effect_of(cmd, once).0;
            let owner = owner_of(cmd, Progress::initial());
            &&& effect_of(cmd, once).1 == Outcome::Done
            &&& status_of(endpoint_of(cmd), effect_of(cmd, once).1) == 200
            &&& twice.types == once.types
            &&& twice.products == once.products
            &&& twice.images.len() == once.images.len()
            &&& paths_owned(twice, owner) == paths_owned(once, owner)
            &&& images_of_others(twice, owner) == images_of_others(once, owner)
            &&& row_exists(cmd, t) ==> paths_owned(twice, owner) == paths_of(cmd)
        }),
{
    if row_exists(cmd, t) {
        updated_owner_has_the_new_paths(cmd, t);
    }
    let once = effect_of(cmd, t).0;
    match cmd {
        CommandView::UpdateType { id, name, image_paths } => {
            let hit = types_where(TypePick::WithId(id), true);
            if t.types.filter(hit).len() > 0 {
                hit_stays(t.types, hit, renamed(id, name));
            }
        },
        CommandView::UpdateProduct { id, product, image_paths } => {
            let hit = products_where(ProductPick::WithId(id), true);
            assert(resolved(once, name_to_resolve(cmd)) == resolved(t, name_to_resolve(cmd)));
            let type_id = resolved(t, name_to_resolve(cmd))->0;
            if t.products.filter(hit).len() > 0 {
                hit_stays(t.products, hit, with_fields(id, fields_of(product, type_id)));
            }
        },
        _ => {},
    }
    update_twice_is_update_once(cmd, t);
}

proof fn added_to_a_new_owner(t: Tables, paths: Seq<Seq<char>>, owner: Owner)
    requires
        forall|i: int|
            0 <= i < t.images.len() ==> !image_picked(
                ImagePick::OwnedBy(owner),
                t.products,
                #[trigger] t.images[i],
            ),
    ensures
        paths_owned(images_added(t, paths, owner), owner) == paths,
{
    let after = images_added(t, paths, owner);
    let owned = images_where(ImagePick::OwnedBy(owner), t.products, true);
    let fresh = Seq::new(
        paths.len(),
        |k: int| image_of((t.next_image_id + k) as i64, paths[k], owner),
    );
    assert(after.images == t.images + fresh);
    assert forall|i: int| 0 <= i < fresh.len() implies owned(#[trigger] fresh[i]) by {}
    filter_keeps_none(t.images, owned);
    filter_keeps_all(fresh, owned);
    Seq::filter_distributes_over_add(t.images, fresh, owned);
    assert(after.images.filter(owned) =~= fresh);
    assert(fresh.map_values(path_of()) =~= paths);
}

/// The owner that a create brings into being.
pub open spec fn new_owner(cmd: CommandView, t: Tables) -> Owner {
    match cmd {
        CommandView::CreateProduct { .. } => Owner::Product(t.next_product_id),
        _ => Owner::Type(t.next_type_id),
    }
}

/// Disk and tables agree after a create that ends well: the new owner has
/// for its images exactly the files that were saved, in their order.
pub proof fn a_new_owner_has_the_saved_files(cmd: CommandView, t: Tables)
    requires
        cmd is CreateType || cmd is CreateProduct,
        t.wf(),
        references_hold(t),
        effect_of(cmd, t).1 == Outcome::Done,
    ensures
        files_saved(cmd, t) == paths_of(cmd),
        paths_owned(effect_of(cmd, t).0, new_owner(cmd, t)) == files_saved(cmd, t),
{
    let paths = paths_of(cmd);
    let owner = new_owner(cmd, t);
    match cmd {
        CommandView::CreateType { name, .. } => {
            let written = Tables {
                types: t.types.push(TypeRowView { id: t.next_type_id, name }),
                next_type_id: (t.next_type_id + 1) as i64,
                ..t
            };
            assert forall|i: int| 0 <= i < written.images.len() implies !image_picked(
                ImagePick::OwnedBy(owner),
                written.products,
                #[trigger] written.images[i],
            ) by {
                assert(image_has_owner(t, t.images[i]));
                if t.images[i].product_type_id == Some(t.next_type_id) {
                    let j = choose|j: int|
                        0 <= j < t.types.len() && (#[trigger] t.types[j]).id == t.next_type_id;
                    assert(type_key()(t.types[j]) < t.next_type_id);
                }
            }
            added_to_a_new_owner(written, paths, owner);
        },
        CommandView::CreateProduct { product, .. } => {
            let type_id = resolved(t, name_to_resolve(cmd))->0;
            let written = Tables {
                products: t.products.push(
                    ProductRowView {
                        id: t.next_product_id,
                        fields: fields_of(product, type_id),
                        created_at: t.clock,
                    },
                ),
                next_product_id: (t.next_product_id + 1) as i64,
                ..t
            };
            assert forall|i: int| 0 <= i < written.images.len() implies !image_picked(
                ImagePick::OwnedBy(owner),
                written.products,
                #[trigger] written.images[i],
            ) by {
                assert(image_has_owner(t, t.images[i]));
                if t.images[i].product_id == Some(t.next_product_id) {
                    let j = choose|j: int|
                        0 <= j < t.products.len() && (#[trigger] t.products[j]).id
                            == t.next_product_id;
                    assert(product_key()(t.products[j]) < t.next_product_id);
                }
            }
            added_to_a_new_owner(written, paths, owner);
        },
        _ => {},
    }
}

/// A write that does not end well leaves every table as it was.
pub proof fn a_write_is_all_or_nothing(cmd: CommandView, c: CatalogView)
    ensures
        outcome_of(cmd, c).1 != Outcome::Done ==> outcome_of(cmd, c).0 == c,
{
}

/// Empty tables are well-formed, and nothing in them names a row that is
/// not there.
pub proof fn empty_tables_are_sound()
    ensures
        Tables::empty().wf(),
        references_hold(Tables::empty()),
{
}

/// Whether a product type with this id exists.
pub open spec fn has_type(types: Seq<TypeRowView>, id: i64) -> bool {
    exists|i: int| 0 <= i < types.len() && (#[trigger] types[i]).id == id
}

/// Whether a product with this id exists.
pub open spec fn has_product(products: Seq<ProductRowView>, id: i64) -> bool {
    exists|i: int| 0 <= i < products.len() && (#[trigger] products[i]).id == id
}

/// The owner that an image names exists.
pub open spec fn image_has_owner(t: Tables, row: ImageRowView) -> bool {
    &&& row.product_type_id matches Some(id) ==> has_type(t.types, id)
    &&& row.product_id matches Some(id) ==> has_product(t.products, id)
}

/// Every image belongs to a row that exists, and every product that names
/// a type names one that exists.
pub open spec fn references_hold(t: Tables) -> bool {
    &&& forall|i: int| 0 <= i < t.images.len() ==> image_has_owner(t, #[trigger] t.images[i])
    &&& forall|i: int|
        0 <= i < t.products.len() ==> ((#[trigger] t.products[i]).fields.products_type_id matches Some(
            id,
        ) ==> has_type(t.types, id))
}

proof fn found_type_exists(types: Seq<TypeRowView>, pick: TypePick)
    ensures
        first_type(types, pick) matches Some(row) ==> has_type(types, row.id),
    decreases types.len(),
{
    if types.len() > 0 {
        found_type_exists(types.drop_last(), pick);
        match first_type(types.drop_last(), pick) {
            Some(row) => {
                let i = choose|i: int|
                    0 <= i < types.drop_last().len() && (#[trigger] types.drop_last()[i]).id
                        == row.id;
                assert(types[i].id == row.id);
            },
            None => {
                assert(types[types.len() - 1] == types.last());
            },
        }
    }
}

proof fn type_survives(types: Seq<TypeRowView>, id: i64, gone: i64)
    requires
        has_type(types, id),
        id != gone,
    ensures
        has_type(types.filter(types_where(TypePick::WithId(gone), false)), id),
{
    let keep = types_where(TypePick::WithId(gone), false);
    let i = choose|i: int| 0 <= i < types.len() && (#[trigger] types[i]).id == id;
    types.lemma_filter_contains(keep, i);
    let kept = types.filter(keep);
    let j = choose|j: int| 0 <= j < kept.len() && kept[j] == types[i];
    assert(kept[j].id == id);
}

proof fn product_survives(products: Seq<ProductRowView>, i: int, pick: ProductPick)
    requires
        0 <= i < products.len(),
        !product_picked(pick, products[i]),
    ensures
        has_product(products.filter(products_where(pick, false)), products[i].id),
{
    let keep = products_where(pick, false);
    products.lemma_filter_contains(keep, i);
    let kept = products.filter(keep);
    let j = choose|j: int| 0 <= j < kept.len() && kept[j] == products[i];
    assert(kept[j].id == products[i].id);
}

proof fn kept_is_old<T>(rows: Seq<T>, keep: spec_fn(T) -> bool, j: int) -> (i: int)
    requires
        0 <= j < rows.filter(keep).len(),
    ensures
        0 <= i < rows.len(),
        rows[i] == rows.filter(keep)[j],
        keep(rows[i]),
{
    rows.lemma_filter_pred(keep, j);
    rows.lemma_filter_contains_rev(keep, rows.filter(keep)[j]);
    choose|i: int| 0 <= i < rows.len() && rows[i] == rows.filter(keep)[j]
}

proof fn new_images_keep_references(t: Tables, paths: Seq<Seq<char>>, owner: Owner)
    requires
        references_hold(t),
        owner matches Owner::Type(id) ==> has_type(t.types, id),
        owner matches Owner::Product(id) ==> has_product(t.products, id),
    ensures
        references_hold(images_added(t, paths, owner)),
{
    let after = images_added(t, paths, owner);
    assert forall|i: int| 0 <= i < after.images.len() implies image_has_owner(
        after,
        #[trigger] after.images[i],
    ) by {
        if i < t.images.len() {
            assert(after.images[i] == t.images[i]);
            assert(image_has_owner(t, t.images[i]));
        }
    }
    assert forall|i: int| 0 <= i < after.products.len() implies ((
    #[trigger] after.products[i]).fields.products_type_id matches Some(id) ==> has_type(
        after.types,
        id,
    )) by {
        assert(after.products[i] == t.products[i]);
    }
}

proof fn cleared_images_keep_references(t: Tables, owner: Owner)
    requires
        references_hold(t),
    ensures
        references_hold(images_cleared(t, owner)),
{
    let after = images_cleared(t, owner);
    let keep = images_where(ImagePick::OwnedBy(owner), t.products, false);
    assert forall|j: int| 0 <= j < after.images.len() implies image_has_owner(
        after,
        #[trigger] after.images[j],
    ) by {
        let i = kept_is_old(t.images, keep, j);
        assert(image_has_owner(t, t.images[i]));
    }
    assert forall|i: int| 0 <= i < after.products.len() implies ((
    #[trigger] after.products[i]).fields.products_type_id matches Some(id) ==> has_type(
        after.types,
        id,
    )) by {
        assert(after.products[i] == t.products[i]);
    }
}

proof fn renamed_keeps_references(t: Tables, id: i64, name: Seq<char>)
    requires
        references_hold(t),
    ensures
        references_hold(Tables { types: t.types.map_values(renamed(id, name)), ..t }),
        forall|other: i64|
            has_type(t.types, other) ==> has_type(t.types.map_values(renamed(id, name)), other),
{
    let after = Tables { types: t.types.map_values(renamed(id, name)), ..t };
    assert forall|other: i64| has_type(t.types, other) implies has_type(after.types, other) by {
        let i = choose|i: int| 0 <= i < t.types.len() && (#[trigger] t.types[i]).id == other;
        assert(after.types[i].id == other);
    }
    assert forall|i: int| 0 <= i < after.images.len() implies image_has_owner(
        after,
        #[trigger] after.images[i],
    ) by {
        assert(image_has_owner(t, t.images[i]));
    }
    assert forall|i: int| 0 <= i < after.products.len() implies ((
    #[trigger] after.products[i]).fields.products_type_id matches Some(kind) ==> has_type(
        after.types,
        kind,
    )) by {
        assert(after.products[i] == t.products[i]);
    }
}

proof fn new_fields_keep_references(t: Tables, id: i64, fields: ProductFieldsView)
    requires
        references_hold(t),
        fields.products_type_id matches Some(kind) ==> has_type(t.types, kind),
    ensures
        references_hold(Tables { products: t.products.map_values(with_fields(id, fields)), ..t }),
        forall|other: i64|
            has_product(t.products, other) ==> has_product(
                t.products.map_values(with_fields(id, fields)),
                other,
            ),
{
    let after = Tables { products: t.products.map_values(with_fields(id, fields)), ..t };
    assert forall|other: i64| has_product(t.products, other) implies has_product(
        after.products,
        other,
    ) by {
        let i = choose|i: int| 0 <= i < t.products.len() && (#[trigger] t.products[i]).id == other;
        assert(after.products[i].id == other);
    }
    assert forall|i: int| 0 <= i < after.images.len() implies image_has_owner(
        after,
        #[trigger] after.images[i],
    ) by {
        assert(image_has_owner(t, t.images[i]));
    }
    assert forall|i: int| 0 <= i < after.products.len() implies ((
    #[trigger] after.products[i]).fields.products_type_id matches Some(kind) ==> has_type(
        after.types,
        kind,
    )) by {
        assert(after.products[i] == with_fields(id, fields)(t.products[i]));
        if t.products[i].id != id {
            assert(after.products[i] == t.products[i]);
        }
    }
}

proof fn hit_exists<T>(rows: Seq<T>, hit: spec_fn(T) -> bool) -> (i: int)
    requires
        rows.filter(hit).len() > 0,
    ensures
        0 <= i < rows.len(),
        hit(rows[i]),
{
    kept_is_old(rows, hit, 0)
}

proof fn deleted_type_keeps_references(t: Tables, id: i64)
    requires
        t.wf(),
        references_hold(t),
    ensures
        references_hold(deleted_type(t, id).0),
{
    let after = deleted_type(t, id).0;
    let not_own = images_where(ImagePick::OwnedBy(Owner::Type(id)), t.products, false);
    let not_theirs = images_where(ImagePick::OfProductsOfType(id), t.products, false);
    let other_products = products_where(ProductPick::OfType(id), false);
    assert forall|j: int| 0 <= j < after.images.len() implies image_has_owner(
        after,
        #[trigger] after.images[j],
    ) by {
        let mid = t.images.filter(not_own);
        let m = kept_is_old(mid, not_theirs, j);
        let i = kept_is_old(t.images, not_own, m);
        let row = t.images[i];
        assert(row == after.images[j]);
        assert(image_has_owner(t, row));
        match row.product_type_id {
            Some(kind) => {
                type_survives(t.types, kind, id);
            },
            None => {},
        }
        match row.product_id {
            Some(pid) => {
                let k = choose|k: int|
                    0 <= k < t.products.len() && (#[trigger] t.products[k]).id == pid;
                assert(!product_has_type(t.products, pid, id));
                product_survives(t.products, k, ProductPick::OfType(id));
            },
            None => {},
        }
    }
    assert forall|j: int| 0 <= j < after.products.len() implies ((
    #[trigger] after.products[j]).fields.products_type_id matches Some(kind) ==> has_type(
        after.types,
        kind,
    )) by {
        let i = kept_is_old(t.products, other_products, j);
        match t.products[i].fields.products_type_id {
            Some(kind) => {
                type_survives(t.types, kind, id);
            },
            None => {},
        }
    }
}

proof fn deleted_product_keeps_references(t: Tables, id: i64)
    requires
        t.wf(),
        references_hold(t),
    ensures
        references_hold(crate::effects::deleted_product(t, id).0),
{
    let after = crate::effects::deleted_product(t, id).0;
    let not_own = images_where(ImagePick::OwnedBy(Owner::Product(id)), t.products, false);
    let others = products_where(ProductPick::WithId(id), false);
    assert forall|j: int| 0 <= j < after.images.len() implies image_has_owner(
        after,
        #[trigger] after.images[j],
    ) by {
        let i = kept_is_old(t.images, not_own, j);
        let row = t.images[i];
        assert(image_has_owner(t, row));
        match row.product_id {
            Some(pid) => {
                let k = choose|k: int|
                    0 <= k < t.products.len() && (#[trigger] t.products[k]).id == pid;
                product_survives(t.products, k, ProductPick::WithId(id));
            },
            None => {},
        }
    }
    assert forall|j: int| 0 <= j < after.products.len() implies ((
    #[trigger] after.products[j]).fields.products_type_id matches Some(kind) ==> has_type(
        after.types,
        kind,
    )) by {
        let i = kept_is_old(t.products, others, j);
        assert(t.products[i] == after.products[j]);
    }
}

/// Where every image and every product names rows that exist, they still
/// do after any write: no image outlives its owner, and no product is left
/// with a type that is gone.
pub proof fn writes_keep_references(cmd: CommandView, t: Tables)
    requires
        t.wf(),
        references_hold(t),
    ensures
        references_hold(effect_of(cmd, t).0),
{
    if effect_of(cmd, t).1 == Outcome::Done {
        writes_done_keep_references(cmd, t);
    }
}

proof fn writes_done_keep_references(cmd: CommandView, t: Tables)
    requires
        t.wf(),
        references_hold(t),
        effect_of(cmd, t).1 == Outcome::Done,
    ensures
        references_hold(effect_of(cmd, t).0),
{
    match cmd {
        CommandView::CreateType { name, .. } => {
            let image_paths = paths_of(cmd);
            let row = TypeRowView { id: t.next_type_id, name };
            let written = Tables {
                types: t.types.push(row),
                next_type_id: (t.next_type_id + 1) as i64,
                ..t
            };
            assert forall|kind: i64| has_type(t.types, kind) implies has_type(
                written.types,
                kind,
            ) by {
                let i = choose|i: int| 0 <= i < t.types.len() && (#[trigger] t.types[i]).id == kind;
                assert(written.types[i].id == kind);
            }
            assert(written.types[t.types.len() as int].id == t.next_type_id);
            assert(references_hold(written)) by {
                assert forall|i: int| 0 <= i < written.images.len() implies image_has_owner(
                    written,
                    #[trigger] written.images[i],
                ) by {
                    assert(image_has_owner(t, t.images[i]));
                }
            }
            new_images_keep_references(written, image_paths, Owner::Type(t.next_type_id));
        },
        CommandView::UpdateType { id, name, image_paths } => {
            let hit = types_where(TypePick::WithId(id), true);
            if t.types.filter(hit).len() > 0 {
                let i = hit_exists(t.types, hit);
                let written = Tables { types: t.types.map_values(renamed(id, name)), ..t };
                renamed_keeps_references(t, id, name);
                assert(has_type(t.types, id));
                cleared_images_keep_references(written, Owner::Type(id));
                new_images_keep_references(
                    images_cleared(written, Owner::Type(id)),
                    image_paths,
                    Owner::Type(id),
                );
            }
        },
        CommandView::DeleteType { id } => {
            deleted_type_keeps_references(t, id);
        },
        CommandView::CreateProduct { product, .. } => {
            let image_paths = paths_of(cmd);
            let type_id = resolved(t, name_to_resolve(cmd))->0;
            match name_to_resolve(cmd) {
                Some(name) => {
                    found_type_exists(t.types, TypePick::Named(name));
                },
                None => {},
            }
            let row = ProductRowView {
                id: t.next_product_id,
                fields: fields_of(product, type_id),
                created_at: t.clock,
            };
            let written = Tables {
                products: t.products.push(row),
                next_product_id: (t.next_product_id + 1) as i64,
                ..t
            };
            assert forall|other: i64| has_product(t.products, other) implies has_product(
                written.products,
                other,
            ) by {
                let i = choose|i: int|
                    0 <= i < t.products.len() && (#[trigger] t.products[i]).id == other;
                assert(written.products[i].id == other);
            }
            assert(written.products[t.products.len() as int].id == t.next_product_id);
            assert(references_hold(written)) by {
                assert forall|i: int| 0 <= i < written.images.len() implies image_has_owner(
                    written,
                    #[trigger] written.images[i],
                ) by {
                    assert(image_has_owner(t, t.images[i]));
                }
                assert forall|i: int| 0 <= i < written.products.len() implies ((
                #[trigger] written.products[i]).fields.products_type_id matches Some(kind)
                    ==> has_type(written.types, kind)) by {
                    if i < t.products.len() {
                        assert(written.products[i] == t.products[i]);
                    }
                }
            }
            new_images_keep_references(written, image_paths, Owner::Product(t.next_product_id));
        },
        CommandView::UpdateProduct { id, product, image_paths } => {
            let hit = products_where(ProductPick::WithId(id), true);
            let type_id = resolved(t, name_to_resolve(cmd))->0;
            match name_to_resolve(cmd) {
                Some(name) => {
                    found_type_exists(t.types, TypePick::Named(name));
                },
                None => {},
            }
            if t.products.filter(hit).len() > 0 {
                let i = hit_exists(t.products, hit);
                let fields = fields_of(product, type_id);
                let written = Tables { products: t.products.map_values(with_fields(id, fields)), ..t };
                new_fields_keep_references(t, id, fields);
                assert(has_product(t.products, id));
                cleared_images_keep_references(written, Owner::Product(id));
                new_images_keep_references(
                    images_cleared(written, Owner::Product(id)),
                    image_paths,
                    Owner::Product(id),
                );
            }
        },
        CommandView::DeleteProduct { id } => {
            deleted_product_keeps_references(t, id);
        },
    }
}

} // verus!

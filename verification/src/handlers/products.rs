//! The endpoints for products.

use crate::effects::{handled_of, outcome_of, run_is_effect};
use crate::listing::{
    images_statement, listed_products, page_request, page_view, pagination_of, product_ids_of,
    products_page, request_of, PageRequestView,
};
use crate::models::{
    NewProducts, PaginatedResponse, PaginationInfo, Products, ProductsView, Querysearchandpage,
};
use crate::pagination::{offset_of, ITEMS_PER_PAGE};
use crate::response::{respond, Endpoint, Handled, Response};
use crate::rows::{
    images_where, products_where, window, ImagePick, ListedProductView, OwnedPathView,
    ProductPick, ProductRowView,
};
use crate::runner::run;
use crate::store::Catalog;
use crate::tables::{joined, owned_path, Tables};
use crate::transaction::{
    paths_fit, Command, CommandView, Outcome, ProductDraft, ProductDraftView,
};
use crate::upload::ProductUpload;
use vstd::prelude::*;

verus! {

/// The products that search and filter find.
pub open spec fn products_found(t: Tables, request: PageRequestView) -> Seq<ProductRowView> {
    t.products.filter(
        products_where(
            ProductPick::Listed { search: request.search, filter: request.filter },
            true,
        ),
    )
}

/// The products on the page that a request asks for, each with the name of
/// its type.
pub open spec fn product_rows_of(t: Tables, request: PageRequestView) -> Seq<ListedProductView> {
    window(
        products_found(t, request),
        offset_of(request.page) as i64,
        ITEMS_PER_PAGE,
    ).map_values(joined(t.types))
}

/// The images of the products with these ids, by ascending image id.
pub open spec fn product_images_of(t: Tables, ids: Seq<i64>) -> Seq<OwnedPathView> {
    t.images.filter(
        images_where(ImagePick::OwnerAmong { of_types: false, ids }, t.products, true),
    ).map_values(owned_path(false))
}

/// One page of products with their images.
pub open spec fn products_listed(t: Tables, request: PageRequestView) -> (
    Seq<ProductsView>,
    PaginationInfo,
) {
    let rows = product_rows_of(t, request);
    (
        listed_products(
            rows,
            product_images_of(t, product_ids_of(rows)),
        ),
        pagination_of(products_found(t, request).len() as i64, request.page),
    )
}

/// Lists one page of the products that search and type filter find, each
/// with the name of its type and the addresses of its images.
pub fn get_products(catalog: &mut Catalog, query: &Querysearchandpage) -> (r: Result<
    PaginatedResponse<Vec<Products>>,
    Response,
>)
    requires
        old(catalog).wf(),
    ensures
        final(catalog)@ == old(catalog)@,
        final(catalog).wf(),
        r matches Ok(page) && ({
            let request = request_of(
                query.search.deep_view(),
                query.page,
                query.type_id.deep_view(),
            );
            page_view(page) == products_listed(old(catalog)@.live, request)
        }),
{
    let request = page_request(query);
    let count = catalog.execute(&request.count_products());
    let rows = catalog.execute(&request.page_of_products());
    let images = match images_statement(&rows) {
        Some(statement) => Some(catalog.execute(&statement)),
        None => None,
    };
    proof {
        assert(catalog@ == old(catalog)@);
        let t = old(catalog)@.live;
        let listed = product_rows_of(t, request@);
        if listed.len() == 0 {
            assert(listed_products(listed, Seq::empty()) =~= listed_products(
                listed,
                product_images_of(t, product_ids_of(listed)),
            ));
        }
    }
    match products_page(request.page, count, rows, images) {
        Ok(page) => Ok(page),
        Err(failure) => Err(respond(Endpoint::GetProducts, Outcome::Failed(failure))),
    }
}

/// Creates a product from its form, with the price that the form's text
/// gives: the product and one image row for each image, or nothing. A type
/// name that no product type bears is turned down. The answer names the
/// files to save, one for each image in the folder of the product; a form
/// that is turned down names none.
pub fn post_products(catalog: &mut Catalog, upload: ProductUpload, price_bits: u64) -> (r:
    Handled)
    requires
        old(catalog).wf(),
    ensures
        final(catalog).wf(),
        final(catalog)@ == outcome_of(upload@.command(price_bits), old(catalog)@).0,
        r@ == handled_of(upload@.command(price_bits), old(catalog)@),
{
    let cmd = upload.into_command(price_bits);
    proof {
        paths_fit(cmd);
        run_is_effect(cmd@, catalog@);
    }
    let report = run(catalog, &cmd);
    Handled {
        response: respond(Endpoint::PostProducts, report.outcome),
        saved: report.saved,
        removed: report.removed,
    }
}

/// The write that an update of a product asks for.
pub open spec fn update_of(id: i64, json: NewProducts) -> CommandView {
    CommandView::UpdateProduct {
        id,
        product: ProductDraftView {
            name: json.name_product@,
            price_bits: json.price_bits,
            detail: json.detail@,
            stock: json.stock,
            products_type_name: json.products_type_name.deep_view(),
        },
        image_paths: json.images_path.deep_view(),
    }
}

/// Replaces the fields and the images of a product. A type name that no
/// product type bears is turned down; a product that does not exist is left
/// alone, and the answer is that of a write that is done.
pub fn update_product(catalog: &mut Catalog, id: i64, json: NewProducts) -> (r: Handled)
    requires
        old(catalog).wf(),
    ensures
        final(catalog).wf(),
        final(catalog)@ == outcome_of(update_of(id, json), old(catalog)@).0,
        r@ == handled_of(update_of(id, json), old(catalog)@),
{
    let cmd = Command::UpdateProduct {
        id,
        product: ProductDraft {
            name: json.name_product,
            price_bits: json.price_bits,
            detail: json.detail,
            stock: json.stock,
            products_type_name: json.products_type_name,
        },
        image_paths: json.images_path,
    };
    proof {
        paths_fit(cmd);
        run_is_effect(cmd@, catalog@);
    }
    let report = run(catalog, &cmd);
    Handled {
        response: respond(Endpoint::UpdateProduct, report.outcome),
        saved: report.saved,
        removed: report.removed,
    }
}

/// Deletes a product with its images. The answer names the directory to
/// remove, the one that holds the first image of the product.
pub fn delete_product(catalog: &mut Catalog, id: i64) -> (r: Handled)
    requires
        old(catalog).wf(),
    ensures
        final(catalog).wf(),
        final(catalog)@ == outcome_of(CommandView::DeleteProduct { id }, old(catalog)@).0,
        r@ == handled_of(CommandView::DeleteProduct { id }, old(catalog)@),
{
    let cmd = Command::DeleteProduct { id };
    proof {
        paths_fit(cmd);
        run_is_effect(cmd@, catalog@);
    }
    let report = run(catalog, &cmd);
    Handled {
        response: respond(Endpoint::DeleteProduct, report.outcome),
        saved: report.saved,
        removed: report.removed,
    }
}

} // verus!

//! The endpoints for product types.

use crate::effects::{handled_of, outcome_of, run_is_effect};
use crate::listing::{
    images_statement, listed_types, page_request, page_view, pagination_of, request_of,
    type_ids_of, types_page, PageRequestView,
};
use crate::models::{
    NewProductType, PaginatedResponse, PaginationInfo, ProductType, ProductTypeView,
    Querysearchandpage,
};
use crate::pagination::{offset_of, ITEMS_PER_PAGE};
use crate::response::{respond, Endpoint, Handled, Response};
use crate::rows::{images_where, types_where, window, ImagePick, OwnedPathView, TypePick, TypeRowView};
use crate::runner::run;
use crate::store::Catalog;
use crate::tables::{owned_path, Tables};
use crate::transaction::{paths_fit, Command, CommandView, Outcome};
use crate::upload::TypeUpload;
use vstd::prelude::*;

verus! {

/// The product types whose name holds the search term.
pub open spec fn types_found(t: Tables, search: Seq<char>) -> Seq<TypeRowView> {
    t.types.filter(types_where(TypePick::NameContains(search), true))
}

/// The product types on the page that a request asks for.
pub open spec fn type_rows_of(t: Tables, request: PageRequestView) -> Seq<TypeRowView> {
    window(types_found(t, request.search), offset_of(request.page) as i64, ITEMS_PER_PAGE)
}

/// The images of the product types with these ids, by ascending image id.
pub open spec fn type_images_of(t: Tables, ids: Seq<i64>) -> Seq<OwnedPathView> {
    t.images.filter(
        images_where(ImagePick::OwnerAmong { of_types: true, ids }, t.products, true),
    ).map_values(owned_path(true))
}

/// One page of product types with their images.
pub open spec fn types_listed(t: Tables, request: PageRequestView) -> (
    Seq<ProductTypeView>,
    PaginationInfo,
) {
    let rows = type_rows_of(t, request);
    (
        listed_types(
            rows,
            type_images_of(t, type_ids_of(rows)),
        ),
        pagination_of(types_found(t, request.search).len() as i64, request.page),
    )
}

/// Lists one page of the product types that the search finds, each with the
/// addresses of its images.
pub fn get_product_types(catalog: &mut Catalog, query: &Querysearchandpage) -> (r: Result<
    PaginatedResponse<Vec<ProductType>>,
    Response,
>)
    requires
        old(catalog).wf(),
    ensures
        final(catalog)@ == old(catalog)@,
        final(catalog).wf(),
        r matches Ok(page) && ({
            let request = request_of(
                query.search.deep_view(),
                query.page,
                query.type_id.deep_view(),
            );
            page_view(page) == types_listed(old(catalog)@.live, request)
        }),
{
    let request = page_request(query);
    let count = catalog.execute(&request.count_types());
    let rows = catalog.execute(&request.page_of_types());
    let images = match images_statement(&rows) {
        Some(statement) => Some(catalog.execute(&statement)),
        None => None,
    };
    proof {
        assert(catalog@ == old(catalog)@);
        let t = old(catalog)@.live;
        let listed = type_rows_of(t, request@);
        if listed.len() == 0 {
            assert(listed_types(listed, Seq::empty()) =~= listed_types(
                listed,
                type_images_of(t, type_ids_of(listed)),
            ));
        }
    }
    match types_page(request.page, count, rows, images) {
        Ok(page) => Ok(page),
        Err(failure) => Err(respond(Endpoint::GetProductTypes, Outcome::Failed(failure))),
    }
}

/// Creates a product type from its form: the type and one image row for
/// each image, or nothing. The answer names the files to save, one for each
/// image in the folder of the type; a form that is turned down names none.
pub fn post_product_types(catalog: &mut Catalog, upload: TypeUpload) -> (r: Handled)
    requires
        old(catalog).wf(),
    ensures
        final(catalog).wf(),
        final(catalog)@ == outcome_of(upload@.command(), old(catalog)@).0,
        r@ == handled_of(upload@.command(), old(catalog)@),
{
    let cmd = upload.into_command();
    proof {
        paths_fit(cmd);
        run_is_effect(cmd@, catalog@);
    }
    let report = run(catalog, &cmd);
    Handled {
        response: respond(Endpoint::PostProductTypes, report.outcome),
        saved: report.saved,
        removed: report.removed,
    }
}

/// The write that an update of a product type asks for.
pub open spec fn update_of(id: i64, json: NewProductType) -> CommandView {
    CommandView::UpdateType {
        id,
        name: json.name@,
        image_paths: json.images_path.deep_view(),
    }
}

/// Renames a product type and replaces its images. A type that does not
/// exist is left alone, and the answer is the same.
pub fn update_product_type(catalog: &mut Catalog, id: i64, json: NewProductType) -> (r: Handled)
    requires
        old(catalog).wf(),
    ensures
        final(catalog).wf(),
        final(catalog)@ == outcome_of(update_of(id, json), old(catalog)@).0,
        r@ == handled_of(update_of(id, json), old(catalog)@),
{
    let cmd = Command::UpdateType { id, name: json.name, image_paths: json.images_path };
    proof {
        paths_fit(cmd);
        run_is_effect(cmd@, catalog@);
    }
    let report = run(catalog, &cmd);
    Handled {
        response: respond(Endpoint::UpdateProductType, report.outcome),
        saved: report.saved,
        removed: report.removed,
    }
}

/// Deletes a product type with its images, its products and their images.
/// The answer names the directory to remove, the one two levels above the
/// first image of the type.
pub fn delete_product_type(catalog: &mut Catalog, id: i64) -> (r: Handled)
    requires
        old(catalog).wf(),
    ensures
        final(catalog).wf(),
        final(catalog)@ == outcome_of(CommandView::DeleteType { id }, old(catalog)@).0,
        r@ == handled_of(CommandView::DeleteType { id }, old(catalog)@),
{
    let cmd = Command::DeleteType { id };
    proof {
        paths_fit(cmd);
        run_is_effect(cmd@, catalog@);
    }
    let report = run(catalog, &cmd);
    Handled {
        response: respond(Endpoint::DeleteProductType, report.outcome),
        saved: report.saved,
        removed: report.removed,
    }
}

} // verus!

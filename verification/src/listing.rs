//! A listing of product types or of products: the statements of one page,
//! and the page put together from what the store answers.
//!
//! The images are read in a second statement, for the ids of the rows on
//! the page, and given to their owners here.

use crate::image_store::{
    product_web_path, type_web_path, web_path_of_product_image, web_path_of_type_image,
};
use crate::models::{
    PaginatedResponse, PaginationInfo, ProductType, ProductTypeView, Products, ProductsView,
    Querysearchandpage,
};
use crate::pagination::{
    filter_of, normalize_page, offset_of, page_offset, pages_for, requested_page, total_pages,
    type_filter, TypeIdFilter, ITEMS_PER_PAGE,
};
use crate::rows::{
    push_deep, ListedProduct, ListedProductView, OwnedPath, OwnedPathView, Reply, ReplyView,
    TypeRow, TypeRowView,
};
use crate::sql::{images_of_products, images_of_types, json_id_list, Statement, StatementView};
use crate::transaction::Failure;
use vstd::prelude::*;

verus! {

/// What a listing asks for, once its query is read.
#[derive(Clone, Debug, PartialEq, Eq)]
pub struct PageRequest {
    pub search: String,
    pub page: i64,
    pub filter: TypeIdFilter,
}

pub struct PageRequestView {
    pub search: Seq<char>,
    pub page: i64,
    pub filter: TypeIdFilter,
}

impl View for PageRequest {
    type V = PageRequestView;

    open spec fn view(&self) -> PageRequestView {
        PageRequestView { search: self.search@, page: self.page, filter: self.filter }
    }
}

/// The request that a query makes: no search term searches for the empty
/// text, page zero is page one, and a type id that is neither `null` nor a
/// number filters nothing.
pub open spec fn request_of(
    search: Option<Seq<char>>,
    page: Option<i64>,
    type_id: Option<Seq<char>>,
) -> PageRequestView {
    PageRequestView {
        search: match search {
            Some(s) => s,
            None => Seq::empty(),
        },
        page: requested_page(page),
        filter: filter_of(type_id),
    }
}

/// Reads the query of a listing.
pub fn page_request(query: &Querysearchandpage) -> (request: PageRequest)
    ensures
        request@ == request_of(
            query.search.deep_view(),
            query.page,
            query.type_id.deep_view(),
        ),
{
    PageRequest {
        search: match &query.search {
            Some(s) => s.clone(),
            None => String::new(),
        },
        page: normalize_page(query.page),
        filter: type_filter(&query.type_id),
    }
}

impl PageRequestView {
    /// The statement that counts the product types that the search finds.
    pub open spec fn count_types(self) -> StatementView {
        StatementView::CountTypes { search: self.search }
    }

    /// The statement that reads the product types of the page.
    pub open spec fn page_of_types(self) -> StatementView {
        StatementView::PageOfTypes {
            search: self.search,
            limit: ITEMS_PER_PAGE,
            offset: offset_of(self.page) as i64,
        }
    }

    /// The statement that counts the products that search and filter find.
    pub open spec fn count_products(self) -> StatementView {
        StatementView::CountProducts { search: self.search, filter: self.filter }
    }

    /// The statement that reads the products of the page.
    pub open spec fn page_of_products(self) -> StatementView {
        StatementView::PageOfProducts {
            search: self.search,
            filter: self.filter,
            limit: ITEMS_PER_PAGE,
            offset: offset_of(self.page) as i64,
        }
    }
}

impl PageRequest {
    /// The statement that counts the product types that the search finds.
    pub fn count_types(&self) -> (s: Statement)
        ensures
            s@ == self@.count_types(),
    {
        Statement::CountTypes { search: self.search.clone() }
    }

    /// The statement that reads the product types of the page.
    pub fn page_of_types(&self) -> (s: Statement)
        ensures
            s@ == self@.page_of_types(),
    {
        Statement::PageOfTypes {
            search: self.search.clone(),
            limit: ITEMS_PER_PAGE,
            offset: page_offset(self.page),
        }
    }

    /// The statement that counts the products that search and filter find.
    pub fn count_products(&self) -> (s: Statement)
        ensures
            s@ == self@.count_products(),
    {
        Statement::CountProducts { search: self.search.clone(), filter: self.filter }
    }

    /// The statement that reads the products of the page.
    pub fn page_of_products(&self) -> (s: Statement)
        ensures
            s@ == self@.page_of_products(),
    {
        Statement::PageOfProducts {
            search: self.search.clone(),
            filter: self.filter,
            limit: ITEMS_PER_PAGE,
            offset: page_offset(self.page),
        }
    }
}

/// The address under which a stored image is listed: every image of a
/// product type, and of a product's images those under the image root.
pub open spec fn web_path(path: Seq<char>, of_types: bool) -> Option<Seq<char>> {
    if of_types {
        Some(type_web_path(path))
    } else {
        product_web_path(path)
    }
}

/// The addresses of the images of the owner with this id, in their order.
pub open spec fn paths_for(images: Seq<OwnedPathView>, id: i64, of_types: bool) -> Seq<Seq<char>>
    decreases images.len(),
{
    if images.len() == 0 {
        Seq::empty()
    } else {
        let before = paths_for(images.drop_last(), id, of_types);
        if images.last().owner_id == id {
            match web_path(images.last().image_path, of_types) {
                Some(address) => before.push(address),
                None => before,
            }
        } else {
            before
        }
    }
}

fn collect_paths(images: &Vec<OwnedPath>, id: i64, of_types: bool) -> (paths: Vec<String>)
    ensures
        paths.deep_view() == paths_for(images.deep_view(), id, of_types),
{
    let mut paths: Vec<String> = Vec::new();
    let mut i: usize = 0;
    let ghost all = images.deep_view();
    assert(all.subrange(0, 0) =~= Seq::empty());
    assert(paths.deep_view() =~= Seq::empty());
    while i < images.len()
        invariant
            i <= images.len(),
            all == images.deep_view(),
            paths.deep_view() == paths_for(all.subrange(0, i as int), id, of_types),
        decreases images.len() - i,
    {
        assert(all.subrange(0, i + 1).drop_last() =~= all.subrange(0, i as int));
        assert(all.subrange(0, i + 1).last() == images[i as int]@);
        if images[i].owner_id == id {
            if of_types {
                push_deep(&mut paths, web_path_of_type_image(images[i].image_path.as_str()));
            } else {
                match web_path_of_product_image(images[i].image_path.as_str()) {
                    Some(address) => {
                        push_deep(&mut paths, address);
                    },
                    None => {},
                }
            }
        }
        i = i + 1;
    }
    assert(all.subrange(0, i as int) =~= all);
    paths
}

/// The images that the row at `j` is listed with: those of its id, unless a
/// row before it has the same id and has taken them.
pub open spec fn images_of_row(
    ids: Seq<i64>,
    images: Seq<OwnedPathView>,
    j: int,
    of_types: bool,
) -> Seq<Seq<char>> {
    if ids.subrange(0, j).contains(ids[j]) {
        Seq::empty()
    } else {
        paths_for(images, ids[j], of_types)
    }
}

fn row_images(ids: &Vec<i64>, images: &Vec<OwnedPath>, j: usize, of_types: bool) -> (paths: Vec<
    String,
>)
    requires
        j < ids.len(),
    ensures
        paths.deep_view() == images_of_row(ids@, images.deep_view(), j as int, of_types),
{
    let id = ids[j];
    let mut k: usize = 0;
    while k < j
        invariant
            k <= j < ids.len(),
            id == ids@[j as int],
            forall|m: int| 0 <= m < k ==> ids@[m] != id,
        decreases j - k,
    {
        if ids[k] == id {
            assert(ids@.subrange(0, j as int)[k as int] == id);
            let paths: Vec<String> = Vec::new();
            assert(paths.deep_view() =~= Seq::empty());
            return paths;
        }
        k = k + 1;
    }
    assert(!ids@.subrange(0, j as int).contains(id));
    collect_paths(images, id, of_types)
}

/// The ids of the rows of a page of product types, in their order.
pub open spec fn type_ids_of(rows: Seq<TypeRowView>) -> Seq<i64> {
    Seq::new(rows.len(), |j: int| rows[j].id)
}

/// The ids of the rows of a page of products, in their order.
pub open spec fn product_ids_of(rows: Seq<ListedProductView>) -> Seq<i64> {
    Seq::new(rows.len(), |j: int| rows[j].row.id)
}

fn type_ids(rows: &Vec<TypeRow>) -> (ids: Vec<i64>)
    ensures
        ids@ == type_ids_of(rows.deep_view()),
{
    let mut ids: Vec<i64> = Vec::new();
    let mut i: usize = 0;
    while i < rows.len()
        invariant
            i <= rows.len(),
            ids.len() == i,
            forall|k: int| 0 <= k < i ==> ids@[k] == rows[k]@.id,
        decreases rows.len() - i,
    {
        ids.push(rows[i].id);
        i = i + 1;
    }
    assert(ids@ =~= type_ids_of(rows.deep_view()));
    ids
}

fn product_ids(rows: &Vec<ListedProduct>) -> (ids: Vec<i64>)
    ensures
        ids@ == product_ids_of(rows.deep_view()),
{
    let mut ids: Vec<i64> = Vec::new();
    let mut i: usize = 0;
    while i < rows.len()
        invariant
            i <= rows.len(),
            ids.len() == i,
            forall|k: int| 0 <= k < i ==> ids@[k] == rows[k]@.row.id,
        decreases rows.len() - i,
    {
        ids.push(rows[i].row.id);
        i = i + 1;
    }
    assert(ids@ =~= product_ids_of(rows.deep_view()));
    ids
}

/// The product types of a page with their images.
pub open spec fn listed_types(rows: Seq<TypeRowView>, images: Seq<OwnedPathView>) -> Seq<
    ProductTypeView,
> {
    Seq::new(
        rows.len(),
        |j: int|
            ProductTypeView {
                id: rows[j].id,
                name: rows[j].name,
                images_path: images_of_row(type_ids_of(rows), images, j, true),
            },
    )
}

/// The products of a page with their images.
pub open spec fn listed_products(rows: Seq<ListedProductView>, images: Seq<OwnedPathView>) -> Seq<
    ProductsView,
> {
    Seq::new(
        rows.len(),
        |j: int|
            ProductsView {
                id: rows[j].row.id,
                name_product: rows[j].row.fields.name,
                price_bits: rows[j].row.fields.price_bits,
                detail: rows[j].row.fields.detail,
                images_path: images_of_row(product_ids_of(rows), images, j, false),
                stock: rows[j].row.fields.stock,
                create_at: rows[j].row.created_at,
                products_type_id: rows[j].row.fields.products_type_id,
                products_type_name: rows[j].products_type_name,
            },
    )
}

/// The figures of a page.
pub open spec fn pagination_of(total: i64, page: i64) -> PaginationInfo {
    PaginationInfo {
        total_items: total,
        items_per_page: ITEMS_PER_PAGE,
        current_page: page,
        total_pages: pages_for(total as int) as i64,
    }
}

fn pagination(total: i64, page: i64) -> (info: PaginationInfo)
    ensures
        info == pagination_of(total, page),
{
    PaginationInfo {
        total_items: total,
        items_per_page: ITEMS_PER_PAGE,
        current_page: page,
        total_pages: total_pages(total),
    }
}

/// The images that an answer holds; none where the statement was not run
/// or did not answer with images.
pub open spec fn images_in(answer: Option<ReplyView>) -> Seq<OwnedPathView> {
    match answer {
        Some(ReplyView::Images(images)) => images,
        _ => Seq::empty(),
    }
}

/// The page of product types that the answers make, or the failure of the
/// listing where count or rows are missing.
pub open spec fn types_page_of(
    page: i64,
    count: ReplyView,
    rows: ReplyView,
    images: Option<ReplyView>,
) -> Result<(Seq<ProductTypeView>, PaginationInfo), Failure> {
    match (count, rows) {
        (ReplyView::Count(total), ReplyView::Types(rows)) => Ok(
            (listed_types(rows, images_in(images)), pagination_of(total, page)),
        ),
        _ => Err(Failure::Query),
    }
}

/// The page of products that the answers make, or the failure of the
/// listing where count or rows are missing.
pub open spec fn products_page_of(
    page: i64,
    count: ReplyView,
    rows: ReplyView,
    images: Option<ReplyView>,
) -> Result<(Seq<ProductsView>, PaginationInfo), Failure> {
    match (count, rows) {
        (ReplyView::Count(total), ReplyView::Products(rows)) => Ok(
            (listed_products(rows, images_in(images)), pagination_of(total, page)),
        ),
        _ => Err(Failure::Query),
    }
}

/// Whether a page has rows whose images are to be read.
pub open spec fn has_rows(rows: ReplyView) -> bool {
    match rows {
        ReplyView::Types(rows) => rows.len() > 0,
        ReplyView::Products(rows) => rows.len() > 0,
        _ => false,
    }
}

/// The statement that reads the images for a page, keyed by the ids of its
/// rows: none for an empty page or an answer without rows.
pub fn images_statement(rows: &Reply) -> (s: Option<Statement>)
    ensures
        s is Some <==> has_rows(rows@),
        s matches Some(statement) ==> match rows@ {
            ReplyView::Types(rows) => statement@ == (StatementView::ImagesOfTypes {
                ids: type_ids_of(rows),
                ids_json: json_id_list(type_ids_of(rows)),
            }),
            ReplyView::Products(rows) => statement@ == (StatementView::ImagesOfProducts {
                ids: product_ids_of(rows),
                ids_json: json_id_list(product_ids_of(rows)),
            }),
            _ => false,
        },
{
    match rows {
        Reply::Types(rows) => {
            if rows.len() == 0 {
                None
            } else {
                images_of_types(type_ids(rows))
            }
        },
        Reply::Products(rows) => {
            if rows.len() == 0 {
                None
            } else {
                images_of_products(product_ids(rows))
            }
        },
        _ => None,
    }
}

fn images_from(answer: Option<Reply>) -> (images: Vec<OwnedPath>)
    ensures
        images.deep_view() == images_in(
            match answer {
                Some(reply) => Some(reply@),
                None => None,
            },
        ),
{
    match answer {
        Some(Reply::Images(images)) => images,
        _ => {
            let images: Vec<OwnedPath> = Vec::new();
            assert(images.deep_view() =~= Seq::empty());
            images
        },
    }
}

/// The view of an answer, if there is one.
pub open spec fn answer_view(answer: Option<Reply>) -> Option<ReplyView> {
    match answer {
        Some(reply) => Some(reply@),
        None => None,
    }
}

/// The entries and the figures of a page.
pub open spec fn page_view<T: DeepView>(page: PaginatedResponse<Vec<T>>) -> (
    Seq<T::V>,
    PaginationInfo,
) {
    (page.data.deep_view(), page.pagination)
}

/// Puts a page of product types together.
pub fn types_page(page: i64, count: Reply, rows: Reply, images: Option<Reply>) -> (r: Result<
    PaginatedResponse<Vec<ProductType>>,
    Failure,
>)
    ensures
        match r {
            Ok(p) => Ok(page_view(p)),
            Err(f) => Err(f),
        } == types_page_of(page, count@, rows@, answer_view(images)),
{
    match (count, rows) {
        (Reply::Count(total), Reply::Types(rows)) => {
            let images = images_from(images);
            let ids = type_ids(&rows);
            let mut data: Vec<ProductType> = Vec::new();
            let mut j: usize = 0;
            let ghost want = listed_types(rows.deep_view(), images.deep_view());
            while j < rows.len()
                invariant
                    j <= rows.len(),
                    ids@ == type_ids_of(rows.deep_view()),
                    want == listed_types(rows.deep_view(), images.deep_view()),
                    data.len() == j,
                    forall|k: int| 0 <= k < j ==> data[k]@ == want[k],
                decreases rows.len() - j,
            {
                let entry = ProductType {
                    id: rows[j].id,
                    name: rows[j].name.clone(),
                    images_path: row_images(&ids, &images, j, true),
                };
                data.push(entry);
                j = j + 1;
            }
            assert(data.deep_view() =~= want);
            Ok(PaginatedResponse { data, pagination: pagination(total, page) })
        },
        _ => Err(Failure::Query),
    }
}

/// Puts a page of products together.
pub fn products_page(page: i64, count: Reply, rows: Reply, images: Option<Reply>) -> (r: Result<
    PaginatedResponse<Vec<Products>>,
    Failure,
>)
    ensures
        match r {
            Ok(p) => Ok(page_view(p)),
            Err(f) => Err(f),
        } == products_page_of(page, count@, rows@, answer_view(images)),
{
    match (count, rows) {
        (Reply::Count(total), Reply::Products(rows)) => {
            let images = images_from(images);
            let ids = product_ids(&rows);
            let mut data: Vec<Products> = Vec::new();
            let mut j: usize = 0;
            let ghost want = listed_products(rows.deep_view(), images.deep_view());
            while j < rows.len()
                invariant
                    j <= rows.len(),
                    ids@ == product_ids_of(rows.deep_view()),
                    want == listed_products(rows.deep_view(), images.deep_view()),
                    data.len() == j,
                    forall|k: int| 0 <= k < j ==> data[k]@ == want[k],
                decreases rows.len() - j,
            {
                let entry = Products {
                    id: rows[j].row.id,
                    name_product: rows[j].row.fields.name.clone(),
                    price_bits: rows[j].row.fields.price_bits,
                    detail: rows[j].row.fields.detail.clone(),
                    images_path: row_images(&ids, &images, j, false),
                    stock: rows[j].row.fields.stock,
                    create_at: rows[j].row.created_at,
                    products_type_id: rows[j].row.fields.products_type_id,
                    products_type_name: match &rows[j].products_type_name {
                        Some(name) => Some(name.clone()),
                        None => None,
                    },
                };
                data.push(entry);
                j = j + 1;
            }
            assert(data.deep_view() =~= want);
            Ok(PaginatedResponse { data, pagination: pagination(total, page) })
        },
        _ => Err(Failure::Query),
    }
}

} // verus!

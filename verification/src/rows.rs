//! The rows of the three tables, the answers of the store, and the
//! conditions by which statements pick rows.

use crate::pagination::TypeIdFilter;
use crate::sql::{Owner, ProductFields, ProductFieldsView};
use crate::text::occurs_in;
use vstd::prelude::*;

verus! {

/// A row of `products_type`.
#[derive(Clone, Debug, PartialEq, Eq)]
pub struct TypeRow {
    pub id: i64,
    pub name: String,
}

pub struct TypeRowView {
    pub id: i64,
    pub name: Seq<char>,
}

impl View for TypeRow {
    type V = TypeRowView;

    open spec fn view(&self) -> TypeRowView {
        TypeRowView { id: self.id, name: self.name@ }
    }
}

impl DeepView for TypeRow {
    type V = TypeRowView;

    open spec fn deep_view(&self) -> TypeRowView {
        self@
    }
}

impl TypeRow {
    /// A copy of the row.
    pub fn copy(&self) -> (c: TypeRow)
        ensures
            c@ == self@,
    {
        TypeRow { id: self.id, name: self.name.clone() }
    }
}

/// A row of `products`.
#[derive(Clone, Debug, PartialEq, Eq)]
pub struct ProductRow {
    pub id: i64,
    pub fields: ProductFields,
    pub created_at: i64,
}

pub struct ProductRowView {
    pub id: i64,
    pub fields: ProductFieldsView,
    pub created_at: i64,
}

impl View for ProductRow {
    type V = ProductRowView;

    open spec fn view(&self) -> ProductRowView {
        ProductRowView { id: self.id, fields: self.fields@, created_at: self.created_at }
    }
}

impl DeepView for ProductRow {
    type V = ProductRowView;

    open spec fn deep_view(&self) -> ProductRowView {
        self@
    }
}

impl ProductRow {
    /// A copy of the row.
    pub fn copy(&self) -> (c: ProductRow)
        ensures
            c@ == self@,
    {
        ProductRow { id: self.id, fields: self.fields.copy(), created_at: self.created_at }
    }
}

/// A row of `images`, with one column for each kind of owner.
#[derive(Clone, Debug, PartialEq, Eq)]
pub struct ImageRow {
    pub id: i64,
    pub image_path: String,
    pub product_type_id: Option<i64>,
    pub product_id: Option<i64>,
}

pub struct ImageRowView {
    pub id: i64,
    pub image_path: Seq<char>,
    pub product_type_id: Option<i64>,
    pub product_id: Option<i64>,
}

impl View for ImageRow {
    type V = ImageRowView;

    open spec fn view(&self) -> ImageRowView {
        ImageRowView {
            id: self.id,
            image_path: self.image_path@,
            product_type_id: self.product_type_id,
            product_id: self.product_id,
        }
    }
}

impl DeepView for ImageRow {
    type V = ImageRowView;

    open spec fn deep_view(&self) -> ImageRowView {
        self@
    }
}

impl ImageRow {
    /// A copy of the row.
    pub fn copy(&self) -> (c: ImageRow)
        ensures
            c@ == self@,
    {
        ImageRow {
            id: self.id,
            image_path: self.image_path.clone(),
            product_type_id: self.product_type_id,
            product_id: self.product_id,
        }
    }
}

/// A product as a listing reads it: the row, and the name of its type where
/// the row names a type that exists.
#[derive(Clone, Debug, PartialEq, Eq)]
pub struct ListedProduct {
    pub row: ProductRow,
    pub products_type_name: Option<String>,
}

pub struct ListedProductView {
    pub row: ProductRowView,
    pub products_type_name: Option<Seq<char>>,
}

impl View for ListedProduct {
    type V = ListedProductView;

    open spec fn view(&self) -> ListedProductView {
        ListedProductView { row: self.row@, products_type_name: self.products_type_name.deep_view() }
    }
}

impl DeepView for ListedProduct {
    type V = ListedProductView;

    open spec fn deep_view(&self) -> ListedProductView {
        self@
    }
}

/// An image path with the id of its owner.
#[derive(Clone, Debug, PartialEq, Eq)]
pub struct OwnedPath {
    pub owner_id: i64,
    pub image_path: String,
}

pub struct OwnedPathView {
    pub owner_id: i64,
    pub image_path: Seq<char>,
}

impl View for OwnedPath {
    type V = OwnedPathView;

    open spec fn view(&self) -> OwnedPathView {
        OwnedPathView { owner_id: self.owner_id, image_path: self.image_path@ }
    }
}

impl DeepView for OwnedPath {
    type V = OwnedPathView;

    open spec fn deep_view(&self) -> OwnedPathView {
        self@
    }
}

/// What the store answers to a statement.
#[derive(Clone, Debug, PartialEq, Eq)]
pub enum Reply {
    /// The statement did not run.
    Failed,
    /// A write ran: the id of the row it inserted, if it inserted one, and
    /// the number of rows it changed.
    Written { last_insert_rowid: i64, rows_affected: u64 },
    /// The id of a product type, if one was found.
    TypeId(Option<i64>),
    Paths(Vec<String>),
    Count(i64),
    Types(Vec<TypeRow>),
    Products(Vec<ListedProduct>),
    Images(Vec<OwnedPath>),
}

pub enum ReplyView {
    Failed,
    Written { last_insert_rowid: i64, rows_affected: u64 },
    TypeId(Option<i64>),
    Paths(Seq<Seq<char>>),
    Count(i64),
    Types(Seq<TypeRowView>),
    Products(Seq<ListedProductView>),
    Images(Seq<OwnedPathView>),
}

impl View for Reply {
    type V = ReplyView;

    open spec fn view(&self) -> ReplyView {
        match *self {
            Reply::Failed => ReplyView::Failed,
            Reply::Written { last_insert_rowid, rows_affected } => ReplyView::Written {
                last_insert_rowid,
                rows_affected,
            },
            Reply::TypeId(id) => ReplyView::TypeId(id),
            Reply::Paths(paths) => ReplyView::Paths(paths.deep_view()),
            Reply::Count(n) => ReplyView::Count(n),
            Reply::Types(rows) => ReplyView::Types(rows.deep_view()),
            Reply::Products(rows) => ReplyView::Products(rows.deep_view()),
            Reply::Images(rows) => ReplyView::Images(rows.deep_view()),
        }
    }
}

/// Appends `x`; the views of the elements follow.
pub fn push_deep<T: DeepView>(v: &mut Vec<T>, x: T)
    ensures
        final(v).deep_view() == old(v).deep_view().push(x.deep_view()),
        final(v)@ == old(v)@.push(x),
{
    v.push(x);
    assert(v.deep_view() =~= old(v).deep_view().push(x.deep_view()));
}

/// A condition on a product type.
pub enum TypePick {
    WithId(i64),
    Named(Seq<char>),
    NameContains(Seq<char>),
}

/// Whether a condition picks a product type.
pub open spec fn type_picked(pick: TypePick, row: TypeRowView) -> bool {
    match pick {
        TypePick::WithId(id) => row.id == id,
        TypePick::Named(name) => row.name == name,
        TypePick::NameContains(part) => occurs_in(row.name, part),
    }
}

/// The rows that a condition picks where `want` holds, and those it does not
/// pick where it does not.
pub open spec fn types_where(pick: TypePick, want: bool) -> spec_fn(TypeRowView) -> bool {
    |row: TypeRowView| type_picked(pick, row) == want
}

/// The first row that a condition picks.
pub open spec fn first_type(rows: Seq<TypeRowView>, pick: TypePick) -> Option<TypeRowView>
    decreases rows.len(),
{
    if rows.len() == 0 {
        None
    } else {
        match first_type(rows.drop_last(), pick) {
            Some(row) => Some(row),
            None => if type_picked(pick, rows.last()) {
                Some(rows.last())
            } else {
                None
            },
        }
    }
}

/// Whether a type filter lets a product of this type through.
pub open spec fn filter_accepts(filter: TypeIdFilter, type_id: Option<i64>) -> bool {
    match filter {
        TypeIdFilter::Unspecified => true,
        TypeIdFilter::IsNull => type_id is None,
        TypeIdFilter::Equal(id) => type_id == Some(id),
    }
}

/// A condition on a product.
pub enum ProductPick {
    WithId(i64),
    OfType(i64),
    Listed { search: Seq<char>, filter: TypeIdFilter },
}

/// Whether a condition picks a product. A listing finds the products
/// whose name holds the search term, character for character.
pub open spec fn product_picked(pick: ProductPick, row: ProductRowView) -> bool {
    match pick {
        ProductPick::WithId(id) => row.id == id,
        ProductPick::OfType(type_id) => row.fields.products_type_id == Some(type_id),
        ProductPick::Listed { search, filter } => occurs_in(row.fields.name, search)
            && filter_accepts(filter, row.fields.products_type_id),
    }
}

/// The products that a condition picks where `want` holds, and the others
/// where it does not.
pub open spec fn products_where(pick: ProductPick, want: bool) -> spec_fn(ProductRowView) -> bool {
    |row: ProductRowView| product_picked(pick, row) == want
}

/// Whether `products` holds a product with this id whose type is `type_id`.
pub open spec fn product_has_type(products: Seq<ProductRowView>, id: i64, type_id: i64) -> bool {
    exists|i: int|
        0 <= i < products.len() && (#[trigger] products[i]).id == id
            && products[i].fields.products_type_id == Some(type_id)
}

/// The column of an image row that names an owner of one kind.
pub open spec fn owner_column(row: ImageRowView, of_types: bool) -> Option<i64> {
    if of_types {
        row.product_type_id
    } else {
        row.product_id
    }
}

/// A condition on an image. One of them looks at the products too.
pub enum ImagePick {
    OwnedBy(Owner),
    OfProductsOfType(i64),
    OwnerAmong { of_types: bool, ids: Seq<i64> },
}

/// Whether a condition picks an image.
pub open spec fn image_picked(
    pick: ImagePick,
    products: Seq<ProductRowView>,
    row: ImageRowView,
) -> bool {
    match pick {
        ImagePick::OwnedBy(Owner::Type(id)) => row.product_type_id == Some(id),
        ImagePick::OwnedBy(Owner::Product(id)) => row.product_id == Some(id),
        ImagePick::OfProductsOfType(type_id) => match row.product_id {
            Some(id) => product_has_type(products, id, type_id),
            None => false,
        },
        ImagePick::OwnerAmong { of_types, ids } => match owner_column(row, of_types) {
            Some(id) => ids.contains(id),
            None => false,
        },
    }
}

/// The images that a condition picks where `want` holds, and the others
/// where it does not.
pub open spec fn images_where(
    pick: ImagePick,
    products: Seq<ProductRowView>,
    want: bool,
) -> spec_fn(ImageRowView) -> bool {
    |row: ImageRowView| image_picked(pick, products, row) == want
}

/// The part of `rows` that a page shows: `limit` rows after the first
/// `offset`. A negative offset counts as none and a negative limit as no limit.
pub open spec fn window_start(len: int, offset: i64) -> int {
    if offset <= 0 {
        0
    } else if offset >= len {
        len
    } else {
        offset as int
    }
}

/// Where the part of `len` rows that a page shows ends.
pub open spec fn window_end(len: int, offset: i64, limit: i64) -> int {
    let start = window_start(len, offset);
    if limit < 0 || start + limit >= len {
        len
    } else {
        start + limit
    }
}

/// The part of `rows` that a page shows.
pub open spec fn window<T>(rows: Seq<T>, offset: i64, limit: i64) -> Seq<T> {
    rows.subrange(
        window_start(rows.len() as int, offset),
        window_end(rows.len() as int, offset, limit),
    )
}

} // verus!

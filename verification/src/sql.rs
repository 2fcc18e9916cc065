//! The statements that the catalog sends to its store, each with its SQL text
//! and the values bound to its placeholders.

use crate::pagination::TypeIdFilter;
use crate::text::decimal_text;
use vstd::prelude::*;
use vstd::string::*;

verus! {

/// The row that owns an image: a product type or a product, never both.
#[derive(Clone, Copy, Debug, PartialEq, Eq, Structural)]
pub enum Owner {
    Type(i64),
    Product(i64),
}

/// The columns of a product that a caller sets.
#[derive(Clone, Debug, PartialEq, Eq)]
pub struct ProductFields {
    pub name: String,
    pub price_bits: u64,
    pub detail: String,
    pub stock: i64,
    pub products_type_id: Option<i64>,
}

pub struct ProductFieldsView {
    pub name: Seq<char>,
    pub price_bits: u64,
    pub detail: Seq<char>,
    pub stock: i64,
    pub products_type_id: Option<i64>,
}

impl View for ProductFields {
    type V = ProductFieldsView;

    open spec fn view(&self) -> ProductFieldsView {
        ProductFieldsView {
            name: self.name@,
            price_bits: self.price_bits,
            detail: self.detail@,
            stock: self.stock,
            products_type_id: self.products_type_id,
        }
    }
}

impl ProductFields {
    /// A copy of the fields.
    pub fn copy(&self) -> (c: ProductFields)
        ensures
            c@ == self@,
    {
        ProductFields {
            name: self.name.clone(),
            price_bits: self.price_bits,
            detail: self.detail.clone(),
            stock: self.stock,
            products_type_id: self.products_type_id,
        }
    }
}

/// One statement against the three tables.
#[derive(Clone, Debug, PartialEq, Eq)]
pub enum Statement {
    InsertType { name: String },
    RenameType { id: i64, name: String },
    DeleteType { id: i64 },
    FindTypeByName { name: String },
    InsertProduct { product: ProductFields },
    UpdateProduct { id: i64, product: ProductFields },
    DeleteProduct { id: i64 },
    DeleteProductsOfType { type_id: i64 },
    InsertImage { image_path: String, owner: Owner },
    DeleteImages { owner: Owner },
    DeleteImagesOfProductsOfType { type_id: i64 },
    ImagePaths { owner: Owner },
    CountTypes { search: String },
    PageOfTypes { search: String, limit: i64, offset: i64 },
    ImagesOfTypes { ids: Vec<i64>, ids_json: String },
    CountProducts { search: String, filter: TypeIdFilter },
    PageOfProducts { search: String, filter: TypeIdFilter, limit: i64, offset: i64 },
    ImagesOfProducts { ids: Vec<i64>, ids_json: String },
}

pub enum StatementView {
    InsertType { name: Seq<char> },
    RenameType { id: i64, name: Seq<char> },
    DeleteType { id: i64 },
    FindTypeByName { name: Seq<char> },
    InsertProduct { product: ProductFieldsView },
    UpdateProduct { id: i64, product: ProductFieldsView },
    DeleteProduct { id: i64 },
    DeleteProductsOfType { type_id: i64 },
    InsertImage { image_path: Seq<char>, owner: Owner },
    DeleteImages { owner: Owner },
    DeleteImagesOfProductsOfType { type_id: i64 },
    ImagePaths { owner: Owner },
    CountTypes { search: Seq<char> },
    PageOfTypes { search: Seq<char>, limit: i64, offset: i64 },
    ImagesOfTypes { ids: Seq<i64>, ids_json: Seq<char> },
    CountProducts { search: Seq<char>, filter: TypeIdFilter },
    PageOfProducts { search: Seq<char>, filter: TypeIdFilter, limit: i64, offset: i64 },
    ImagesOfProducts { ids: Seq<i64>, ids_json: Seq<char> },
}

impl View for Statement {
    type V = StatementView;

    open spec fn view(&self) -> StatementView {
        match *self {
            Statement::InsertType { name } => StatementView::InsertType { name: name@ },
            Statement::RenameType { id, name } => StatementView::RenameType { id, name: name@ },
            Statement::DeleteType { id } => StatementView::DeleteType { id },
            Statement::FindTypeByName { name } => StatementView::FindTypeByName { name: name@ },
            Statement::InsertProduct { product } => StatementView::InsertProduct {
                product: product@,
            },
            Statement::UpdateProduct { id, product } => StatementView::UpdateProduct {
                id,
                product: product@,
            },
            Statement::DeleteProduct { id } => StatementView::DeleteProduct { id },
            Statement::DeleteProductsOfType { type_id } => StatementView::DeleteProductsOfType {
                type_id,
            },
            Statement::InsertImage { image_path, owner } => StatementView::InsertImage {
                image_path: image_path@,
                owner,
            },
            Statement::DeleteImages { owner } => StatementView::DeleteImages { owner },
            Statement::DeleteImagesOfProductsOfType {
                type_id,
            } => StatementView::DeleteImagesOfProductsOfType { type_id },
            Statement::ImagePaths { owner } => StatementView::ImagePaths { owner },
            Statement::CountTypes { search } => StatementView::CountTypes { search: search@ },
            Statement::PageOfTypes { search, limit, offset } => StatementView::PageOfTypes {
                search: search@,
                limit,
                offset,
            },
            Statement::ImagesOfTypes { ids, ids_json } => StatementView::ImagesOfTypes {
                ids: ids@,
                ids_json: ids_json@,
            },
            Statement::CountProducts { search, filter } => StatementView::CountProducts {
                search: search@,
                filter,
            },
            Statement::PageOfProducts {
                search,
                filter,
                limit,
                offset,
            } => StatementView::PageOfProducts { search: search@, filter, limit, offset },
            Statement::ImagesOfProducts { ids, ids_json } => StatementView::ImagesOfProducts {
                ids: ids@,
                ids_json: ids_json@,
            },
        }
    }
}

/// A value bound to a placeholder. A real number is carried as its bits.
#[derive(Clone, Debug, PartialEq, Eq)]
pub enum SqlValue {
    Text(String),
    Integer(i64),
    Real(u64),
    Null,
}

pub enum SqlValueView {
    Text(Seq<char>),
    Integer(i64),
    Real(u64),
    Null,
}

impl View for SqlValue {
    type V = SqlValueView;

    open spec fn view(&self) -> SqlValueView {
        match *self {
            SqlValue::Text(s) => SqlValueView::Text(s@),
            SqlValue::Integer(i) => SqlValueView::Integer(i),
            SqlValue::Real(bits) => SqlValueView::Real(bits),
            SqlValue::Null => SqlValueView::Null,
        }
    }
}

impl DeepView for SqlValue {
    type V = SqlValueView;

    open spec fn deep_view(&self) -> SqlValueView {
        self@
    }
}

/// The ids separated by commas, each as a decimal numeral.
pub open spec fn joined_ids(ids: Seq<i64>) -> Seq<char>
    decreases ids.len(),
{
    if ids.len() == 0 {
        Seq::empty()
    } else if ids.len() == 1 {
        decimal_text(ids[0] as int)
    } else {
        joined_ids(ids.drop_last()) + seq![','] + decimal_text(ids.last() as int)
    }
}

/// The ids as a JSON array without white space.
pub open spec fn json_id_list(ids: Seq<i64>) -> Seq<char> {
    seq!['['] + joined_ids(ids) + seq![']']
}

/// `serde_json::to_string` on a list of integers: the JSON array of the
/// numbers in their order, in decimal, separated by commas and without white
/// space. The call does not fail on such a list: it fails only where a
/// value's own serializer fails or a map has a key that is no string, and
/// the serializers of a list and of an integer fail only where the writer
/// does, which here is a buffer in memory.
#[verifier::external_body]
fn json_of_ids(ids: &Vec<i64>) -> (r: Option<String>)
    ensures
        r.deep_view() == Some(json_id_list(ids@)),
{
    serde_json::to_string(ids).ok()
}

/// The statement that reads the images of the owners in `ids`, product types
/// or products, with the ids written as JSON.
pub open spec fn images_of(ids: Seq<i64>, ids_json: Seq<char>, of_types: bool) -> StatementView {
    if of_types {
        StatementView::ImagesOfTypes { ids, ids_json }
    } else {
        StatementView::ImagesOfProducts { ids, ids_json }
    }
}

/// The statement that reads the images of the owners in `ids`, once the
/// attempt to write the ids as JSON is made: the statement with that text
/// where there is one, and none where there is none.
pub fn images_with_json(ids: Vec<i64>, ids_json: Option<String>, of_types: bool) -> (r: Option<
    Statement,
>)
    ensures
        r is Some <==> ids_json is Some,
        r matches Some(s) ==> ids_json matches Some(text) && s@ == images_of(
            ids@,
            text@,
            of_types,
        ),
{
    match ids_json {
        Some(ids_json) => {
            if of_types {
                Some(Statement::ImagesOfTypes { ids, ids_json })
            } else {
                Some(Statement::ImagesOfProducts { ids, ids_json })
            }
        },
        None => None,
    }
}

/// The statement that reads the images of the product types in `ids`.
pub fn images_of_types(ids: Vec<i64>) -> (r: Option<Statement>)
    ensures
        r matches Some(s) && s@ == (StatementView::ImagesOfTypes {
            ids: ids@,
            ids_json: json_id_list(ids@),
        }),
{
    let ids_json = json_of_ids(&ids);
    images_with_json(ids, ids_json, true)
}

/// The statement that reads the images of the products in `ids`.
pub fn images_of_products(ids: Vec<i64>) -> (r: Option<Statement>)
    ensures
        r matches Some(s) && s@ == (StatementView::ImagesOfProducts {
            ids: ids@,
            ids_json: json_id_list(ids@),
        }),
{
    let ids_json = json_of_ids(&ids);
    images_with_json(ids, ids_json, false)
}

/// The condition on a product's type that a filter adds to a `WHERE` clause.
pub open spec fn type_clause(filter: TypeIdFilter) -> Seq<char> {
    match filter {
        TypeIdFilter::Unspecified => Seq::empty(),
        TypeIdFilter::IsNull => " AND p.products_type_id IS NULL"@,
        TypeIdFilter::Equal(_) => " AND p.products_type_id = ?"@,
    }
}

/// The `WHERE` clause of both statements of a product listing.
pub open spec fn product_predicate(filter: TypeIdFilter) -> Seq<char> {
    " WHERE p.name_products LIKE '%' || ? || '%'"@ + type_clause(filter)
}

/// The values bound to the placeholders of `product_predicate`.
pub open spec fn product_predicate_values(
    search: Seq<char>,
    filter: TypeIdFilter,
) -> Seq<SqlValueView> {
    match filter {
        TypeIdFilter::Equal(id) => seq![SqlValueView::Text(search), SqlValueView::Integer(id)],
        _ => seq![SqlValueView::Text(search)],
    }
}

/// The `WHERE` clause of both statements of a listing of product types.
pub open spec fn type_predicate() -> Seq<char> {
    " WHERE pt.products_type_name LIKE '%' || ? || '%'"@
}

/// The count of products, up to its `WHERE` clause.
pub open spec fn count_products_head() -> Seq<char> {
    "SELECT COUNT(*) FROM products p"@
}

/// The page of products with the names of their types, up to its `WHERE`
/// clause.
pub open spec fn page_of_products_head() -> Seq<char> {
    "SELECT p.id, p.name_products, p.price, p.detail, p.stock, p.created_at, p.products_type_id, pt.products_type_name FROM products p LEFT JOIN products_type pt ON p.products_type_id = pt.id"@
}

/// What follows the `WHERE` clause of a page of products.
pub open spec fn page_of_products_tail() -> Seq<char> {
    " ORDER BY p.id LIMIT ? OFFSET ?"@
}

/// The count of product types, up to its `WHERE` clause.
pub open spec fn count_types_head() -> Seq<char> {
    "SELECT COUNT(*) FROM products_type pt"@
}

/// The page of product types, up to its `WHERE` clause.
pub open spec fn page_of_types_head() -> Seq<char> {
    "SELECT pt.id, pt.products_type_name FROM products_type pt"@
}

/// What follows the `WHERE` clause of a page of product types.
pub open spec fn page_of_types_tail() -> Seq<char> {
    " ORDER BY pt.id LIMIT ? OFFSET ?"@
}

/// The SQL text of a statement.
pub open spec fn sql_of(s: StatementView) -> Seq<char> {
    match s {
        StatementView::InsertType { .. } => "INSERT INTO products_type (products_type_name) VALUES (?)"@,
        StatementView::RenameType { .. } => "UPDATE products_type SET products_type_name = ? WHERE id = ?"@,
        StatementView::DeleteType { .. } => "DELETE FROM products_type WHERE id = ?"@,
        StatementView::FindTypeByName { .. } => "SELECT id FROM products_type WHERE products_type_name = ?"@,
        StatementView::InsertProduct { .. } => "INSERT INTO products (name_products, price, detail, stock, products_type_id) VALUES (?, ?, ?, ?, ?)"@,
        StatementView::UpdateProduct { .. } => "UPDATE products SET name_products = ?, price = ?, detail = ?, stock = ?, products_type_id = ? WHERE id = ?"@,
        StatementView::DeleteProduct { .. } => "DELETE FROM products WHERE id = ?"@,
        StatementView::DeleteProductsOfType { .. } => "DELETE FROM products WHERE products_type_id = ?"@,
        StatementView::InsertImage { owner, .. } => match owner {
            Owner::Type(_) => "INSERT INTO images (image_path, product_type_id) VALUES (?, ?)"@,
            Owner::Product(_) => "INSERT INTO images (image_path, product_id) VALUES (?, ?)"@,
        },
        StatementView::DeleteImages { owner } => match owner {
            Owner::Type(_) => "DELETE FROM images WHERE product_type_id = ?"@,
            Owner::Product(_) => "DELETE FROM images WHERE product_id = ?"@,
        },
        StatementView::DeleteImagesOfProductsOfType { .. } => "DELETE FROM images WHERE product_id IN (SELECT id FROM products WHERE products_type_id = ?)"@,
        StatementView::ImagePaths { owner } => match owner {
            Owner::Type(_) => "SELECT image_path FROM images WHERE product_type_id = ?"@,
            Owner::Product(_) => "SELECT image_path FROM images WHERE product_id = ?"@,
        },
        StatementView::CountTypes { .. } => count_types_head() + type_predicate(),
        StatementView::PageOfTypes { .. } => page_of_types_head() + type_predicate()
            + page_of_types_tail(),
        StatementView::ImagesOfTypes { .. } => "SELECT product_type_id, image_path FROM images WHERE product_type_id IN (SELECT value FROM json_each(?)) ORDER BY product_type_id, id"@,
        StatementView::CountProducts { filter, .. } => count_products_head() + product_predicate(
            filter,
        ),
        StatementView::PageOfProducts { filter, .. } => page_of_products_head()
            + product_predicate(filter) + page_of_products_tail(),
        StatementView::ImagesOfProducts { .. } => "SELECT product_id, image_path FROM images WHERE product_id IN (SELECT value FROM json_each(?)) ORDER BY product_id, id"@,
    }
}

/// The id of an owner, of either kind.
pub open spec fn owner_id(owner: Owner) -> i64 {
    match owner {
        Owner::Type(id) => id,
        Owner::Product(id) => id,
    }
}

/// An id as a bound value, or `NULL` for none.
pub open spec fn optional_id(id: Option<i64>) -> SqlValueView {
    match id {
        Some(id) => SqlValueView::Integer(id),
        None => SqlValueView::Null,
    }
}

/// The columns of a product as bound values, in the order of the
/// placeholders.
pub open spec fn product_values(p: ProductFieldsView) -> Seq<SqlValueView> {
    seq![
        SqlValueView::Text(p.name),
        SqlValueView::Real(p.price_bits),
        SqlValueView::Text(p.detail),
        SqlValueView::Integer(p.stock),
        optional_id(p.products_type_id),
    ]
}

/// The values bound to the placeholders of a statement, in their order.
pub open spec fn values_of(s: StatementView) -> Seq<SqlValueView> {
    match s {
        StatementView::InsertType { name } => seq![SqlValueView::Text(name)],
        StatementView::RenameType { id, name } => seq![
            SqlValueView::Text(name),
            SqlValueView::Integer(id),
        ],
        StatementView::DeleteType { id } => seq![SqlValueView::Integer(id)],
        StatementView::FindTypeByName { name } => seq![SqlValueView::Text(name)],
        StatementView::InsertProduct { product } => product_values(product),
        StatementView::UpdateProduct { id, product } => product_values(product).push(
            SqlValueView::Integer(id),
        ),
        StatementView::DeleteProduct { id } => seq![SqlValueView::Integer(id)],
        StatementView::DeleteProductsOfType { type_id } => seq![SqlValueView::Integer(type_id)],
        StatementView::InsertImage { image_path, owner } => seq![
            SqlValueView::Text(image_path),
            SqlValueView::Integer(owner_id(owner)),
        ],
        StatementView::DeleteImages { owner } => seq![SqlValueView::Integer(owner_id(owner))],
        StatementView::DeleteImagesOfProductsOfType { type_id } => seq![
            SqlValueView::Integer(type_id),
        ],
        StatementView::ImagePaths { owner } => seq![SqlValueView::Integer(owner_id(owner))],
        StatementView::CountTypes { search } => seq![SqlValueView::Text(search)],
        StatementView::PageOfTypes { search, limit, offset } => seq![
            SqlValueView::Text(search),
            SqlValueView::Integer(limit),
            SqlValueView::Integer(offset),
        ],
        StatementView::ImagesOfTypes { ids_json, .. } => seq![SqlValueView::Text(ids_json)],
        StatementView::CountProducts { search, filter } => product_predicate_values(
            search,
            filter,
        ),
        StatementView::PageOfProducts { search, filter, limit, offset } => product_predicate_values(
            search,
            filter,
        ) + seq![SqlValueView::Integer(limit), SqlValueView::Integer(offset)],
        StatementView::ImagesOfProducts { ids_json, .. } => seq![SqlValueView::Text(ids_json)],
    }
}

fn owner_number(owner: Owner) -> (id: i64)
    ensures
        id == owner_id(owner),
{
    match owner {
        Owner::Type(id) => id,
        Owner::Product(id) => id,
    }
}

fn optional_number(id: Option<i64>) -> (v: SqlValue)
    ensures
        v@ == optional_id(id),
{
    match id {
        Some(id) => SqlValue::Integer(id),
        None => SqlValue::Null,
    }
}

fn push_value(v: &mut Vec<SqlValue>, x: SqlValue)
    ensures
        final(v).deep_view() == old(v).deep_view().push(x@),
{
    v.push(x);
    assert(v.deep_view() =~= old(v).deep_view().push(x@));
}

fn product_value_list(p: &ProductFields) -> (v: Vec<SqlValue>)
    ensures
        v.deep_view() == product_values(p@),
{
    let mut v: Vec<SqlValue> = Vec::new();
    push_value(&mut v, SqlValue::Text(p.name.clone()));
    push_value(&mut v, SqlValue::Real(p.price_bits));
    push_value(&mut v, SqlValue::Text(p.detail.clone()));
    push_value(&mut v, SqlValue::Integer(p.stock));
    push_value(&mut v, optional_number(p.products_type_id));
    assert(v.deep_view() =~= product_values(p@));
    v
}

fn predicate_value_list(search: &String, filter: TypeIdFilter) -> (v: Vec<SqlValue>)
    ensures
        v.deep_view() == product_predicate_values(search@, filter),
{
    let mut v: Vec<SqlValue> = Vec::new();
    push_value(&mut v, SqlValue::Text(search.clone()));
    match filter {
        TypeIdFilter::Equal(id) => {
            push_value(&mut v, SqlValue::Integer(id));
        },
        _ => {},
    }
    assert(v.deep_view() =~= product_predicate_values(search@, filter));
    v
}

fn one_text(s: &String) -> (v: Vec<SqlValue>)
    ensures
        v.deep_view() == seq![SqlValueView::Text(s@)],
{
    let mut v: Vec<SqlValue> = Vec::new();
    push_value(&mut v, SqlValue::Text(s.clone()));
    assert(v.deep_view() =~= seq![SqlValueView::Text(s@)]);
    v
}

fn one_integer(i: i64) -> (v: Vec<SqlValue>)
    ensures
        v.deep_view() == seq![SqlValueView::Integer(i)],
{
    let mut v: Vec<SqlValue> = Vec::new();
    push_value(&mut v, SqlValue::Integer(i));
    assert(v.deep_view() =~= seq![SqlValueView::Integer(i)]);
    v
}

fn type_clause_text(filter: TypeIdFilter) -> (s: &'static str)
    ensures
        s@ == type_clause(filter),
{
    match filter {
        TypeIdFilter::Unspecified => {
            proof {
                reveal_strlit("");
            }
            assert(""@ =~= Seq::<char>::empty());
            ""
        },
        TypeIdFilter::IsNull => " AND p.products_type_id IS NULL",
        TypeIdFilter::Equal(_) => " AND p.products_type_id = ?",
    }
}

/// The kind of answer that a statement asks of the store.
#[derive(Clone, Copy, Debug, PartialEq, Eq, Structural)]
pub enum Expected {
    /// The id of the inserted row and the number of rows changed.
    Written,
    /// The `id` of the first row, if there is a row.
    TypeId,
    /// The `image_path` of every row.
    Paths,
    /// The count in the only column of the only row.
    Count,
    /// Rows of product types.
    Types,
    /// Rows of products with the names of their types.
    Products,
    /// Rows of images with their owner in this column.
    ImagesOfTypes,
    ImagesOfProducts,
}

/// What a statement asks of the store.
pub open spec fn expected_of(s: StatementView) -> Expected {
    match s {
        StatementView::FindTypeByName { .. } => Expected::TypeId,
        StatementView::ImagePaths { .. } => Expected::Paths,
        StatementView::CountTypes { .. } => Expected::Count,
        StatementView::CountProducts { .. } => Expected::Count,
        StatementView::PageOfTypes { .. } => Expected::Types,
        StatementView::PageOfProducts { .. } => Expected::Products,
        StatementView::ImagesOfTypes { .. } => Expected::ImagesOfTypes,
        StatementView::ImagesOfProducts { .. } => Expected::ImagesOfProducts,
        _ => Expected::Written,
    }
}

impl Statement {
    /// The kind of answer to read from the store.
    pub fn expects(&self) -> (e: Expected)
        ensures
            e == expected_of(self@),
    {
        match self {
            Statement::FindTypeByName { .. } => Expected::TypeId,
            Statement::ImagePaths { .. } => Expected::Paths,
            Statement::CountTypes { .. } => Expected::Count,
            Statement::CountProducts { .. } => Expected::Count,
            Statement::PageOfTypes { .. } => Expected::Types,
            Statement::PageOfProducts { .. } => Expected::Products,
            Statement::ImagesOfTypes { .. } => Expected::ImagesOfTypes,
            Statement::ImagesOfProducts { .. } => Expected::ImagesOfProducts,
            _ => Expected::Written,
        }
    }

    /// The SQL text to prepare.
    pub fn sql(&self) -> (text: String)
        ensures
            text@ == sql_of(self@),
    {
        match self {
            Statement::InsertType { .. } => String::from_str(
                "INSERT INTO products_type (products_type_name) VALUES (?)",
            ),
            Statement::RenameType { .. } => String::from_str(
                "UPDATE products_type SET products_type_name = ? WHERE id = ?",
            ),
            Statement::DeleteType { .. } => String::from_str(
                "DELETE FROM products_type WHERE id = ?",
            ),
            Statement::FindTypeByName { .. } => String::from_str(
                "SELECT id FROM products_type WHERE products_type_name = ?",
            ),
            Statement::InsertProduct { .. } => String::from_str(
                "INSERT INTO products (name_products, price, detail, stock, products_type_id) VALUES (?, ?, ?, ?, ?)",
            ),
            Statement::UpdateProduct { .. } => String::from_str(
                "UPDATE products SET name_products = ?, price = ?, detail = ?, stock = ?, products_type_id = ? WHERE id = ?",
            ),
            Statement::DeleteProduct { .. } => String::from_str("DELETE FROM products WHERE id = ?"),
            Statement::DeleteProductsOfType { .. } => String::from_str(
                "DELETE FROM products WHERE products_type_id = ?",
            ),
            Statement::InsertImage { owner, .. } => match owner {
                Owner::Type(_) => String::from_str(
                    "INSERT INTO images (image_path, product_type_id) VALUES (?, ?)",
                ),
                Owner::Product(_) => String::from_str(
                    "INSERT INTO images (image_path, product_id) VALUES (?, ?)",
                ),
            },
            Statement::DeleteImages { owner } => match owner {
                Owner::Type(_) => String::from_str("DELETE FROM images WHERE product_type_id = ?"),
                Owner::Product(_) => String::from_str("DELETE FROM images WHERE product_id = ?"),
            },
            Statement::DeleteImagesOfProductsOfType { .. } => String::from_str(
                "DELETE FROM images WHERE product_id IN (SELECT id FROM products WHERE products_type_id = ?)",
            ),
            Statement::ImagePaths { owner } => match owner {
                Owner::Type(_) => String::from_str(
                    "SELECT image_path FROM images WHERE product_type_id = ?",
                ),
                Owner::Product(_) => String::from_str(
                    "SELECT image_path FROM images WHERE product_id = ?",
                ),
            },
            Statement::CountTypes { .. } => {
                let mut text = String::from_str("SELECT COUNT(*) FROM products_type pt");
                text.append(" WHERE pt.products_type_name LIKE '%' || ? || '%'");
                text
            },
            Statement::PageOfTypes { .. } => {
                let mut text = String::from_str(
                    "SELECT pt.id, pt.products_type_name FROM products_type pt",
                );
                text.append(" WHERE pt.products_type_name LIKE '%' || ? || '%'");
                text.append(" ORDER BY pt.id LIMIT ? OFFSET ?");
                text
            },
            Statement::ImagesOfTypes { .. } => String::from_str(
                "SELECT product_type_id, image_path FROM images WHERE product_type_id IN (SELECT value FROM json_each(?)) ORDER BY product_type_id, id",
            ),
            Statement::CountProducts { filter, .. } => {
                let mut text = String::from_str("SELECT COUNT(*) FROM products p");
                text.append(" WHERE p.name_products LIKE '%' || ? || '%'");
                text.append(type_clause_text(*filter));
                assert(text@ =~= sql_of(self@));
                text
            },
            Statement::PageOfProducts { filter, .. } => {
                let mut text = String::from_str(
                    "SELECT p.id, p.name_products, p.price, p.detail, p.stock, p.created_at, p.products_type_id, pt.products_type_name FROM products p LEFT JOIN products_type pt ON p.products_type_id = pt.id",
                );
                text.append(" WHERE p.name_products LIKE '%' || ? || '%'");
                text.append(type_clause_text(*filter));
                text.append(" ORDER BY p.id LIMIT ? OFFSET ?");
                assert(text@ =~= sql_of(self@));
                text
            },
            Statement::ImagesOfProducts { .. } => String::from_str(
                "SELECT product_id, image_path FROM images WHERE product_id IN (SELECT value FROM json_each(?)) ORDER BY product_id, id",
            ),
        }
    }

    /// The values to bind, in the order of the placeholders.
    pub fn values(&self) -> (bound: Vec<SqlValue>)
        ensures
            bound.deep_view() == values_of(self@),
    {
        match self {
            Statement::InsertType { name } => one_text(name),
            Statement::RenameType { id, name } => {
                let mut v = one_text(name);
                push_value(&mut v, SqlValue::Integer(*id));
                assert(v.deep_view() =~= values_of(self@));
                v
            },
            Statement::DeleteType { id } => one_integer(*id),
            Statement::FindTypeByName { name } => one_text(name),
            Statement::InsertProduct { product } => product_value_list(product),
            Statement::UpdateProduct { id, product } => {
                let mut v = product_value_list(product);
                push_value(&mut v, SqlValue::Integer(*id));
                assert(v.deep_view() =~= values_of(self@));
                v
            },
            Statement::DeleteProduct { id } => one_integer(*id),
            Statement::DeleteProductsOfType { type_id } => one_integer(*type_id),
            Statement::InsertImage { image_path, owner } => {
                let mut v = one_text(image_path);
                push_value(&mut v, SqlValue::Integer(owner_number(*owner)));
                assert(v.deep_view() =~= values_of(self@));
                v
            },
            Statement::DeleteImages { owner } => one_integer(owner_number(*owner)),
            Statement::DeleteImagesOfProductsOfType { type_id } => one_integer(*type_id),
            Statement::ImagePaths { owner } => one_integer(owner_number(*owner)),
            Statement::CountTypes { search } => one_text(search),
            Statement::PageOfTypes { search, limit, offset } => {
                let mut v = one_text(search);
                push_value(&mut v, SqlValue::Integer(*limit));
                push_value(&mut v, SqlValue::Integer(*offset));
                assert(v.deep_view() =~= values_of(self@));
                v
            },
            Statement::ImagesOfTypes { ids_json, .. } => one_text(ids_json),
            Statement::CountProducts { search, filter } => predicate_value_list(search, *filter),
            Statement::PageOfProducts { search, filter, limit, offset } => {
                let mut v = predicate_value_list(search, *filter);
                push_value(&mut v, SqlValue::Integer(*limit));
                push_value(&mut v, SqlValue::Integer(*offset));
                assert(v.deep_view() =~= values_of(self@));
                v
            },
            Statement::ImagesOfProducts { ids_json, .. } => one_text(ids_json),
        }
    }
}

} // verus!

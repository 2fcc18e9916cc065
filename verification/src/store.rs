//! A store that keeps the three tables in memory and runs each statement as
//! `apply` says.
//!
//! A search term finds the names that hold it, character for character; a
//! service that keeps its tables in a database performs the same statements
//! there, with the matching of that database.

use crate::pagination::TypeIdFilter;
use crate::rows::{
    first_type, image_picked, images_where, product_has_type, product_picked, products_where,
    push_deep, type_picked, types_where, window_end, window_start, ImagePick, ImageRow,
    ListedProduct, OwnedPath, ProductPick, ProductRow, Reply, ReplyView, TypePick, TypeRow,
};
use crate::sql::{Owner, ProductFields, Statement, StatementView};
use crate::tables::{
    apply, apply_keeps_wf, ascending_is_short, image_key, joined, owned_path, path_of,
    product_key, renamed, type_key, with_fields, Tables,
};
use crate::text::{contains, same_text};
use vstd::prelude::*;

verus! {

/// A condition on a product type, as a statement carries it.
enum TypeChoice<'a> {
    WithId(i64),
    Named(&'a str),
    NameContains(&'a str),
}

impl<'a> View for TypeChoice<'a> {
    type V = TypePick;

    closed spec fn view(&self) -> TypePick {
        match *self {
            TypeChoice::WithId(id) => TypePick::WithId(id),
            TypeChoice::Named(name) => TypePick::Named(name@),
            TypeChoice::NameContains(part) => TypePick::NameContains(part@),
        }
    }
}

fn type_chosen(row: &TypeRow, choice: &TypeChoice) -> (b: bool)
    ensures
        b == type_picked(choice@, row@),
{
    match choice {
        TypeChoice::WithId(id) => row.id == *id,
        TypeChoice::Named(name) => same_text(row.name.as_str(), name),
        TypeChoice::NameContains(part) => contains(row.name.as_str(), part),
    }
}

/// Copies of the rows that the choice picks (or, with `want` false, of the
/// others), in their order.
fn chosen_types(rows: &Vec<TypeRow>, choice: &TypeChoice, want: bool) -> (out: Vec<TypeRow>)
    ensures
        out.deep_view() == rows.deep_view().filter(types_where(choice@, want)),
{
    let mut out: Vec<TypeRow> = Vec::new();
    let mut i: usize = 0;
    let ghost all = rows.deep_view();
    let ghost keep = types_where(choice@, want);
    assert(all.subrange(0, 0) =~= Seq::empty());
    assert(out.deep_view() =~= Seq::empty());
    proof {
        reveal(Seq::filter);
    }
    while i < rows.len()
        invariant
            i <= rows.len(),
            all == rows.deep_view(),
            keep == types_where(choice@, want),
            out.deep_view() == all.subrange(0, i as int).filter(keep),
        decreases rows.len() - i,
    {
        proof {
            assert(all.subrange(0, i + 1) =~= all.subrange(0, i as int).push(rows[i as int]@));
            all.subrange(0, i as int).lemma_filter_push(rows[i as int]@, keep);
        }
        if type_chosen(&rows[i], choice) == want {
            push_deep(&mut out, rows[i].copy());
        }
        i = i + 1;
    }
    assert(all.subrange(0, i as int) =~= all);
    out
}

/// A copy of the first row that the choice picks.
fn first_chosen_type(rows: &Vec<TypeRow>, choice: &TypeChoice) -> (found: Option<TypeRow>)
    ensures
        found.deep_view() == first_type(rows.deep_view(), choice@),
{
    let mut found: Option<TypeRow> = None;
    let mut i: usize = 0;
    let ghost all = rows.deep_view();
    assert(all.subrange(0, 0) =~= Seq::empty());
    while i < rows.len()
        invariant
            i <= rows.len(),
            all == rows.deep_view(),
            found.deep_view() == first_type(all.subrange(0, i as int), choice@),
        decreases rows.len() - i,
    {
        assert(all.subrange(0, i + 1).drop_last() =~= all.subrange(0, i as int));
        assert(all.subrange(0, i + 1).last() == rows[i as int]@);
        if found.is_none() && type_chosen(&rows[i], choice) {
            found = Some(rows[i].copy());
        }
        i = i + 1;
    }
    assert(all.subrange(0, i as int) =~= all);
    found
}

/// Copies of the rows with a new name for the row with this id.
fn renamed_types(rows: &Vec<TypeRow>, id: i64, name: &String) -> (out: Vec<TypeRow>)
    ensures
        out.deep_view() == rows.deep_view().map_values(renamed(id, name@)),
{
    let mut out: Vec<TypeRow> = Vec::new();
    let mut i: usize = 0;
    while i < rows.len()
        invariant
            i <= rows.len(),
            out.len() == i,
            forall|k: int| 0 <= k < i ==> out[k]@ == renamed(id, name@)(rows[k]@),
        decreases rows.len() - i,
    {
        if rows[i].id == id {
            out.push(TypeRow { id, name: name.clone() });
        } else {
            out.push(rows[i].copy());
        }
        i = i + 1;
    }
    assert(out.deep_view() =~= rows.deep_view().map_values(renamed(id, name@)));
    out
}

/// A condition on a product, as a statement carries it.
enum ProductChoice<'a> {
    WithId(i64),
    OfType(i64),
    Listed { search: &'a str, filter: TypeIdFilter },
}

impl<'a> View for ProductChoice<'a> {
    type V = ProductPick;

    closed spec fn view(&self) -> ProductPick {
        match *self {
            ProductChoice::WithId(id) => ProductPick::WithId(id),
            ProductChoice::OfType(type_id) => ProductPick::OfType(type_id),
            ProductChoice::Listed { search, filter } => ProductPick::Listed {
                search: search@,
                filter,
            },
        }
    }
}

fn product_chosen(row: &ProductRow, choice: &ProductChoice) -> (b: bool)
    ensures
        b == product_picked(choice@, row@),
{
    match choice {
        ProductChoice::WithId(id) => row.id == *id,
        ProductChoice::OfType(type_id) => match row.fields.products_type_id {
            Some(id) => id == *type_id,
            None => false,
        },
        ProductChoice::Listed { search, filter } => {
            let accepted = match filter {
                TypeIdFilter::Unspecified => true,
                TypeIdFilter::IsNull => row.fields.products_type_id.is_none(),
                TypeIdFilter::Equal(wanted) => match row.fields.products_type_id {
                    Some(id) => id == *wanted,
                    None => false,
                },
            };
            accepted && contains(row.fields.name.as_str(), search)
        },
    }
}

fn chosen_products(rows: &Vec<ProductRow>, choice: &ProductChoice, want: bool) -> (out: Vec<
    ProductRow,
>)
    ensures
        out.deep_view() == rows.deep_view().filter(products_where(choice@, want)),
{
    let mut out: Vec<ProductRow> = Vec::new();
    let mut i: usize = 0;
    let ghost all = rows.deep_view();
    let ghost keep = products_where(choice@, want);
    assert(all.subrange(0, 0) =~= Seq::empty());
    assert(out.deep_view() =~= Seq::empty());
    proof {
        reveal(Seq::filter);
    }
    while i < rows.len()
        invariant
            i <= rows.len(),
            all == rows.deep_view(),
            keep == products_where(choice@, want),
            out.deep_view() == all.subrange(0, i as int).filter(keep),
        decreases rows.len() - i,
    {
        proof {
            assert(all.subrange(0, i + 1) =~= all.subrange(0, i as int).push(rows[i as int]@));
            all.subrange(0, i as int).lemma_filter_push(rows[i as int]@, keep);
        }
        if product_chosen(&rows[i], choice) == want {
            push_deep(&mut out, rows[i].copy());
        }
        i = i + 1;
    }
    assert(all.subrange(0, i as int) =~= all);
    out
}

/// Copies of the rows with new fields for the row with this id.
fn updated_products(rows: &Vec<ProductRow>, id: i64, fields: &ProductFields) -> (out: Vec<
    ProductRow,
>)
    ensures
        out.deep_view() == rows.deep_view().map_values(with_fields(id, fields@)),
{
    let mut out: Vec<ProductRow> = Vec::new();
    let mut i: usize = 0;
    while i < rows.len()
        invariant
            i <= rows.len(),
            out.len() == i,
            forall|k: int| 0 <= k < i ==> out[k]@ == with_fields(id, fields@)(rows[k]@),
        decreases rows.len() - i,
    {
        if rows[i].id == id {
            out.push(ProductRow { id, fields: fields.copy(), created_at: rows[i].created_at });
        } else {
            out.push(rows[i].copy());
        }
        i = i + 1;
    }
    assert(out.deep_view() =~= rows.deep_view().map_values(with_fields(id, fields@)));
    out
}

fn has_product_of_type(products: &Vec<ProductRow>, id: i64, type_id: i64) -> (b: bool)
    ensures
        b == product_has_type(products.deep_view(), id, type_id),
{
    let mut i: usize = 0;
    let ghost all = products.deep_view();
    while i < products.len()
        invariant
            i <= products.len(),
            all == products.deep_view(),
            forall|k: int|
                0 <= k < i ==> !((#[trigger] all[k]).id == id && all[k].fields.products_type_id
                    == Some(type_id)),
        decreases products.len() - i,
    {
        let hit = products[i].id == id && match products[i].fields.products_type_id {
            Some(t) => t == type_id,
            None => false,
        };
        if hit {
            assert(all[i as int].id == id);
            return true;
        }
        i = i + 1;
    }
    false
}

fn holds_id(ids: &Vec<i64>, id: i64) -> (b: bool)
    ensures
        b == ids@.contains(id),
{
    let mut i: usize = 0;
    while i < ids.len()
        invariant
            i <= ids.len(),
            forall|k: int| 0 <= k < i ==> ids@[k] != id,
        decreases ids.len() - i,
    {
        if ids[i] == id {
            return true;
        }
        i = i + 1;
    }
    false
}

/// A condition on an image, as a statement carries it.
enum ImageChoice<'a> {
    OwnedBy(Owner),
    OfProductsOfType(i64),
    OwnerAmong { of_types: bool, ids: &'a Vec<i64> },
}

impl<'a> View for ImageChoice<'a> {
    type V = ImagePick;

    closed spec fn view(&self) -> ImagePick {
        match *self {
            ImageChoice::OwnedBy(owner) => ImagePick::OwnedBy(owner),
            ImageChoice::OfProductsOfType(type_id) => ImagePick::OfProductsOfType(type_id),
            ImageChoice::OwnerAmong { of_types, ids } => ImagePick::OwnerAmong {
                of_types,
                ids: ids@,
            },
        }
    }
}

fn image_chosen(row: &ImageRow, choice: &ImageChoice, products: &Vec<ProductRow>) -> (b: bool)
    ensures
        b == image_picked(choice@, products.deep_view(), row@),
{
    match choice {
        ImageChoice::OwnedBy(owner) => match owner {
            Owner::Type(id) => match row.product_type_id {
                Some(owner_id) => owner_id == *id,
                None => false,
            },
            Owner::Product(id) => match row.product_id {
                Some(owner_id) => owner_id == *id,
                None => false,
            },
        },
        ImageChoice::OfProductsOfType(type_id) => match row.product_id {
            Some(id) => has_product_of_type(products, id, *type_id),
            None => false,
        },
        ImageChoice::OwnerAmong { of_types, ids } => {
            let column = if *of_types {
                row.product_type_id
            } else {
                row.product_id
            };
            match column {
                Some(id) => holds_id(ids, id),
                None => false,
            }
        },
    }
}

fn chosen_images(
    rows: &Vec<ImageRow>,
    choice: &ImageChoice,
    products: &Vec<ProductRow>,
    want: bool,
) -> (out: Vec<ImageRow>)
    ensures
        out.deep_view() == rows.deep_view().filter(
            images_where(choice@, products.deep_view(), want),
        ),
{
    let mut out: Vec<ImageRow> = Vec::new();
    let mut i: usize = 0;
    let ghost all = rows.deep_view();
    let ghost keep = images_where(choice@, products.deep_view(), want);
    assert(all.subrange(0, 0) =~= Seq::empty());
    assert(out.deep_view() =~= Seq::empty());
    proof {
        reveal(Seq::filter);
    }
    while i < rows.len()
        invariant
            i <= rows.len(),
            all == rows.deep_view(),
            keep == images_where(choice@, products.deep_view(), want),
            out.deep_view() == all.subrange(0, i as int).filter(keep),
        decreases rows.len() - i,
    {
        proof {
            assert(all.subrange(0, i + 1) =~= all.subrange(0, i as int).push(rows[i as int]@));
            all.subrange(0, i as int).lemma_filter_push(rows[i as int]@, keep);
        }
        if image_chosen(&rows[i], choice, products) == want {
            push_deep(&mut out, rows[i].copy());
        }
        i = i + 1;
    }
    assert(all.subrange(0, i as int) =~= all);
    out
}

fn paths_of(rows: &Vec<ImageRow>) -> (out: Vec<String>)
    ensures
        out.deep_view() == rows.deep_view().map_values(path_of()),
{
    let mut out: Vec<String> = Vec::new();
    let mut i: usize = 0;
    while i < rows.len()
        invariant
            i <= rows.len(),
            out.len() == i,
            forall|k: int| 0 <= k < i ==> out[k]@ == rows[k]@.image_path,
        decreases rows.len() - i,
    {
        out.push(rows[i].image_path.clone());
        i = i + 1;
    }
    assert(out.deep_view() =~= rows.deep_view().map_values(path_of()));
    out
}

fn owned_paths_of(rows: &Vec<ImageRow>, of_types: bool) -> (out: Vec<OwnedPath>)
    ensures
        out.deep_view() == rows.deep_view().map_values(owned_path(of_types)),
{
    let mut out: Vec<OwnedPath> = Vec::new();
    let mut i: usize = 0;
    while i < rows.len()
        invariant
            i <= rows.len(),
            out.len() == i,
            forall|k: int| 0 <= k < i ==> out[k]@ == owned_path(of_types)(rows[k]@),
        decreases rows.len() - i,
    {
        let column = if of_types {
            rows[i].product_type_id
        } else {
            rows[i].product_id
        };
        let owner_id: i64 = match column {
            Some(id) => id,
            None => 0,
        };
        out.push(OwnedPath { owner_id, image_path: rows[i].image_path.clone() });
        i = i + 1;
    }
    assert(out.deep_view() =~= rows.deep_view().map_values(owned_path(of_types)));
    out
}

fn window_bounds(len: usize, offset: i64, limit: i64) -> (bounds: (usize, usize))
    ensures
        bounds.0 == window_start(len as int, offset),
        bounds.1 == window_end(len as int, offset, limit),
        bounds.0 <= bounds.1 <= len,
{
    let start: usize = if offset <= 0 {
        0
    } else if offset as u64 >= len as u64 {
        len
    } else {
        offset as usize
    };
    let end: usize = if limit < 0 || limit as u64 >= (len - start) as u64 {
        len
    } else {
        start + limit as usize
    };
    (start, end)
}

fn types_between(rows: &Vec<TypeRow>, start: usize, end: usize) -> (out: Vec<TypeRow>)
    requires
        start <= end <= rows.len(),
    ensures
        out.deep_view() == rows.deep_view().subrange(start as int, end as int),
{
    let mut out: Vec<TypeRow> = Vec::new();
    let mut i: usize = start;
    while i < end
        invariant
            start <= i <= end <= rows.len(),
            out.len() == i - start,
            forall|k: int| 0 <= k < i - start ==> out[k]@ == rows[start + k]@,
        decreases end - i,
    {
        out.push(rows[i].copy());
        i = i + 1;
    }
    assert(out.deep_view() =~= rows.deep_view().subrange(start as int, end as int));
    out
}

fn products_between(
    rows: &Vec<ProductRow>,
    types: &Vec<TypeRow>,
    start: usize,
    end: usize,
) -> (out: Vec<ListedProduct>)
    requires
        start <= end <= rows.len(),
    ensures
        out.deep_view() == rows.deep_view().subrange(start as int, end as int).map_values(
            joined(types.deep_view()),
        ),
{
    let mut out: Vec<ListedProduct> = Vec::new();
    let mut i: usize = start;
    while i < end
        invariant
            start <= i <= end <= rows.len(),
            out.len() == i - start,
            forall|k: int|
                0 <= k < i - start ==> out[k]@ == joined(types.deep_view())(rows[start + k]@),
        decreases end - i,
    {
        let products_type_name = match rows[i].fields.products_type_id {
            Some(id) => match first_chosen_type(types, &TypeChoice::WithId(id)) {
                Some(row) => Some(row.name),
                None => None,
            },
            None => None,
        };
        out.push(ListedProduct { row: rows[i].copy(), products_type_name });
        i = i + 1;
    }
    assert(out.deep_view() =~= rows.deep_view().subrange(start as int, end as int).map_values(
        joined(types.deep_view()),
    ));
    out
}

fn types_copy(rows: &Vec<TypeRow>) -> (out: Vec<TypeRow>)
    ensures
        out.deep_view() == rows.deep_view(),
{
    let out = types_between(rows, 0, rows.len());
    assert(rows.deep_view().subrange(0, rows.len() as int) =~= rows.deep_view());
    out
}

fn products_copy(rows: &Vec<ProductRow>) -> (out: Vec<ProductRow>)
    ensures
        out.deep_view() == rows.deep_view(),
{
    let mut out: Vec<ProductRow> = Vec::new();
    let mut i: usize = 0;
    while i < rows.len()
        invariant
            i <= rows.len(),
            out.len() == i,
            forall|k: int| 0 <= k < i ==> out[k]@ == rows[k]@,
        decreases rows.len() - i,
    {
        out.push(rows[i].copy());
        i = i + 1;
    }
    assert(out.deep_view() =~= rows.deep_view());
    out
}

fn images_copy(rows: &Vec<ImageRow>) -> (out: Vec<ImageRow>)
    ensures
        out.deep_view() == rows.deep_view(),
{
    let mut out: Vec<ImageRow> = Vec::new();
    let mut i: usize = 0;
    while i < rows.len()
        invariant
            i <= rows.len(),
            out.len() == i,
            forall|k: int| 0 <= k < i ==> out[k]@ == rows[k]@,
        decreases rows.len() - i,
    {
        out.push(rows[i].copy());
        i = i + 1;
    }
    assert(out.deep_view() =~= rows.deep_view());
    out
}

struct Rows {
    types: Vec<TypeRow>,
    products: Vec<ProductRow>,
    images: Vec<ImageRow>,
    next_type_id: i64,
    next_product_id: i64,
    next_image_id: i64,
    clock: i64,
}

impl View for Rows {
    type V = Tables;

    closed spec fn view(&self) -> Tables {
        Tables {
            types: self.types.deep_view(),
            products: self.products.deep_view(),
            images: self.images.deep_view(),
            next_type_id: self.next_type_id,
            next_product_id: self.next_product_id,
            next_image_id: self.next_image_id,
            clock: self.clock,
        }
    }
}

impl Rows {
    fn copy(&self) -> (c: Rows)
        ensures
            c@ == self@,
    {
        Rows {
            types: types_copy(&self.types),
            products: products_copy(&self.products),
            images: images_copy(&self.images),
            next_type_id: self.next_type_id,
            next_product_id: self.next_product_id,
            next_image_id: self.next_image_id,
            clock: self.clock,
        }
    }

    fn run(&mut self, s: &Statement) -> (r: Reply)
        requires
            old(self)@.wf(),
        ensures
            (final(self)@, r@) == apply(old(self)@, s@),
            final(self)@.wf(),
    {
        let ghost before = self@;
        proof {
            apply_keeps_wf(before, s@);
            ascending_is_short(before.types, type_key(), before.next_type_id);
            ascending_is_short(before.products, product_key(), before.next_product_id);
            ascending_is_short(before.images, image_key(), before.next_image_id);
        }
        match s {
            Statement::InsertType { name } => {
                if self.next_type_id == i64::MAX {
                    Reply::Failed
                } else {
                    let id = self.next_type_id;
                    push_deep(&mut self.types, TypeRow { id, name: name.clone() });
                    self.next_type_id = id + 1;
                    Reply::Written { last_insert_rowid: id, rows_affected: 1 }
                }
            },
            Statement::RenameType { id, name } => {
                let hit = chosen_types(&self.types, &TypeChoice::WithId(*id), true);
                proof {
                    before.types.lemma_filter_len(types_where(TypePick::WithId(*id), true));
                }
                self.types = renamed_types(&self.types, *id, name);
                Reply::Written { last_insert_rowid: 0, rows_affected: hit.len() as u64 }
            },
            Statement::DeleteType { id } => {
                let kept = chosen_types(&self.types, &TypeChoice::WithId(*id), false);
                proof {
                    before.types.lemma_filter_len(types_where(TypePick::WithId(*id), false));
                }
                let gone: usize = self.types.len() - kept.len();
                self.types = kept;
                Reply::Written { last_insert_rowid: 0, rows_affected: gone as u64 }
            },
            Statement::FindTypeByName { name } => {
                match first_chosen_type(&self.types, &TypeChoice::Named(name.as_str())) {
                    Some(row) => Reply::TypeId(Some(row.id)),
                    None => Reply::TypeId(None),
                }
            },
            Statement::InsertProduct { product } => {
                if self.next_product_id == i64::MAX {
                    Reply::Failed
                } else {
                    let id = self.next_product_id;
                    push_deep(
                        &mut self.products,
                        ProductRow { id, fields: product.copy(), created_at: self.clock },
                    );
                    self.next_product_id = id + 1;
                    Reply::Written { last_insert_rowid: id, rows_affected: 1 }
                }
            },
            Statement::UpdateProduct { id, product } => {
                let hit = chosen_products(&self.products, &ProductChoice::WithId(*id), true);
                proof {
                    before.products.lemma_filter_len(
                        products_where(ProductPick::WithId(*id), true),
                    );
                }
                self.products = updated_products(&self.products, *id, product);
                Reply::Written { last_insert_rowid: 0, rows_affected: hit.len() as u64 }
            },
            Statement::DeleteProduct { id } => {
                let kept = chosen_products(&self.products, &ProductChoice::WithId(*id), false);
                proof {
                    before.products.lemma_filter_len(
                        products_where(ProductPick::WithId(*id), false),
                    );
                }
                let gone: usize = self.products.len() - kept.len();
                self.products = kept;
                Reply::Written { last_insert_rowid: 0, rows_affected: gone as u64 }
            },
            Statement::DeleteProductsOfType { type_id } => {
                let kept = chosen_products(
                    &self.products,
                    &ProductChoice::OfType(*type_id),
                    false,
                );
                proof {
                    before.products.lemma_filter_len(
                        products_where(ProductPick::OfType(*type_id), false),
                    );
                }
                let gone: usize = self.products.len() - kept.len();
                self.products = kept;
                Reply::Written { last_insert_rowid: 0, rows_affected: gone as u64 }
            },
            Statement::InsertImage { image_path, owner } => {
                if self.next_image_id == i64::MAX {
                    Reply::Failed
                } else {
                    let id = self.next_image_id;
                    let row = match owner {
                        Owner::Type(owner_id) => ImageRow {
                            id,
                            image_path: image_path.clone(),
                            product_type_id: Some(*owner_id),
                            product_id: None,
                        },
                        Owner::Product(owner_id) => ImageRow {
                            id,
                            image_path: image_path.clone(),
                            product_type_id: None,
                            product_id: Some(*owner_id),
                        },
                    };
                    push_deep(&mut self.images, row);
                    self.next_image_id = id + 1;
                    Reply::Written { last_insert_rowid: id, rows_affected: 1 }
                }
            },
            Statement::DeleteImages { owner } => {
                let choice = ImageChoice::OwnedBy(*owner);
                let kept = chosen_images(&self.images, &choice, &self.products, false);
                proof {
                    before.images.lemma_filter_len(images_where(choice@, before.products, false));
                }
                let gone: usize = self.images.len() - kept.len();
                self.images = kept;
                Reply::Written { last_insert_rowid: 0, rows_affected: gone as u64 }
            },
            Statement::DeleteImagesOfProductsOfType { type_id } => {
                let choice = ImageChoice::OfProductsOfType(*type_id);
                let kept = chosen_images(&self.images, &choice, &self.products, false);
                proof {
                    before.images.lemma_filter_len(images_where(choice@, before.products, false));
                }
                let gone: usize = self.images.len() - kept.len();
                self.images = kept;
                Reply::Written { last_insert_rowid: 0, rows_affected: gone as u64 }
            },
            Statement::ImagePaths { owner } => {
                let choice = ImageChoice::OwnedBy(*owner);
                let picked = chosen_images(&self.images, &choice, &self.products, true);
                Reply::Paths(paths_of(&picked))
            },
            Statement::CountTypes { search } => {
                let choice = TypeChoice::NameContains(search.as_str());
                let picked = chosen_types(&self.types, &choice, true);
                proof {
                    before.types.lemma_filter_len(types_where(choice@, true));
                }
                Reply::Count(picked.len() as i64)
            },
            Statement::PageOfTypes { search, limit, offset } => {
                let choice = TypeChoice::NameContains(search.as_str());
                let picked = chosen_types(&self.types, &choice, true);
                let (start, end) = window_bounds(picked.len(), *offset, *limit);
                Reply::Types(types_between(&picked, start, end))
            },
            Statement::ImagesOfTypes { ids, .. } => {
                let choice = ImageChoice::OwnerAmong { of_types: true, ids };
                let picked = chosen_images(&self.images, &choice, &self.products, true);
                Reply::Images(owned_paths_of(&picked, true))
            },
            Statement::CountProducts { search, filter } => {
                let choice = ProductChoice::Listed { search: search.as_str(), filter: *filter };
                let picked = chosen_products(&self.products, &choice, true);
                proof {
                    before.products.lemma_filter_len(products_where(choice@, true));
                }
                Reply::Count(picked.len() as i64)
            },
            Statement::PageOfProducts { search, filter, limit, offset } => {
                let choice = ProductChoice::Listed { search: search.as_str(), filter: *filter };
                let picked = chosen_products(&self.products, &choice, true);
                let (start, end) = window_bounds(picked.len(), *offset, *limit);
                Reply::Products(products_between(&picked, &self.types, start, end))
            },
            Statement::ImagesOfProducts { ids, .. } => {
                let choice = ImageChoice::OwnerAmong { of_types: false, ids };
                let picked = chosen_images(&self.images, &choice, &self.products, true);
                Reply::Images(owned_paths_of(&picked, false))
            },
        }
    }
}

/// The tables, and the copy of them that an open transaction goes back to.
pub struct CatalogView {
    pub live: Tables,
    pub saved: Option<Tables>,
}

impl CatalogView {
    /// The tables, and the copy kept for a transaction, are well-formed.
    pub open spec fn wf(self) -> bool {
        &&& self.live.wf()
        &&& match self.saved {
            Some(saved) => saved.wf(),
            None => true,
        }
    }

    /// Opens a transaction, unless one is open.
    pub open spec fn begin(self) -> (CatalogView, bool) {
        if self.saved is None {
            (CatalogView { live: self.live, saved: Some(self.live) }, true)
        } else {
            (self, false)
        }
    }

    /// Keeps what the open transaction wrote.
    pub open spec fn commit(self) -> (CatalogView, bool) {
        if self.saved is Some {
            (CatalogView { live: self.live, saved: None }, true)
        } else {
            (self, false)
        }
    }

    /// Goes back to the tables as the open transaction found them.
    pub open spec fn rollback(self) -> (CatalogView, bool) {
        match self.saved {
            Some(saved) => (CatalogView { live: saved, saved: None }, true),
            None => (self, false),
        }
    }

    /// The catalog after a statement, and the answer to it.
    pub open spec fn execute(self, s: StatementView) -> (CatalogView, ReplyView) {
        (CatalogView { live: apply(self.live, s).0, saved: self.saved }, apply(self.live, s).1)
    }
}

/// The catalog's tables held in memory.
pub struct Catalog {
    live: Rows,
    saved: Option<Rows>,
}

impl View for Catalog {
    type V = CatalogView;

    closed spec fn view(&self) -> CatalogView {
        CatalogView {
            live: self.live@,
            saved: match self.saved {
                Some(saved) => Some(saved@),
                None => None,
            },
        }
    }
}

impl Catalog {
    /// The tables, and the copy kept for a transaction, are well-formed.
    pub open spec fn wf(&self) -> bool {
        self@.wf()
    }

    /// Empty tables whose first ids are 1.
    pub fn new() -> (c: Catalog)
        ensures
            c@ == (CatalogView { live: Tables::empty(), saved: None }),
            c.wf(),
    {
        let c = Catalog {
            live: Rows {
                types: Vec::new(),
                products: Vec::new(),
                images: Vec::new(),
                next_type_id: 1,
                next_product_id: 1,
                next_image_id: 1,
                clock: 0,
            },
            saved: None,
        };
        assert(c.live@.types =~= Seq::empty());
        assert(c.live@.products =~= Seq::empty());
        assert(c.live@.images =~= Seq::empty());
        c
    }

    /// Sets the creation time of the products inserted from now on.
    pub fn set_clock(&mut self, now: i64)
        requires
            old(self).wf(),
        ensures
            final(self)@ == (CatalogView {
                live: Tables { clock: now, ..old(self)@.live },
                saved: old(self)@.saved,
            }),
            final(self).wf(),
    {
        self.live.clock = now;
    }

    /// Opens a transaction, unless one is open.
    pub fn begin(&mut self) -> (ok: bool)
        requires
            old(self).wf(),
        ensures
            (final(self)@, ok) == old(self)@.begin(),
            final(self).wf(),
    {
        if self.saved.is_none() {
            self.saved = Some(self.live.copy());
            true
        } else {
            false
        }
    }

    /// Keeps what the open transaction wrote.
    pub fn commit(&mut self) -> (ok: bool)
        requires
            old(self).wf(),
        ensures
            (final(self)@, ok) == old(self)@.commit(),
            final(self).wf(),
    {
        if self.saved.is_some() {
            self.saved = None;
            true
        } else {
            false
        }
    }

    /// Goes back to the tables as the open transaction found them.
    pub fn rollback(&mut self) -> (ok: bool)
        requires
            old(self).wf(),
        ensures
            (final(self)@, ok) == old(self)@.rollback(),
            final(self).wf(),
    {
        match self.saved.take() {
            Some(saved) => {
                self.live = saved;
                true
            },
            None => false,
        }
    }

    /// Runs one statement.
    pub fn execute(&mut self, s: &Statement) -> (r: Reply)
        requires
            old(self).wf(),
        ensures
            (final(self)@, r@) == old(self)@.execute(s@),
            final(self).wf(),
    {
        self.live.run(s)
    }

    /// Copies of the rows of product types.
    pub fn type_rows(&self) -> (rows: Vec<TypeRow>)
        ensures
            rows.deep_view() == self@.live.types,
    {
        types_copy(&self.live.types)
    }

    /// Copies of the rows of products.
    pub fn product_rows(&self) -> (rows: Vec<ProductRow>)
        ensures
            rows.deep_view() == self@.live.products,
    {
        products_copy(&self.live.products)
    }

    /// Copies of the rows of images.
    pub fn image_rows(&self) -> (rows: Vec<ImageRow>)
        ensures
            rows.deep_view() == self@.live.images,
    {
        images_copy(&self.live.images)
    }
}

} // verus!

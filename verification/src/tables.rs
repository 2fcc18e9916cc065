//! The three tables as sequences of rows, and what each statement does to
//! them and answers.
//!
//! Ids are handed out in ascending order and never again, so each table
//! lists its rows by ascending id.

use crate::rows::{
    first_type, images_where, owner_column, products_where, types_where, window, ImagePick,
    ImageRowView, ListedProductView, OwnedPathView, ProductPick, ProductRowView, ReplyView,
    TypePick, TypeRowView,
};
use crate::sql::{Owner, ProductFieldsView, StatementView};
use vstd::prelude::*;

verus! {

pub struct Tables {
    pub types: Seq<TypeRowView>,
    pub products: Seq<ProductRowView>,
    pub images: Seq<ImageRowView>,
    pub next_type_id: i64,
    pub next_product_id: i64,
    pub next_image_id: i64,
    /// The creation time that the next inserted product gets.
    pub clock: i64,
}

/// The id of a product type.
pub open spec fn type_key() -> spec_fn(TypeRowView) -> i64 {
    |row: TypeRowView| row.id
}

/// The id of a product.
pub open spec fn product_key() -> spec_fn(ProductRowView) -> i64 {
    |row: ProductRowView| row.id
}

/// The id of an image.
pub open spec fn image_key() -> spec_fn(ImageRowView) -> i64 {
    |row: ImageRowView| row.id
}

/// Every key is at least 1 and below `next`, and each row's key is above
/// that of the row before it.
pub open spec fn ascending<T>(rows: Seq<T>, key: spec_fn(T) -> i64, next: i64) -> bool {
    &&& 1 <= next
    &&& forall|i: int| 0 <= i < rows.len() ==> 1 <= #[trigger] key(rows[i]) < next
    &&& forall|i: int, j: int|
        0 <= i < j < rows.len() ==> #[trigger] key(rows[i]) < #[trigger] key(rows[j])
}

/// An image has exactly one owner.
pub open spec fn one_owner(row: ImageRowView) -> bool {
    (row.product_type_id is Some) != (row.product_id is Some)
}

impl Tables {
    /// Tables without rows, whose first ids are 1.
    pub open spec fn empty() -> Tables {
        Tables {
            types: Seq::empty(),
            products: Seq::empty(),
            images: Seq::empty(),
            next_type_id: 1,
            next_product_id: 1,
            next_image_id: 1,
            clock: 0,
        }
    }

    /// What holds of the tables whatever statements have run.
    pub open spec fn wf(self) -> bool {
        &&& ascending(self.types, type_key(), self.next_type_id)
        &&& ascending(self.products, product_key(), self.next_product_id)
        &&& ascending(self.images, image_key(), self.next_image_id)
        &&& forall|i: int| 0 <= i < self.images.len() ==> one_owner(#[trigger] self.images[i])
    }
}

/// The row with this id under a new name; every other row as it is.
pub open spec fn renamed(id: i64, name: Seq<char>) -> spec_fn(TypeRowView) -> TypeRowView {
    |row: TypeRowView|
        if row.id == id {
            TypeRowView { id, name }
        } else {
            row
        }
}

/// The row with this id with new fields and its old creation time; every
/// other row as it is.
pub open spec fn with_fields(id: i64, fields: ProductFieldsView) -> spec_fn(
    ProductRowView,
) -> ProductRowView {
    |row: ProductRowView|
        if row.id == id {
            ProductRowView { id, fields, created_at: row.created_at }
        } else {
            row
        }
}

/// The path of an image.
pub open spec fn path_of() -> spec_fn(ImageRowView) -> Seq<char> {
    |row: ImageRowView| row.image_path
}

/// An image as a listing reads it: its path and the id of its owner of
/// one kind.
pub open spec fn owned_path(of_types: bool) -> spec_fn(ImageRowView) -> OwnedPathView {
    |row: ImageRowView|
        OwnedPathView {
            owner_id: match owner_column(row, of_types) {
                Some(id) => id,
                None => 0,
            },
            image_path: row.image_path,
        }
}

/// The name of the type that a product names, where it names one that exists.
pub open spec fn name_of_type(types: Seq<TypeRowView>, type_id: Option<i64>) -> Option<Seq<char>> {
    match type_id {
        Some(id) => match first_type(types, TypePick::WithId(id)) {
            Some(row) => Some(row.name),
            None => None,
        },
        None => None,
    }
}

/// A product with the name of its type.
pub open spec fn joined(types: Seq<TypeRowView>) -> spec_fn(ProductRowView) -> ListedProductView {
    |row: ProductRowView|
        ListedProductView {
            row,
            products_type_name: name_of_type(types, row.fields.products_type_id),
        }
}

/// The image row of a path and its owner: the column of the other kind
/// of owner stays empty.
pub open spec fn image_of(id: i64, image_path: Seq<char>, owner: Owner) -> ImageRowView {
    match owner {
        Owner::Type(owner_id) => ImageRowView {
            id,
            image_path,
            product_type_id: Some(owner_id),
            product_id: None,
        },
        Owner::Product(owner_id) => ImageRowView {
            id,
            image_path,
            product_type_id: None,
            product_id: Some(owner_id),
        },
    }
}

/// The answer to a write.
pub open spec fn written(last_insert_rowid: i64, rows_affected: int) -> ReplyView {
    ReplyView::Written { last_insert_rowid, rows_affected: rows_affected as u64 }
}

/// The tables after a statement, and the answer to it. An insert fails, and
/// changes nothing, where the table has no id left to give. A search term
/// finds the names that hold it, character for character. The images read
/// for a list of owners come by ascending image id, which gives each owner
/// its images in the order in which the statement's own `ORDER BY` gives
/// them.
pub open spec fn apply(t: Tables, s: StatementView) -> (Tables, ReplyView) {
    match s {
        StatementView::InsertType { name } => if t.next_type_id == i64::MAX {
            (t, ReplyView::Failed)
        } else {
            (
                Tables {
                    types: t.types.push(TypeRowView { id: t.next_type_id, name }),
                    next_type_id: (t.next_type_id + 1) as i64,
                    ..t
                },
                written(t.next_type_id, 1),
            )
        },
        StatementView::RenameType { id, name } => (
            Tables { types: t.types.map_values(renamed(id, name)), ..t },
            written(0, t.types.filter(types_where(TypePick::WithId(id), true)).len() as int),
        ),
        StatementView::DeleteType { id } => {
            let kept = t.types.filter(types_where(TypePick::WithId(id), false));
            (Tables { types: kept, ..t }, written(0, t.types.len() - kept.len()))
        },
        StatementView::FindTypeByName { name } => (
            t,
            ReplyView::TypeId(
                match first_type(t.types, TypePick::Named(name)) {
                    Some(row) => Some(row.id),
                    None => None,
                },
            ),
        ),
        StatementView::InsertProduct { product } => if t.next_product_id == i64::MAX {
            (t, ReplyView::Failed)
        } else {
            (
                Tables {
                    products: t.products.push(
                        ProductRowView {
                            id: t.next_product_id,
                            fields: product,
                            created_at: t.clock,
                        },
                    ),
                    next_product_id: (t.next_product_id + 1) as i64,
                    ..t
                },
                written(t.next_product_id, 1),
            )
        },
        StatementView::UpdateProduct { id, product } => (
            Tables { products: t.products.map_values(with_fields(id, product)), ..t },
            written(
                0,
                t.products.filter(products_where(ProductPick::WithId(id), true)).len() as int,
            ),
        ),
        StatementView::DeleteProduct { id } => {
            let kept = t.products.filter(products_where(ProductPick::WithId(id), false));
            (Tables { products: kept, ..t }, written(0, t.products.len() - kept.len()))
        },
        StatementView::DeleteProductsOfType { type_id } => {
            let kept = t.products.filter(products_where(ProductPick::OfType(type_id), false));
            (Tables { products: kept, ..t }, written(0, t.products.len() - kept.len()))
        },
        StatementView::InsertImage { image_path, owner } => if t.next_image_id == i64::MAX {
            (t, ReplyView::Failed)
        } else {
            (
                Tables {
                    images: t.images.push(image_of(t.next_image_id, image_path, owner)),
                    next_image_id: (t.next_image_id + 1) as i64,
                    ..t
                },
                written(t.next_image_id, 1),
            )
        },
        StatementView::DeleteImages { owner } => {
            let kept = t.images.filter(images_where(ImagePick::OwnedBy(owner), t.products, false));
            (Tables { images: kept, ..t }, written(0, t.images.len() - kept.len()))
        },
        StatementView::DeleteImagesOfProductsOfType { type_id } => {
            let kept = t.images.filter(
                images_where(ImagePick::OfProductsOfType(type_id), t.products, false),
            );
            (Tables { images: kept, ..t }, written(0, t.images.len() - kept.len()))
        },
        StatementView::ImagePaths { owner } => (
            t,
            ReplyView::Paths(
                t.images.filter(
                    images_where(ImagePick::OwnedBy(owner), t.products, true),
                ).map_values(path_of()),
            ),
        ),
        StatementView::CountTypes { search } => (
            t,
            ReplyView::Count(
                t.types.filter(types_where(TypePick::NameContains(search), true)).len() as i64,
            ),
        ),
        StatementView::PageOfTypes { search, limit, offset } => (
            t,
            ReplyView::Types(
                window(
                    t.types.filter(types_where(TypePick::NameContains(search), true)),
                    offset,
                    limit,
                ),
            ),
        ),
        StatementView::ImagesOfTypes { ids, .. } => (
            t,
            ReplyView::Images(
                t.images.filter(
                    images_where(ImagePick::OwnerAmong { of_types: true, ids }, t.products, true),
                ).map_values(owned_path(true)),
            ),
        ),
        StatementView::CountProducts { search, filter } => (
            t,
            ReplyView::Count(
                t.products.filter(
                    products_where(ProductPick::Listed { search, filter }, true),
                ).len() as i64,
            ),
        ),
        StatementView::PageOfProducts { search, filter, limit, offset } => (
            t,
            ReplyView::Products(
                window(
                    t.products.filter(products_where(ProductPick::Listed { search, filter }, true)),
                    offset,
                    limit,
                ).map_values(joined(t.types)),
            ),
        ),
        StatementView::ImagesOfProducts { ids, .. } => (
            t,
            ReplyView::Images(
                t.images.filter(
                    images_where(ImagePick::OwnerAmong { of_types: false, ids }, t.products, true),
                ).map_values(owned_path(false)),
            ),
        ),
    }
}

/// Rows picked out of an ascending table are ascending.
pub proof fn filter_keeps_ascending<T>(
    rows: Seq<T>,
    key: spec_fn(T) -> i64,
    next: i64,
    keep: spec_fn(T) -> bool,
)
    requires
        ascending(rows, key, next),
    ensures
        ascending(rows.filter(keep), key, next),
        forall|i: int|
            0 <= i < rows.filter(keep).len() ==> rows.contains(#[trigger] rows.filter(keep)[i]),
    decreases rows.len(),
{
    reveal(Seq::filter);
    if rows.len() > 0 {
        let front = rows.drop_last();
        assert(ascending(front, key, next)) by {
            assert forall|i: int| 0 <= i < front.len() implies 1 <= #[trigger] key(front[i])
                < next by {
                assert(front[i] == rows[i]);
            }
            assert forall|i: int, j: int| 0 <= i < j < front.len() implies #[trigger] key(
                front[i],
            ) < #[trigger] key(front[j]) by {
                assert(front[i] == rows[i]);
                assert(front[j] == rows[j]);
            }
        }
        filter_keeps_ascending(front, key, next, keep);
        let kept = front.filter(keep);
        let all = rows.filter(keep);
        assert forall|i: int| 0 <= i < kept.len() implies rows.contains(#[trigger] kept[i])
            && key(kept[i]) < key(rows.last()) by {
            assert(front.contains(kept[i]));
            let j = choose|j: int| 0 <= j < front.len() && front[j] == kept[i];
            assert(rows[j] == kept[i]);
            assert(key(rows[j]) < key(rows[rows.len() - 1]));
        }
        assert forall|i: int| 0 <= i < all.len() implies rows.contains(#[trigger] all[i]) by {
            if i < kept.len() {
                assert(all[i] == kept[i]);
            } else {
                assert(all[i] == rows[rows.len() - 1]);
            }
        }
        assert forall|i: int| 0 <= i < all.len() implies 1 <= #[trigger] key(all[i]) < next by {
            if i < kept.len() {
                assert(all[i] == kept[i]);
            } else {
                assert(all[i] == rows[rows.len() - 1]);
            }
        }
        assert forall|i: int, j: int| 0 <= i < j < all.len() implies #[trigger] key(all[i])
            < #[trigger] key(all[j]) by {
            assert(all[i] == kept[i]);
            if j < kept.len() {
                assert(all[j] == kept[j]);
            } else {
                assert(all[j] == rows.last());
            }
        }
    }
}

/// A row with the next id keeps a table ascending.
pub proof fn push_keeps_ascending<T>(rows: Seq<T>, key: spec_fn(T) -> i64, next: i64, row: T)
    requires
        ascending(rows, key, next),
        key(row) == next,
        next < i64::MAX,
    ensures
        ascending(rows.push(row), key, (next + 1) as i64),
{
    let all = rows.push(row);
    assert forall|i: int| 0 <= i < all.len() implies 1 <= #[trigger] key(all[i]) < next + 1 by {
        if i < rows.len() {
            assert(all[i] == rows[i]);
        }
    }
    assert forall|i: int, j: int| 0 <= i < j < all.len() implies #[trigger] key(all[i])
        < #[trigger] key(all[j]) by {
        assert(all[i] == rows[i]);
        if j < rows.len() {
            assert(all[j] == rows[j]);
        }
    }
}

/// A change that leaves every key as it was keeps a table ascending.
pub proof fn map_keeps_ascending<T>(
    rows: Seq<T>,
    key: spec_fn(T) -> i64,
    next: i64,
    change: spec_fn(T) -> T,
)
    requires
        ascending(rows, key, next),
        forall|row: T| key(#[trigger] change(row)) == key(row),
    ensures
        ascending(rows.map_values(change), key, next),
{
    let all = rows.map_values(change);
    assert forall|i: int| 0 <= i < all.len() implies 1 <= #[trigger] key(all[i]) < next by {
        assert(all[i] == change(rows[i]));
        assert(1 <= key(rows[i]) < next);
    }
    assert forall|i: int, j: int| 0 <= i < j < all.len() implies #[trigger] key(all[i])
        < #[trigger] key(all[j]) by {
        assert(all[i] == change(rows[i]));
        assert(all[j] == change(rows[j]));
        assert(key(rows[i]) < key(rows[j]));
    }
}

/// Every statement leaves well-formed tables well-formed.
pub proof fn apply_keeps_wf(t: Tables, s: StatementView)
    requires
        t.wf(),
    ensures
        apply(t, s).0.wf(),
{
    let after = apply(t, s).0;
    match s {
        StatementView::InsertType { name } => {
            if t.next_type_id < i64::MAX {
                push_keeps_ascending(
                    t.types,
                    type_key(),
                    t.next_type_id,
                    TypeRowView { id: t.next_type_id, name },
                );
            }
        },
        StatementView::RenameType { id, name } => {
            map_keeps_ascending(t.types, type_key(), t.next_type_id, renamed(id, name));
        },
        StatementView::DeleteType { id } => {
            filter_keeps_ascending(
                t.types,
                type_key(),
                t.next_type_id,
                types_where(TypePick::WithId(id), false),
            );
        },
        StatementView::InsertProduct { product } => {
            if t.next_product_id < i64::MAX {
                push_keeps_ascending(
                    t.products,
                    product_key(),
                    t.next_product_id,
                    ProductRowView { id: t.next_product_id, fields: product, created_at: t.clock },
                );
            }
        },
        StatementView::UpdateProduct { id, product } => {
            map_keeps_ascending(
                t.products,
                product_key(),
                t.next_product_id,
                with_fields(id, product),
            );
        },
        StatementView::DeleteProduct { id } => {
            filter_keeps_ascending(
                t.products,
                product_key(),
                t.next_product_id,
                products_where(ProductPick::WithId(id), false),
            );
        },
        StatementView::DeleteProductsOfType { type_id } => {
            filter_keeps_ascending(
                t.products,
                product_key(),
                t.next_product_id,
                products_where(ProductPick::OfType(type_id), false),
            );
        },
        StatementView::InsertImage { image_path, owner } => {
            if t.next_image_id < i64::MAX {
                let row = image_of(t.next_image_id, image_path, owner);
                push_keeps_ascending(t.images, image_key(), t.next_image_id, row);
                assert forall|i: int| 0 <= i < after.images.len() implies one_owner(
                    #[trigger] after.images[i],
                ) by {
                    if i < t.images.len() {
                        assert(after.images[i] == t.images[i]);
                    }
                }
            }
        },
        StatementView::DeleteImages { owner } => {
            let keep = images_where(ImagePick::OwnedBy(owner), t.products, false);
            filter_keeps_ascending(t.images, image_key(), t.next_image_id, keep);
            kept_images_have_one_owner(t, keep);
        },
        StatementView::DeleteImagesOfProductsOfType { type_id } => {
            let keep = images_where(ImagePick::OfProductsOfType(type_id), t.products, false);
            filter_keeps_ascending(t.images, image_key(), t.next_image_id, keep);
            kept_images_have_one_owner(t, keep);
        },
        _ => {},
    }
}

proof fn kept_images_have_one_owner(t: Tables, keep: spec_fn(ImageRowView) -> bool)
    requires
        t.wf(),
    ensures
        forall|i: int|
            0 <= i < t.images.filter(keep).len() ==> one_owner(#[trigger] t.images.filter(keep)[i]),
{
    filter_keeps_ascending(t.images, image_key(), t.next_image_id, keep);
    let kept = t.images.filter(keep);
    assert forall|i: int| 0 <= i < kept.len() implies one_owner(#[trigger] kept[i]) by {
        assert(t.images.contains(kept[i]));
        let j = choose|j: int| 0 <= j < t.images.len() && t.images[j] == kept[i];
        assert(one_owner(t.images[j]));
    }
}

/// An ascending table has fewer rows than the next id.
pub proof fn ascending_is_short<T>(rows: Seq<T>, key: spec_fn(T) -> i64, next: i64)
    requires
        ascending(rows, key, next),
    ensures
        rows.len() < next,
        forall|i: int| 0 <= i < rows.len() ==> i < #[trigger] key(rows[i]),
    decreases rows.len(),
{
    if rows.len() > 0 {
        let front = rows.drop_last();
        assert forall|i: int| 0 <= i < front.len() implies 1 <= #[trigger] key(front[i])
            < next by {
            assert(front[i] == rows[i]);
        }
        assert forall|i: int, j: int| 0 <= i < j < front.len() implies #[trigger] key(front[i])
            < #[trigger] key(front[j]) by {
            assert(front[i] == rows[i]);
            assert(front[j] == rows[j]);
        }
        ascending_is_short(front, key, next);
        let n = rows.len() - 1;
        assert forall|i: int| 0 <= i < rows.len() implies i < #[trigger] key(rows[i]) by {
            if i < n {
                assert(front[i] == rows[i]);
            } else if n > 0 {
                assert(front[n - 1] == rows[n - 1]);
                assert(key(rows[n - 1]) < key(rows[n]));
            } else {
                assert(1 <= key(rows[0]));
            }
        }
        assert(n < key(rows[n]));
    }
}

} // verus!

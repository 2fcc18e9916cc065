//! What each write does to the tables, stated at once, and the proof that a
//! write run step by step does exactly that.

use crate::rows::{
    first_type, images_where, products_where, types_where, ImagePick, ProductPick, ProductRowView,
    TypePick, TypeRowView,
};
use crate::response::{endpoint_of, response_of, HandledView};
use crate::runner::{perform, run_from, run_of, Disk};
use crate::sql::{Owner, StatementView};
use crate::store::CatalogView;
use crate::tables::{
    apply, ascending_is_short, image_of, path_of, product_key, renamed, type_key, with_fields,
    Tables,
};
use crate::transaction::{
    add_image, begin, fields_of, name_to_resolve, owner_of, paths_of, persist, rejection,
    saves_files, transition, tree_of, ActionView, CommandView, EventView, Failure, Outcome,
    ProductDraftView, Progress, Rejection, Stage,
};
use vstd::prelude::*;

verus! {

/// The tables with one more image for each path, all of one owner, with the
/// next ids in order.
pub open spec fn images_added(t: Tables, paths: Seq<Seq<char>>, owner: Owner) -> Tables {
    Tables {
        images: t.images + Seq::new(
            paths.len(),
            |k: int| image_of((t.next_image_id + k) as i64, paths[k], owner),
        ),
        next_image_id: (t.next_image_id + paths.len()) as i64,
        ..t
    }
}

/// Whether the image table has ids left for `n` more rows.
pub open spec fn has_room(t: Tables, n: nat) -> bool {
    t.next_image_id + n <= i64::MAX
}

/// The tables without the images of an owner.
pub open spec fn images_cleared(t: Tables, owner: Owner) -> Tables {
    Tables { images: t.images.filter(images_where(ImagePick::OwnedBy(owner), t.products, false)), ..t }
}

/// A row written, then its images: all of it, or nothing where the images
/// find no room.
pub open spec fn with_new_images(
    before: Tables,
    written: Tables,
    paths: Seq<Seq<char>>,
    owner: Owner,
) -> (Tables, Outcome) {
    if has_room(written, paths.len()) {
        (images_added(written, paths, owner), Outcome::Done)
    } else {
        (before, Outcome::Failed(Failure::AddImage))
    }
}

/// A new product type with its images. The request is turned down without a
/// name or without an image.
pub open spec fn created_type(t: Tables, name: Seq<char>, paths: Seq<Seq<char>>) -> (
    Tables,
    Outcome,
) {
    if name.len() == 0 {
        (t, Outcome::Rejected(Rejection::MissingTypeName))
    } else if paths.len() == 0 {
        (t, Outcome::Rejected(Rejection::NoImages))
    } else if t.next_type_id == i64::MAX {
        (t, Outcome::Failed(Failure::WriteRow))
    } else {
        with_new_images(
            t,
            Tables {
                types: t.types.push(TypeRowView { id: t.next_type_id, name }),
                next_type_id: (t.next_type_id + 1) as i64,
                ..t
            },
            paths,
            Owner::Type(t.next_type_id),
        )
    }
}

/// A product type renamed and its images replaced by those at `paths`.
/// Where no type has the id, nothing changes and the write still succeeds.
pub open spec fn updated_type(t: Tables, id: i64, name: Seq<char>, paths: Seq<Seq<char>>) -> (
    Tables,
    Outcome,
) {
    if t.types.filter(types_where(TypePick::WithId(id), true)).len() == 0 {
        (t, Outcome::Done)
    } else {
        with_new_images(
            t,
            images_cleared(
                Tables { types: t.types.map_values(renamed(id, name)), ..t },
                Owner::Type(id),
            ),
            paths,
            Owner::Type(id),
        )
    }
}

/// A product type deleted with its images, its products and their images.
pub open spec fn deleted_type(t: Tables, id: i64) -> (Tables, Outcome) {
    (
        Tables {
            types: t.types.filter(types_where(TypePick::WithId(id), false)),
            products: t.products.filter(products_where(ProductPick::OfType(id), false)),
            images: t.images.filter(
                images_where(ImagePick::OwnedBy(Owner::Type(id)), t.products, false),
            ).filter(images_where(ImagePick::OfProductsOfType(id), t.products, false)),
            ..t
        },
        Outcome::Done,
    )
}

/// The id of the type that a type name stands for: none where no type is
/// named, and no answer at all where the name is one that no product type
/// bears.
pub open spec fn resolved(t: Tables, name: Option<Seq<char>>) -> Option<Option<i64>> {
    match name {
        Some(name) => match first_type(t.types, TypePick::Named(name)) {
            Some(row) => Some(Some(row.id)),
            None => None,
        },
        None => Some(None),
    }
}

/// A new product with its images. A type name that no product type bears
/// has the request turned down.
pub open spec fn created_product(t: Tables, product: ProductDraftView, paths: Seq<Seq<char>>) -> (
    Tables,
    Outcome,
) {
    match resolved(t, product.products_type_name) {
        None => (t, Outcome::Rejected(Rejection::UnknownTypeName)),
        Some(type_id) => if t.next_product_id == i64::MAX {
            (t, Outcome::Failed(Failure::WriteRow))
        } else {
            with_new_images(
                t,
                Tables {
                    products: t.products.push(
                        ProductRowView {
                            id: t.next_product_id,
                            fields: fields_of(product, type_id),
                            created_at: t.clock,
                        },
                    ),
                    next_product_id: (t.next_product_id + 1) as i64,
                    ..t
                },
                paths,
                Owner::Product(t.next_product_id),
            )
        },
    }
}

/// A product's fields and images replaced. A type name that no product type
/// bears has the request turned down; where no product has the id, nothing
/// changes and the write still succeeds.
pub open spec fn updated_product(
    t: Tables,
    id: i64,
    product: ProductDraftView,
    paths: Seq<Seq<char>>,
) -> (Tables, Outcome) {
    match resolved(t, product.products_type_name) {
        None => (t, Outcome::Rejected(Rejection::UnknownTypeName)),
        Some(type_id) => if t.products.filter(products_where(ProductPick::WithId(id), true)).len()
            == 0 {
            (t, Outcome::Done)
        } else {
            with_new_images(
                t,
                images_cleared(
                    Tables {
                        products: t.products.map_values(with_fields(id, fields_of(product, type_id))),
                        ..t
                    },
                    Owner::Product(id),
                ),
                paths,
                Owner::Product(id),
            )
        },
    }
}

/// A product deleted with its images.
pub open spec fn deleted_product(t: Tables, id: i64) -> (Tables, Outcome) {
    (
        Tables {
            products: t.products.filter(products_where(ProductPick::WithId(id), false)),
            images: t.images.filter(
                images_where(ImagePick::OwnedBy(Owner::Product(id)), t.products, false),
            ),
            ..t
        },
        Outcome::Done,
    )
}

/// What a write does to the tables, and how it ends.
pub open spec fn effect_of(cmd: CommandView, t: Tables) -> (Tables, Outcome) {
    match cmd {
        CommandView::CreateType { name, .. } => created_type(t, name, paths_of(cmd)),
        CommandView::UpdateType { id, name, image_paths } => updated_type(
            t,
            id,
            name,
            image_paths,
        ),
        CommandView::DeleteType { id } => deleted_type(t, id),
        CommandView::CreateProduct { product, .. } => created_product(
            t,
            product,
            paths_of(cmd),
        ),
        CommandView::UpdateProduct { id, product, image_paths } => updated_product(
            t,
            id,
            product,
            image_paths,
        ),
        CommandView::DeleteProduct { id } => deleted_product(t, id),
    }
}

/// What a write does to a catalog. A request that is turned down, for
/// what it holds or for a type name that no product type bears, changes
/// nothing; nor does a write while a transaction is open, as no other can
/// begin.
pub open spec fn outcome_of(cmd: CommandView, c: CatalogView) -> (CatalogView, Outcome) {
    match rejection(cmd) {
        Some(r) => (c, Outcome::Rejected(r)),
        None => match resolved(c.live, name_to_resolve(cmd)) {
            None => (c, Outcome::Rejected(Rejection::UnknownTypeName)),
            Some(_) => if c.saved is Some {
                (c, Outcome::Failed(Failure::Begin))
            } else {
                (
                    CatalogView { live: effect_of(cmd, c.live).0, saved: None },
                    effect_of(cmd, c.live).1,
                )
            },
        },
    }
}

/// The image paths of an owner, in the order of their rows.
pub open spec fn paths_owned(t: Tables, owner: Owner) -> Seq<Seq<char>> {
    t.images.filter(images_where(ImagePick::OwnedBy(owner), t.products, true)).map_values(
        path_of(),
    )
}

/// The files that a write saves: the images of a new owner, once the
/// request is accepted and its type name resolved; none for any other write
/// and none for a request that is turned down.
pub open spec fn files_saved(cmd: CommandView, t: Tables) -> Seq<Seq<char>> {
    if saves_files(cmd) && rejection(cmd) is None && resolved(t, name_to_resolve(cmd)) is Some {
        paths_of(cmd)
    } else {
        Seq::empty()
    }
}

/// The directory that a delete removes: the one that lies above the first
/// image path of the owner, if it has an image and the path has such a
/// directory.
pub open spec fn trees_removed(cmd: CommandView, t: Tables) -> Seq<Seq<char>> {
    if cmd is DeleteType || cmd is DeleteProduct {
        match tree_of(cmd, paths_owned(t, owner_of(cmd, Progress::initial()))) {
            Some(dir) => seq![dir],
            None => Seq::empty(),
        }
    } else {
        Seq::empty()
    }
}

/// What a write asks of the disk. A delete removes its directory once its
/// transaction has begun, and before its rows go.
pub open spec fn disk_of(cmd: CommandView, c: CatalogView) -> Disk {
    Disk {
        saved: files_saved(cmd, c.live),
        removed: if c.saved is None {
            trees_removed(cmd, c.live)
        } else {
            Seq::empty()
        },
    }
}

/// The answer to a write and what the write asks of the disk.
pub open spec fn handled_of(cmd: CommandView, c: CatalogView) -> HandledView {
    HandledView {
        response: response_of(endpoint_of(cmd), outcome_of(cmd, c).1),
        saved: disk_of(cmd, c).saved,
        removed: disk_of(cmd, c).removed,
    }
}

/// A write on its way: where it stands, what it has just seen, the catalog
/// and the record of the disk.
struct Config {
    p: Progress,
    e: EventView,
    c: CatalogView,
    d: Disk,
}

spec fn next(cmd: CommandView, k: Config) -> Config {
    let step = transition(cmd, k.p, k.e);
    Config {
        p: step.0,
        e: perform(k.c, k.d, step.1).2,
        c: perform(k.c, k.d, step.1).0,
        d: perform(k.c, k.d, step.1).1,
    }
}

spec fn end_of(cmd: CommandView, k: Config) -> (CatalogView, Disk, Outcome) {
    run_from(cmd, k.p, k.e, k.c, k.d)
}

proof fn advance(cmd: CommandView, k: Config)
    ensures
        end_of(cmd, k) == match transition(cmd, k.p, k.e).1 {
            ActionView::Respond(outcome) => (k.c, k.d, outcome),
            _ => end_of(cmd, next(cmd, k)),
        },
{
}

/// A write whose transaction has just begun on the catalog `c`.
spec fn begun(k: Config, c: CatalogView) -> bool {
    &&& c.wf()
    &&& c.saved is None
    &&& k.p.stage == Stage::Beginning
    &&& k.e == EventView::Began(true)
    &&& k.c == (CatalogView { live: c.live, saved: Some(c.live) })
}

/// How a write ends whose transaction has just begun.
spec fn done(cmd: CommandView, k: Config, c: CatalogView) -> (CatalogView, Disk, Outcome) {
    (
        CatalogView { live: effect_of(cmd, c.live).0, saved: None },
        Disk { saved: k.d.saved, removed: k.d.removed + trees_removed(cmd, c.live) },
        effect_of(cmd, c.live).1,
    )
}

proof fn delete_product_runs(id: i64, k: Config, c: CatalogView)
    requires
        begun(k, c),
    ensures
        end_of(CommandView::DeleteProduct { id }, k) == done(
            CommandView::DeleteProduct { id },
            k,
            c,
        ),
{
    let cmd = CommandView::DeleteProduct { id };
    advance(cmd, k);
    let k2 = next(cmd, k);
    assert(k2.p.stage == Stage::ReadingPaths);
    advance(cmd, k2);
    let k3 = next(cmd, k2);
    if k3.p.stage == Stage::RemovingTree {
        advance(cmd, k3);
        let k4 = next(cmd, k3);
        assert(k4.p.stage == Stage::ClearingImages);
        clearing_product_runs(id, k4, c);
        assert(k4.d.removed =~= k.d.removed + trees_removed(cmd, c.live));
    } else {
        assert(k3.p.stage == Stage::ClearingImages);
        clearing_product_runs(id, k3, c);
        assert(k3.d.removed =~= k.d.removed + trees_removed(cmd, c.live));
    }
}

proof fn clearing_product_runs(id: i64, k: Config, c: CatalogView)
    requires
        c.wf(),
        c.saved is None,
        k.p.stage == Stage::ClearingImages,
        k.e == EventView::Answered(
            apply(c.live, StatementView::DeleteImages { owner: Owner::Product(id) }).1,
        ),
        k.c == (CatalogView {
            live: apply(c.live, StatementView::DeleteImages { owner: Owner::Product(id) }).0,
            saved: Some(c.live),
        }),
    ensures
        end_of(CommandView::DeleteProduct { id }, k) == (
            CatalogView { live: deleted_product(c.live, id).0, saved: None },
            k.d,
            Outcome::Done,
        ),
{
    let cmd = CommandView::DeleteProduct { id };
    advance(cmd, k);
    let k1 = next(cmd, k);
    assert(k1.p.stage == Stage::RemovingRow);
    advance(cmd, k1);
    let k2 = next(cmd, k1);
    assert(k2.p.stage == Stage::Committing);
    advance(cmd, k2);
    let k3 = next(cmd, k2);
    assert(k3.p.stage == Stage::Finished);
    advance(cmd, k3);
}

proof fn delete_type_runs(id: i64, k: Config, c: CatalogView)
    requires
        begun(k, c),
    ensures
        end_of(CommandView::DeleteType { id }, k) == done(CommandView::DeleteType { id }, k, c),
{
    let cmd = CommandView::DeleteType { id };
    advance(cmd, k);
    let k2 = next(cmd, k);
    assert(k2.p.stage == Stage::ReadingPaths);
    advance(cmd, k2);
    let k3 = next(cmd, k2);
    if k3.p.stage == Stage::RemovingTree {
        advance(cmd, k3);
        let k4 = next(cmd, k3);
        assert(k4.p.stage == Stage::ClearingImages);
        clearing_type_runs(id, k4, c);
        assert(k4.d.removed =~= k.d.removed + trees_removed(cmd, c.live));
    } else {
        assert(k3.p.stage == Stage::ClearingImages);
        clearing_type_runs(id, k3, c);
        assert(k3.d.removed =~= k.d.removed + trees_removed(cmd, c.live));
    }
}

proof fn clearing_type_runs(id: i64, k: Config, c: CatalogView)
    requires
        c.wf(),
        c.saved is None,
        k.p.stage == Stage::ClearingImages,
        k.e == EventView::Answered(
            apply(c.live, StatementView::DeleteImages { owner: Owner::Type(id) }).1,
        ),
        k.c == (CatalogView {
            live: apply(c.live, StatementView::DeleteImages { owner: Owner::Type(id) }).0,
            saved: Some(c.live),
        }),
    ensures
        end_of(CommandView::DeleteType { id }, k) == (
            CatalogView { live: deleted_type(c.live, id).0, saved: None },
            k.d,
            Outcome::Done,
        ),
{
    let cmd = CommandView::DeleteType { id };
    advance(cmd, k);
    let k1 = next(cmd, k);
    assert(k1.p.stage == Stage::ClearingProductImages);
    advance(cmd, k1);
    let k2 = next(cmd, k1);
    assert(k2.p.stage == Stage::ClearingProducts);
    advance(cmd, k2);
    let k3 = next(cmd, k2);
    assert(k3.p.stage == Stage::RemovingRow);
    advance(cmd, k3);
    let k4 = next(cmd, k3);
    assert(k4.p.stage == Stage::Committing);
    advance(cmd, k4);
    let k5 = next(cmd, k4);
    assert(k5.p.stage == Stage::Finished);
    advance(cmd, k5);
}

/// How a write ends once only its images are left to insert.
spec fn images_end(c: CatalogView, rest: Seq<Seq<char>>, owner: Owner) -> (CatalogView, Outcome) {
    if has_room(c.live, rest.len()) {
        (CatalogView { live: images_added(c.live, rest, owner), saved: None }, Outcome::Done)
    } else {
        (
            CatalogView {
                live: match c.saved {
                    Some(saved) => saved,
                    None => c.live,
                },
                saved: None,
            },
            Outcome::Failed(Failure::AddImage),
        )
    }
}

proof fn images_run(cmd: CommandView, k: Config, p: Progress, i: int)
    requires
        transition(cmd, k.p, k.e) == add_image(cmd, p, i),
        0 <= i <= paths_of(cmd).len() <= usize::MAX,
        k.c.saved is Some,
    ensures
        end_of(cmd, k) == (
            images_end(k.c, paths_of(cmd).skip(i), owner_of(cmd, p)).0,
            k.d,
            images_end(k.c, paths_of(cmd).skip(i), owner_of(cmd, p)).1,
        ),
    decreases paths_of(cmd).len() - i,
{
    let paths = paths_of(cmd);
    let owner = owner_of(cmd, p);
    let rest = paths.skip(i);
    advance(cmd, k);
    let k1 = next(cmd, k);
    if i == paths.len() {
        assert(k1.p.stage == Stage::Committing);
        advance(cmd, k1);
        assert(images_added(k.c.live, rest, owner).images =~= k.c.live.images);
    } else {
        assert(k1.p.stage == Stage::AddingImages);
        assert(k1.p.next_image == i);
        if k.c.live.next_image_id == i64::MAX {
            assert(k1.c == k.c);
            advance(cmd, k1);
            let k2 = next(cmd, k1);
            assert(k2.p.stage == Stage::RollingBack);
            advance(cmd, k2);
        } else {
            assert(transition(cmd, k1.p, k1.e) == add_image(cmd, k1.p, i + 1));
            images_run(cmd, k1, k1.p, i + 1);
            let later = paths.skip(i + 1);
            assert(owner_of(cmd, k1.p) == owner);
            assert(has_room(k1.c.live, later.len()) == has_room(k.c.live, rest.len()));
            if has_room(k.c.live, rest.len()) {
                let a = images_added(k1.c.live, later, owner);
                let b = images_added(k.c.live, rest, owner);
                assert(a.images =~= b.images) by {
                    assert(a.images.len() == b.images.len());
                    assert forall|j: int| 0 <= j < a.images.len() implies a.images[j]
                        == b.images[j] by {
                        let base = k.c.live.images.len();
                        if j > base {
                            assert(later[j - base - 1] == rest[j - base]);
                        } else if j == base {
                            assert(rest[0] == paths[i]);
                        }
                    }
                }
                assert(a == b);
            }
        }
    }
}

proof fn create_type_runs(cmd: CommandView, k: Config, c: CatalogView)
    requires
        begun(k, c),
        cmd is CreateType,
        rejection(cmd) is None,
        paths_of(cmd).len() <= usize::MAX,
    ensures
        end_of(cmd, k) == done(cmd, k, c),
{
    let paths = paths_of(cmd);
    assert(k.d.removed + trees_removed(cmd, c.live) =~= k.d.removed);
    assert(paths.len() > 0);
    advance(cmd, k);
    let k2 = next(cmd, k);
    assert(k2.p.stage == Stage::WritingRow);
    if c.live.next_type_id == i64::MAX {
        advance(cmd, k2);
        let k3 = next(cmd, k2);
        assert(k3.p.stage == Stage::RollingBack);
        advance(cmd, k3);
    } else {
        let p = Progress { inserted_id: c.live.next_type_id, ..k2.p };
        images_run(cmd, k2, p, 0);
        assert(paths.skip(0) =~= paths);
    }
}

proof fn no_hit_means_no_row<T>(rows: Seq<T>, hit: spec_fn(T) -> bool)
    requires
        rows.filter(hit).len() == 0,
    ensures
        forall|i: int| 0 <= i < rows.len() ==> !hit(#[trigger] rows[i]),
{
    assert forall|i: int| 0 <= i < rows.len() implies !hit(#[trigger] rows[i]) by {
        if hit(rows[i]) {
            rows.lemma_filter_contains(hit, i);
        }
    }
}

proof fn update_type_runs(cmd: CommandView, k: Config, c: CatalogView)
    requires
        begun(k, c),
        cmd is UpdateType,
        paths_of(cmd).len() <= usize::MAX,
    ensures
        end_of(cmd, k) == done(cmd, k, c),
{
    let id = cmd->UpdateType_id;
    let name = cmd->UpdateType_name;
    let paths = paths_of(cmd);
    let hit = types_where(TypePick::WithId(id), true);
    assert(k.d.removed + trees_removed(cmd, c.live) =~= k.d.removed);
    advance(cmd, k);
    let k2 = next(cmd, k);
    assert(k2.p.stage == Stage::WritingRow);
    advance(cmd, k2);
    let k3 = next(cmd, k2);
    c.live.types.lemma_filter_len(hit);
    ascending_is_short(c.live.types, type_key(), c.live.next_type_id);
    if c.live.types.filter(hit).len() == 0 {
        assert(k3.p.stage == Stage::Committing);
        advance(cmd, k3);
        let k4 = next(cmd, k3);
        advance(cmd, k4);
        no_hit_means_no_row(c.live.types, hit);
        assert(c.live.types.map_values(renamed(id, name)) =~= c.live.types);
        assert(k4.c.live == c.live);
    } else {
        assert(k3.p.stage == Stage::ClearingImages);
        images_run(cmd, k3, k3.p, 0);
        assert(paths.skip(0) =~= paths);
    }
}

proof fn product_runs(cmd: CommandView, k: Config, c: CatalogView, type_id: Option<i64>)
    requires
        begun(k, c),
        cmd is CreateProduct || cmd is UpdateProduct,
        paths_of(cmd).len() <= usize::MAX,
        resolved(c.live, name_to_resolve(cmd)) == Some(type_id),
        k.p.type_id == type_id,
    ensures
        end_of(cmd, k) == done(cmd, k, c),
{
    let paths = paths_of(cmd);
    assert(k.d.removed + trees_removed(cmd, c.live) =~= k.d.removed);
    advance(cmd, k);
    let k1 = next(cmd, k);
    assert(k1.p.stage == Stage::WritingRow);
    match cmd {
        CommandView::CreateProduct { product, .. } => {
            if c.live.next_product_id == i64::MAX {
                advance(cmd, k1);
                let k2 = next(cmd, k1);
                assert(k2.p.stage == Stage::RollingBack);
                advance(cmd, k2);
            } else {
                let p = Progress { inserted_id: c.live.next_product_id, ..k1.p };
                images_run(cmd, k1, p, 0);
                assert(paths.skip(0) =~= paths);
            }
        },
        CommandView::UpdateProduct { id, product, .. } => {
            let hit = products_where(ProductPick::WithId(id), true);
            advance(cmd, k1);
            let k2 = next(cmd, k1);
            c.live.products.lemma_filter_len(hit);
            ascending_is_short(c.live.products, product_key(), c.live.next_product_id);
            if c.live.products.filter(hit).len() == 0 {
                assert(k2.p.stage == Stage::Committing);
                advance(cmd, k2);
                let k3 = next(cmd, k2);
                advance(cmd, k3);
                no_hit_means_no_row(c.live.products, hit);
                assert(c.live.products.map_values(with_fields(id, fields_of(product, type_id)))
                    =~= c.live.products);
                assert(k3.c.live == c.live);
            } else {
                assert(k2.p.stage == Stage::ClearingImages);
                images_run(cmd, k2, k2.p, 0);
                assert(paths.skip(0) =~= paths);
            }
        },
        _ => {},
    }
}

/// How a write ends that is about to begin its transaction on `c`.
spec fn begun_end(cmd: CommandView, c: CatalogView, d: Disk) -> (CatalogView, Disk, Outcome) {
    if c.saved is Some {
        (c, d, Outcome::Failed(Failure::Begin))
    } else {
        (
            CatalogView { live: effect_of(cmd, c.live).0, saved: None },
            Disk { saved: d.saved, removed: d.removed + trees_removed(cmd, c.live) },
            effect_of(cmd, c.live).1,
        )
    }
}

proof fn begin_runs(cmd: CommandView, k: Config, p: Progress)
    requires
        transition(cmd, k.p, k.e) == begin(p),
        k.c.wf(),
        rejection(cmd) is None,
        paths_of(cmd).len() <= usize::MAX,
        resolved(k.c.live, name_to_resolve(cmd)) == Some(p.type_id),
    ensures
        end_of(cmd, k) == begun_end(cmd, k.c, k.d),
{
    advance(cmd, k);
    let k1 = next(cmd, k);
    assert(k1.p.stage == Stage::Beginning);
    assert(k1.d == k.d);
    if k.c.saved is Some {
        advance(cmd, k1);
    } else {
        match cmd {
            CommandView::CreateType { .. } => create_type_runs(cmd, k1, k.c),
            CommandView::UpdateType { .. } => update_type_runs(cmd, k1, k.c),
            CommandView::DeleteType { id } => delete_type_runs(id, k1, k.c),
            CommandView::CreateProduct { .. } => product_runs(cmd, k1, k.c, p.type_id),
            CommandView::UpdateProduct { .. } => product_runs(cmd, k1, k.c, p.type_id),
            CommandView::DeleteProduct { id } => delete_product_runs(id, k1, k.c),
        }
    }
}

/// The files still to save before the transaction begins.
spec fn to_save(cmd: CommandView, i: int) -> Seq<Seq<char>> {
    if saves_files(cmd) {
        paths_of(cmd).skip(i)
    } else {
        Seq::empty()
    }
}

proof fn persist_runs(cmd: CommandView, k: Config, p: Progress, i: int)
    requires
        transition(cmd, k.p, k.e) == persist(cmd, p, i),
        0 <= i <= paths_of(cmd).len() <= usize::MAX,
        k.c.wf(),
        rejection(cmd) is None,
        resolved(k.c.live, name_to_resolve(cmd)) == Some(p.type_id),
    ensures
        end_of(cmd, k) == begun_end(
            cmd,
            k.c,
            Disk { saved: k.d.saved + to_save(cmd, i), removed: k.d.removed },
        ),
    decreases paths_of(cmd).len() - i,
{
    let paths = paths_of(cmd);
    if saves_files(cmd) && i < paths.len() {
        advance(cmd, k);
        let k1 = next(cmd, k);
        assert(k1.p.stage == Stage::Persisting);
        assert(k1.p.next_image == i);
        assert(k1.c == k.c);
        assert(transition(cmd, k1.p, k1.e) == persist(cmd, k1.p, i + 1));
        persist_runs(cmd, k1, k1.p, i + 1);
        assert(k1.d.saved + to_save(cmd, i + 1) =~= k.d.saved + to_save(cmd, i)) by {
            assert(k1.d.saved == k.d.saved.push(paths[i]));
            assert(paths.skip(i + 1) =~= paths.skip(i).skip(1));
            assert(paths.skip(i)[0] == paths[i]);
        }
    } else {
        begin_runs(cmd, k, p);
        assert(k.d.saved + to_save(cmd, i) =~= k.d.saved);
        assert(k.d == (Disk { saved: k.d.saved + to_save(cmd, i), removed: k.d.removed }));
    }
}

/// A write run step by step against the tables does what `outcome_of` says,
/// and asks of the disk what `disk_of` says.
pub proof fn run_is_effect(cmd: CommandView, c: CatalogView)
    requires
        c.wf(),
        paths_of(cmd).len() <= usize::MAX,
    ensures
        run_of(cmd, c) == (outcome_of(cmd, c).0, disk_of(cmd, c), outcome_of(cmd, c).1),
{
    let none = Disk::untouched();
    let k0 = Config { p: Progress::initial(), e: EventView::Start, c, d: none };
    advance(cmd, k0);
    if rejection(cmd) is None {
        match name_to_resolve(cmd) {
            Some(name) => {
                let k1 = next(cmd, k0);
                assert(k1.p.stage == Stage::Resolving);
                assert(k1.c == c);
                advance(cmd, k1);
                match first_type(c.live.types, TypePick::Named(name)) {
                    Some(row) => {
                        let p = Progress { type_id: Some(row.id), ..k1.p };
                        persist_runs(cmd, k1, p, 0);
                    },
                    None => {},
                }
            },
            None => {
                persist_runs(cmd, k0, k0.p, 0);
            },
        }
        assert(paths_of(cmd).skip(0) =~= paths_of(cmd));
        assert(none.saved + to_save(cmd, 0) =~= to_save(cmd, 0));
        assert(none.removed + trees_removed(cmd, c.live) =~= trees_removed(cmd, c.live));
        if !(cmd is DeleteType || cmd is DeleteProduct) {
            assert(trees_removed(cmd, c.live) =~= Seq::empty());
        }
    }
}

} // verus!

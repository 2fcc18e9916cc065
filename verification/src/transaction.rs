//! One write to the catalog as a sequence of steps: what to ask of the store
//! or of the disk next, given what came back from the step before.
//!
//! The caller performs each action and hands back the event that tells how
//! it went, until the action is a response. A request is looked at first,
//! and a type name resolved; only then are the images of a new owner saved,
//! and only after that does the transaction begin.

use crate::image_store::{
    file_path, owner_tree, product_folder, store_product_image, store_type_image, tree_above,
    type_folder, StoredImage,
};
use crate::rows::{Reply, ReplyView};
use crate::sql::{Owner, ProductFields, ProductFieldsView, Statement, StatementView};
use vstd::prelude::*;

verus! {

/// A product as a request describes it, with its type by name.
#[derive(Clone, Debug, PartialEq, Eq)]
pub struct ProductDraft {
    pub name: String,
    pub price_bits: u64,
    pub detail: String,
    pub stock: i64,
    pub products_type_name: Option<String>,
}

pub struct ProductDraftView {
    pub name: Seq<char>,
    pub price_bits: u64,
    pub detail: Seq<char>,
    pub stock: i64,
    pub products_type_name: Option<Seq<char>>,
}

impl View for ProductDraft {
    type V = ProductDraftView;

    open spec fn view(&self) -> ProductDraftView {
        ProductDraftView {
            name: self.name@,
            price_bits: self.price_bits,
            detail: self.detail@,
            stock: self.stock,
            products_type_name: self.products_type_name.deep_view(),
        }
    }
}

/// A write that a request asks for. A new owner comes with a number of
/// images, whose paths follow from its name; an update names the paths.
#[derive(Clone, Debug, PartialEq, Eq)]
pub enum Command {
    CreateType { name: String, images: usize },
    UpdateType { id: i64, name: String, image_paths: Vec<String> },
    DeleteType { id: i64 },
    CreateProduct { product: ProductDraft, images: usize },
    UpdateProduct { id: i64, product: ProductDraft, image_paths: Vec<String> },
    DeleteProduct { id: i64 },
}

pub enum CommandView {
    CreateType { name: Seq<char>, images: usize },
    UpdateType { id: i64, name: Seq<char>, image_paths: Seq<Seq<char>> },
    DeleteType { id: i64 },
    CreateProduct { product: ProductDraftView, images: usize },
    UpdateProduct { id: i64, product: ProductDraftView, image_paths: Seq<Seq<char>> },
    DeleteProduct { id: i64 },
}

impl View for Command {
    type V = CommandView;

    open spec fn view(&self) -> CommandView {
        match *self {
            Command::CreateType { name, images } => CommandView::CreateType {
                name: name@,
                images,
            },
            Command::UpdateType { id, name, image_paths } => CommandView::UpdateType {
                id,
                name: name@,
                image_paths: image_paths.deep_view(),
            },
            Command::DeleteType { id } => CommandView::DeleteType { id },
            Command::CreateProduct { product, images } => CommandView::CreateProduct {
                product: product@,
                images,
            },
            Command::UpdateProduct { id, product, image_paths } => CommandView::UpdateProduct {
                id,
                product: product@,
                image_paths: image_paths.deep_view(),
            },
            Command::DeleteProduct { id } => CommandView::DeleteProduct { id },
        }
    }
}

/// Why a request is turned down before anything is written.
#[derive(Clone, Copy, Debug, PartialEq, Eq, Structural)]
pub enum Rejection {
    MissingTypeName,
    NoImages,
    UnknownTypeName,
    /// The form itself could not be read.
    InvalidForm,
}

/// The step at which a write broke off.
#[derive(Clone, Copy, Debug, PartialEq, Eq, Structural)]
pub enum Failure {
    Begin,
    Resolve,
    ReadPaths,
    RemoveTree,
    WriteRow,
    ClearImages,
    ClearDependents,
    RemoveRow,
    AddImage,
    Commit,
    /// A listing could not read its count or its rows.
    Query,
    /// An image could not be saved.
    SaveFile,
}

/// How a write ended.
#[derive(Clone, Copy, Debug, PartialEq, Eq, Structural)]
pub enum Outcome {
    Done,
    Rejected(Rejection),
    Failed(Failure),
}

/// Where a write stands.
#[derive(Clone, Copy, Debug, PartialEq, Eq, Structural)]
pub enum Stage {
    Received,
    Resolving,
    Persisting,
    Beginning,
    ReadingPaths,
    RemovingTree,
    WritingRow,
    ClearingImages,
    ClearingProductImages,
    ClearingProducts,
    RemovingRow,
    AddingImages,
    Committing,
    RollingBack,
    Finished,
}

/// A stage with what the steps so far have learnt.
#[derive(Clone, Copy, Debug, PartialEq, Eq, Structural)]
pub struct Progress {
    pub stage: Stage,
    /// The id that the product's type name resolved to.
    pub type_id: Option<i64>,
    /// The id of the row that a create inserted.
    pub inserted_id: i64,
    /// The index of the image that is being saved or inserted.
    pub next_image: usize,
    /// The response that follows once the transaction is closed.
    pub pending: Outcome,
}

/// What the caller does next.
#[derive(Clone, Debug, PartialEq, Eq)]
pub enum Action {
    /// Create the folder, if it is not there, and write the bytes of the
    /// image part with this index to the path.
    SaveImage { index: usize, folder: String, path: String },
    Begin,
    Run(Statement),
    /// Delete this directory and all below it, if it exists.
    RemoveTree(String),
    Commit,
    Rollback,
    Respond(Outcome),
}

pub enum ActionView {
    SaveImage { index: usize, folder: Seq<char>, path: Seq<char> },
    Begin,
    Run(StatementView),
    RemoveTree(Seq<char>),
    Commit,
    Rollback,
    Respond(Outcome),
}

impl View for Action {
    type V = ActionView;

    open spec fn view(&self) -> ActionView {
        match *self {
            Action::SaveImage { index, folder, path } => ActionView::SaveImage {
                index,
                folder: folder@,
                path: path@,
            },
            Action::Begin => ActionView::Begin,
            Action::Run(s) => ActionView::Run(s@),
            Action::RemoveTree(dir) => ActionView::RemoveTree(dir@),
            Action::Commit => ActionView::Commit,
            Action::Rollback => ActionView::Rollback,
            Action::Respond(outcome) => ActionView::Respond(outcome),
        }
    }
}

/// How the last action went.
#[derive(Clone, Debug, PartialEq, Eq)]
pub enum Event {
    Start,
    ImageSaved(bool),
    Began(bool),
    Answered(Reply),
    TreeRemoved(bool),
    Committed(bool),
    RolledBack,
}

pub enum EventView {
    Start,
    ImageSaved(bool),
    Began(bool),
    Answered(ReplyView),
    TreeRemoved(bool),
    Committed(bool),
    RolledBack,
}

impl View for Event {
    type V = EventView;

    open spec fn view(&self) -> EventView {
        match *self {
            Event::Start => EventView::Start,
            Event::ImageSaved(ok) => EventView::ImageSaved(ok),
            Event::Began(ok) => EventView::Began(ok),
            Event::Answered(reply) => EventView::Answered(reply@),
            Event::TreeRemoved(ok) => EventView::TreeRemoved(ok),
            Event::Committed(ok) => EventView::Committed(ok),
            Event::RolledBack => EventView::RolledBack,
        }
    }
}

impl Progress {
    /// Where every write starts.
    pub open spec fn initial() -> Progress {
        Progress {
            stage: Stage::Received,
            type_id: None,
            inserted_id: 0,
            next_image: 0,
            pending: Outcome::Done,
        }
    }

    /// Where every write starts.
    pub fn start() -> (p: Progress)
        ensures
            p == Progress::initial(),
    {
        Progress {
            stage: Stage::Received,
            type_id: None,
            inserted_id: 0,
            next_image: 0,
            pending: Outcome::Done,
        }
    }
}

/// Why a command is turned down as it stands: a new product type needs a
/// name and at least one image.
pub open spec fn rejection(cmd: CommandView) -> Option<Rejection> {
    match cmd {
        CommandView::CreateType { name, images } => if name.len() == 0 {
            Some(Rejection::MissingTypeName)
        } else if images == 0 {
            Some(Rejection::NoImages)
        } else {
            None
        },
        _ => None,
    }
}

/// The type name that must resolve to an id before anything is written: a
/// product that names a type names one that exists.
pub open spec fn name_to_resolve(cmd: CommandView) -> Option<Seq<char>> {
    match cmd {
        CommandView::CreateProduct { product, .. } => product.products_type_name,
        CommandView::UpdateProduct { product, .. } => product.products_type_name,
        _ => None,
    }
}

/// Whether the write saves image files: a new owner's images are saved.
pub open spec fn saves_files(cmd: CommandView) -> bool {
    cmd is CreateType || cmd is CreateProduct
}

/// The name of the type below whose folder a new product's images go: the
/// empty name for a product without type.
pub open spec fn type_text(product: ProductDraftView) -> Seq<char> {
    match product.products_type_name {
        Some(name) => name,
        None => Seq::empty(),
    }
}

/// The folder of the images of a new owner.
pub open spec fn folder_of(cmd: CommandView) -> Seq<char> {
    match cmd {
        CommandView::CreateType { name, .. } => type_folder(name),
        CommandView::CreateProduct { product, .. } => product_folder(
            type_text(product),
            product.name,
        ),
        _ => Seq::empty(),
    }
}

/// The name that the image files of a new owner take.
pub open spec fn owner_name(cmd: CommandView) -> Seq<char> {
    match cmd {
        CommandView::CreateType { name, .. } => name,
        CommandView::CreateProduct { product, .. } => product.name,
        _ => Seq::empty(),
    }
}

/// The image paths that the command gives its owner: for a new owner one
/// path in its folder for each image, numbered from zero; for an update the
/// paths that it names.
pub open spec fn paths_of(cmd: CommandView) -> Seq<Seq<char>> {
    match cmd {
        CommandView::CreateType { images, .. } => Seq::new(
            images as nat,
            |k: int| file_path(folder_of(cmd), owner_name(cmd), k as nat),
        ),
        CommandView::CreateProduct { images, .. } => Seq::new(
            images as nat,
            |k: int| file_path(folder_of(cmd), owner_name(cmd), k as nat),
        ),
        CommandView::UpdateType { image_paths, .. } => image_paths,
        CommandView::UpdateProduct { image_paths, .. } => image_paths,
        _ => Seq::empty(),
    }
}

/// A command holds no more paths than a list can.
pub proof fn paths_fit(cmd: Command)
    ensures
        paths_of(cmd@).len() <= usize::MAX,
{
    match cmd {
        Command::UpdateType { image_paths, .. } => {
            assert(image_paths.deep_view().len() == image_paths.len());
        },
        Command::UpdateProduct { image_paths, .. } => {
            assert(image_paths.deep_view().len() == image_paths.len());
        },
        _ => {},
    }
}

/// The row whose images the command writes or deletes.
pub open spec fn owner_of(cmd: CommandView, p: Progress) -> Owner {
    match cmd {
        CommandView::CreateType { .. } => Owner::Type(p.inserted_id),
        CommandView::UpdateType { id, .. } => Owner::Type(id),
        CommandView::DeleteType { id } => Owner::Type(id),
        CommandView::CreateProduct { .. } => Owner::Product(p.inserted_id),
        CommandView::UpdateProduct { id, .. } => Owner::Product(id),
        CommandView::DeleteProduct { id } => Owner::Product(id),
    }
}

/// The columns of a product, given the id that its type name resolved to.
pub open spec fn fields_of(product: ProductDraftView, type_id: Option<i64>) -> ProductFieldsView {
    ProductFieldsView {
        name: product.name,
        price_bits: product.price_bits,
        detail: product.detail,
        stock: product.stock,
        products_type_id: type_id,
    }
}

/// The statement on the command's own row.
pub open spec fn row_statement(cmd: CommandView, p: Progress) -> StatementView {
    match cmd {
        CommandView::CreateType { name, .. } => StatementView::InsertType { name },
        CommandView::UpdateType { id, name, .. } => StatementView::RenameType { id, name },
        CommandView::DeleteType { id } => StatementView::DeleteType { id },
        CommandView::CreateProduct { product, .. } => StatementView::InsertProduct {
            product: fields_of(product, p.type_id),
        },
        CommandView::UpdateProduct { id, product, .. } => StatementView::UpdateProduct {
            id,
            product: fields_of(product, p.type_id),
        },
        CommandView::DeleteProduct { id } => StatementView::DeleteProduct { id },
    }
}

/// How many levels above an image the directory of its owner lies.
pub open spec fn levels_up(cmd: CommandView) -> nat {
    match cmd {
        CommandView::DeleteType { .. } => 2,
        _ => 1,
    }
}

/// The directory that goes with the owner: the one above the first of its
/// image paths, if it has an image and the path has such a directory.
pub open spec fn tree_of(cmd: CommandView, paths: Seq<Seq<char>>) -> Option<Seq<char>> {
    if paths.len() == 0 {
        None
    } else {
        tree_above(paths[0], levels_up(cmd))
    }
}

/// The write ends, and the caller is answered.
pub open spec fn finish(p: Progress, outcome: Outcome) -> (Progress, ActionView) {
    (Progress { stage: Stage::Finished, pending: outcome, ..p }, ActionView::Respond(outcome))
}

/// The transaction is undone; the answer follows.
pub open spec fn roll_back(p: Progress, outcome: Outcome) -> (Progress, ActionView) {
    (Progress { stage: Stage::RollingBack, pending: outcome, ..p }, ActionView::Rollback)
}

/// The command's own row is written next.
pub open spec fn write_row(cmd: CommandView, p: Progress) -> (Progress, ActionView) {
    (Progress { stage: Stage::WritingRow, ..p }, ActionView::Run(row_statement(cmd, p)))
}

/// The owner's images are deleted next.
pub open spec fn clear_images(cmd: CommandView, p: Progress) -> (Progress, ActionView) {
    (
        Progress { stage: Stage::ClearingImages, ..p },
        ActionView::Run(StatementView::DeleteImages { owner: owner_of(cmd, p) }),
    )
}

/// The transaction is committed next.
pub open spec fn commit(p: Progress) -> (Progress, ActionView) {
    (Progress { stage: Stage::Committing, ..p }, ActionView::Commit)
}

/// Inserts the image with index `k`, or commits where there is none.
pub open spec fn add_image(cmd: CommandView, p: Progress, k: int) -> (Progress, ActionView) {
    if 0 <= k < paths_of(cmd).len() && k <= usize::MAX {
        (
            Progress { stage: Stage::AddingImages, next_image: k as usize, ..p },
            ActionView::Run(
                StatementView::InsertImage {
                    image_path: paths_of(cmd)[k],
                    owner: owner_of(cmd, p),
                },
            ),
        )
    } else {
        commit(p)
    }
}

/// The transaction begins next.
pub open spec fn begin(p: Progress) -> (Progress, ActionView) {
    (Progress { stage: Stage::Beginning, ..p }, ActionView::Begin)
}

/// Saves the image with index `k` of a new owner, or begins the
/// transaction where there is none to save.
pub open spec fn persist(cmd: CommandView, p: Progress, k: int) -> (Progress, ActionView) {
    if saves_files(cmd) && 0 <= k < paths_of(cmd).len() && k <= usize::MAX {
        (
            Progress { stage: Stage::Persisting, next_image: k as usize, ..p },
            ActionView::SaveImage {
                index: k as usize,
                folder: folder_of(cmd),
                path: paths_of(cmd)[k],
            },
        )
    } else {
        begin(p)
    }
}

/// What follows a request that is not turned down as it stands: a type
/// name is resolved, and without one the images are saved.
pub open spec fn after_check(cmd: CommandView, p: Progress) -> (Progress, ActionView) {
    match name_to_resolve(cmd) {
        Some(name) => (
            Progress { stage: Stage::Resolving, ..p },
            ActionView::Run(StatementView::FindTypeByName { name }),
        ),
        None => persist(cmd, p, 0),
    }
}

/// What follows the start of the transaction: a delete reads the image
/// paths of its owner, and every other write goes on to its row.
pub open spec fn after_begin(cmd: CommandView, p: Progress) -> (Progress, ActionView) {
    match cmd {
        CommandView::DeleteType { .. } | CommandView::DeleteProduct { .. } => (
            Progress { stage: Stage::ReadingPaths, ..p },
            ActionView::Run(StatementView::ImagePaths { owner: owner_of(cmd, p) }),
        ),
        _ => write_row(cmd, p),
    }
}

/// What follows the write of the command's row: a new row takes its images;
/// a changed row has its images replaced; where no row was changed, nothing
/// more is written.
pub open spec fn after_row(
    cmd: CommandView,
    p: Progress,
    last_insert_rowid: i64,
    rows_affected: u64,
) -> (Progress, ActionView) {
    match cmd {
        CommandView::CreateType { .. } | CommandView::CreateProduct { .. } => add_image(
            cmd,
            Progress { inserted_id: last_insert_rowid, ..p },
            0,
        ),
        CommandView::UpdateType { .. } | CommandView::UpdateProduct { .. } => if rows_affected
            == 0 {
            commit(p)
        } else {
            clear_images(cmd, p)
        },
        _ => commit(p),
    }
}

/// What follows the deletion of the images of the owner: a deleted
/// type loses the images of its products next, a deleted product its row, and an
/// update takes its new images.
pub open spec fn after_clear(cmd: CommandView, p: Progress) -> (Progress, ActionView) {
    match cmd {
        CommandView::DeleteType { id } => (
            Progress { stage: Stage::ClearingProductImages, ..p },
            ActionView::Run(StatementView::DeleteImagesOfProductsOfType { type_id: id }),
        ),
        CommandView::DeleteProduct { .. } => (
            Progress { stage: Stage::RemovingRow, ..p },
            ActionView::Run(row_statement(cmd, p)),
        ),
        _ => add_image(cmd, p, 0),
    }
}

/// Whether an event reports a write that ran.
pub open spec fn is_written(e: EventView) -> bool {
    e matches EventView::Answered(ReplyView::Written { .. })
}

/// The next stage and action of a write.
///
/// A command that is turned down as it stands is answered at once, and so
/// is a product whose type name no product type bears: nothing is saved
/// and no transaction begins. Every other write goes through its steps:
/// - a create saves the images of the new owner, one file each, begins the
///   transaction, inserts the row, inserts one image row for each path with
///   the id of the new row, and commits;
/// - an update begins the transaction and updates the row; where that
///   changed a row it deletes the images of the row and inserts the new
///   ones; then it commits;
/// - a delete begins the transaction, reads the image paths of the row, has
///   the directory of the first of them removed, deletes the images of the
///   row, for a product type also the images of its products and the
///   products, then the row, and commits.
///
/// An image that cannot be saved ends the write before the transaction
/// begins. A step that fails after the transaction began has the
/// transaction rolled back before the write is answered; a file saved or a
/// directory removed before that stays as it is.
pub open spec fn transition(cmd: CommandView, p: Progress, e: EventView) -> (Progress, ActionView) {
    match p.stage {
        Stage::Received => match rejection(cmd) {
            Some(r) => finish(p, Outcome::Rejected(r)),
            None => after_check(cmd, p),
        },
        Stage::Resolving => match e {
            EventView::Answered(ReplyView::TypeId(Some(id))) => persist(
                cmd,
                Progress { type_id: Some(id), ..p },
                0,
            ),
            EventView::Answered(ReplyView::TypeId(None)) => finish(
                p,
                Outcome::Rejected(Rejection::UnknownTypeName),
            ),
            _ => finish(p, Outcome::Failed(Failure::Resolve)),
        },
        Stage::Persisting => if e == EventView::ImageSaved(true) {
            persist(cmd, p, p.next_image + 1)
        } else {
            finish(p, Outcome::Failed(Failure::SaveFile))
        },
        Stage::Beginning => if e == EventView::Began(true) {
            after_begin(cmd, p)
        } else {
            finish(p, Outcome::Failed(Failure::Begin))
        },
        Stage::ReadingPaths => match e {
            EventView::Answered(ReplyView::Paths(paths)) => match tree_of(cmd, paths) {
                Some(dir) => (
                    Progress { stage: Stage::RemovingTree, ..p },
                    ActionView::RemoveTree(dir),
                ),
                None => clear_images(cmd, p),
            },
            _ => roll_back(p, Outcome::Failed(Failure::ReadPaths)),
        },
        Stage::RemovingTree => if e == EventView::TreeRemoved(true) {
            clear_images(cmd, p)
        } else {
            roll_back(p, Outcome::Failed(Failure::RemoveTree))
        },
        Stage::WritingRow => match e {
            EventView::Answered(
                ReplyView::Written { last_insert_rowid, rows_affected },
            ) => after_row(cmd, p, last_insert_rowid, rows_affected),
            _ => roll_back(p, Outcome::Failed(Failure::WriteRow)),
        },
        Stage::ClearingImages => if is_written(e) {
            after_clear(cmd, p)
        } else {
            roll_back(p, Outcome::Failed(Failure::ClearImages))
        },
        Stage::ClearingProductImages => match cmd {
            CommandView::DeleteType { id } => if is_written(e) {
                (
                    Progress { stage: Stage::ClearingProducts, ..p },
                    ActionView::Run(StatementView::DeleteProductsOfType { type_id: id }),
                )
            } else {
                roll_back(p, Outcome::Failed(Failure::ClearDependents))
            },
            _ => roll_back(p, Outcome::Failed(Failure::ClearDependents)),
        },
        Stage::ClearingProducts => if is_written(e) {
            (Progress { stage: Stage::RemovingRow, ..p }, ActionView::Run(row_statement(cmd, p)))
        } else {
            roll_back(p, Outcome::Failed(Failure::ClearDependents))
        },
        Stage::RemovingRow => if is_written(e) {
            commit(p)
        } else {
            roll_back(p, Outcome::Failed(Failure::RemoveRow))
        },
        Stage::AddingImages => if is_written(e) {
            add_image(cmd, p, p.next_image + 1)
        } else {
            roll_back(p, Outcome::Failed(Failure::AddImage))
        },
        Stage::Committing => if e == EventView::Committed(true) {
            finish(p, Outcome::Done)
        } else {
            roll_back(p, Outcome::Failed(Failure::Commit))
        },
        Stage::RollingBack => finish(p, p.pending),
        Stage::Finished => finish(p, p.pending),
    }
}

/// An upper bound on the actions still to come.
pub open spec fn steps_left(cmd: CommandView, p: Progress) -> nat {
    let n = paths_of(cmd).len();
    match p.stage {
        Stage::Finished => 0,
        Stage::RollingBack => 1,
        Stage::Committing => 2,
        Stage::AddingImages => if p.next_image < n {
            (3 + n - p.next_image) as nat
        } else {
            3
        },
        Stage::RemovingRow => n + 4,
        Stage::ClearingProducts => n + 5,
        Stage::ClearingProductImages => n + 6,
        Stage::ClearingImages => n + 7,
        Stage::WritingRow => n + 8,
        Stage::RemovingTree => n + 9,
        Stage::ReadingPaths => n + 10,
        Stage::Beginning => n + 11,
        Stage::Persisting => if p.next_image < n {
            (n + 12 + n - p.next_image) as nat
        } else {
            n + 12
        },
        Stage::Resolving => 2 * n + 13,
        Stage::Received => 2 * n + 14,
    }
}

/// Every step brings a write nearer to its response.
pub proof fn transition_descends(cmd: CommandView, p: Progress, e: EventView)
    ensures
        transition(cmd, p, e).1 is Respond || steps_left(cmd, transition(cmd, p, e).0) < steps_left(
            cmd,
            p,
        ),
        transition(cmd, p, e).1 is Respond ==> transition(cmd, p, e).0.stage == Stage::Finished,
{
    let n = paths_of(cmd).len();
    match p.stage {
        Stage::WritingRow => {
            assert(steps_left(cmd, p) == n + 8);
        },
        Stage::ClearingImages => {
            assert(steps_left(cmd, p) == n + 7);
        },
        Stage::AddingImages => {
            if is_written(e) && p.next_image + 1 < n && p.next_image < usize::MAX {
                let q = transition(cmd, p, e).0;
                assert(q.next_image == p.next_image + 1);
            }
        },
        Stage::Persisting => {
            if e == EventView::ImageSaved(true) && saves_files(cmd) && p.next_image + 1 < n
                && p.next_image < usize::MAX {
                let q = transition(cmd, p, e).0;
                assert(q.next_image == p.next_image + 1);
            }
        },
        _ => {},
    }
}

fn owner(cmd: &Command, p: &Progress) -> (o: Owner)
    ensures
        o == owner_of(cmd@, *p),
{
    match cmd {
        Command::CreateType { .. } => Owner::Type(p.inserted_id),
        Command::UpdateType { id, .. } => Owner::Type(*id),
        Command::DeleteType { id } => Owner::Type(*id),
        Command::CreateProduct { .. } => Owner::Product(p.inserted_id),
        Command::UpdateProduct { id, .. } => Owner::Product(*id),
        Command::DeleteProduct { id } => Owner::Product(*id),
    }
}

fn fields(product: &ProductDraft, type_id: Option<i64>) -> (f: ProductFields)
    ensures
        f@ == fields_of(product@, type_id),
{
    ProductFields {
        name: product.name.clone(),
        price_bits: product.price_bits,
        detail: product.detail.clone(),
        stock: product.stock,
        products_type_id: type_id,
    }
}

fn row(cmd: &Command, p: &Progress) -> (s: Statement)
    ensures
        s@ == row_statement(cmd@, *p),
{
    match cmd {
        Command::CreateType { name, .. } => Statement::InsertType { name: name.clone() },
        Command::UpdateType { id, name, .. } => Statement::RenameType {
            id: *id,
            name: name.clone(),
        },
        Command::DeleteType { id } => Statement::DeleteType { id: *id },
        Command::CreateProduct { product, .. } => Statement::InsertProduct {
            product: fields(product, p.type_id),
        },
        Command::UpdateProduct { id, product, .. } => Statement::UpdateProduct {
            id: *id,
            product: fields(product, p.type_id),
        },
        Command::DeleteProduct { id } => Statement::DeleteProduct { id: *id },
    }
}

fn do_finish(p: Progress, outcome: Outcome) -> (next: (Progress, Action))
    ensures
        next.0 == finish(p, outcome).0,
        next.1@ == finish(p, outcome).1,
{
    (Progress { stage: Stage::Finished, pending: outcome, ..p }, Action::Respond(outcome))
}

fn do_roll_back(p: Progress, outcome: Outcome) -> (next: (Progress, Action))
    ensures
        next.0 == roll_back(p, outcome).0,
        next.1@ == roll_back(p, outcome).1,
{
    (Progress { stage: Stage::RollingBack, pending: outcome, ..p }, Action::Rollback)
}

fn do_write_row(cmd: &Command, p: Progress) -> (next: (Progress, Action))
    ensures
        next.0 == write_row(cmd@, p).0,
        next.1@ == write_row(cmd@, p).1,
{
    let statement = row(cmd, &p);
    (Progress { stage: Stage::WritingRow, ..p }, Action::Run(statement))
}

fn do_clear_images(cmd: &Command, p: Progress) -> (next: (Progress, Action))
    ensures
        next.0 == clear_images(cmd@, p).0,
        next.1@ == clear_images(cmd@, p).1,
{
    let statement = Statement::DeleteImages { owner: owner(cmd, &p) };
    (Progress { stage: Stage::ClearingImages, ..p }, Action::Run(statement))
}

fn do_commit(p: Progress) -> (next: (Progress, Action))
    ensures
        next.0 == commit(p).0,
        next.1@ == commit(p).1,
{
    (Progress { stage: Stage::Committing, ..p }, Action::Commit)
}

/// Where the image with index `k` of a new owner goes.
fn planned(cmd: &Command, k: usize) -> (image: Option<StoredImage>)
    ensures
        image is Some <==> saves_files(cmd@) && k < paths_of(cmd@).len(),
        image matches Some(stored) ==> stored.folder@ == folder_of(cmd@) && stored.path@
            == paths_of(cmd@)[k as int],
{
    match cmd {
        Command::CreateType { name, images } => {
            if k < *images {
                Some(store_type_image(name.as_str(), k as u64))
            } else {
                None
            }
        },
        Command::CreateProduct { product, images } => {
            if k < *images {
                let stored = match &product.products_type_name {
                    Some(kind) => store_product_image(
                        kind.as_str(),
                        product.name.as_str(),
                        k as u64,
                    ),
                    None => store_product_image("", product.name.as_str(), k as u64),
                };
                proof {
                    reveal_strlit("");
                    assert(""@ =~= Seq::<char>::empty());
                }
                Some(stored)
            } else {
                None
            }
        },
        _ => None,
    }
}

/// The image path with index `k` that the command gives its owner.
fn path_at(cmd: &Command, k: usize) -> (path: Option<String>)
    ensures
        path.deep_view() == (if k < paths_of(cmd@).len() {
            Some(paths_of(cmd@)[k as int])
        } else {
            None
        }),
{
    match cmd {
        Command::UpdateType { image_paths, .. } => {
            assert(image_paths.deep_view() == paths_of(cmd@));
            if k < image_paths.len() {
                Some(image_paths[k].clone())
            } else {
                None
            }
        },
        Command::UpdateProduct { image_paths, .. } => {
            assert(image_paths.deep_view() == paths_of(cmd@));
            if k < image_paths.len() {
                Some(image_paths[k].clone())
            } else {
                None
            }
        },
        _ => match planned(cmd, k) {
            Some(stored) => Some(stored.path),
            None => None,
        },
    }
}

fn do_add_image(cmd: &Command, p: Progress, k: usize) -> (next: (Progress, Action))
    ensures
        next.0 == add_image(cmd@, p, k as int).0,
        next.1@ == add_image(cmd@, p, k as int).1,
{
    match path_at(cmd, k) {
        Some(image_path) => {
            let statement = Statement::InsertImage { image_path, owner: owner(cmd, &p) };
            (Progress { stage: Stage::AddingImages, next_image: k, ..p }, Action::Run(statement))
        },
        None => do_commit(p),
    }
}

fn do_begin(p: Progress) -> (next: (Progress, Action))
    ensures
        next.0 == begin(p).0,
        next.1@ == begin(p).1,
{
    (Progress { stage: Stage::Beginning, ..p }, Action::Begin)
}

fn do_persist(cmd: &Command, p: Progress, k: usize) -> (next: (Progress, Action))
    ensures
        next.0 == persist(cmd@, p, k as int).0,
        next.1@ == persist(cmd@, p, k as int).1,
{
    match planned(cmd, k) {
        Some(stored) => (
            Progress { stage: Stage::Persisting, next_image: k, ..p },
            Action::SaveImage { index: k, folder: stored.folder, path: stored.path },
        ),
        None => do_begin(p),
    }
}

fn do_after_check(cmd: &Command, p: Progress) -> (next: (Progress, Action))
    ensures
        next.0 == after_check(cmd@, p).0,
        next.1@ == after_check(cmd@, p).1,
{
    let named = match cmd {
        Command::CreateProduct { product, .. } => &product.products_type_name,
        Command::UpdateProduct { product, .. } => &product.products_type_name,
        _ => {
            return do_persist(cmd, p, 0);
        },
    };
    match named {
        Some(name) => (
            Progress { stage: Stage::Resolving, ..p },
            Action::Run(Statement::FindTypeByName { name: name.clone() }),
        ),
        None => do_persist(cmd, p, 0),
    }
}

fn do_after_begin(cmd: &Command, p: Progress) -> (next: (Progress, Action))
    ensures
        next.0 == after_begin(cmd@, p).0,
        next.1@ == after_begin(cmd@, p).1,
{
    match cmd {
        Command::DeleteType { .. } | Command::DeleteProduct { .. } => {
            let statement = Statement::ImagePaths { owner: owner(cmd, &p) };
            (Progress { stage: Stage::ReadingPaths, ..p }, Action::Run(statement))
        },
        _ => do_write_row(cmd, p),
    }
}

fn do_after_row(cmd: &Command, p: Progress, last_insert_rowid: i64, rows_affected: u64) -> (next:
    (Progress, Action))
    ensures
        next.0 == after_row(cmd@, p, last_insert_rowid, rows_affected).0,
        next.1@ == after_row(cmd@, p, last_insert_rowid, rows_affected).1,
{
    match cmd {
        Command::CreateType { .. } | Command::CreateProduct { .. } => do_add_image(
            cmd,
            Progress { inserted_id: last_insert_rowid, ..p },
            0,
        ),
        Command::UpdateType { .. } | Command::UpdateProduct { .. } => {
            if rows_affected == 0 {
                do_commit(p)
            } else {
                do_clear_images(cmd, p)
            }
        },
        _ => do_commit(p),
    }
}

fn do_after_clear(cmd: &Command, p: Progress) -> (next: (Progress, Action))
    ensures
        next.0 == after_clear(cmd@, p).0,
        next.1@ == after_clear(cmd@, p).1,
{
    match cmd {
        Command::DeleteType { id } => (
            Progress { stage: Stage::ClearingProductImages, ..p },
            Action::Run(Statement::DeleteImagesOfProductsOfType { type_id: *id }),
        ),
        Command::DeleteProduct { .. } => {
            let statement = row(cmd, &p);
            (Progress { stage: Stage::RemovingRow, ..p }, Action::Run(statement))
        },
        _ => do_add_image(cmd, p, 0),
    }
}

fn written(e: &Event) -> (b: bool)
    ensures
        b == is_written(e@),
{
    match e {
        Event::Answered(Reply::Written { .. }) => true,
        _ => false,
    }
}

/// Why the command is turned down as it stands, if it is.
pub fn check(cmd: &Command) -> (r: Option<Rejection>)
    ensures
        r == rejection(cmd@),
{
    match cmd {
        Command::CreateType { name, images } => {
            if name.as_str().unicode_len() == 0 {
                Some(Rejection::MissingTypeName)
            } else if *images == 0 {
                Some(Rejection::NoImages)
            } else {
                None
            }
        },
        _ => None,
    }
}

/// The steps before the transaction has begun.
fn step_opening(cmd: &Command, p: Progress, e: &Event) -> (next: (Progress, Action))
    requires
        p.stage == Stage::Received
            || p.stage == Stage::Resolving
            || p.stage == Stage::Persisting
            || p.stage == Stage::Beginning,
    ensures
        next.0 == transition(cmd@, p, e@).0,
        next.1@ == transition(cmd@, p, e@).1,
{
    match p.stage {
        Stage::Received => match check(cmd) {
            Some(r) => do_finish(p, Outcome::Rejected(r)),
            None => do_after_check(cmd, p),
        },
        Stage::Resolving => match e {
            Event::Answered(Reply::TypeId(Some(id))) => do_persist(
                cmd,
                Progress { type_id: Some(*id), ..p },
                0,
            ),
            Event::Answered(Reply::TypeId(None)) => do_finish(
                p,
                Outcome::Rejected(Rejection::UnknownTypeName),
            ),
            _ => do_finish(p, Outcome::Failed(Failure::Resolve)),
        },
        Stage::Persisting => match e {
            Event::ImageSaved(true) => {
                if p.next_image < usize::MAX {
                    do_persist(cmd, p, p.next_image + 1)
                } else {
                    do_begin(p)
                }
            },
            _ => do_finish(p, Outcome::Failed(Failure::SaveFile)),
        },
        Stage::Beginning => match e {
            Event::Began(true) => do_after_begin(cmd, p),
            _ => do_finish(p, Outcome::Failed(Failure::Begin)),
        },
        _ => do_finish(p, p.pending),
    }
}

/// The steps that read and delete inside the transaction.
fn step_deleting(cmd: &Command, p: Progress, e: &Event) -> (next: (Progress, Action))
    requires
        p.stage == Stage::ReadingPaths
            || p.stage == Stage::RemovingTree
            || p.stage == Stage::ClearingImages
            || p.stage == Stage::ClearingProductImages
            || p.stage == Stage::ClearingProducts
            || p.stage == Stage::RemovingRow,
    ensures
        next.0 == transition(cmd@, p, e@).0,
        next.1@ == transition(cmd@, p, e@).1,
{
    match p.stage {
        Stage::ReadingPaths => match e {
            Event::Answered(Reply::Paths(paths)) => {
                let levels: u8 = match cmd {
                    Command::DeleteType { .. } => 2,
                    _ => 1,
                };
                let tree = if paths.len() == 0 {
                    None
                } else {
                    owner_tree(paths[0].as_str(), levels)
                };
                match tree {
                    Some(dir) => (
                        Progress { stage: Stage::RemovingTree, ..p },
                        Action::RemoveTree(dir),
                    ),
                    None => do_clear_images(cmd, p),
                }
            },
            _ => do_roll_back(p, Outcome::Failed(Failure::ReadPaths)),
        },
        Stage::RemovingTree => match e {
            Event::TreeRemoved(true) => do_clear_images(cmd, p),
            _ => do_roll_back(p, Outcome::Failed(Failure::RemoveTree)),
        },
        Stage::ClearingImages => {
            if written(e) {
                do_after_clear(cmd, p)
            } else {
                do_roll_back(p, Outcome::Failed(Failure::ClearImages))
            }
        },
        Stage::ClearingProductImages => match cmd {
            Command::DeleteType { id } => {
                if written(e) {
                    (
                        Progress { stage: Stage::ClearingProducts, ..p },
                        Action::Run(Statement::DeleteProductsOfType { type_id: *id }),
                    )
                } else {
                    do_roll_back(p, Outcome::Failed(Failure::ClearDependents))
                }
            },
            _ => do_roll_back(p, Outcome::Failed(Failure::ClearDependents)),
        },
        Stage::ClearingProducts => {
            if written(e) {
                let statement = row(cmd, &p);
                (Progress { stage: Stage::RemovingRow, ..p }, Action::Run(statement))
            } else {
                do_roll_back(p, Outcome::Failed(Failure::ClearDependents))
            }
        },
        Stage::RemovingRow => {
            if written(e) {
                do_commit(p)
            } else {
                do_roll_back(p, Outcome::Failed(Failure::RemoveRow))
            }
        },
        _ => do_finish(p, p.pending),
    }
}

/// The steps that write rows and close the transaction.
fn step_closing(cmd: &Command, p: Progress, e: &Event) -> (next: (Progress, Action))
    requires
        p.stage == Stage::WritingRow
            || p.stage == Stage::AddingImages
            || p.stage == Stage::Committing
            || p.stage == Stage::RollingBack
            || p.stage == Stage::Finished,
    ensures
        next.0 == transition(cmd@, p, e@).0,
        next.1@ == transition(cmd@, p, e@).1,
{
    match p.stage {
        Stage::WritingRow => match e {
            Event::Answered(Reply::Written { last_insert_rowid, rows_affected }) => do_after_row(
                cmd,
                p,
                *last_insert_rowid,
                *rows_affected,
            ),
            _ => do_roll_back(p, Outcome::Failed(Failure::WriteRow)),
        },
        Stage::AddingImages => {
            if written(e) {
                if p.next_image < usize::MAX {
                    do_add_image(cmd, p, p.next_image + 1)
                } else {
                    do_commit(p)
                }
            } else {
                do_roll_back(p, Outcome::Failed(Failure::AddImage))
            }
        },
        Stage::Committing => match e {
            Event::Committed(true) => do_finish(p, Outcome::Done),
            _ => do_roll_back(p, Outcome::Failed(Failure::Commit)),
        },
        Stage::RollingBack => do_finish(p, p.pending),
        Stage::Finished => do_finish(p, p.pending),
        _ => do_finish(p, p.pending),
    }
}

/// The next stage and the action to perform, given how the last action went.
pub fn step(cmd: &Command, p: Progress, e: &Event) -> (next: (Progress, Action))
    ensures
        next.0 == transition(cmd@, p, e@).0,
        next.1@ == transition(cmd@, p, e@).1,
{
    match p.stage {
        Stage::Received | Stage::Resolving | Stage::Persisting | Stage::Beginning => step_opening(
            cmd,
            p,
            e,
        ),
        Stage::WritingRow
        | Stage::AddingImages
        | Stage::Committing
        | Stage::RollingBack
        | Stage::Finished => step_closing(cmd, p, e),
        _ => step_deleting(cmd, p, e),
    }
}

} // verus!

//! The status and the text that each endpoint answers with.

use crate::transaction::{Command, CommandView, Failure, Outcome, Rejection};
use vstd::prelude::*;
use vstd::string::*;

verus! {

/// The operations that the catalog serves.
#[derive(Clone, Copy, Debug, PartialEq, Eq, Structural)]
pub enum Endpoint {
    GetProductTypes,
    PostProductTypes,
    UpdateProductType,
    DeleteProductType,
    GetProducts,
    PostProducts,
    UpdateProduct,
    DeleteProduct,
}

/// An answer to a request: status, text, and where to go after a redirect.
#[derive(Clone, Debug, PartialEq, Eq)]
pub struct Response {
    pub status: u16,
    pub body: String,
    pub location: Option<String>,
}

pub struct ResponseView {
    pub status: u16,
    pub body: Seq<char>,
    pub location: Option<Seq<char>>,
}

impl View for Response {
    type V = ResponseView;

    open spec fn view(&self) -> ResponseView {
        ResponseView {
            status: self.status,
            body: self.body@,
            location: self.location.deep_view(),
        }
    }
}

/// The answer to a write, with what the write asked of the disk: the paths
/// of the files saved and the directories removed, in their order.
#[derive(Clone, Debug, PartialEq, Eq)]
pub struct Handled {
    pub response: Response,
    pub saved: Vec<String>,
    pub removed: Vec<String>,
}

pub struct HandledView {
    pub response: ResponseView,
    pub saved: Seq<Seq<char>>,
    pub removed: Seq<Seq<char>>,
}

impl View for Handled {
    type V = HandledView;

    open spec fn view(&self) -> HandledView {
        HandledView {
            response: self.response@,
            saved: self.saved.deep_view(),
            removed: self.removed.deep_view(),
        }
    }
}

/// The endpoint that a write belongs to.
pub open spec fn endpoint_of(cmd: CommandView) -> Endpoint {
    match cmd {
        CommandView::CreateType { .. } => Endpoint::PostProductTypes,
        CommandView::UpdateType { .. } => Endpoint::UpdateProductType,
        CommandView::DeleteType { .. } => Endpoint::DeleteProductType,
        CommandView::CreateProduct { .. } => Endpoint::PostProducts,
        CommandView::UpdateProduct { .. } => Endpoint::UpdateProduct,
        CommandView::DeleteProduct { .. } => Endpoint::DeleteProduct,
    }
}

/// The endpoint that a write belongs to.
pub fn endpoint(cmd: &Command) -> (e: Endpoint)
    ensures
        e == endpoint_of(cmd@),
{
    match cmd {
        Command::CreateType { .. } => Endpoint::PostProductTypes,
        Command::UpdateType { .. } => Endpoint::UpdateProductType,
        Command::DeleteType { .. } => Endpoint::DeleteProductType,
        Command::CreateProduct { .. } => Endpoint::PostProducts,
        Command::UpdateProduct { .. } => Endpoint::UpdateProduct,
        Command::DeleteProduct { .. } => Endpoint::DeleteProduct,
    }
}

/// 200 for a write that is done, but 302 for a new product; 400 for a
/// request turned down; 500 for a failure.
pub open spec fn status_of(endpoint: Endpoint, outcome: Outcome) -> u16 {
    match outcome {
        Outcome::Done => if endpoint == Endpoint::PostProducts {
            302
        } else {
            200
        },
        Outcome::Rejected(_) => 400,
        Outcome::Failed(_) => 500,
    }
}

/// What a caller is told of a request that is turned down.
pub open spec fn rejection_text(rejection: Rejection) -> Seq<char> {
    match rejection {
        Rejection::MissingTypeName => "Missing product type name"@,
        Rejection::NoImages => "At least one image is required"@,
        Rejection::UnknownTypeName => "Invalid product type name"@,
        Rejection::InvalidForm => "Invalid form data"@,
    }
}

/// What a caller is told of a failure: each endpoint names its steps in
/// its own words.
pub open spec fn failure_text(endpoint: Endpoint, failure: Failure) -> Seq<char> {
    match failure {
        Failure::Begin => match endpoint {
            Endpoint::PostProductTypes => "Failed to start DB transaction"@,
            _ => "Failed to begin transaction"@,
        },
        Failure::Resolve => "Failed to find product type"@,
        Failure::ReadPaths => match endpoint {
            Endpoint::DeleteProduct => "Failed to fetch image path of products"@,
            _ => "Failed to fetch image paths"@,
        },
        Failure::RemoveTree => match endpoint {
            Endpoint::DeleteProduct => "Failed to delete folder"@,
            _ => "Failed to delete directory"@,
        },
        Failure::WriteRow => match endpoint {
            Endpoint::PostProductTypes => "Insert product type failed"@,
            Endpoint::PostProducts => "Insert failed"@,
            _ => "Update failed"@,
        },
        Failure::ClearImages => match endpoint {
            Endpoint::DeleteProductType => "Failed to delete related images"@,
            Endpoint::DeleteProduct => "Failed to delete images"@,
            _ => "Delete old images failed"@,
        },
        Failure::ClearDependents => "Failed to delete related products"@,
        Failure::RemoveRow => match endpoint {
            Endpoint::DeleteProductType => "Failed to delete product type"@,
            _ => "Failed to delete product"@,
        },
        Failure::AddImage => match endpoint {
            Endpoint::UpdateProductType => "Insert new image failed"@,
            _ => "Insert image failed"@,
        },
        Failure::Commit => match endpoint {
            Endpoint::PostProductTypes => "Commit failed"@,
            Endpoint::UpdateProductType => "Commit failed"@,
            Endpoint::DeleteProductType => "Failed to commit transaction"@,
            _ => "Transaction commit failed"@,
        },
        Failure::Query => "Database query failed"@,
        Failure::SaveFile => "Failed to save file"@,
    }
}

/// What a caller is told of a write that is done.
pub open spec fn done_text(endpoint: Endpoint) -> Seq<char> {
    match endpoint {
        Endpoint::PostProductTypes => "Product type post successfully"@,
        Endpoint::UpdateProductType => "Product type updated"@,
        Endpoint::DeleteProductType => "Product type deleted successfully"@,
        Endpoint::UpdateProduct => "Product updated successfully"@,
        Endpoint::DeleteProduct => "Product deleted successfully"@,
        _ => ""@,
    }
}

/// The text of an answer.
pub open spec fn body_of(endpoint: Endpoint, outcome: Outcome) -> Seq<char> {
    match outcome {
        Outcome::Done => done_text(endpoint),
        Outcome::Rejected(rejection) => rejection_text(rejection),
        Outcome::Failed(failure) => failure_text(endpoint, failure),
    }
}

/// A new product sends the caller on to the list of products.
pub open spec fn location_of(endpoint: Endpoint, outcome: Outcome) -> Option<Seq<char>> {
    if endpoint == Endpoint::PostProducts && outcome == Outcome::Done {
        Some("http://localhost:8080/products"@)
    } else {
        None
    }
}

/// The answer of an endpoint to an outcome.
pub open spec fn response_of(endpoint: Endpoint, outcome: Outcome) -> ResponseView {
    ResponseView {
        status: status_of(endpoint, outcome),
        body: body_of(endpoint, outcome),
        location: location_of(endpoint, outcome),
    }
}

fn rejection_message(rejection: Rejection) -> (s: &'static str)
    ensures
        s@ == rejection_text(rejection),
{
    match rejection {
        Rejection::MissingTypeName => "Missing product type name",
        Rejection::NoImages => "At least one image is required",
        Rejection::UnknownTypeName => "Invalid product type name",
        Rejection::InvalidForm => "Invalid form data",
    }
}

fn failure_message(endpoint: Endpoint, failure: Failure) -> (s: &'static str)
    ensures
        s@ == failure_text(endpoint, failure),
{
    match failure {
        Failure::Begin => match endpoint {
            Endpoint::PostProductTypes => "Failed to start DB transaction",
            _ => "Failed to begin transaction",
        },
        Failure::Resolve => "Failed to find product type",
        Failure::ReadPaths => match endpoint {
            Endpoint::DeleteProduct => "Failed to fetch image path of products",
            _ => "Failed to fetch image paths",
        },
        Failure::RemoveTree => match endpoint {
            Endpoint::DeleteProduct => "Failed to delete folder",
            _ => "Failed to delete directory",
        },
        Failure::WriteRow => match endpoint {
            Endpoint::PostProductTypes => "Insert product type failed",
            Endpoint::PostProducts => "Insert failed",
            _ => "Update failed",
        },
        Failure::ClearImages => match endpoint {
            Endpoint::DeleteProductType => "Failed to delete related images",
            Endpoint::DeleteProduct => "Failed to delete images",
            _ => "Delete old images failed",
        },
        Failure::ClearDependents => "Failed to delete related products",
        Failure::RemoveRow => match endpoint {
            Endpoint::DeleteProductType => "Failed to delete product type",
            _ => "Failed to delete product",
        },
        Failure::AddImage => match endpoint {
            Endpoint::UpdateProductType => "Insert new image failed",
            _ => "Insert image failed",
        },
        Failure::Commit => match endpoint {
            Endpoint::PostProductTypes => "Commit failed",
            Endpoint::UpdateProductType => "Commit failed",
            Endpoint::DeleteProductType => "Failed to commit transaction",
            _ => "Transaction commit failed",
        },
        Failure::Query => "Database query failed",
        Failure::SaveFile => "Failed to save file",
    }
}

fn done_message(endpoint: Endpoint) -> (s: &'static str)
    ensures
        s@ == done_text(endpoint),
{
    match endpoint {
        Endpoint::PostProductTypes => "Product type post successfully",
        Endpoint::UpdateProductType => "Product type updated",
        Endpoint::DeleteProductType => "Product type deleted successfully",
        Endpoint::UpdateProduct => "Product updated successfully",
        Endpoint::DeleteProduct => "Product deleted successfully",
        _ => "",
    }
}

/// The answer of an endpoint to the outcome of its work.
pub fn respond(endpoint: Endpoint, outcome: Outcome) -> (r: Response)
    ensures
        r@ == response_of(endpoint, outcome),
{
    let (status, text): (u16, &'static str) = match outcome {
        Outcome::Done => (
            match endpoint {
                Endpoint::PostProducts => 302,
                _ => 200,
            },
            done_message(endpoint),
        ),
        Outcome::Rejected(rejection) => (400, rejection_message(rejection)),
        Outcome::Failed(failure) => (500, failure_message(endpoint, failure)),
    };
    let location = match (endpoint, outcome) {
        (Endpoint::PostProducts, Outcome::Done) => Some(
            String::from_str("http://localhost:8080/products"),
        ),
        _ => None,
    };
    Response { status, body: String::from_str(text), location }
}

/// What a caller is told where the directory of an owner could not be
/// deleted: the error of the file system and the directory.
pub open spec fn tree_failure_text(endpoint: Endpoint, error: Seq<char>, dir: Seq<char>) -> Seq<
    char,
> {
    match endpoint {
        Endpoint::DeleteProduct => "Failed to delete folder: "@ + error + ", "@ + dir,
        _ => "Failed to delete directory:"@ + error + " , "@ + dir,
    }
}

/// The answer where the directory of an owner could not be deleted.
pub fn respond_to_tree_failure(endpoint: Endpoint, error: &str, dir: &str) -> (r: Response)
    ensures
        r@ == (ResponseView {
            status: 500,
            body: tree_failure_text(endpoint, error@, dir@),
            location: None,
        }),
{
    let mut body = match endpoint {
        Endpoint::DeleteProduct => String::from_str("Failed to delete folder: "),
        _ => String::from_str("Failed to delete directory:"),
    };
    body.append(error);
    match endpoint {
        Endpoint::DeleteProduct => {
            body.append(", ");
        },
        _ => {
            body.append(" , ");
        },
    }
    body.append(dir);
    Response { status: 500, body, location: None }
}

} // verus!

use shop_catalog::response::Endpoint::{
    DeleteProduct, DeleteProductType, GetProductTypes, GetProducts, PostProductTypes,
    PostProducts, UpdateProduct, UpdateProductType,
};
use shop_catalog::response::{endpoint, respond, Endpoint, Response};
use shop_catalog::transaction::{Command, Failure, Outcome, Rejection};

fn answer(status: u16, body: &str) -> Response {
    Response { status, body: body.to_string(), location: None }
}

#[test]
fn writes_belong_to_their_endpoints() {
    assert_eq!(endpoint(&Command::DeleteType { id: 1 }), Endpoint::DeleteProductType);
    assert_eq!(endpoint(&Command::DeleteProduct { id: 1 }), Endpoint::DeleteProduct);
    assert_eq!(
        endpoint(&Command::CreateType { name: String::new(), images: 0 }),
        Endpoint::PostProductTypes
    );
    assert_eq!(
        endpoint(&Command::UpdateType { id: 1, name: String::new(), image_paths: vec![] }),
        Endpoint::UpdateProductType
    );
}

#[test]
fn done_is_acknowledged() {
    assert_eq!(
        respond(Endpoint::PostProductTypes, Outcome::Done),
        answer(200, "Product type post successfully")
    );
    assert_eq!(respond(Endpoint::UpdateProductType, Outcome::Done), answer(200, "Product type updated"));
    assert_eq!(
        respond(Endpoint::DeleteProductType, Outcome::Done),
        answer(200, "Product type deleted successfully")
    );
    assert_eq!(
        respond(Endpoint::UpdateProduct, Outcome::Done),
        answer(200, "Product updated successfully")
    );
    assert_eq!(
        respond(Endpoint::DeleteProduct, Outcome::Done),
        answer(200, "Product deleted successfully")
    );
    assert_eq!(
        respond(Endpoint::PostProducts, Outcome::Done),
        Response {
            status: 302,
            body: String::new(),
            location: Some("http://localhost:8080/products".to_string())
        }
    );
}

#[test]
fn rejections_are_the_callers_error() {
    let r = |rejection| respond(Endpoint::PostProducts, Outcome::Rejected(rejection));
    assert_eq!(r(Rejection::MissingTypeName), answer(400, "Missing product type name"));
    assert_eq!(r(Rejection::NoImages), answer(400, "At least one image is required"));
    assert_eq!(r(Rejection::UnknownTypeName), answer(400, "Invalid product type name"));
    assert_eq!(r(Rejection::InvalidForm), answer(400, "Invalid form data"));
}

#[test]
fn failures_are_the_servers_error() {
    let f = |endpoint, failure| respond(endpoint, Outcome::Failed(failure));
    assert_eq!(f(PostProductTypes, Failure::Begin), answer(500, "Failed to start DB transaction"));
    assert_eq!(f(PostProducts, Failure::Begin), answer(500, "Failed to begin transaction"));
    assert_eq!(f(DeleteProductType, Failure::Begin), answer(500, "Failed to begin transaction"));
    assert_eq!(f(PostProducts, Failure::Resolve), answer(500, "Failed to find product type"));
    assert_eq!(f(DeleteProductType, Failure::ReadPaths), answer(500, "Failed to fetch image paths"));
    assert_eq!(
        f(DeleteProduct, Failure::ReadPaths),
        answer(500, "Failed to fetch image path of products")
    );
    assert_eq!(f(DeleteProductType, Failure::RemoveTree), answer(500, "Failed to delete directory"));
    assert_eq!(f(DeleteProduct, Failure::RemoveTree), answer(500, "Failed to delete folder"));
    assert_eq!(f(PostProductTypes, Failure::WriteRow), answer(500, "Insert product type failed"));
    assert_eq!(f(PostProducts, Failure::WriteRow), answer(500, "Insert failed"));
    assert_eq!(f(UpdateProductType, Failure::WriteRow), answer(500, "Update failed"));
    assert_eq!(f(UpdateProduct, Failure::WriteRow), answer(500, "Update failed"));
    assert_eq!(
        f(DeleteProductType, Failure::ClearImages),
        answer(500, "Failed to delete related images")
    );
    assert_eq!(f(DeleteProduct, Failure::ClearImages), answer(500, "Failed to delete images"));
    assert_eq!(f(UpdateProduct, Failure::ClearImages), answer(500, "Delete old images failed"));
    assert_eq!(
        f(DeleteProductType, Failure::ClearDependents),
        answer(500, "Failed to delete related products")
    );
    assert_eq!(f(DeleteProductType, Failure::RemoveRow), answer(500, "Failed to delete product type"));
    assert_eq!(f(DeleteProduct, Failure::RemoveRow), answer(500, "Failed to delete product"));
    assert_eq!(f(UpdateProductType, Failure::AddImage), answer(500, "Insert new image failed"));
    assert_eq!(f(PostProductTypes, Failure::AddImage), answer(500, "Insert image failed"));
    assert_eq!(f(PostProductTypes, Failure::Commit), answer(500, "Commit failed"));
    assert_eq!(f(UpdateProductType, Failure::Commit), answer(500, "Commit failed"));
    assert_eq!(f(DeleteProductType, Failure::Commit), answer(500, "Failed to commit transaction"));
    assert_eq!(f(PostProducts, Failure::Commit), answer(500, "Transaction commit failed"));
    assert_eq!(f(GetProducts, Failure::Query), answer(500, "Database query failed"));
    assert_eq!(f(GetProductTypes, Failure::Query), answer(500, "Database query failed"));
    assert_eq!(f(PostProducts, Failure::SaveFile), answer(500, "Failed to save file"));
}

#[test]
fn a_directory_that_stays_is_named_with_its_error() {
    assert_eq!(
        shop_catalog::response::respond_to_tree_failure(DeleteProductType, "denied", "a/b"),
        answer(500, "Failed to delete directory:denied , a/b")
    );
    assert_eq!(
        shop_catalog::response::respond_to_tree_failure(DeleteProduct, "denied", "a/b"),
        answer(500, "Failed to delete folder: denied, a/b")
    );
}

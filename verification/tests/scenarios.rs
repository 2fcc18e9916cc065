use shop_catalog::handlers::product_type::{
    delete_product_type, get_product_types, post_product_types, update_product_type,
};
use shop_catalog::handlers::products::{delete_product, get_products, post_products, update_product};
use shop_catalog::models::{NewProductType, NewProducts, Querysearchandpage};
use shop_catalog::store::Catalog;
use shop_catalog::upload::{ProductUpload, TypeUpload};

fn query(search: Option<&str>, page: Option<i64>, type_id: Option<&str>) -> Querysearchandpage {
    Querysearchandpage {
        search: search.map(|s| s.to_string()),
        page,
        type_id: type_id.map(|s| s.to_string()),
    }
}

fn electronics(catalog: &mut Catalog) -> u16 {
    let mut upload = TypeUpload::new();
    upload.text_field("name", b"electronics");
    upload.image_field();
    upload.image_field();
    post_product_types(catalog, upload).response.status
}

fn phone(catalog: &mut Catalog) -> u16 {
    let mut upload = ProductUpload::new();
    upload.text_field("name", b"phone");
    upload.text_field("price", b"299.99");
    upload.text_field("stock", b"5");
    upload.text_field("detail", b"{}");
    upload.text_field("product_type_name", b"electronics");
    post_products(catalog, upload, 299.99f64.to_bits()).response.status
}

#[test]
fn created_type_is_listed_with_its_two_images() {
    let mut catalog = Catalog::new();
    assert_eq!(electronics(&mut catalog), 200);
    let page = get_product_types(&mut catalog, &query(None, Some(1), None)).ok().unwrap();
    assert_eq!(page.data.len(), 1);
    assert_eq!(page.data[0].name, "electronics");
    assert_eq!(
        page.data[0].images_path,
        vec![
            "http://localhost:2001/images/electronics/main/electronics_0.jpg".to_string(),
            "http://localhost:2001/images/electronics/main/electronics_1.jpg".to_string(),
        ]
    );
    assert_eq!(page.pagination.total_items, 1);
    assert_eq!(page.pagination.total_pages, 1);
    assert_eq!(page.pagination.current_page, 1);
    assert_eq!(page.pagination.items_per_page, 10);
}

#[test]
fn created_product_is_listed_under_its_type_without_images() {
    let mut catalog = Catalog::new();
    catalog.set_clock(1_700_000_000);
    assert_eq!(electronics(&mut catalog), 200);
    assert_eq!(phone(&mut catalog), 302);
    let type_id = catalog.type_rows()[0].id;
    let page =
        get_products(&mut catalog, &query(None, None, Some(&type_id.to_string()))).ok().unwrap();
    assert_eq!(page.data.len(), 1);
    let listed = &page.data[0];
    assert_eq!(listed.name_product, "phone");
    assert_eq!(f64::from_bits(listed.price_bits), 299.99);
    assert_eq!(listed.stock, 5);
    assert_eq!(listed.create_at, 1_700_000_000);
    assert!(listed.images_path.is_empty());
    assert_eq!(listed.products_type_id, Some(type_id));
    assert_eq!(listed.products_type_name, Some("electronics".to_string()));
}

#[test]
fn deleting_the_type_deletes_its_products() {
    let mut catalog = Catalog::new();
    assert_eq!(electronics(&mut catalog), 200);
    assert_eq!(phone(&mut catalog), 302);
    let type_id = catalog.type_rows()[0].id;
    let r = delete_product_type(&mut catalog, type_id);
    assert_eq!(r.response.status, 200);
    assert_eq!(r.response.body, "Product type deleted successfully");
    let uncategorized = get_products(&mut catalog, &query(None, None, Some("null"))).ok().unwrap();
    assert!(uncategorized.data.is_empty());
    let all = get_products(&mut catalog, &query(None, None, None)).ok().unwrap();
    assert!(all.data.is_empty());
    assert_eq!(all.pagination.total_items, 0);
    assert!(catalog.type_rows().is_empty());
    assert!(catalog.product_rows().is_empty());
    assert!(catalog.image_rows().is_empty());
}

#[test]
fn update_replaces_images_once() {
    let mut catalog = Catalog::new();
    assert_eq!(electronics(&mut catalog), 200);
    let id = catalog.type_rows()[0].id;
    let paths = vec!["a/b/x.jpg".to_string(), "a/b/y.jpg".to_string(), "a/b/z.jpg".to_string()];
    for _ in 0..2 {
        let r = update_product_type(
            &mut catalog,
            id,
            NewProductType { name: "gadgets".to_string(), images_path: paths.clone() },
        );
        assert_eq!(r.response.status, 200);
        assert_eq!(r.response.body, "Product type updated");
        let stored: Vec<String> =
            catalog.image_rows().into_iter().map(|row| row.image_path).collect();
        assert_eq!(stored, paths);
    }
    assert_eq!(catalog.type_rows()[0].name, "gadgets");
}

#[test]
fn unknown_type_name_is_rejected_and_nothing_written() {
    let mut catalog = Catalog::new();
    let mut upload = ProductUpload::new();
    upload.text_field("name", b"phone");
    upload.text_field("product_type_name", b"nowhere");
    let r = post_products(&mut catalog, upload, 0);
    assert_eq!(r.response.status, 400);
    assert_eq!(r.response.body, "Invalid product type name");
    assert!(catalog.product_rows().is_empty());

    assert_eq!(electronics(&mut catalog), 200);
    assert_eq!(phone(&mut catalog), 302);
    let id = catalog.product_rows()[0].id;
    let r = update_product(
        &mut catalog,
        id,
        NewProducts {
            name_product: "tablet".to_string(),
            price_bits: 1.5f64.to_bits(),
            detail: "{}".to_string(),
            images_path: vec!["p.jpg".to_string()],
            stock: 1,
            products_type_name: Some("nowhere".to_string()),
        },
    );
    assert_eq!(r.response.status, 400);
    assert_eq!(catalog.product_rows()[0].fields.name, "phone");
    assert_eq!(catalog.image_rows().len(), 2);
}

#[test]
fn deleting_a_product_leaves_the_rest() {
    let mut catalog = Catalog::new();
    assert_eq!(electronics(&mut catalog), 200);
    assert_eq!(phone(&mut catalog), 302);
    let id = catalog.product_rows()[0].id;
    let r = delete_product(&mut catalog, id);
    assert_eq!(r.response.status, 200);
    assert_eq!(r.response.body, "Product deleted successfully");
    assert!(catalog.product_rows().is_empty());
    assert_eq!(catalog.type_rows().len(), 1);
    assert_eq!(catalog.image_rows().len(), 2);
}

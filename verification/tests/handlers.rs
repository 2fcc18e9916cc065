use shop_catalog::handlers::product_type::{
    delete_product_type, get_product_types, post_product_types, update_product_type,
};
use shop_catalog::handlers::products::{delete_product, get_products, post_products, update_product};
use shop_catalog::models::{NewProductType, NewProducts, Querysearchandpage};
use shop_catalog::runner::run;
use shop_catalog::store::Catalog;
use shop_catalog::transaction::{Command, Failure, Outcome};
use shop_catalog::upload::{ProductUpload, TypeUpload};

fn page_query(search: Option<&str>, page: Option<i64>, type_id: Option<&str>) -> Querysearchandpage {
    Querysearchandpage {
        search: search.map(|s| s.to_string()),
        page,
        type_id: type_id.map(|s| s.to_string()),
    }
}

fn add_type(catalog: &mut Catalog, name: &str, images: usize) -> i64 {
    let mut upload = TypeUpload::new();
    upload.text_field("name", name.as_bytes());
    for _ in 0..images {
        upload.image_field();
    }
    assert_eq!(post_product_types(catalog, upload).response.status, 200);
    catalog.type_rows().last().unwrap().id
}

fn add_product(catalog: &mut Catalog, name: &str, kind: &str, images: usize) -> i64 {
    let mut upload = ProductUpload::new();
    upload.text_field("name", name.as_bytes());
    upload.text_field("product_type_name", kind.as_bytes());
    for _ in 0..images {
        upload.image_field();
    }
    assert_eq!(post_products(catalog, upload, 0).response.status, 302);
    catalog.product_rows().last().unwrap().id
}

fn new_product(name: &str, kind: Option<&str>, images: &[&str]) -> NewProducts {
    NewProducts {
        name_product: name.to_string(),
        price_bits: 9.5f64.to_bits(),
        detail: "{\"a\":1}".to_string(),
        images_path: images.iter().map(|s| s.to_string()).collect(),
        stock: 3,
        products_type_name: kind.map(|s| s.to_string()),
    }
}

#[test]
fn a_type_without_name_or_image_is_turned_down() {
    let mut catalog = Catalog::new();
    let mut upload = TypeUpload::new();
    upload.image_field();
    let r = post_product_types(&mut catalog, upload);
    assert_eq!((r.response.status, r.response.body.as_str()), (400, "Missing product type name"));
    let mut upload = TypeUpload::new();
    upload.text_field("name", b"toys");
    let r = post_product_types(&mut catalog, upload);
    assert_eq!((r.response.status, r.response.body.as_str()), (400, "At least one image is required"));
    assert!(catalog.type_rows().is_empty());
    assert!(catalog.image_rows().is_empty());
}

#[test]
fn pages_add_up_to_the_count() {
    let mut catalog = Catalog::new();
    for i in 0..23 {
        add_type(&mut catalog, &format!("type {}", i), 1);
    }
    add_type(&mut catalog, "other", 1);
    let first = get_product_types(&mut catalog, &page_query(Some("type"), None, None)).ok().unwrap();
    assert_eq!(first.pagination.total_items, 23);
    assert_eq!(first.pagination.total_pages, 3);
    let mut seen = Vec::new();
    for page in 1..=first.pagination.total_pages {
        let listed =
            get_product_types(&mut catalog, &page_query(Some("type"), Some(page), None)).ok().unwrap();
        assert_eq!(listed.pagination.total_items, 23);
        assert_eq!(listed.pagination.current_page, page);
        assert_eq!(listed.data.len(), if page < 3 { 10 } else { 3 });
        seen.extend(listed.data.into_iter().map(|t| t.id));
    }
    assert_eq!(seen, (1..=23).collect::<Vec<i64>>());
    let beyond = get_product_types(&mut catalog, &page_query(Some("type"), Some(4), None)).ok().unwrap();
    assert!(beyond.data.is_empty());
    let zero = get_product_types(&mut catalog, &page_query(Some("type"), Some(0), None)).ok().unwrap();
    assert_eq!(zero.pagination.current_page, 1);
    assert_eq!(zero.data.len(), 10);
    let negative =
        get_product_types(&mut catalog, &page_query(Some("type"), Some(-2), None)).ok().unwrap();
    assert_eq!(negative.pagination.current_page, -2);
    assert_eq!(negative.data[0].id, 1);
}

#[test]
fn product_pages_add_up_for_each_filter() {
    let mut catalog = Catalog::new();
    let toys = add_type(&mut catalog, "toys", 1);
    let food = add_type(&mut catalog, "food", 1);
    for i in 0..12 {
        add_product(&mut catalog, &format!("car {}", i), "toys", 0);
    }
    for i in 0..11 {
        add_product(&mut catalog, &format!("cake {}", i), "food", 0);
    }
    for i in 0..3 {
        add_product(&mut catalog, &format!("cap {}", i), "", 0);
    }
    let toys_text = toys.to_string();
    let food_text = food.to_string();
    let cases: Vec<(Option<&str>, Option<&str>, i64)> = vec![
        (None, None, 26),
        (Some("ca"), None, 26),
        (Some("car"), None, 12),
        (None, Some(&toys_text), 12),
        (None, Some(&food_text), 11),
        (Some("1"), Some(&food_text), 2),
        (None, Some("null"), 3),
        (None, Some("junk"), 26),
        (Some("nothing"), None, 0),
        (None, Some("99"), 0),
    ];
    for (search, type_id, count) in cases {
        let first = get_products(&mut catalog, &page_query(search, None, type_id)).ok().unwrap();
        assert_eq!(first.pagination.total_items, count);
        assert_eq!(first.pagination.total_pages, (count + 9) / 10);
        let mut listed = 0;
        for page in 1..=first.pagination.total_pages {
            let r = get_products(&mut catalog, &page_query(search, Some(page), type_id)).ok().unwrap();
            assert_eq!(r.pagination.total_items, count);
            listed += r.data.len() as i64;
        }
        assert_eq!(listed, count);
    }
}

#[test]
fn deleting_a_type_takes_its_products_and_all_their_images() {
    let mut catalog = Catalog::new();
    let toys = add_type(&mut catalog, "toys", 3);
    let food = add_type(&mut catalog, "food", 1);
    for name in ["car", "doll", "ball", "kite"] {
        add_product(&mut catalog, name, "toys", 2);
    }
    let cake = add_product(&mut catalog, "cake", "food", 2);
    let cap = add_product(&mut catalog, "cap", "", 1);
    assert_eq!(catalog.product_rows().len(), 6);
    assert_eq!(catalog.image_rows().len(), 3 + 1 + 4 * 2 + 2 + 1);
    let r = delete_product_type(&mut catalog, toys);
    assert_eq!(r.response.status, 200);
    let types: Vec<i64> = catalog.type_rows().into_iter().map(|t| t.id).collect();
    assert_eq!(types, vec![food]);
    let products: Vec<i64> = catalog.product_rows().into_iter().map(|p| p.id).collect();
    assert_eq!(products, vec![cake, cap]);
    let images = catalog.image_rows();
    assert_eq!(images.len(), 1 + 2 + 1);
    for image in &images {
        assert_ne!(image.product_type_id, Some(toys));
        assert!(image.product_id.map_or(true, |id| products.contains(&id)));
    }
    for product in catalog.product_rows() {
        assert_ne!(product.fields.products_type_id, Some(toys));
    }
}

#[test]
fn every_image_has_one_owner_after_every_write() {
    let mut catalog = Catalog::new();
    let check = |catalog: &Catalog| {
        for image in catalog.image_rows() {
            assert!(image.product_type_id.is_some() != image.product_id.is_some());
        }
    };
    let toys = add_type(&mut catalog, "toys", 2);
    check(&catalog);
    let car = add_product(&mut catalog, "car", "toys", 2);
    check(&catalog);
    update_product(&mut catalog, car, new_product("car", Some("toys"), &["a", "b", "c"]));
    check(&catalog);
    update_product_type(
        &mut catalog,
        toys,
        NewProductType { name: "toys".to_string(), images_path: vec!["t".to_string()] },
    );
    check(&catalog);
    assert_eq!(catalog.image_rows().len(), 4);
    delete_product(&mut catalog, car);
    check(&catalog);
    delete_product_type(&mut catalog, toys);
    check(&catalog);
    assert!(catalog.image_rows().is_empty());
}

#[test]
fn writes_to_a_missing_id_succeed_and_change_nothing() {
    let mut catalog = Catalog::new();
    let toys = add_type(&mut catalog, "toys", 1);
    let car = add_product(&mut catalog, "car", "toys", 1);
    let types = catalog.type_rows();
    let products = catalog.product_rows();
    let images = catalog.image_rows();
    let r = update_product_type(
        &mut catalog,
        toys + 5,
        NewProductType { name: "x".to_string(), images_path: vec!["x.jpg".to_string()] },
    );
    assert_eq!((r.response.status, r.response.body.as_str()), (200, "Product type updated"));
    let r = update_product(&mut catalog, car + 5, new_product("x", None, &["x.jpg"]));
    assert_eq!((r.response.status, r.response.body.as_str()), (200, "Product updated successfully"));
    let r = delete_product(&mut catalog, car + 5);
    assert_eq!((r.response.status, r.response.body.as_str()), (200, "Product deleted successfully"));
    let r = delete_product_type(&mut catalog, toys + 5);
    assert_eq!((r.response.status, r.response.body.as_str()), (200, "Product type deleted successfully"));
    assert_eq!(catalog.type_rows(), types);
    assert_eq!(catalog.product_rows(), products);
    assert_eq!(catalog.image_rows(), images);
}

#[test]
fn update_product_replaces_fields_type_and_images() {
    let mut catalog = Catalog::new();
    catalog.set_clock(10);
    let toys = add_type(&mut catalog, "toys", 1);
    let food = add_type(&mut catalog, "food", 1);
    let car = add_product(&mut catalog, "car", "toys", 2);
    catalog.set_clock(20);
    let r = update_product(&mut catalog, car, new_product("cake", Some("food"), &["c.jpg"]));
    assert_eq!(r.response.status, 200);
    let row = &catalog.product_rows()[0];
    assert_eq!(row.id, car);
    assert_eq!(row.created_at, 10);
    assert_eq!(row.fields.name, "cake");
    assert_eq!(row.fields.products_type_id, Some(food));
    assert_eq!(row.fields.stock, 3);
    assert_eq!(row.fields.detail, "{\"a\":1}");
    assert_eq!(f64::from_bits(row.fields.price_bits), 9.5);
    let paths: Vec<(Option<i64>, String)> =
        catalog.image_rows().into_iter().map(|i| (i.product_id, i.image_path)).collect();
    assert_eq!(
        paths.iter().filter(|(owner, _)| *owner == Some(car)).collect::<Vec<_>>(),
        vec![&(Some(car), "c.jpg".to_string())]
    );
    let r = update_product(&mut catalog, car, new_product("cake", None, &[]));
    assert_eq!(r.response.status, 200);
    assert_eq!(catalog.product_rows()[0].fields.products_type_id, None);
    assert_eq!(catalog.image_rows().len(), 2);
    let listed = get_products(&mut catalog, &page_query(None, None, Some("null"))).ok().unwrap();
    assert_eq!(listed.data.len(), 1);
    assert_eq!(listed.data[0].products_type_name, None);
    let _ = toys;
}

#[test]
fn a_write_inside_an_open_transaction_fails_to_begin() {
    let mut catalog = Catalog::new();
    let toys = add_type(&mut catalog, "toys", 1);
    assert!(catalog.begin());
    let r = delete_product_type(&mut catalog, toys);
    assert_eq!((r.response.status, r.response.body.as_str()), (500, "Failed to begin transaction"));
    assert_eq!(catalog.type_rows().len(), 1);
    let outcome = run(&mut catalog, &Command::DeleteProduct { id: 1 });
    assert_eq!(outcome.outcome, Outcome::Failed(Failure::Begin));
    assert!(catalog.rollback());
    assert_eq!(run(&mut catalog, &Command::DeleteType { id: toys }).outcome, Outcome::Done);
    assert!(catalog.type_rows().is_empty());
}

#[test]
fn products_list_only_images_under_the_root() {
    let mut catalog = Catalog::new();
    let car = add_product(&mut catalog, "car", "", 0);
    update_product(
        &mut catalog,
        car,
        new_product(
            "car",
            None,
            &["../databases/dbimages/other/car/car_0.jpg", "http://elsewhere/car.jpg"],
        ),
    );
    let listed = get_products(&mut catalog, &page_query(None, None, None)).ok().unwrap();
    assert_eq!(listed.data[0].images_path, vec!["/images/other/car/car_0.jpg".to_string()]);
    let toys = add_type(&mut catalog, "toys", 1);
    update_product_type(
        &mut catalog,
        toys,
        NewProductType {
            name: "toys".to_string(),
            images_path: vec![
                "../databases/dbimages/toys/main/toys_0.jpg".to_string(),
                "http://elsewhere/toys.jpg".to_string(),
            ],
        },
    );
    let listed = get_product_types(&mut catalog, &page_query(None, None, None)).ok().unwrap();
    assert_eq!(
        listed.data[0].images_path,
        vec![
            "http://localhost:2001/images/toys/main/toys_0.jpg".to_string(),
            "http://elsewhere/toys.jpg".to_string()
        ]
    );
}

#[test]
fn a_create_reports_the_files_it_saves() {
    let mut catalog = Catalog::new();
    let mut upload = TypeUpload::new();
    upload.image_field();
    upload.text_field("name", b"toys");
    upload.image_field();
    let r = post_product_types(&mut catalog, upload);
    assert_eq!(r.response.status, 200);
    assert_eq!(
        r.saved,
        vec![
            "../databases/dbimages/toys/main/toys_0.jpg".to_string(),
            "../databases/dbimages/toys/main/toys_1.jpg".to_string(),
        ]
    );
    assert!(r.removed.is_empty());
    let stored: Vec<String> = catalog.image_rows().into_iter().map(|i| i.image_path).collect();
    assert_eq!(stored, r.saved);

    let mut upload = ProductUpload::new();
    upload.text_field("name", b"car");
    upload.image_field();
    upload.text_field("product_type_name", b"toys");
    let r = post_products(&mut catalog, upload, 0);
    assert_eq!(r.response.status, 302);
    assert_eq!(r.saved, vec!["../databases/dbimages/toys/car/car_0.jpg".to_string()]);
    assert_eq!(catalog.image_rows()[2].image_path, "../databases/dbimages/toys/car/car_0.jpg");
    assert_eq!(catalog.image_rows()[2].product_id, Some(1));
}

#[test]
fn a_request_turned_down_saves_no_file() {
    let mut catalog = Catalog::new();
    let mut upload = TypeUpload::new();
    upload.image_field();
    upload.image_field();
    let r = post_product_types(&mut catalog, upload);
    assert_eq!(r.response.status, 400);
    assert!(r.saved.is_empty() && r.removed.is_empty());

    for kind in ["nowhere", "other", "null"] {
        let mut upload = ProductUpload::new();
        upload.text_field("name", b"car");
        upload.text_field("product_type_name", kind.as_bytes());
        upload.image_field();
        let r = post_products(&mut catalog, upload, 0);
        assert_eq!((r.response.status, r.response.body.as_str()), (400, "Invalid product type name"));
        assert!(r.saved.is_empty() && r.removed.is_empty());
    }
    assert!(catalog.product_rows().is_empty());
    assert!(catalog.image_rows().is_empty());
}

#[test]
fn a_type_named_other_is_a_type_like_any() {
    let mut catalog = Catalog::new();
    let other = add_type(&mut catalog, "other", 1);
    let cup = add_product(&mut catalog, "cup", "other", 1);
    assert_eq!(catalog.product_rows()[0].id, cup);
    assert_eq!(catalog.product_rows()[0].fields.products_type_id, Some(other));
}

#[test]
fn a_delete_reports_the_directory_it_removes() {
    let mut catalog = Catalog::new();
    let toys = add_type(&mut catalog, "toys", 2);
    let car = add_product(&mut catalog, "car", "toys", 1);
    let bare = add_product(&mut catalog, "bare", "toys", 0);
    let r = delete_product(&mut catalog, bare);
    assert_eq!(r.response.status, 200);
    assert!(r.removed.is_empty());
    let r = delete_product(&mut catalog, car);
    assert_eq!(r.removed, vec!["../databases/dbimages/toys/car".to_string()]);
    assert!(r.saved.is_empty());
    let r = delete_product_type(&mut catalog, toys);
    assert_eq!(r.removed, vec!["../databases/dbimages/toys".to_string()]);
    assert!(catalog.begin());
    let again = add_type_in_open_transaction(&mut catalog);
    assert_eq!(again, (500, vec!["../databases/dbimages/games/main/games_0.jpg".to_string()]));
}

fn add_type_in_open_transaction(catalog: &mut Catalog) -> (u16, Vec<String>) {
    let mut upload = TypeUpload::new();
    upload.text_field("name", b"games");
    upload.image_field();
    let r = post_product_types(catalog, upload);
    (r.response.status, r.saved)
}

#[test]
fn a_second_equal_update_is_answered_like_the_first() {
    let mut catalog = Catalog::new();
    let toys = add_type(&mut catalog, "toys", 1);
    let car = add_product(&mut catalog, "car", "toys", 2);
    let paths = ["x.jpg", "y.jpg"];
    for _ in 0..2 {
        let r = update_product(&mut catalog, car, new_product("car", Some("toys"), &paths));
        assert_eq!((r.response.status, r.response.body.as_str()), (200, "Product updated successfully"));
        let owned: Vec<String> = catalog
            .image_rows()
            .into_iter()
            .filter(|i| i.product_id == Some(car))
            .map(|i| i.image_path)
            .collect();
        assert_eq!(owned, paths);
        assert_eq!(catalog.image_rows().len(), 3);
    }
    let _ = toys;
}

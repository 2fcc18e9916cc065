use shop_catalog::pagination::TypeIdFilter;
use shop_catalog::rows::{ImageRow, ListedProduct, OwnedPath, ProductRow, Reply, TypeRow};
use shop_catalog::sql::{Owner, ProductFields, Statement};
use shop_catalog::store::Catalog;

fn fields(name: &str, type_id: Option<i64>) -> ProductFields {
    ProductFields {
        name: name.to_string(),
        price_bits: 1.5f64.to_bits(),
        detail: "{}".to_string(),
        stock: 1,
        products_type_id: type_id,
    }
}

fn written(id: i64, rows: u64) -> Reply {
    Reply::Written { last_insert_rowid: id, rows_affected: rows }
}

fn insert_type(c: &mut Catalog, name: &str) -> Reply {
    c.execute(&Statement::InsertType { name: name.to_string() })
}

fn insert_image(c: &mut Catalog, path: &str, owner: Owner) -> Reply {
    c.execute(&Statement::InsertImage { image_path: path.to_string(), owner })
}

#[test]
fn ids_start_at_one_and_ascend() {
    let mut c = Catalog::new();
    assert_eq!(insert_type(&mut c, "a"), written(1, 1));
    assert_eq!(insert_type(&mut c, "b"), written(2, 1));
    assert_eq!(c.execute(&Statement::DeleteType { id: 2 }), written(0, 1));
    assert_eq!(insert_type(&mut c, "c"), written(3, 1));
    assert_eq!(
        c.type_rows(),
        vec![
            TypeRow { id: 1, name: "a".to_string() },
            TypeRow { id: 3, name: "c".to_string() }
        ]
    );
}

#[test]
fn an_image_row_names_exactly_one_owner() {
    let mut c = Catalog::new();
    assert_eq!(insert_image(&mut c, "t.jpg", Owner::Type(4)), written(1, 1));
    assert_eq!(insert_image(&mut c, "p.jpg", Owner::Product(4)), written(2, 1));
    assert_eq!(
        c.image_rows(),
        vec![
            ImageRow {
                id: 1,
                image_path: "t.jpg".to_string(),
                product_type_id: Some(4),
                product_id: None
            },
            ImageRow {
                id: 2,
                image_path: "p.jpg".to_string(),
                product_type_id: None,
                product_id: Some(4)
            },
        ]
    );
    assert_eq!(
        c.execute(&Statement::ImagePaths { owner: Owner::Type(4) }),
        Reply::Paths(vec!["t.jpg".to_string()])
    );
    assert_eq!(
        c.execute(&Statement::ImagePaths { owner: Owner::Product(4) }),
        Reply::Paths(vec!["p.jpg".to_string()])
    );
    assert_eq!(c.execute(&Statement::DeleteImages { owner: Owner::Type(4) }), written(0, 1));
    assert_eq!(c.image_rows().len(), 1);
    assert_eq!(c.image_rows()[0].product_id, Some(4));
}

#[test]
fn rename_and_find_by_name() {
    let mut c = Catalog::new();
    insert_type(&mut c, "a");
    insert_type(&mut c, "b");
    insert_type(&mut c, "a");
    assert_eq!(
        c.execute(&Statement::FindTypeByName { name: "a".to_string() }),
        Reply::TypeId(Some(1))
    );
    assert_eq!(
        c.execute(&Statement::FindTypeByName { name: "b".to_string() }),
        Reply::TypeId(Some(2))
    );
    assert_eq!(
        c.execute(&Statement::FindTypeByName { name: "c".to_string() }),
        Reply::TypeId(None)
    );
    assert_eq!(c.execute(&Statement::RenameType { id: 1, name: "z".to_string() }), written(0, 1));
    assert_eq!(c.execute(&Statement::RenameType { id: 9, name: "y".to_string() }), written(0, 0));
    assert_eq!(
        c.execute(&Statement::FindTypeByName { name: "a".to_string() }),
        Reply::TypeId(Some(3))
    );
    assert_eq!(c.type_rows()[0], TypeRow { id: 1, name: "z".to_string() });
}

#[test]
fn products_are_written_and_read_with_their_type() {
    let mut c = Catalog::new();
    c.set_clock(77);
    insert_type(&mut c, "toys");
    assert_eq!(c.execute(&Statement::InsertProduct { product: fields("car", Some(1)) }), written(1, 1));
    c.set_clock(78);
    assert_eq!(c.execute(&Statement::InsertProduct { product: fields("cup", None) }), written(2, 1));
    assert_eq!(c.execute(&Statement::InsertProduct { product: fields("cart", Some(5)) }), written(3, 1));
    assert_eq!(
        c.execute(&Statement::UpdateProduct { id: 2, product: fields("mug", None) }),
        written(0, 1)
    );
    assert_eq!(
        c.execute(&Statement::UpdateProduct { id: 8, product: fields("mug", None) }),
        written(0, 0)
    );
    assert_eq!(
        c.product_rows()[1],
        ProductRow { id: 2, fields: fields("mug", None), created_at: 78 }
    );
    let page = |c: &mut Catalog, search: &str, filter| {
        c.execute(&Statement::PageOfProducts {
            search: search.to_string(),
            filter,
            limit: 10,
            offset: 0,
        })
    };
    let count = |c: &mut Catalog, search: &str, filter| {
        c.execute(&Statement::CountProducts { search: search.to_string(), filter })
    };
    assert_eq!(count(&mut c, "", TypeIdFilter::Unspecified), Reply::Count(3));
    assert_eq!(count(&mut c, "ca", TypeIdFilter::Unspecified), Reply::Count(2));
    assert_eq!(count(&mut c, "", TypeIdFilter::IsNull), Reply::Count(1));
    assert_eq!(count(&mut c, "", TypeIdFilter::Equal(1)), Reply::Count(1));
    assert_eq!(count(&mut c, "cup", TypeIdFilter::Equal(1)), Reply::Count(0));
    assert_eq!(
        page(&mut c, "ca", TypeIdFilter::Unspecified),
        Reply::Products(vec![
            ListedProduct {
                row: ProductRow { id: 1, fields: fields("car", Some(1)), created_at: 77 },
                products_type_name: Some("toys".to_string()),
            },
            ListedProduct {
                row: ProductRow { id: 3, fields: fields("cart", Some(5)), created_at: 78 },
                products_type_name: None,
            },
        ])
    );
    assert_eq!(
        page(&mut c, "", TypeIdFilter::IsNull),
        Reply::Products(vec![ListedProduct {
            row: ProductRow { id: 2, fields: fields("mug", None), created_at: 78 },
            products_type_name: None,
        }])
    );
    assert_eq!(c.execute(&Statement::DeleteProductsOfType { type_id: 5 }), written(0, 1));
    assert_eq!(c.execute(&Statement::DeleteProduct { id: 1 }), written(0, 1));
    assert_eq!(c.execute(&Statement::DeleteProduct { id: 1 }), written(0, 0));
    assert_eq!(c.product_rows().len(), 1);
}

#[test]
fn pages_are_windows_of_the_rows_found() {
    let mut c = Catalog::new();
    for i in 0..12 {
        insert_type(&mut c, &format!("t{}", i));
    }
    let page = |c: &mut Catalog, limit: i64, offset: i64| match c.execute(
        &Statement::PageOfTypes { search: "t".to_string(), limit, offset },
    ) {
        Reply::Types(rows) => rows.into_iter().map(|r| r.id).collect::<Vec<i64>>(),
        _ => panic!("no rows"),
    };
    assert_eq!(page(&mut c, 10, 0), (1..=10).collect::<Vec<i64>>());
    assert_eq!(page(&mut c, 10, 10), vec![11, 12]);
    assert_eq!(page(&mut c, 10, 20), Vec::<i64>::new());
    assert_eq!(page(&mut c, 10, -10), (1..=10).collect::<Vec<i64>>());
    assert_eq!(page(&mut c, 3, 4), vec![5, 6, 7]);
    assert_eq!(page(&mut c, 0, 0), Vec::<i64>::new());
    assert_eq!(page(&mut c, -1, 9), vec![10, 11, 12]);
    assert_eq!(page(&mut c, i64::MAX, i64::MAX), Vec::<i64>::new());
    assert_eq!(c.execute(&Statement::CountTypes { search: "t1".to_string() }), Reply::Count(3));
    assert_eq!(c.execute(&Statement::CountTypes { search: "".to_string() }), Reply::Count(12));
}

#[test]
fn images_are_read_for_a_list_of_owners() {
    let mut c = Catalog::new();
    insert_image(&mut c, "a.jpg", Owner::Type(2));
    insert_image(&mut c, "b.jpg", Owner::Type(1));
    insert_image(&mut c, "c.jpg", Owner::Product(1));
    insert_image(&mut c, "d.jpg", Owner::Type(3));
    insert_image(&mut c, "e.jpg", Owner::Type(1));
    let read = |c: &mut Catalog, ids: Vec<i64>, of_types: bool| {
        let statement = if of_types {
            shop_catalog::sql::images_of_types(ids).unwrap()
        } else {
            shop_catalog::sql::images_of_products(ids).unwrap()
        };
        c.execute(&statement)
    };
    let owned = |owner_id: i64, path: &str| OwnedPath { owner_id, image_path: path.to_string() };
    assert_eq!(
        read(&mut c, vec![1, 2], true),
        Reply::Images(vec![owned(2, "a.jpg"), owned(1, "b.jpg"), owned(1, "e.jpg")])
    );
    assert_eq!(read(&mut c, vec![1, 2], false), Reply::Images(vec![owned(1, "c.jpg")]));
    assert_eq!(read(&mut c, vec![], true), Reply::Images(vec![]));
}

#[test]
fn images_of_the_products_of_a_type_go_with_one_statement() {
    let mut c = Catalog::new();
    c.execute(&Statement::InsertProduct { product: fields("a", Some(1)) });
    c.execute(&Statement::InsertProduct { product: fields("b", Some(2)) });
    c.execute(&Statement::InsertProduct { product: fields("c", None) });
    insert_image(&mut c, "a.jpg", Owner::Product(1));
    insert_image(&mut c, "b.jpg", Owner::Product(2));
    insert_image(&mut c, "c.jpg", Owner::Product(3));
    insert_image(&mut c, "t.jpg", Owner::Type(1));
    insert_image(&mut c, "x.jpg", Owner::Product(9));
    assert_eq!(
        c.execute(&Statement::DeleteImagesOfProductsOfType { type_id: 1 }),
        written(0, 1)
    );
    let left: Vec<String> = c.image_rows().into_iter().map(|r| r.image_path).collect();
    assert_eq!(left, vec!["b.jpg", "c.jpg", "t.jpg", "x.jpg"]);
}

#[test]
fn a_transaction_is_kept_or_undone_as_a_whole() {
    let mut c = Catalog::new();
    insert_type(&mut c, "kept");
    assert!(!c.commit());
    assert!(!c.rollback());
    assert!(c.begin());
    assert!(!c.begin());
    insert_type(&mut c, "undone");
    insert_image(&mut c, "u.jpg", Owner::Type(2));
    assert_eq!(c.type_rows().len(), 2);
    assert!(c.rollback());
    assert_eq!(c.type_rows(), vec![TypeRow { id: 1, name: "kept".to_string() }]);
    assert!(c.image_rows().is_empty());
    assert!(c.begin());
    assert_eq!(insert_type(&mut c, "again"), written(2, 1));
    assert!(c.commit());
    assert!(!c.rollback());
    assert_eq!(c.type_rows().len(), 2);
}

use shop_catalog::listing::{images_statement, page_request, products_page, types_page};
use shop_catalog::models::{PaginationInfo, ProductType, Querysearchandpage};
use shop_catalog::pagination::TypeIdFilter;
use shop_catalog::rows::{ListedProduct, OwnedPath, ProductRow, Reply, TypeRow};
use shop_catalog::sql::{ProductFields, Statement};
use shop_catalog::transaction::Failure;

fn type_row(id: i64, name: &str) -> TypeRow {
    TypeRow { id, name: name.to_string() }
}

fn owned(owner_id: i64, path: &str) -> OwnedPath {
    OwnedPath { owner_id, image_path: path.to_string() }
}

fn listed(id: i64) -> ListedProduct {
    ListedProduct {
        row: ProductRow {
            id,
            fields: ProductFields {
                name: format!("p{}", id),
                price_bits: 0,
                detail: "{}".to_string(),
                stock: id,
                products_type_id: None,
            },
            created_at: 5,
        },
        products_type_name: None,
    }
}

#[test]
fn the_request_reads_the_query() {
    let request = page_request(&Querysearchandpage {
        search: Some("pho".to_string()),
        page: Some(0),
        type_id: Some("4".to_string()),
    });
    assert_eq!(request.search, "pho");
    assert_eq!(request.page, 1);
    assert_eq!(request.filter, TypeIdFilter::Equal(4));
    assert_eq!(request.count_types(), Statement::CountTypes { search: "pho".to_string() });
    assert_eq!(
        request.page_of_types(),
        Statement::PageOfTypes { search: "pho".to_string(), limit: 10, offset: 0 }
    );
    assert_eq!(
        request.count_products(),
        Statement::CountProducts { search: "pho".to_string(), filter: TypeIdFilter::Equal(4) }
    );
    let request =
        page_request(&Querysearchandpage { search: None, page: Some(3), type_id: None });
    assert_eq!(
        request.page_of_products(),
        Statement::PageOfProducts {
            search: String::new(),
            filter: TypeIdFilter::Unspecified,
            limit: 10,
            offset: 20
        }
    );
}

#[test]
fn images_are_asked_for_the_ids_of_the_page() {
    let rows = Reply::Types(vec![type_row(4, "a"), type_row(9, "b")]);
    assert_eq!(
        images_statement(&rows),
        Some(Statement::ImagesOfTypes { ids: vec![4, 9], ids_json: "[4,9]".to_string() })
    );
    let rows = Reply::Products(vec![listed(7)]);
    assert_eq!(
        images_statement(&rows),
        Some(Statement::ImagesOfProducts { ids: vec![7], ids_json: "[7]".to_string() })
    );
    assert_eq!(images_statement(&Reply::Types(vec![])), None);
    assert_eq!(images_statement(&Reply::Products(vec![])), None);
    assert_eq!(images_statement(&Reply::Failed), None);
    assert_eq!(images_statement(&Reply::Count(3)), None);
}

#[test]
fn images_go_to_their_owner_in_their_order() {
    let page = types_page(
        2,
        Reply::Count(12),
        Reply::Types(vec![type_row(4, "a"), type_row(9, "b"), type_row(10, "c")]),
        Some(Reply::Images(vec![
            owned(9, "../databases/dbimages/b/main/b_0.jpg"),
            owned(4, "../databases/dbimages/a/main/a_0.jpg"),
            owned(9, "plain.jpg"),
            owned(5, "../databases/dbimages/e/main/e_0.jpg"),
        ])),
    )
    .ok()
    .unwrap();
    assert_eq!(
        page.data,
        vec![
            ProductType {
                id: 4,
                name: "a".to_string(),
                images_path: vec!["http://localhost:2001/images/a/main/a_0.jpg".to_string()]
            },
            ProductType {
                id: 9,
                name: "b".to_string(),
                images_path: vec![
                    "http://localhost:2001/images/b/main/b_0.jpg".to_string(),
                    "plain.jpg".to_string()
                ]
            },
            ProductType { id: 10, name: "c".to_string(), images_path: vec![] },
        ]
    );
    assert_eq!(
        page.pagination,
        PaginationInfo { total_items: 12, items_per_page: 10, current_page: 2, total_pages: 2 }
    );
}

#[test]
fn of_two_rows_with_one_id_the_first_takes_the_images() {
    let page = types_page(
        1,
        Reply::Count(2),
        Reply::Types(vec![type_row(4, "a"), type_row(4, "b")]),
        Some(Reply::Images(vec![owned(4, "x.jpg")])),
    )
    .ok()
    .unwrap();
    assert_eq!(page.data[0].images_path, vec!["x.jpg".to_string()]);
    assert!(page.data[1].images_path.is_empty());
}

#[test]
fn a_listing_without_an_image_answer_has_no_images() {
    for images in [None, Some(Reply::Failed), Some(Reply::Count(1))] {
        let page =
            types_page(1, Reply::Count(1), Reply::Types(vec![type_row(4, "a")]), images).ok().unwrap();
        assert_eq!(page.data.len(), 1);
        assert!(page.data[0].images_path.is_empty());
    }
}

#[test]
fn a_listing_without_count_or_rows_fails() {
    let rows = || Reply::Types(vec![type_row(4, "a")]);
    assert_eq!(types_page(1, Reply::Failed, rows(), None).err(), Some(Failure::Query));
    assert_eq!(types_page(1, Reply::Count(1), Reply::Failed, None).err(), Some(Failure::Query));
    assert_eq!(
        types_page(1, Reply::Count(1), Reply::Products(vec![]), None).err(),
        Some(Failure::Query)
    );
    assert_eq!(
        products_page(1, Reply::Count(1), Reply::Types(vec![]), None).err(),
        Some(Failure::Query)
    );
    assert_eq!(products_page(1, Reply::Paths(vec![]), Reply::Products(vec![]), None).err(), Some(Failure::Query));
}

#[test]
fn products_are_listed_with_their_fields() {
    let page = products_page(
        1,
        Reply::Count(2),
        Reply::Products(vec![listed(1), listed(2)]),
        Some(Reply::Images(vec![
            owned(2, "../databases/dbimages/other/p2/p2_0.jpg"),
            owned(2, "outside.jpg"),
            owned(1, "../databases/dbimages/other/p1/p1_0.jpg"),
        ])),
    )
    .ok()
    .unwrap();
    assert_eq!(page.data[0].id, 1);
    assert_eq!(page.data[0].name_product, "p1");
    assert_eq!(page.data[0].stock, 1);
    assert_eq!(page.data[0].create_at, 5);
    assert_eq!(page.data[0].images_path, vec!["/images/other/p1/p1_0.jpg".to_string()]);
    assert_eq!(page.data[1].images_path, vec!["/images/other/p2/p2_0.jpg".to_string()]);
    assert_eq!(page.pagination.total_pages, 1);
}

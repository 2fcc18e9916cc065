use shop_catalog::pagination::TypeIdFilter;
use shop_catalog::sql::{
    images_of_products, images_of_types, images_with_json, Expected, Owner, ProductFields,
    SqlValue, Statement,
};

fn text(s: &str) -> SqlValue {
    SqlValue::Text(s.to_string())
}

#[test]
fn ids_are_bound_as_a_json_array() {
    let statement = images_of_types(vec![3, -1, 20]).unwrap();
    assert_eq!(
        statement,
        Statement::ImagesOfTypes { ids: vec![3, -1, 20], ids_json: "[3,-1,20]".to_string() }
    );
    assert_eq!(statement.values(), vec![text("[3,-1,20]")]);
    assert_eq!(
        statement.sql(),
        "SELECT product_type_id, image_path FROM images WHERE product_type_id IN (SELECT value FROM json_each(?)) ORDER BY product_type_id, id"
    );
    let statement = images_of_products(vec![i64::MIN, i64::MAX]).unwrap();
    assert_eq!(
        statement.values(),
        vec![text("[-9223372036854775808,9223372036854775807]")]
    );
    assert_eq!(
        statement.sql(),
        "SELECT product_id, image_path FROM images WHERE product_id IN (SELECT value FROM json_each(?)) ORDER BY product_id, id"
    );
    assert_eq!(images_of_types(vec![]).unwrap().values(), vec![text("[]")]);
    assert_eq!(images_of_types(vec![5]).unwrap().values(), vec![text("[5]")]);
}

#[test]
fn type_statements() {
    let s = Statement::InsertType { name: "toys".to_string() };
    assert_eq!(s.sql(), "INSERT INTO products_type (products_type_name) VALUES (?)");
    assert_eq!(s.values(), vec![text("toys")]);
    let s = Statement::RenameType { id: 4, name: "toys".to_string() };
    assert_eq!(s.sql(), "UPDATE products_type SET products_type_name = ? WHERE id = ?");
    assert_eq!(s.values(), vec![text("toys"), SqlValue::Integer(4)]);
    let s = Statement::DeleteType { id: 4 };
    assert_eq!(s.sql(), "DELETE FROM products_type WHERE id = ?");
    assert_eq!(s.values(), vec![SqlValue::Integer(4)]);
    let s = Statement::FindTypeByName { name: "toys".to_string() };
    assert_eq!(s.sql(), "SELECT id FROM products_type WHERE products_type_name = ?");
    assert_eq!(s.values(), vec![text("toys")]);
}

#[test]
fn product_statements() {
    let fields = ProductFields {
        name: "phone".to_string(),
        price_bits: 299.99f64.to_bits(),
        detail: "{}".to_string(),
        stock: 5,
        products_type_id: Some(2),
    };
    let bound = vec![
        text("phone"),
        SqlValue::Real(299.99f64.to_bits()),
        text("{}"),
        SqlValue::Integer(5),
        SqlValue::Integer(2),
    ];
    let s = Statement::InsertProduct { product: fields.clone() };
    assert_eq!(
        s.sql(),
        "INSERT INTO products (name_products, price, detail, stock, products_type_id) VALUES (?, ?, ?, ?, ?)"
    );
    assert_eq!(s.values(), bound);
    let s = Statement::UpdateProduct { id: 9, product: fields.clone() };
    assert_eq!(
        s.sql(),
        "UPDATE products SET name_products = ?, price = ?, detail = ?, stock = ?, products_type_id = ? WHERE id = ?"
    );
    let mut with_id = bound.clone();
    with_id.push(SqlValue::Integer(9));
    assert_eq!(s.values(), with_id);
    let untyped = ProductFields { products_type_id: None, ..fields };
    assert_eq!(Statement::InsertProduct { product: untyped }.values()[4], SqlValue::Null);
    let s = Statement::DeleteProduct { id: 9 };
    assert_eq!(s.sql(), "DELETE FROM products WHERE id = ?");
    assert_eq!(s.values(), vec![SqlValue::Integer(9)]);
    let s = Statement::DeleteProductsOfType { type_id: 2 };
    assert_eq!(s.sql(), "DELETE FROM products WHERE products_type_id = ?");
    assert_eq!(s.values(), vec![SqlValue::Integer(2)]);
}

#[test]
fn image_statements_name_one_owner_column() {
    let s = Statement::InsertImage { image_path: "p.jpg".to_string(), owner: Owner::Type(2) };
    assert_eq!(s.sql(), "INSERT INTO images (image_path, product_type_id) VALUES (?, ?)");
    assert_eq!(s.values(), vec![text("p.jpg"), SqlValue::Integer(2)]);
    let s = Statement::InsertImage { image_path: "p.jpg".to_string(), owner: Owner::Product(3) };
    assert_eq!(s.sql(), "INSERT INTO images (image_path, product_id) VALUES (?, ?)");
    assert_eq!(s.values(), vec![text("p.jpg"), SqlValue::Integer(3)]);
    let s = Statement::DeleteImages { owner: Owner::Type(2) };
    assert_eq!(s.sql(), "DELETE FROM images WHERE product_type_id = ?");
    assert_eq!(s.values(), vec![SqlValue::Integer(2)]);
    let s = Statement::DeleteImages { owner: Owner::Product(3) };
    assert_eq!(s.sql(), "DELETE FROM images WHERE product_id = ?");
    assert_eq!(s.values(), vec![SqlValue::Integer(3)]);
    let s = Statement::DeleteImagesOfProductsOfType { type_id: 2 };
    assert_eq!(
        s.sql(),
        "DELETE FROM images WHERE product_id IN (SELECT id FROM products WHERE products_type_id = ?)"
    );
    assert_eq!(s.values(), vec![SqlValue::Integer(2)]);
    let s = Statement::ImagePaths { owner: Owner::Type(2) };
    assert_eq!(s.sql(), "SELECT image_path FROM images WHERE product_type_id = ?");
    assert_eq!(s.values(), vec![SqlValue::Integer(2)]);
    let s = Statement::ImagePaths { owner: Owner::Product(3) };
    assert_eq!(s.sql(), "SELECT image_path FROM images WHERE product_id = ?");
    assert_eq!(s.values(), vec![SqlValue::Integer(3)]);
}

#[test]
fn count_and_page_share_their_where_clause() {
    let where_types = " WHERE pt.products_type_name LIKE '%' || ? || '%'";
    let count = Statement::CountTypes { search: "a".to_string() };
    let page = Statement::PageOfTypes { search: "a".to_string(), limit: 10, offset: 20 };
    assert_eq!(count.sql(), format!("SELECT COUNT(*) FROM products_type pt{}", where_types));
    assert_eq!(
        page.sql(),
        format!(
            "SELECT pt.id, pt.products_type_name FROM products_type pt{} ORDER BY pt.id LIMIT ? OFFSET ?",
            where_types
        )
    );
    assert_eq!(count.values(), vec![text("a")]);
    assert_eq!(page.values(), vec![text("a"), SqlValue::Integer(10), SqlValue::Integer(20)]);

    let head = "SELECT p.id, p.name_products, p.price, p.detail, p.stock, p.created_at, p.products_type_id, pt.products_type_name FROM products p LEFT JOIN products_type pt ON p.products_type_id = pt.id";
    for (filter, clause, extra) in [
        (TypeIdFilter::Unspecified, "", vec![]),
        (TypeIdFilter::IsNull, " AND p.products_type_id IS NULL", vec![]),
        (TypeIdFilter::Equal(6), " AND p.products_type_id = ?", vec![SqlValue::Integer(6)]),
    ] {
        let predicate = format!(" WHERE p.name_products LIKE '%' || ? || '%'{}", clause);
        let count = Statement::CountProducts { search: "x".to_string(), filter };
        let page =
            Statement::PageOfProducts { search: "x".to_string(), filter, limit: 10, offset: 0 };
        assert_eq!(count.sql(), format!("SELECT COUNT(*) FROM products p{}", predicate));
        assert_eq!(page.sql(), format!("{}{} ORDER BY p.id LIMIT ? OFFSET ?", head, predicate));
        let mut bound = vec![text("x")];
        bound.extend(extra);
        assert_eq!(count.values(), bound);
        bound.push(SqlValue::Integer(10));
        bound.push(SqlValue::Integer(0));
        assert_eq!(page.values(), bound);
    }
}

#[test]
fn each_statement_says_what_it_expects() {
    use_expected(Statement::InsertType { name: String::new() }, Expected::Written);
    use_expected(Statement::DeleteImages { owner: Owner::Type(1) }, Expected::Written);
    use_expected(Statement::DeleteProductsOfType { type_id: 1 }, Expected::Written);
    use_expected(Statement::FindTypeByName { name: String::new() }, Expected::TypeId);
    use_expected(Statement::ImagePaths { owner: Owner::Product(1) }, Expected::Paths);
    use_expected(Statement::CountTypes { search: String::new() }, Expected::Count);
    use_expected(
        Statement::CountProducts { search: String::new(), filter: TypeIdFilter::IsNull },
        Expected::Count,
    );
    use_expected(
        Statement::PageOfTypes { search: String::new(), limit: 1, offset: 0 },
        Expected::Types,
    );
    use_expected(
        Statement::PageOfProducts {
            search: String::new(),
            filter: TypeIdFilter::IsNull,
            limit: 1,
            offset: 0,
        },
        Expected::Products,
    );
    use_expected(images_of_types(vec![1]).unwrap(), Expected::ImagesOfTypes);
    use_expected(images_of_products(vec![1]).unwrap(), Expected::ImagesOfProducts);
}

fn use_expected(statement: Statement, expected: Expected) {
    assert_eq!(statement.expects(), expected);
}

#[test]
fn the_images_statement_carries_the_json_it_is_given() {
    assert_eq!(
        images_with_json(vec![2, 3], Some("[2,3]".to_string()), true),
        Some(Statement::ImagesOfTypes { ids: vec![2, 3], ids_json: "[2,3]".to_string() })
    );
    assert_eq!(
        images_with_json(vec![2, 3], Some("[2,3]".to_string()), false),
        Some(Statement::ImagesOfProducts { ids: vec![2, 3], ids_json: "[2,3]".to_string() })
    );
    assert_eq!(images_with_json(vec![2, 3], None, true), None);
    assert_eq!(images_with_json(vec![], None, false), None);
}

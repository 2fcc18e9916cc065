use shop_catalog::transaction::{Command, ProductDraft};
use shop_catalog::upload::{field_text, is_image_field, ProductUpload, TypeUpload};

#[test]
fn field_text_is_utf8_or_empty() {
    assert_eq!(field_text(b"electronics"), "electronics");
    assert_eq!(field_text("ประเภท".as_bytes()), "ประเภท");
    assert_eq!(field_text(b""), "");
    assert_eq!(field_text(&[0xff, 0xfe]), "");
    assert_eq!(field_text(&[b'a', 0xc3]), "");
}

#[test]
fn image_fields_are_known_by_name() {
    assert!(is_image_field("main_image"));
    assert!(is_image_field("main_image[]"));
    assert!(!is_image_field("main_image[0]"));
    assert!(!is_image_field("name"));
    assert!(!is_image_field(""));
}

#[test]
fn type_form_counts_its_images_whenever_they_come() {
    let mut upload = TypeUpload::new();
    assert_eq!(upload.image_field(), 0);
    upload.text_field("ignored", b"x");
    upload.text_field("name", b"toys");
    assert_eq!(upload.image_field(), 1);
    assert_eq!(upload.images, 2);
    assert_eq!(upload.into_command(), Command::CreateType { name: "toys".to_string(), images: 2 });
}

#[test]
fn type_form_with_bad_name_bytes_has_no_name() {
    let mut upload = TypeUpload::new();
    upload.text_field("name", b"toys");
    upload.text_field("name", &[0xff]);
    assert_eq!(upload.name, "");
}

#[test]
fn the_count_of_images_stops_at_the_largest_number() {
    let mut upload = TypeUpload { name: String::new(), images: usize::MAX };
    assert_eq!(upload.image_field(), usize::MAX);
    assert_eq!(upload.images, usize::MAX);
}

#[test]
fn product_form_keeps_its_fields() {
    let mut upload = ProductUpload::new();
    upload.text_field("name", b"phone");
    upload.text_field("price", b"299.99");
    upload.text_field("detail", b"{\"color\":\"black\"}");
    upload.text_field("stock", b"5");
    upload.text_field("product_type_name", b"electronics");
    upload.text_field("unknown", b"x");
    assert_eq!(upload.image_field(), 0);
    assert_eq!(upload.price_text, "299.99");
    assert_eq!(
        upload.into_command(299.99f64.to_bits()),
        Command::CreateProduct {
            product: ProductDraft {
                name: "phone".to_string(),
                price_bits: 299.99f64.to_bits(),
                detail: "{\"color\":\"black\"}".to_string(),
                stock: 5,
                products_type_name: Some("electronics".to_string()),
            },
            images: 1,
        }
    );
}

#[test]
fn product_form_reads_stock_or_zero() {
    let mut upload = ProductUpload::new();
    upload.text_field("stock", b"12");
    assert_eq!(upload.stock, 12);
    upload.text_field("stock", b"-3");
    assert_eq!(upload.stock, -3);
    upload.text_field("stock", b"many");
    assert_eq!(upload.stock, 0);
    upload.text_field("stock", b"7");
    upload.text_field("stock", b"2147483648");
    assert_eq!(upload.stock, 0);
    upload.text_field("stock", b"7");
    upload.text_field("stock", &[0xff]);
    assert_eq!(upload.stock, 0);
}

#[test]
fn a_product_form_without_type_name_names_no_type() {
    let kind = |text: &[u8]| {
        let mut upload = ProductUpload::new();
        upload.text_field("product_type_name", text);
        match upload.into_command(0) {
            Command::CreateProduct { product, .. } => product.products_type_name,
            _ => panic!("another command"),
        }
    };
    assert_eq!(kind(b""), None);
    assert_eq!(kind(&[0xff]), None);
    assert_eq!(kind(b"toys"), Some("toys".to_string()));
    assert_eq!(kind(b"other"), Some("other".to_string()));
    assert_eq!(kind(b"null"), Some("null".to_string()));
    assert_eq!(ProductUpload::new().into_command(0), Command::CreateProduct {
        product: ProductDraft {
            name: String::new(),
            price_bits: 0,
            detail: String::new(),
            stock: 0,
            products_type_name: None,
        },
        images: 0,
    });
}

#[test]
fn forms_know_their_text_parts() {
    assert!(TypeUpload::reads("name"));
    assert!(!TypeUpload::reads("price"));
    assert!(!TypeUpload::reads("main_image"));
    for field in ["name", "price", "detail", "stock", "product_type_name"] {
        assert!(ProductUpload::reads(field));
    }
    assert!(!ProductUpload::reads("main_image[]"));
    assert!(!ProductUpload::reads(""));
}

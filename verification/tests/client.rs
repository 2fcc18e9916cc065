use shop_catalog::client::{
    accepted, blank, delete_id, image_url, page_after, product_type_url, product_url,
    products_query, types_url, Param,
};

fn param(name: &str, value: &str) -> Param {
    Param { name: name.to_string(), value: value.to_string() }
}

fn some(text: &str) -> Option<String> {
    Some(text.to_string())
}

#[test]
fn products_query_names_page_search_and_filter() {
    assert_eq!(products_query(1, &None, &None), vec![param("page", "1")]);
    assert_eq!(products_query(12, &some(""), &None), vec![param("page", "12")]);
    assert_eq!(
        products_query(2, &some("pho ne"), &some("null")),
        vec![param("page", "2"), param("search", "pho ne"), param("type_id", "null")]
    );
    assert_eq!(
        products_query(2, &some(" "), &some("+007")),
        vec![param("page", "2"), param("search", " "), param("type_id", "7")]
    );
    assert_eq!(
        products_query(0, &None, &some("-12")),
        vec![param("page", "0"), param("type_id", "-12")]
    );
    assert_eq!(products_query(3, &None, &some("abc")), vec![param("page", "3")]);
    assert_eq!(products_query(3, &None, &some("")), vec![param("page", "3")]);
    assert_eq!(
        products_query(u32::MAX, &None, &None),
        vec![param("page", "4294967295")]
    );
}

#[test]
fn blank_is_white_space_only() {
    assert!(blank(""));
    assert!(blank(" \t\r\n"));
    assert!(blank("\u{a0}\u{3000}\u{2003}\u{85}\u{1680}\u{2028}\u{2029}\u{202f}\u{205f}\u{b}\u{c}"));
    assert!(!blank(" a "));
    assert!(!blank("\u{200b}"));
    assert!(!blank("\u{feff}"));
    for c in (0u32..0x3100).filter_map(char::from_u32) {
        assert_eq!(blank(&c.to_string()), c.is_whitespace(), "{:?}", c);
    }
}

#[test]
fn types_url_encodes_the_search_term() {
    assert_eq!(types_url("http://h", 1, &None), "http://h/api/product-types?page=1");
    assert_eq!(types_url("http://h", 3, &some("  ")), "http://h/api/product-types?page=3");
    assert_eq!(
        types_url("http://h", 2, &some("this that")),
        "http://h/api/product-types?page=2&search=this%20that"
    );
    assert_eq!(
        types_url("unknown", 2, &some("a-b_c.d~e/f&g=h")),
        "unknown/api/product-types?page=2&search=a-b_c.d~e%2Ff%26g%3Dh"
    );
    assert_eq!(
        types_url("", 1, &some("👾 Exterminate!")),
        "/api/product-types?page=1&search=%F0%9F%91%BE%20Exterminate%21"
    );
    assert_eq!(
        types_url("", 1, &some(" x")),
        "/api/product-types?page=1&search=%20x"
    );
}

#[test]
fn item_urls_end_in_the_id() {
    assert_eq!(product_url("http://h", 15), "http://h/api/products/15");
    assert_eq!(product_type_url("http://h", 0), "http://h/api/product-types/0");
    assert_eq!(image_url("images/other/phone_0.jpg"), "http://localhost:2001/images/other/phone_0.jpg");
}

#[test]
fn pages_are_walked_to_the_last() {
    assert_eq!(page_after(1, 3), Some(2));
    assert_eq!(page_after(2, 3), Some(3));
    assert_eq!(page_after(3, 3), None);
    assert_eq!(page_after(1, 0), None);
    assert_eq!(page_after(5, 3), None);
    assert_eq!(page_after(u32::MAX, u32::MAX), None);
    assert_eq!(page_after(u32::MAX - 1, u32::MAX), Some(u32::MAX));
}

#[test]
fn success_is_two_hundred_or_the_redirect() {
    for status in [200u16, 201, 204, 299, 302] {
        assert!(accepted(status), "{}", status);
    }
    for status in [0u16, 100, 199, 300, 301, 303, 400, 404, 500] {
        assert!(!accepted(status), "{}", status);
    }
}

#[test]
fn delete_id_is_an_unsigned_number() {
    assert_eq!(delete_id(&None), None);
    assert_eq!(delete_id(&some("15")), Some(15));
    assert_eq!(delete_id(&some("+15")), Some(15));
    assert_eq!(delete_id(&some("18446744073709551615")), Some(u64::MAX));
    assert_eq!(delete_id(&some("18446744073709551616")), None);
    assert_eq!(delete_id(&some("-1")), None);
    assert_eq!(delete_id(&some("-0")), None);
    assert_eq!(delete_id(&some("")), None);
    assert_eq!(delete_id(&some("x")), None);
}

#[test]
fn a_type_form_needs_name_and_image() {
    use_refusal("", 0, Some("Missing product type name"));
    use_refusal("", 2, Some("Missing product type name"));
    use_refusal("toys", 0, Some("No images uploaded"));
    use_refusal("toys", 1, None);
}

fn use_refusal(name: &str, images: usize, expected: Option<&str>) {
    assert_eq!(shop_catalog::client::type_form_refusal(name, images), expected);
}

//! The caller's side of the catalog service: the addresses and parameters
//! of its requests, the pages to fetch, and what counts as success.

use crate::rows::push_deep;
use crate::text::{
    chars_of, decimal_digits, decimal_string, decimal_text, integer_within, natural_within,
    parse_i64, parse_u64, same_text, signed_decimal_string,
};
use vstd::prelude::*;
use vstd::string::*;

verus! {

/// The figures of a page as the service reports them.
#[derive(Clone, Copy, Debug, PartialEq, Eq, Structural)]
pub struct Pagination {
    pub total_items: u32,
    pub items_per_page: u32,
    pub current_page: u32,
    pub total_pages: u32,
}

/// One page of a listing as the service reports it.
#[derive(Clone, Debug, PartialEq, Eq)]
pub struct ApiResponse<T> {
    pub data: Vec<T>,
    pub pagination: Pagination,
}

/// A product as the service reports it. The price is the bit pattern of its
/// double-precision value and the detail the text of its JSON document.
#[derive(Clone, Debug, PartialEq, Eq)]
pub struct Products {
    pub id: i32,
    pub name_product: String,
    pub price_bits: u64,
    pub detail: String,
    pub images_path: Vec<String>,
    pub stock: i32,
    pub create_at: String,
    pub products_type_id: Option<i32>,
    pub products_type_name: Option<String>,
}

/// A product type as the service reports it.
#[derive(Clone, Debug, PartialEq, Eq)]
pub struct ProductType {
    pub id: i64,
    pub name: String,
    pub images_path: Vec<String>,
}

/// The query of a page of the site.
#[derive(Clone, Debug, PartialEq, Eq)]
pub struct PageQuery {
    pub page: Option<u32>,
    pub search: Option<String>,
    pub type_id: Option<String>,
}

/// A parameter of a request: its name and its value.
#[derive(Clone, Debug, PartialEq, Eq)]
pub struct Param {
    pub name: String,
    pub value: String,
}

impl DeepView for Param {
    type V = (Seq<char>, Seq<char>);

    open spec fn deep_view(&self) -> (Seq<char>, Seq<char>) {
        (self.name@, self.value@)
    }
}

/// The value of the `type_id` parameter that a filter text asks for: `null`
/// as it is, a decimal integer in its shortest form, and nothing for any
/// other text.
pub open spec fn type_id_param(type_id: Seq<char>) -> Option<Seq<char>> {
    if type_id == "null"@ {
        Some("null"@)
    } else {
        match integer_within(type_id, i64::MIN as int, i64::MAX as int) {
            Some(id) => Some(decimal_text(id)),
            None => None,
        }
    }
}

/// The parameters of a request for a page of products: the page, the
/// search term unless it is empty, and the type filter where it is one.
pub open spec fn products_params(
    page: u32,
    search: Option<Seq<char>>,
    type_id: Option<Seq<char>>,
) -> Seq<(Seq<char>, Seq<char>)> {
    let first = seq![("page"@, decimal_digits(page as nat))];
    let second = match search {
        Some(term) => if term.len() > 0 {
            first.push(("search"@, term))
        } else {
            first
        },
        None => first,
    };
    match type_id {
        Some(text) => match type_id_param(text) {
            Some(value) => second.push(("type_id"@, value)),
            None => second,
        },
        None => second,
    }
}

/// The parameters of a request for a page of products.
pub fn products_query(page: u32, search: &Option<String>, type_id: &Option<String>) -> (params:
    Vec<Param>)
    ensures
        params.deep_view() == products_params(page, search.deep_view(), type_id.deep_view()),
{
    let mut params: Vec<Param> = Vec::new();
    assert(params.deep_view() =~= Seq::empty());
    push_deep(
        &mut params,
        Param { name: String::from_str("page"), value: decimal_string(page as u64) },
    );
    assert(params.deep_view() =~= seq![("page"@, decimal_digits(page as nat))]);
    match search {
        Some(term) => {
            if term.as_str().unicode_len() > 0 {
                push_deep(
                    &mut params,
                    Param { name: String::from_str("search"), value: term.clone() },
                );
            }
        },
        None => {},
    }
    match type_id {
        Some(text) => {
            if same_text(text.as_str(), "null") {
                push_deep(
                    &mut params,
                    Param { name: String::from_str("type_id"), value: String::from_str("null") },
                );
            } else {
                match parse_i64(text.as_str()) {
                    Some(id) => {
                        push_deep(
                            &mut params,
                            Param {
                                name: String::from_str("type_id"),
                                value: signed_decimal_string(id),
                            },
                        );
                    },
                    None => {},
                }
            }
        },
        None => {},
    }
    params
}

/// The characters that count as white space.
pub open spec fn is_space(c: char) -> bool {
    let code = c as u32;
    ||| 9 <= code <= 13
    ||| code == 0x20
    ||| code == 0x85
    ||| code == 0xA0
    ||| code == 0x1680
    ||| 0x2000 <= code <= 0x200A
    ||| code == 0x2028
    ||| code == 0x2029
    ||| code == 0x202F
    ||| code == 0x205F
    ||| code == 0x3000
}

/// A text of white space only, or of nothing.
pub open spec fn is_blank(text: Seq<char>) -> bool {
    forall|i: int| 0 <= i < text.len() ==> is_space(#[trigger] text[i])
}

/// Whether a text holds nothing but white space.
pub fn blank(text: &str) -> (b: bool)
    ensures
        b == is_blank(text@),
{
    let v = chars_of(text);
    let mut i: usize = 0;
    while i < v.len()
        invariant
            i <= v.len(),
            v@ == text@,
            forall|k: int| 0 <= k < i ==> is_space(#[trigger] v@[k]),
        decreases v.len() - i,
    {
        let code: u32 = v[i] as u32;
        let space = (9 <= code && code <= 13) || code == 0x20 || code == 0x85 || code == 0xA0
            || code == 0x1680 || (0x2000 <= code && code <= 0x200A) || code == 0x2028 || code
            == 0x2029 || code == 0x202F || code == 0x205F || code == 0x3000;
        if !space {
            assert(!is_space(v@[i as int]));
            return false;
        }
        i = i + 1;
    }
    true
}

/// Bytes that stand for themselves in an address: letters, digits and
/// `-`, `.`, `_`, `~`.
pub open spec fn is_unreserved(b: u8) -> bool {
    ||| 0x30 <= b <= 0x39
    ||| 0x41 <= b <= 0x5A
    ||| 0x61 <= b <= 0x7A
    ||| b == 0x2D
    ||| b == 0x2E
    ||| b == 0x5F
    ||| b == 0x7E
}

/// The sixteen hexadecimal digits, letters in upper case.
pub open spec fn hex_digit(d: int) -> char {
    seq!['0', '1', '2', '3', '4', '5', '6', '7', '8', '9', 'A', 'B', 'C', 'D', 'E', 'F'][d]
}

/// Each byte as itself where it is unreserved, else as `%` and its two
/// hexadecimal digits in upper case.
pub open spec fn percent_encoded(bytes: Seq<u8>) -> Seq<char>
    decreases bytes.len(),
{
    if bytes.len() == 0 {
        Seq::empty()
    } else {
        let b = bytes.last();
        percent_encoded(bytes.drop_last()) + if is_unreserved(b) {
            seq![b as char]
        } else {
            seq!['%', hex_digit(b as int / 16), hex_digit(b as int % 16)]
        }
    }
}

/// `urlencoding::encode`: the bytes of the text in UTF-8, each unreserved
/// byte as it is and every other as `%` with two upper-case hexadecimal
/// digits.
#[verifier::external_body]
fn url_encoded(text: &str) -> (r: String)
    ensures
        r@ == percent_encoded(text.spec_bytes()),
{
    urlencoding::encode(text).into_owned()
}

/// The address of a page of product types: the page, and the search term
/// unless it is blank.
pub open spec fn types_address(base: Seq<char>, page: u32, search: Option<Seq<char>>) -> Seq<
    char,
> {
    let paged = base + "/api/product-types"@ + "?"@ + "page="@ + decimal_digits(page as nat);
    match search {
        Some(term) => if is_blank(term) {
            paged
        } else {
            paged + "&"@ + "search="@ + percent_encoded(vstd::utf8::encode_utf8(term))
        },
        None => paged,
    }
}

/// The address of a page of product types.
pub fn types_url(base: &str, page: u32, search: &Option<String>) -> (url: String)
    ensures
        url@ == types_address(base@, page, search.deep_view()),
{
    let mut url = String::from_str(base);
    url.append("/api/product-types");
    url.append("?");
    url.append("page=");
    let digits = decimal_string(page as u64);
    url.append(digits.as_str());
    match search {
        Some(term) => {
            if !blank(term.as_str()) {
                url.append("&");
                url.append("search=");
                let encoded = url_encoded(term.as_str());
                url.append(encoded.as_str());
            }
        },
        None => {},
    }
    url
}

/// The address of one product or product type, by its id.
pub open spec fn item_address(base: Seq<char>, collection: Seq<char>, id: u64) -> Seq<char> {
    base + collection + "/"@ + decimal_digits(id as nat)
}

/// The address of one product.
pub fn product_url(base: &str, id: u64) -> (url: String)
    ensures
        url@ == item_address(base@, "/api/products"@, id),
{
    let mut url = String::from_str(base);
    url.append("/api/products");
    url.append("/");
    let digits = decimal_string(id);
    url.append(digits.as_str());
    url
}

/// The address of one product type.
pub fn product_type_url(base: &str, id: u64) -> (url: String)
    ensures
        url@ == item_address(base@, "/api/product-types"@, id),
{
    let mut url = String::from_str(base);
    url.append("/api/product-types");
    url.append("/");
    let digits = decimal_string(id);
    url.append(digits.as_str());
    url
}

/// The page to fetch after `page` when all pages are wanted: the next one,
/// until the last is reached.
pub fn page_after(page: u32, total_pages: u32) -> (next: Option<u32>)
    ensures
        next == (if page >= total_pages {
            None
        } else {
            Some((page + 1) as u32)
        }),
{
    if page >= total_pages {
        None
    } else {
        Some(page + 1)
    }
}

/// Whether the service's status says that a write went through: a status
/// from 200 to 299, or the redirect 302.
pub fn accepted(status: u16) -> (ok: bool)
    ensures
        ok == ((200 <= status < 300) || status == 302),
{
    (200 <= status && status < 300) || status == 302
}

/// The id that a deletion form names, where it names one.
pub fn delete_id(field: &Option<String>) -> (id: Option<u64>)
    ensures
        id == match field.deep_view() {
            Some(text) => match natural_within(text, u64::MAX as int) {
                Some(v) => Some(v as u64),
                None => None,
            },
            None => None,
        },
{
    match field {
        Some(text) => parse_u64(text.as_str()),
        None => None,
    }
}

/// Why the form of a new product type is not sent on: it has no name, or
/// no image.
pub fn type_form_refusal(name: &str, images: usize) -> (refusal: Option<&'static str>)
    ensures
        match refusal {
            Some(text) => text@ == (if name@.len() == 0 {
                "Missing product type name"@
            } else {
                "No images uploaded"@
            }),
            None => true,
        },
        refusal is None <==> name@.len() > 0 && images > 0,
{
    if name.unicode_len() == 0 {
        Some("Missing product type name")
    } else if images == 0 {
        Some("No images uploaded")
    } else {
        None
    }
}

/// The address at which the image service holds a path.
pub fn image_url(path: &str) -> (url: String)
    ensures
        url@ == "http://localhost:2001/"@ + path@,
{
    let mut url = String::from_str("http://localhost:2001/");
    url.append(path);
    url
}

} // verus!

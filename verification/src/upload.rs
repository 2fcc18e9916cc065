//! A multipart form taken in part by part: the text fields are kept, and
//! the image parts are counted.
//!
//! No image is given a path while the form is read: where the files go is
//! decided once the whole request is known and found in order.

use crate::text::{integer_within, parse_i32, same_text};
use crate::transaction::{Command, CommandView, ProductDraft, ProductDraftView};
use vstd::prelude::*;
use vstd::string::*;
use vstd::utf8::{decode_utf8, valid_utf8};

verus! {

/// The text that bytes spell in UTF-8; the empty text where they spell none.
pub open spec fn text_of(data: Seq<u8>) -> Seq<char> {
    if valid_utf8(data) {
        decode_utf8(data)
    } else {
        Seq::empty()
    }
}

/// `String::from_utf8` of the standard library: the text of bytes that are
/// valid UTF-8, and nothing for others.
#[verifier::external_body]
fn utf8_text(data: &[u8]) -> (r: Option<String>)
    ensures
        r.deep_view() == (if valid_utf8(data@) {
            Some(decode_utf8(data@))
        } else {
            None
        }),
{
    String::from_utf8(data.to_vec()).ok()
}

/// Decodes a text field.
pub fn field_text(data: &[u8]) -> (text: String)
    ensures
        text@ == text_of(data@),
{
    match utf8_text(data) {
        Some(text) => text,
        None => String::new(),
    }
}

/// Whether a part of this name carries an image.
pub open spec fn names_image(field: Seq<char>) -> bool {
    field == "main_image"@ || field == "main_image[]"@
}

/// Whether a part of this name carries an image.
pub fn is_image_field(field: &str) -> (b: bool)
    ensures
        b == names_image(field@),
{
    same_text(field, "main_image") || same_text(field, "main_image[]")
}

/// The form of a new product type.
#[derive(Clone, Debug, PartialEq, Eq)]
pub struct TypeUpload {
    pub name: String,
    /// The number of image parts taken so far.
    pub images: usize,
}

pub struct TypeUploadView {
    pub name: Seq<char>,
    pub images: usize,
}

impl View for TypeUpload {
    type V = TypeUploadView;

    open spec fn view(&self) -> TypeUploadView {
        TypeUploadView { name: self.name@, images: self.images }
    }
}

/// One more, as far as the number can be written.
pub open spec fn one_more(n: usize) -> usize {
    if n < usize::MAX {
        (n + 1) as usize
    } else {
        n
    }
}

impl TypeUploadView {
    /// The form after a text part: the part called `name` sets the name.
    pub open spec fn with_text(self, field: Seq<char>, data: Seq<u8>) -> TypeUploadView {
        if field == "name"@ {
            TypeUploadView { name: text_of(data), ..self }
        } else {
            self
        }
    }

    /// The form after an image part.
    pub open spec fn with_image(self) -> TypeUploadView {
        TypeUploadView { images: one_more(self.images), ..self }
    }

    /// The write that the form asks for.
    pub open spec fn command(self) -> CommandView {
        CommandView::CreateType { name: self.name, images: self.images }
    }
}

impl TypeUpload {
    /// Whether the form keeps the text of a part of this name.
    pub fn reads(field: &str) -> (b: bool)
        ensures
            b == (field@ == "name"@),
    {
        same_text(field, "name")
    }

    /// The form before any part.
    pub fn new() -> (u: TypeUpload)
        ensures
            u@ == (TypeUploadView { name: Seq::empty(), images: 0 }),
    {
        TypeUpload { name: String::new(), images: 0 }
    }

    /// Takes a text part.
    pub fn text_field(&mut self, field: &str, data: &[u8])
        ensures
            final(self)@ == old(self)@.with_text(field@, data@),
    {
        if same_text(field, "name") {
            self.name = field_text(data);
        }
    }

    /// Takes an image part and gives its index among the image parts, under
    /// which the caller keeps its bytes.
    pub fn image_field(&mut self) -> (index: usize)
        ensures
            final(self)@ == old(self)@.with_image(),
            index == old(self)@.images,
    {
        let index = self.images;
        if self.images < usize::MAX {
            self.images = self.images + 1;
        }
        index
    }

    /// The write that the form asks for.
    pub fn into_command(self) -> (cmd: Command)
        ensures
            cmd@ == self@.command(),
    {
        Command::CreateType { name: self.name, images: self.images }
    }
}

/// The form of a new product. The price is kept as the text of its field.
#[derive(Clone, Debug, PartialEq, Eq)]
pub struct ProductUpload {
    pub name: String,
    pub price_text: String,
    pub detail: String,
    pub stock: i32,
    pub products_type_name: String,
    /// The number of image parts taken so far.
    pub images: usize,
}

pub struct ProductUploadView {
    pub name: Seq<char>,
    pub price_text: Seq<char>,
    pub detail: Seq<char>,
    pub stock: i32,
    pub products_type_name: Seq<char>,
    pub images: usize,
}

impl View for ProductUpload {
    type V = ProductUploadView;

    open spec fn view(&self) -> ProductUploadView {
        ProductUploadView {
            name: self.name@,
            price_text: self.price_text@,
            detail: self.detail@,
            stock: self.stock,
            products_type_name: self.products_type_name@,
            images: self.images,
        }
    }
}

/// The stock that a text field gives: its decimal integer, or zero.
pub open spec fn stock_of(text: Seq<char>) -> i32 {
    match integer_within(text, i32::MIN as int, i32::MAX as int) {
        Some(v) => v as i32,
        None => 0,
    }
}

/// The type that a form names: none where the name is empty.
pub open spec fn named_type(name: Seq<char>) -> Option<Seq<char>> {
    if name.len() == 0 {
        None
    } else {
        Some(name)
    }
}

/// The names of the text parts of the form of a product.
pub open spec fn product_field(field: Seq<char>) -> bool {
    ||| field == "name"@
    ||| field == "price"@
    ||| field == "detail"@
    ||| field == "stock"@
    ||| field == "product_type_name"@
}

impl ProductUploadView {
    /// The form after a text part: each known field takes its value, and
    /// the stock is read as a number.
    pub open spec fn with_text(self, field: Seq<char>, data: Seq<u8>) -> ProductUploadView {
        if field == "name"@ {
            ProductUploadView { name: text_of(data), ..self }
        } else if field == "price"@ {
            ProductUploadView { price_text: text_of(data), ..self }
        } else if field == "detail"@ {
            ProductUploadView { detail: text_of(data), ..self }
        } else if field == "stock"@ {
            ProductUploadView { stock: stock_of(text_of(data)), ..self }
        } else if field == "product_type_name"@ {
            ProductUploadView { products_type_name: text_of(data), ..self }
        } else {
            self
        }
    }

    /// The form after an image part.
    pub open spec fn with_image(self) -> ProductUploadView {
        ProductUploadView { images: one_more(self.images), ..self }
    }

    /// The write that the form asks for: a product of the type that the form
    /// names, or without type where it names none.
    pub open spec fn command(self, price_bits: u64) -> CommandView {
        CommandView::CreateProduct {
            product: ProductDraftView {
                name: self.name,
                price_bits,
                detail: self.detail,
                stock: self.stock as i64,
                products_type_name: named_type(self.products_type_name),
            },
            images: self.images,
        }
    }
}

impl ProductUpload {
    /// Whether the form keeps the text of a part of this name.
    pub fn reads(field: &str) -> (b: bool)
        ensures
            b == product_field(field@),
    {
        same_text(field, "name") || same_text(field, "price") || same_text(field, "detail")
            || same_text(field, "stock") || same_text(field, "product_type_name")
    }

    /// The form before any part.
    pub fn new() -> (u: ProductUpload)
        ensures
            u@ == (ProductUploadView {
                name: Seq::empty(),
                price_text: Seq::empty(),
                detail: Seq::empty(),
                stock: 0,
                products_type_name: Seq::empty(),
                images: 0,
            }),
    {
        ProductUpload {
            name: String::new(),
            price_text: String::new(),
            detail: String::new(),
            stock: 0,
            products_type_name: String::new(),
            images: 0,
        }
    }

    /// Takes a text part.
    pub fn text_field(&mut self, field: &str, data: &[u8])
        ensures
            final(self)@ == old(self)@.with_text(field@, data@),
    {
        if same_text(field, "name") {
            self.name = field_text(data);
        } else if same_text(field, "price") {
            self.price_text = field_text(data);
        } else if same_text(field, "detail") {
            self.detail = field_text(data);
        } else if same_text(field, "stock") {
            let text = field_text(data);
            self.stock = match parse_i32(text.as_str()) {
                Some(v) => v,
                None => 0,
            };
        } else if same_text(field, "product_type_name") {
            self.products_type_name = field_text(data);
        }
    }

    /// Takes an image part and gives its index among the image parts, under
    /// which the caller keeps its bytes.
    pub fn image_field(&mut self) -> (index: usize)
        ensures
            final(self)@ == old(self)@.with_image(),
            index == old(self)@.images,
    {
        let index = self.images;
        if self.images < usize::MAX {
            self.images = self.images + 1;
        }
        index
    }

    /// The write that the form asks for, with the price that its text gives.
    pub fn into_command(self, price_bits: u64) -> (cmd: Command)
        ensures
            cmd@ == self@.command(price_bits),
    {
        let products_type_name = if self.products_type_name.as_str().unicode_len() == 0 {
            None
        } else {
            Some(self.products_type_name)
        };
        Command::CreateProduct {
            product: ProductDraft {
                name: self.name,
                price_bits,
                detail: self.detail,
                stock: self.stock as i64,
                products_type_name,
            },
            images: self.images,
        }
    }
}

} // verus!

//! The records that travel between the catalog and its callers.
//!
//! A price is carried as the bit pattern of its double-precision value, a
//! product's detail as the text of its JSON document, and a creation time as
//! seconds since the Unix epoch: the catalog stores and returns all three
//! without reading them.

use vstd::prelude::*;

verus! {

/// A product type with the paths of its images.
#[derive(Clone, Debug, PartialEq, Eq)]
pub struct ProductType {
    pub id: i64,
    pub name: String,
    pub images_path: Vec<String>,
}

pub struct ProductTypeView {
    pub id: i64,
    pub name: Seq<char>,
    pub images_path: Seq<Seq<char>>,
}

impl View for ProductType {
    type V = ProductTypeView;

    open spec fn view(&self) -> ProductTypeView {
        ProductTypeView {
            id: self.id,
            name: self.name@,
            images_path: self.images_path.deep_view(),
        }
    }
}

impl DeepView for ProductType {
    type V = ProductTypeView;

    open spec fn deep_view(&self) -> ProductTypeView {
        self@
    }
}

/// The name and image paths that replace those of a product type.
#[derive(Clone, Debug, PartialEq, Eq)]
pub struct NewProductType {
    pub name: String,
    pub images_path: Vec<String>,
}

/// A product with the name of its type and the paths of its images.
#[derive(Clone, Debug, PartialEq, Eq)]
pub struct Products {
    pub id: i64,
    pub name_product: String,
    pub price_bits: u64,
    pub detail: String,
    pub images_path: Vec<String>,
    pub stock: i64,
    pub create_at: i64,
    pub products_type_id: Option<i64>,
    pub products_type_name: Option<String>,
}

pub struct ProductsView {
    pub id: i64,
    pub name_product: Seq<char>,
    pub price_bits: u64,
    pub detail: Seq<char>,
    pub images_path: Seq<Seq<char>>,
    pub stock: i64,
    pub create_at: i64,
    pub products_type_id: Option<i64>,
    pub products_type_name: Option<Seq<char>>,
}

impl View for Products {
    type V = ProductsView;

    open spec fn view(&self) -> ProductsView {
        ProductsView {
            id: self.id,
            name_product: self.name_product@,
            price_bits: self.price_bits,
            detail: self.detail@,
            images_path: self.images_path.deep_view(),
            stock: self.stock,
            create_at: self.create_at,
            products_type_id: self.products_type_id,
            products_type_name: self.products_type_name.deep_view(),
        }
    }
}

impl DeepView for Products {
    type V = ProductsView;

    open spec fn deep_view(&self) -> ProductsView {
        self@
    }
}

/// The fields that replace those of a product.
#[derive(Clone, Debug, PartialEq, Eq)]
pub struct NewProducts {
    pub name_product: String,
    pub price_bits: u64,
    pub detail: String,
    pub images_path: Vec<String>,
    pub stock: i64,
    pub products_type_name: Option<String>,
}

/// The query of a listing, as the request carries it.
#[derive(Clone, Debug, PartialEq, Eq)]
pub struct Querysearchandpage {
    pub search: Option<String>,
    pub page: Option<i64>,
    pub type_id: Option<String>,
}

/// One page of a listing.
#[derive(Clone, Debug, PartialEq, Eq)]
pub struct PaginatedResponse<T> {
    pub data: T,
    pub pagination: PaginationInfo,
}

#[derive(Clone, Copy, Debug, PartialEq, Eq, Structural)]
pub struct PaginationInfo {
    pub total_items: i64,
    pub items_per_page: i64,
    pub current_page: i64,
    pub total_pages: i64,
}

} // verus!

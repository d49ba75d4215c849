//! Types for catalog and product messages

use vstd::prelude::*;

verus! {

/// Body of a product message
#[derive(Debug, Clone)]
pub struct ProductBody {
    /// Body text
    pub text: String,
}

/// Footer of a product message
#[derive(Debug, Clone)]
pub struct ProductFooter {
    /// Footer text
    pub text: String,
}

/// Product section for multi-product messages
#[derive(Debug, Clone)]
pub struct ProductSection {
    /// Section title
    pub title: String,
    /// Products in this section
    pub product_items: Vec<ProductItem>,
}

impl ProductSection {
    /// Create a new product section
    pub fn new(title: &str, products: Vec<ProductItem>) -> (r: ProductSection)
        ensures
            r.title@ == title@,
            r.product_items == products,
    {
        ProductSection { title: title.to_owned(), product_items: products }
    }
}

/// Product item for catalog messages
#[derive(Debug, Clone)]
pub struct ProductItem {
    /// Product retailer ID
    pub product_retailer_id: String,
}

impl ProductItem {
    /// Create a new product item
    pub fn new(product_retailer_id: &str) -> (r: ProductItem)
        ensures
            r.product_retailer_id@ == product_retailer_id@,
    {
        ProductItem { product_retailer_id: product_retailer_id.to_owned() }
    }
}

/// Commerce settings response
#[derive(Debug, Clone)]
pub struct CommerceSettings {
    /// Whether catalog is visible
    pub is_catalog_visible: bool,
    /// Whether cart is enabled
    pub is_cart_enabled: bool,
    /// Catalog ID
    pub id: Option<String>,
}

} // verus!

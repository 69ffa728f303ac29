//! Catalog products, carts and recorded sales. Amounts of money are whole
//! numbers of the smallest currency unit.

use vstd::prelude::*;
use crate::stamp::{SaleTime, SaleTimeView};

verus! {

/// An entry of the catalog. Deleted products stay, flagged, so that old
/// sales still resolve their product.
#[derive(Debug, PartialEq, Eq)]
pub struct Product {
    pub id: u128,
    pub name: String,
    pub category: String,
    pub price: i64,
    pub is_deleted: bool,
}

/// Model of a [`Product`].
pub struct ProductView {
    pub id: u128,
    pub name: Seq<char>,
    pub category: Seq<char>,
    pub price: i64,
    pub is_deleted: bool,
}

impl View for Product {
    type V = ProductView;

    open spec fn view(&self) -> ProductView {
        ProductView {
            id: self.id,
            name: self.name@,
            category: self.category@,
            price: self.price,
            is_deleted: self.is_deleted,
        }
    }
}

impl DeepView for Product {
    type V = ProductView;

    open spec fn deep_view(&self) -> ProductView {
        self@
    }
}

impl Clone for Product {
    fn clone(&self) -> (copy: Self)
        ensures
            copy@ == self@,
    {
        Product {
            id: self.id,
            name: self.name.clone(),
            category: self.category.clone(),
            price: self.price,
            is_deleted: self.is_deleted,
        }
    }
}

/// One line of a cart: what the customer buys, at which unit price, how often.
#[derive(Debug, PartialEq, Eq)]
pub struct CartItem {
    pub product_id: u128,
    pub name: String,
    pub price: i64,
    pub quantity: i64,
}

/// Model of a [`CartItem`].
pub struct CartItemView {
    pub product_id: u128,
    pub name: Seq<char>,
    pub price: i64,
    pub quantity: i64,
}

impl View for CartItem {
    type V = CartItemView;

    open spec fn view(&self) -> CartItemView {
        CartItemView {
            product_id: self.product_id,
            name: self.name@,
            price: self.price,
            quantity: self.quantity,
        }
    }
}

impl DeepView for CartItem {
    type V = CartItemView;

    open spec fn deep_view(&self) -> CartItemView {
        self@
    }
}

impl Clone for CartItem {
    fn clone(&self) -> (copy: Self)
        ensures
            copy@ == self@,
    {
        CartItem {
            product_id: self.product_id,
            name: self.name.clone(),
            price: self.price,
            quantity: self.quantity,
        }
    }
}

/// A recorded sale.
#[derive(Debug, PartialEq, Eq)]
pub struct Sale {
    pub id: u128,
    pub sale_time: SaleTime,
    pub total_amount: i64,
    pub payment_method: Option<String>,
}

/// Model of a [`Sale`].
pub struct SaleView {
    pub id: u128,
    pub sale_time: SaleTimeView,
    pub total_amount: i64,
    pub payment_method: Option<Seq<char>>,
}

impl View for Sale {
    type V = SaleView;

    open spec fn view(&self) -> SaleView {
        SaleView {
            id: self.id,
            sale_time: self.sale_time@,
            total_amount: self.total_amount,
            payment_method: match self.payment_method {
                Some(method) => Some(method@),
                None => None,
            },
        }
    }
}

impl DeepView for Sale {
    type V = SaleView;

    open spec fn deep_view(&self) -> SaleView {
        self@
    }
}

impl Clone for Sale {
    fn clone(&self) -> (copy: Self)
        ensures
            copy@ == self@,
    {
        Sale {
            id: self.id,
            sale_time: self.sale_time,
            total_amount: self.total_amount,
            payment_method: match &self.payment_method {
                Some(method) => Some(method.clone()),
                None => None,
            },
        }
    }
}

/// One recorded line of a sale, with name and price as they were when sold.
#[derive(Debug, PartialEq, Eq)]
pub struct SaleItem {
    pub id: u128,
    pub sale_id: u128,
    pub product_id: u128,
    pub product_name: String,
    pub quantity: i64,
    pub price_at_sale: i64,
}

/// Model of a [`SaleItem`].
pub struct SaleItemView {
    pub id: u128,
    pub sale_id: u128,
    pub product_id: u128,
    pub product_name: Seq<char>,
    pub quantity: i64,
    pub price_at_sale: i64,
}

impl View for SaleItem {
    type V = SaleItemView;

    open spec fn view(&self) -> SaleItemView {
        SaleItemView {
            id: self.id,
            sale_id: self.sale_id,
            product_id: self.product_id,
            product_name: self.product_name@,
            quantity: self.quantity,
            price_at_sale: self.price_at_sale,
        }
    }
}

impl DeepView for SaleItem {
    type V = SaleItemView;

    open spec fn deep_view(&self) -> SaleItemView {
        self@
    }
}

impl Clone for SaleItem {
    fn clone(&self) -> (copy: Self)
        ensures
            copy@ == self@,
    {
        SaleItem {
            id: self.id,
            sale_id: self.sale_id,
            product_id: self.product_id,
            product_name: self.product_name.clone(),
            quantity: self.quantity,
            price_at_sale: self.price_at_sale,
        }
    }
}

/// A stored sale line joined with the catalog entry of its product.
#[derive(Debug, PartialEq, Eq)]
pub struct CartItemWithProduct {
    pub quantity: i64,
    pub name_at_sale: String,
    pub price_at_sale: i64,
    pub product_id: u128,
    pub name: String,
    pub category: String,
    pub is_product_deleted: bool,
    pub price: i64,
}

/// Model of a [`CartItemWithProduct`].
pub struct CartItemWithProductView {
    pub quantity: i64,
    pub name_at_sale: Seq<char>,
    pub price_at_sale: i64,
    pub product_id: u128,
    pub name: Seq<char>,
    pub category: Seq<char>,
    pub is_product_deleted: bool,
    pub price: i64,
}

impl View for CartItemWithProduct {
    type V = CartItemWithProductView;

    open spec fn view(&self) -> CartItemWithProductView {
        CartItemWithProductView {
            quantity: self.quantity,
            name_at_sale: self.name_at_sale@,
            price_at_sale: self.price_at_sale,
            product_id: self.product_id,
            name: self.name@,
            category: self.category@,
            is_product_deleted: self.is_product_deleted,
            price: self.price,
        }
    }
}

impl DeepView for CartItemWithProduct {
    type V = CartItemWithProductView;

    open spec fn deep_view(&self) -> CartItemWithProductView {
        self@
    }
}

impl Clone for CartItemWithProduct {
    fn clone(&self) -> (copy: Self)
        ensures
            copy@ == self@,
    {
        CartItemWithProduct {
            quantity: self.quantity,
            name_at_sale: self.name_at_sale.clone(),
            price_at_sale: self.price_at_sale,
            product_id: self.product_id,
            name: self.name.clone(),
            category: self.category.clone(),
            is_product_deleted: self.is_product_deleted,
            price: self.price,
        }
    }
}

impl CartItemWithProductView {
    /// The cart line as it was sold, and the product as the catalog has it now.
    pub open spec fn split(self) -> (CartItemView, ProductView) {
        (
            CartItemView {
                product_id: self.product_id,
                name: self.name_at_sale,
                price: self.price_at_sale,
                quantity: self.quantity,
            },
            ProductView {
                id: self.product_id,
                name: self.name,
                category: self.category,
                price: self.price,
                is_deleted: self.is_product_deleted,
            },
        )
    }
}

impl From<CartItemWithProduct> for (CartItem, Product) {
    fn from(value: CartItemWithProduct) -> (pair: (CartItem, Product)) {
        let item = CartItem {
            name: value.name_at_sale,
            price: value.price_at_sale,
            product_id: value.product_id,
            quantity: value.quantity,
        };
        let product = Product {
            id: value.product_id,
            name: value.name,
            category: value.category,
            is_deleted: value.is_product_deleted,
            price: value.price,
        };
        (item, product)
    }
}

impl vstd::std_specs::convert::FromSpecImpl<CartItemWithProduct> for (CartItem, Product) {
    open spec fn obeys_from_spec() -> bool {
        true
    }

    open spec fn from_spec(value: CartItemWithProduct) -> (CartItem, Product) {
        (
            CartItem {
                product_id: value.product_id,
                name: value.name_at_sale,
                price: value.price_at_sale,
                quantity: value.quantity,
            },
            Product {
                id: value.product_id,
                name: value.name,
                category: value.category,
                price: value.price,
                is_deleted: value.is_product_deleted,
            },
        )
    }
}

/// The stored lines of a sale as cart lines with their products.
pub open spec fn split_rows(rows: Seq<CartItemWithProductView>) -> Seq<(CartItemView, ProductView)> {
    rows.map_values(|row: CartItemWithProductView| row.split())
}

/// Turns the stored lines of a sale into cart lines with their products.
pub fn rows_to_items(rows: Vec<CartItemWithProduct>) -> (items: Vec<(CartItem, Product)>)
    ensures
        items.deep_view() == split_rows(rows.deep_view()),
{
    let mut items: Vec<(CartItem, Product)> = Vec::new();
    let mut i: usize = 0;
    while i < rows.len()
        invariant
            i <= rows.len(),
            items.len() == i,
            forall|k: int| 0 <= k < i ==> (#[trigger] items[k]).deep_view() == rows[k]@.split(),
        decreases rows.len() - i,
    {
        let pair = <(CartItem, Product)>::from(rows[i].clone());
        items.push(pair);
        i = i + 1;
    }
    items
}

} // verus!

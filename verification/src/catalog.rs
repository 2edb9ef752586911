//! Catalog lookup: finding a product by its id in a listing.

use vstd::prelude::*;

verus! {

/// An artisan product of the static catalog.
#[derive(Debug, Clone)]
pub struct Product {
    pub id: u32,
    pub name: String,
    pub artisan: String,
    pub price: u32,
    pub category: String,
    pub img: String,
    pub desc: String,
}

pub open spec fn has_product(s: Seq<Product>, id: u32) -> bool {
    exists|i: int| 0 <= i < s.len() && s[i].id == id
}

/// Find the first product carrying `product_id`, if any.
pub fn find_product(products: &Vec<Product>, product_id: u32) -> (r: Option<&Product>)
    ensures
        match r {
            Some(p) => exists|i: int|
                #![auto]
                0 <= i < products@.len() && *p == products@[i] && products@[i].id == product_id && (
                forall|j: int| 0 <= j < i ==> products@[j].id != product_id),
            None => !has_product(products@, product_id),
        },
{
    let n = products.len();
    let mut i: usize = 0;
    while i < n
        invariant
            i <= n,
            n == products@.len(),
            forall|j: int| 0 <= j < i ==> products@[j].id != product_id,
        decreases n - i,
    {
        if products[i].id == product_id {
            return Some(&products[i]);
        }
        i += 1;
    }
    None
}

} // verus!

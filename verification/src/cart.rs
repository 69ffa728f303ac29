//! Validation and pricing of a cart.

use vstd::prelude::*;
use crate::errors::InputError;
use crate::models::{CartItem, CartItemView};

verus! {

/// The amount of one cart line: unit price times quantity.
pub open spec fn line_amount(item: CartItemView) -> int {
    item.price as int * item.quantity as int
}

/// The total of a cart: the sum of its line amounts.
pub open spec fn cart_total(cart: Seq<CartItemView>) -> int
    decreases cart.len(),
{
    if cart.len() == 0 {
        0
    } else {
        cart_total(cart.drop_last()) + line_amount(cart.last())
    }
}

/// What is wrong with one cart line, if anything: the quantity is looked at
/// before the price.
pub open spec fn item_fault(item: CartItemView) -> Option<InputError> {
    if item.quantity <= 0 {
        Some(InputError::InvalidQuantity { product_id: item.product_id })
    } else if item.price < 0 {
        Some(InputError::InvalidPrice { product_id: item.product_id })
    } else {
        None
    }
}

/// The fault of the first faulty line of a cart, in cart order.
pub open spec fn first_fault(cart: Seq<CartItemView>) -> Option<InputError>
    decreases cart.len(),
{
    if cart.len() == 0 {
        None
    } else {
        match first_fault(cart.drop_last()) {
            Some(fault) => Some(fault),
            None => item_fault(cart.last()),
        }
    }
}

/// The verdict on a cart: its total, or the reason why it cannot be sold.
/// An empty cart is rejected, then the first faulty line, then a total
/// beyond the largest amount.
pub open spec fn checked_cart(cart: Seq<CartItemView>) -> Result<i64, InputError> {
    if cart.len() == 0 {
        Err(InputError::EmptyCart)
    } else if first_fault(cart) is Some {
        Err(first_fault(cart)->0)
    } else if cart_total(cart) > i64::MAX {
        Err(InputError::TotalTooLarge)
    } else {
        Ok(cart_total(cart) as i64)
    }
}

/// A cart that is not empty, whose quantities are all positive, whose
/// prices are all not negative and whose total fits the amount type is
/// valid, and its verdict is its total.
pub proof fn lemma_sound_cart_is_priced(cart: Seq<CartItemView>)
    requires
        cart.len() > 0,
        forall|i: int| 0 <= i < cart.len() ==> (#[trigger] cart[i]).quantity > 0 && cart[i].price >= 0,
        cart_total(cart) <= i64::MAX,
    ensures
        checked_cart(cart) == Ok::<i64, InputError>(cart_total(cart) as i64),
        checked_cart(cart)->Ok_0 == cart_total(cart),
{
    lemma_first_fault(cart);
    lemma_prefix_total(cart, cart.len() as int);
}

/// A cart has no faulty line exactly if every line is sound; a reported
/// fault is that of a line before which every line is sound.
pub proof fn lemma_first_fault(cart: Seq<CartItemView>)
    ensures
        first_fault(cart) is None <==> forall|i: int|
            0 <= i < cart.len() ==> item_fault(#[trigger] cart[i]) is None,
        first_fault(cart) is Some ==> exists|i: int|
            0 <= i < cart.len() && item_fault(#[trigger] cart[i]) == first_fault(cart) && forall|
                j: int,
            |
                0 <= j < i ==> item_fault(#[trigger] cart[j]) is None,
    decreases cart.len(),
{
    if cart.len() > 0 {
        let front = cart.drop_last();
        lemma_first_fault(front);
        assert forall|i: int| 0 <= i < front.len() implies front[i] == cart[i] by {}
    }
}

/// In a cart without faulty line, the total of a prefix is not negative and
/// not above the total of the whole cart.
pub proof fn lemma_prefix_total(cart: Seq<CartItemView>, count: int)
    requires
        first_fault(cart) is None,
        0 <= count <= cart.len(),
    ensures
        first_fault(cart.take(count)) is None,
        0 <= cart_total(cart.take(count)) <= cart_total(cart),
    decreases cart.len(),
{
    if count == cart.len() {
        assert(cart.take(count) =~= cart);
        if cart.len() > 0 {
            lemma_prefix_total(cart.drop_last(), count - 1);
            lemma_line_amount(cart.last());
        }
    } else {
        lemma_prefix_total(cart.drop_last(), count);
        lemma_line_amount(cart.last());
        assert(cart.drop_last().take(count) =~= cart.take(count));
    }
}

/// The amount of a sound line is not negative and fits 126 bits.
pub proof fn lemma_line_amount(item: CartItemView)
    requires
        item_fault(item) is None,
    ensures
        0 <= line_amount(item) <= 0x3fff_ffff_ffff_ffff_0000_0000_0000_0001,
{
    let price = item.price as int;
    let quantity = item.quantity as int;
    assert(0 <= price * quantity <= 0x7fff_ffff_ffff_ffff * 0x7fff_ffff_ffff_ffff)
        by (nonlinear_arith)
        requires
            0 <= price <= 0x7fff_ffff_ffff_ffff,
            0 < quantity <= 0x7fff_ffff_ffff_ffff,
    ;
}

/// The first faulty line of a cart, if any.
fn find_fault(cart: &Vec<CartItem>) -> (fault: Option<InputError>)
    ensures
        fault == first_fault(cart.deep_view()),
{
    let ghost lines = cart.deep_view();
    let mut i: usize = 0;
    while i < cart.len()
        invariant
            i <= cart.len(),
            lines == cart.deep_view(),
            first_fault(lines.take(i as int)) is None,
        decreases cart.len() - i,
    {
        let item = &cart[i];
        proof {
            assert(lines.take(i + 1).drop_last() =~= lines.take(i as int));
        }
        if item.quantity <= 0 {
            proof {
                lemma_fault_stays(lines, i + 1);
            }
            return Some(InputError::InvalidQuantity { product_id: item.product_id });
        }
        if item.price < 0 {
            proof {
                lemma_fault_stays(lines, i + 1);
            }
            return Some(InputError::InvalidPrice { product_id: item.product_id });
        }
        i = i + 1;
    }
    assert(lines.take(cart.len() as int) =~= lines);
    None
}

/// A fault found in a prefix of a cart is the fault of the cart.
proof fn lemma_fault_stays(cart: Seq<CartItemView>, count: int)
    requires
        0 <= count <= cart.len(),
        first_fault(cart.take(count)) is Some,
    ensures
        first_fault(cart) == first_fault(cart.take(count)),
    decreases cart.len() - count,
{
    if count == cart.len() {
        assert(cart.take(count) =~= cart);
    } else {
        assert(cart.take(count + 1).drop_last() =~= cart.take(count));
        lemma_fault_stays(cart, count + 1);
    }
}

/// Validates a cart and computes its total: the sum of price times
/// quantity over its lines, in cart order.
pub fn validate_cart(cart: &Vec<CartItem>) -> (verdict: Result<i64, InputError>)
    ensures
        verdict == checked_cart(cart.deep_view()),
{
    if cart.len() == 0 {
        return Err(InputError::EmptyCart);
    }
    match find_fault(cart) {
        Some(fault) => {
            return Err(fault);
        },
        None => {},
    }
    let ghost lines = cart.deep_view();
    let mut total: i128 = 0;
    let mut i: usize = 0;
    while i < cart.len()
        invariant
            i <= cart.len(),
            lines == cart.deep_view(),
            first_fault(lines) is None,
            total == cart_total(lines.take(i as int)),
            0 <= total <= i64::MAX,
        decreases cart.len() - i,
    {
        let item = &cart[i];
        proof {
            assert(lines.take(i + 1).drop_last() =~= lines.take(i as int));
            lemma_first_fault(lines);
            assert(item_fault(lines[i as int]) is None);
            lemma_line_amount(item@);
            lemma_prefix_total(lines, i + 1);
        }
        let amount: i128 = (item.price as i128) * (item.quantity as i128);
        total = total + amount;
        if total > i64::MAX as i128 {
            return Err(InputError::TotalTooLarge);
        }
        i = i + 1;
    }
    assert(lines.take(cart.len() as int) =~= lines);
    Ok(total as i64)
}

} // verus!

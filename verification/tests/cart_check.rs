use fulcitt_pos::cart::validate_cart;
use fulcitt_pos::errors::InputError;
use fulcitt_pos::models::CartItem;

fn item(product_id: u128, price: i64, quantity: i64) -> CartItem {
    CartItem { product_id, name: format!("product {}", product_id), price, quantity }
}

#[test]
fn total_is_the_sum_of_price_times_quantity() {
    let cart = vec![item(1, 250, 2), item(2, 100, 3), item(3, 1999, 1)];
    assert_eq!(validate_cart(&cart), Ok(250 * 2 + 100 * 3 + 1999));
}

#[test]
fn total_of_a_single_line() {
    assert_eq!(validate_cart(&vec![item(1, 350, 4)]), Ok(1400));
}

#[test]
fn free_items_are_sold() {
    assert_eq!(validate_cart(&vec![item(1, 0, 5), item(2, 120, 1)]), Ok(120));
}

#[test]
fn empty_cart_is_rejected() {
    assert_eq!(validate_cart(&vec![]), Err(InputError::EmptyCart));
}

#[test]
fn zero_quantity_is_rejected() {
    let cart = vec![item(1, 250, 2), item(2, 100, 0)];
    assert_eq!(validate_cart(&cart), Err(InputError::InvalidQuantity { product_id: 2 }));
}

#[test]
fn negative_quantity_is_rejected() {
    let cart = vec![item(1, 250, -1)];
    assert_eq!(validate_cart(&cart), Err(InputError::InvalidQuantity { product_id: 1 }));
}

#[test]
fn negative_price_is_rejected() {
    let cart = vec![item(1, 250, 2), item(2, -1, 1), item(3, 5, 1)];
    assert_eq!(validate_cart(&cart), Err(InputError::InvalidPrice { product_id: 2 }));
}

#[test]
fn quantity_is_checked_before_price() {
    let cart = vec![item(9, -5, 0)];
    assert_eq!(validate_cart(&cart), Err(InputError::InvalidQuantity { product_id: 9 }));
}

#[test]
fn first_faulty_line_is_reported() {
    let cart = vec![item(1, 250, 2), item(2, -1, 1), item(3, 5, 0)];
    assert_eq!(validate_cart(&cart), Err(InputError::InvalidPrice { product_id: 2 }));
    let cart = vec![item(1, 250, 2), item(3, 5, 0), item(2, -1, 1)];
    assert_eq!(validate_cart(&cart), Err(InputError::InvalidQuantity { product_id: 3 }));
}

#[test]
fn largest_total_is_accepted() {
    let cart = vec![item(1, i64::MAX - 10, 1), item(2, 5, 2)];
    assert_eq!(validate_cart(&cart), Ok(i64::MAX));
}

#[test]
fn total_beyond_the_largest_amount_is_rejected() {
    let cart = vec![item(1, i64::MAX, 1), item(2, 1, 1)];
    assert_eq!(validate_cart(&cart), Err(InputError::TotalTooLarge));
    let cart = vec![item(1, i64::MAX, 2)];
    assert_eq!(validate_cart(&cart), Err(InputError::TotalTooLarge));
    let cart = vec![item(1, i64::MAX, i64::MAX), item(2, i64::MAX, i64::MAX), item(3, i64::MAX, i64::MAX)];
    assert_eq!(validate_cart(&cart), Err(InputError::TotalTooLarge));
}

#[test]
fn a_fault_counts_before_the_size_of_the_total() {
    let cart = vec![item(1, i64::MAX, 2), item(2, 1, 0)];
    assert_eq!(validate_cart(&cart), Err(InputError::InvalidQuantity { product_id: 2 }));
}

#[test]
fn message_keys_of_input_errors() {
    assert_eq!(InputError::EmptyCart.message_key(), "pos-messages-cannot-process-sale-with-no-items");
    assert_eq!(
        InputError::InvalidQuantity { product_id: 1 }.message_key(),
        "pos-messages-invalid-quantity-for-product"
    );
    assert_eq!(
        InputError::InvalidPrice { product_id: 1 }.message_key(),
        "pos-messages-invalid-price-for-product"
    );
    assert_eq!(InputError::TotalTooLarge.message_key(), "pos-messages-total-too-large");
    assert_eq!(InputError::NoSalesRecorded.message_key(), "pos-messages-no-sales-recorded");
}

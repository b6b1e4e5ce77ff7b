//! Shopping carts: what a buyer has set aside to order.

use vstd::prelude::*;
use crate::auth::UserAccess;
use crate::bigint::{bigint_lt, BigInt};
use crate::error::Error;
use crate::product::{found_product, ProductModel, ProductView};
use crate::util::{fresh_object_id, ObjectId};

verus! {

/// A cart entry as it is stored: a buyer, a product with its merchant, and
/// the quantity set aside.
#[derive(Clone, Debug)]
pub struct CartModel {
    pub id: ObjectId,
    pub user_id: ObjectId,
    pub product_id: ObjectId,
    pub merchant_id: ObjectId,
    pub quantity: BigInt,
}

/// A cart entry as values.
pub struct CartView {
    pub id: Seq<u8>,
    pub user_id: Seq<u8>,
    pub product_id: Seq<u8>,
    pub merchant_id: Seq<u8>,
    pub quantity: int,
}

impl View for CartModel {
    type V = CartView;

    open spec fn view(&self) -> CartView {
        CartView {
            id: self.id@,
            user_id: self.user_id@,
            product_id: self.product_id@,
            merchant_id: self.merchant_id@,
            quantity: self.quantity@,
        }
    }
}

/// The body of a request to put a product into the cart.
#[derive(Clone, Debug)]
pub struct CreateRequest {
    pub product_id: ObjectId,
    pub quantity: BigInt,
}

/// Whether a cart operation returned what its rule gives.
pub open spec fn cart_agrees(got: Result<CartModel, Error>, rule: Result<CartView, Error>) -> bool {
    match (got, rule) {
        (Ok(c), Ok(v)) => c@ == v,
        (Err(e), Err(f)) => e == f,
        _ => false,
    }
}

/// The view of a cart entry that may be absent.
pub open spec fn found_cart(cart: Option<CartModel>) -> Option<CartView> {
    match cart {
        Some(c) => Some(c@),
        None => None,
    }
}

/// The rule of `create`: a positive quantity of a product that exists and
/// has that much in stock goes into the caller's cart.
pub open spec fn create_rule(
    user: UserAccess,
    product: Option<ProductView>,
    product_id: Seq<u8>,
    quantity: int,
    id: Seq<u8>,
) -> Result<CartView, Error> {
    match product {
        Some(p) if quantity > 0 && p.stock >= quantity => Ok(
            CartView { id, user_id: user.id@, product_id, merchant_id: p.owner, quantity },
        ),
        _ => Err(Error::Forbidden),
    }
}

/// Puts the product found for the request into the caller's cart, under
/// `id`.
pub fn create_with(
    user: &UserAccess,
    product: Option<ProductModel>,
    request: CreateRequest,
    id: ObjectId,
) -> (r: Result<CartModel, Error>)
    ensures
        cart_agrees(
            r,
            create_rule(*user, found_product(product), request.product_id@, request.quantity@, id@),
        ),
{
    if !request.quantity.is_positive() {
        return Err(Error::Forbidden);
    }
    let product = match product {
        Some(product) => product,
        None => { return Err(Error::Forbidden); },
    };
    if bigint_lt(&product.stock, &request.quantity) {
        return Err(Error::Forbidden);
    }
    Ok(
        CartModel {
            id,
            user_id: user.id,
            product_id: request.product_id,
            merchant_id: product.user_id,
            quantity: request.quantity,
        },
    )
}

/// Puts the product found for the request into the caller's cart, under a
/// fresh identifier.
pub fn create(user: &UserAccess, product: Option<ProductModel>, request: CreateRequest) -> (r:
    Result<CartModel, Error>)
    ensures
        exists|id: Seq<u8>|
            cart_agrees(
                r,
                create_rule(
                    *user,
                    found_product(product),
                    request.product_id@,
                    request.quantity@,
                    id,
                ),
            ),
{
    let id = fresh_object_id();
    create_with(user, product, request, id)
}

/// The cart entry found for a request to read one, where it is the
/// caller's.
pub fn show(user: &UserAccess, cart: Option<CartModel>) -> (r: Result<CartModel, Error>)
    ensures
        match cart {
            Some(c) if c.user_id@ == user.id@ => r == Ok::<CartModel, Error>(c),
            _ => r == Err::<CartModel, Error>(Error::Forbidden),
        },
{
    match cart {
        Some(cart) => {
            if cart.user_id.same(&user.id) {
                Ok(cart)
            } else {
                Err(Error::Forbidden)
            }
        },
        None => Err(Error::Forbidden),
    }
}

/// Which cart entry a request removes: the one found, where it is the
/// caller's.
pub fn delete(user: &UserAccess, cart: Option<CartModel>) -> (r: Result<ObjectId, Error>)
    ensures
        match cart {
            None => r matches Err(e) && e == Error::NoResource,
            Some(c) => if c.user_id@ == user.id@ {
                r matches Ok(id) && id@ == c.id@
            } else {
                r matches Err(e) && e == Error::Forbidden
            },
        },
{
    match cart {
        Some(cart) => {
            if cart.user_id.same(&user.id) {
                Ok(cart.id)
            } else {
                Err(Error::Forbidden)
            }
        },
        None => Err(Error::NoResource),
    }
}

} // verus!

//! Products on sale, and who may add, change and withdraw them.

use vstd::prelude::*;
use crate::auth::{UserAccess, UserRole};
use crate::bigint::{bigint_lt, BigInt};
use crate::decimal::{decimal_lt, units, Decimal};
use crate::error::Error;
use crate::util::{fresh_object_id, now, DateTime, ObjectId};

verus! {

/// A product as it is stored. `user_id` is the merchant who owns it.
#[derive(Clone, Debug)]
pub struct ProductModel {
    pub id: ObjectId,
    pub user_id: ObjectId,
    pub name: String,
    pub description: String,
    pub stock: BigInt,
    pub price: Decimal,
    pub created_at: DateTime,
    pub updated_at: DateTime,
    pub deleted_at: Option<DateTime>,
}

/// A product as values.
pub struct ProductView {
    pub id: Seq<u8>,
    pub owner: Seq<u8>,
    pub name: Seq<char>,
    pub description: Seq<char>,
    pub stock: int,
    pub price: (int, nat),
    pub created_at: DateTime,
    pub updated_at: DateTime,
    pub deleted_at: Option<DateTime>,
}

impl View for ProductModel {
    type V = ProductView;

    open spec fn view(&self) -> ProductView {
        ProductView {
            id: self.id@,
            owner: self.user_id@,
            name: self.name@,
            description: self.description@,
            stock: self.stock@,
            price: self.price@,
            created_at: self.created_at,
            updated_at: self.updated_at,
            deleted_at: self.deleted_at,
        }
    }
}

/// The views of a list of products.
pub open spec fn product_views(products: Seq<ProductModel>) -> Seq<ProductView> {
    Seq::new(products.len(), |i: int| products[i]@)
}

/// The view of a product that may be absent.
pub open spec fn found_product(product: Option<ProductModel>) -> Option<ProductView> {
    match product {
        Some(p) => Some(p@),
        None => None,
    }
}

/// The body of a request to put a product on sale.
#[derive(Clone, Debug)]
pub struct CreateRequest {
    pub name: String,
    pub description: String,
    pub price: Decimal,
    pub stock: BigInt,
}

/// The body of a request to change a product.
#[derive(Clone, Debug)]
pub struct UpdateRequest {
    pub name: String,
    pub description: String,
    pub stock: BigInt,
    pub price: Decimal,
}

/// Whether a role may sell: customers and admins, not couriers.
pub open spec fn may_sell(role: UserRole) -> bool {
    role != UserRole::Courier
}

/// Whether a price and a stock are both zero or more.
pub open spec fn offer_is_valid(price: (int, nat), stock: int) -> bool {
    units(price) >= 0 && stock >= 0
}

/// Whether `user` may change or withdraw the product: an admin any, a
/// customer their own.
pub open spec fn may_manage(user: UserAccess, product: ProductView) -> bool {
    user.role == UserRole::Admin || (user.role == UserRole::Customer && product.owner == user.id@)
}

/// Whether a product operation returned what its rule gives.
pub open spec fn product_agrees(
    got: Result<ProductModel, Error>,
    rule: Result<ProductView, Error>,
) -> bool {
    match (got, rule) {
        (Ok(p), Ok(v)) => p@ == v,
        (Err(e), Err(f)) => e == f,
        _ => false,
    }
}

/// Whether the role sells and the offer is valid.
fn offer_allowed(user: &UserAccess, price: Decimal, stock: &BigInt) -> (r: bool)
    ensures
        r == (may_sell(user.role) && offer_is_valid(price@, stock@)),
{
    match user.role {
        UserRole::Courier => { return false; },
        UserRole::Customer | UserRole::Admin => {},
    }
    let zero = Decimal::zero();
    let none = BigInt::zero();
    assert(units(zero@) == 0);
    !(decimal_lt(price, zero) || bigint_lt(stock, &none))
}

/// The rule of `create`.
pub open spec fn create_rule(
    user: UserAccess,
    name: Seq<char>,
    description: Seq<char>,
    price: (int, nat),
    stock: int,
    id: Seq<u8>,
    at: DateTime,
) -> Result<ProductView, Error> {
    if may_sell(user.role) && offer_is_valid(price, stock) {
        Ok(
            ProductView {
                id,
                owner: user.id@,
                name,
                description,
                stock,
                price,
                created_at: at,
                updated_at: at,
                deleted_at: None,
            },
        )
    } else {
        Err(Error::Forbidden)
    }
}

/// Puts a product on sale for `user`, under `id` and at `at`.
pub fn create_at(user: &UserAccess, request: CreateRequest, id: ObjectId, at: DateTime) -> (r:
    Result<ProductModel, Error>)
    ensures
        product_agrees(
            r,
            create_rule(
                *user,
                request.name@,
                request.description@,
                request.price@,
                request.stock@,
                id@,
                at,
            ),
        ),
{
    if !offer_allowed(user, request.price, &request.stock) {
        return Err(Error::Forbidden);
    }
    Ok(
        ProductModel {
            id,
            user_id: user.id,
            name: request.name,
            description: request.description,
            stock: request.stock,
            price: request.price,
            created_at: at,
            updated_at: at,
            deleted_at: None,
        },
    )
}

/// Puts a product on sale for `user`, now and under a fresh identifier.
pub fn create(user: &UserAccess, request: CreateRequest) -> (r: Result<ProductModel, Error>)
    ensures
        exists|id: Seq<u8>, at: DateTime|
            product_agrees(
                r,
                create_rule(
                    *user,
                    request.name@,
                    request.description@,
                    request.price@,
                    request.stock@,
                    id,
                    at,
                ),
            ),
{
    let id = fresh_object_id();
    let at = now();
    create_at(user, request, id, at)
}

/// The rule of `update`: a seller with a valid offer changes a product that
/// exists and that they may manage; name, description, stock and price are
/// replaced and the time of the update is set.
pub open spec fn update_rule(
    user: UserAccess,
    product: Option<ProductView>,
    name: Seq<char>,
    description: Seq<char>,
    price: (int, nat),
    stock: int,
    at: DateTime,
) -> Result<ProductView, Error> {
    if !(may_sell(user.role) && offer_is_valid(price, stock)) {
        Err(Error::Forbidden)
    } else {
        match product {
            None => Err(Error::NoResource),
            Some(p) => if may_manage(user, p) {
                Ok(ProductView { name, description, stock, price, updated_at: at, ..p })
            } else {
                Err(Error::Forbidden)
            },
        }
    }
}

/// Whether `user` may change or withdraw `product`, given that they sell.
fn manages(user: &UserAccess, product: &ProductModel) -> (r: bool)
    requires
        may_sell(user.role),
    ensures
        r == may_manage(*user, product@),
{
    match user.role {
        UserRole::Customer => product.user_id.same(&user.id),
        UserRole::Courier | UserRole::Admin => true,
    }
}

/// Changes the product found for the request, at `at`.
pub fn update_at(
    user: &UserAccess,
    product: Option<ProductModel>,
    request: UpdateRequest,
    at: DateTime,
) -> (r: Result<ProductModel, Error>)
    ensures
        product_agrees(
            r,
            update_rule(
                *user,
                found_product(product),
                request.name@,
                request.description@,
                request.price@,
                request.stock@,
                at,
            ),
        ),
{
    if !offer_allowed(user, request.price, &request.stock) {
        return Err(Error::Forbidden);
    }
    let product = match product {
        Some(product) => product,
        None => { return Err(Error::NoResource); },
    };
    if !manages(user, &product) {
        return Err(Error::Forbidden);
    }
    Ok(
        ProductModel {
            name: request.name,
            description: request.description,
            stock: request.stock,
            price: request.price,
            id: product.id,
            user_id: product.user_id,
            updated_at: at,
            created_at: product.created_at,
            deleted_at: product.deleted_at,
        },
    )
}

/// Changes the product found for the request, now.
pub fn update(user: &UserAccess, product: Option<ProductModel>, request: UpdateRequest) -> (r:
    Result<ProductModel, Error>)
    ensures
        exists|at: DateTime|
            product_agrees(
                r,
                update_rule(
                    *user,
                    found_product(product),
                    request.name@,
                    request.description@,
                    request.price@,
                    request.stock@,
                    at,
                ),
            ),
{
    let at = now();
    update_at(user, product, request, at)
}

/// Which product a request withdraws: the one found, where the caller sells
/// and may manage it.
pub fn delete(user: &UserAccess, product: Option<ProductModel>) -> (r: Result<ObjectId, Error>)
    ensures
        match r {
            Ok(id) => {
                &&& may_sell(user.role)
                &&& product matches Some(p) && may_manage(*user, p@) && id@ == p.id@
            },
            Err(e) => if !may_sell(user.role) {
                e == Error::Forbidden
            } else {
                match product {
                    None => e == Error::NoResource,
                    Some(p) => !may_manage(*user, p@) && e == Error::Forbidden,
                }
            },
        },
{
    match user.role {
        UserRole::Courier => { return Err(Error::Forbidden); },
        UserRole::Customer | UserRole::Admin => {},
    }
    let product = match product {
        Some(product) => product,
        None => { return Err(Error::NoResource); },
    };
    if !manages(user, &product) {
        return Err(Error::Forbidden);
    }
    Ok(product.id)
}

/// The product found for a request to read one; a product that was
/// withdrawn is not shown.
pub fn show(product: Option<ProductModel>) -> (r: Result<ProductModel, Error>)
    ensures
        match product {
            Some(p) if p.deleted_at is None => r == Ok::<ProductModel, Error>(p),
            _ => r == Err::<ProductModel, Error>(Error::NoResource),
        },
{
    match product {
        Some(product) => {
            if product.deleted_at.is_none() {
                Ok(product)
            } else {
                Err(Error::NoResource)
            }
        },
        None => Err(Error::NoResource),
    }
}

/// The products of a list that were not withdrawn, in their order.
pub open spec fn on_sale(products: Seq<ProductView>) -> Seq<ProductView>
    decreases products.len(),
{
    if products.len() == 0 {
        Seq::empty()
    } else if products.last().deleted_at is None {
        on_sale(products.drop_last()).push(products.last())
    } else {
        on_sale(products.drop_last())
    }
}

impl ProductModel {
    /// A copy of this product.
    pub fn duplicate(&self) -> (copy: ProductModel)
        ensures
            copy@ == self@,
    {
        ProductModel {
            id: self.id,
            user_id: self.user_id,
            name: self.name.clone(),
            description: self.description.clone(),
            stock: self.stock.duplicate(),
            price: self.price,
            created_at: self.created_at,
            updated_at: self.updated_at,
            deleted_at: self.deleted_at,
        }
    }
}

/// The products among `products` that are on sale, in their order.
pub fn index(products: &Vec<ProductModel>) -> (listed: Vec<ProductModel>)
    ensures
        product_views(listed@) == on_sale(product_views(products@)),
{
    let ghost all = product_views(products@);
    let mut listed: Vec<ProductModel> = Vec::new();
    let mut i: usize = 0;
    while i < products.len()
        invariant
            i <= products.len(),
            all == product_views(products@),
            product_views(listed@) == on_sale(all.take(i as int)),
        decreases products.len() - i,
    {
        assert(all.take(i + 1).drop_last() =~= all.take(i as int));
        if products[i].deleted_at.is_none() {
            listed.push(products[i].duplicate());
        }
        i += 1;
    }
    assert(all.take(i as int) =~= all);
    listed
}

} // verus!

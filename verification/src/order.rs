//! Placing an order.
//!
//! `insert_order` takes the buyer, the request and the products it names, all
//! as read inside the storage transaction that will also write the result. It
//! returns everything that has to be written (the new order, the buyer's
//! balance and each stock) or the failure, in which case nothing is written.

use vstd::prelude::*;
use crate::auth::UserModel;
use crate::bigint::{bigint_lt, bigint_sub, BigInt};
use crate::decimal::{
    decimal_from_bigint,
    decimal_lt,
    exact_difference,
    exact_product,
    exact_sum,
    lemma_exact_product_of_whole,
    representable,
    units,
    Decimal,
};
use crate::error::{status_of, Error, FORBIDDEN, NOT_FOUND, PAYMENT_REQUIRED, UNPROCESSABLE_ENTITY};
use crate::product::{product_views, ProductModel, ProductView};
use crate::transaction::{
    LineItem,
    ProductTransaction,
    Transaction,
    TransactionStatus,
    TransactionStatusType,
    TransactionView,
};
use crate::util::{fresh_object_id, now, DateTime, ObjectId};

verus! {

/// Reported when the price or the balance left cannot be held exactly.
pub const OUT_OF_RANGE: &'static str = "Amount is out of range";

/// Reported when the buyer is the merchant of the products.
pub const OWN_PRODUCT: &'static str = "You cannot buy product that you own";

/// Reported when a quantity is zero or less.
pub const QUANTITY_NOT_POSITIVE: &'static str = "Quantity must be more than 0";

/// Reported when a product has less in stock than the order takes.
pub const QUANTITY_EXCEEDS_STOCK: &'static str = "quantity must be less than stock";

/// One line of a request: a product and how many of it.
#[derive(Clone, Debug)]
pub struct ProductOrderRequest {
    pub product_id: ObjectId,
    pub quantity: BigInt,
}

impl View for ProductOrderRequest {
    type V = LineItem;

    open spec fn view(&self) -> LineItem {
        LineItem { product: self.product_id@, quantity: self.quantity@ }
    }
}

/// The body of a request to place an order.
#[derive(Clone, Debug)]
pub struct InsertOrderRequest {
    pub products: Vec<ProductOrderRequest>,
}

impl View for InsertOrderRequest {
    type V = Seq<LineItem>;

    open spec fn view(&self) -> Seq<LineItem> {
        Seq::new(self.products@.len(), |i: int| self.products@[i]@)
    }
}

/// The stock that a product is left with.
#[derive(Clone, Debug)]
pub struct StockUpdate {
    pub product_id: ObjectId,
    pub stock: BigInt,
}

/// A stock update as values.
pub struct StockView {
    pub product: Seq<u8>,
    pub stock: int,
}

impl View for StockUpdate {
    type V = StockView;

    open spec fn view(&self) -> StockView {
        StockView { product: self.product_id@, stock: self.stock@ }
    }
}

/// What placing an order writes: the order, the buyer's balance after
/// payment, and for each line, in order, the stock its product is left with
/// once that line is served.
#[derive(Clone, Debug)]
pub struct OrderPlacement {
    pub transaction: Transaction,
    pub balance: Decimal,
    pub stocks: Vec<StockUpdate>,
}

/// A placement as values.
pub struct OrderPlacementView {
    pub transaction: TransactionView,
    pub balance: (int, nat),
    pub stocks: Seq<StockView>,
}

impl View for OrderPlacement {
    type V = OrderPlacementView;

    open spec fn view(&self) -> OrderPlacementView {
        OrderPlacementView {
            transaction: self.transaction@,
            balance: self.balance@,
            stocks: Seq::new(self.stocks@.len(), |i: int| self.stocks@[i]@),
        }
    }
}

// ---------------------------------------------------------------------------
// The rule
// ---------------------------------------------------------------------------

/// Where the first product with identifier `id` stands in `products`, or
/// their number if there is none.
pub open spec fn position(products: Seq<ProductView>, id: Seq<u8>) -> int
    decreases products.len(),
{
    if products.len() == 0 {
        0
    } else if products[0].id == id {
        0
    } else {
        1 + position(products.drop_first(), id)
    }
}

/// The product that `id` names. Meant for identifiers that name one.
pub open spec fn product_of(products: Seq<ProductView>, id: Seq<u8>) -> ProductView {
    products[position(products, id)]
}

/// Whether every line names a product among `products`.
pub open spec fn resolved(lines: Seq<LineItem>, products: Seq<ProductView>) -> bool {
    forall|i: int|
        0 <= i < lines.len() ==> position(products, (#[trigger] lines[i]).product)
            < products.len()
}

/// Whether the products of all lines belong to the merchant of the first.
pub open spec fn same_merchant(lines: Seq<LineItem>, products: Seq<ProductView>) -> bool {
    forall|i: int|
        0 <= i < lines.len() ==> product_of(products, (#[trigger] lines[i]).product).owner
            == product_of(products, lines[0].product).owner
}

/// Whether every quantity is greater than zero.
pub open spec fn quantities_positive(lines: Seq<LineItem>) -> bool {
    forall|i: int| 0 <= i < lines.len() ==> (#[trigger] lines[i]).quantity > 0
}

/// The price of a line: its quantity, as a whole amount, times the price of
/// its product. `None` where the quantity is out of range or the product
/// cannot be had exactly.
pub open spec fn line_price(line: LineItem, products: Seq<ProductView>) -> Option<(int, nat)> {
    if representable(line.quantity, 0) {
        exact_product((line.quantity, 0nat), product_of(products, line.product).price)
    } else {
        None
    }
}

/// What an order is worth, in units of 10^-28: for each line the quantity
/// times what the product's price is worth, summed.
pub open spec fn worth(lines: Seq<LineItem>, products: Seq<ProductView>) -> int
    decreases lines.len(),
{
    if lines.len() == 0 {
        0
    } else {
        worth(lines.drop_last(), products) + lines.last().quantity * units(
            product_of(products, lines.last().product).price,
        )
    }
}

/// The price of an order as an amount: the line prices, added up from zero
/// in the order of the lines. `None` where a line price or a sum cannot be
/// had exactly.
pub open spec fn total_price(lines: Seq<LineItem>, products: Seq<ProductView>) -> Option<
    (int, nat),
>
    decreases lines.len(),
{
    if lines.len() == 0 {
        Some((0int, 0nat))
    } else {
        match (total_price(lines.drop_last(), products), line_price(lines.last(), products)) {
            (Some(sum), Some(price)) => exact_sum(sum, price),
            _ => None,
        }
    }
}

/// How many of the product `id` the lines take in all.
pub open spec fn demand(lines: Seq<LineItem>, id: Seq<u8>) -> int
    decreases lines.len(),
{
    if lines.len() == 0 {
        0
    } else if lines.last().product == id {
        demand(lines.drop_last(), id) + lines.last().quantity
    } else {
        demand(lines.drop_last(), id)
    }
}

/// The stock that the product `id` is left with once `lines` are served.
pub open spec fn remaining(lines: Seq<LineItem>, products: Seq<ProductView>, id: Seq<u8>) -> int {
    product_of(products, id).stock - demand(lines, id)
}

/// Whether no line, served in order, takes a stock below zero.
pub open spec fn in_stock(lines: Seq<LineItem>, products: Seq<ProductView>) -> bool {
    forall|i: int|
        0 <= i < lines.len() ==> remaining(
            #[trigger] lines.take(i + 1),
            products,
            lines[i].product,
        ) >= 0
}

/// For each line, the stock its product is left with once the lines up to
/// and including it are served.
pub open spec fn stock_updates(lines: Seq<LineItem>, products: Seq<ProductView>) -> Seq<
    StockView,
> {
    Seq::new(
        lines.len(),
        |i: int|
            StockView {
                product: lines[i].product,
                stock: remaining(lines.take(i + 1), products, lines[i].product),
            },
    )
}

/// The order that a placement creates: in processing at the merchant, with no
/// courier, created and updated at `at`.
pub open spec fn new_order(
    buyer: Seq<u8>,
    lines: Seq<LineItem>,
    products: Seq<ProductView>,
    price: (int, nat),
    id: Seq<u8>,
    at: DateTime,
) -> TransactionView {
    TransactionView {
        id,
        user_id: buyer,
        merchant_id: product_of(products, lines[0].product).owner,
        courier_id: None,
        price,
        status: seq![
            TransactionStatus {
                status_type: TransactionStatusType::ProcessingInMerchant,
                date: at,
            },
        ],
        products: lines,
        created_at: at,
        updated_at: at,
    }
}

/// The first reason, if any, for which an order is refused. The checks come
/// in this order: every product is found; all belong to one merchant; the
/// merchant is not the buyer; every quantity is positive; the price can be
/// held; the balance covers it; every stock covers what is taken.
pub open spec fn refusal(
    buyer: Seq<u8>,
    balance: (int, nat),
    lines: Seq<LineItem>,
    products: Seq<ProductView>,
) -> Option<Error> {
    if lines.len() == 0 || !resolved(lines, products) {
        Some(Error::NoResource)
    } else if !same_merchant(lines, products) {
        Some(Error::MismatchMerchant)
    } else if product_of(products, lines[0].product).owner == buyer {
        Some(Error::CustomStr(FORBIDDEN, OWN_PRODUCT))
    } else if !quantities_positive(lines) {
        Some(Error::CustomStr(FORBIDDEN, QUANTITY_NOT_POSITIVE))
    } else if total_price(lines, products) is None {
        Some(Error::CustomStr(FORBIDDEN, OUT_OF_RANGE))
    } else if units(balance) < units(total_price(lines, products).unwrap()) {
        Some(Error::InsufficientFund)
    } else if exact_difference(balance, total_price(lines, products).unwrap()) is None {
        Some(Error::CustomStr(FORBIDDEN, OUT_OF_RANGE))
    } else if !in_stock(lines, products) {
        Some(Error::CustomStr(FORBIDDEN, QUANTITY_EXCEEDS_STOCK))
    } else {
        None
    }
}

/// The rule of `insert_order`: the refusal, or the order with the balance
/// and stocks that go with it.
pub open spec fn insert_order_rule(
    buyer: Seq<u8>,
    balance: (int, nat),
    lines: Seq<LineItem>,
    products: Seq<ProductView>,
    id: Seq<u8>,
    at: DateTime,
) -> Result<OrderPlacementView, Error> {
    match refusal(buyer, balance, lines, products) {
        Some(error) => Err(error),
        None => {
            let price = total_price(lines, products).unwrap();
            Ok(
                OrderPlacementView {
                    transaction: new_order(buyer, lines, products, price, id, at),
                    balance: exact_difference(balance, price).unwrap(),
                    stocks: stock_updates(lines, products),
                },
            )
        },
    }
}

/// Whether a placement returned what its rule gives.
pub open spec fn placement_agrees(
    got: Result<OrderPlacement, Error>,
    rule: Result<OrderPlacementView, Error>,
) -> bool {
    match (got, rule) {
        (Ok(p), Ok(v)) => p@ == v,
        (Err(e), Err(f)) => e == f,
        _ => false,
    }
}

// ---------------------------------------------------------------------------
// Facts about the rule
// ---------------------------------------------------------------------------

/// A position is within the list or just past it, and a position within the
/// list holds the identifier looked for.
pub proof fn lemma_position_bounds(products: Seq<ProductView>, id: Seq<u8>)
    ensures
        0 <= position(products, id) <= products.len(),
        position(products, id) < products.len() ==> products[position(products, id)].id == id,
    decreases products.len(),
{
    if products.len() > 0 && products[0].id != id {
        lemma_position_bounds(products.drop_first(), id);
    }
}

/// The first place at which an identifier stands is its position.
pub proof fn lemma_position_first(products: Seq<ProductView>, id: Seq<u8>, i: int)
    requires
        0 <= i <= products.len(),
        forall|k: int| 0 <= k < i ==> products[k].id != id,
        i == products.len() || products[i].id == id,
    ensures
        position(products, id) == i,
    decreases i,
{
    if i > 0 {
        lemma_position_first(products.drop_first(), id, i - 1);
    }
}

/// Where the price of the first `i` lines cannot be held, neither can that
/// of all.
pub proof fn lemma_total_price_none(lines: Seq<LineItem>, products: Seq<ProductView>, i: int)
    requires
        0 <= i <= lines.len(),
        total_price(lines.take(i), products) is None,
    ensures
        total_price(lines, products) is None,
    decreases lines.len() - i,
{
    if i < lines.len() {
        assert(lines.take(i + 1).drop_last() =~= lines.take(i));
        lemma_total_price_none(lines, products, i + 1);
    } else {
        assert(lines.take(i) =~= lines);
    }
}

/// Serving one more line takes its quantity from its own product and
/// nothing from any other.
pub proof fn lemma_demand_step(lines: Seq<LineItem>, id: Seq<u8>, i: int)
    requires
        0 <= i < lines.len(),
    ensures
        demand(lines.take(i + 1), id) == demand(lines.take(i), id) + if lines[i].product == id {
            lines[i].quantity
        } else {
            0
        },
{
    assert(lines.take(i + 1).drop_last() =~= lines.take(i));
}

// ---------------------------------------------------------------------------
// The operation
// ---------------------------------------------------------------------------

/// Whether `places` gives, for each line, where its product stands.
pub open spec fn located(
    places: Seq<usize>,
    lines: Seq<LineItem>,
    products: Seq<ProductView>,
) -> bool {
    &&& places.len() == lines.len()
    &&& forall|k: int|
        0 <= k < places.len() ==> (#[trigger] places[k]) < products.len() && places[k]
            == position(products, lines[k].product)
}

/// Where the first product with identifier `id` stands, if there is one.
fn find_product(products: &Vec<ProductModel>, id: &ObjectId) -> (r: Option<usize>)
    ensures
        match r {
            Some(j) => j < products.len() && j == position(product_views(products@), id@),
            None => position(product_views(products@), id@) == products.len(),
        },
{
    let ghost views = product_views(products@);
    let mut i: usize = 0;
    while i < products.len()
        invariant
            i <= products.len(),
            views == product_views(products@),
            forall|k: int| 0 <= k < i ==> views[k].id != id@,
        decreases products.len() - i,
    {
        if products[i].id.same(id) {
            proof {
                lemma_position_first(views, id@, i as int);
            }
            return Some(i);
        }
        i += 1;
    }
    proof {
        lemma_position_first(views, id@, i as int);
    }
    None
}

/// For each line, where its product stands; `None` where a line names no
/// product.
fn resolve(request: &InsertOrderRequest, products: &Vec<ProductModel>) -> (r: Option<Vec<usize>>)
    ensures
        match r {
            Some(places) => resolved(request@, product_views(products@)) && located(
                places@,
                request@,
                product_views(products@),
            ),
            None => !resolved(request@, product_views(products@)),
        },
{
    let ghost lines = request@;
    let ghost views = product_views(products@);
    let mut places: Vec<usize> = Vec::new();
    let mut i: usize = 0;
    while i < request.products.len()
        invariant
            i <= request.products.len(),
            lines == request@,
            views == product_views(products@),
            places.len() == i,
            forall|k: int|
                0 <= k < i ==> (#[trigger] places[k]) < products.len() && places[k] == position(
                    views,
                    lines[k].product,
                ),
        decreases request.products.len() - i,
    {
        match find_product(products, &request.products[i].product_id) {
            Some(j) => {
                places.push(j);
            },
            None => {
                assert(position(views, lines[i as int].product) == views.len());
                return None;
            },
        }
        i += 1;
    }
    assert forall|k: int| 0 <= k < lines.len() implies position(
        views,
        (#[trigger] lines[k]).product,
    ) < views.len() by {
        assert(places[k] < products.len());
    }
    Some(places)
}

/// The price of the request, or `None` where it cannot be held.
fn price_of(request: &InsertOrderRequest, products: &Vec<ProductModel>, places: &Vec<usize>) -> (r:
    Option<Decimal>)
    requires
        located(places@, request@, product_views(products@)),
    ensures
        match r {
            Some(price) => total_price(request@, product_views(products@)) == Some(price@),
            None => total_price(request@, product_views(products@)) is None,
        },
{
    let ghost lines = request@;
    let ghost views = product_views(products@);
    let mut total = Decimal::zero();
    let mut i: usize = 0;
    while i < request.products.len()
        invariant
            i <= request.products.len(),
            lines == request@,
            views == product_views(products@),
            located(places@, lines, views),
            total_price(lines.take(i as int), views) == Some(total@),
        decreases request.products.len() - i,
    {
        proof {
            assert(lines.take(i + 1).drop_last() =~= lines.take(i as int));
        }
        let amount = decimal_from_bigint(&request.products[i].quantity);
        let item = match amount {
            Some(quantity) => quantity.exact_mul(&products[places[i]].price),
            None => None,
        };
        let sum = match item {
            Some(item) => total.exact_add(&item),
            None => None,
        };
        match sum {
            Some(sum) => {
                total = sum;
            },
            None => {
                proof {
                    lemma_total_price_none(lines, views, i + 1);
                }
                return None;
            },
        }
        i += 1;
    }
    assert(lines.take(i as int) =~= lines);
    Some(total)
}

/// For each line, in order, the stock its product is left with; `None` where
/// a line takes more than is left.
fn take_stock(request: &InsertOrderRequest, products: &Vec<ProductModel>, places: &Vec<usize>) -> (r:
    Option<Vec<StockUpdate>>)
    requires
        located(places@, request@, product_views(products@)),
    ensures
        match r {
            Some(stocks) => {
                &&& in_stock(request@, product_views(products@))
                &&& Seq::new(stocks@.len(), |i: int| stocks@[i]@) == stock_updates(
                    request@,
                    product_views(products@),
                )
            },
            None => !in_stock(request@, product_views(products@)),
        },
{
    let ghost lines = request@;
    let ghost views = product_views(products@);
    let mut current: Vec<BigInt> = Vec::new();
    let mut j: usize = 0;
    while j < products.len()
        invariant
            j <= products.len(),
            views == product_views(products@),
            current.len() == j,
            forall|k: int| 0 <= k < j ==> (#[trigger] current[k])@ == views[k].stock,
        decreases products.len() - j,
    {
        current.push(products[j].stock.duplicate());
        j += 1;
    }
    let zero = BigInt::zero();
    let mut stocks: Vec<StockUpdate> = Vec::new();
    let mut i: usize = 0;
    while i < request.products.len()
        invariant
            i <= request.products.len(),
            lines == request@,
            views == product_views(products@),
            zero@ == 0,
            located(places@, lines, views),
            current.len() == products.len(),
            forall|k: int|
                0 <= k < current.len() ==> (#[trigger] current[k])@ == views[k].stock - if position(
                    views,
                    views[k].id,
                ) == k {
                    demand(lines.take(i as int), views[k].id)
                } else {
                    0
                },
            stocks.len() == i,
            forall|k: int| 0 <= k < i ==> (#[trigger] stocks[k])@ == stock_updates(lines, views)[k],
            forall|k: int|
                0 <= k < i ==> remaining(#[trigger] lines.take(k + 1), views, lines[k].product)
                    >= 0,
        decreases request.products.len() - i,
    {
        let place = places[i];
        let ghost id = lines[i as int].product;
        proof {
            lemma_position_bounds(views, id);
            lemma_demand_step(lines, id, i as int);
        }
        let left = bigint_sub(&current[place], &request.products[i].quantity);
        if bigint_lt(&left, &zero) {
            return None;
        }
        stocks.push(
            StockUpdate { product_id: request.products[i].product_id, stock: left.duplicate() },
        );
        current.set(place, left);
        proof {
            assert forall|k: int| 0 <= k < current.len() implies (#[trigger] current[k])@
                == views[k].stock - if position(views, views[k].id) == k {
                demand(lines.take(i + 1), views[k].id)
            } else {
                0
            } by {
                lemma_demand_step(lines, views[k].id, i as int);
            }
        }
        i += 1;
    }
    Some(stocks)
}

/// The lines of a request as an order holds them.
fn lines_of(request: &InsertOrderRequest) -> (lines: Vec<ProductTransaction>)
    ensures
        crate::transaction::line_views(lines@) == request@,
{
    let mut lines: Vec<ProductTransaction> = Vec::new();
    let mut i: usize = 0;
    while i < request.products.len()
        invariant
            i <= request.products.len(),
            crate::transaction::line_views(lines@) == request@.take(i as int),
        decreases request.products.len() - i,
    {
        let ghost before = crate::transaction::line_views(lines@);
        lines.push(
            ProductTransaction {
                id: request.products[i].product_id,
                quantity: request.products[i].quantity.duplicate(),
            },
        );
        assert(crate::transaction::line_views(lines@) =~= before.push(request@[i as int]));
        i += 1;
    }
    lines
}

/// Places the order that `request` asks for on behalf of `user`, under the
/// identifier `id` and at the instant `at`. `products` are the products that
/// the request names, as stored.
pub fn insert_order_at(
    user: &UserModel,
    request: &InsertOrderRequest,
    products: &Vec<ProductModel>,
    id: ObjectId,
    at: DateTime,
) -> (r: Result<OrderPlacement, Error>)
    ensures
        placement_agrees(
            r,
            insert_order_rule(
                user.id@,
                user.balance@,
                request@,
                product_views(products@),
                id@,
                at,
            ),
        ),
{
    let ghost lines = request@;
    let ghost views = product_views(products@);
    let n = request.products.len();
    if n == 0 {
        return Err(Error::NoResource);
    }
    let places = match resolve(request, products) {
        Some(places) => places,
        None => { return Err(Error::NoResource); },
    };
    let first = places[0];
    let mut i: usize = 1;
    while i < n
        invariant
            1 <= i <= n,
            n == request.products.len(),
            lines == request@,
            views == product_views(products@),
            first == places[0],
            first < products.len(),
            product_of(views, lines[0].product) == products[first as int]@,
            located(places@, lines, views),
            resolved(lines, views),
            forall|k: int|
                0 <= k < i ==> product_of(views, (#[trigger] lines[k]).product).owner
                    == product_of(views, lines[0].product).owner,
        decreases n - i,
    {
        if !products[places[i]].user_id.same(&products[first].user_id) {
            assert(product_of(views, lines[i as int].product).owner != product_of(
                views,
                lines[0].product,
            ).owner);
            return Err(Error::MismatchMerchant);
        }
        i += 1;
    }
    if products[first].user_id.same(&user.id) {
        return Err(Error::CustomStr(FORBIDDEN, OWN_PRODUCT));
    }
    let mut i: usize = 0;
    while i < n
        invariant
            i <= n,
            0 < n == request.products.len(),
            lines == request@,
            views == product_views(products@),
            resolved(lines, views),
            same_merchant(lines, views),
            product_of(views, lines[0].product).owner != user.id@,
            forall|k: int| 0 <= k < i ==> (#[trigger] lines[k]).quantity > 0,
        decreases n - i,
    {
        if !request.products[i].quantity.is_positive() {
            assert(!(lines[i as int].quantity > 0));
            return Err(Error::CustomStr(FORBIDDEN, QUANTITY_NOT_POSITIVE));
        }
        i += 1;
    }
    let price = match price_of(request, products, &places) {
        Some(price) => price,
        None => { return Err(Error::CustomStr(FORBIDDEN, OUT_OF_RANGE)); },
    };
    if decimal_lt(user.balance, price) {
        return Err(Error::InsufficientFund);
    }
    let balance = match user.balance.exact_sub(&price) {
        Some(balance) => balance,
        None => { return Err(Error::CustomStr(FORBIDDEN, OUT_OF_RANGE)); },
    };
    let stocks = match take_stock(request, products, &places) {
        Some(stocks) => stocks,
        None => { return Err(Error::CustomStr(FORBIDDEN, QUANTITY_EXCEEDS_STOCK)); },
    };
    let mut status: Vec<TransactionStatus> = Vec::new();
    status.push(TransactionStatus::at(TransactionStatusType::ProcessingInMerchant, at));
    let transaction = Transaction {
        id,
        user_id: user.id,
        merchant_id: products[first].user_id,
        courier_id: None,
        price,
        status,
        products: lines_of(request),
        created_at: at,
        updated_at: at,
    };
    proof {
        assert(transaction.status@ =~= seq![
            TransactionStatus {
                status_type: TransactionStatusType::ProcessingInMerchant,
                date: at,
            },
        ]);
    }
    Ok(OrderPlacement { transaction, balance, stocks })
}

/// Places the order that `request` asks for on behalf of `user`, now and
/// under a fresh identifier.
pub fn insert_order(
    user: &UserModel,
    request: &InsertOrderRequest,
    products: &Vec<ProductModel>,
) -> (r: Result<OrderPlacement, Error>)
    ensures
        exists|id: Seq<u8>, at: DateTime|
            placement_agrees(
                r,
                insert_order_rule(
                    user.id@,
                    user.balance@,
                    request@,
                    product_views(products@),
                    id,
                    at,
                ),
            ),
{
    let id = fresh_object_id();
    let at = now();
    insert_order_at(user, request, products, id, at)
}

// ---------------------------------------------------------------------------
// What holds of every placement
// ---------------------------------------------------------------------------

/// Lines with positive quantities take at least nothing of any product.
pub proof fn lemma_demand_nonnegative(lines: Seq<LineItem>, id: Seq<u8>)
    requires
        quantities_positive(lines),
    ensures
        demand(lines, id) >= 0,
    decreases lines.len(),
{
    if lines.len() > 0 {
        lemma_demand_nonnegative(lines.drop_last(), id);
    }
}

/// A placed order is well-formed: it is in processing at a merchant other than
/// the buyer, holds at least one line, all quantities positive, and has no
/// courier.
pub proof fn lemma_placed_order_well_formed(
    buyer: Seq<u8>,
    balance: (int, nat),
    lines: Seq<LineItem>,
    products: Seq<ProductView>,
    id: Seq<u8>,
    at: DateTime,
)
    requires
        insert_order_rule(buyer, balance, lines, products, id, at) is Ok,
    ensures
        crate::transaction::well_formed(
            insert_order_rule(buyer, balance, lines, products, id, at).unwrap().transaction,
        ),
{
}

/// The price of an order is worth what its lines are worth: the quantities
/// times the prices, summed, with nothing rounded.
pub proof fn lemma_total_price_exact(lines: Seq<LineItem>, products: Seq<ProductView>)
    requires
        total_price(lines, products) is Some,
    ensures
        units(total_price(lines, products).unwrap()) == worth(lines, products),
    decreases lines.len(),
{
    if lines.len() > 0 {
        let line = line_price(lines.last(), products).unwrap();
        lemma_total_price_exact(lines.drop_last(), products);
        lemma_exact_product_of_whole(
            lines.last().quantity,
            product_of(products, lines.last().product).price,
            line,
        );
    } else {
    }
}

/// A placement pays the order's price out of the buyer's balance, which
/// covers it, and takes each line's quantity out of the stock of its
/// product, none of which goes below zero: the balance returned is worth the
/// balance less the price and is not negative, the price is worth the
/// quantities times the prices, and the stock returned for a line is what
/// its product had less all that the lines up to it took.
pub proof fn lemma_placement_accounts(
    buyer: Seq<u8>,
    balance: (int, nat),
    lines: Seq<LineItem>,
    products: Seq<ProductView>,
    id: Seq<u8>,
    at: DateTime,
)
    requires
        insert_order_rule(buyer, balance, lines, products, id, at) is Ok,
    ensures
        ({
            let placed = insert_order_rule(buyer, balance, lines, products, id, at).unwrap();
            &&& Some(placed.transaction.price) == total_price(lines, products)
            &&& units(placed.transaction.price) == worth(lines, products)
            &&& units(placed.balance) == units(balance) - units(placed.transaction.price)
            &&& units(placed.balance) >= 0
            &&& placed.transaction.products == lines
            &&& placed.stocks.len() == lines.len()
            &&& forall|i: int|
                0 <= i < lines.len() ==> {
                    &&& (#[trigger] placed.stocks[i]).product == lines[i].product
                    &&& placed.stocks[i].stock == product_of(products, lines[i].product).stock
                        - demand(lines.take(i + 1), lines[i].product)
                    &&& placed.stocks[i].stock >= 0
                }
        }),
{
    lemma_total_price_exact(lines, products);
}

/// The stock written last for a product is what it had less all that the
/// order takes of it.
pub proof fn lemma_final_stock(
    buyer: Seq<u8>,
    balance: (int, nat),
    lines: Seq<LineItem>,
    products: Seq<ProductView>,
    id: Seq<u8>,
    at: DateTime,
    i: int,
)
    requires
        insert_order_rule(buyer, balance, lines, products, id, at) is Ok,
        0 <= i < lines.len(),
        forall|k: int| i < k < lines.len() ==> lines[k].product != lines[i].product,
    ensures
        insert_order_rule(buyer, balance, lines, products, id, at).unwrap().stocks[i].stock
            == product_of(products, lines[i].product).stock - demand(lines, lines[i].product),
        insert_order_rule(buyer, balance, lines, products, id, at).unwrap().stocks[i].stock
            == product_of(products, lines[i].product).stock - taken_of(
            lines,
            products,
            position(products, lines[i].product),
        ),
{
    lemma_position_bounds(products, lines[i].product);
    lemma_demand_of_later_lines(lines, lines[i].product, i + 1);
}

/// Lines that do not name a product add nothing to what is taken of it.
pub proof fn lemma_demand_of_later_lines(lines: Seq<LineItem>, id: Seq<u8>, n: int)
    requires
        0 <= n <= lines.len(),
        forall|k: int| n <= k < lines.len() ==> lines[k].product != id,
    ensures
        demand(lines, id) == demand(lines.take(n), id),
    decreases lines.len() - n,
{
    if n < lines.len() {
        lemma_demand_step(lines, id, n);
        lemma_demand_of_later_lines(lines, id, n + 1);
    } else {
        assert(lines.take(n) =~= lines);
    }
}

/// An order is refused for one of four kinds of reason: a product is not
/// found, the products belong to more than one merchant, the order is
/// forbidden, or the balance does not cover it.
pub proof fn lemma_refusal_kinds(
    buyer: Seq<u8>,
    balance: (int, nat),
    lines: Seq<LineItem>,
    products: Seq<ProductView>,
)
    requires
        refusal(buyer, balance, lines, products) is Some,
    ensures
        ({
            let error = refusal(buyer, balance, lines, products).unwrap();
            ||| error == Error::NoResource && status_of(error) == NOT_FOUND
            ||| error == Error::MismatchMerchant && status_of(error) == UNPROCESSABLE_ENTITY
            ||| error matches Error::CustomStr(code, _) && code == FORBIDDEN && status_of(error)
                == FORBIDDEN
            ||| error == Error::InsufficientFund && status_of(error) == PAYMENT_REQUIRED
        }),
{
}

/// An order for products that all belong to the buyer is refused as
/// forbidden, whatever the quantities, prices and balance.
pub proof fn lemma_own_product_refused(
    buyer: Seq<u8>,
    balance: (int, nat),
    lines: Seq<LineItem>,
    products: Seq<ProductView>,
    id: Seq<u8>,
    at: DateTime,
)
    requires
        lines.len() > 0,
        resolved(lines, products),
        forall|i: int|
            0 <= i < lines.len() ==> product_of(products, (#[trigger] lines[i]).product).owner
                == buyer,
    ensures
        insert_order_rule(buyer, balance, lines, products, id, at) == Err::<
            OrderPlacementView,
            Error,
        >(Error::CustomStr(FORBIDDEN, OWN_PRODUCT)),
        status_of(Error::CustomStr(FORBIDDEN, OWN_PRODUCT)) == FORBIDDEN,
{
}

/// An order whose products belong to two different merchants is refused
/// with `MismatchMerchant`.
pub proof fn lemma_mixed_merchants_refused(
    buyer: Seq<u8>,
    balance: (int, nat),
    lines: Seq<LineItem>,
    products: Seq<ProductView>,
    id: Seq<u8>,
    at: DateTime,
    i: int,
    j: int,
)
    requires
        resolved(lines, products),
        0 <= i < lines.len(),
        0 <= j < lines.len(),
        product_of(products, lines[i].product).owner != product_of(
            products,
            lines[j].product,
        ).owner,
    ensures
        insert_order_rule(buyer, balance, lines, products, id, at) == Err::<
            OrderPlacementView,
            Error,
        >(Error::MismatchMerchant),
{
    if same_merchant(lines, products) {
        assert(product_of(products, lines[i].product).owner == product_of(
            products,
            lines[0].product,
        ).owner);
        assert(product_of(products, lines[j].product).owner == product_of(
            products,
            lines[0].product,
        ).owner);
    }
}

/// An order that passes every earlier check and costs more than the buyer's
/// balance is refused with `InsufficientFund`; being refused, it writes
/// nothing.
pub proof fn lemma_insufficient_balance_refused(
    buyer: Seq<u8>,
    balance: (int, nat),
    lines: Seq<LineItem>,
    products: Seq<ProductView>,
    id: Seq<u8>,
    at: DateTime,
)
    requires
        lines.len() > 0,
        resolved(lines, products),
        same_merchant(lines, products),
        product_of(products, lines[0].product).owner != buyer,
        quantities_positive(lines),
        total_price(lines, products) is Some,
        units(balance) < units(total_price(lines, products).unwrap()),
    ensures
        insert_order_rule(buyer, balance, lines, products, id, at) == Err::<
            OrderPlacementView,
            Error,
        >(Error::InsufficientFund),
{
}

/// An order with a line that asks for more than its product has in stock is
/// refused; being refused, it leaves every stock as it was.
pub proof fn lemma_short_stock_refused(
    buyer: Seq<u8>,
    balance: (int, nat),
    lines: Seq<LineItem>,
    products: Seq<ProductView>,
    id: Seq<u8>,
    at: DateTime,
    i: int,
)
    requires
        0 <= i < lines.len(),
        lines[i].quantity > product_of(products, lines[i].product).stock,
    ensures
        insert_order_rule(buyer, balance, lines, products, id, at) is Err,
{
    if quantities_positive(lines) {
        lemma_demand_nonnegative(lines.take(i), lines[i].product);
        lemma_demand_step(lines, lines[i].product, i);
    }
}

/// How many items the lines ask for in all.
pub open spec fn quantity_sum(lines: Seq<LineItem>) -> int
    decreases lines.len(),
{
    if lines.len() == 0 {
        0
    } else {
        quantity_sum(lines.drop_last()) + lines.last().quantity
    }
}

/// How much the lines take of the product at place `j`: what they ask of
/// its identifier, where it is the product that the identifier names.
pub open spec fn taken_of(lines: Seq<LineItem>, products: Seq<ProductView>, j: int) -> int {
    if position(products, products[j].id) == j {
        demand(lines, products[j].id)
    } else {
        0
    }
}

/// How much the lines take of the first `n` products together.
pub open spec fn taken_of_first(lines: Seq<LineItem>, products: Seq<ProductView>, n: int) -> int
    decreases n,
{
    if n <= 0 {
        0
    } else {
        taken_of_first(lines, products, n - 1) + taken_of(lines, products, n - 1)
    }
}

/// One more line takes its quantity of the product it names, if that is
/// among the first `n`, and nothing of the others.
proof fn lemma_taken_step(lines: Seq<LineItem>, products: Seq<ProductView>, n: int)
    requires
        lines.len() > 0,
        0 <= n <= products.len(),
        position(products, lines.last().product) < products.len(),
    ensures
        taken_of_first(lines, products, n) == taken_of_first(lines.drop_last(), products, n)
            + if position(products, lines.last().product) < n {
            lines.last().quantity
        } else {
            0
        },
    decreases n,
{
    lemma_position_bounds(products, lines.last().product);
    if n > 0 {
        let j = n - 1;
        let place = position(products, lines.last().product);
        lemma_taken_step(lines, products, j);
        assert(place == j <==> (position(products, products[j].id) == j && lines.last().product
            == products[j].id));
        assert(taken_of(lines, products, j) == taken_of(lines.drop_last(), products, j) + if place
            == j {
            lines.last().quantity
        } else {
            0
        });
    }
}

/// What an order takes of all products together is what its lines ask for:
/// the stocks go down, in all, by the sum of the quantities.
pub proof fn lemma_stock_taken_in_all(lines: Seq<LineItem>, products: Seq<ProductView>)
    requires
        resolved(lines, products),
    ensures
        taken_of_first(lines, products, products.len() as int) == quantity_sum(lines),
    decreases lines.len(),
{
    if lines.len() == 0 {
        lemma_nothing_taken(lines, products, products.len() as int);
    } else {
        lemma_stock_taken_in_all(lines.drop_last(), products);
        lemma_taken_step(lines, products, products.len() as int);
    }
}

/// No lines take nothing.
proof fn lemma_nothing_taken(lines: Seq<LineItem>, products: Seq<ProductView>, n: int)
    requires
        lines.len() == 0,
    ensures
        taken_of_first(lines, products, n) == 0,
    decreases n,
{
    if n > 0 {
        lemma_nothing_taken(lines, products, n - 1);
    }
}

} // verus!

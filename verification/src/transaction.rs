//! Orders: their record, the status history, and the delivery workflow.
//!
//! Every operation here is a decision on values already read from storage:
//! it takes the caller and the stored order, and returns the order as it has
//! to be written back, or the failure to report.

use vstd::prelude::*;
use crate::auth::{may_deliver, UserAccess, UserRole};
use crate::bigint::BigInt;
use crate::decimal::{exact_sum, units, Decimal};
use crate::error::Error;
use crate::util::{now, DateTime, ObjectId};

verus! {

/// The stage that an order is in.
#[derive(Clone, Copy, Debug, PartialEq, Eq, Structural)]
pub enum TransactionStatusType {
    WaitingForMerchantConfirmation,
    ProcessingInMerchant,
    WaitingForCourier,
    PickedUpByCourier,
    SendBackToMerchant,
    ArrivedInMerchant,
    ArrivedInDestination,
    ArrivedInDestinationConfirmed,
}

/// One entry of an order's history: the stage entered, and when.
#[derive(Clone, Copy, Debug, PartialEq, Eq, Structural)]
pub struct TransactionStatus {
    pub status_type: TransactionStatusType,
    pub date: DateTime,
}

impl TransactionStatus {
    /// An entry for `status_type`, dated by the clock.
    pub fn new(status_type: TransactionStatusType) -> (entry: TransactionStatus)
        ensures
            entry.status_type == status_type,
    {
        TransactionStatus { status_type, date: now() }
    }

    /// An entry for `status_type`, dated `date`.
    pub fn at(status_type: TransactionStatusType, date: DateTime) -> (entry: TransactionStatus)
        ensures
            entry == (TransactionStatus { status_type, date }),
    {
        TransactionStatus { status_type, date }
    }
}

/// A product and how many of it, as an order holds them.
#[derive(Clone, Debug)]
pub struct ProductTransaction {
    pub id: ObjectId,
    pub quantity: BigInt,
}

/// A line of an order: the product's identifier and the quantity.
pub struct LineItem {
    pub product: Seq<u8>,
    pub quantity: int,
}

impl View for ProductTransaction {
    type V = LineItem;

    open spec fn view(&self) -> LineItem {
        LineItem { product: self.id@, quantity: self.quantity@ }
    }
}

/// An order as it is stored.
#[derive(Clone, Debug)]
pub struct Transaction {
    pub id: ObjectId,
    pub user_id: ObjectId,
    pub merchant_id: ObjectId,
    pub courier_id: Option<ObjectId>,
    pub price: Decimal,
    pub status: Vec<TransactionStatus>,
    pub products: Vec<ProductTransaction>,
    pub created_at: DateTime,
    pub updated_at: DateTime,
}

/// An order as a value: identifiers as bytes, amounts as numbers.
pub struct TransactionView {
    pub id: Seq<u8>,
    pub user_id: Seq<u8>,
    pub merchant_id: Seq<u8>,
    pub courier_id: Option<Seq<u8>>,
    pub price: (int, nat),
    pub status: Seq<TransactionStatus>,
    pub products: Seq<LineItem>,
    pub created_at: DateTime,
    pub updated_at: DateTime,
}

/// The bytes of an identifier that may be absent.
pub open spec fn id_view(id: Option<ObjectId>) -> Option<Seq<u8>> {
    match id {
        Some(id) => Some(id@),
        None => None,
    }
}

/// The lines that a list of order products stands for.
pub open spec fn line_views(products: Seq<ProductTransaction>) -> Seq<LineItem> {
    Seq::new(products.len(), |i: int| products[i]@)
}

impl View for Transaction {
    type V = TransactionView;

    open spec fn view(&self) -> TransactionView {
        TransactionView {
            id: self.id@,
            user_id: self.user_id@,
            merchant_id: self.merchant_id@,
            courier_id: id_view(self.courier_id),
            price: self.price@,
            status: self.status@,
            products: line_views(self.products@),
            created_at: self.created_at,
            updated_at: self.updated_at,
        }
    }
}

/// The view of an order that may be absent.
pub open spec fn found(transaction: Option<Transaction>) -> Option<TransactionView> {
    match transaction {
        Some(t) => Some(t@),
        None => None,
    }
}

/// The stage an order is in: that of the last entry of its history.
pub open spec fn current_status(history: Seq<TransactionStatus>) -> Option<
    TransactionStatusType,
> {
    if history.len() == 0 {
        None
    } else {
        Some(history.last().status_type)
    }
}

/// Whether a courier holds the order in this stage.
pub open spec fn in_transit(stage: TransactionStatusType) -> bool {
    stage == TransactionStatusType::PickedUpByCourier || stage
        == TransactionStatusType::SendBackToMerchant
}

/// What holds of every order that was placed and then moved only by the
/// operations of this module.
pub open spec fn well_formed(t: TransactionView) -> bool {
    &&& t.status.len() > 0
    &&& t.status[0].status_type == TransactionStatusType::ProcessingInMerchant
    &&& t.merchant_id != t.user_id
    &&& t.products.len() > 0
    &&& forall|i: int| 0 <= i < t.products.len() ==> (#[trigger] t.products[i]).quantity > 0
    &&& (t.courier_id is Some <==> in_transit(t.status.last().status_type))
}

/// The order after it entered `stage` at `at`.
pub open spec fn pushed(
    t: TransactionView,
    stage: TransactionStatusType,
    at: DateTime,
) -> TransactionView {
    TransactionView {
        status: t.status.push(TransactionStatus { status_type: stage, date: at }),
        updated_at: at,
        ..t
    }
}

/// Whether an operation returned what its rule gives.
pub open spec fn agrees(
    got: Result<Transaction, Error>,
    rule: Result<TransactionView, Error>,
) -> bool {
    match (got, rule) {
        (Ok(t), Ok(v)) => t@ == v,
        (Err(e), Err(f)) => e == f,
        _ => false,
    }
}

impl Transaction {
    /// The stage the order is in, if its history has an entry.
    pub fn current(&self) -> (stage: Option<TransactionStatusType>)
        ensures
            stage == current_status(self.status@),
    {
        let n = self.status.len();
        if n == 0 {
            None
        } else {
            Some(self.status[n - 1].status_type)
        }
    }

    /// Whether `id` is the courier on record.
    pub fn is_courier(&self, id: &ObjectId) -> (r: bool)
        ensures
            r == (self@.courier_id == Some(id@)),
    {
        match &self.courier_id {
            Some(courier) => courier.same(id),
            None => false,
        }
    }
}

// ---------------------------------------------------------------------------
// Confirmation by the merchant
// ---------------------------------------------------------------------------

/// Whether `user` may confirm the order: it is the order's merchant, and the
/// order is being processed there. The role plays no part.
pub open spec fn may_confirm(user: UserAccess, t: TransactionView) -> bool {
    t.merchant_id == user.id@ && current_status(t.status) == Some(
        TransactionStatusType::ProcessingInMerchant,
    )
}

/// The rule of `confirm_processing`.
pub open spec fn confirm_processing_rule(
    user: UserAccess,
    transaction: Option<TransactionView>,
    at: DateTime,
) -> Result<TransactionView, Error> {
    match transaction {
        Some(t) if may_confirm(user, t) => Ok(
            pushed(t, TransactionStatusType::WaitingForCourier, at),
        ),
        _ => Err(Error::Forbidden),
    }
}

/// The merchant hands the order over for delivery, at the instant `at`.
pub fn confirm_processing_at(
    user: &UserAccess,
    transaction: Option<Transaction>,
    at: DateTime,
) -> (r: Result<Transaction, Error>)
    ensures
        agrees(r, confirm_processing_rule(*user, found(transaction), at)),
{
    let mut item = match transaction {
        Some(item) => item,
        None => { return Err(Error::Forbidden); },
    };
    if !item.merchant_id.same(&user.id) {
        return Err(Error::Forbidden);
    }
    match item.current() {
        Some(TransactionStatusType::ProcessingInMerchant) => {},
        _ => { return Err(Error::Forbidden); },
    }
    item.status.push(TransactionStatus::at(TransactionStatusType::WaitingForCourier, at));
    item.updated_at = at;
    Ok(item)
}

/// The merchant hands the order over for delivery, now.
pub fn confirm_processing(user: &UserAccess, transaction: Option<Transaction>) -> (r: Result<
    Transaction,
    Error,
>)
    ensures
        exists|at: DateTime| agrees(r, confirm_processing_rule(*user, found(transaction), at)),
{
    let at = now();
    confirm_processing_at(user, transaction, at)
}

// ---------------------------------------------------------------------------
// Pickup by a courier
// ---------------------------------------------------------------------------

/// Whether `user` may pick the order up: a courier or admin, an order that
/// waits for a courier, and no courier on record.
pub open spec fn may_pickup(user: UserAccess, t: TransactionView) -> bool {
    &&& may_deliver(user.role)
    &&& current_status(t.status) == Some(TransactionStatusType::WaitingForCourier)
    &&& t.courier_id is None
}

/// The rule of `pickup`.
pub open spec fn pickup_rule(
    user: UserAccess,
    transaction: Option<TransactionView>,
    at: DateTime,
) -> Result<TransactionView, Error> {
    match transaction {
        Some(t) if may_pickup(user, t) => Ok(
            TransactionView {
                courier_id: Some(user.id@),
                ..pushed(t, TransactionStatusType::PickedUpByCourier, at)
            },
        ),
        _ => Err(Error::Forbidden),
    }
}

/// A courier takes the order, at the instant `at`.
pub fn pickup_at(user: &UserAccess, transaction: Option<Transaction>, at: DateTime) -> (r: Result<
    Transaction,
    Error,
>)
    ensures
        agrees(r, pickup_rule(*user, found(transaction), at)),
{
    if !user.role.delivers() {
        return Err(Error::Forbidden);
    }
    let mut item = match transaction {
        Some(item) => item,
        None => { return Err(Error::Forbidden); },
    };
    match item.current() {
        Some(TransactionStatusType::WaitingForCourier) => {},
        _ => { return Err(Error::Forbidden); },
    }
    if item.courier_id.is_some() {
        return Err(Error::Forbidden);
    }
    item.status.push(TransactionStatus::at(TransactionStatusType::PickedUpByCourier, at));
    item.updated_at = at;
    item.courier_id = Some(user.id);
    Ok(item)
}

/// A courier takes the order, now.
pub fn pickup(user: &UserAccess, transaction: Option<Transaction>) -> (r: Result<
    Transaction,
    Error,
>)
    ensures
        exists|at: DateTime| agrees(r, pickup_rule(*user, found(transaction), at)),
{
    let at = now();
    pickup_at(user, transaction, at)
}

// ---------------------------------------------------------------------------
// Delivery by the courier on record
// ---------------------------------------------------------------------------

/// The body of a request to move a delivery on.
#[derive(Clone, Copy, Debug)]
pub struct ChangeDeliveryRequest {
    pub status_type: TransactionStatusType,
}

/// The moves open to the courier who holds an order: from pickup to the
/// destination or back towards the merchant, and from there to the merchant.
pub open spec fn delivery_step(
    current: TransactionStatusType,
    requested: TransactionStatusType,
) -> bool {
    ||| (current == TransactionStatusType::PickedUpByCourier && (requested
        == TransactionStatusType::ArrivedInDestination || requested
        == TransactionStatusType::SendBackToMerchant))
    ||| (current == TransactionStatusType::SendBackToMerchant && requested
        == TransactionStatusType::ArrivedInMerchant)
}

/// Whether an actor may move a delivery from `current` to `requested`: only a
/// courier or admin who is the courier on record, and only along
/// `delivery_step`.
pub fn transition_allowed(
    current: TransactionStatusType,
    requested: TransactionStatusType,
    actor_role: UserRole,
    actor_is_courier_of_record: bool,
) -> (allowed: bool)
    ensures
        allowed == (may_deliver(actor_role) && actor_is_courier_of_record && delivery_step(
            current,
            requested,
        )),
{
    if !actor_role.delivers() || !actor_is_courier_of_record {
        return false;
    }
    match current {
        TransactionStatusType::PickedUpByCourier => match requested {
            TransactionStatusType::ArrivedInDestination
            | TransactionStatusType::SendBackToMerchant => true,
            _ => false,
        },
        TransactionStatusType::SendBackToMerchant => match requested {
            TransactionStatusType::ArrivedInMerchant => true,
            _ => false,
        },
        TransactionStatusType::WaitingForCourier
        | TransactionStatusType::ProcessingInMerchant
        | TransactionStatusType::ArrivedInDestination
        | TransactionStatusType::ArrivedInDestinationConfirmed
        | TransactionStatusType::WaitingForMerchantConfirmation
        | TransactionStatusType::ArrivedInMerchant => false,
    }
}

/// Whether `user` may move the order to `requested`.
pub open spec fn may_change(
    user: UserAccess,
    t: TransactionView,
    requested: TransactionStatusType,
) -> bool {
    &&& may_deliver(user.role)
    &&& t.courier_id == Some(user.id@)
    &&& t.status.len() > 0
    &&& delivery_step(t.status.last().status_type, requested)
}

/// The order after the courier moved it to `requested` at `at`. Arrival at
/// the merchant puts the order back into processing there; that and arrival
/// at the destination end the courier's hold on it.
pub open spec fn delivered(
    t: TransactionView,
    requested: TransactionStatusType,
    at: DateTime,
) -> TransactionView {
    if requested == TransactionStatusType::ArrivedInMerchant {
        TransactionView {
            courier_id: None,
            ..pushed(pushed(t, requested, at), TransactionStatusType::ProcessingInMerchant, at)
        }
    } else if requested == TransactionStatusType::ArrivedInDestination {
        TransactionView { courier_id: None, ..pushed(t, requested, at) }
    } else {
        pushed(t, requested, at)
    }
}

/// What a delivery move writes: the order, and the merchant's new balance
/// where the move settles the order.
#[derive(Clone, Debug)]
pub struct DeliveryChange {
    pub transaction: Transaction,
    pub merchant_balance: Option<Decimal>,
}

/// A delivery move as values.
pub struct DeliveryChangeView {
    pub transaction: TransactionView,
    pub merchant_balance: Option<(int, nat)>,
}

/// The amount that a balance that may be absent stands for.
pub open spec fn balance_view(balance: Option<Decimal>) -> Option<(int, nat)> {
    match balance {
        Some(b) => Some(b@),
        None => None,
    }
}

/// The merchant's balance after a move to `requested`: the balance read plus
/// the order's price on arrival at the destination, where that sum can be
/// had exactly, and no new balance on any other move or where the merchant
/// has no account.
pub open spec fn settled_balance(
    t: TransactionView,
    requested: TransactionStatusType,
    merchant_balance: Option<(int, nat)>,
) -> Option<(int, nat)> {
    match merchant_balance {
        Some(balance) if requested == TransactionStatusType::ArrivedInDestination => exact_sum(
            balance,
            t.price,
        ),
        _ => None,
    }
}

/// The rule of `change_delivery`. `merchant_balance` is the balance of the
/// order's merchant as read with the order. A move that the caller may not
/// make is refused, and so is an arrival whose payment cannot be had
/// exactly; every refusal is the same.
pub open spec fn change_delivery_rule(
    user: UserAccess,
    transaction: Option<TransactionView>,
    requested: TransactionStatusType,
    merchant_balance: Option<(int, nat)>,
    at: DateTime,
) -> Result<DeliveryChangeView, Error> {
    match transaction {
        Some(t) if may_change(user, t, requested) => {
            if requested == TransactionStatusType::ArrivedInDestination && merchant_balance is Some
                && settled_balance(t, requested, merchant_balance) is None {
                Err(Error::Forbidden)
            } else {
                Ok(
                    DeliveryChangeView {
                        transaction: delivered(t, requested, at),
                        merchant_balance: settled_balance(t, requested, merchant_balance),
                    },
                )
            }
        },
        _ => Err(Error::Forbidden),
    }
}

/// Whether a delivery move returned what its rule gives.
pub open spec fn change_agrees(
    got: Result<DeliveryChange, Error>,
    rule: Result<DeliveryChangeView, Error>,
) -> bool {
    match (got, rule) {
        (Ok(c), Ok(v)) => c.transaction@ == v.transaction && balance_view(c.merchant_balance)
            == v.merchant_balance,
        (Err(e), Err(f)) => e == f,
        _ => false,
    }
}

/// The courier on record moves the order on, at the instant `at`.
pub fn change_delivery_at(
    user: &UserAccess,
    transaction: Option<Transaction>,
    request: &ChangeDeliveryRequest,
    merchant_balance: Option<Decimal>,
    at: DateTime,
) -> (r: Result<DeliveryChange, Error>)
    ensures
        change_agrees(
            r,
            change_delivery_rule(
                *user,
                found(transaction),
                request.status_type,
                balance_view(merchant_balance),
                at,
            ),
        ),
{
    let mut item = match transaction {
        Some(item) => item,
        None => { return Err(Error::Forbidden); },
    };
    let current = match item.current() {
        Some(current) => current,
        None => { return Err(Error::Forbidden); },
    };
    let of_record = item.is_courier(&user.id);
    if !transition_allowed(current, request.status_type, user.role, of_record) {
        return Err(Error::Forbidden);
    }
    let mut balance: Option<Decimal> = None;
    match request.status_type {
        TransactionStatusType::ArrivedInDestination => {
            if let Some(read) = merchant_balance {
                match read.exact_add(&item.price) {
                    Some(sum) => { balance = Some(sum); },
                    None => { return Err(Error::Forbidden); },
                }
            }
        },
        _ => {},
    }
    item.status.push(TransactionStatus::at(request.status_type, at));
    item.updated_at = at;
    match request.status_type {
        TransactionStatusType::ArrivedInMerchant => {
            item.status.push(TransactionStatus::at(TransactionStatusType::ProcessingInMerchant, at));
            item.courier_id = None;
        },
        TransactionStatusType::ArrivedInDestination => {
            item.courier_id = None;
        },
        _ => {},
    }
    Ok(DeliveryChange { transaction: item, merchant_balance: balance })
}

/// The courier on record moves the order on, now.
pub fn change_delivery(
    user: &UserAccess,
    transaction: Option<Transaction>,
    request: &ChangeDeliveryRequest,
    merchant_balance: Option<Decimal>,
) -> (r: Result<DeliveryChange, Error>)
    ensures
        exists|at: DateTime|
            change_agrees(
                r,
                change_delivery_rule(
                    *user,
                    found(transaction),
                    request.status_type,
                    balance_view(merchant_balance),
                    at,
                ),
            ),
{
    let at = now();
    change_delivery_at(user, transaction, request, merchant_balance, at)
}

// ---------------------------------------------------------------------------
// Reading orders
// ---------------------------------------------------------------------------

/// An order as a courier sees it: without its lines and price.
#[derive(Clone, Debug)]
pub struct DeliveryResponse {
    pub id: ObjectId,
    pub user_id: ObjectId,
    pub merchant_id: ObjectId,
    pub courier_id: Option<ObjectId>,
    pub status: Vec<TransactionStatus>,
    pub created_at: DateTime,
    pub updated_at: DateTime,
}

/// A delivery as a value.
pub struct DeliveryView {
    pub id: Seq<u8>,
    pub user_id: Seq<u8>,
    pub merchant_id: Seq<u8>,
    pub courier_id: Option<Seq<u8>>,
    pub status: Seq<TransactionStatus>,
    pub created_at: DateTime,
    pub updated_at: DateTime,
}

impl View for DeliveryResponse {
    type V = DeliveryView;

    open spec fn view(&self) -> DeliveryView {
        DeliveryView {
            id: self.id@,
            user_id: self.user_id@,
            merchant_id: self.merchant_id@,
            courier_id: id_view(self.courier_id),
            status: self.status@,
            created_at: self.created_at,
            updated_at: self.updated_at,
        }
    }
}

/// What a courier sees of an order.
pub open spec fn delivery_of(t: TransactionView) -> DeliveryView {
    DeliveryView {
        id: t.id,
        user_id: t.user_id,
        merchant_id: t.merchant_id,
        courier_id: t.courier_id,
        status: t.status,
        created_at: t.created_at,
        updated_at: t.updated_at,
    }
}

impl DeliveryResponse {
    /// What a courier sees of `transaction`.
    pub fn from_transaction(transaction: Transaction) -> (response: DeliveryResponse)
        ensures
            response@ == delivery_of(transaction@),
    {
        DeliveryResponse {
            id: transaction.id,
            user_id: transaction.user_id,
            merchant_id: transaction.merchant_id,
            courier_id: transaction.courier_id,
            status: transaction.status,
            created_at: transaction.created_at,
            updated_at: transaction.updated_at,
        }
    }
}

/// Whether a courier sees an order: it waits for a courier, or this caller
/// is the courier on record.
pub open spec fn visible_to_courier(user: UserAccess, t: TransactionView) -> bool {
    current_status(t.status) == Some(TransactionStatusType::WaitingForCourier) || t.courier_id
        == Some(user.id@)
}

/// The rule of `show`: a merchant reads an order sold by them.
pub open spec fn show_rule(user: UserAccess, transaction: Option<TransactionView>) -> Result<
    TransactionView,
    Error,
> {
    match transaction {
        Some(t) if t.merchant_id == user.id@ => Ok(t),
        _ => Err(Error::Forbidden),
    }
}

/// The rule of `show_order`: a buyer reads an order placed by them.
pub open spec fn show_order_rule(user: UserAccess, transaction: Option<TransactionView>) -> Result<
    TransactionView,
    Error,
> {
    match transaction {
        Some(t) if t.user_id == user.id@ => Ok(t),
        _ => Err(Error::Forbidden),
    }
}

/// The rule of `show_delivery`: a courier or admin reads an order that is
/// visible to them.
pub open spec fn show_delivery_rule(
    user: UserAccess,
    transaction: Option<TransactionView>,
) -> Result<DeliveryView, Error> {
    match transaction {
        Some(t) if may_deliver(user.role) && visible_to_courier(user, t) => Ok(delivery_of(t)),
        _ => Err(Error::Forbidden),
    }
}

/// A merchant reads one of their sales.
pub fn show(user: &UserAccess, transaction: Option<Transaction>) -> (r: Result<Transaction, Error>)
    ensures
        agrees(r, show_rule(*user, found(transaction))),
{
    match transaction {
        Some(item) => {
            if item.merchant_id.same(&user.id) {
                Ok(item)
            } else {
                Err(Error::Forbidden)
            }
        },
        None => Err(Error::Forbidden),
    }
}

/// A buyer reads one of their orders.
pub fn show_order(user: &UserAccess, transaction: Option<Transaction>) -> (r: Result<
    Transaction,
    Error,
>)
    ensures
        agrees(r, show_order_rule(*user, found(transaction))),
{
    match transaction {
        Some(item) => {
            if item.user_id.same(&user.id) {
                Ok(item)
            } else {
                Err(Error::Forbidden)
            }
        },
        None => Err(Error::Forbidden),
    }
}

/// Whether `transaction` is visible to the courier `user`.
pub fn sees_delivery(user: &UserAccess, transaction: &Transaction) -> (r: bool)
    ensures
        r == visible_to_courier(*user, transaction@),
{
    let waiting = match transaction.current() {
        Some(TransactionStatusType::WaitingForCourier) => true,
        _ => false,
    };
    waiting || transaction.is_courier(&user.id)
}

/// A courier or admin reads a delivery.
pub fn show_delivery(user: &UserAccess, transaction: Option<Transaction>) -> (r: Result<
    DeliveryResponse,
    Error,
>)
    ensures
        match (r, show_delivery_rule(*user, found(transaction))) {
            (Ok(d), Ok(v)) => d@ == v,
            (Err(e), Err(f)) => e == f,
            _ => false,
        },
{
    if !user.role.delivers() {
        return Err(Error::Forbidden);
    }
    match transaction {
        Some(item) => {
            if sees_delivery(user, &item) {
                Ok(DeliveryResponse::from_transaction(item))
            } else {
                Err(Error::Forbidden)
            }
        },
        None => Err(Error::Forbidden),
    }
}

/// The views of a list of orders.
pub open spec fn transaction_views(transactions: Seq<Transaction>) -> Seq<TransactionView> {
    Seq::new(transactions.len(), |i: int| transactions[i]@)
}

/// The views of a list of deliveries.
pub open spec fn delivery_views(deliveries: Seq<DeliveryResponse>) -> Seq<DeliveryView> {
    Seq::new(deliveries.len(), |i: int| deliveries[i]@)
}

/// The orders of `transactions` that `keep` holds of, in their order.
pub open spec fn selected(
    transactions: Seq<TransactionView>,
    keep: spec_fn(TransactionView) -> bool,
) -> Seq<TransactionView>
    decreases transactions.len(),
{
    if transactions.len() == 0 {
        Seq::empty()
    } else if keep(transactions.last()) {
        selected(transactions.drop_last(), keep).push(transactions.last())
    } else {
        selected(transactions.drop_last(), keep)
    }
}

impl ProductTransaction {
    /// A copy of this line.
    pub fn duplicate(&self) -> (line: ProductTransaction)
        ensures
            line@ == self@,
    {
        ProductTransaction { id: self.id, quantity: self.quantity.duplicate() }
    }
}

impl Transaction {
    /// A copy of this order.
    pub fn duplicate(&self) -> (copy: Transaction)
        ensures
            copy@ == self@,
    {
        let mut status: Vec<TransactionStatus> = Vec::new();
        let mut i: usize = 0;
        while i < self.status.len()
            invariant
                i <= self.status.len(),
                status@ == self.status@.take(i as int),
            decreases self.status.len() - i,
        {
            status.push(self.status[i]);
            i += 1;
        }
        assert(status@ =~= self.status@);
        let mut products: Vec<ProductTransaction> = Vec::new();
        let mut j: usize = 0;
        while j < self.products.len()
            invariant
                j <= self.products.len(),
                line_views(products@) == line_views(self.products@).take(j as int),
            decreases self.products.len() - j,
        {
            let ghost before = line_views(products@);
            products.push(self.products[j].duplicate());
            assert(line_views(products@) =~= before.push(self.products[j as int]@));
            j += 1;
        }
        assert(line_views(products@) =~= line_views(self.products@));
        Transaction {
            id: self.id,
            user_id: self.user_id,
            merchant_id: self.merchant_id,
            courier_id: self.courier_id,
            price: self.price,
            status,
            products,
            created_at: self.created_at,
            updated_at: self.updated_at,
        }
    }
}

/// The sales of a merchant among `transactions`, in their order.
pub fn index(user: &UserAccess, transactions: &Vec<Transaction>) -> (sales: Vec<Transaction>)
    ensures
        transaction_views(sales@) == selected(
            transaction_views(transactions@),
            |t: TransactionView| t.merchant_id == user.id@,
        ),
{
    let ghost keep = |t: TransactionView| t.merchant_id == user.id@;
    let ghost all = transaction_views(transactions@);
    let mut sales: Vec<Transaction> = Vec::new();
    let mut i: usize = 0;
    while i < transactions.len()
        invariant
            i <= transactions.len(),
            all == transaction_views(transactions@),
            keep == (|t: TransactionView| t.merchant_id == user.id@),
            transaction_views(sales@) == selected(all.take(i as int), keep),
        decreases transactions.len() - i,
    {
        assert(all.take(i + 1).drop_last() =~= all.take(i as int));
        if transactions[i].merchant_id.same(&user.id) {
            sales.push(transactions[i].duplicate());
        }
        i += 1;
    }
    assert(all.take(i as int) =~= all);
    sales
}

/// The orders of a buyer among `transactions`, in their order.
pub fn index_order(user: &UserAccess, transactions: &Vec<Transaction>) -> (orders: Vec<
    Transaction,
>)
    ensures
        transaction_views(orders@) == selected(
            transaction_views(transactions@),
            |t: TransactionView| t.user_id == user.id@,
        ),
{
    let ghost keep = |t: TransactionView| t.user_id == user.id@;
    let ghost all = transaction_views(transactions@);
    let mut orders: Vec<Transaction> = Vec::new();
    let mut i: usize = 0;
    while i < transactions.len()
        invariant
            i <= transactions.len(),
            all == transaction_views(transactions@),
            keep == (|t: TransactionView| t.user_id == user.id@),
            transaction_views(orders@) == selected(all.take(i as int), keep),
        decreases transactions.len() - i,
    {
        assert(all.take(i + 1).drop_last() =~= all.take(i as int));
        if transactions[i].user_id.same(&user.id) {
            orders.push(transactions[i].duplicate());
        }
        i += 1;
    }
    assert(all.take(i as int) =~= all);
    orders
}

/// The deliveries that a list of orders shows.
pub open spec fn deliveries_of(transactions: Seq<TransactionView>) -> Seq<DeliveryView> {
    Seq::new(transactions.len(), |i: int| delivery_of(transactions[i]))
}

/// The deliveries among `transactions` that a courier or admin sees, in
/// their order; a customer sees none and is refused.
pub fn index_delivery(user: &UserAccess, transactions: &Vec<Transaction>) -> (r: Result<
    Vec<DeliveryResponse>,
    Error,
>)
    ensures
        match r {
            Ok(deliveries) => may_deliver(user.role) && delivery_views(deliveries@)
                == deliveries_of(
                selected(
                    transaction_views(transactions@),
                    |t: TransactionView| visible_to_courier(*user, t),
                ),
            ),
            Err(e) => !may_deliver(user.role) && e == Error::Forbidden,
        },
{
    if !user.role.delivers() {
        return Err(Error::Forbidden);
    }
    let ghost keep = |t: TransactionView| visible_to_courier(*user, t);
    let ghost all = transaction_views(transactions@);
    let mut deliveries: Vec<DeliveryResponse> = Vec::new();
    let mut i: usize = 0;
    while i < transactions.len()
        invariant
            i <= transactions.len(),
            all == transaction_views(transactions@),
            keep == (|t: TransactionView| visible_to_courier(*user, t)),
            delivery_views(deliveries@) == deliveries_of(selected(all.take(i as int), keep)),
        decreases transactions.len() - i,
    {
        let ghost before = delivery_views(deliveries@);
        let ghost chosen = selected(all.take(i as int), keep);
        assert(all.take(i + 1).drop_last() =~= all.take(i as int));
        if sees_delivery(user, &transactions[i]) {
            deliveries.push(DeliveryResponse::from_transaction(transactions[i].duplicate()));
            assert(delivery_views(deliveries@) =~= before.push(
                delivery_of(transactions[i as int]@),
            ));
            assert(deliveries_of(chosen.push(transactions[i as int]@)) =~= deliveries_of(
                chosen,
            ).push(delivery_of(transactions[i as int]@)));
        }
        i += 1;
    }
    assert(all.take(i as int) =~= all);
    Ok(deliveries)
}

// ---------------------------------------------------------------------------
// What holds of every move
// ---------------------------------------------------------------------------

/// Whether `old` is the beginning of `new`: nothing was removed or changed.
pub open spec fn extends(new: Seq<TransactionStatus>, old: Seq<TransactionStatus>) -> bool {
    old.len() <= new.len() && new.take(old.len() as int) == old
}

/// An order that has a courier on record cannot be picked up: the attempt is
/// refused as forbidden, whoever makes it.
pub proof fn lemma_pickup_taken_refused(user: UserAccess, t: TransactionView, at: DateTime)
    requires
        t.courier_id is Some,
    ensures
        pickup_rule(user, Some(t), at) == Err::<TransactionView, Error>(Error::Forbidden),
{
}

/// A delivery moves only from pickup to the destination or back towards the
/// merchant, and from there to the merchant: every other pair of current and
/// requested stage is refused as forbidden, whoever asks.
pub proof fn lemma_change_only_along_steps(
    user: UserAccess,
    t: TransactionView,
    requested: TransactionStatusType,
    merchant_balance: Option<(int, nat)>,
    at: DateTime,
)
    requires
        t.status.len() > 0,
    ensures
        delivery_step(t.status.last().status_type, requested) <==> {
            ||| (t.status.last().status_type == TransactionStatusType::PickedUpByCourier
                && requested == TransactionStatusType::ArrivedInDestination)
            ||| (t.status.last().status_type == TransactionStatusType::PickedUpByCourier
                && requested == TransactionStatusType::SendBackToMerchant)
            ||| (t.status.last().status_type == TransactionStatusType::SendBackToMerchant
                && requested == TransactionStatusType::ArrivedInMerchant)
        },
        !delivery_step(t.status.last().status_type, requested) ==> change_delivery_rule(
            user,
            Some(t),
            requested,
            merchant_balance,
            at,
        ) == Err::<DeliveryChangeView, Error>(Error::Forbidden),
        change_delivery_rule(user, Some(t), requested, merchant_balance, at) is Ok
            ==> delivery_step(t.status.last().status_type, requested),
{
}

/// Arrival at the destination pays the merchant the order's price, once: the
/// balance written is worth the balance read plus the price, and the order
/// that results can be moved by no one to any stage, so the payment cannot
/// be made again.
pub proof fn lemma_settled_once(
    user: UserAccess,
    t: TransactionView,
    merchant_balance: (int, nat),
    at: DateTime,
    again: UserAccess,
    requested: TransactionStatusType,
    later_balance: Option<(int, nat)>,
    later: DateTime,
)
    requires
        change_delivery_rule(
            user,
            Some(t),
            TransactionStatusType::ArrivedInDestination,
            Some(merchant_balance),
            at,
        ) is Ok,
    ensures
        ({
            let change = change_delivery_rule(
                user,
                Some(t),
                TransactionStatusType::ArrivedInDestination,
                Some(merchant_balance),
                at,
            ).unwrap();
            &&& change.merchant_balance is Some
            &&& units(change.merchant_balance.unwrap()) == units(merchant_balance) + units(
                t.price,
            )
            &&& change.transaction.price == t.price
            &&& current_status(change.transaction.status) == Some(
                TransactionStatusType::ArrivedInDestination,
            )
            &&& change_delivery_rule(
                again,
                Some(change.transaction),
                requested,
                later_balance,
                later,
            ) == Err::<DeliveryChangeView, Error>(Error::Forbidden)
            &&& pickup_rule(again, Some(change.transaction), later) == Err::<
                TransactionView,
                Error,
            >(Error::Forbidden)
            &&& confirm_processing_rule(again, Some(change.transaction), later) == Err::<
                TransactionView,
                Error,
            >(Error::Forbidden)
        }),
{
}

/// No move other than arrival at the destination writes a balance.
pub proof fn lemma_no_payment_elsewhere(
    user: UserAccess,
    t: TransactionView,
    requested: TransactionStatusType,
    merchant_balance: Option<(int, nat)>,
    at: DateTime,
)
    requires
        requested != TransactionStatusType::ArrivedInDestination,
        change_delivery_rule(user, Some(t), requested, merchant_balance, at) is Ok,
    ensures
        change_delivery_rule(
            user,
            Some(t),
            requested,
            merchant_balance,
            at,
        ).unwrap().merchant_balance is None,
{
}

/// Every move keeps a well-formed order well-formed, keeps what was in its
/// history and adds to it, and changes neither its parties, its lines nor
/// its price.
pub proof fn lemma_moves_preserve(
    user: UserAccess,
    t: TransactionView,
    requested: TransactionStatusType,
    merchant_balance: Option<(int, nat)>,
    at: DateTime,
)
    requires
        well_formed(t),
    ensures
        confirm_processing_rule(user, Some(t), at) is Ok ==> {
            let n = confirm_processing_rule(user, Some(t), at).unwrap();
            well_formed(n) && extends(n.status, t.status) && n.status.len() > t.status.len()
                && same_order(n, t)
        },
        pickup_rule(user, Some(t), at) is Ok ==> {
            let n = pickup_rule(user, Some(t), at).unwrap();
            well_formed(n) && extends(n.status, t.status) && n.status.len() > t.status.len()
                && same_order(n, t)
        },
        change_delivery_rule(user, Some(t), requested, merchant_balance, at) is Ok ==> {
            let n = change_delivery_rule(
                user,
                Some(t),
                requested,
                merchant_balance,
                at,
            ).unwrap().transaction;
            well_formed(n) && extends(n.status, t.status) && n.status.len() > t.status.len()
                && same_order(n, t)
        },
{
    if confirm_processing_rule(user, Some(t), at) is Ok {
        let n = confirm_processing_rule(user, Some(t), at).unwrap();
        assert(n.status.take(t.status.len() as int) =~= t.status);
    }
    if pickup_rule(user, Some(t), at) is Ok {
        let n = pickup_rule(user, Some(t), at).unwrap();
        assert(n.status.take(t.status.len() as int) =~= t.status);
    }
    if change_delivery_rule(user, Some(t), requested, merchant_balance, at) is Ok {
        let n = change_delivery_rule(
            user,
            Some(t),
            requested,
            merchant_balance,
            at,
        ).unwrap().transaction;
        assert(n.status.take(t.status.len() as int) =~= t.status);
    }
}

/// Whether two orders agree in identifier, parties, lines, price and day of
/// creation.
pub open spec fn same_order(a: TransactionView, b: TransactionView) -> bool {
    &&& a.id == b.id
    &&& a.user_id == b.user_id
    &&& a.merchant_id == b.merchant_id
    &&& a.price == b.price
    &&& a.products == b.products
    &&& a.created_at == b.created_at
}

/// The stages that an order can be moved out of, and where to: from
/// processing to waiting for a courier, from there to pickup, from pickup to
/// the destination or back towards the merchant, and from there, by way of
/// arrival at the merchant, to processing again. No operation moves an order
/// out of any other stage.
pub open spec fn lifecycle_step(from: TransactionStatusType, to: TransactionStatusType) -> bool {
    ||| (from == TransactionStatusType::ProcessingInMerchant && to
        == TransactionStatusType::WaitingForCourier)
    ||| (from == TransactionStatusType::WaitingForCourier && to
        == TransactionStatusType::PickedUpByCourier)
    ||| (from == TransactionStatusType::PickedUpByCourier && to
        == TransactionStatusType::ArrivedInDestination)
    ||| (from == TransactionStatusType::PickedUpByCourier && to
        == TransactionStatusType::SendBackToMerchant)
    ||| (from == TransactionStatusType::SendBackToMerchant && to
        == TransactionStatusType::ProcessingInMerchant)
}

/// Whatever operation moves an order, whoever asks for it, the stage it
/// leaves and the stage it ends in are a step of the lifecycle.
pub proof fn lemma_moves_follow_lifecycle(
    user: UserAccess,
    t: TransactionView,
    requested: TransactionStatusType,
    merchant_balance: Option<(int, nat)>,
    at: DateTime,
)
    ensures
        confirm_processing_rule(user, Some(t), at) matches Ok(n) ==> lifecycle_step(
            t.status.last().status_type,
            n.status.last().status_type,
        ),
        pickup_rule(user, Some(t), at) matches Ok(n) ==> lifecycle_step(
            t.status.last().status_type,
            n.status.last().status_type,
        ),
        change_delivery_rule(user, Some(t), requested, merchant_balance, at) matches Ok(c)
            ==> lifecycle_step(
            t.status.last().status_type,
            c.transaction.status.last().status_type,
        ),
{
}

/// Every refusal of a move or of a look at an order is the same: the caller
/// learns that it is forbidden, and not why.
pub proof fn lemma_every_refusal_is_forbidden(
    user: UserAccess,
    transaction: Option<TransactionView>,
    requested: TransactionStatusType,
    merchant_balance: Option<(int, nat)>,
    at: DateTime,
)
    ensures
        confirm_processing_rule(user, transaction, at) matches Err(e) ==> e == Error::Forbidden,
        pickup_rule(user, transaction, at) matches Err(e) ==> e == Error::Forbidden,
        change_delivery_rule(user, transaction, requested, merchant_balance, at) matches Err(e)
            ==> e == Error::Forbidden,
        show_rule(user, transaction) matches Err(e) ==> e == Error::Forbidden,
        show_order_rule(user, transaction) matches Err(e) ==> e == Error::Forbidden,
        show_delivery_rule(user, transaction) matches Err(e) ==> e == Error::Forbidden,
{
}

} // verus!

use ecommerce::auth::{UserAccess, UserRole};
use ecommerce::bigint::BigInt;
use ecommerce::decimal::Decimal;
use ecommerce::error::Error;
use ecommerce::transaction::{
    change_delivery_at, confirm_processing_at, index_delivery, pickup_at, sees_delivery, show,
    show_delivery, show_order, transition_allowed, ChangeDeliveryRequest, DeliveryResponse,
    ProductTransaction, Transaction, TransactionStatus, TransactionStatusType,
};
use ecommerce::util::{DateTime, ObjectId};

const ALL: [TransactionStatusType; 8] = [
    TransactionStatusType::WaitingForMerchantConfirmation,
    TransactionStatusType::ProcessingInMerchant,
    TransactionStatusType::WaitingForCourier,
    TransactionStatusType::PickedUpByCourier,
    TransactionStatusType::SendBackToMerchant,
    TransactionStatusType::ArrivedInMerchant,
    TransactionStatusType::ArrivedInDestination,
    TransactionStatusType::ArrivedInDestinationConfirmed,
];

const BUYER: u8 = 1;
const MERCHANT: u8 = 2;
const COURIER: u8 = 3;

fn oid(n: u8) -> ObjectId {
    ObjectId::from_bytes([n; 12])
}

fn access(n: u8, role: UserRole) -> UserAccess {
    UserAccess { id: oid(n), role }
}

fn at(millis: i64) -> DateTime {
    DateTime::from_millis(millis)
}

/// An order of the buyer at the merchant whose history is `stages`, dated
/// 0, 1, 2 and so on.
fn order(stages: &[TransactionStatusType], courier: Option<u8>) -> Transaction {
    Transaction {
        id: oid(40),
        user_id: oid(BUYER),
        merchant_id: oid(MERCHANT),
        courier_id: courier.map(oid),
        price: Decimal::from_i64(1500),
        status: stages
            .iter()
            .enumerate()
            .map(|(i, stage)| TransactionStatus::at(*stage, at(i as i64)))
            .collect(),
        products: vec![ProductTransaction { id: oid(10), quantity: BigInt::from_i64(1) }],
        created_at: at(0),
        updated_at: at(0),
    }
}

fn stages(order: &Transaction) -> Vec<TransactionStatusType> {
    order.status.iter().map(|it| it.status_type).collect()
}

fn allowed_pair(current: TransactionStatusType, requested: TransactionStatusType) -> bool {
    matches!(
        (current, requested),
        (TransactionStatusType::PickedUpByCourier, TransactionStatusType::ArrivedInDestination)
            | (TransactionStatusType::PickedUpByCourier, TransactionStatusType::SendBackToMerchant)
            | (TransactionStatusType::SendBackToMerchant, TransactionStatusType::ArrivedInMerchant)
    )
}

#[test]
fn transition_table_over_all_pairs_roles_and_holders() {
    let mut allowed = 0;
    for current in ALL {
        for requested in ALL {
            for role in [UserRole::Customer, UserRole::Courier, UserRole::Admin] {
                for of_record in [false, true] {
                    let expected =
                        role != UserRole::Customer && of_record && allowed_pair(current, requested);
                    assert_eq!(transition_allowed(current, requested, role, of_record), expected);
                    if expected {
                        allowed += 1;
                    }
                }
            }
        }
    }
    assert_eq!(allowed, 6);
}

#[test]
fn change_delivery_over_all_pairs() {
    let request_by = access(COURIER, UserRole::Courier);
    for current in ALL {
        for requested in ALL {
            let result = change_delivery_at(
                &request_by,
                Some(order(&[TransactionStatusType::ProcessingInMerchant, current], Some(COURIER))),
                &ChangeDeliveryRequest { status_type: requested },
                Some(Decimal::from_i64(0)),
                at(9),
            );
            if allowed_pair(current, requested) {
                let change = result.expect("along the table");
                assert_eq!(change.transaction.status[2].status_type, requested);
            } else {
                assert!(matches!(result.expect_err("off the table"), Error::Forbidden));
            }
        }
    }
}

#[test]
fn confirm_pushes_waiting_for_courier() {
    let confirmed = confirm_processing_at(
        &access(MERCHANT, UserRole::Customer),
        Some(order(&[TransactionStatusType::ProcessingInMerchant], None)),
        at(5),
    )
    .unwrap();
    assert_eq!(
        stages(&confirmed),
        vec![TransactionStatusType::ProcessingInMerchant, TransactionStatusType::WaitingForCourier]
    );
    assert_eq!(confirmed.status[1].date, at(5));
    assert_eq!(confirmed.updated_at, at(5));
    assert_eq!(confirmed.created_at, at(0));
    assert!(confirmed.courier_id.is_none());
}

#[test]
fn confirm_goes_by_ownership_not_by_role() {
    for role in [UserRole::Customer, UserRole::Courier, UserRole::Admin] {
        let fresh = order(&[TransactionStatusType::ProcessingInMerchant], None);
        assert!(confirm_processing_at(&access(MERCHANT, role), Some(fresh.clone()), at(5)).is_ok());
        let error = confirm_processing_at(&access(BUYER, role), Some(fresh), at(5))
            .expect_err("not the merchant");
        assert!(matches!(error, Error::Forbidden));
    }
}

#[test]
fn confirm_needs_an_order_in_processing() {
    for current in ALL {
        let result = confirm_processing_at(
            &access(MERCHANT, UserRole::Customer),
            Some(order(&[current], None)),
            at(5),
        );
        assert_eq!(result.is_ok(), current == TransactionStatusType::ProcessingInMerchant);
    }
    let missing = confirm_processing_at(&access(MERCHANT, UserRole::Customer), None, at(5));
    assert!(matches!(missing.expect_err("no order"), Error::Forbidden));
    let empty = confirm_processing_at(
        &access(MERCHANT, UserRole::Customer),
        Some(order(&[], None)),
        at(5),
    );
    assert!(matches!(empty.expect_err("no history"), Error::Forbidden));
}

#[test]
fn pickup_sets_the_courier() {
    let waiting = order(
        &[TransactionStatusType::ProcessingInMerchant, TransactionStatusType::WaitingForCourier],
        None,
    );
    let picked = pickup_at(&access(COURIER, UserRole::Courier), Some(waiting), at(6)).unwrap();
    assert_eq!(picked.courier_id.map(|it| it.bytes), Some([COURIER; 12]));
    assert_eq!(
        stages(&picked),
        vec![
            TransactionStatusType::ProcessingInMerchant,
            TransactionStatusType::WaitingForCourier,
            TransactionStatusType::PickedUpByCourier
        ]
    );
    assert_eq!(picked.updated_at, at(6));
}

#[test]
fn pickup_of_a_taken_order_is_forbidden() {
    for current in ALL {
        for role in [UserRole::Customer, UserRole::Courier, UserRole::Admin] {
            for holder in [COURIER, 9] {
                let taken = order(&[current], Some(holder));
                let error = pickup_at(&access(COURIER, role), Some(taken), at(6))
                    .expect_err("already taken");
                assert!(matches!(error, Error::Forbidden));
            }
        }
    }
}

#[test]
fn pickup_needs_a_deliverer_and_a_waiting_order() {
    for current in ALL {
        for role in [UserRole::Customer, UserRole::Courier, UserRole::Admin] {
            let result = pickup_at(&access(COURIER, role), Some(order(&[current], None)), at(6));
            let expected =
                role != UserRole::Customer && current == TransactionStatusType::WaitingForCourier;
            assert_eq!(result.is_ok(), expected);
            if let Err(error) = result {
                assert!(matches!(error, Error::Forbidden));
            }
        }
    }
    let missing = pickup_at(&access(COURIER, UserRole::Courier), None, at(6));
    assert!(matches!(missing.expect_err("no order"), Error::Forbidden));
}

#[test]
fn arrival_at_destination_pays_the_merchant_once() {
    let picked = order(
        &[
            TransactionStatusType::ProcessingInMerchant,
            TransactionStatusType::WaitingForCourier,
            TransactionStatusType::PickedUpByCourier,
        ],
        Some(COURIER),
    );
    let courier = access(COURIER, UserRole::Courier);
    let arrive = ChangeDeliveryRequest { status_type: TransactionStatusType::ArrivedInDestination };

    let change =
        change_delivery_at(&courier, Some(picked), &arrive, Some(Decimal::from_i64(250)), at(8))
            .unwrap();
    let balance = change.merchant_balance.expect("the merchant is paid");
    assert!(balance.equals(&Decimal::from_i64(1750)));
    assert!(change.transaction.courier_id.is_none());
    assert_eq!(
        change.transaction.status.last().unwrap().status_type,
        TransactionStatusType::ArrivedInDestination
    );
    assert_eq!(change.transaction.status.len(), 4);
    assert_eq!(change.transaction.updated_at, at(8));

    let again =
        change_delivery_at(&courier, Some(change.transaction.clone()), &arrive, Some(balance), at(9));
    assert!(matches!(again.expect_err("already arrived"), Error::Forbidden));

    let mut held = change.transaction;
    held.courier_id = Some(oid(COURIER));
    let again = change_delivery_at(&courier, Some(held), &arrive, Some(balance), at(9));
    assert!(matches!(again.expect_err("already arrived"), Error::Forbidden));
}

#[test]
fn arrival_without_a_merchant_account_pays_no_one() {
    let picked = order(&[TransactionStatusType::PickedUpByCourier], Some(COURIER));
    let change = change_delivery_at(
        &access(COURIER, UserRole::Admin),
        Some(picked),
        &ChangeDeliveryRequest { status_type: TransactionStatusType::ArrivedInDestination },
        None,
        at(8),
    )
    .unwrap();
    assert!(change.merchant_balance.is_none());
    assert!(change.transaction.courier_id.is_none());
}

#[test]
fn payment_beyond_the_range_of_money_is_refused() {
    let picked = order(&[TransactionStatusType::PickedUpByCourier], Some(COURIER));
    let largest = Decimal::new(0xFFFF_FFFF_FFFF_FFFF_FFFF_FFFF, 0).unwrap();
    let error = change_delivery_at(
        &access(COURIER, UserRole::Courier),
        Some(picked),
        &ChangeDeliveryRequest { status_type: TransactionStatusType::ArrivedInDestination },
        Some(largest),
        at(8),
    )
    .expect_err("overflow");
    assert!(matches!(error, Error::Forbidden));
}

#[test]
fn send_back_keeps_the_courier_and_pays_no_one() {
    let picked = order(&[TransactionStatusType::PickedUpByCourier], Some(COURIER));
    let change = change_delivery_at(
        &access(COURIER, UserRole::Courier),
        Some(picked),
        &ChangeDeliveryRequest { status_type: TransactionStatusType::SendBackToMerchant },
        Some(Decimal::from_i64(250)),
        at(8),
    )
    .unwrap();
    assert!(change.merchant_balance.is_none());
    assert_eq!(change.transaction.courier_id.map(|it| it.bytes), Some([COURIER; 12]));
    assert_eq!(
        stages(&change.transaction),
        vec![TransactionStatusType::PickedUpByCourier, TransactionStatusType::SendBackToMerchant]
    );
}

#[test]
fn arrival_at_merchant_returns_the_order_to_processing() {
    let sent_back = order(
        &[TransactionStatusType::PickedUpByCourier, TransactionStatusType::SendBackToMerchant],
        Some(COURIER),
    );
    let change = change_delivery_at(
        &access(COURIER, UserRole::Courier),
        Some(sent_back),
        &ChangeDeliveryRequest { status_type: TransactionStatusType::ArrivedInMerchant },
        Some(Decimal::from_i64(250)),
        at(8),
    )
    .unwrap();
    assert!(change.merchant_balance.is_none());
    assert!(change.transaction.courier_id.is_none());
    assert_eq!(
        stages(&change.transaction),
        vec![
            TransactionStatusType::PickedUpByCourier,
            TransactionStatusType::SendBackToMerchant,
            TransactionStatusType::ArrivedInMerchant,
            TransactionStatusType::ProcessingInMerchant
        ]
    );
    assert_eq!(change.transaction.status[2].date, at(8));
    assert_eq!(change.transaction.status[3].date, at(8));

    let confirmed =
        confirm_processing_at(&access(MERCHANT, UserRole::Customer), Some(change.transaction), at(9));
    assert!(confirmed.is_ok());
}

#[test]
fn change_needs_the_courier_on_record() {
    let arrive = ChangeDeliveryRequest { status_type: TransactionStatusType::ArrivedInDestination };
    let picked = order(&[TransactionStatusType::PickedUpByCourier], Some(COURIER));

    let other = change_delivery_at(
        &access(9, UserRole::Courier),
        Some(picked.clone()),
        &arrive,
        None,
        at(8),
    );
    assert!(matches!(other.expect_err("another courier"), Error::Forbidden));

    let customer = change_delivery_at(
        &access(COURIER, UserRole::Customer),
        Some(picked),
        &arrive,
        None,
        at(8),
    );
    assert!(matches!(customer.expect_err("a customer"), Error::Forbidden));

    let unheld = change_delivery_at(
        &access(COURIER, UserRole::Courier),
        Some(order(&[TransactionStatusType::PickedUpByCourier], None)),
        &arrive,
        None,
        at(8),
    );
    assert!(matches!(unheld.expect_err("no courier on record"), Error::Forbidden));

    let missing = change_delivery_at(&access(COURIER, UserRole::Courier), None, &arrive, None, at(8));
    assert!(matches!(missing.expect_err("no order"), Error::Forbidden));
}

#[test]
fn current_is_the_last_entry() {
    assert_eq!(order(&[], None).current(), None);
    assert_eq!(
        order(
            &[TransactionStatusType::ProcessingInMerchant, TransactionStatusType::WaitingForCourier],
            None
        )
        .current(),
        Some(TransactionStatusType::WaitingForCourier)
    );
}

#[test]
fn courier_sees_waiting_orders_and_their_own() {
    let courier = access(COURIER, UserRole::Courier);
    for current in ALL {
        let unheld = order(&[current], None);
        assert_eq!(
            sees_delivery(&courier, &unheld),
            current == TransactionStatusType::WaitingForCourier
        );
        assert!(sees_delivery(&courier, &order(&[current], Some(COURIER))));
        assert_eq!(
            sees_delivery(&courier, &order(&[current], Some(9))),
            current == TransactionStatusType::WaitingForCourier
        );
    }
}

#[test]
fn deliveries_are_listed_in_order_and_without_lines() {
    let mut first = order(&[TransactionStatusType::WaitingForCourier], None);
    first.id = oid(41);
    let mut second = order(&[TransactionStatusType::PickedUpByCourier], Some(9));
    second.id = oid(42);
    let mut third = order(&[TransactionStatusType::SendBackToMerchant], Some(COURIER));
    third.id = oid(43);
    let all = vec![first, second, third];

    let listed: Vec<DeliveryResponse> =
        index_delivery(&access(COURIER, UserRole::Courier), &all).unwrap();
    assert_eq!(listed.len(), 2);
    assert!(listed[0].id.same(&oid(41)));
    assert!(listed[1].id.same(&oid(43)));
    assert_eq!(listed[1].courier_id.map(|it| it.bytes), Some([COURIER; 12]));
    assert_eq!(listed[1].status, all[2].status);

    let refused = index_delivery(&access(COURIER, UserRole::Customer), &all);
    assert!(matches!(refused.expect_err("a customer"), Error::Forbidden));
}

#[test]
fn customers_are_shown_no_delivery() {
    let waiting = order(&[TransactionStatusType::WaitingForCourier], None);
    let refused = show_delivery(&access(COURIER, UserRole::Customer), Some(waiting.clone()));
    assert!(matches!(refused.expect_err("a customer"), Error::Forbidden));
    let shown = show_delivery(&access(COURIER, UserRole::Admin), Some(waiting)).unwrap();
    assert!(shown.id.same(&oid(40)));
    let missing = show_delivery(&access(COURIER, UserRole::Admin), None);
    assert!(matches!(missing.expect_err("no order"), Error::Forbidden));
}

#[test]
fn orders_are_shown_to_their_parties_only() {
    let placed = order(&[TransactionStatusType::ProcessingInMerchant], None);
    assert!(show(&access(MERCHANT, UserRole::Customer), Some(placed.clone())).is_ok());
    assert!(show(&access(BUYER, UserRole::Customer), Some(placed.clone())).is_err());
    assert!(show_order(&access(BUYER, UserRole::Customer), Some(placed.clone())).is_ok());
    assert!(show_order(&access(MERCHANT, UserRole::Admin), Some(placed)).is_err());
    assert!(matches!(
        show(&access(MERCHANT, UserRole::Customer), None).expect_err("no order"),
        Error::Forbidden
    ));
    assert!(matches!(
        show_order(&access(BUYER, UserRole::Customer), None).expect_err("no order"),
        Error::Forbidden
    ));
}

#[test]
fn duplicate_is_the_same_order() {
    let first = order(
        &[TransactionStatusType::ProcessingInMerchant, TransactionStatusType::WaitingForCourier],
        Some(COURIER),
    );
    let copy = first.duplicate();
    assert!(copy.id.same(&first.id));
    assert_eq!(copy.status, first.status);
    assert_eq!(copy.courier_id.map(|it| it.bytes), Some([COURIER; 12]));
    assert!(copy.price.equals(&first.price));
    assert_eq!(copy.products.len(), 1);
    assert!(copy.products[0].quantity.equals(&BigInt::from_i64(1)));
}

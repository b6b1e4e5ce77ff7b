use ecommerce::bigint::BigInt;
use ecommerce::decimal::Decimal;
use ecommerce::error::{Error, ErrorJson, UnauthorizedType};
use ecommerce::util::{DateTime, ObjectId};

#[test]
fn integers_from_machine_integers() {
    assert_eq!(BigInt::from_i64(0).magnitude, vec![0, 0]);
    assert!(!BigInt::from_i64(0).negative);
    assert_eq!(BigInt::from_i64(5).magnitude, vec![5, 0]);
    assert_eq!(BigInt::from_i64(4294967296).magnitude, vec![0, 1]);
    assert_eq!(BigInt::from_i64(-112500000000).magnitude, vec![830850304, 26]);
    assert!(BigInt::from_i64(-112500000000).negative);
    assert_eq!(BigInt::from_i64(i64::MIN).magnitude, vec![0, 0x8000_0000]);
    assert_eq!(BigInt::from_i64(i64::MAX).magnitude, vec![u32::MAX, 0x7FFF_FFFF]);
    assert!(BigInt::zero().magnitude.is_empty());
}

#[test]
fn integers_are_equal_whatever_their_digits() {
    assert!(BigInt::zero().equals(&BigInt::from_i64(0)));
    assert!(BigInt { negative: true, magnitude: vec![0, 0, 0] }.equals(&BigInt::zero()));
    assert!(BigInt { negative: false, magnitude: vec![7, 0, 0] }.equals(&BigInt::from_i64(7)));
    assert!(!BigInt::from_i64(7).equals(&BigInt::from_i64(-7)));
    assert!(!BigInt::from_i64(7).equals(&BigInt::from_i64(8)));
    assert!(
        BigInt { negative: false, magnitude: vec![0, 1] }.equals(&BigInt::from_i64(4294967296))
    );
}

#[test]
fn positive_is_more_than_zero() {
    assert!(BigInt::from_i64(1).is_positive());
    assert!(BigInt::from_i64(i64::MAX).is_positive());
    assert!(!BigInt::from_i64(0).is_positive());
    assert!(!BigInt::zero().is_positive());
    assert!(!BigInt::from_i64(-1).is_positive());
    assert!(!BigInt { negative: true, magnitude: vec![0, 0, 1] }.is_positive());
    assert!(BigInt { negative: false, magnitude: vec![0, 0, 1] }.is_positive());
}

#[test]
fn integer_copy_keeps_sign_and_digits() {
    let first = BigInt { negative: true, magnitude: vec![3, 0, 9] };
    let copy = first.duplicate();
    assert!(copy.negative);
    assert_eq!(copy.magnitude, vec![3, 0, 9]);
}

#[test]
fn amounts_within_limits() {
    let largest: i128 = 0xFFFF_FFFF_FFFF_FFFF_FFFF_FFFF;
    assert!(Decimal::new(largest, 0).is_some());
    assert!(Decimal::new(-largest, 28).is_some());
    assert!(Decimal::new(largest + 1, 0).is_none());
    assert!(Decimal::new(-largest - 1, 0).is_none());
    assert!(Decimal::new(1, 29).is_none());
    assert!(Decimal::new(i128::MAX, 0).is_none());
    assert!(Decimal::new(i128::MIN, 0).is_none());

    let amount = Decimal::new(-12345678, 7).unwrap();
    assert_eq!(amount.mantissa(), -12345678);
    assert_eq!(amount.scale(), 7);
    assert_eq!(Decimal::from_i64(2000).mantissa(), 2000);
    assert_eq!(Decimal::from_i64(2000).scale(), 0);
    assert_eq!(Decimal::from_i64(i64::MIN).mantissa(), i64::MIN as i128);
    assert_eq!(Decimal::zero().mantissa(), 0);
    assert_eq!(Decimal::zero().scale(), 0);
}

#[test]
fn amounts_are_equal_as_numbers() {
    assert!(Decimal::new(100, 2).unwrap().equals(&Decimal::from_i64(1)));
    assert!(Decimal::new(0, 28).unwrap().equals(&Decimal::zero()));
    assert!(!Decimal::new(101, 2).unwrap().equals(&Decimal::from_i64(1)));
    assert!(!Decimal::from_i64(1).equals(&Decimal::from_i64(-1)));
    assert!(!Decimal::new(1, 28).unwrap().equals(&Decimal::zero()));
    let largest = Decimal::new(0xFFFF_FFFF_FFFF_FFFF_FFFF_FFFF, 0).unwrap();
    assert!(!largest.equals(&Decimal::new(0xFFFF_FFFF_FFFF_FFFF_FFFF_FFFF, 28).unwrap()));
    assert!(largest.equals(&largest));
}

#[test]
fn identifiers_compare_by_bytes() {
    let a = ObjectId::from_bytes([1, 2, 3, 4, 5, 6, 7, 8, 9, 10, 11, 12]);
    let b = ObjectId::from_bytes([1, 2, 3, 4, 5, 6, 7, 8, 9, 10, 11, 12]);
    let c = ObjectId::from_bytes([1, 2, 3, 4, 5, 6, 7, 8, 9, 10, 11, 13]);
    let d = ObjectId::from_bytes([0, 2, 3, 4, 5, 6, 7, 8, 9, 10, 11, 12]);
    assert!(a.same(&b));
    assert!(!a.same(&c));
    assert!(!a.same(&d));
    assert_eq!(a.bytes, [1, 2, 3, 4, 5, 6, 7, 8, 9, 10, 11, 12]);
}

#[test]
fn instants_hold_milliseconds() {
    assert_eq!(DateTime::from_millis(-5).millis, -5);
    assert_eq!(DateTime::from_millis(5), DateTime::from_millis(5));
}

fn every_error() -> Vec<(Error, u16, &'static str, String)> {
    vec![
        (Error::ValidationError("email".to_string()), 422, "ValidationError", "validation error: email".to_string()),
        (Error::NotFound("/x".to_string()), 404, "NotFound", "/x not found".to_string()),
        (Error::NoResource, 404, "NoResource", "No resource found".to_string()),
        (Error::PasswordHashError("bad hash".to_string()), 500, "PasswordHashError", "bad hash".to_string()),
        (Error::DatabaseError("down".to_string()), 500, "DatabaseError", "down".to_string()),
        (Error::JWTError("bad token".to_string()), 500, "JWTError", "bad token".to_string()),
        (Error::MustUniqueError("email".to_string()), 422, "MustUniqueError", "email must unique".to_string()),
        (
            Error::Unauthorized(UnauthorizedType::WrongPassword),
            401,
            "Unauthorized",
            "Wrong Password".to_string(),
        ),
        (
            Error::Forbidden,
            403,
            "Forbidden",
            "You have no permission to access this resource".to_string(),
        ),
        (Error::BSONSerError("bad document".to_string()), 500, "BSONSerError", "bad document".to_string()),
        (
            Error::ViteManifestNotFound,
            500,
            "ViteManifestNotFound",
            "Vite Manifest doesn't exists".to_string(),
        ),
        (Error::CustomStatus(418, "teapot".to_string()), 418, "CustomStatus", "teapot".to_string()),
        (Error::CustomStr(403, "no"), 403, "CustomStr", "no".to_string()),
        (
            Error::MismatchMerchant,
            422,
            "MismatchMerchant",
            "products must be from the same merchant".to_string(),
        ),
        (
            Error::InsufficientFund,
            402,
            "InsufficientFund",
            "Your balance is not sufficient to complete this transaction.".to_string(),
        ),
    ]
}

#[test]
fn errors_have_status_name_and_message() {
    for (error, status, name, message) in every_error() {
        assert_eq!(error.status_code(), status);
        assert_eq!(error.to_string_variant(), name);
        assert_eq!(error.message(), message);
        let json = ErrorJson::from_error(&error);
        assert_eq!(json.kind, name);
        assert_eq!(json.message, message);
    }
}

#[test]
fn unauthorized_kinds_have_messages() {
    assert_eq!(UnauthorizedType::WrongUsernameOrPassword.message(), "Wrong Username or Password");
    assert_eq!(UnauthorizedType::InvalidAccessToken.message(), "Invalid access token");
    assert_eq!(UnauthorizedType::InvalidRefreshToken.message(), "Invalid refresh token");
    assert_eq!(UnauthorizedType::WrongPassword.message(), "Wrong Password");
    assert_eq!(UnauthorizedType::PasswordNotMatch.message(), "Password doesn't match");
    assert_eq!(
        UnauthorizedType::NoPermission.message(),
        "You have no permission to access this resource"
    );
    assert_eq!(
        Error::Unauthorized(UnauthorizedType::InvalidRefreshToken).message(),
        "Invalid refresh token"
    );
}

fn amount(mantissa: i128, scale: u32) -> Decimal {
    Decimal::new(mantissa, scale).unwrap()
}

fn same(got: Option<Decimal>, mantissa: i128, scale: u32) -> bool {
    match got {
        Some(it) => it.equals(&amount(mantissa, scale)),
        None => false,
    }
}

#[test]
fn exact_sums_differences_and_products() {
    assert!(same(amount(250, 2).exact_add(&amount(125, 3)), 2625, 3));
    assert!(same(amount(250, 2).exact_sub(&amount(125, 3)), 2375, 3));
    assert!(same(amount(250, 2).exact_mul(&amount(125, 3)), 3125, 4));
    assert!(same(amount(-7, 0).exact_mul(&amount(3, 1)), -21, 1));
    assert!(same(amount(1, 0).exact_sub(&amount(3, 0)), -2, 0));
    assert!(same(amount(0, 5).exact_mul(&amount(3, 1)), 0, 0));
    assert!(same(amount(1, 28).exact_add(&amount(1, 28)), 2, 28));
    // none of these hands an operand back
    assert!(!same(amount(250, 2).exact_add(&amount(125, 3)), 250, 2));
    assert!(!same(amount(250, 2).exact_sub(&amount(125, 3)), 250, 2));
    assert!(!same(amount(250, 2).exact_mul(&amount(125, 3)), 250, 2));
}

#[test]
fn results_that_would_be_rounded_are_not_handed_on() {
    let largest: i128 = 0xFFFF_FFFF_FFFF_FFFF_FFFF_FFFF;
    // 10^-20 x 10^-20 is finer than any amount resolves
    assert!(amount(1, 20).exact_mul(&amount(1, 20)).is_none());
    // the largest whole amount and a half more cannot both be kept
    assert!(amount(largest, 0).exact_add(&amount(5, 1)).is_none());
    assert!(amount(-largest, 0).exact_sub(&amount(5, 1)).is_none());
    // beyond the largest amount
    assert!(amount(largest, 0).exact_add(&amount(1, 0)).is_none());
    assert!(amount(largest, 0).exact_mul(&amount(2, 0)).is_none());
    assert!(amount(-largest, 0).exact_sub(&amount(1, 0)).is_none());
    // at the edge
    assert!(same(amount(largest - 1, 0).exact_add(&amount(1, 0)), largest, 0));
    assert!(same(amount(largest, 28).exact_sub(&amount(largest, 28)), 0, 0));
}

#[test]
fn integers_from_wide_machine_integers() {
    assert!(BigInt::from_i128(0).equals(&BigInt::zero()));
    assert!(BigInt::from_i128(-5).equals(&BigInt::from_i64(-5)));
    assert!(BigInt::from_i128(i64::MAX as i128).equals(&BigInt::from_i64(i64::MAX)));
    assert_eq!(BigInt::from_i128(1 << 96).magnitude, vec![0, 0, 0, 1]);
    assert_eq!(BigInt::from_i128(i128::MAX).magnitude, vec![u32::MAX, u32::MAX, u32::MAX, 0x7FFF_FFFF]);
    assert_eq!(BigInt::from_i128(i128::MIN).magnitude, vec![0, 0, 0, 0x8000_0000]);
    assert!(BigInt::from_i128(i128::MIN).negative);
    assert!(!BigInt::from_i128(i128::MAX).negative);
}

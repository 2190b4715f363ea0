//! Full-pipeline vectors, scrypt stretching included. Each test performs a
//! single stretch, the deliberately expensive step of the algorithm.

use sitepass::pipeline::{derive_password, stretch};
use sitepass::{DerivationError, UsagePurpose};

#[test]
fn stretch_matches_reference_vector() {
    let key = stretch(b"password", b"user", UsagePurpose::Authentication);
    assert_eq!(
        key,
        vec![
            200, 158, 204, 134, 255, 112, 160, 138, 97, 171, 25, 64, 145, 104, 253, 107, 79, 9,
            202, 35, 66, 201, 81, 197, 148, 39, 235, 88, 112, 146, 175, 242, 130, 42, 40, 74,
            116, 234, 244, 3, 125, 20, 147, 6, 239, 22, 56, 103, 102, 199, 32, 182, 121, 114,
            44, 193, 252, 120, 55, 144, 0, 180, 23, 238,
        ]
    );
}

#[test]
fn derive_password_reference_vector() {
    let pw = derive_password(
        "user",
        b"password",
        "example.com",
        1,
        "",
        UsagePurpose::Authentication,
        'x',
    )
    .unwrap();
    assert_eq!(pw, "pf4zS1LjCg&LjhsZ7T2~");
}

#[test]
fn derive_password_counter_two_differs() {
    let pw = derive_password(
        "user",
        b"password",
        "example.com",
        2,
        "",
        UsagePurpose::Authentication,
        'x',
    )
    .unwrap();
    assert_eq!(pw, "O8-6Bwz1*I5XVPPq)@H!");
}

#[test]
fn derive_password_long_class() {
    let pw = derive_password(
        "user",
        b"password",
        "example.com",
        1,
        "",
        UsagePurpose::Authentication,
        'l',
    )
    .unwrap();
    assert_eq!(pw, "ZedaFaxcZaso9*");
}

#[test]
fn derive_password_with_context() {
    let pw = derive_password(
        "user",
        b"password",
        "example.com",
        1,
        "ctx",
        UsagePurpose::Authentication,
        'x',
    )
    .unwrap();
    assert_eq!(pw, "de@LHNfhYfxhs2quz(5-");
}

#[test]
fn derive_password_login_purpose() {
    let pw = derive_password(
        "user",
        b"password",
        "example.com",
        1,
        "",
        UsagePurpose::Login,
        'n',
    )
    .unwrap();
    assert_eq!(pw, "seshihima");
}

#[test]
fn derive_password_unknown_template_class() {
    let r = derive_password(
        "user",
        b"password",
        "example.com",
        1,
        "",
        UsagePurpose::Authentication,
        'z',
    );
    assert_eq!(r, Err(DerivationError::UnknownTemplateClass));
}

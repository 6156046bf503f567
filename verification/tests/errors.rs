use dkls_session::errors::{
    dkls_error_code, dkls_error_message, keygen_error_to_go, sign_error_to_go,
    sign_ot_variant_error_to_go, GoError, KeygenError, Rejection, SignError, SignOTVariantError,
    CODE_ABORT_AND_BAN, CODE_FAILURE,
};

#[test]
fn error_keeps_text_and_code() {
    let err = GoError::new("something broke", 7);
    assert_eq!(err.message(), "something broke");
    assert_eq!(err.code(), 7);
}

#[test]
fn error_code_of_absent_error_is_minus_one() {
    assert_eq!(dkls_error_code(None), -1);
    assert_eq!(dkls_error_message(None), None);
}

#[test]
fn error_accessors_read_a_present_error() {
    let err = GoError::new("invalid PK", 1);
    assert_eq!(dkls_error_code(Some(&err)), 1);
    assert_eq!(dkls_error_message(Some(&err)), Some("invalid PK"));
}

#[test]
fn every_rejection_has_its_text_and_the_generic_code() {
    let expected = [
        (Rejection::NullHandle, "null handle"),
        (Rejection::InvalidState, "invalid state"),
        (Rejection::FailedSession, "failed session"),
        (Rejection::KeygenInProgress, "keygen in progress"),
        (Rejection::CommitmentsRequired, "commitments required"),
        (Rejection::InvalidCommitmentsLength, "invalid commitments length"),
        (Rejection::InvalidPkSize, "invalid PK size"),
        (Rejection::InvalidPk, "invalid PK"),
        (Rejection::InvalidDerivationPath, "invalid derivation path"),
        (Rejection::InvalidMessageHash, "invalid message hash"),
        (Rejection::InvalidSignatureSize, "invalid signature size"),
        (Rejection::SignInitFailed, "sign session init failed"),
        (Rejection::UnexpectedReply, "unexpected engine reply"),
    ];
    for (why, text) in expected {
        assert_eq!(why.message(), text);
        let err = GoError::reject(why);
        assert_eq!(err.message(), text);
        assert_eq!(err.code(), CODE_FAILURE);
        assert_eq!(err.code(), 1);
    }
}

#[test]
fn keygen_failure_is_generic() {
    let err = keygen_error_to_go(KeygenError { text: String::from("invalid commitment hash") });
    assert_eq!(err.message(), "invalid commitment hash");
    assert_eq!(err.code(), 1);
}

#[test]
fn sign_failure_that_bans_a_party_has_code_two() {
    let err = sign_error_to_go(SignError {
        text: String::from("Abort protocol and ban party 3"),
        abort_and_ban: true,
    });
    assert_eq!(err.message(), "Abort protocol and ban party 3");
    assert_eq!(err.code(), CODE_ABORT_AND_BAN);
    assert_eq!(err.code(), 2);
}

#[test]
fn other_sign_failure_has_code_one() {
    let err = sign_error_to_go(SignError {
        text: String::from("Invalid commitment"),
        abort_and_ban: false,
    });
    assert_eq!(err.message(), "Invalid commitment");
    assert_eq!(err.code(), 1);
}

#[test]
fn sign_ot_variant_failure_is_generic() {
    let err =
        sign_ot_variant_error_to_go(SignOTVariantError { text: String::from("Missing message") });
    assert_eq!(err.message(), "Missing message");
    assert_eq!(err.code(), 1);
}

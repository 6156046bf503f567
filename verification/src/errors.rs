//! The error value handed to the host, and the way every failure turns
//! into one.
//!
//! An error is a text and a numeric code. Two codes are told apart: the
//! generic failure, and the one signing failure after which the host has to
//! exclude a party before it tries again.

use vstd::prelude::*;

verus! {

/// Code of every failure but the one that bans a party.
pub const CODE_FAILURE: i32 = 1;

/// Code of the signing failure that asks the host to abort and ban a party.
pub const CODE_ABORT_AND_BAN: i32 = 2;

/// What `dkls_error_code` answers when there is no error value to read.
pub const CODE_NO_ERROR_VALUE: i32 = -1;

/// An error as the host sees it: a text and a code.
#[derive(Debug, PartialEq, Eq)]
pub struct GoError {
    message: String,
    code: i32,
}

/// The mathematical content of a `GoError`.
pub struct GoErrorView {
    pub message: Seq<char>,
    pub code: int,
}

impl View for GoError {
    type V = GoErrorView;

    closed spec fn view(&self) -> GoErrorView {
        GoErrorView { message: self.message@, code: self.code as int }
    }
}

/// The failures that this layer finds by itself, before or after the engine
/// has worked. Each has a fixed text and the generic code.
#[derive(Clone, Copy, Debug, PartialEq, Eq, Structural)]
pub enum Rejection {
    /// No session or keyshare stands behind the handle.
    NullHandle,
    /// The operation is not the one the session's round waits for.
    InvalidState,
    /// A keyshare was asked of a session that has failed.
    FailedSession,
    /// A keyshare was asked of a session that has not finished.
    KeygenInProgress,
    /// The third key generation round was given no commitments.
    CommitmentsRequired,
    /// The commitments are not 32 bytes for each party.
    InvalidCommitmentsLength,
    /// A public key is not 33 bytes long.
    InvalidPkSize,
    /// 33 bytes that encode no point of the curve.
    InvalidPk,
    /// A derivation path that does not parse.
    InvalidDerivationPath,
    /// A digest that is not 32 bytes long.
    InvalidMessageHash,
    /// A signature whose halves are not 32 bytes each.
    InvalidSignatureSize,
    /// The engine refused to open a signing session.
    SignInitFailed,
    /// The engine answered a round with the result of another.
    UnexpectedReply,
}

impl Rejection {
    /// The text of the rejection.
    pub open spec fn text(self) -> Seq<char> {
        match self {
            Rejection::NullHandle => "null handle"@,
            Rejection::InvalidState => "invalid state"@,
            Rejection::FailedSession => "failed session"@,
            Rejection::KeygenInProgress => "keygen in progress"@,
            Rejection::CommitmentsRequired => "commitments required"@,
            Rejection::InvalidCommitmentsLength => "invalid commitments length"@,
            Rejection::InvalidPkSize => "invalid PK size"@,
            Rejection::InvalidPk => "invalid PK"@,
            Rejection::InvalidDerivationPath => "invalid derivation path"@,
            Rejection::InvalidMessageHash => "invalid message hash"@,
            Rejection::InvalidSignatureSize => "invalid signature size"@,
            Rejection::SignInitFailed => "sign session init failed"@,
            Rejection::UnexpectedReply => "unexpected engine reply"@,
        }
    }

    /// The error that reports the rejection: its text, with the generic code.
    pub open spec fn error(self) -> GoErrorView {
        failure(self.text())
    }

    /// The text of the rejection.
    pub fn message(self) -> (text: &'static str)
        ensures
            text@ == self.text(),
    {
        match self {
            Rejection::NullHandle => "null handle",
            Rejection::InvalidState => "invalid state",
            Rejection::FailedSession => "failed session",
            Rejection::KeygenInProgress => "keygen in progress",
            Rejection::CommitmentsRequired => "commitments required",
            Rejection::InvalidCommitmentsLength => "invalid commitments length",
            Rejection::InvalidPkSize => "invalid PK size",
            Rejection::InvalidPk => "invalid PK",
            Rejection::InvalidDerivationPath => "invalid derivation path",
            Rejection::InvalidMessageHash => "invalid message hash",
            Rejection::InvalidSignatureSize => "invalid signature size",
            Rejection::SignInitFailed => "sign session init failed",
            Rejection::UnexpectedReply => "unexpected engine reply",
        }
    }
}

/// The error with the given text and the generic code.
pub open spec fn failure(text: Seq<char>) -> GoErrorView {
    GoErrorView { message: text, code: CODE_FAILURE as int }
}

impl GoError {
    /// An error with the given text and code.
    pub fn new(msg: &str, code: i32) -> (err: GoError)
        ensures
            err@ == (GoErrorView { message: msg@, code: code as int }),
    {
        GoError { message: msg.to_owned(), code }
    }

    /// The error that reports a rejection of this layer.
    pub fn reject(why: Rejection) -> (err: GoError)
        ensures
            err@ == why.error(),
    {
        GoError::new(why.message(), CODE_FAILURE)
    }

    /// The text of the error.
    pub fn message(&self) -> (text: &str)
        ensures
            text@ == self@.message,
    {
        self.message.as_str()
    }

    /// The code of the error.
    pub fn code(&self) -> (code: i32)
        ensures
            code == self@.code,
    {
        self.code
    }
}

/// What a key generation failure of the engine shows to this layer: its text.
#[derive(Debug, PartialEq, Eq)]
pub struct KeygenError {
    pub text: String,
}

/// What a signing failure of the engine shows to this layer: its text, and
/// whether it is the failure that asks to abort the protocol and ban a party.
#[derive(Debug, PartialEq, Eq)]
pub struct SignError {
    pub text: String,
    pub abort_and_ban: bool,
}

/// What a failure of the engine's signing variant with oblivious transfer
/// shows to this layer: its text.
#[derive(Debug, PartialEq, Eq)]
pub struct SignOTVariantError {
    pub text: String,
}

/// The code under which a signing failure is reported.
pub open spec fn sign_error_code(abort_and_ban: bool) -> int {
    if abort_and_ban {
        CODE_ABORT_AND_BAN as int
    } else {
        CODE_FAILURE as int
    }
}

/// The error that reports a signing failure of the engine.
pub open spec fn sign_failure(text: Seq<char>, abort_and_ban: bool) -> GoErrorView {
    GoErrorView { message: text, code: sign_error_code(abort_and_ban) }
}

/// The error for a key generation failure: the engine's text, the generic code.
pub fn keygen_error_to_go(err: KeygenError) -> (out: GoError)
    ensures
        out@ == failure(err.text@),
{
    GoError::new(err.text.as_str(), CODE_FAILURE)
}

/// The error for a signing failure: the engine's text, and the code that tells
/// the host whether a party has to be banned.
pub fn sign_error_to_go(err: SignError) -> (out: GoError)
    ensures
        out@ == sign_failure(err.text@, err.abort_and_ban),
{
    let code: i32 = if err.abort_and_ban {
        CODE_ABORT_AND_BAN
    } else {
        CODE_FAILURE
    };
    GoError::new(err.text.as_str(), code)
}

/// The error for a failure of the signing variant with oblivious transfer: the
/// engine's text, the generic code.
pub fn sign_ot_variant_error_to_go(err: SignOTVariantError) -> (out: GoError)
    ensures
        out@ == failure(err.text@),
{
    GoError::new(err.text.as_str(), CODE_FAILURE)
}

/// The text of an error, if there is an error to read.
pub fn dkls_error_message(err: Option<&GoError>) -> (text: Option<&str>)
    ensures
        err is None <==> text is None,
        err matches Some(e) ==> text.unwrap()@ == e@.message,
{
    match err {
        None => None,
        Some(e) => Some(e.message()),
    }
}

/// The code of an error, or -1 where there is no error to read.
pub fn dkls_error_code(err: Option<&GoError>) -> (code: i32)
    ensures
        code == match err {
            None => CODE_NO_ERROR_VALUE as int,
            Some(e) => e@.code,
        },
{
    match err {
        None => CODE_NO_ERROR_VALUE,
        Some(e) => e.code(),
    }
}

/// The code that bans a party marks one class of failure and no other: a
/// signing failure carries it if and only if the engine asked to abort the
/// protocol and ban a party; a key generation failure, a failure to decode
/// and every rejection of this layer carry the generic code.
pub proof fn lemma_ban_code_marks_the_ban_class(text: Seq<char>, abort_and_ban: bool, why: Rejection)
    ensures
        sign_failure(text, abort_and_ban).code == CODE_ABORT_AND_BAN <==> abort_and_ban,
        sign_failure(text, abort_and_ban).code == CODE_FAILURE <==> !abort_and_ban,
        failure(text).code == CODE_FAILURE,
        why.error().code == CODE_FAILURE,
{
}

} // verus!

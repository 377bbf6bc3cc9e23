//! The error value of a failed operation, and the rule that tells failure
//! from success.

use crate::codes::{
    lemma_signed_round_trip, lemma_unsigned_round_trip, signed_of, to_signed, to_unsigned,
    unsigned_of, BLE_HS_EALREADY, BLE_HS_EDONE,
};
use crate::digits::{append_upper_hex, upper_hex_digits};
use crate::table::{describe, lemma_row_described, return_code_to_string, status_table};
use vstd::prelude::*;
use vstd::string::StringExecFns;

verus! {

/// The code that `BLEError::fail` reports.
pub const FAIL_CODE: u32 = 0xFFFF;

/// A status code that stands for a failure. It wraps the code as the stack
/// returned it, and nothing else; the code is never zero and never one of
/// those by which the stack means success.
#[derive(Copy, Clone, PartialEq, Eq, Hash, Structural)]
pub struct BLEError {
    code: i32,
}

impl View for BLEError {
    type V = i32;

    /// The wrapped code, as a signed number.
    closed spec fn view(&self) -> i32 {
        self.code
    }
}

/// Whether the stack means success by `error`: zero, or one of the two codes
/// by which it says that the operation is already under way or already done.
pub open spec fn is_success(error: u32) -> bool {
    error == 0 || error == BLE_HS_EALREADY || error == BLE_HS_EDONE
}

/// Tells whether the stack means success by `error`.
pub fn indicates_success(error: u32) -> (yes: bool)
    ensures
        yes == is_success(error),
{
    error == 0 || error == BLE_HS_EALREADY || error == BLE_HS_EDONE
}

/// What a status code and the value of the success path classify to: the
/// value, or the signed code of the error.
pub open spec fn classify<T>(error: u32, value: T) -> Result<T, i32> {
    if is_success(error) {
        Ok(value)
    } else {
        Err(to_signed(error))
    }
}

/// A classification with each error taken by its view.
pub open spec fn outcome<T>(r: Result<T, BLEError>) -> Result<T, i32> {
    match r {
        Ok(value) => Ok(value),
        Err(e) => Err(e@),
    }
}

/// The text of an error with the signed code `rc`: its description where the
/// status-code table has one, else `0x` and the upper-case hexadecimal digits
/// of its unsigned representation.
pub open spec fn render(rc: i32) -> Seq<char> {
    match describe(to_unsigned(rc)) {
        Some(text) => text,
        None => "0x"@ + upper_hex_digits(to_unsigned(rc) as nat),
    }
}

impl BLEError {
    #[verifier::type_invariant]
    spec fn is_failure(self) -> bool {
        !is_success(to_unsigned(self.code))
    }

    /// The wrapped code, as an unsigned number.
    pub open spec fn spec_code(&self) -> u32 {
        to_unsigned(self@)
    }

    /// A failure that no status code of the stack stands for.
    pub fn fail() -> (r: Result<(), Self>)
        ensures
            outcome(r) == Err::<(), i32>(to_signed(FAIL_CODE)),
            r is Err && r->Err_0.spec_code() == FAIL_CODE,
    {
        Self::convert(FAIL_CODE)
    }

    /// The error with the code `error`, which has to be a failure.
    pub fn from_non_zero(error: i32) -> (e: Self)
        requires
            !is_success(to_unsigned(error)),
        ensures
            e@ == error,
    {
        BLEError { code: error }
    }

    /// Classifies `error`: on success hands `value` back as it came, on
    /// failure the error that wraps `error`, whatever `value` is.
    pub fn check_and_return<T>(error: u32, value: T) -> (r: Result<T, Self>)
        ensures
            outcome(r) == classify(error, value),
            is_success(error) ==> r == Ok::<T, Self>(value),
            !is_success(error) ==> r is Err && r->Err_0.spec_code() == error,
    {
        if indicates_success(error) {
            Ok(value)
        } else {
            proof {
                lemma_signed_round_trip(error);
            }
            Err(BLEError { code: signed_of(error) })
        }
    }

    /// Classifies `error` where success carries no value.
    pub fn convert(error: u32) -> (r: Result<(), Self>)
        ensures
            outcome(r) == classify(error, ()),
            is_success(error) <==> r is Ok,
            !is_success(error) ==> r is Err && r->Err_0.spec_code() == error,
    {
        Self::check_and_return(error, ())
    }

    /// The wrapped code.
    #[verifier::when_used_as_spec(spec_code)]
    pub fn code(&self) -> (code: u32)
        ensures
            code == self.spec_code(),
            !is_success(code),
    {
        proof {
            use_type_invariant(self);
        }
        unsigned_of(self.code)
    }

    /// The text of this error, for a reader and for a log alike.
    pub fn to_string(&self) -> (text: String)
        ensures
            text@ == render(self@),
    {
        match return_code_to_string(self.code) {
            Some(description) => String::from_str(description),
            None => {
                let mut text = String::from_str("0x");
                append_upper_hex(&mut text, unsigned_of(self.code));
                text
            },
        }
    }
}

/// Two errors are the same error if and only if they wrap the same code.
pub proof fn lemma_equal_by_code(a: BLEError, b: BLEError)
    ensures
        a == b <==> a@ == b@,
        a == b <==> a.spec_code() == b.spec_code(),
{
    lemma_unsigned_round_trip(a@);
    lemma_unsigned_round_trip(b@);
}

/// The code that is read back from the error of a failed classification is
/// the code that was classified, and it is none that means success.
pub proof fn lemma_code_round_trip<T>(error: u32, value: T)
    requires
        !is_success(error),
    ensures
        classify(error, value) is Err,
        to_unsigned(classify(error, value)->Err_0) == error,
        !is_success(to_unsigned(classify(error, value)->Err_0)),
{
    lemma_signed_round_trip(error);
}

/// A success hands the value back unchanged; a failure is the same whatever
/// value, of whatever type, was offered for the success.
pub proof fn lemma_value_only_on_success<T, U>(error: u32, a: T, b: U)
    ensures
        is_success(error) ==> classify(error, a) == Ok::<T, i32>(a),
        !is_success(error) ==> classify(error, a) is Err && classify(error, b) is Err
            && classify(error, a)->Err_0 == classify(error, b)->Err_0,
{
}

/// An error whose code the status-code table lists is rendered as the text of
/// that row, with nothing added.
pub proof fn lemma_render_listed(i: int)
    requires
        0 <= i < status_table().len(),
    ensures
        render(to_signed(status_table()[i].0)) == status_table()[i].1,
{
    lemma_signed_round_trip(status_table()[i].0);
    lemma_row_described(i);
}

} // verus!

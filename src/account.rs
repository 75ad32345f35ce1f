//! Resolving the account that a session works on from the broker's profile.
use vstd::prelude::*;

use crate::error::SessionError;
use tradier::types::AccountNumber;

verus! {

#[verifier::external_type_specification]
#[verifier::external_body]
pub struct ExAccountNumber(tradier::types::AccountNumber);

#[verifier::external_type_specification]
#[verifier::external_body]
pub struct ExTradierError(tradier::Error);

/// A character in the printable ASCII range, space included.
pub open spec fn is_printable_ascii(c: char) -> bool {
    0x20 <= (c as u32) < 0x7f
}

/// A character whose low byte falls in the printable ASCII range.
pub open spec fn low_byte_printable(c: char) -> bool {
    0x20 <= (c as u32) % 256 < 0x7f
}

/// Printable ASCII throughout, with at least one character that is not a
/// space: the account numbers that the broker library always accepts.
pub open spec fn is_plain_account_number(s: Seq<char>) -> bool {
    &&& forall|i: int| 0 <= i < s.len() ==> is_printable_ascii(#[trigger] s[i])
    &&& exists|i: int| 0 <= i < s.len() && #[trigger] s[i] != ' '
}

/// The account number that the broker library makes of the text `s`.
pub uninterp spec fn account_of(s: Seq<char>) -> AccountNumber;

/// Relies on `<tradier::types::AccountNumber as FromStr>::from_str`: it
/// refuses a string that is blank after trimming, accepts it only where the
/// low byte of every character is printable ASCII, and builds the number
/// from the text alone.
#[verifier::external_body]
fn parse_account_number(s: &str) -> (r: Result<AccountNumber, tradier::Error>)
    ensures
        r matches Ok(n) ==> n == account_of(s@),
        r is Ok ==> s@.len() > 0,
        r is Ok ==> forall|i: int| 0 <= i < s@.len() ==> low_byte_printable(#[trigger] s@[i]),
        is_plain_account_number(s@) ==> r is Ok,
{
    s.parse::<AccountNumber>()
}

/// The first account number that a profile lists, if the profile came back
/// and lists any.
pub open spec fn first_account(profile: Result<Vec<String>, String>) -> Option<Seq<char>> {
    match profile {
        Ok(accounts) => if accounts@.len() > 0 {
            Some(accounts@[0]@)
        } else {
            None
        },
        Err(_) => None,
    }
}

/// The account of a profile: the first account number it lists, where the
/// profile came back and that number is well formed. Later accounts are
/// never considered.
pub fn resolve_account(profile: &Result<Vec<String>, String>) -> (r: Result<
    AccountNumber,
    SessionError,
>)
    ensures
        r is Err ==> r == Err::<AccountNumber, SessionError>(SessionError::ProfileUnavailable),
        r matches Ok(a) ==> (first_account(*profile) matches Some(n) && a == account_of(n)),
        first_account(*profile) is None ==> r is Err,
        first_account(*profile) matches Some(n) ==> (is_plain_account_number(n) ==> r is Ok) && (
        r is Ok ==> n.len() > 0),
{
    match profile {
        Ok(accounts) => {
            if accounts.len() == 0 {
                Err(SessionError::ProfileUnavailable)
            } else {
                match parse_account_number(accounts[0].as_str()) {
                    Ok(n) => Ok(n),
                    Err(_) => Err(SessionError::ProfileUnavailable),
                }
            }
        },
        Err(_) => Err(SessionError::ProfileUnavailable),
    }
}

} // verus!

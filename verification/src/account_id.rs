//! Identities of accounts on the host ledger.

use vstd::prelude::*;
use vstd::std_specs::cmp::PartialEqSpecImpl;
use vstd::string::StringSliceAdditionalSpecFns;

verus! {

/// The least number of bytes in an account identifier.
pub const MIN_ACCOUNT_ID_LEN: usize = 2;

/// The greatest number of bytes in an account identifier.
pub const MAX_ACCOUNT_ID_LEN: usize = 64;

/// Why a string is no account identifier.
#[derive(Clone, Copy, Debug, PartialEq, Eq, Structural)]
pub enum ParseAccountError {
    /// More than [`MAX_ACCOUNT_ID_LEN`] bytes.
    TooLong,
    /// Fewer than [`MIN_ACCOUNT_ID_LEN`] bytes.
    TooShort,
    /// A byte that may not occur, or a separator where none may stand.
    Invalid,
}

/// A lower-case letter `a` to `z` (0x61 to 0x7a) or a digit `0` to `9`
/// (0x30 to 0x39).
pub open spec fn is_plain_byte(b: u8) -> bool {
    (0x61 <= b <= 0x7a) || (0x30 <= b <= 0x39)
}

/// One of the separators `-` (0x2d), `_` (0x5f) and `.` (0x2e).
pub open spec fn is_separator_byte(b: u8) -> bool {
    b == 0x2d || b == 0x5f || b == 0x2e
}

/// Every byte is a plain byte or a separator, no separator stands first or
/// last, and no two separators stand side by side.
pub open spec fn well_separated(bytes: Seq<u8>) -> bool {
    &&& forall|i: int|
        0 <= i < bytes.len() ==> is_plain_byte(#[trigger] bytes[i]) || is_separator_byte(bytes[i])
    &&& bytes.len() > 0 ==> !is_separator_byte(bytes[0]) && !is_separator_byte(
        bytes[bytes.len() - 1],
    )
    &&& forall|i: int|
        0 <= i < bytes.len() - 1 ==> !(is_separator_byte(#[trigger] bytes[i])
            && is_separator_byte(bytes[i + 1]))
}

/// What the host ledger says of a candidate identifier, given as its bytes.
pub open spec fn account_id_check(bytes: Seq<u8>) -> Result<(), ParseAccountError> {
    if bytes.len() < MIN_ACCOUNT_ID_LEN {
        Err(ParseAccountError::TooShort)
    } else if bytes.len() > MAX_ACCOUNT_ID_LEN {
        Err(ParseAccountError::TooLong)
    } else if well_separated(bytes) {
        Ok(())
    } else {
        Err(ParseAccountError::Invalid)
    }
}

/// Calls `aurora_engine_types::account_id::AccountId::validate`.
///
/// Trusted: the result is what [`account_id_check`] says of the bytes of
/// `id`. That function restates the outside check: the two length limits
/// first, then a scan that refuses any byte outside `a-z`, `0-9`, `-`, `_`,
/// `.`, a separator at either end, and two separators in a row.
#[verifier::external_body]
fn validate_account_id(id: &str) -> (r: Result<(), ParseAccountError>)
    ensures
        r == account_id_check(id.spec_bytes()),
{
    match aurora_engine_types::account_id::AccountId::validate(id) {
        Ok(()) => Ok(()),
        Err(aurora_engine_types::account_id::ParseAccountError::TooLong) => Err(
            ParseAccountError::TooLong,
        ),
        Err(aurora_engine_types::account_id::ParseAccountError::TooShort) => Err(
            ParseAccountError::TooShort,
        ),
        Err(aurora_engine_types::account_id::ParseAccountError::Invalid) => Err(
            ParseAccountError::Invalid,
        ),
    }
}

/// The identity of an account on the host ledger.
///
/// An identifier is either the empty default or a string that the host
/// ledger accepts.
#[derive(Debug, Eq)]
pub struct AccountId {
    name: String,
}

impl View for AccountId {
    type V = Seq<char>;

    closed spec fn view(&self) -> Seq<char> {
        self.name@
    }
}

impl AccountId {
    #[verifier::type_invariant]
    spec fn accepted_or_default(self) -> bool {
        self.name@.len() == 0 || account_id_check(vstd::utf8::encode_utf8(self.name@)) is Ok
    }

    /// Whether the host ledger accepts the identifier.
    pub open spec fn is_accepted(&self) -> bool {
        account_id_check(vstd::utf8::encode_utf8(self@)) is Ok
    }

    /// The identifier `id`, where the host ledger accepts it.
    pub fn new(id: &str) -> (r: Result<Self, ParseAccountError>)
        ensures
            r is Ok <==> account_id_check(id.spec_bytes()) is Ok,
            match r {
                Ok(account) => account@ == id@ && account.is_accepted(),
                Err(e) => account_id_check(id.spec_bytes()) == Err::<(), ParseAccountError>(e),
            },
    {
        match validate_account_id(id) {
            Ok(()) => Ok(AccountId { name: id.to_owned() }),
            Err(e) => Err(e),
        }
    }

    /// The identifier as a string.
    pub fn as_str(&self) -> (r: &str)
        ensures
            r@ == self@,
    {
        self.name.as_str()
    }

    /// Whether this is the empty default rather than an accepted identifier.
    pub fn is_default(&self) -> (r: bool)
        ensures
            r == (self@.len() == 0),
            !r ==> self.is_accepted(),
    {
        proof {
            use_type_invariant(self);
        }
        self.name.as_str().is_empty()
    }
}

impl Clone for AccountId {
    fn clone(&self) -> (r: Self)
        ensures
            r@ == self@,
    {
        proof {
            use_type_invariant(self);
        }
        AccountId { name: self.name.clone() }
    }
}

impl PartialEq for AccountId {
    fn eq(&self, other: &Self) -> (r: bool) {
        self.name == other.name
    }
}

impl PartialEqSpecImpl for AccountId {
    open spec fn obeys_eq_spec() -> bool {
        true
    }

    open spec fn eq_spec(&self, other: &Self) -> bool {
        self@ == other@
    }
}

impl Default for AccountId {
    fn default() -> (r: Self)
        ensures
            r@ == Seq::<char>::empty(),
    {
        AccountId { name: String::new() }
    }
}

} // verus!

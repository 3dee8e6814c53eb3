//! The routing message of a transfer with a callback: it names the address
//! of the embedded virtual machine that is to receive the funds.

use crate::primitives::H160;
use aurora_engine_types::parameters::connector::errors::ParseOnTransferMessageError as HostError;
use aurora_engine_types::parameters::connector::FtTransferMessageData;
use vstd::prelude::*;

verus! {

/// Why a routing message names no recipient.
#[derive(Clone, Copy, Debug, PartialEq, Eq, Structural)]
pub enum MessageError {
    /// The message is not an address alone and has no `:` in it.
    TooManyParts,
    /// What should be hexadecimal digits is not.
    InvalidHexData,
    /// The part after the `:` has the wrong length.
    WrongMessageFormat,
    /// The part before the `:` is no account identifier.
    InvalidAccount,
    /// The fee in the message does not fit in 128 bits.
    OverflowNumber,
}

/// What the host ledger's message format makes of `message`: the bytes of
/// the recipient's address, or the reason why there is none.
///
/// The format is that of `aurora_engine_types`: either 40 hexadecimal
/// digits, the address; or an account identifier, a `:`, and 104
/// hexadecimal digits, of which the last 40 are the address.
pub uninterp spec fn on_transfer_recipient(message: Seq<char>) -> Result<Seq<u8>, MessageError>;

/// A parsed route as specifications see it: the recipient by its bytes.
pub open spec fn route_view(route: Result<H160, MessageError>) -> Result<Seq<u8>, MessageError> {
    match route {
        Ok(recipient) => Ok(recipient@),
        Err(e) => Err(e),
    }
}

/// Calls `FtTransferMessageData::try_from` of `aurora_engine_types` on a
/// `&str` and hands back the recipient that it found.
///
/// Trusted: the result depends on the characters of `message` alone, and is
/// named [`on_transfer_recipient`]. Nothing more is claimed of it.
#[verifier::external_body]
pub(crate) fn parse_on_transfer_message(message: &str) -> (r: Result<H160, MessageError>)
    ensures
        route_view(r) == on_transfer_recipient(message@),
{
    match FtTransferMessageData::try_from(message) {
        Ok(data) => Ok(H160(data.recipient.raw().0)),
        Err(HostError::TooManyParts) => Err(MessageError::TooManyParts),
        Err(HostError::InvalidHexData) => Err(MessageError::InvalidHexData),
        Err(HostError::WrongMessageFormat) => Err(MessageError::WrongMessageFormat),
        Err(HostError::InvalidAccount) => Err(MessageError::InvalidAccount),
        Err(HostError::OverflowNumber) => Err(MessageError::OverflowNumber),
    }
}

} // verus!

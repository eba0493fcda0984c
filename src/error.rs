use vstd::prelude::*;

use openzeppelin_stylus::token::erc721;

verus! {

#[verifier::external_type_specification]
#[verifier::external_body]
pub struct ExInvalidOwner(erc721::ERC721InvalidOwner);

#[verifier::external_type_specification]
#[verifier::external_body]
pub struct ExNonexistentToken(erc721::ERC721NonexistentToken);

#[verifier::external_type_specification]
#[verifier::external_body]
pub struct ExIncorrectOwner(erc721::ERC721IncorrectOwner);

#[verifier::external_type_specification]
#[verifier::external_body]
pub struct ExInvalidSender(erc721::ERC721InvalidSender);

#[verifier::external_type_specification]
#[verifier::external_body]
pub struct ExInvalidReceiver(erc721::ERC721InvalidReceiver);

#[verifier::external_type_specification]
#[verifier::external_body]
pub struct ExInvalidReceiverWithReason(erc721::InvalidReceiverWithReason);

#[verifier::external_type_specification]
#[verifier::external_body]
pub struct ExInsufficientApproval(erc721::ERC721InsufficientApproval);

#[verifier::external_type_specification]
#[verifier::external_body]
pub struct ExInvalidApprover(erc721::ERC721InvalidApprover);

#[verifier::external_type_specification]
#[verifier::external_body]
pub struct ExInvalidOperator(erc721::ERC721InvalidOperator);

/// The token ledger's error set. Its variants are public, so the
/// declaration lets Verus see which one a value is; each payload stays opaque.
#[verifier::external_type_specification]
pub struct ExLedgerError(erc721::Error);

/// Every way a call of this contract can fail: one variant for each failure
/// of the token ledger, carrying the ledger's payload unchanged.
#[derive(Debug)]
pub enum GlyphError {
    InvalidOwner(erc721::ERC721InvalidOwner),
    NonexistentToken(erc721::ERC721NonexistentToken),
    IncorrectOwner(erc721::ERC721IncorrectOwner),
    InvalidSender(erc721::ERC721InvalidSender),
    InvalidReceiver(erc721::ERC721InvalidReceiver),
    InvalidReceiverWithReason(erc721::InvalidReceiverWithReason),
    InsufficientApproval(erc721::ERC721InsufficientApproval),
    InvalidApprover(erc721::ERC721InvalidApprover),
    InvalidOperator(erc721::ERC721InvalidOperator),
}

/// The contract error that a ledger failure becomes: the variant of the same
/// name, with the same payload.
pub open spec fn glyph_error_of(e: erc721::Error) -> GlyphError {
    match e {
        erc721::Error::InvalidOwner(p) => GlyphError::InvalidOwner(p),
        erc721::Error::NonexistentToken(p) => GlyphError::NonexistentToken(p),
        erc721::Error::IncorrectOwner(p) => GlyphError::IncorrectOwner(p),
        erc721::Error::InvalidSender(p) => GlyphError::InvalidSender(p),
        erc721::Error::InvalidReceiver(p) => GlyphError::InvalidReceiver(p),
        erc721::Error::InvalidReceiverWithReason(p) => GlyphError::InvalidReceiverWithReason(p),
        erc721::Error::InsufficientApproval(p) => GlyphError::InsufficientApproval(p),
        erc721::Error::InvalidApprover(p) => GlyphError::InvalidApprover(p),
        erc721::Error::InvalidOperator(p) => GlyphError::InvalidOperator(p),
    }
}

impl From<erc721::Error> for GlyphError {
    fn from(value: erc721::Error) -> (r: GlyphError)
        ensures
            r == glyph_error_of(value),
    {
        match value {
            erc721::Error::InvalidOwner(e) => GlyphError::InvalidOwner(e),
            erc721::Error::NonexistentToken(e) => GlyphError::NonexistentToken(e),
            erc721::Error::IncorrectOwner(e) => GlyphError::IncorrectOwner(e),
            erc721::Error::InvalidSender(e) => GlyphError::InvalidSender(e),
            erc721::Error::InvalidReceiver(e) => GlyphError::InvalidReceiver(e),
            erc721::Error::InvalidReceiverWithReason(e) => GlyphError::InvalidReceiverWithReason(e),
            erc721::Error::InsufficientApproval(e) => GlyphError::InsufficientApproval(e),
            erc721::Error::InvalidApprover(e) => GlyphError::InvalidApprover(e),
            erc721::Error::InvalidOperator(e) => GlyphError::InvalidOperator(e),
        }
    }
}

impl vstd::std_specs::convert::FromSpecImpl<erc721::Error> for GlyphError {
    open spec fn obeys_from_spec() -> bool {
        true
    }

    open spec fn from_spec(v: erc721::Error) -> GlyphError {
        glyph_error_of(v)
    }
}

} // verus!

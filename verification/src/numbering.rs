//! The numbering that Anchor gives a program's custom errors.
use vstd::prelude::*;

verus! {

/// Anchor's `ERROR_CODE_OFFSET` (anchor-lang-error): the number of a
/// program's first custom error. `#[error_code]` numbers each variant as
/// this offset plus the variant's position. The contract states the
/// constant's value, 6000.
#[verifier::external_body]
pub(crate) fn custom_error_offset() -> (r: u32)
    ensures
        r == 6000,
{
    anchor_lang::error::ERROR_CODE_OFFSET
}

} // verus!

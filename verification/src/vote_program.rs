use vstd::prelude::*;
use crate::block::AccountKey;

verus! {

/// The 32 bytes of the vote program's address.
pub open spec fn vote_program_key() -> Seq<u8> {
    seq![
        7u8, 97u8, 72u8, 29u8, 53u8, 116u8, 116u8, 187u8,
        124u8, 77u8, 118u8, 36u8, 235u8, 211u8, 189u8, 179u8,
        216u8, 53u8, 94u8, 115u8, 209u8, 16u8, 67u8, 252u8,
        13u8, 163u8, 83u8, 128u8, 0u8, 0u8, 0u8, 0u8,
    ]
}

/// The vote program's address. Calls `solana_sdk_ids::vote::id`; the contract
/// claims that its bytes are those of the address that the crate declares,
/// `Vote111111111111111111111111111111111111111` in base 58.
#[verifier::external_body]
pub(crate) fn vote_program_id() -> (key: AccountKey)
    ensures
        key@ == vote_program_key(),
{
    AccountKey { bytes: solana_sdk_ids::vote::id().to_bytes() }
}

} // verus!

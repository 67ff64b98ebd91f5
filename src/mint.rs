use vstd::prelude::*;
use solana_program::program_pack::Pack;
use spl_token::state::Mint;

verus! {

/// Length in bytes of a packed token mint.
pub const MINT_LEN: usize = 82;

/// The four-byte option tag at `at` is 0 (none) or 1 (some).
pub open spec fn is_option_tag(d: Seq<u8>, at: int) -> bool {
    &&& d[at] == 0 || d[at] == 1
    &&& d[at + 1] == 0
    &&& d[at + 2] == 0
    &&& d[at + 3] == 0
}

/// `d` has the layout of a packed token mint: 82 bytes, the mint authority's
/// option tag at 0, the initialized flag (0 or 1) at 45 and the freeze
/// authority's option tag at 46.
pub open spec fn is_mint_layout(d: Seq<u8>) -> bool {
    &&& d.len() == MINT_LEN
    &&& is_option_tag(d, 0)
    &&& d[45] == 0 || d[45] == 1
    &&& is_option_tag(d, 46)
}

/// Relies on `spl_token::state::Mint::unpack_unchecked`: it fails unless the
/// input is 82 bytes long, both option tags are `[0,0,0,0]` or `[1,0,0,0]`
/// and the initialized byte is 0 or 1; it reads no other condition.
#[verifier::external_body]
fn unpack_mint_unchecked(data: &Vec<u8>) -> (r: bool)
    ensures
        r == is_mint_layout(data@),
{
    Mint::unpack_unchecked(data.as_slice()).is_ok()
}

/// Whether an account's bytes unpack as a token mint, initialized or not.
pub fn is_token_mint(data: &Vec<u8>) -> (r: bool)
    ensures
        r == is_mint_layout(data@),
{
    unpack_mint_unchecked(data)
}

} // verus!

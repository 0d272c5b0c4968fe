//! Well-known program and mint addresses, in their rendered string form.

use vstd::prelude::*;

verus! {

/// Address of the classic SPL token program.
pub open spec fn spec_token_program() -> Seq<char> {
    "TokenkegQfeZyiNwAJbNbGKPFXCWuBvf9Ss623VQ5DA"@
}

/// Address of the extended (2022) SPL token program.
pub open spec fn spec_token_2022_program() -> Seq<char> {
    "TokenzQdBNbLqP5VEhdkAS6EPFLC1PHnBqCXEpPxuEb"@
}

/// The native-currency pseudo-mint: the mint address under which wrapped
/// native balances are reported.
pub open spec fn spec_native_mint() -> Seq<char> {
    "So11111111111111111111111111111111111111112"@
}

/// The sentinel a transfer's mint is normalized to when the balance record
/// carries an empty mint string.
pub open spec fn spec_unknown_mint() -> Seq<char> {
    "Unknown"@
}

/// Rendered address of the classic SPL token program.
pub fn token_program() -> (r: String)
    ensures
        r@ == spec_token_program(),
{
    "TokenkegQfeZyiNwAJbNbGKPFXCWuBvf9Ss623VQ5DA".to_owned()
}

/// Rendered address of the extended (2022) SPL token program.
pub fn token_2022_program() -> (r: String)
    ensures
        r@ == spec_token_2022_program(),
{
    "TokenzQdBNbLqP5VEhdkAS6EPFLC1PHnBqCXEpPxuEb".to_owned()
}

/// Rendered address of the native-currency pseudo-mint.
pub fn native_mint() -> (r: String)
    ensures
        r@ == spec_native_mint(),
{
    "So11111111111111111111111111111111111111112".to_owned()
}

/// The mint sentinel for balance records with an empty mint string.
pub fn unknown_mint() -> (r: String)
    ensures
        r@ == spec_unknown_mint(),
{
    "Unknown".to_owned()
}

} // verus!

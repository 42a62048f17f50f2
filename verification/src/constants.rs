//! The fixed values of the protocol: program addresses, domain seeds and
//! type tags.

use crate::pubkey::Pubkey;
use vstd::prelude::*;

verus! {

/// The address of the attestation program, which owns every record here.
pub const ATTESTATION_PROGRAM_ID: [u8; 32] = [
    12, 246, 37, 40, 156, 146, 161, 132, 190, 120, 201, 18, 161, 81, 189, 215,
    81, 28, 243, 189, 81, 230, 198, 37, 127, 189, 237, 45, 180, 3, 188, 191,
];

/// The address of the attestation program, which owns every record here.
pub fn attestation_program_id() -> (r: Pubkey)
    ensures
        r@ == ATTESTATION_PROGRAM_ID@,
{
    Pubkey::new_from_array(ATTESTATION_PROGRAM_ID)
}

/// The address of the oracle program; it fills the place of an absent optional record.
pub const SWITCHBOARD_PROGRAM_ID: [u8; 32] = [
    6, 136, 81, 198, 140, 104, 50, 240, 47, 165, 129, 177, 191, 73, 27, 119,
    202, 65, 119, 107, 162, 185, 136, 181, 166, 250, 186, 142, 227, 162, 236, 144,
];

/// The address of the oracle program; it fills the place of an absent optional record.
pub fn switchboard_program_id() -> (r: Pubkey)
    ensures
        r@ == SWITCHBOARD_PROGRAM_ID@,
{
    Pubkey::new_from_array(SWITCHBOARD_PROGRAM_ID)
}

/// The address of the token program.
pub const TOKEN_PROGRAM_ID: [u8; 32] = [
    6, 221, 246, 225, 215, 101, 161, 147, 217, 203, 225, 70, 206, 235, 121, 172,
    28, 180, 133, 237, 95, 91, 55, 145, 58, 140, 245, 133, 126, 255, 0, 169,
];

/// The address of the token program.
pub fn token_program_id() -> (r: Pubkey)
    ensures
        r@ == TOKEN_PROGRAM_ID@,
{
    Pubkey::new_from_array(TOKEN_PROGRAM_ID)
}

/// The address of the mint of wrapped native currency.
pub const NATIVE_MINT_ID: [u8; 32] = [
    6, 155, 136, 87, 254, 171, 129, 132, 251, 104, 127, 99, 70, 24, 192, 53,
    218, 196, 57, 220, 26, 235, 59, 85, 152, 160, 240, 0, 0, 0, 0, 1,
];

/// The address of the mint of wrapped native currency.
pub fn native_mint_id() -> (r: Pubkey)
    ensures
        r@ == NATIVE_MINT_ID@,
{
    Pubkey::new_from_array(NATIVE_MINT_ID)
}

/// The domain seed of quote records: the text "QuoteAccountData".
pub const QUOTE_SEED: [u8; 16] = [
    81, 117, 111, 116, 101, 65, 99, 99, 111, 117, 110, 116, 68, 97, 116, 97,
];

/// The domain seed of the program state record: the text "STATE".
pub const STATE_SEED: [u8; 5] = [
    83, 84, 65, 84, 69,
];

/// The domain seed of permission records: the text "PermissionAccountData".
pub const PERMISSION_SEED: [u8; 21] = [
    80, 101, 114, 109, 105, 115, 115, 105, 111, 110, 65, 99, 99, 111, 117, 110,
    116, 68, 97, 116, 97,
];

/// The type tag of a quote record.
pub const QUOTE_TAG: [u8; 8] = [205, 205, 167, 232, 0, 74, 44, 160];

/// The type tag of a function record.
pub const FUNCTION_TAG: [u8; 8] = [76, 139, 47, 44, 240, 182, 148, 200];

/// The type tag of a function request record.
pub const FUNCTION_REQUEST_TAG: [u8; 8] = [8, 14, 177, 85, 144, 65, 148, 246];

/// The type tag of a verifier record.
pub const VERIFIER_TAG: [u8; 8] = [106, 146, 60, 232, 231, 52, 189, 253];

/// The type tag of an attestation queue record.
pub const QUEUE_TAG: [u8; 8] = [192, 53, 130, 67, 234, 207, 39, 171];

/// The type tag of a permission record.
pub const PERMISSION_TAG: [u8; 8] = [63, 83, 122, 184, 22, 35, 31, 70];

/// The type tag of a wallet record.
pub const WALLET_TAG: [u8; 8] = [210, 5, 94, 50, 69, 33, 74, 13];

/// The type tag of the operation that closes a request.
pub const FUNCTION_REQUEST_CLOSE_TAG: [u8; 8] = [5, 221, 34, 111, 136, 82, 119, 101];

/// The type tag of the operation that funds a wallet.
pub const WALLET_FUND_TAG: [u8; 8] = [93, 170, 44, 19, 223, 172, 40, 164];

/// The type tag of the operation that verifies a function run.
pub const FUNCTION_VERIFY_TAG: [u8; 8] = [210, 108, 154, 138, 198, 14, 53, 191];

/// The type tag of the operation that verifies a requested run.
pub const FUNCTION_REQUEST_VERIFY_TAG: [u8; 8] = [179, 6, 88, 97, 232, 112, 143, 253];

/// The number of bytes in a type tag.
pub const TAG_LEN: usize = 8;

} // verus!

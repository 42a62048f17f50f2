//! What the runner needs around its logic: the clock, the values that the
//! process is started with, and the signing key of one run.

use crate::error::SwitchboardError;
use crate::bytes::zeros;
use crate::pubkey::Pubkey;
use anchor_lang::solana_program::pubkey::Pubkey as SolPubkey;
use solana_sdk::signer::keypair::Keypair;
use std::time::SystemTime;
use vstd::prelude::*;

verus! {

/// `SystemTime` of std: a reading of the system clock. Nothing is known of
/// what it holds.
#[verifier::external_type_specification]
#[verifier::external_body]
pub struct ExSystemTime(SystemTime);

/// `Keypair` of solana_sdk: a signing key with its secret. Nothing is known
/// of what it holds.
#[verifier::external_type_specification]
#[verifier::external_body]
pub struct ExKeypair(Keypair);

/// Calls `SystemTime::now` of std: the time of the system clock. Nothing is
/// known of it.
#[verifier::external_body]
pub(crate) fn system_now() -> (r: SystemTime) {
    SystemTime::now()
}

/// Calls `SystemTime::duration_since` of std with the epoch: the time from the
/// epoch to `t`, or none where `t` lies before the epoch.
#[verifier::external_body]
pub(crate) fn since_epoch(t: &SystemTime) -> (r: Option<core::time::Duration>) {
    t.duration_since(std::time::UNIX_EPOCH).ok()
}

/// Calls `Duration::as_secs` of std: the whole seconds of the duration.
#[verifier::external_body]
pub(crate) fn whole_seconds(d: &core::time::Duration) -> (r: u64) {
    d.as_secs()
}

/// The timestamp for a count of seconds since the epoch: the count itself
/// where there is one and it fits, else zero.
pub open spec fn timestamp_of(seconds: Option<u64>) -> i64 {
    match seconds {
        Some(s) => if s <= i64::MAX as u64 {
            s as i64
        } else {
            0
        },
        None => 0,
    }
}

/// The timestamp for a count of seconds since the epoch: the count itself
/// where there is one and it fits, else zero.
pub fn timestamp_from_seconds(seconds: Option<u64>) -> (r: i64)
    ensures
        r == timestamp_of(seconds),
        r >= 0,
{
    match seconds {
        Some(s) => if s <= i64::MAX as u64 {
            s as i64
        } else {
            0
        },
        None => 0,
    }
}

/// The time of the system clock in whole seconds since the epoch; zero where
/// the clock stands before the epoch or beyond what a timestamp can hold.
pub fn unix_timestamp() -> (r: i64)
    ensures
        r >= 0,
{
    let now = system_now();
    let seconds = match since_epoch(&now) {
        Some(d) => Some(whole_seconds(&d)),
        None => None,
    };
    timestamp_from_seconds(seconds)
}

/// The address that a text denotes in base 58, or `None` where the text
/// denotes none. It depends on the text alone.
pub uninterp spec fn base58_address(text: Seq<char>) -> Option<Seq<u8>>;

/// Calls `Pubkey::from_str` of solana_program: the address that the text
/// denotes in base 58, if it denotes one.
#[verifier::external_body]
pub(crate) fn pubkey_from_str(text: &str) -> (r: Option<Pubkey>)
    ensures
        match r {
            Some(k) => base58_address(text@) == Some(k@),
            None => base58_address(text@) is None,
        },
{
    match text.parse::<SolPubkey>() {
        Ok(k) => Some(Pubkey { bytes: k.to_bytes() }),
        Err(_) => None,
    }
}

/// What `load_env_pubkey` answers for the value of the variable `key`.
pub open spec fn env_pubkey(key: Seq<char>, value: Option<Seq<char>>) -> Result<
    Seq<u8>,
    Seq<char>,
> {
    match value {
        Some(text) => match base58_address(text) {
            Some(k) => Ok(k),
            None => Err(key),
        },
        None => Err(key),
    }
}

/// Reads an address from the value of the environment variable `key`. A
/// variable that is not set, or whose value denotes no address, is reported
/// as missing, under its name.
pub fn load_env_pubkey(key: &str, value: &Option<String>) -> (r: Result<Pubkey, SwitchboardError>)
    ensures
        match r {
            Ok(k) => env_pubkey(key@, option_text(*value)) == Ok::<Seq<u8>, Seq<char>>(k@),
            Err(e) => e matches SwitchboardError::EnvVariableMissing(name) && env_pubkey(
                key@,
                option_text(*value),
            ) == Err::<Seq<u8>, Seq<char>>(name@) && name@ == key@,
        },
{
    match value {
        Some(text) => match pubkey_from_str(text.as_str()) {
            Some(k) => Ok(k),
            None => Err(SwitchboardError::EnvVariableMissing(key.to_owned())),
        },
        None => Err(SwitchboardError::EnvVariableMissing(key.to_owned())),
    }
}

/// What `load_env_optional_pubkey` answers for the value of the variable
/// `key`: the all-zero address for a variable that is not set, the address
/// that the value denotes for one that is set, and the name of the variable
/// where the value denotes none.
pub open spec fn env_optional_pubkey(key: Seq<char>, value: Option<Seq<char>>) -> Result<
    Seq<u8>,
    Seq<char>,
> {
    match value {
        Some(text) => match base58_address(text) {
            Some(k) => Ok(k),
            None => Err(key),
        },
        None => Ok(zeros(32)),
    }
}

/// Reads an address from the value of an environment variable that need not
/// be set. A variable that is not set gives the all-zero address, which
/// stands for "none". A variable that is set must denote an address: one that
/// does not is reported as missing, under its name, and is not replaced by
/// anything.
pub fn load_env_optional_pubkey(key: &str, value: &Option<String>) -> (r: Result<
    Pubkey,
    SwitchboardError,
>)
    ensures
        match r {
            Ok(k) => env_optional_pubkey(key@, option_text(*value)) == Ok::<Seq<u8>, Seq<char>>(
                k@,
            ),
            Err(e) => e matches SwitchboardError::EnvVariableMissing(name)
                && env_optional_pubkey(key@, option_text(*value)) == Err::<Seq<u8>, Seq<char>>(
                name@,
            ) && name@ == key@,
        },
{
    match value {
        Some(text) => match pubkey_from_str(text.as_str()) {
            Some(k) => Ok(k),
            None => Err(SwitchboardError::EnvVariableMissing(key.to_owned())),
        },
        None => Ok(Pubkey::default()),
    }
}

/// The text of a value that may be absent.
pub open spec fn option_text(value: Option<String>) -> Option<Seq<char>> {
    match value {
        Some(s) => Some(s@),
        None => None,
    }
}

/// The value of a hexadecimal digit, or `None` for any other character.
pub open spec fn hex_digit(c: char) -> Option<int> {
    if '0' <= c && c <= '9' {
        Some(c as int - '0' as int)
    } else if 'a' <= c && c <= 'f' {
        Some(c as int - 'a' as int + 10)
    } else if 'A' <= c && c <= 'F' {
        Some(c as int - 'A' as int + 10)
    } else {
        None
    }
}

/// Whether a text is made of hexadecimal digits, two for each byte.
pub open spec fn is_hex(text: Seq<char>) -> bool {
    &&& text.len() % 2 == 0
    &&& forall|i: int| 0 <= i < text.len() ==> hex_digit(#[trigger] text[i]) is Some
}

/// The bytes that a hexadecimal text denotes: each pair of digits makes one
/// byte, the first digit its upper half.
pub open spec fn hex_bytes(text: Seq<char>) -> Seq<u8> {
    Seq::new(
        text.len() / 2,
        |i: int| (16 * hex_digit(text[2 * i])->0 + hex_digit(text[2 * i + 1])->0) as u8,
    )
}

/// Calls `hex::decode`: the bytes that the text denotes, where it is made of
/// hexadecimal digits of either case, two for each byte; else none.
#[verifier::external_body]
pub(crate) fn hex_decode(text: &str) -> (r: Option<Vec<u8>>)
    ensures
        r is Some <==> is_hex(text@),
        r matches Some(bytes) ==> bytes@ == hex_bytes(text@),
{
    hex::decode(text).ok()
}

/// What `load_env_bytes` answers for the value of the variable `key`: no
/// bytes for a variable that is not set, the bytes that the value denotes
/// for one that is set to a hexadecimal text, and the name of the variable
/// where the value is no hexadecimal text.
pub open spec fn env_bytes(key: Seq<char>, value: Option<Seq<char>>) -> Result<
    Option<Seq<u8>>,
    Seq<char>,
> {
    match value {
        Some(text) => if is_hex(text) {
            Ok(Some(hex_bytes(text)))
        } else {
            Err(key)
        },
        None => Ok(None),
    }
}

/// Reads bytes from the hexadecimal value of an environment variable that
/// need not be set. A variable that is not set holds nothing. A variable
/// that is set must hold a hexadecimal text: one that does not is reported
/// as missing, under its name, and is not replaced by anything.
pub fn load_env_bytes(key: &str, value: &Option<String>) -> (r: Result<
    Option<Vec<u8>>,
    SwitchboardError,
>)
    ensures
        match r {
            Ok(Some(bytes)) => env_bytes(key@, option_text(*value)) == Ok::<
                Option<Seq<u8>>,
                Seq<char>,
            >(Some(bytes@)),
            Ok(None) => env_bytes(key@, option_text(*value)) == Ok::<
                Option<Seq<u8>>,
                Seq<char>,
            >(None),
            Err(e) => e matches SwitchboardError::EnvVariableMissing(name) && env_bytes(
                key@,
                option_text(*value),
            ) == Err::<Option<Seq<u8>>, Seq<char>>(name@) && name@ == key@,
        },
{
    match value {
        Some(text) => match hex_decode(text.as_str()) {
            Some(bytes) => Ok(Some(bytes)),
            None => Err(SwitchboardError::EnvVariableMissing(key.to_owned())),
        },
        None => Ok(None),
    }
}

/// The public address of the signing key whose secret is the given seed. It
/// depends on the seed alone.
pub uninterp spec fn signer_public_key(seed: Seq<u8>) -> Seq<u8>;

/// Calls `keypair_from_seed` of solana_sdk, which makes the signing key whose
/// secret is the thirty-two bytes of the seed, and hands the key out with its
/// public address, read by `Signer::pubkey`. A seed of thirty-two bytes
/// always gives a key: the outside function refuses shorter seeds only.
#[verifier::external_body]
pub(crate) fn keypair_from_seed(seed: &[u8; 32]) -> (r: Option<(Keypair, Pubkey)>)
    ensures
        r is Some,
        r matches Some((_, public)) ==> public@ == signer_public_key(seed@),
{
    match solana_sdk::signer::keypair::keypair_from_seed(seed) {
        Ok(keypair) => {
            let public = Pubkey { bytes: solana_sdk::signer::Signer::pubkey(&keypair).to_bytes() };
            Some((keypair, public))
        },
        Err(_) => None,
    }
}

/// The signing key of one run. It is made anew for each run from randomness
/// of the enclave and dropped with the run; nothing stores it.
pub struct EnclaveSigner {
    keypair: Keypair,
    pubkey: Pubkey,
    seed: [u8; 32],
}

impl EnclaveSigner {
    /// The public address of the key.
    pub closed spec fn public_key(&self) -> Pubkey {
        self.pubkey
    }

    /// The key itself, for signing.
    pub(crate) fn keypair(&self) -> (r: &Keypair)
        ensures
            *r == self.signing_key(),
    {
        &self.keypair
    }

    /// The key that the signer holds: the one whose public address is
    /// `public_key` and whose secret is `seed`.
    pub closed spec fn signing_key(&self) -> Keypair {
        self.keypair
    }

    /// The secret that the key was made from.
    pub closed spec fn seed(&self) -> Seq<u8> {
        self.seed@
    }
}

/// Makes the signing key of one run from thirty-two bytes of randomness that
/// the enclave gave. Its public address is that of the key whose secret is
/// the randomness.
pub fn generate_signer(randomness: &[u8; 32]) -> (r: EnclaveSigner)
    ensures
        r.public_key()@ == signer_public_key(randomness@),
        r.seed() == randomness@,
{
    let (keypair, pubkey) = keypair_from_seed(randomness).unwrap();
    EnclaveSigner { keypair, pubkey, seed: *randomness }
}

/// The public address of the signing key of a run.
pub fn signer_to_pubkey(signer: &EnclaveSigner) -> (r: Result<Pubkey, SwitchboardError>)
    ensures
        r == Ok::<Pubkey, SwitchboardError>(signer.public_key()),
{
    Ok(signer.pubkey)
}

} // verus!

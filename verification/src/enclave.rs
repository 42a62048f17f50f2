//! What the runner reads from the attestation quote of its own enclave.

use crate::bytes::read_array;
use vstd::prelude::*;

verus! {

/// Whether the bytes are a well-formed attestation quote. It depends on the
/// bytes alone.
pub uninterp spec fn quote_parses(quote: Seq<u8>) -> bool;

/// Where the enclave measurement begins in a quote: after the header of
/// forty-eight bytes and sixty-four bytes of the report.
pub const MR_ENCLAVE_OFFSET: usize = 112;

/// Calls `Quote::parse` of sgx_quote and hands out the measurement of the
/// parsed report: the thirty-two bytes that stand at offset 112 of a quote
/// that parses.
#[verifier::external_body]
pub(crate) fn parse_mr_enclave(quote: &[u8]) -> (r: Option<Vec<u8>>)
    ensures
        r is Some <==> quote_parses(quote@),
        r matches Some(m) ==> quote@.len() >= MR_ENCLAVE_OFFSET + 32 && m@ == quote@.subrange(
            MR_ENCLAVE_OFFSET as int,
            MR_ENCLAVE_OFFSET + 32,
        ),
{
    match sgx_quote::Quote::parse(quote) {
        Ok(parsed) => Some(parsed.isv_report.mrenclave.to_vec()),
        Err(_) => None,
    }
}

/// The measurement that a quote carries, if the quote is well-formed.
pub fn quote_mr_enclave(quote: &[u8]) -> (r: Option<[u8; 32]>)
    ensures
        r is Some <==> quote_parses(quote@),
        r matches Some(m) ==> quote@.len() >= MR_ENCLAVE_OFFSET + 32 && m@ == quote@.subrange(
            MR_ENCLAVE_OFFSET as int,
            MR_ENCLAVE_OFFSET + 32,
        ),
{
    match parse_mr_enclave(quote) {
        Some(m) => {
            let r = read_array::<32>(m.as_slice(), 0);
            assert(m@.subrange(0, 32) =~= m@);
            Some(r)
        },
        None => None,
    }
}

} // verus!

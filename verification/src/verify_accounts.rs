//! The two verify operations as a client builds them: the records that each
//! touches, in order and with their flags, and the parameter bytes.

use crate::bytes::{
    bool_byte, i64_le_bytes, lemma_i64_le_bytes_of_value, lemma_i64_le_round_trip,
    lemma_u64_le_bytes_of_value, lemma_u64_le_round_trip, push_bytes, push_i64_le, push_u64_le,
    read_array, read_i64_le, read_u64_le, u64_le_bytes,
};
use crate::constants::{
    attestation_program_id, token_program_id, ATTESTATION_PROGRAM_ID, FUNCTION_REQUEST_VERIFY_TAG,
    FUNCTION_VERIFY_TAG, TOKEN_PROGRAM_ID,
};
use crate::error::SwitchboardError;
use crate::instruction::{AccountMeta, Instruction};
use crate::pubkey::Pubkey;
use vstd::prelude::*;

verus! {

/// An entry for a record that the operation may write and that does not sign.
pub open spec fn writable(pubkey: Pubkey) -> AccountMeta {
    AccountMeta { pubkey, is_signer: false, is_writable: true }
}

/// An entry for a record that the operation only reads and that does not sign.
pub open spec fn readonly(pubkey: Pubkey) -> AccountMeta {
    AccountMeta { pubkey, is_signer: false, is_writable: false }
}

/// An entry for a record that signs and is only read.
pub open spec fn readonly_signer(pubkey: Pubkey) -> AccountMeta {
    AccountMeta { pubkey, is_signer: true, is_writable: false }
}

/// The parameters of the operation that verifies a function run.
#[derive(Debug, Clone, Copy, PartialEq, Eq)]
pub struct FunctionVerifyParams {
    /// The time at which the enclave ran.
    pub observed_time: i64,
    /// The time before which the function may not run again.
    pub next_allowed_timestamp: i64,
    /// Whether the enclave reports that its own run failed.
    pub is_failure: bool,
    /// The measurement of the enclave that ran.
    pub mr_enclave: [u8; 32],
}

impl FunctionVerifyParams {
    /// The parameter bytes: the fields in order, integers least significant
    /// byte first, the flag as one byte.
    pub open spec fn encoding(&self) -> Seq<u8> {
        i64_le_bytes(self.observed_time as int) + i64_le_bytes(self.next_allowed_timestamp as int)
            + seq![bool_byte(self.is_failure)] + self.mr_enclave@
    }

    /// The parameter bytes.
    pub fn try_to_vec(&self) -> (r: Vec<u8>)
        ensures
            r@ == self.encoding(),
    {
        let mut out: Vec<u8> = Vec::new();
        push_i64_le(&mut out, self.observed_time);
        assert(out@ =~= i64_le_bytes(self.observed_time as int));
        push_i64_le(&mut out, self.next_allowed_timestamp);
        out.push(
            if self.is_failure {
                1
            } else {
                0
            },
        );
        push_bytes(&mut out, self.mr_enclave.as_slice());
        out
    }
}

impl FunctionVerifyParams {
    /// Whether `data` are the parameter bytes of some parameters: forty-nine
    /// bytes, with 0 or 1 in the byte of the flag.
    pub open spec fn readable(data: Seq<u8>) -> bool {
        data.len() == FUNCTION_VERIFY_PARAMS_LEN && data[16] <= 1
    }

    /// Reads the parameters from their bytes, which must hold them exactly.
    pub fn try_from_slice(data: &[u8]) -> (r: Result<Self, SwitchboardError>)
        ensures
            r is Ok <==> Self::readable(data@),
            r matches Ok(p) ==> p.encoding() == data@,
            r matches Err(e) ==> e == SwitchboardError::SerializationFailure,
    {
        if data.len() != FUNCTION_VERIFY_PARAMS_LEN || data[16] > 1 {
            return Err(SwitchboardError::SerializationFailure);
        }
        let ghost d = data@;
        let observed_time = read_i64_le(data, 0);
        let next_allowed_timestamp = read_i64_le(data, 8);
        let is_failure = data[16] == 1;
        let mr_enclave = read_array::<32>(data, 17);
        let p = FunctionVerifyParams { observed_time, next_allowed_timestamp, is_failure, mr_enclave };
        proof {
            lemma_i64_le_bytes_of_value(d.subrange(0, 8));
            lemma_i64_le_bytes_of_value(d.subrange(8, 16));
            assert(p.encoding() =~= d);
        }
        Ok(p)
    }
}

/// The number of parameter bytes of a function-level verification.
pub const FUNCTION_VERIFY_PARAMS_LEN: usize = 49;

/// The number of parameter bytes of a request-level verification.
pub const FUNCTION_REQUEST_VERIFY_PARAMS_LEN: usize = 81;

/// The parameter bytes of a function-level verification can be read, and
/// reading them gives the parameters back; two sets of parameters with the
/// same bytes are the same.
pub proof fn lemma_function_verify_params_round_trip(
    p: FunctionVerifyParams,
    q: FunctionVerifyParams,
)
    ensures
        FunctionVerifyParams::readable(p.encoding()),
        p.encoding() == q.encoding() ==> p == q,
{
    lemma_i64_le_round_trip(p.observed_time as int);
    lemma_i64_le_round_trip(p.next_allowed_timestamp as int);
    lemma_i64_le_round_trip(q.observed_time as int);
    lemma_i64_le_round_trip(q.next_allowed_timestamp as int);
    let e = p.encoding();
    let f = q.encoding();
    assert(e.subrange(0, 8) =~= i64_le_bytes(p.observed_time as int));
    assert(e.subrange(8, 16) =~= i64_le_bytes(p.next_allowed_timestamp as int));
    assert(e[16] == bool_byte(p.is_failure));
    assert(e.subrange(17, 49) =~= p.mr_enclave@);
    assert(f.subrange(0, 8) =~= i64_le_bytes(q.observed_time as int));
    assert(f.subrange(8, 16) =~= i64_le_bytes(q.next_allowed_timestamp as int));
    assert(f[16] == bool_byte(q.is_failure));
    assert(f.subrange(17, 49) =~= q.mr_enclave@);
    if e == f {
        assert(p.mr_enclave@ == q.mr_enclave@);
        assert(p.mr_enclave == q.mr_enclave);
        assert(p.is_failure == q.is_failure);
    }
}

/// The parameters of the operation that verifies a requested run.
#[derive(Debug, Clone, Copy, PartialEq, Eq)]
pub struct FunctionRequestVerifyParams {
    /// The time at which the enclave ran.
    pub observed_time: i64,
    /// Whether the enclave reports that its own run failed.
    pub is_failure: bool,
    /// The measurement of the enclave that ran.
    pub mr_enclave: [u8; 32],
    /// The slot of the request that was served.
    pub request_slot: u64,
    /// The hash of the parameters that the container was started with.
    pub container_params_hash: [u8; 32],
}

impl FunctionRequestVerifyParams {
    /// The parameter bytes: the fields in order, integers least significant
    /// byte first, the flag as one byte.
    pub open spec fn encoding(&self) -> Seq<u8> {
        i64_le_bytes(self.observed_time as int) + seq![bool_byte(self.is_failure)]
            + self.mr_enclave@ + u64_le_bytes(self.request_slot as int)
            + self.container_params_hash@
    }

    /// The parameter bytes.
    pub fn try_to_vec(&self) -> (r: Vec<u8>)
        ensures
            r@ == self.encoding(),
    {
        let mut out: Vec<u8> = Vec::new();
        push_i64_le(&mut out, self.observed_time);
        assert(out@ =~= i64_le_bytes(self.observed_time as int));
        out.push(
            if self.is_failure {
                1
            } else {
                0
            },
        );
        push_bytes(&mut out, self.mr_enclave.as_slice());
        push_u64_le(&mut out, self.request_slot);
        push_bytes(&mut out, self.container_params_hash.as_slice());
        out
    }
}

impl FunctionRequestVerifyParams {
    /// Whether `data` are the parameter bytes of some parameters: eighty-one
    /// bytes, with 0 or 1 in the byte of the flag.
    pub open spec fn readable(data: Seq<u8>) -> bool {
        data.len() == FUNCTION_REQUEST_VERIFY_PARAMS_LEN && data[8] <= 1
    }

    /// Reads the parameters from their bytes, which must hold them exactly.
    pub fn try_from_slice(data: &[u8]) -> (r: Result<Self, SwitchboardError>)
        ensures
            r is Ok <==> Self::readable(data@),
            r matches Ok(p) ==> p.encoding() == data@,
            r matches Err(e) ==> e == SwitchboardError::SerializationFailure,
    {
        if data.len() != FUNCTION_REQUEST_VERIFY_PARAMS_LEN || data[8] > 1 {
            return Err(SwitchboardError::SerializationFailure);
        }
        let ghost d = data@;
        let observed_time = read_i64_le(data, 0);
        let is_failure = data[8] == 1;
        let mr_enclave = read_array::<32>(data, 9);
        let request_slot = read_u64_le(data, 41);
        let container_params_hash = read_array::<32>(data, 49);
        let p = FunctionRequestVerifyParams {
            observed_time,
            is_failure,
            mr_enclave,
            request_slot,
            container_params_hash,
        };
        proof {
            lemma_i64_le_bytes_of_value(d.subrange(0, 8));
            lemma_u64_le_bytes_of_value(d.subrange(41, 49));
            assert(p.encoding() =~= d);
        }
        Ok(p)
    }
}

/// The parameter bytes of a request-level verification can be read, and
/// reading them gives the parameters back; two sets of parameters with the
/// same bytes are the same.
pub proof fn lemma_function_request_verify_params_round_trip(
    p: FunctionRequestVerifyParams,
    q: FunctionRequestVerifyParams,
)
    ensures
        FunctionRequestVerifyParams::readable(p.encoding()),
        p.encoding() == q.encoding() ==> p == q,
{
    lemma_i64_le_round_trip(p.observed_time as int);
    lemma_u64_le_round_trip(p.request_slot as int);
    lemma_i64_le_round_trip(q.observed_time as int);
    lemma_u64_le_round_trip(q.request_slot as int);
    let e = p.encoding();
    let f = q.encoding();
    assert(e.subrange(0, 8) =~= i64_le_bytes(p.observed_time as int));
    assert(e[8] == bool_byte(p.is_failure));
    assert(e.subrange(9, 41) =~= p.mr_enclave@);
    assert(e.subrange(41, 49) =~= u64_le_bytes(p.request_slot as int));
    assert(e.subrange(49, 81) =~= p.container_params_hash@);
    assert(f.subrange(0, 8) =~= i64_le_bytes(q.observed_time as int));
    assert(f[8] == bool_byte(q.is_failure));
    assert(f.subrange(9, 41) =~= q.mr_enclave@);
    assert(f.subrange(41, 49) =~= u64_le_bytes(q.request_slot as int));
    assert(f.subrange(49, 81) =~= q.container_params_hash@);
    if e == f {
        assert(p.mr_enclave@ == q.mr_enclave@);
        assert(p.mr_enclave == q.mr_enclave);
        assert(p.container_params_hash@ == q.container_params_hash@);
        assert(p.container_params_hash == q.container_params_hash);
        assert(p.is_failure == q.is_failure);
    }
}

/// The records that the verification of a function run touches.
#[derive(Debug, Clone, Copy, PartialEq, Eq)]
pub struct FunctionVerifyAccounts {
    pub function: Pubkey,
    pub function_enclave_signer: Pubkey,
    pub verifier_quote: Pubkey,
    pub verifier_enclave_signer: Pubkey,
    pub verifier_permission: Pubkey,
    pub escrow_wallet: Pubkey,
    pub escrow_token_wallet: Pubkey,
    pub receiver: Pubkey,
    pub attestation_queue: Pubkey,
}

impl FunctionVerifyAccounts {
    /// The ten entries of the operation, in the order in which the program
    /// reads them: the function is written, both enclave keys sign, the
    /// escrow holding and the receiver are written, the token program comes
    /// last.
    pub open spec fn metas(&self) -> Seq<AccountMeta> {
        seq![
            writable(self.function),
            readonly_signer(self.function_enclave_signer),
            readonly(self.verifier_quote),
            readonly_signer(self.verifier_enclave_signer),
            readonly(self.verifier_permission),
            readonly(self.escrow_wallet),
            writable(self.escrow_token_wallet),
            writable(self.receiver),
            readonly(self.attestation_queue),
            readonly(Pubkey { bytes: TOKEN_PROGRAM_ID }),
        ]
    }

    /// The entries of the operation, in order.
    pub fn to_account_metas(&self, _is_signer: Option<bool>) -> (r: Vec<AccountMeta>)
        ensures
            r@ == self.metas(),
    {
        let mut r: Vec<AccountMeta> = Vec::new();
        r.push(AccountMeta::new(self.function, false));
        r.push(AccountMeta::new_readonly(self.function_enclave_signer, true));
        r.push(AccountMeta::new_readonly(self.verifier_quote, false));
        r.push(AccountMeta::new_readonly(self.verifier_enclave_signer, true));
        r.push(AccountMeta::new_readonly(self.verifier_permission, false));
        r.push(AccountMeta::new_readonly(self.escrow_wallet, false));
        r.push(AccountMeta::new(self.escrow_token_wallet, false));
        r.push(AccountMeta::new(self.receiver, false));
        r.push(AccountMeta::new_readonly(self.attestation_queue, false));
        r.push(AccountMeta::new_readonly(token_program_id(), false));
        proof {
            crate::pubkey::lemma_pubkey_ext(r@[9].pubkey, Pubkey { bytes: TOKEN_PROGRAM_ID });
        }
        assert(r@ =~= self.metas());
        r
    }

    /// The operation for the attestation program: these records, and as
    /// parameter bytes the type tag of the operation followed by `params`.
    pub fn get_instruction(&self, params: FunctionVerifyParams) -> (r: Result<
        Instruction,
        SwitchboardError,
    >)
        ensures
            r matches Ok(ix) && ix.program_id@ == ATTESTATION_PROGRAM_ID@ && ix.accounts@
                == self.metas() && ix.data@ == FUNCTION_VERIFY_TAG@ + params.encoding(),
    {
        let accounts = self.to_account_metas(None);
        let mut data: Vec<u8> = Vec::new();
        push_bytes(&mut data, FUNCTION_VERIFY_TAG.as_slice());
        assert(data@ =~= FUNCTION_VERIFY_TAG@);
        let mut param_vec = params.try_to_vec();
        data.append(&mut param_vec);
        Ok(Instruction::new_with_bytes(attestation_program_id(), data.as_slice(), accounts))
    }
}

/// The records that the verification of a requested run touches.
#[derive(Debug, Clone, Copy, PartialEq, Eq)]
pub struct FunctionRequestVerifyAccounts {
    pub request: Pubkey,
    pub function_enclave_signer: Pubkey,
    pub token_wallet: Pubkey,
    pub function: Pubkey,
    pub function_escrow: Pubkey,
    pub verifier_quote: Pubkey,
    pub verifier_enclave_signer: Pubkey,
    pub verifier_permission: Pubkey,
    pub receiver: Pubkey,
    pub state: Pubkey,
    pub attestation_queue: Pubkey,
}

impl FunctionRequestVerifyAccounts {
    /// The twelve entries of the operation, in the order in which the program
    /// reads them: the request, its token holding, the function and its
    /// escrow are written, both enclave keys sign, the receiver is written,
    /// the token program comes last.
    pub open spec fn metas(&self) -> Seq<AccountMeta> {
        seq![
            writable(self.request),
            readonly_signer(self.function_enclave_signer),
            writable(self.token_wallet),
            writable(self.function),
            writable(self.function_escrow),
            readonly(self.verifier_quote),
            readonly_signer(self.verifier_enclave_signer),
            readonly(self.verifier_permission),
            readonly(self.state),
            readonly(self.attestation_queue),
            writable(self.receiver),
            readonly(Pubkey { bytes: TOKEN_PROGRAM_ID }),
        ]
    }

    /// The entries of the operation, in order.
    pub fn to_account_metas(&self, _is_signer: Option<bool>) -> (r: Vec<AccountMeta>)
        ensures
            r@ == self.metas(),
    {
        let mut r: Vec<AccountMeta> = Vec::new();
        r.push(AccountMeta::new(self.request, false));
        r.push(AccountMeta::new_readonly(self.function_enclave_signer, true));
        r.push(AccountMeta::new(self.token_wallet, false));
        r.push(AccountMeta::new(self.function, false));
        r.push(AccountMeta::new(self.function_escrow, false));
        r.push(AccountMeta::new_readonly(self.verifier_quote, false));
        r.push(AccountMeta::new_readonly(self.verifier_enclave_signer, true));
        r.push(AccountMeta::new_readonly(self.verifier_permission, false));
        r.push(AccountMeta::new_readonly(self.state, false));
        r.push(AccountMeta::new_readonly(self.attestation_queue, false));
        r.push(AccountMeta::new(self.receiver, false));
        r.push(AccountMeta::new_readonly(token_program_id(), false));
        proof {
            crate::pubkey::lemma_pubkey_ext(r@[11].pubkey, Pubkey { bytes: TOKEN_PROGRAM_ID });
        }
        assert(r@ =~= self.metas());
        r
    }

    /// The operation for the attestation program: these records, and as
    /// parameter bytes the type tag of the operation followed by `params`.
    pub fn get_instruction(&self, params: FunctionRequestVerifyParams) -> (r: Result<
        Instruction,
        SwitchboardError,
    >)
        ensures
            r matches Ok(ix) && ix.program_id@ == ATTESTATION_PROGRAM_ID@ && ix.accounts@
                == self.metas() && ix.data@ == FUNCTION_REQUEST_VERIFY_TAG@ + params.encoding(),
    {
        let accounts = self.to_account_metas(None);
        let mut data: Vec<u8> = Vec::new();
        push_bytes(&mut data, FUNCTION_REQUEST_VERIFY_TAG.as_slice());
        assert(data@ =~= FUNCTION_REQUEST_VERIFY_TAG@);
        let mut param_vec = params.try_to_vec();
        data.append(&mut param_vec);
        Ok(Instruction::new_with_bytes(attestation_program_id(), data.as_slice(), accounts))
    }
}

} // verus!

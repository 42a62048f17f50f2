//! The runner: the agent inside the enclave that puts the verify operation
//! in front of the operations of the function, signs the bundle with the key
//! of the run, and packs the result for hand-off.

use crate::address::{find, find_spec};
use crate::bytes::{bool_byte, i64_le_bytes, u64_le_bytes, zeros};
use crate::constants::{
    attestation_program_id, ATTESTATION_PROGRAM_ID, FUNCTION_REQUEST_VERIFY_TAG,
    FUNCTION_TAG, FUNCTION_REQUEST_TAG, FUNCTION_VERIFY_TAG, PERMISSION_SEED, STATE_SEED,
};
use crate::enclave::{quote_mr_enclave, quote_parses, MR_ENCLAVE_OFFSET};
use crate::error::SwitchboardError;
use crate::function::FunctionAccountData;
use crate::function_request::FunctionRequestAccountData;
use crate::instruction::{instruction_views, Instruction, InstructionView};
use crate::permission::AttestationPermissionAccountData;
use crate::pubkey::Pubkey;
use crate::queue::AttestationQueueAccountData;
use crate::transaction::{
    check_fits_message, fits_message, lists_signer, names_signer, sign_bundle, signed_bundle,
};
use crate::utils::{
    env_optional_pubkey, env_pubkey, generate_signer, hex_bytes, is_hex, load_env_bytes,
    load_env_optional_pubkey, load_env_pubkey, option_text, signer_public_key, signer_to_pubkey,
    EnclaveSigner,
};
use crate::verifier_record::VerifierAccountData;
use crate::verify_accounts::{
    FunctionRequestVerifyAccounts, FunctionRequestVerifyParams, FunctionVerifyAccounts,
    FunctionVerifyParams,
};
use vstd::prelude::*;

verus! {

/// The values that the process of the runner is started with, each as it
/// was found in the environment, or absent.
#[derive(Debug, Clone, PartialEq, Eq)]
pub struct RunnerEnv {
    pub function_key: Option<String>,
    pub function_data: Option<String>,
    pub function_request_key: Option<String>,
    pub function_request_data: Option<String>,
    pub payer: Option<String>,
    pub verifier: Option<String>,
    pub reward_receiver: Option<String>,
}

/// The records that the runner has fetched for one run.
#[derive(Debug, Clone, PartialEq, Eq)]
pub struct FetchedState {
    pub function: FunctionAccountData,
    /// The request, where the run serves one.
    pub request: Option<FunctionRequestAccountData>,
    pub verifier: VerifierAccountData,
    pub queue: AttestationQueueAccountData,
}

/// The part of a result that is for this chain: the bytes of the signed
/// transaction.
#[derive(Debug, Clone, PartialEq, Eq)]
pub struct SOLFunctionResult {
    pub serialized_tx: Vec<u8>,
}

/// The part of a result that is for one chain.
#[derive(Debug, Clone, PartialEq, Eq)]
pub enum ChainResultInfo {
    Solana(SOLFunctionResult),
}

/// The result of a run as it is handed off for submission.
#[derive(Debug, Clone, PartialEq, Eq)]
pub struct FunctionResult {
    /// The version of this layout.
    pub version: u8,
    /// The attestation quote of the enclave, as it was generated.
    pub quote: Vec<u8>,
    pub fn_key: Vec<u8>,
    /// The public address of the key of the run.
    pub signer: Vec<u8>,
    /// The address of the request; all zero where the run serves none.
    pub fn_request_key: Vec<u8>,
    pub fn_request_hash: Vec<u8>,
    pub chain_result_info: ChainResultInfo,
}

/// The runner of one function. Its signing key is made anew for each run.
pub struct FunctionRunner {
    /// The signing key of the run.
    pub signer_keypair: EnclaveSigner,
    /// The public address of the signing key.
    pub signer: Pubkey,
    pub function: Pubkey,
    pub function_data: FunctionAccountData,
    pub fn_request_key: Pubkey,
    pub fn_request_data: FunctionRequestAccountData,
    pub payer: Pubkey,
    pub verifier: Pubkey,
    pub reward_receiver: Pubkey,
}

/// Whether the value of the variable that holds the function record can be
/// used: the variable is not set, or it holds, in hexadecimal, exactly the
/// fields of a readable function record.
pub open spec fn function_data_usable(value: Option<Seq<char>>) -> bool {
    match value {
        Some(text) => is_hex(text) && hex_bytes(text).len() + 8
            == crate::function::FUNCTION_RECORD_LEN && FunctionAccountData::readable(
            FUNCTION_TAG@ + hex_bytes(text),
        ),
        None => true,
    }
}

/// Whether the value of the variable that holds the request record can be
/// used: the variable is not set, or it holds, in hexadecimal, exactly the
/// fields of a readable request record.
pub open spec fn request_data_usable(value: Option<Seq<char>>) -> bool {
    match value {
        Some(text) => is_hex(text) && hex_bytes(text).len() + 8
            == crate::function_request::FUNCTION_REQUEST_RECORD_LEN
            && FunctionRequestAccountData::readable(FUNCTION_REQUEST_TAG@ + hex_bytes(text)),
        None => true,
    }
}

/// The name of the first variable whose value cannot be used, if there is
/// one. The variables are looked at in this order: the function, its record,
/// the request, its record, the payer, the verifier, the reward receiver.
/// The function, the payer, the verifier and the reward receiver must be set
/// and denote an address. The request and the two records need not be set;
/// but one that is set must be readable: nothing stands in for a value that
/// is there and cannot be read.
pub open spec fn first_missing(env: RunnerEnv) -> Option<Seq<char>> {
    if env_pubkey("FUNCTION_KEY"@, option_text(env.function_key)) is Err {
        Some("FUNCTION_KEY"@)
    } else if !function_data_usable(option_text(env.function_data)) {
        Some("FUNCTION_DATA"@)
    } else if env_optional_pubkey(
        "FUNCTION_REQUEST_KEY"@,
        option_text(env.function_request_key),
    ) is Err {
        Some("FUNCTION_REQUEST_KEY"@)
    } else if !request_data_usable(option_text(env.function_request_data)) {
        Some("FUNCTION_REQUEST_DATA"@)
    } else if env_pubkey("PAYER"@, option_text(env.payer)) is Err {
        Some("PAYER"@)
    } else if env_pubkey("VERIFIER"@, option_text(env.verifier)) is Err {
        Some("VERIFIER"@)
    } else if env_pubkey("REWARD_RECEIVER"@, option_text(env.reward_receiver)) is Err {
        Some("REWARD_RECEIVER"@)
    } else {
        None
    }
}

/// The parameter bytes of a function-level verification.
pub open spec fn fn_verify_data(
    current_time: i64,
    next_allowed_timestamp: i64,
    mr_enclave: Seq<u8>,
) -> Seq<u8> {
    FUNCTION_VERIFY_TAG@ + (i64_le_bytes(current_time as int) + i64_le_bytes(
        next_allowed_timestamp as int,
    ) + seq![bool_byte(false)] + mr_enclave)
}

/// The parameter bytes of a request-level verification.
pub open spec fn fn_request_verify_data(
    current_time: i64,
    mr_enclave: Seq<u8>,
    request_slot: u64,
    container_params_hash: Seq<u8>,
) -> Seq<u8> {
    FUNCTION_REQUEST_VERIFY_TAG@ + (i64_le_bytes(current_time as int) + seq![bool_byte(false)]
        + mr_enclave + u64_le_bytes(request_slot as int) + container_params_hash)
}

/// The time that a function-level verification of a run at `current_time`
/// names as the next allowed one: that of the next run on the schedule, or
/// the end of time for a function without one.
pub open spec fn next_allowed_of(fn_data: FunctionAccountData, current_time: i64) -> i64 {
    match fn_data.spec_next_execution_timestamp(current_time) {
        Some(t) => t,
        None => i64::MAX,
    }
}

impl FunctionRunner {
    /// Whether the run serves a request: it does where the request key is
    /// not the all-zero address.
    pub open spec fn serves_request(&self) -> bool {
        self.fn_request_key@ != zeros(32)
    }

    /// The address of the permission record of the verifier on the queue of
    /// the function, with its bump, where the seeds give one.
    pub open spec fn permission_address(
        &self,
        fn_data: FunctionAccountData,
        queue_data: AttestationQueueAccountData,
    ) -> Option<(Seq<u8>, u8)> {
        find_spec(
            PERMISSION_SEED@,
            AttestationPermissionAccountData::seed_keys(
                queue_data.authority,
                fn_data.attestation_queue,
                self.verifier,
            ),
            ATTESTATION_PROGRAM_ID@,
        )
    }

    /// The address of the state record of the program, with its bump, where
    /// the seed gives one.
    pub open spec fn state_address() -> Option<(Seq<u8>, u8)> {
        find_spec(STATE_SEED@, Seq::<Pubkey>::empty(), ATTESTATION_PROGRAM_ID@)
    }

    /// The records of a function-level verification, for a permission record
    /// at `permission`.
    pub open spec fn fn_verify_accounts(
        &self,
        fn_data: FunctionAccountData,
        verifier_quote: VerifierAccountData,
        permission: Pubkey,
    ) -> FunctionVerifyAccounts {
        FunctionVerifyAccounts {
            function: self.function,
            function_enclave_signer: self.signer,
            verifier_quote: self.verifier,
            verifier_enclave_signer: verifier_quote.enclave_signer,
            verifier_permission: permission,
            escrow_wallet: fn_data.escrow_wallet,
            escrow_token_wallet: fn_data.escrow_token_wallet,
            attestation_queue: fn_data.attestation_queue,
            receiver: self.reward_receiver,
        }
    }

    /// The records of a request-level verification, for a permission record
    /// at `permission` and the state record at `state`.
    pub open spec fn fn_request_verify_accounts(
        &self,
        fn_request_data: FunctionRequestAccountData,
        fn_data: FunctionAccountData,
        verifier_quote: VerifierAccountData,
        permission: Pubkey,
        state: Pubkey,
    ) -> FunctionRequestVerifyAccounts {
        FunctionRequestVerifyAccounts {
            request: self.fn_request_key,
            function_enclave_signer: self.signer,
            token_wallet: fn_request_data.escrow,
            function: self.function,
            function_escrow: fn_data.escrow_token_wallet,
            verifier_quote: self.verifier,
            verifier_enclave_signer: verifier_quote.enclave_signer,
            verifier_permission: permission,
            state,
            attestation_queue: fn_data.attestation_queue,
            receiver: self.reward_receiver,
        }
    }

    /// Whether `ix` is the function-level verify operation of this runner for
    /// the measurement, the time and the fetched records.
    pub open spec fn is_fn_verify_ixn(
        &self,
        ix: InstructionView,
        mr_enclave: Seq<u8>,
        current_time: i64,
        fn_data: FunctionAccountData,
        verifier_quote: VerifierAccountData,
        queue_data: AttestationQueueAccountData,
    ) -> bool {
        &&& self.permission_address(fn_data, queue_data) matches Some((address, _))
        &&& ix.program_id@ == ATTESTATION_PROGRAM_ID@
        &&& ix.accounts.len() == 10
        &&& ix.accounts[4].pubkey@ == address
        &&& ix.accounts == self.fn_verify_accounts(
            fn_data,
            verifier_quote,
            ix.accounts[4].pubkey,
        ).metas()
        &&& ix.data == fn_verify_data(
            current_time,
            next_allowed_of(fn_data, current_time),
            mr_enclave,
        )
    }

    /// Why no request-level verify operation can be built, if none can: the
    /// request is of another function, or an address cannot be derived.
    pub open spec fn fn_request_verify_error(
        &self,
        fn_request_data: FunctionRequestAccountData,
        fn_data: FunctionAccountData,
        queue_data: AttestationQueueAccountData,
    ) -> Option<SwitchboardError> {
        if self.function@ != fn_request_data.function@ {
            Some(SwitchboardError::RecordNotFound)
        } else if self.permission_address(fn_data, queue_data) is None || Self::state_address()
            is None {
            Some(SwitchboardError::AddressDerivationFailure)
        } else {
            None
        }
    }

    /// Whether `ix` is the request-level verify operation of this runner for
    /// the measurement, the time and the fetched records.
    pub open spec fn is_fn_request_verify_ixn(
        &self,
        ix: InstructionView,
        mr_enclave: Seq<u8>,
        current_time: i64,
        fn_request_data: FunctionRequestAccountData,
        fn_data: FunctionAccountData,
        verifier_quote: VerifierAccountData,
        queue_data: AttestationQueueAccountData,
    ) -> bool {
        &&& self.permission_address(fn_data, queue_data) matches Some((address, _))
        &&& Self::state_address() matches Some((state, _))
        &&& ix.program_id@ == ATTESTATION_PROGRAM_ID@
        &&& ix.accounts.len() == 12
        &&& ix.accounts[7].pubkey@ == address
        &&& ix.accounts[8].pubkey@ == state
        &&& ix.accounts == self.fn_request_verify_accounts(
            fn_request_data,
            fn_data,
            verifier_quote,
            ix.accounts[7].pubkey,
            ix.accounts[8].pubkey,
        ).metas()
        &&& ix.data == fn_request_verify_data(
            current_time,
            mr_enclave,
            fn_request_data.request_slot,
            fn_request_data.container_params_hash@,
        )
    }

    /// Why no verify operation can be built from the fetched records, if none
    /// can.
    pub open spec fn verify_error(&self, state: FetchedState) -> Option<SwitchboardError> {
        if self.serves_request() {
            match state.request {
                Some(request) => self.fn_request_verify_error(request, state.function, state.queue),
                None => Some(SwitchboardError::RecordNotFound),
            }
        } else if self.permission_address(state.function, state.queue) is None {
            Some(SwitchboardError::AddressDerivationFailure)
        } else {
            None
        }
    }

    /// Whether `ix` is the verify operation of this run: the request-level
    /// one where the run serves a request, else the function-level one, and
    /// never the other.
    pub open spec fn is_verify_ixn(
        &self,
        ix: InstructionView,
        mr_enclave: Seq<u8>,
        current_time: i64,
        state: FetchedState,
    ) -> bool {
        if self.serves_request() {
            state.request matches Some(request) && self.is_fn_request_verify_ixn(
                ix,
                mr_enclave,
                current_time,
                request,
                state.function,
                state.verifier,
                state.queue,
            )
        } else {
            self.is_fn_verify_ixn(
                ix,
                mr_enclave,
                current_time,
                state.function,
                state.verifier,
                state.queue,
            )
        }
    }

    /// Whether `result` is the envelope of this run around the quote and the
    /// bytes of the signed transaction: version 1, the quote as it was
    /// generated, the function, the signer and the request key, no request
    /// hash, and the transaction as the part for this chain.
    pub open spec fn is_envelope(
        &self,
        result: FunctionResult,
        quote_raw: Seq<u8>,
        serialized_tx: Seq<u8>,
    ) -> bool {
        &&& result.version == 1
        &&& result.quote@ == quote_raw
        &&& result.fn_key@ == self.function@
        &&& result.signer@ == self.signer@
        &&& result.fn_request_key@ == self.fn_request_key@
        &&& result.fn_request_hash@.len() == 0
        &&& result.chain_result_info matches ChainResultInfo::Solana(info)
        &&& info.serialized_tx@ == serialized_tx
    }

    /// Whether the runner holds the key of its own public address.
    pub open spec fn holds_own_key(&self) -> bool {
        self.signer_keypair.public_key()@ == self.signer@
    }

    /// The measurement that a quote carries.
    pub open spec fn measurement_of(quote_raw: Seq<u8>) -> Seq<u8> {
        quote_raw.subrange(MR_ENCLAVE_OFFSET as int, MR_ENCLAVE_OFFSET + 32)
    }

    /// Whether `bundle` is the bundle of this run: the verify operation of
    /// the run, for the measurement of the quote, comes first, and the
    /// operations of the function follow it unchanged and in their order.
    pub open spec fn is_bundle(
        &self,
        bundle: Seq<InstructionView>,
        ixs: Seq<Instruction>,
        quote_raw: Seq<u8>,
        current_time: i64,
        state: FetchedState,
    ) -> bool {
        &&& bundle.len() == ixs.len() + 1
        &&& self.is_verify_ixn(bundle[0], Self::measurement_of(quote_raw), current_time, state)
        &&& bundle.subrange(1, bundle.len() as int) == instruction_views(ixs)
    }

    /// Whether `r` is what a run answers. A result is the envelope around
    /// the quote and the bytes of the signed bundle of the run, and there is
    /// one only where the quote parses, the verify operation can be built,
    /// the bundle fits and the key of the run signs it. A failure is that of
    /// the first step that fails: the quote, the verify operation, or the
    /// bundle, which does not fit or which the key does not sign.
    pub open spec fn is_result(
        &self,
        r: Result<FunctionResult, SwitchboardError>,
        ixs: Seq<Instruction>,
        quote_raw: Seq<u8>,
        current_time: i64,
        state: FetchedState,
        blockhash: Seq<u8>,
    ) -> bool {
        match r {
            Ok(result) => {
                &&& quote_parses(quote_raw)
                &&& self.verify_error(state) is None
                &&& exists|bundle: Seq<InstructionView>|
                    {
                        &&& #[trigger] self.is_bundle(bundle, ixs, quote_raw, current_time, state)
                        &&& fits_message(bundle, self.payer)
                        &&& names_signer(bundle, self.payer, self.signer_keypair.public_key())
                        &&& signed_bundle(
                            bundle,
                            self.payer@,
                            self.signer_keypair.seed(),
                            blockhash,
                        ) matches Some(serialized_tx)
                        &&& self.is_envelope(result, quote_raw, serialized_tx)
                    }
            },
            Err(e) => {
                if !quote_parses(quote_raw) {
                    e == SwitchboardError::SerializationFailure
                } else if self.verify_error(state) is Some {
                    self.verify_error(state) == Some(e)
                } else {
                    &&& e == SwitchboardError::SerializationFailure
                    &&& exists|bundle: Seq<InstructionView>|
                        {
                            &&& #[trigger] self.is_bundle(
                                bundle,
                                ixs,
                                quote_raw,
                                current_time,
                                state,
                            )
                            &&& !(fits_message(bundle, self.payer) && names_signer(
                                bundle,
                                self.payer,
                                self.signer_keypair.public_key(),
                            ))
                        }
                }
            },
        }
    }

    /// Sets the runner up for one run: makes the signing key of the run from
    /// the randomness of the enclave, and reads the rest from the
    /// environment. The first variable whose value cannot be used is reported
    /// as missing, under its name.
    pub fn new_with_client(randomness: &[u8; 32], env: &RunnerEnv) -> (r: Result<
        Self,
        SwitchboardError,
    >)
        ensures
            r is Ok <==> first_missing(*env) is None,
            r matches Ok(runner) ==> runner.configured_by(*env) && runner.signer@
                == signer_public_key(randomness@) && runner.signer_keypair.public_key()
                == runner.signer,
            r matches Err(e) ==> e matches SwitchboardError::EnvVariableMissing(name)
                && first_missing(*env) == Some(name@),
    {
        let signer_keypair = generate_signer(randomness);
        match signer_to_pubkey(&signer_keypair) {
            Ok(signer) => Self::from_parts(signer_keypair, signer, env),
            Err(e) => Err(e),
        }
    }

    /// Whether the runner holds what the environment says: the four required
    /// addresses; the request key, or the all-zero address where the variable
    /// is not set; and the two records, each read from its hexadecimal
    /// value, or zeroed where the variable is not set.
    pub open spec fn configured_by(&self, env: RunnerEnv) -> bool {
        &&& env_pubkey("FUNCTION_KEY"@, option_text(env.function_key)) == Ok::<
            Seq<u8>,
            Seq<char>,
        >(self.function@)
        &&& env_pubkey("PAYER"@, option_text(env.payer)) == Ok::<Seq<u8>, Seq<char>>(self.payer@)
        &&& env_pubkey("VERIFIER"@, option_text(env.verifier)) == Ok::<Seq<u8>, Seq<char>>(
            self.verifier@,
        )
        &&& env_pubkey("REWARD_RECEIVER"@, option_text(env.reward_receiver)) == Ok::<
            Seq<u8>,
            Seq<char>,
        >(self.reward_receiver@)
        &&& env_optional_pubkey(
            "FUNCTION_REQUEST_KEY"@,
            option_text(env.function_request_key),
        ) == Ok::<Seq<u8>, Seq<char>>(self.fn_request_key@)
        &&& match option_text(env.function_data) {
            Some(text) => self.function_data.encoding() == FUNCTION_TAG@ + hex_bytes(text),
            None => self.function_data.is_zeroed(),
        }
        &&& match option_text(env.function_request_data) {
            Some(text) => self.fn_request_data.encoding() == FUNCTION_REQUEST_TAG@ + hex_bytes(
                text,
            ),
            None => self.fn_request_data.is_zeroed(),
        }
    }

    /// Sets the runner up from the signing key of the run, its public
    /// address, and the environment. The first variable whose value cannot
    /// be used is reported as missing, under its name: a required variable
    /// that is not set or denotes no address, or any variable that is set
    /// and cannot be read.
    pub fn from_parts(signer_keypair: EnclaveSigner, signer: Pubkey, env: &RunnerEnv) -> (r: Result<
        Self,
        SwitchboardError,
    >)
        ensures
            r is Ok <==> first_missing(*env) is None,
            r matches Ok(runner) ==> runner.signer == signer && runner.signer_keypair
                == signer_keypair && runner.configured_by(*env),
            r matches Err(e) ==> e matches SwitchboardError::EnvVariableMissing(name)
                && first_missing(*env) == Some(name@),
    {
        let function = match load_env_pubkey("FUNCTION_KEY", &env.function_key) {
            Ok(k) => k,
            Err(e) => {
                return Err(e);
            },
        };
        let function_data = match load_env_bytes("FUNCTION_DATA", &env.function_data) {
            Ok(Some(bytes)) => match FunctionAccountData::new_from_body(bytes.as_slice()) {
                Some(d) => d,
                None => {
                    return Err(SwitchboardError::EnvVariableMissing("FUNCTION_DATA".to_owned()));
                },
            },
            Ok(None) => FunctionAccountData::default(),
            Err(e) => {
                return Err(e);
            },
        };
        let fn_request_key = match load_env_optional_pubkey(
            "FUNCTION_REQUEST_KEY",
            &env.function_request_key,
        ) {
            Ok(k) => k,
            Err(e) => {
                return Err(e);
            },
        };
        let fn_request_data = match load_env_bytes(
            "FUNCTION_REQUEST_DATA",
            &env.function_request_data,
        ) {
            Ok(Some(bytes)) => match FunctionRequestAccountData::new_from_body(bytes.as_slice()) {
                Some(d) => d,
                None => {
                    return Err(
                        SwitchboardError::EnvVariableMissing("FUNCTION_REQUEST_DATA".to_owned()),
                    );
                },
            },
            Ok(None) => FunctionRequestAccountData::default(),
            Err(e) => {
                return Err(e);
            },
        };
        let payer = match load_env_pubkey("PAYER", &env.payer) {
            Ok(k) => k,
            Err(e) => {
                return Err(e);
            },
        };
        let verifier = match load_env_pubkey("VERIFIER", &env.verifier) {
            Ok(k) => k,
            Err(e) => {
                return Err(e);
            },
        };
        let reward_receiver = match load_env_pubkey("REWARD_RECEIVER", &env.reward_receiver) {
            Ok(k) => k,
            Err(e) => {
                return Err(e);
            },
        };
        Ok(
            FunctionRunner {
                signer_keypair,
                signer,
                function,
                function_data,
                fn_request_key,
                fn_request_data,
                payer,
                verifier,
                reward_receiver,
            },
        )
    }

    /// Whether the run serves a request.
    pub fn is_request(&self) -> (r: bool)
        ensures
            r == self.serves_request(),
    {
        !self.fn_request_key.is_default()
    }

    /// Builds the function-level verify operation: the time as observed, the
    /// next allowed time of the schedule, or the end of time without one, no
    /// failure reported, and the measurement; on the records of the function,
    /// the verifier and its permission record on the queue of the function.
    pub fn build_fn_verify_ixn(
        &self,
        mr_enclave: [u8; 32],
        current_time: i64,
        fn_data: &FunctionAccountData,
        verifier_quote: &VerifierAccountData,
        queue_data: &AttestationQueueAccountData,
    ) -> (r: Result<Instruction, SwitchboardError>)
        ensures
            match r {
                Ok(ix) => self.is_fn_verify_ixn(
                    ix@,
                    mr_enclave@,
                    current_time,
                    *fn_data,
                    *verifier_quote,
                    *queue_data,
                ),
                Err(e) => e == SwitchboardError::AddressDerivationFailure
                    && self.permission_address(*fn_data, *queue_data) is None,
            },
    {
        let verifier_permission = match AttestationPermissionAccountData::get_pda(
            &queue_data.authority,
            &fn_data.attestation_queue,
            &self.verifier,
        ) {
            Ok(k) => k,
            Err(e) => {
                return Err(e);
            },
        };
        let next_allowed_timestamp: i64 = match fn_data.get_next_execution_timestamp(
            current_time,
        ) {
            Some(t) => t,
            None => i64::MAX,
        };
        let ixn_params = FunctionVerifyParams {
            observed_time: current_time,
            next_allowed_timestamp,
            is_failure: false,
            mr_enclave,
        };
        let accounts = FunctionVerifyAccounts {
            function: self.function,
            function_enclave_signer: self.signer,
            verifier_quote: self.verifier,
            verifier_enclave_signer: verifier_quote.enclave_signer,
            verifier_permission,
            escrow_wallet: fn_data.escrow_wallet,
            escrow_token_wallet: fn_data.escrow_token_wallet,
            attestation_queue: fn_data.attestation_queue,
            receiver: self.reward_receiver,
        };
        accounts.get_instruction(ixn_params)
    }

    /// Builds the request-level verify operation: the time as observed, no
    /// failure reported, the measurement, and the slot and parameter hash of
    /// the open request; on the records of the request, the function, the
    /// verifier, its permission record and the program state. A request of
    /// another function is refused.
    pub fn build_fn_request_verify_ixn(
        &self,
        mr_enclave: [u8; 32],
        current_time: i64,
        fn_request_data: &FunctionRequestAccountData,
        fn_data: &FunctionAccountData,
        verifier_quote: &VerifierAccountData,
        queue_data: &AttestationQueueAccountData,
    ) -> (r: Result<Instruction, SwitchboardError>)
        ensures
            match r {
                Ok(ix) => self.fn_request_verify_error(*fn_request_data, *fn_data, *queue_data)
                    is None && self.is_fn_request_verify_ixn(
                    ix@,
                    mr_enclave@,
                    current_time,
                    *fn_request_data,
                    *fn_data,
                    *verifier_quote,
                    *queue_data,
                ),
                Err(e) => self.fn_request_verify_error(*fn_request_data, *fn_data, *queue_data)
                    == Some(e),
            },
    {
        if self.function != fn_request_data.function {
            return Err(SwitchboardError::RecordNotFound);
        }
        let verifier_permission = match AttestationPermissionAccountData::get_pda(
            &queue_data.authority,
            &fn_data.attestation_queue,
            &self.verifier,
        ) {
            Ok(k) => k,
            Err(e) => {
                return Err(e);
            },
        };
        let ixn_params = FunctionRequestVerifyParams {
            observed_time: current_time,
            is_failure: false,
            mr_enclave,
            request_slot: fn_request_data.request_slot,
            container_params_hash: fn_request_data.container_params_hash,
        };
        let no_keys: Vec<Pubkey> = Vec::new();
        assert(no_keys@ =~= Seq::<Pubkey>::empty());
        let program = attestation_program_id();
        let state_pubkey = match find(STATE_SEED.as_slice(), &no_keys, &program) {
            Ok((k, _)) => k,
            Err(e) => {
                return Err(e);
            },
        };
        let accounts = FunctionRequestVerifyAccounts {
            request: self.fn_request_key,
            function_enclave_signer: self.signer,
            token_wallet: fn_request_data.escrow,
            function: self.function,
            function_escrow: fn_data.escrow_token_wallet,
            verifier_quote: self.verifier,
            verifier_enclave_signer: verifier_quote.enclave_signer,
            verifier_permission,
            state: state_pubkey,
            attestation_queue: fn_data.attestation_queue,
            receiver: self.reward_receiver,
        };
        accounts.get_instruction(ixn_params)
    }

    /// Builds the verify operation of the run. A run that serves a request
    /// gets the request-level operation and no other; a run that serves none
    /// gets the function-level one.
    pub fn build_verify_ixn(&self, mr_enclave: [u8; 32], current_time: i64, state: &FetchedState)
        -> (r: Result<Instruction, SwitchboardError>)
        ensures
            match r {
                Ok(ix) => self.verify_error(*state) is None && self.is_verify_ixn(
                    ix@,
                    mr_enclave@,
                    current_time,
                    *state,
                ),
                Err(e) => self.verify_error(*state) == Some(e),
            },
    {
        if self.is_request() {
            match &state.request {
                Some(request) => self.build_fn_request_verify_ixn(
                    mr_enclave,
                    current_time,
                    request,
                    &state.function,
                    &state.verifier,
                    &state.queue,
                ),
                None => Err(SwitchboardError::RecordNotFound),
            }
        } else {
            self.build_fn_verify_ixn(
                mr_enclave,
                current_time,
                &state.function,
                &state.verifier,
                &state.queue,
            )
        }
    }

    /// Packs the result of a run: version 1, the quote, the function, the
    /// signer, the request key, no request hash, and the bytes of the signed
    /// transaction.
    pub fn package_result(&self, quote_raw: Vec<u8>, serialized_tx: Vec<u8>) -> (r: FunctionResult)
        ensures
            self.is_envelope(r, quote_raw@, serialized_tx@),
    {
        FunctionResult {
            version: 1,
            quote: quote_raw,
            fn_key: self.function.to_vec(),
            signer: self.signer.to_vec(),
            fn_request_key: self.fn_request_key.to_vec(),
            fn_request_hash: Vec::new(),
            chain_result_info: ChainResultInfo::Solana(SOLFunctionResult { serialized_tx }),
        }
    }

    /// Makes the result of a run from the quote of the enclave, the fetched
    /// records, the time and a recent block hash. The measurement is read
    /// from the quote; the verify operation is built and put in front of the
    /// operations of the function, so that a verification that fails voids
    /// them all; the bundle is signed with the key of the run alone and
    /// packed. A quote that does not parse, records from which no verify
    /// operation can be built, a bundle that does not fit and a key that the
    /// bundle does not name each end the run without a result.
    pub fn get_result(
        &self,
        ixs: Vec<Instruction>,
        quote_raw: Vec<u8>,
        current_time: i64,
        state: &FetchedState,
        blockhash: &[u8; 32],
    ) -> (r: Result<FunctionResult, SwitchboardError>)
        ensures
            self.is_result(r, ixs@, quote_raw@, current_time, *state, blockhash@),
    {
        let mr_enclave = match quote_mr_enclave(quote_raw.as_slice()) {
            Some(m) => m,
            None => {
                return Err(SwitchboardError::SerializationFailure);
            },
        };
        let verify_ixn = match self.build_verify_ixn(mr_enclave, current_time, state) {
            Ok(ix) => ix,
            Err(e) => {
                return Err(e);
            },
        };
        let ghost first = verify_ixn@;
        let bundle = assemble_bundle(verify_ixn, ixs);
        let ghost views = instruction_views(bundle@);
        proof {
            assert(views[0] == first);
            assert(views.subrange(1, views.len() as int) =~= instruction_views(ixs@));
            assert(self.is_bundle(views, ixs@, quote_raw@, current_time, *state));
        }
        if !check_fits_message(&bundle, &self.payer) {
            return Err(SwitchboardError::SerializationFailure);
        }
        match sign_bundle(&bundle, &self.payer, &self.signer_keypair, blockhash) {
            Some(serialized_tx) => Ok(self.package_result(quote_raw, serialized_tx)),
            None => Err(SwitchboardError::SerializationFailure),
        }
    }
}

/// Puts the verify operation in front of the operations of the function, in
/// one list for one transaction: the verify operation is the first, and the
/// others follow in their order.
pub fn assemble_bundle(verify_ixn: Instruction, ixs: Vec<Instruction>) -> (r: Vec<Instruction>)
    ensures
        r@ == seq![verify_ixn] + ixs@,
        r@.len() == ixs@.len() + 1,
        r@[0] == verify_ixn,
{
    let mut bundle = ixs;
    bundle.insert(0, verify_ixn);
    assert(bundle@ =~= seq![verify_ixn] + ixs@);
    bundle
}

/// A runner that holds the key of its own address signs its bundle: the
/// verify operation lists the address of the runner as a signer, so the key
/// is among the signers of every bundle of the run.
pub proof fn lemma_own_key_signs(
    runner: FunctionRunner,
    bundle: Seq<InstructionView>,
    ixs: Seq<Instruction>,
    quote_raw: Seq<u8>,
    current_time: i64,
    state: FetchedState,
)
    requires
        runner.is_bundle(bundle, ixs, quote_raw, current_time, state),
        runner.holds_own_key(),
    ensures
        names_signer(bundle, runner.payer, runner.signer_keypair.public_key()),
{
    assert(lists_signer(bundle[0].accounts[1], runner.signer_keypair.public_key()));
}

/// The time that the runner names for the next run is later than the time
/// of the run, wherever a later time exists: a claim that the runner builds
/// at a time names a later one, so that a function that is due at that time
/// is not refused for its schedule.
pub proof fn lemma_claim_names_later_time(fn_data: FunctionAccountData, current_time: i64)
    requires
        current_time < i64::MAX,
    ensures
        next_allowed_of(fn_data, current_time) > current_time,
{
}

/// A claim that the runner builds at the time of a run is not refused for
/// the schedule where the function is due at that time: the engine takes it
/// at the time at which it was built.
pub proof fn lemma_runner_claim_is_due(key: Pubkey, fn_data: FunctionAccountData, current_time: i64)
    requires
        current_time < i64::MAX,
        fn_data.next_allowed_timestamp <= current_time,
    ensures
        crate::engine::Subject::Function(
            crate::engine::FunctionSubject {
                key,
                record: fn_data,
                next_allowed_timestamp: next_allowed_of(fn_data, current_time),
            },
        ).refusal(current_time) is None,
{
}

/// One run builds one kind of verify operation. The operation of a run
/// that serves a request is the request-level one, with twelve entries and
/// the type tag of that operation; the operation of a run that serves none
/// is the function-level one, with ten entries and its own type tag. No
/// operation is both.
pub proof fn lemma_verify_paths_exclusive(
    runner: FunctionRunner,
    ix: InstructionView,
    mr_enclave: Seq<u8>,
    current_time: i64,
    state: FetchedState,
)
    requires
        runner.is_verify_ixn(ix, mr_enclave, current_time, state),
    ensures
        runner.serves_request() ==> ix.accounts.len() == 12 && ix.data.subrange(0, 8)
            == FUNCTION_REQUEST_VERIFY_TAG@,
        !runner.serves_request() ==> ix.accounts.len() == 10 && ix.data.subrange(0, 8)
            == FUNCTION_VERIFY_TAG@,
        FUNCTION_REQUEST_VERIFY_TAG@ != FUNCTION_VERIFY_TAG@,
{
    if runner.serves_request() {
        assert(ix.data.subrange(0, 8) =~= FUNCTION_REQUEST_VERIFY_TAG@);
    } else {
        assert(ix.data.subrange(0, 8) =~= FUNCTION_VERIFY_TAG@);
    }
    assert(FUNCTION_REQUEST_VERIFY_TAG@[0] == 179);
    assert(FUNCTION_VERIFY_TAG@[0] == 210);
}

/// The verify operation is the first of the bundle, and the operations of the
/// function follow it unchanged and in their order.
pub proof fn lemma_verify_comes_first(verify_ixn: Instruction, ixs: Seq<Instruction>)
    ensures
        (seq![verify_ixn] + ixs)[0] == verify_ixn,
        forall|i: int| 0 <= i < ixs.len() ==> (seq![verify_ixn] + ixs)[i + 1] == ixs[i],
{
}

} // verus!

//! Attestation-gated verification and settlement for enclave-run functions:
//! the record layouts, the verification rules, the escrow rules, and the
//! assembly of the atomic "verify, then act" bundle.

pub mod bytes;
pub mod pubkey;
pub mod error;
pub mod address;
pub mod constants;
pub mod instruction;
pub mod status;
pub mod quote;
pub mod function;
pub mod function_request;
pub mod verifier_record;
pub mod queue;
pub mod permission;
pub mod wallet;
pub mod account;
pub mod verify_accounts;
pub mod engine;
pub mod membership;
pub mod request_close;
pub mod wallet_fund;
pub mod operation;
pub mod utils;
pub mod enclave;
pub mod transaction;
pub mod function_runner;
pub mod run;

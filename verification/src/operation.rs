//! Operations as bytes: the type tag of the operation, then its parameters.

use crate::bytes::{push_bytes, starts_with_at};
use crate::constants::{
    FUNCTION_REQUEST_CLOSE_TAG, FUNCTION_REQUEST_VERIFY_TAG, FUNCTION_VERIFY_TAG, WALLET_FUND_TAG,
};
use crate::error::SwitchboardError;
use crate::request_close::FunctionRequestCloseParams;
use crate::verify_accounts::{
    lemma_function_request_verify_params_round_trip, lemma_function_verify_params_round_trip,
    FunctionRequestVerifyParams, FunctionVerifyParams,
};
use crate::wallet_fund::{lemma_wallet_fund_params_round_trip, WalletFundParams};
use vstd::prelude::*;

verus! {

/// One operation of the protocol with its parameters.
#[derive(Debug, Clone, Copy, PartialEq, Eq)]
pub enum Operation {
    FunctionVerify(FunctionVerifyParams),
    FunctionRequestVerify(FunctionRequestVerifyParams),
    FunctionRequestClose(FunctionRequestCloseParams),
    WalletFund(WalletFundParams),
}

/// Whether `data` begins with one of the four type tags of operations.
pub open spec fn has_operation_tag(data: Seq<u8>) -> bool {
    data.len() >= 8 && (data.subrange(0, 8) == FUNCTION_VERIFY_TAG@ || data.subrange(0, 8)
        == FUNCTION_REQUEST_VERIFY_TAG@ || data.subrange(0, 8) == FUNCTION_REQUEST_CLOSE_TAG@
        || data.subrange(0, 8) == WALLET_FUND_TAG@)
}

impl Operation {
    /// The type tag of the operation.
    pub open spec fn tag(&self) -> Seq<u8> {
        match self {
            Operation::FunctionVerify(_) => FUNCTION_VERIFY_TAG@,
            Operation::FunctionRequestVerify(_) => FUNCTION_REQUEST_VERIFY_TAG@,
            Operation::FunctionRequestClose(_) => FUNCTION_REQUEST_CLOSE_TAG@,
            Operation::WalletFund(_) => WALLET_FUND_TAG@,
        }
    }

    /// The bytes of the parameters of the operation.
    pub open spec fn params_encoding(&self) -> Seq<u8> {
        match self {
            Operation::FunctionVerify(p) => p.encoding(),
            Operation::FunctionRequestVerify(p) => p.encoding(),
            Operation::FunctionRequestClose(p) => p.encoding(),
            Operation::WalletFund(p) => p.encoding(),
        }
    }

    /// The bytes of the operation: its type tag, then its parameters.
    pub open spec fn encoding(&self) -> Seq<u8> {
        self.tag() + self.params_encoding()
    }

    /// Whether `data` are the bytes of some operation: one of the four type
    /// tags, and after it exactly the parameters of that operation.
    pub open spec fn readable(data: Seq<u8>) -> bool {
        &&& data.len() >= 8
        &&& {
            let rest = data.subrange(8, data.len() as int);
            ||| data.subrange(0, 8) == FUNCTION_VERIFY_TAG@ && FunctionVerifyParams::readable(rest)
            ||| data.subrange(0, 8) == FUNCTION_REQUEST_VERIFY_TAG@
                && FunctionRequestVerifyParams::readable(rest)
            ||| data.subrange(0, 8) == FUNCTION_REQUEST_CLOSE_TAG@ && rest.len() == 0
            ||| data.subrange(0, 8) == WALLET_FUND_TAG@ && WalletFundParams::readable(rest)
        }
    }

    /// The bytes of the operation.
    pub fn encode(&self) -> (r: Vec<u8>)
        ensures
            r@ == self.encoding(),
    {
        let mut out: Vec<u8> = Vec::new();
        let mut params: Vec<u8> = match self {
            Operation::FunctionVerify(p) => {
                push_bytes(&mut out, FUNCTION_VERIFY_TAG.as_slice());
                p.try_to_vec()
            },
            Operation::FunctionRequestVerify(p) => {
                push_bytes(&mut out, FUNCTION_REQUEST_VERIFY_TAG.as_slice());
                p.try_to_vec()
            },
            Operation::FunctionRequestClose(p) => {
                push_bytes(&mut out, FUNCTION_REQUEST_CLOSE_TAG.as_slice());
                p.try_to_vec()
            },
            Operation::WalletFund(p) => {
                push_bytes(&mut out, WALLET_FUND_TAG.as_slice());
                p.try_to_vec()
            },
        };
        assert(out@ =~= self.tag());
        out.append(&mut params);
        out
    }

    /// Reads an operation from its bytes. Bytes that begin with none of the
    /// four type tags are an operation of another type; after a known tag
    /// the parameters of that operation must follow, and nothing else.
    pub fn decode(data: &[u8]) -> (r: Result<Self, SwitchboardError>)
        ensures
            r is Ok <==> Self::readable(data@),
            r matches Ok(op) ==> op.encoding() == data@,
            r matches Err(e) ==> e == (if has_operation_tag(data@) {
                SwitchboardError::SerializationFailure
            } else {
                SwitchboardError::RecordTypeMismatch
            }),
    {
        if data.len() < 8 {
            return Err(SwitchboardError::RecordTypeMismatch);
        }
        let rest = vstd::slice::slice_subrange(data, 8, data.len());
        proof {
            lemma_tags_differ();
            assert(data@ =~= data@.subrange(0, 8) + rest@);
        }
        if starts_with_at(data, 0, FUNCTION_VERIFY_TAG.as_slice()) {
            match FunctionVerifyParams::try_from_slice(rest) {
                Ok(p) => Ok(Operation::FunctionVerify(p)),
                Err(e) => Err(e),
            }
        } else if starts_with_at(data, 0, FUNCTION_REQUEST_VERIFY_TAG.as_slice()) {
            match FunctionRequestVerifyParams::try_from_slice(rest) {
                Ok(p) => Ok(Operation::FunctionRequestVerify(p)),
                Err(e) => Err(e),
            }
        } else if starts_with_at(data, 0, FUNCTION_REQUEST_CLOSE_TAG.as_slice()) {
            match FunctionRequestCloseParams::try_from_slice(rest) {
                Ok(p) => {
                    assert(p.encoding() =~= rest@);
                    Ok(Operation::FunctionRequestClose(p))
                },
                Err(e) => Err(e),
            }
        } else if starts_with_at(data, 0, WALLET_FUND_TAG.as_slice()) {
            match WalletFundParams::try_from_slice(rest) {
                Ok(p) => Ok(Operation::WalletFund(p)),
                Err(e) => Err(e),
            }
        } else {
            Err(SwitchboardError::RecordTypeMismatch)
        }
    }
}

/// No two operations share a type tag.
pub proof fn lemma_tags_differ()
    ensures
        FUNCTION_VERIFY_TAG@ != FUNCTION_REQUEST_VERIFY_TAG@,
        FUNCTION_VERIFY_TAG@ != FUNCTION_REQUEST_CLOSE_TAG@,
        FUNCTION_VERIFY_TAG@ != WALLET_FUND_TAG@,
        FUNCTION_REQUEST_VERIFY_TAG@ != FUNCTION_REQUEST_CLOSE_TAG@,
        FUNCTION_REQUEST_VERIFY_TAG@ != WALLET_FUND_TAG@,
        FUNCTION_REQUEST_CLOSE_TAG@ != WALLET_FUND_TAG@,
        FUNCTION_VERIFY_TAG@.len() == 8,
        FUNCTION_REQUEST_VERIFY_TAG@.len() == 8,
        FUNCTION_REQUEST_CLOSE_TAG@.len() == 8,
        WALLET_FUND_TAG@.len() == 8,
{
    assert(FUNCTION_VERIFY_TAG@[0] == 210);
    assert(FUNCTION_REQUEST_VERIFY_TAG@[0] == 179);
    assert(FUNCTION_REQUEST_CLOSE_TAG@[0] == 5);
    assert(WALLET_FUND_TAG@[0] == 93);
}

/// The bytes of any operation can be read, and they tell the operation: two
/// operations with the same bytes are the same operation with the same
/// parameters.
pub proof fn lemma_operation_round_trip(op: Operation, other: Operation)
    ensures
        Operation::readable(op.encoding()),
        op.encoding() == other.encoding() ==> op == other,
{
    lemma_tags_differ();
    let e = op.encoding();
    let f = other.encoding();
    assert(e.subrange(0, 8) =~= op.tag());
    assert(e.subrange(8, e.len() as int) =~= op.params_encoding());
    assert(f.subrange(0, 8) =~= other.tag());
    assert(f.subrange(8, f.len() as int) =~= other.params_encoding());
    match op {
        Operation::FunctionVerify(p) => {
            lemma_function_verify_params_round_trip(p, p);
            if let Operation::FunctionVerify(q) = other {
                lemma_function_verify_params_round_trip(p, q);
            }
        },
        Operation::FunctionRequestVerify(p) => {
            lemma_function_request_verify_params_round_trip(p, p);
            if let Operation::FunctionRequestVerify(q) = other {
                lemma_function_request_verify_params_round_trip(p, q);
            }
        },
        Operation::FunctionRequestClose(_) => {},
        Operation::WalletFund(p) => {
            lemma_wallet_fund_params_round_trip(p, p);
            if let Operation::WalletFund(q) = other {
                lemma_wallet_fund_params_round_trip(p, q);
            }
        },
    }
}

} // verus!

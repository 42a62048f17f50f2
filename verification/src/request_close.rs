//! Closing a function request: who may close it, and where its escrow goes.

use crate::address::{check_derived, derive_spec};
use crate::bytes::push_bytes;
use crate::constants::{
    attestation_program_id, ATTESTATION_PROGRAM_ID, FUNCTION_REQUEST_CLOSE_TAG, STATE_SEED,
};
use crate::error::SwitchboardError;
use crate::function::FunctionAccountData;
use crate::function_request::FunctionRequestAccountData;
use crate::instruction::{Account, AccountInfo, AccountMeta, Instruction, Invocation};
use crate::pubkey::Pubkey;
use vstd::prelude::*;

verus! {

/// What the rules read of a token holding.
#[derive(Debug, Clone, Copy, PartialEq, Eq)]
pub struct TokenAccount {
    pub mint: Pubkey,
    pub owner: Pubkey,
    pub amount: u64,
    /// Whether the holding is one of wrapped native currency.
    pub is_native: bool,
}

/// What the rules read of the state record of the attestation program.
#[derive(Debug, Clone, Copy, PartialEq, Eq)]
pub struct AttestationProgramState {
    pub bump: u8,
}

/// The records that closing a function request touches.
#[derive(Debug, Clone, PartialEq, Eq)]
pub struct FunctionRequestClose {
    /// The request to close. It is written, and must name `function`,
    /// `escrow` and `authority`.
    pub request: Account<FunctionRequestAccountData>,
    /// Who asked for the run. Signs only where the request is closed before
    /// its garbage-collection slot.
    pub authority: AccountInfo,
    /// The escrow of the request: a holding of wrapped native currency that
    /// the program state owns.
    pub escrow: Account<TokenAccount>,
    pub function: Account<FunctionAccountData>,
    /// Where the claimer's part goes once the garbage-collection slot has
    /// come.
    pub sol_dest: AccountInfo,
    /// Where the refund goes: a holding of wrapped native currency that the
    /// authority of the request owns.
    pub escrow_dest: Account<TokenAccount>,
    pub state: Account<AttestationProgramState>,
    pub token_program: AccountInfo,
    pub system_program: AccountInfo,
}

/// The parameters of the operation: none.
#[derive(Debug, Clone, Copy, PartialEq, Eq)]
pub struct FunctionRequestCloseParams {

}

impl FunctionRequestCloseParams {
    /// The parameter bytes: none.
    pub open spec fn encoding(&self) -> Seq<u8> {
        Seq::<u8>::empty()
    }

    /// The parameter bytes: none.
    pub fn try_to_vec(&self) -> (r: Vec<u8>)
        ensures
            r@ == self.encoding(),
    {
        Vec::new()
    }

    /// Reads the parameters from their bytes, of which there must be none.
    pub fn try_from_slice(data: &[u8]) -> (r: Result<Self, SwitchboardError>)
        ensures
            r is Ok <==> data@.len() == 0,
            r matches Err(e) ==> e == SwitchboardError::SerializationFailure,
    {
        if data.len() == 0 {
            Ok(FunctionRequestCloseParams {  })
        } else {
            Err(SwitchboardError::SerializationFailure)
        }
    }
}

/// How the escrow of an abandoned request is split: the claimer's part in
/// hundredths of a percent. The deployment sets it.
#[derive(Debug, Clone, Copy, PartialEq, Eq)]
pub struct ClosePolicy {
    pub claimer_share_bps: u16,
}

/// Where the escrow of a closed request goes.
#[derive(Debug, Clone, Copy, PartialEq, Eq)]
pub struct CloseSettlement {
    /// The request record that is destroyed.
    pub closed_request: Pubkey,
    pub refund_destination: Pubkey,
    pub refund_amount: u64,
    pub claimer_destination: Pubkey,
    pub claimer_amount: u64,
}

/// The claimer's part of `amount` under a share of `bps` hundredths of a
/// percent, rounded down.
pub open spec fn claimer_part(amount: u64, bps: u16) -> int {
    (amount as int * bps as int) / 10000
}

impl FunctionRequestClose {
    /// The nine entries of the operation, in order, each with the flags under
    /// which its record was handed over.
    pub open spec fn metas(&self) -> Seq<AccountMeta> {
        seq![
            self.request.info.meta(),
            self.authority.meta(),
            self.escrow.info.meta(),
            self.function.info.meta(),
            self.sol_dest.meta(),
            self.escrow_dest.info.meta(),
            self.state.info.meta(),
            self.token_program.meta(),
            self.system_program.meta(),
        ]
    }

    /// The nine records of the operation, in order.
    pub open spec fn infos(&self) -> Seq<AccountInfo> {
        seq![
            self.request.info,
            self.authority,
            self.escrow.info,
            self.function.info,
            self.sol_dest,
            self.escrow_dest.info,
            self.state.info,
            self.token_program,
            self.system_program,
        ]
    }

    /// Whether the records belong together: the request names the function,
    /// the escrow and the authority that were handed over.
    pub open spec fn related(&self) -> bool {
        &&& self.request.data.function@ == self.function.info.key@
        &&& self.request.data.escrow@ == self.escrow.info.key@
        &&& self.request.data.authority@ == self.authority.key@
    }

    /// Whether the handed-over records give the close the rights it needs:
    /// the records that the close changes may be written; the escrow is
    /// wrapped native currency owned by the program state; and the refund
    /// holding is wrapped native currency owned by the authority of the
    /// request.
    pub open spec fn permitted(&self) -> bool {
        &&& self.request.info.is_writable
        &&& self.escrow.info.is_writable
        &&& self.function.info.is_writable
        &&& self.escrow_dest.info.is_writable
        &&& self.escrow.data.is_native
        &&& self.escrow.data.owner@ == self.state.info.key@
        &&& self.escrow_dest.data.is_native
        &&& self.escrow_dest.data.owner@ == self.request.data.authority@
    }

    /// Whether the state record stands at the address that its seed and bump
    /// give.
    pub open spec fn state_derived(&self) -> bool {
        derive_spec(STATE_SEED@, Seq::<Pubkey>::empty(), self.state.data.bump, ATTESTATION_PROGRAM_ID@)
            == Some(self.state.info.key@)
    }

    /// What `validate` answers.
    pub open spec fn validation(&self) -> Result<(), SwitchboardError> {
        if !self.related() {
            Err(SwitchboardError::RecordNotFound)
        } else if !self.permitted() {
            Err(SwitchboardError::PermissionDenied)
        } else if !self.state_derived() {
            Err(SwitchboardError::AddressDerivationFailure)
        } else {
            Ok(())
        }
    }

    /// What `close` answers at `current_slot` under `policy`.
    pub open spec fn settlement(&self, current_slot: u64, policy: ClosePolicy) -> Result<
        CloseSettlement,
        SwitchboardError,
    > {
        if self.validation() is Err {
            Err(self.validation()->Err_0)
        } else if current_slot < self.request.data.garbage_collection_slot {
            if self.authority.is_signer {
                Ok(
                    CloseSettlement {
                        closed_request: self.request.info.key,
                        refund_destination: self.escrow_dest.info.key,
                        refund_amount: self.escrow.data.amount,
                        claimer_destination: self.sol_dest.key,
                        claimer_amount: 0,
                    },
                )
            } else {
                Err(SwitchboardError::PermissionDenied)
            }
        } else if policy.claimer_share_bps > 10000 {
            Err(SwitchboardError::SerializationFailure)
        } else {
            Ok(
                CloseSettlement {
                    closed_request: self.request.info.key,
                    refund_destination: self.escrow_dest.info.key,
                    refund_amount: (self.escrow.data.amount - claimer_part(
                        self.escrow.data.amount,
                        policy.claimer_share_bps,
                    )) as u64,
                    claimer_destination: self.sol_dest.key,
                    claimer_amount: claimer_part(
                        self.escrow.data.amount,
                        policy.claimer_share_bps,
                    ) as u64,
                },
            )
        }
    }

    /// Checks that the records fit together before anything is changed: first
    /// that the request names the records handed over, then the rights, then
    /// the address of the state record.
    pub fn validate(&self) -> (r: Result<(), SwitchboardError>)
        ensures
            r == self.validation(),
    {
        if !(self.request.data.function == self.function.info.key && self.request.data.escrow
            == self.escrow.info.key && self.request.data.authority == self.authority.key) {
            return Err(SwitchboardError::RecordNotFound);
        }
        if !(self.request.info.is_writable && self.escrow.info.is_writable
            && self.function.info.is_writable && self.escrow_dest.info.is_writable
            && self.escrow.data.is_native && self.escrow.data.owner == self.state.info.key
            && self.escrow_dest.data.is_native && self.escrow_dest.data.owner
            == self.request.data.authority) {
            return Err(SwitchboardError::PermissionDenied);
        }
        let no_keys: Vec<Pubkey> = Vec::new();
        assert(no_keys@ =~= Seq::<Pubkey>::empty());
        let program = attestation_program_id();
        match check_derived(
            &self.state.info.key,
            STATE_SEED.as_slice(),
            &no_keys,
            self.state.data.bump,
            &program,
        ) {
            Ok(()) => Ok(()),
            Err(_) => Err(SwitchboardError::AddressDerivationFailure),
        }
    }

    /// Decides the close at `current_slot`. Nothing is settled unless the
    /// records fit together. Before the garbage-collection slot of the
    /// request only its authority may close, by signing, and the whole escrow
    /// is refunded; without the signature the close is denied. From that slot
    /// on anyone may close, and the escrow is split: the claimer's part by
    /// the policy, the rest refunded. A policy that gives the claimer more
    /// than the whole is refused where the escrow is split, and plays no part
    /// before.
    pub fn close(&self, current_slot: u64, policy: ClosePolicy) -> (r: Result<
        CloseSettlement,
        SwitchboardError,
    >)
        ensures
            r == self.settlement(current_slot, policy),
            r matches Ok(s) ==> s.refund_amount + s.claimer_amount == self.escrow.data.amount,
    {
        match self.validate() {
            Err(e) => {
                return Err(e);
            },
            Ok(()) => {},
        }
        let amount: u64 = self.escrow.data.amount;
        if current_slot < self.request.data.garbage_collection_slot {
            if !self.authority.is_signer {
                return Err(SwitchboardError::PermissionDenied);
            }
            Ok(
                CloseSettlement {
                    closed_request: self.request.info.key,
                    refund_destination: self.escrow_dest.info.key,
                    refund_amount: amount,
                    claimer_destination: self.sol_dest.key,
                    claimer_amount: 0,
                },
            )
        } else {
            if policy.claimer_share_bps > 10000 {
                return Err(SwitchboardError::SerializationFailure);
            }
            let bps: u16 = policy.claimer_share_bps;
            assert(amount * bps <= 0xffff_ffff_ffff_ffff * 10000) by (nonlinear_arith)
                requires
                    amount <= 0xffff_ffff_ffff_ffff,
                    bps <= 10000,
            ;
            let wide: u128 = (amount as u128) * (bps as u128);
            let part: u128 = wide / 10000;
            assert(part <= amount) by (nonlinear_arith)
                requires
                    wide == amount * policy.claimer_share_bps,
                    policy.claimer_share_bps <= 10000,
                    part == wide / 10000,
            ;
            let claimer_amount: u64 = part as u64;
            Ok(
                CloseSettlement {
                    closed_request: self.request.info.key,
                    refund_destination: self.escrow_dest.info.key,
                    refund_amount: amount - claimer_amount,
                    claimer_destination: self.sol_dest.key,
                    claimer_amount,
                },
            )
        }
    }

    /// The operation for `program_id`: the nine records, and as parameter
    /// bytes the type tag of the operation alone.
    pub fn get_instruction(&self, program_id: Pubkey) -> (r: Result<Instruction, SwitchboardError>)
        ensures
            r matches Ok(ix) && ix.program_id == program_id && ix.accounts@ == self.metas()
                && ix.data@ == FUNCTION_REQUEST_CLOSE_TAG@,
    {
        let accounts = self.to_account_metas(None);
        let mut data: Vec<u8> = Vec::new();
        push_bytes(&mut data, FUNCTION_REQUEST_CLOSE_TAG.as_slice());
        assert(data@ =~= FUNCTION_REQUEST_CLOSE_TAG@);
        let params = FunctionRequestCloseParams {  };
        let mut param_vec = params.try_to_vec();
        data.append(&mut param_vec);
        assert(data@ =~= FUNCTION_REQUEST_CLOSE_TAG@);
        Ok(Instruction::new_with_bytes(program_id, data.as_slice(), accounts))
    }

    /// The call into `program` that closes the request: the operation and the
    /// records to hand along. No derived address signs.
    pub fn invoke(&self, program: AccountInfo) -> (r: Result<Invocation, SwitchboardError>)
        ensures
            r matches Ok(call) && call.instruction.program_id == program.key
                && call.instruction.accounts@ == self.metas() && call.instruction.data@
                == FUNCTION_REQUEST_CLOSE_TAG@ && call.account_infos@ == self.infos()
                && call.signer_seeds@.len() == 0,
    {
        match self.get_instruction(program.key) {
            Ok(instruction) => {
                let account_infos = self.to_account_infos();
                Ok(Invocation { instruction, account_infos, signer_seeds: Vec::new() })
            },
            Err(e) => Err(e),
        }
    }

    /// The call into `program` that closes the request, signed for by the
    /// derived addresses whose seed lists are given.
    pub fn invoke_signed(&self, program: AccountInfo, signer_seeds: Vec<Vec<Vec<u8>>>) -> (r:
        Result<Invocation, SwitchboardError>)
        ensures
            r matches Ok(call) && call.instruction.program_id == program.key
                && call.instruction.accounts@ == self.metas() && call.instruction.data@
                == FUNCTION_REQUEST_CLOSE_TAG@ && call.account_infos@ == self.infos()
                && call.signer_seeds == signer_seeds,
    {
        match self.get_instruction(program.key) {
            Ok(instruction) => {
                let account_infos = self.to_account_infos();
                Ok(Invocation { instruction, account_infos, signer_seeds })
            },
            Err(e) => Err(e),
        }
    }

    /// The nine records of the operation, in order.
    pub fn to_account_infos(&self) -> (r: Vec<AccountInfo>)
        ensures
            r@ == self.infos(),
    {
        let mut account_infos: Vec<AccountInfo> = Vec::new();
        account_infos.push(self.request.info);
        account_infos.push(self.authority);
        account_infos.push(self.escrow.info);
        account_infos.push(self.function.info);
        account_infos.push(self.sol_dest);
        account_infos.push(self.escrow_dest.info);
        account_infos.push(self.state.info);
        account_infos.push(self.token_program);
        account_infos.push(self.system_program);
        assert(account_infos@ =~= self.infos());
        account_infos
    }

    /// The nine entries of the operation, in order, each with the flags under
    /// which its record was handed over.
    pub fn to_account_metas(&self, _is_signer: Option<bool>) -> (r: Vec<AccountMeta>)
        ensures
            r@ == self.metas(),
    {
        let mut account_metas: Vec<AccountMeta> = Vec::new();
        account_metas.push(self.request.info.to_account_meta());
        account_metas.push(self.authority.to_account_meta());
        account_metas.push(self.escrow.info.to_account_meta());
        account_metas.push(self.function.info.to_account_meta());
        account_metas.push(self.sol_dest.to_account_meta());
        account_metas.push(self.escrow_dest.info.to_account_meta());
        account_metas.push(self.state.info.to_account_meta());
        account_metas.push(self.token_program.to_account_meta());
        account_metas.push(self.system_program.to_account_meta());
        assert(account_metas@ =~= self.metas());
        account_metas
    }
}

/// Before the garbage-collection slot a close without the signature of the
/// authority is denied, whatever else holds of records that fit together;
/// from that slot on a close of such records succeeds for any caller, and
/// the two parts make up the whole escrow, the claimer's being its share by
/// the policy.
pub proof fn lemma_close_authorization(c: FunctionRequestClose, current_slot: u64, policy: ClosePolicy)
    requires
        c.validation() is Ok,
        policy.claimer_share_bps <= 10000,
    ensures
        current_slot < c.request.data.garbage_collection_slot && !c.authority.is_signer
            ==> c.settlement(current_slot, policy) == Err::<CloseSettlement, SwitchboardError>(
            SwitchboardError::PermissionDenied,
        ),
        current_slot < c.request.data.garbage_collection_slot && c.authority.is_signer ==> (
        c.settlement(current_slot, policy) matches Ok(s) && s.refund_amount
            == c.escrow.data.amount && s.claimer_amount == 0),
        current_slot >= c.request.data.garbage_collection_slot ==> (c.settlement(
            current_slot,
            policy,
        ) matches Ok(s) && s.claimer_amount == claimer_part(
            c.escrow.data.amount,
            policy.claimer_share_bps,
        ) && s.refund_amount + s.claimer_amount == c.escrow.data.amount),
{
    let amount = c.escrow.data.amount;
    let bps = policy.claimer_share_bps;
    assert(0 <= claimer_part(amount, bps) <= amount) by (nonlinear_arith)
        requires
            bps <= 10000,
            claimer_part(amount, bps) == (amount as int * bps as int) / 10000,
    ;
}

} // verus!

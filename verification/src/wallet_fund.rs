//! Funding a wallet: wrapping native currency into the wallet, transferring
//! tokens into it, or both in one operation.

use crate::address::{check_derived, derive_spec};
use crate::bytes::{
    lemma_u64_le_bytes_of_value, lemma_u64_le_round_trip, push_bytes, push_u64_le, read_u64_le,
    u64_le_bytes,
};
use crate::constants::{
    attestation_program_id, switchboard_program_id, ATTESTATION_PROGRAM_ID, NATIVE_MINT_ID,
    STATE_SEED, SWITCHBOARD_PROGRAM_ID, WALLET_FUND_TAG,
};
use crate::error::SwitchboardError;
use crate::instruction::{Account, AccountInfo, AccountMeta, Instruction, Invocation};
use crate::pubkey::{lemma_pubkey_ext, Pubkey};
use crate::request_close::{AttestationProgramState, TokenAccount};
use crate::wallet::SwitchboardWallet;
use vstd::prelude::*;

verus! {

/// The records that funding a wallet touches.
#[derive(Debug, Clone, PartialEq, Eq)]
pub struct WalletFund {
    /// The wallet to fund. It is written, stands at the address that the
    /// mint, the queue, the authority and its name give, and names
    /// `token_wallet`.
    pub wallet: Account<SwitchboardWallet>,
    /// The mint of wrapped native currency.
    pub mint: AccountInfo,
    pub authority: AccountInfo,
    pub attestation_queue: AccountInfo,
    /// The token holding of the wallet, into which the funds go.
    pub token_wallet: Account<TokenAccount>,
    /// The holding that a transfer takes from, where there is one: of the
    /// same mint as `token_wallet`, and owned by `funder`.
    pub funder_wallet: Option<Account<TokenAccount>>,
    /// Who funds; signs.
    pub funder: AccountInfo,
    pub state: Account<AttestationProgramState>,
    pub token_program: AccountInfo,
    pub system_program: AccountInfo,
}

/// The parameters of the operation: how much to transfer in and how much
/// native currency to wrap, each on its own.
#[derive(Debug, Clone, Copy, PartialEq, Eq)]
pub struct WalletFundParams {
    pub transfer_amount: Option<u64>,
    pub wrap_amount: Option<u64>,
}

/// The bytes of an amount that may be absent: one zero byte for none, else a
/// one byte and the amount, least significant byte first.
pub open spec fn optional_amount_bytes(amount: Option<u64>) -> Seq<u8> {
    match amount {
        Some(v) => seq![1u8] + u64_le_bytes(v as int),
        None => seq![0u8],
    }
}

/// The amount that is there, or zero.
pub open spec fn amount_or_zero(amount: Option<u64>) -> int {
    match amount {
        Some(v) => v as int,
        None => 0,
    }
}

/// Appends the bytes of an amount that may be absent.
fn push_optional_amount(out: &mut Vec<u8>, amount: Option<u64>)
    ensures
        final(out)@ == old(out)@ + optional_amount_bytes(amount),
{
    match amount {
        Some(v) => {
            out.push(1);
            push_u64_le(out, v);
            assert(out@ =~= old(out)@ + optional_amount_bytes(amount));
        },
        None => {
            out.push(0);
            assert(out@ =~= old(out)@ + optional_amount_bytes(amount));
        },
    }
}

impl WalletFundParams {
    /// The parameter bytes: the transfer amount, then the wrap amount.
    pub open spec fn encoding(&self) -> Seq<u8> {
        optional_amount_bytes(self.transfer_amount) + optional_amount_bytes(self.wrap_amount)
    }

    /// The parameter bytes.
    pub fn try_to_vec(&self) -> (r: Vec<u8>)
        ensures
            r@ == self.encoding(),
    {
        let mut out: Vec<u8> = Vec::new();
        push_optional_amount(&mut out, self.transfer_amount);
        assert(out@ =~= optional_amount_bytes(self.transfer_amount));
        push_optional_amount(&mut out, self.wrap_amount);
        out
    }
}

/// The number of bytes that an amount takes that may be absent and whose
/// first byte is `tag`, or none where `tag` begins no such amount.
pub open spec fn optional_amount_len(tag: u8) -> Option<int> {
    if tag == 0 {
        Some(1)
    } else if tag == 1 {
        Some(9)
    } else {
        None
    }
}

/// Reads an amount that may be absent from the bytes of `data` at `at`, and
/// says where the bytes after it begin.
fn read_optional_amount(data: &[u8], at: usize) -> (r: Option<(Option<u64>, usize)>)
    requires
        at <= data@.len(),
    ensures
        r is Some <==> at < data@.len() && optional_amount_len(data@[at as int]) is Some && at
            + optional_amount_len(data@[at as int])->0 <= data@.len(),
        r matches Some((amount, next)) ==> next == at + optional_amount_len(
            data@[at as int],
        )->0 && data@.subrange(at as int, next as int) == optional_amount_bytes(amount),
{
    let len: usize = data.len();
    if at >= len {
        return None;
    }
    let tag = data[at];
    if tag == 0 {
        assert(data@.subrange(at as int, at + 1) =~= optional_amount_bytes(None));
        Some((None, at + 1))
    } else if tag == 1 {
        if len - at < 9 {
            return None;
        }
        let v = read_u64_le(data, at + 1);
        proof {
            lemma_u64_le_bytes_of_value(data@.subrange(at + 1, at + 9));
            assert(data@.subrange(at as int, at + 9) =~= optional_amount_bytes(Some(v)));
        }
        Some((Some(v), at + 9))
    } else {
        None
    }
}

impl WalletFundParams {
    /// Whether `data` are the parameter bytes of some parameters.
    pub open spec fn readable(data: Seq<u8>) -> bool {
        &&& data.len() >= 1
        &&& optional_amount_len(data[0]) matches Some(first)
        &&& data.len() > first
        &&& optional_amount_len(data[first]) matches Some(second)
        &&& data.len() == first + second
    }

    /// Reads the parameters from their bytes, which must hold them exactly.
    pub fn try_from_slice(data: &[u8]) -> (r: Result<Self, SwitchboardError>)
        ensures
            r is Ok <==> Self::readable(data@),
            r matches Ok(p) ==> p.encoding() == data@,
            r matches Err(e) ==> e == SwitchboardError::SerializationFailure,
    {
        let (transfer_amount, after_first) = match read_optional_amount(data, 0) {
            Some(pair) => pair,
            None => {
                return Err(SwitchboardError::SerializationFailure);
            },
        };
        let (wrap_amount, after_second) = match read_optional_amount(data, after_first) {
            Some(pair) => pair,
            None => {
                return Err(SwitchboardError::SerializationFailure);
            },
        };
        if after_second != data.len() {
            return Err(SwitchboardError::SerializationFailure);
        }
        let p = WalletFundParams { transfer_amount, wrap_amount };
        assert(p.encoding() =~= data@) by {
            assert(data@ =~= data@.subrange(0, after_first as int) + data@.subrange(
                after_first as int,
                after_second as int,
            ));
        }
        Ok(p)
    }
}

/// The bytes of an amount that may be absent tell the amount: two amounts
/// with the same bytes are the same.
pub proof fn lemma_optional_amount_injective(a: Option<u64>, b: Option<u64>)
    ensures
        optional_amount_bytes(a).len() == optional_amount_len(optional_amount_bytes(a)[0])->0,
        optional_amount_len(optional_amount_bytes(a)[0]) is Some,
        optional_amount_bytes(a) == optional_amount_bytes(b) ==> a == b,
{
    match a {
        Some(v) => {
            lemma_u64_le_round_trip(v as int);
            assert(optional_amount_bytes(a).subrange(1, 9) =~= u64_le_bytes(v as int));
        },
        None => {},
    }
    match b {
        Some(v) => {
            lemma_u64_le_round_trip(v as int);
            assert(optional_amount_bytes(b).subrange(1, 9) =~= u64_le_bytes(v as int));
        },
        None => {},
    }
}

/// The parameter bytes of a funding can be read, and reading them gives the
/// parameters back; two sets of parameters with the same bytes are the same.
pub proof fn lemma_wallet_fund_params_round_trip(p: WalletFundParams, q: WalletFundParams)
    ensures
        WalletFundParams::readable(p.encoding()),
        p.encoding() == q.encoding() ==> p == q,
{
    lemma_optional_amount_injective(p.transfer_amount, q.transfer_amount);
    lemma_optional_amount_injective(p.wrap_amount, q.wrap_amount);
    let a = optional_amount_bytes(p.transfer_amount);
    let b = optional_amount_bytes(p.wrap_amount);
    let c = optional_amount_bytes(q.transfer_amount);
    let d = optional_amount_bytes(q.wrap_amount);
    assert((a + b)[0] == a[0]);
    assert((a + b)[a.len() as int] == b[0]);
    assert((c + d)[0] == c[0]);
    if p.encoding() == q.encoding() {
        assert(a.len() == c.len());
        assert(a =~= (a + b).subrange(0, a.len() as int));
        assert(c =~= (c + d).subrange(0, c.len() as int));
        assert(b =~= (a + b).subrange(a.len() as int, (a + b).len() as int));
        assert(d =~= (c + d).subrange(c.len() as int, (c + d).len() as int));
    }
}

/// One effect of a funding operation.
#[derive(Debug, Clone, Copy, PartialEq, Eq)]
pub enum FundStep {
    /// Native currency of the funder is wrapped into the wallet.
    Wrap { amount: u64 },
    /// Tokens of the funder's holding are transferred into the wallet.
    Transfer { amount: u64 },
}

/// The effects of a funding operation, in the order in which they apply, and
/// what the holdings hold after them.
#[derive(Debug, Clone, PartialEq, Eq)]
pub struct FundOutcome {
    pub steps: Vec<FundStep>,
    /// What the token holding of the wallet holds afterwards.
    pub token_wallet_amount: u64,
    /// What the funder's holding holds afterwards; as before where there is
    /// no such holding.
    pub funder_wallet_amount: Option<u64>,
}

/// The effects that the parameters ask for: the wrap first where there is
/// one, then the transfer where there is one.
pub open spec fn fund_steps(params: WalletFundParams) -> Seq<FundStep> {
    (match params.wrap_amount {
        Some(w) => seq![FundStep::Wrap { amount: w }],
        None => Seq::<FundStep>::empty(),
    }) + (match params.transfer_amount {
        Some(t) => seq![FundStep::Transfer { amount: t }],
        None => Seq::<FundStep>::empty(),
    })
}

impl WalletFund {
    /// The entry that stands for the funder's holding: its own where there is
    /// one, else the oracle program, read-only, as a placeholder.
    pub open spec fn funder_wallet_meta(&self) -> AccountMeta {
        match self.funder_wallet {
            Some(w) => w.info.meta(),
            None => AccountMeta {
                pubkey: Pubkey { bytes: SWITCHBOARD_PROGRAM_ID },
                is_signer: false,
                is_writable: false,
            },
        }
    }

    /// The ten entries of the operation, in order.
    pub open spec fn metas(&self) -> Seq<AccountMeta> {
        seq![
            self.wallet.info.meta(),
            self.mint.meta(),
            self.authority.meta(),
            self.attestation_queue.meta(),
            self.token_wallet.info.meta(),
            self.funder_wallet_meta(),
            self.funder.meta(),
            self.state.info.meta(),
            self.token_program.meta(),
            self.system_program.meta(),
        ]
    }

    /// The records of the operation, in order; an absent funder's holding has
    /// no place among them.
    pub open spec fn infos(&self) -> Seq<AccountInfo> {
        seq![
            self.wallet.info,
            self.mint,
            self.authority,
            self.attestation_queue,
            self.token_wallet.info,
        ] + (match self.funder_wallet {
            Some(w) => seq![w.info],
            None => Seq::<AccountInfo>::empty(),
        }) + seq![self.funder, self.state.info, self.token_program, self.system_program]
    }

    /// Whether the records are the ones that belong together: the wallet
    /// names the token holding, and the mint is that of wrapped native
    /// currency.
    pub open spec fn related(&self) -> bool {
        &&& self.wallet.data.token_wallet@ == self.token_wallet.info.key@
        &&& self.mint.key@ == NATIVE_MINT_ID@
    }

    /// Whether the handed-over records give the funding the rights it needs:
    /// the wallet and its holding may be written, the funder signs, and the
    /// funder's holding, where there is one, may be written, is of the mint
    /// of the wallet's holding and belongs to the funder.
    pub open spec fn permitted(&self) -> bool {
        &&& self.wallet.info.is_writable
        &&& self.token_wallet.info.is_writable
        &&& self.funder.is_signer
        &&& match self.funder_wallet {
            Some(w) => w.info.is_writable && w.data.mint@ == self.token_wallet.data.mint@
                && w.data.owner@ == self.funder.key@,
            None => true,
        }
    }

    /// The keys after the mint in the seed list of the wallet: the queue, the
    /// authority and the name.
    pub open spec fn wallet_seed_keys(&self) -> Seq<Pubkey> {
        seq![
            self.attestation_queue.key,
            self.authority.key,
            Pubkey { bytes: self.wallet.data.name },
        ]
    }

    /// Whether the wallet and the state record stand at the addresses that
    /// their seeds and bumps give.
    pub open spec fn derived(&self) -> bool {
        &&& derive_spec(
            self.mint.key@,
            self.wallet_seed_keys(),
            self.wallet.data.bump,
            ATTESTATION_PROGRAM_ID@,
        ) == Some(self.wallet.info.key@)
        &&& derive_spec(
            STATE_SEED@,
            Seq::<Pubkey>::empty(),
            self.state.data.bump,
            ATTESTATION_PROGRAM_ID@,
        ) == Some(self.state.info.key@)
    }

    /// What `validate` answers.
    pub open spec fn validation(&self) -> Result<(), SwitchboardError> {
        if !self.related() {
            Err(SwitchboardError::RecordNotFound)
        } else if !self.permitted() {
            Err(SwitchboardError::PermissionDenied)
        } else if !self.derived() {
            Err(SwitchboardError::AddressDerivationFailure)
        } else {
            Ok(())
        }
    }

    /// Whether the funder's holding can give what the transfer asks for.
    pub open spec fn transfer_covered(&self, params: WalletFundParams) -> bool {
        match params.transfer_amount {
            Some(t) => self.funder_wallet matches Some(w) && w.data.amount >= t,
            None => true,
        }
    }

    /// What the token holding of the wallet holds once the wrap and the
    /// transfer have been added.
    pub open spec fn funded_amount(&self, params: WalletFundParams) -> int {
        self.token_wallet.data.amount + amount_or_zero(params.wrap_amount) + amount_or_zero(
            params.transfer_amount,
        )
    }

    /// Checks that the records fit together before anything is changed: first
    /// that they belong together, then the rights, then the addresses.
    pub fn validate(&self) -> (r: Result<(), SwitchboardError>)
        ensures
            r == self.validation(),
    {
        let native = Pubkey::new_from_array(NATIVE_MINT_ID);
        if !(self.wallet.data.token_wallet == self.token_wallet.info.key && self.mint.key
            == native) {
            return Err(SwitchboardError::RecordNotFound);
        }
        let funder_wallet_fits = match &self.funder_wallet {
            Some(w) => w.info.is_writable && w.data.mint == self.token_wallet.data.mint
                && w.data.owner == self.funder.key,
            None => true,
        };
        if !(self.wallet.info.is_writable && self.token_wallet.info.is_writable
            && self.funder.is_signer && funder_wallet_fits) {
            return Err(SwitchboardError::PermissionDenied);
        }
        let program = attestation_program_id();
        let mut keys: Vec<Pubkey> = Vec::new();
        keys.push(self.attestation_queue.key);
        keys.push(self.authority.key);
        keys.push(Pubkey::new_from_array(self.wallet.data.name));
        proof {
            lemma_pubkey_ext(keys@[2], Pubkey { bytes: self.wallet.data.name });
            assert(keys@ =~= self.wallet_seed_keys());
        }
        if check_derived(
            &self.wallet.info.key,
            self.mint.key.bytes.as_slice(),
            &keys,
            self.wallet.data.bump,
            &program,
        ).is_err() {
            return Err(SwitchboardError::AddressDerivationFailure);
        }
        let no_keys: Vec<Pubkey> = Vec::new();
        assert(no_keys@ =~= Seq::<Pubkey>::empty());
        if check_derived(
            &self.state.info.key,
            STATE_SEED.as_slice(),
            &no_keys,
            self.state.data.bump,
            &program,
        ).is_err() {
            return Err(SwitchboardError::AddressDerivationFailure);
        }
        Ok(())
    }

    /// Decides what the funding does. Nothing is done unless the records fit
    /// together. The wrap and the transfer are each applied where asked for,
    /// the wrap first, and both add to the token holding of the wallet. A
    /// transfer that the funder's holding cannot cover is denied; a sum that
    /// the holding of the wallet cannot hold is refused.
    pub fn fund(&self, params: &WalletFundParams) -> (r: Result<FundOutcome, SwitchboardError>)
        ensures
            match r {
                Ok(o) => {
                    &&& self.validation() is Ok
                    &&& self.transfer_covered(*params)
                    &&& o.steps@ == fund_steps(*params)
                    &&& o.token_wallet_amount == self.funded_amount(*params)
                    &&& match self.funder_wallet {
                        Some(w) => o.funder_wallet_amount == Some(
                            (w.data.amount - amount_or_zero(params.transfer_amount)) as u64,
                        ),
                        None => o.funder_wallet_amount is None,
                    }
                },
                Err(e) => {
                    if self.validation() is Err {
                        e == self.validation()->Err_0
                    } else if !self.transfer_covered(*params) {
                        e == SwitchboardError::PermissionDenied
                    } else {
                        e == SwitchboardError::SerializationFailure && self.funded_amount(*params)
                            > u64::MAX
                    }
                },
            },
    {
        match self.validate() {
            Err(e) => {
                return Err(e);
            },
            Ok(()) => {},
        }
        let mut steps: Vec<FundStep> = Vec::new();
        let mut amount: u64 = self.token_wallet.data.amount;
        let mut funder_amount: Option<u64> = match &self.funder_wallet {
            Some(w) => Some(w.data.amount),
            None => None,
        };
        match params.transfer_amount {
            Some(t) => match funder_amount {
                Some(have) => {
                    if have < t {
                        return Err(SwitchboardError::PermissionDenied);
                    }
                    funder_amount = Some(have - t);
                },
                None => {
                    return Err(SwitchboardError::PermissionDenied);
                },
            },
            None => {},
        }
        match params.wrap_amount {
            Some(w) => {
                match amount.checked_add(w) {
                    Some(sum) => {
                        amount = sum;
                    },
                    None => {
                        return Err(SwitchboardError::SerializationFailure);
                    },
                }
                steps.push(FundStep::Wrap { amount: w });
            },
            None => {},
        }
        match params.transfer_amount {
            Some(t) => {
                match amount.checked_add(t) {
                    Some(sum) => {
                        amount = sum;
                    },
                    None => {
                        return Err(SwitchboardError::SerializationFailure);
                    },
                }
                steps.push(FundStep::Transfer { amount: t });
            },
            None => {},
        }
        assert(steps@ =~= fund_steps(*params));
        Ok(FundOutcome { steps, token_wallet_amount: amount, funder_wallet_amount: funder_amount })
    }

    /// The operation for `program_id`: the ten entries, and as parameter
    /// bytes the type tag of the operation followed by `params`.
    pub fn get_instruction(&self, program_id: Pubkey, params: &WalletFundParams) -> (r: Result<
        Instruction,
        SwitchboardError,
    >)
        ensures
            r matches Ok(ix) && ix.program_id == program_id && ix.accounts@ == self.metas()
                && ix.data@ == WALLET_FUND_TAG@ + params.encoding(),
    {
        let accounts = self.to_account_metas(None);
        let mut data: Vec<u8> = Vec::new();
        push_bytes(&mut data, WALLET_FUND_TAG.as_slice());
        assert(data@ =~= WALLET_FUND_TAG@);
        let mut param_vec = params.try_to_vec();
        data.append(&mut param_vec);
        Ok(Instruction::new_with_bytes(program_id, data.as_slice(), accounts))
    }

    /// The call into `program` that funds the wallet: the operation and the
    /// records to hand along. No derived address signs.
    pub fn invoke(&self, program: AccountInfo, params: &WalletFundParams) -> (r: Result<
        Invocation,
        SwitchboardError,
    >)
        ensures
            r matches Ok(call) && call.instruction.program_id == program.key
                && call.instruction.accounts@ == self.metas() && call.instruction.data@
                == WALLET_FUND_TAG@ + params.encoding() && call.account_infos@ == self.infos()
                && call.signer_seeds@.len() == 0,
    {
        match self.get_instruction(program.key, params) {
            Ok(instruction) => {
                let account_infos = self.to_account_infos();
                Ok(Invocation { instruction, account_infos, signer_seeds: Vec::new() })
            },
            Err(e) => Err(e),
        }
    }

    /// The call into `program` that funds the wallet, signed for by the
    /// derived addresses whose seed lists are given.
    pub fn invoke_signed(
        &self,
        program: AccountInfo,
        params: &WalletFundParams,
        signer_seeds: Vec<Vec<Vec<u8>>>,
    ) -> (r: Result<Invocation, SwitchboardError>)
        ensures
            r matches Ok(call) && call.instruction.program_id == program.key
                && call.instruction.accounts@ == self.metas() && call.instruction.data@
                == WALLET_FUND_TAG@ + params.encoding() && call.account_infos@ == self.infos()
                && call.signer_seeds == signer_seeds,
    {
        match self.get_instruction(program.key, params) {
            Ok(instruction) => {
                let account_infos = self.to_account_infos();
                Ok(Invocation { instruction, account_infos, signer_seeds })
            },
            Err(e) => Err(e),
        }
    }

    /// The records of the operation, in order; an absent funder's holding has
    /// no place among them.
    pub fn to_account_infos(&self) -> (r: Vec<AccountInfo>)
        ensures
            r@ == self.infos(),
    {
        let mut account_infos: Vec<AccountInfo> = Vec::new();
        account_infos.push(self.wallet.info);
        account_infos.push(self.mint);
        account_infos.push(self.authority);
        account_infos.push(self.attestation_queue);
        account_infos.push(self.token_wallet.info);
        match &self.funder_wallet {
            Some(funder_wallet) => {
                account_infos.push(funder_wallet.info);
            },
            None => {},
        }
        account_infos.push(self.funder);
        account_infos.push(self.state.info);
        account_infos.push(self.token_program);
        account_infos.push(self.system_program);
        assert(account_infos@ =~= self.infos());
        account_infos
    }

    /// The ten entries of the operation, in order: each record with the flags
    /// under which it was handed over, and the oracle program, read-only, in
    /// the place of an absent funder's holding.
    pub fn to_account_metas(&self, _is_signer: Option<bool>) -> (r: Vec<AccountMeta>)
        ensures
            r@ == self.metas(),
    {
        let mut account_metas: Vec<AccountMeta> = Vec::new();
        account_metas.push(self.wallet.info.to_account_meta());
        account_metas.push(self.mint.to_account_meta());
        account_metas.push(self.authority.to_account_meta());
        account_metas.push(self.attestation_queue.to_account_meta());
        account_metas.push(self.token_wallet.info.to_account_meta());
        match &self.funder_wallet {
            Some(funder_wallet) => {
                account_metas.push(funder_wallet.info.to_account_meta());
            },
            None => {
                account_metas.push(AccountMeta::new_readonly(switchboard_program_id(), false));
                proof {
                    lemma_pubkey_ext(
                        account_metas@[5].pubkey,
                        Pubkey { bytes: SWITCHBOARD_PROGRAM_ID },
                    );
                }
            },
        }
        account_metas.push(self.funder.to_account_meta());
        account_metas.push(self.state.info.to_account_meta());
        account_metas.push(self.token_program.to_account_meta());
        account_metas.push(self.system_program.to_account_meta());
        assert(account_metas@ =~= self.metas());
        account_metas
    }
}

} // verus!

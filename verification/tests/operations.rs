use switchboard_solana::address::find;
use switchboard_solana::constants::{
    attestation_program_id, native_mint_id, switchboard_program_id, token_program_id, STATE_SEED,
};
use switchboard_solana::error::SwitchboardError;
use switchboard_solana::function::FunctionAccountData;
use switchboard_solana::function_request::FunctionRequestAccountData;
use switchboard_solana::instruction::{Account, AccountInfo, AccountMeta, Instruction};
use switchboard_solana::pubkey::Pubkey;
use switchboard_solana::request_close::{
    AttestationProgramState, ClosePolicy, CloseSettlement, FunctionRequestClose, TokenAccount,
};
use switchboard_solana::verify_accounts::{
    FunctionRequestVerifyAccounts, FunctionRequestVerifyParams, FunctionVerifyAccounts,
    FunctionVerifyParams,
};
use switchboard_solana::wallet::SwitchboardWallet;
use switchboard_solana::wallet_fund::{FundStep, WalletFund, WalletFundParams};

fn key(n: u8) -> Pubkey {
    Pubkey::new_from_array([n; 32])
}

fn info(n: u8, is_signer: bool, is_writable: bool) -> AccountInfo {
    AccountInfo { key: key(n), is_signer, is_writable }
}

fn state_account() -> Account<AttestationProgramState> {
    let (address, bump) = find(&STATE_SEED, &vec![], &attestation_program_id()).unwrap();
    Account {
        info: AccountInfo { key: address, is_signer: false, is_writable: false },
        data: AttestationProgramState { bump },
    }
}

fn close_accounts(amount: u64, gc_slot: u64, authority_signs: bool) -> FunctionRequestClose {
    let state = state_account();
    FunctionRequestClose {
        request: Account {
            info: info(1, false, true),
            data: FunctionRequestAccountData::create(
                key(4),
                key(3),
                key(2),
                true,
                10,
                [0u8; 32],
                gc_slot,
            ),
        },
        authority: info(2, authority_signs, false),
        escrow: Account {
            info: info(3, false, true),
            data: TokenAccount {
                mint: native_mint_id(),
                owner: state.info.key,
                amount,
                is_native: true,
            },
        },
        function: Account {
            info: info(4, false, true),
            data: FunctionAccountData::create([0u8; 32], key(20), key(21), key(22), 0, 0),
        },
        sol_dest: info(5, false, false),
        escrow_dest: Account {
            info: info(6, false, true),
            data: TokenAccount { mint: native_mint_id(), owner: key(2), amount: 0, is_native: true },
        },
        state,
        token_program: AccountInfo {
            key: token_program_id(),
            is_signer: false,
            is_writable: false,
        },
        system_program: AccountInfo {
            key: Pubkey::default(),
            is_signer: false,
            is_writable: false,
        },
    }
}

#[test]
fn function_verify_operation_lists_its_records_in_order() {
    let accounts = FunctionVerifyAccounts {
        function: key(1),
        function_enclave_signer: key(2),
        verifier_quote: key(3),
        verifier_enclave_signer: key(4),
        verifier_permission: key(5),
        escrow_wallet: key(6),
        escrow_token_wallet: key(7),
        receiver: key(8),
        attestation_queue: key(9),
    };
    let metas = accounts.to_account_metas(None);
    assert_eq!(
        metas,
        vec![
            AccountMeta::new(key(1), false),
            AccountMeta::new_readonly(key(2), true),
            AccountMeta::new_readonly(key(3), false),
            AccountMeta::new_readonly(key(4), true),
            AccountMeta::new_readonly(key(5), false),
            AccountMeta::new_readonly(key(6), false),
            AccountMeta::new(key(7), false),
            AccountMeta::new(key(8), false),
            AccountMeta::new_readonly(key(9), false),
            AccountMeta::new_readonly(token_program_id(), false),
        ]
    );
    assert_eq!(accounts.to_account_metas(Some(true)), metas);
    let params = FunctionVerifyParams {
        observed_time: 1,
        next_allowed_timestamp: i64::MAX,
        is_failure: false,
        mr_enclave: [0xab; 32],
    };
    let ix = accounts.get_instruction(params).unwrap();
    assert!(ix.program_id == attestation_program_id());
    assert_eq!(ix.accounts, metas);
    let mut data = vec![210, 108, 154, 138, 198, 14, 53, 191];
    data.extend_from_slice(&[1, 0, 0, 0, 0, 0, 0, 0]);
    data.extend_from_slice(&[255, 255, 255, 255, 255, 255, 255, 127]);
    data.push(0);
    data.extend_from_slice(&[0xab; 32]);
    assert_eq!(ix.data, data);
    assert_eq!(ix.data.len(), 8 + 8 + 8 + 1 + 32);
}

#[test]
fn function_request_verify_operation_lists_its_records_in_order() {
    let accounts = FunctionRequestVerifyAccounts {
        request: key(1),
        function_enclave_signer: key(2),
        token_wallet: key(3),
        function: key(4),
        function_escrow: key(5),
        verifier_quote: key(6),
        verifier_enclave_signer: key(7),
        verifier_permission: key(8),
        receiver: key(11),
        state: key(9),
        attestation_queue: key(10),
    };
    let metas = accounts.to_account_metas(None);
    assert_eq!(
        metas,
        vec![
            AccountMeta::new(key(1), false),
            AccountMeta::new_readonly(key(2), true),
            AccountMeta::new(key(3), false),
            AccountMeta::new(key(4), false),
            AccountMeta::new(key(5), false),
            AccountMeta::new_readonly(key(6), false),
            AccountMeta::new_readonly(key(7), true),
            AccountMeta::new_readonly(key(8), false),
            AccountMeta::new_readonly(key(9), false),
            AccountMeta::new_readonly(key(10), false),
            AccountMeta::new(key(11), false),
            AccountMeta::new_readonly(token_program_id(), false),
        ]
    );
    let params = FunctionRequestVerifyParams {
        observed_time: -1,
        is_failure: true,
        mr_enclave: [1u8; 32],
        request_slot: 258,
        container_params_hash: [2u8; 32],
    };
    let ix = accounts.get_instruction(params).unwrap();
    let mut data = vec![179, 6, 88, 97, 232, 112, 143, 253];
    data.extend_from_slice(&[255; 8]);
    data.push(1);
    data.extend_from_slice(&[1u8; 32]);
    data.extend_from_slice(&[2, 1, 0, 0, 0, 0, 0, 0]);
    data.extend_from_slice(&[2u8; 32]);
    assert_eq!(ix.data, data);
    assert_eq!(params.try_to_vec(), data[8..].to_vec());
    assert!(ix.program_id == attestation_program_id());
}

#[test]
fn instruction_keeps_what_it_is_given() {
    let ix = Instruction::new_with_bytes(key(1), &[1, 2, 3], vec![AccountMeta::new(key(2), true)]);
    assert!(ix.program_id == key(1));
    assert_eq!(ix.data, vec![1, 2, 3]);
    assert_eq!(
        ix.accounts,
        vec![AccountMeta { pubkey: key(2), is_signer: true, is_writable: true }]
    );
    assert_eq!(
        AccountMeta::new_readonly(key(3), false),
        AccountMeta { pubkey: key(3), is_signer: false, is_writable: false }
    );
    assert_eq!(info(4, true, false).to_account_meta(), AccountMeta::new_readonly(key(4), true));
    assert_eq!(info(4, false, true).to_account_meta(), AccountMeta::new(key(4), false));
}

#[test]
fn close_operation_lists_its_records_with_their_flags() {
    let c = close_accounts(100, 50, true);
    let metas = c.to_account_metas(None);
    assert_eq!(metas.len(), 9);
    assert_eq!(metas[0], AccountMeta::new(key(1), false));
    assert_eq!(metas[1], AccountMeta::new_readonly(key(2), true));
    assert_eq!(metas[2], AccountMeta::new(key(3), false));
    assert_eq!(metas[3], AccountMeta::new(key(4), false));
    assert_eq!(metas[4], AccountMeta::new_readonly(key(5), false));
    assert_eq!(metas[5], AccountMeta::new(key(6), false));
    assert_eq!(metas[6], AccountMeta::new_readonly(c.state.info.key, false));
    assert_eq!(metas[7], AccountMeta::new_readonly(token_program_id(), false));
    assert_eq!(metas[8], AccountMeta::new_readonly(Pubkey::default(), false));
    let infos = c.to_account_infos();
    assert_eq!(infos.len(), 9);
    for i in 0..9 {
        assert_eq!(infos[i].to_account_meta(), metas[i]);
    }
    let ix = c.get_instruction(key(77)).unwrap();
    assert!(ix.program_id == key(77));
    assert_eq!(ix.accounts, metas);
    assert_eq!(ix.data, vec![5, 221, 34, 111, 136, 82, 119, 101]);
}

#[test]
fn close_invocations_hand_the_records_along() {
    let c = close_accounts(100, 50, true);
    let program = info(77, false, false);
    let call = c.invoke(program).unwrap();
    assert!(call.instruction.program_id == key(77));
    assert_eq!(call.instruction.accounts, c.to_account_metas(None));
    assert_eq!(call.instruction.data, vec![5, 221, 34, 111, 136, 82, 119, 101]);
    assert_eq!(call.account_infos, c.to_account_infos());
    assert!(call.signer_seeds.is_empty());
    let seeds = vec![vec![b"STATE".to_vec(), vec![c.state.data.bump]]];
    let signed = c.invoke_signed(program, seeds.clone()).unwrap();
    assert_eq!(signed.instruction, call.instruction);
    assert_eq!(signed.account_infos, call.account_infos);
    assert_eq!(signed.signer_seeds, seeds);
}

#[test]
fn close_before_deadline_needs_the_authority() {
    let policy = ClosePolicy { claimer_share_bps: 2500 };
    let unsigned = close_accounts(1000, 50, false);
    assert_eq!(unsigned.validate(), Ok(()));
    assert_eq!(unsigned.close(49, policy), Err(SwitchboardError::PermissionDenied));
    assert_eq!(unsigned.close(0, policy), Err(SwitchboardError::PermissionDenied));
    let signed = close_accounts(1000, 50, true);
    assert_eq!(
        signed.close(49, policy),
        Ok(CloseSettlement {
            closed_request: key(1),
            refund_destination: key(6),
            refund_amount: 1000,
            claimer_destination: key(5),
            claimer_amount: 0,
        })
    );
}

#[test]
fn close_after_deadline_is_open_to_anyone_and_splits_the_escrow() {
    let policy = ClosePolicy { claimer_share_bps: 2500 };
    let unsigned = close_accounts(1000, 50, false);
    let expected = CloseSettlement {
        closed_request: key(1),
        refund_destination: key(6),
        refund_amount: 750,
        claimer_destination: key(5),
        claimer_amount: 250,
    };
    assert_eq!(unsigned.close(50, policy), Ok(expected));
    assert_eq!(unsigned.close(u64::MAX, policy), Ok(expected));
    assert_eq!(close_accounts(1000, 50, true).close(51, policy), Ok(expected));
    // the claimer's part is rounded down, and the parts make up the whole
    let odd = close_accounts(999, 0, false).close(0, ClosePolicy { claimer_share_bps: 3333 });
    let s = odd.unwrap();
    assert_eq!(s.claimer_amount, 332);
    assert_eq!(s.refund_amount, 667);
    let all = close_accounts(u64::MAX, 0, false).close(0, ClosePolicy { claimer_share_bps: 10000 });
    assert_eq!(all.unwrap().claimer_amount, u64::MAX);
    let none = close_accounts(u64::MAX, 0, false).close(0, ClosePolicy { claimer_share_bps: 0 });
    assert_eq!(none.unwrap().refund_amount, u64::MAX);
    let big = close_accounts(u64::MAX, 0, false).close(0, ClosePolicy { claimer_share_bps: 1 });
    assert_eq!(big.unwrap().claimer_amount, u64::MAX / 10000);
    // a share of more than the whole is refused where the escrow is split
    assert_eq!(
        close_accounts(10, 0, false).close(0, ClosePolicy { claimer_share_bps: 10001 }),
        Err(SwitchboardError::SerializationFailure)
    );
    // and plays no part before the deadline, where nothing is split
    let early = close_accounts(10, 50, true).close(49, ClosePolicy { claimer_share_bps: 10001 });
    assert_eq!(early.unwrap().refund_amount, 10);
    assert_eq!(
        close_accounts(10, 50, false).close(49, ClosePolicy { claimer_share_bps: u16::MAX }),
        Err(SwitchboardError::PermissionDenied)
    );
}

#[test]
fn close_is_refused_for_records_that_do_not_fit() {
    let policy = ClosePolicy { claimer_share_bps: 0 };
    let mut other_function = close_accounts(10, 0, true);
    other_function.function.info.key = key(99);
    assert_eq!(other_function.validate(), Err(SwitchboardError::RecordNotFound));
    assert_eq!(other_function.close(5, policy), Err(SwitchboardError::RecordNotFound));
    let mut other_authority = close_accounts(10, 0, true);
    other_authority.authority.key = key(99);
    assert_eq!(other_authority.close(5, policy), Err(SwitchboardError::RecordNotFound));
    let mut other_escrow = close_accounts(10, 0, true);
    other_escrow.escrow.info.key = key(99);
    assert_eq!(other_escrow.close(5, policy), Err(SwitchboardError::RecordNotFound));
    let mut foreign_escrow = close_accounts(10, 0, true);
    foreign_escrow.escrow.data.owner = key(99);
    assert_eq!(foreign_escrow.close(5, policy), Err(SwitchboardError::PermissionDenied));
    let mut not_native = close_accounts(10, 0, true);
    not_native.escrow_dest.data.is_native = false;
    assert_eq!(not_native.close(5, policy), Err(SwitchboardError::PermissionDenied));
    let mut read_only = close_accounts(10, 0, true);
    read_only.request.info.is_writable = false;
    assert_eq!(read_only.close(5, policy), Err(SwitchboardError::PermissionDenied));
    let mut wrong_refund = close_accounts(10, 0, true);
    wrong_refund.escrow_dest.data.owner = key(99);
    assert_eq!(wrong_refund.close(5, policy), Err(SwitchboardError::PermissionDenied));
    let mut wrong_bump = close_accounts(10, 0, true);
    wrong_bump.state.data.bump = wrong_bump.state.data.bump.wrapping_sub(1);
    wrong_bump.escrow.data.owner = wrong_bump.state.info.key;
    assert_eq!(wrong_bump.close(5, policy), Err(SwitchboardError::AddressDerivationFailure));
}

fn fund_accounts(funder_wallet: Option<u64>, wallet_amount: u64) -> WalletFund {
    let name = [b'n'; 32];
    let mint = native_mint_id();
    let (address, bump) = find(
        &mint.bytes,
        &vec![key(32), key(31), Pubkey::new_from_array(name)],
        &attestation_program_id(),
    )
    .unwrap();
    WalletFund {
        wallet: Account {
            info: AccountInfo { key: address, is_signer: false, is_writable: true },
            data: SwitchboardWallet::create(bump, mint, key(32), key(31), name, key(33)),
        },
        mint: AccountInfo { key: mint, is_signer: false, is_writable: false },
        authority: info(31, false, false),
        attestation_queue: info(32, false, false),
        token_wallet: Account {
            info: info(33, false, true),
            data: TokenAccount { mint, owner: address, amount: wallet_amount, is_native: true },
        },
        funder_wallet: funder_wallet.map(|amount| Account {
            info: info(34, false, true),
            data: TokenAccount { mint, owner: key(35), amount, is_native: true },
        }),
        funder: info(35, true, true),
        state: state_account(),
        token_program: AccountInfo {
            key: token_program_id(),
            is_signer: false,
            is_writable: false,
        },
        system_program: AccountInfo {
            key: Pubkey::default(),
            is_signer: false,
            is_writable: false,
        },
    }
}

#[test]
fn fund_parameters_have_exact_bytes() {
    let both = WalletFundParams { transfer_amount: Some(1), wrap_amount: Some(0x0102) };
    assert_eq!(both.try_to_vec(), vec![1, 1, 0, 0, 0, 0, 0, 0, 0, 1, 2, 1, 0, 0, 0, 0, 0, 0]);
    let neither = WalletFundParams { transfer_amount: None, wrap_amount: None };
    assert_eq!(neither.try_to_vec(), vec![0, 0]);
    let wrap = WalletFundParams { transfer_amount: None, wrap_amount: Some(u64::MAX) };
    assert_eq!(wrap.try_to_vec(), vec![0, 1, 255, 255, 255, 255, 255, 255, 255, 255]);
}

#[test]
fn fund_operation_fills_the_place_of_an_absent_holding() {
    let with = fund_accounts(Some(5), 0);
    let metas = with.to_account_metas(None);
    assert_eq!(metas.len(), 10);
    assert_eq!(metas[5], AccountMeta::new(key(34), false));
    assert_eq!(metas[6], AccountMeta::new(key(35), true));
    assert_eq!(with.to_account_infos().len(), 10);
    let without = fund_accounts(None, 0);
    let metas = without.to_account_metas(None);
    assert_eq!(metas.len(), 10);
    assert_eq!(metas[5], AccountMeta::new_readonly(switchboard_program_id(), false));
    assert_eq!(metas[0], AccountMeta::new(without.wallet.info.key, false));
    assert_eq!(metas[4], AccountMeta::new(key(33), false));
    let infos = without.to_account_infos();
    assert_eq!(infos.len(), 9);
    assert_eq!(infos[5], info(35, true, true));
    let params = WalletFundParams { transfer_amount: None, wrap_amount: Some(7) };
    let ix = without.get_instruction(key(1), &params).unwrap();
    let mut data = vec![93, 170, 44, 19, 223, 172, 40, 164];
    data.extend_from_slice(&[0, 1, 7, 0, 0, 0, 0, 0, 0, 0]);
    assert_eq!(ix.data, data);
    assert_eq!(ix.accounts, metas);
    let call = without.invoke(info(1, false, false), &params).unwrap();
    assert_eq!(call.instruction, ix);
    assert_eq!(call.account_infos, infos);
    assert!(call.signer_seeds.is_empty());
    let seeds = vec![vec![vec![1u8, 2]]];
    let signed = without.invoke_signed(info(1, false, false), &params, seeds.clone()).unwrap();
    assert_eq!(signed.instruction, ix);
    assert_eq!(signed.signer_seeds, seeds);
}

#[test]
fn fund_wraps_first_and_transfers_second() {
    let accounts = fund_accounts(Some(50), 10);
    assert_eq!(accounts.validate(), Ok(()));
    let both = accounts
        .fund(&WalletFundParams { transfer_amount: Some(20), wrap_amount: Some(3) })
        .unwrap();
    assert_eq!(both.steps, vec![FundStep::Wrap { amount: 3 }, FundStep::Transfer { amount: 20 }]);
    assert_eq!(both.token_wallet_amount, 33);
    assert_eq!(both.funder_wallet_amount, Some(30));
    let wrap = accounts.fund(&WalletFundParams { transfer_amount: None, wrap_amount: Some(3) });
    let wrap = wrap.unwrap();
    assert_eq!(wrap.steps, vec![FundStep::Wrap { amount: 3 }]);
    assert_eq!(wrap.token_wallet_amount, 13);
    assert_eq!(wrap.funder_wallet_amount, Some(50));
    let transfer = accounts
        .fund(&WalletFundParams { transfer_amount: Some(50), wrap_amount: None })
        .unwrap();
    assert_eq!(transfer.steps, vec![FundStep::Transfer { amount: 50 }]);
    assert_eq!(transfer.token_wallet_amount, 60);
    assert_eq!(transfer.funder_wallet_amount, Some(0));
    let nothing = accounts.fund(&WalletFundParams { transfer_amount: None, wrap_amount: None });
    let nothing = nothing.unwrap();
    assert!(nothing.steps.is_empty());
    assert_eq!(nothing.token_wallet_amount, 10);
    let no_holding = fund_accounts(None, 10)
        .fund(&WalletFundParams { transfer_amount: None, wrap_amount: Some(5) })
        .unwrap();
    assert_eq!(no_holding.token_wallet_amount, 15);
    assert_eq!(no_holding.funder_wallet_amount, None);
}

#[test]
fn fund_refuses_what_cannot_be_paid_or_held() {
    let accounts = fund_accounts(Some(50), 10);
    assert_eq!(
        accounts.fund(&WalletFundParams { transfer_amount: Some(51), wrap_amount: None }),
        Err(SwitchboardError::PermissionDenied)
    );
    assert_eq!(
        fund_accounts(None, 10)
            .fund(&WalletFundParams { transfer_amount: Some(1), wrap_amount: None }),
        Err(SwitchboardError::PermissionDenied)
    );
    assert_eq!(
        accounts.fund(&WalletFundParams { transfer_amount: None, wrap_amount: Some(u64::MAX) }),
        Err(SwitchboardError::SerializationFailure)
    );
    assert_eq!(
        fund_accounts(Some(50), u64::MAX - 10)
            .fund(&WalletFundParams { transfer_amount: Some(6), wrap_amount: Some(5) }),
        Err(SwitchboardError::SerializationFailure)
    );
    let mut unsigned = fund_accounts(Some(50), 10);
    unsigned.funder.is_signer = false;
    assert_eq!(
        unsigned.fund(&WalletFundParams { transfer_amount: None, wrap_amount: Some(1) }),
        Err(SwitchboardError::PermissionDenied)
    );
    let mut foreign = fund_accounts(Some(50), 10);
    foreign.funder.key = key(99);
    assert_eq!(foreign.validate(), Err(SwitchboardError::PermissionDenied));
    let mut other_mint = fund_accounts(Some(50), 10);
    other_mint.mint.key = key(99);
    assert_eq!(other_mint.validate(), Err(SwitchboardError::RecordNotFound));
    let mut other_holding = fund_accounts(Some(50), 10);
    other_holding.token_wallet.info.key = key(99);
    assert_eq!(other_holding.validate(), Err(SwitchboardError::RecordNotFound));
    let mut renamed = fund_accounts(Some(50), 10);
    renamed.wallet.data.name = [b'x'; 32];
    assert_eq!(renamed.validate(), Err(SwitchboardError::AddressDerivationFailure));
    let mut other_queue = fund_accounts(Some(50), 10);
    other_queue.attestation_queue.key = key(99);
    assert_eq!(other_queue.validate(), Err(SwitchboardError::AddressDerivationFailure));
}

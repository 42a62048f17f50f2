use switchboard_solana::address::find;
use switchboard_solana::constants::{
    attestation_program_id, token_program_id, ATTESTATION_PROGRAM_ID, FUNCTION_REQUEST_VERIFY_TAG,
    FUNCTION_VERIFY_TAG, STATE_SEED,
};
use switchboard_solana::enclave::quote_mr_enclave;
use switchboard_solana::error::SwitchboardError;
use switchboard_solana::function::FunctionAccountData;
use switchboard_solana::function_request::FunctionRequestAccountData;
use switchboard_solana::function_runner::{
    assemble_bundle, ChainResultInfo, FetchedState, FunctionRunner, RunnerEnv,
};
use switchboard_solana::instruction::{AccountMeta, Instruction};
use switchboard_solana::permission::AttestationPermissionAccountData;
use switchboard_solana::pubkey::Pubkey;
use switchboard_solana::queue::AttestationQueueAccountData;
use switchboard_solana::transaction::check_fits_message;
use switchboard_solana::utils::{
    generate_signer, load_env_bytes, load_env_optional_pubkey, load_env_pubkey, signer_to_pubkey,
    timestamp_from_seconds, unix_timestamp,
};
use switchboard_solana::verifier_record::VerifierAccountData;

const FUNCTION_KEY: &str = "sbattyXrzedoNATfc4L31wC9Mhxsi1BmFhTiN8gDshx";
const PAYER: &str = "SW1TCH7qEPTdLsDHRgPuMQjbQxKdH2aBStViMFnt64f";
const VERIFIER: &str = "TokenkegQfeZyiNwAJbNbGKPFXCWuBvf9Ss623VQ5DA";
const RECEIVER: &str = "So11111111111111111111111111111111111111112";
const REQUEST: &str = "Sysvar1nstructions1111111111111111111111111";
const MR: [u8; 32] = [0x5a; 32];
const SEED: [u8; 32] = [7u8; 32];

fn key(n: u8) -> Pubkey {
    Pubkey::new_from_array([n; 32])
}

fn parsed(text: &str) -> Pubkey {
    Pubkey::new_from_array(text.parse::<solana_sdk::pubkey::Pubkey>().unwrap().to_bytes())
}

fn text(s: &str) -> Option<String> {
    Some(s.to_string())
}

fn env(request: Option<&str>) -> RunnerEnv {
    RunnerEnv {
        function_key: text(FUNCTION_KEY),
        function_data: None,
        function_request_key: request.map(|s| s.to_string()),
        function_request_data: None,
        payer: text(PAYER),
        verifier: text(VERIFIER),
        reward_receiver: text(RECEIVER),
    }
}

fn function_data() -> FunctionAccountData {
    FunctionAccountData::create([1u8; 32], key(10), key(11), key(12), 600, 1_700_000_000)
}

fn request_data() -> FunctionRequestAccountData {
    FunctionRequestAccountData::create(
        parsed(FUNCTION_KEY),
        key(20),
        key(21),
        true,
        4242,
        [3u8; 32],
        9000,
    )
}

fn fetched(request: Option<FunctionRequestAccountData>) -> FetchedState {
    FetchedState {
        function: function_data(),
        request,
        verifier: VerifierAccountData::create(
            key(30),
            [2u8; 32],
            4,
            0,
            i64::MAX,
            key(12),
            true,
            0,
            key(31),
        ),
        queue: AttestationQueueAccountData::create(key(40), [0u8; 1024], 0, 1, 2, 3),
    }
}

/// A well-formed quote with the given measurement: a header, a report, and a
/// signature section with an empty certificate chain.
fn quote_with(mr_enclave: [u8; 32]) -> Vec<u8> {
    let mut q: Vec<u8> = Vec::new();
    q.extend_from_slice(&[3, 0, 2, 0]);
    q.extend_from_slice(&[0u8; 44]);
    let mut report = vec![0u8; 384];
    report[64..96].copy_from_slice(&mr_enclave);
    q.extend_from_slice(&report);
    q.extend_from_slice(&584u32.to_le_bytes());
    q.extend_from_slice(&[0u8; 128]);
    q.extend_from_slice(&[0u8; 384]);
    q.extend_from_slice(&[0u8; 64]);
    q.extend_from_slice(&0u16.to_le_bytes());
    q.extend_from_slice(&5u16.to_le_bytes());
    q.extend_from_slice(&0u32.to_le_bytes());
    q
}

fn user_instruction() -> Instruction {
    Instruction::new_with_bytes(key(90), &[1, 2, 3], vec![AccountMeta::new(key(91), false)])
}

#[test]
fn timestamps_come_from_whole_seconds() {
    assert_eq!(timestamp_from_seconds(Some(0)), 0);
    assert_eq!(timestamp_from_seconds(Some(1_700_000_000)), 1_700_000_000);
    assert_eq!(timestamp_from_seconds(Some(i64::MAX as u64)), i64::MAX);
    assert_eq!(timestamp_from_seconds(Some(i64::MAX as u64 + 1)), 0);
    assert_eq!(timestamp_from_seconds(Some(u64::MAX)), 0);
    assert_eq!(timestamp_from_seconds(None), 0);
    let now = unix_timestamp();
    assert!(now > 1_600_000_000);
    assert!(unix_timestamp() >= now);
}

#[test]
fn env_addresses_are_read_in_base_58() {
    let got = load_env_pubkey("FUNCTION_KEY", &text(FUNCTION_KEY)).unwrap();
    assert_eq!(got.bytes, ATTESTATION_PROGRAM_ID);
    assert!(load_env_pubkey("VERIFIER", &text(VERIFIER)).unwrap() == token_program_id());
    assert_eq!(
        load_env_pubkey("PAYER", &None),
        Err(SwitchboardError::EnvVariableMissing("PAYER".to_string()))
    );
    assert_eq!(
        load_env_pubkey("PAYER", &text("")),
        Err(SwitchboardError::EnvVariableMissing("PAYER".to_string()))
    );
    assert_eq!(
        load_env_pubkey("X", &text("not base 58!")),
        Err(SwitchboardError::EnvVariableMissing("X".to_string()))
    );
    assert_eq!(
        load_env_pubkey("X", &text("abc")),
        Err(SwitchboardError::EnvVariableMissing("X".to_string()))
    );
}

#[test]
fn env_bytes_are_read_in_hexadecimal() {
    assert_eq!(load_env_bytes("D", &text("6b697769")), Ok(Some(b"kiwi".to_vec())));
    assert_eq!(load_env_bytes("D", &text("00fF10Ab")), Ok(Some(vec![0, 255, 16, 171])));
    assert_eq!(load_env_bytes("D", &text("")), Ok(Some(vec![])));
    assert_eq!(load_env_bytes("D", &None), Ok(None));
    for broken in ["123", "zz", "é0", "é00", "0x12", " 12"] {
        assert_eq!(
            load_env_bytes("D", &text(broken)),
            Err(SwitchboardError::EnvVariableMissing("D".to_string()))
        );
    }
}

#[test]
fn optional_env_address_is_absent_or_readable() {
    assert_eq!(load_env_optional_pubkey("K", &None), Ok(Pubkey::default()));
    assert_eq!(load_env_optional_pubkey("K", &text(REQUEST)), Ok(parsed(REQUEST)));
    for broken in ["", "not an address", "abc", "0", "Sysvar1nstructions111111111111111111111111"] {
        assert_eq!(
            load_env_optional_pubkey("K", &text(broken)),
            Err(SwitchboardError::EnvVariableMissing("K".to_string()))
        );
    }
}

#[test]
fn signer_is_made_from_the_seed() {
    let signer = generate_signer(&SEED);
    let expected = solana_sdk::signer::keypair::keypair_from_seed(&SEED).unwrap();
    let address = signer_to_pubkey(&signer).unwrap();
    assert_eq!(address.bytes, solana_sdk::signer::Signer::pubkey(&expected).to_bytes());
    let other = signer_to_pubkey(&generate_signer(&[8u8; 32])).unwrap();
    assert!(other != address);
    assert_ne!(address.bytes, SEED);
}

#[test]
fn runner_reads_its_environment() {
    let runner = FunctionRunner::new_with_client(&SEED, &env(None)).unwrap();
    assert_eq!(runner.function.bytes, ATTESTATION_PROGRAM_ID);
    assert!(runner.payer == parsed(PAYER));
    assert!(runner.verifier == parsed(VERIFIER));
    assert!(runner.reward_receiver == parsed(RECEIVER));
    assert!(runner.fn_request_key == Pubkey::default());
    assert!(!runner.is_request());
    assert_eq!(runner.function_data, FunctionAccountData::default());
    assert_eq!(runner.fn_request_data, FunctionRequestAccountData::default());
    let expected = solana_sdk::signer::keypair::keypair_from_seed(&SEED).unwrap();
    assert_eq!(runner.signer.bytes, solana_sdk::signer::Signer::pubkey(&expected).to_bytes());

    let mut full = env(Some(REQUEST));
    full.function_data = Some(hex::encode(&function_data().encode()[8..]));
    full.function_request_data = Some(hex::encode(&request_data().encode()[8..]));
    let runner = FunctionRunner::new_with_client(&SEED, &full).unwrap();
    assert!(runner.is_request());
    assert!(runner.fn_request_key == parsed(REQUEST));
    assert_eq!(runner.function_data, function_data());
    assert_eq!(runner.fn_request_data, request_data());

}

#[test]
fn runner_never_replaces_a_value_that_cannot_be_read() {
    let missing = |e: RunnerEnv| match FunctionRunner::new_with_client(&SEED, &e) {
        Err(SwitchboardError::EnvVariableMissing(name)) => name,
        Err(other) => panic!("unexpected failure {:?}", other),
        Ok(_) => panic!("a runner on a value that cannot be read"),
    };
    // a request key that is set must denote an address
    assert_eq!(missing(env(Some("not an address"))), "FUNCTION_REQUEST_KEY");
    assert_eq!(missing(env(Some(""))), "FUNCTION_REQUEST_KEY");
    // a record that is set must be hexadecimal, of the right length, and readable
    let mut e = env(None);
    e.function_data = text("xyz");
    assert_eq!(missing(e), "FUNCTION_DATA");
    let mut e = env(None);
    e.function_data = Some(hex::encode(function_data().encode()));
    assert_eq!(missing(e), "FUNCTION_DATA");
    let mut e = env(None);
    e.function_data = text("");
    assert_eq!(missing(e), "FUNCTION_DATA");
    let mut e = env(None);
    e.function_request_data = Some(hex::encode(&request_data().encode()[9..]));
    assert_eq!(missing(e), "FUNCTION_REQUEST_DATA");
    let mut e = env(None);
    let mut bad_flag = request_data().encode()[8..].to_vec();
    bad_flag[96] = 7;
    e.function_request_data = Some(hex::encode(bad_flag));
    assert_eq!(missing(e), "FUNCTION_REQUEST_DATA");
    // the variables are looked at in their order
    let mut e = env(Some("not an address"));
    e.function_data = text("xyz");
    e.function_request_data = text("xyz");
    e.payer = None;
    assert_eq!(missing(e), "FUNCTION_DATA");
    let mut e = env(Some("not an address"));
    e.function_request_data = text("xyz");
    e.payer = None;
    assert_eq!(missing(e), "FUNCTION_REQUEST_KEY");
    let mut e = env(None);
    e.function_request_data = text("xyz");
    e.payer = None;
    assert_eq!(missing(e), "FUNCTION_REQUEST_DATA");
    let mut e = env(None);
    e.function_key = None;
    e.function_data = text("xyz");
    assert_eq!(missing(e), "FUNCTION_KEY");
}

#[test]
fn runner_names_the_first_missing_variable() {
    let missing = |e: RunnerEnv| match FunctionRunner::new_with_client(&SEED, &e) {
        Err(SwitchboardError::EnvVariableMissing(name)) => name,
        Err(other) => panic!("unexpected failure {:?}", other),
        Ok(_) => panic!("a runner without its environment"),
    };
    let mut e = env(None);
    e.reward_receiver = None;
    assert_eq!(missing(e), "REWARD_RECEIVER");
    let mut e = env(None);
    e.verifier = text("garbage");
    e.reward_receiver = None;
    assert_eq!(missing(e), "VERIFIER");
    let mut e = env(None);
    e.payer = None;
    e.verifier = None;
    assert_eq!(missing(e), "PAYER");
    let mut e = env(None);
    e.function_key = None;
    e.payer = None;
    assert_eq!(missing(e), "FUNCTION_KEY");
}

#[test]
fn quote_measurement_is_read_at_its_place() {
    let quote = quote_with(MR);
    assert_eq!(quote.len(), 1020);
    assert_eq!(quote_mr_enclave(&quote), Some(MR));
    let mut other = quote.clone();
    other[112] = 1;
    other[143] = 2;
    let mut expected = MR;
    expected[0] = 1;
    expected[31] = 2;
    assert_eq!(quote_mr_enclave(&other), Some(expected));
    assert_eq!(quote_mr_enclave(&quote[..1019]), None);
    assert_eq!(quote_mr_enclave(&[]), None);
    let mut trailing = quote.clone();
    trailing.push(0);
    assert_eq!(quote_mr_enclave(&trailing), None);
    let parsed = sgx_quote::Quote::parse(&quote).unwrap();
    assert_eq!(parsed.isv_report.mrenclave, &MR[..]);
}

#[test]
fn function_level_operation_is_built_from_the_fetched_records() {
    let runner = FunctionRunner::new_with_client(&SEED, &env(None)).unwrap();
    let state = fetched(None);
    let ix = runner
        .build_fn_verify_ixn(MR, 1_700_000_000, &state.function, &state.verifier, &state.queue)
        .unwrap();
    let permission =
        AttestationPermissionAccountData::get_pda(&key(40), &key(12), &runner.verifier).unwrap();
    assert!(ix.program_id == attestation_program_id());
    assert_eq!(
        ix.accounts,
        vec![
            AccountMeta::new(runner.function, false),
            AccountMeta::new_readonly(runner.signer, true),
            AccountMeta::new_readonly(runner.verifier, false),
            AccountMeta::new_readonly(key(30), true),
            AccountMeta::new_readonly(permission, false),
            AccountMeta::new_readonly(key(10), false),
            AccountMeta::new(key(11), false),
            AccountMeta::new(runner.reward_receiver, false),
            AccountMeta::new_readonly(key(12), false),
            AccountMeta::new_readonly(token_program_id(), false),
        ]
    );
    let mut data = FUNCTION_VERIFY_TAG.to_vec();
    data.extend_from_slice(&1_700_000_000i64.to_le_bytes());
    data.extend_from_slice(&1_700_000_600i64.to_le_bytes());
    data.push(0);
    data.extend_from_slice(&MR);
    assert_eq!(ix.data, data);

    // the time named for the next run is one interval after the time of the run
    let ix = runner
        .build_fn_verify_ixn(MR, 5, &state.function, &state.verifier, &state.queue)
        .unwrap();
    assert_eq!(&ix.data[8..16], &5i64.to_le_bytes());
    assert_eq!(&ix.data[16..24], &605i64.to_le_bytes());
    let mut unscheduled = state.function;
    unscheduled.schedule_interval = 0;
    let ix = runner
        .build_fn_verify_ixn(MR, 5, &unscheduled, &state.verifier, &state.queue)
        .unwrap();
    assert_eq!(&ix.data[16..24], &i64::MAX.to_le_bytes());
}

#[test]
fn request_level_operation_is_built_from_the_fetched_records() {
    let runner = FunctionRunner::new_with_client(&SEED, &env(Some(REQUEST))).unwrap();
    let state = fetched(Some(request_data()));
    let ix = runner
        .build_fn_request_verify_ixn(
            MR,
            77,
            &request_data(),
            &state.function,
            &state.verifier,
            &state.queue,
        )
        .unwrap();
    let permission =
        AttestationPermissionAccountData::get_pda(&key(40), &key(12), &runner.verifier).unwrap();
    let (state_key, _) = find(&STATE_SEED, &vec![], &attestation_program_id()).unwrap();
    assert_eq!(
        ix.accounts,
        vec![
            AccountMeta::new(parsed(REQUEST), false),
            AccountMeta::new_readonly(runner.signer, true),
            AccountMeta::new(key(20), false),
            AccountMeta::new(runner.function, false),
            AccountMeta::new(key(11), false),
            AccountMeta::new_readonly(runner.verifier, false),
            AccountMeta::new_readonly(key(30), true),
            AccountMeta::new_readonly(permission, false),
            AccountMeta::new_readonly(state_key, false),
            AccountMeta::new_readonly(key(12), false),
            AccountMeta::new(runner.reward_receiver, false),
            AccountMeta::new_readonly(token_program_id(), false),
        ]
    );
    let mut data = FUNCTION_REQUEST_VERIFY_TAG.to_vec();
    data.extend_from_slice(&77i64.to_le_bytes());
    data.push(0);
    data.extend_from_slice(&MR);
    data.extend_from_slice(&4242u64.to_le_bytes());
    data.extend_from_slice(&[3u8; 32]);
    assert_eq!(ix.data, data);

    let mut foreign = request_data();
    foreign.function = key(99);
    assert_eq!(
        runner.build_fn_request_verify_ixn(
            MR,
            77,
            &foreign,
            &state.function,
            &state.verifier,
            &state.queue
        ),
        Err(SwitchboardError::RecordNotFound)
    );
}

#[test]
fn one_run_builds_one_kind_of_operation() {
    let with_request = FunctionRunner::new_with_client(&SEED, &env(Some(REQUEST))).unwrap();
    let state = fetched(Some(request_data()));
    let ix = with_request.build_verify_ixn(MR, 1, &state).unwrap();
    assert_eq!(&ix.data[..8], &FUNCTION_REQUEST_VERIFY_TAG);
    assert_eq!(ix.accounts.len(), 12);
    assert_ne!(&ix.data[..8], &FUNCTION_VERIFY_TAG);
    // a run that serves a request builds nothing without the request
    assert_eq!(
        with_request.build_verify_ixn(MR, 1, &fetched(None)),
        Err(SwitchboardError::RecordNotFound)
    );

    let without = FunctionRunner::new_with_client(&SEED, &env(None)).unwrap();
    let ix = without.build_verify_ixn(MR, 1, &state).unwrap();
    assert_eq!(&ix.data[..8], &FUNCTION_VERIFY_TAG);
    assert_eq!(ix.accounts.len(), 10);
    let same = without.build_verify_ixn(MR, 1, &fetched(None)).unwrap();
    assert_eq!(same, ix);
}

#[test]
fn bundle_puts_the_verify_operation_first() {
    let verify = Instruction::new_with_bytes(key(1), &[9], vec![]);
    let a = user_instruction();
    let b = Instruction::new_with_bytes(key(2), &[], vec![AccountMeta::new(key(3), true)]);
    let bundle = assemble_bundle(verify.clone(), vec![a.clone(), b.clone()]);
    assert_eq!(bundle, vec![verify.clone(), a, b]);
    assert_eq!(assemble_bundle(verify.clone(), vec![]), vec![verify]);
}

fn wide_key(n: u16) -> Pubkey {
    let mut bytes = [0xEEu8; 32];
    bytes[0] = (n >> 8) as u8;
    bytes[1] = (n & 0xff) as u8;
    Pubkey::new_from_array(bytes)
}

fn listing(program: Pubkey, keys: std::ops::Range<u16>, sign: bool) -> Instruction {
    let metas: Vec<AccountMeta> = keys.map(|n| AccountMeta::new(wide_key(n), sign)).collect();
    Instruction::new_with_bytes(program, &[], metas)
}

#[test]
fn bundle_size_counts_distinct_addresses() {
    let payer = key(200);
    assert!(check_fits_message(&vec![], &payer));
    assert!(check_fits_message(&vec![user_instruction()], &payer));
    // an address that is named many times takes one place
    let many: Vec<Instruction> = (0..1000).map(|_| user_instruction()).collect();
    assert!(check_fits_message(&many, &payer));
    // the payer, one program and 254 others make 256 addresses
    assert!(check_fits_message(&vec![listing(key(1), 0..254, false)], &payer));
    assert!(!check_fits_message(&vec![listing(key(1), 0..255, false)], &payer));
    // the same addresses spread over several operations count the same
    let spread = vec![listing(key(1), 0..100, false), listing(key(1), 50..254, false)];
    assert!(check_fits_message(&spread, &payer));
    let spread = vec![listing(key(1), 0..100, false), listing(key(2), 50..254, false)];
    assert!(!check_fits_message(&spread, &payer));
    // a payer or a program that is listed as well takes no place of its own
    let mut with_payer = listing(payer, 0..254, false);
    with_payer.accounts.push(AccountMeta::new(payer, false));
    with_payer.accounts.push(AccountMeta::new(wide_key(254), false));
    assert!(check_fits_message(&vec![with_payer], &payer));
    // no more than 255 addresses can sign, the payer among them
    assert!(check_fits_message(&vec![listing(payer, 0..254, true)], &payer));
    assert!(!check_fits_message(&vec![listing(payer, 0..255, true)], &payer));
    assert!(check_fits_message(&vec![listing(payer, 0..255, false)], &payer));
    // an address signs if one of its entries does
    let mixed = vec![listing(payer, 0..255, false), listing(payer, 0..254, true)];
    assert!(check_fits_message(&mixed, &payer));
    let mixed = vec![listing(payer, 0..255, false), listing(payer, 0..255, true)];
    assert!(!check_fits_message(&mixed, &payer));
}

#[test]
fn bundle_lists_have_their_own_limits() {
    let payer = key(200);
    let data = |n: usize| vec![Instruction::new_with_bytes(key(1), &vec![0u8; n], vec![])];
    assert!(check_fits_message(&data(65535), &payer));
    assert!(!check_fits_message(&data(65536), &payer));
    let entries = |n: usize| {
        vec![Instruction::new_with_bytes(key(1), &[], vec![AccountMeta::new(key(2), false); n])]
    };
    assert!(check_fits_message(&entries(65535), &payer));
    assert!(!check_fits_message(&entries(65536), &payer));
    let empty = Instruction::new_with_bytes(key(1), &[], vec![]);
    assert!(check_fits_message(&vec![empty.clone(); 65535], &payer));
    assert!(!check_fits_message(&vec![empty; 65536], &payer));
}

#[test]
fn many_operations_on_the_same_records_are_signed() {
    let runner = FunctionRunner::new_with_client(&SEED, &env(None)).unwrap();
    let many: Vec<Instruction> = (0..128).map(|_| user_instruction()).collect();
    let result = runner.get_result(many, quote_with(MR), 5, &fetched(None), &[1u8; 32]).unwrap();
    let ChainResultInfo::Solana(info) = &result.chain_result_info;
    let tx: solana_sdk::transaction::Transaction = bincode::deserialize(&info.serialized_tx).unwrap();
    assert_eq!(tx.message.instructions.len(), 129);
    assert_eq!(&tx.message.instructions[0].data[..8], &FUNCTION_VERIFY_TAG);
    assert_eq!(tx.message.instructions[128].data, vec![1, 2, 3]);
}

#[test]
fn bundle_is_signed_up_to_the_last_address() {
    let runner = FunctionRunner::new_with_client(&SEED, &env(None)).unwrap();
    let sign = |ixs: Vec<Instruction>| {
        runner.get_result(ixs, quote_with(MR), 5, &fetched(None), &[1u8; 32])
    };
    let decode = |result: switchboard_solana::function_runner::FunctionResult| {
        let ChainResultInfo::Solana(info) = result.chain_result_info;
        bincode::deserialize::<solana_sdk::transaction::Transaction>(&info.serialized_tx).unwrap()
    };
    let own = decode(sign(vec![]).unwrap()).message.account_keys.len() as u16;
    assert!(own < 20);
    // one more program and as many others as make 256 addresses in all
    let room = 256 - own - 1;
    let full = decode(sign(vec![listing(key(90), 0..room, false)]).unwrap());
    assert_eq!(full.message.account_keys.len(), 256);
    assert_eq!(full.message.instructions[1].accounts.len(), room as usize);
    let listed: Vec<[u8; 32]> = full.message.instructions[1]
        .accounts
        .iter()
        .map(|i| full.message.account_keys[*i as usize].to_bytes())
        .collect();
    let wanted: Vec<[u8; 32]> = (0..room).map(|n| wide_key(n).bytes).collect();
    assert_eq!(listed, wanted);
    assert_eq!(
        sign(vec![listing(key(90), 0..room + 1, false)]),
        Err(SwitchboardError::SerializationFailure)
    );
}

#[test]
fn result_carries_a_signed_transaction_with_the_verify_operation_first() {
    let runner = FunctionRunner::new_with_client(&SEED, &env(None)).unwrap();
    let quote = quote_with(MR);
    let blockhash = [0x77u8; 32];
    let result = runner
        .get_result(vec![user_instruction()], quote.clone(), 1_700_000_000, &fetched(None), &blockhash)
        .unwrap();
    assert_eq!(result.version, 1);
    assert_eq!(result.quote, quote);
    assert_eq!(result.fn_key, ATTESTATION_PROGRAM_ID.to_vec());
    assert_eq!(result.signer, runner.signer.bytes.to_vec());
    assert_eq!(result.fn_request_key, vec![0u8; 32]);
    assert!(result.fn_request_hash.is_empty());
    let ChainResultInfo::Solana(info) = &result.chain_result_info;
    let tx: solana_sdk::transaction::Transaction = bincode::deserialize(&info.serialized_tx).unwrap();
    assert_eq!(tx.message.recent_blockhash.to_bytes(), blockhash);
    assert_eq!(tx.message.account_keys[0].to_bytes(), runner.payer.bytes);
    assert_eq!(tx.message.instructions.len(), 2);
    let expected = runner.build_verify_ixn(MR, 1_700_000_000, &fetched(None)).unwrap();
    let first = &tx.message.instructions[0];
    assert_eq!(
        tx.message.account_keys[first.program_id_index as usize].to_bytes(),
        ATTESTATION_PROGRAM_ID
    );
    assert_eq!(first.data, expected.data);
    assert_eq!(&first.data[25..57], &MR);
    let listed: Vec<[u8; 32]> = first
        .accounts
        .iter()
        .map(|i| tx.message.account_keys[*i as usize].to_bytes())
        .collect();
    let wanted: Vec<[u8; 32]> = expected.accounts.iter().map(|m| m.pubkey.bytes).collect();
    assert_eq!(listed, wanted);
    let second = &tx.message.instructions[1];
    assert_eq!(tx.message.account_keys[second.program_id_index as usize].to_bytes(), [90u8; 32]);
    assert_eq!(second.data, vec![1, 2, 3]);
    // three signers are required: the payer, the key of the run, the verifier
    assert_eq!(tx.message.header.num_required_signatures, 3);
    assert_eq!(tx.signatures.len(), 3);
    let position = tx
        .message
        .account_keys
        .iter()
        .position(|k| k.to_bytes() == runner.signer.bytes)
        .unwrap();
    let signer = solana_sdk::pubkey::Pubkey::new_from_array(runner.signer.bytes);
    assert!(tx.signatures[position].verify(signer.as_ref(), &tx.message_data()));
    let unsigned =
        tx.signatures.iter().filter(|s| **s == solana_sdk::signature::Signature::default()).count();
    assert_eq!(unsigned, 2);
}

#[test]
fn result_of_a_request_run_names_the_request() {
    let runner = FunctionRunner::new_with_client(&SEED, &env(Some(REQUEST))).unwrap();
    let result = runner
        .get_result(vec![], quote_with(MR), 5, &fetched(Some(request_data())), &[1u8; 32])
        .unwrap();
    assert_eq!(result.fn_request_key, parsed(REQUEST).bytes.to_vec());
    let ChainResultInfo::Solana(info) = &result.chain_result_info;
    let tx: solana_sdk::transaction::Transaction = bincode::deserialize(&info.serialized_tx).unwrap();
    assert_eq!(tx.message.instructions.len(), 1);
    assert_eq!(&tx.message.instructions[0].data[..8], &FUNCTION_REQUEST_VERIFY_TAG);
    assert_eq!(tx.message.instructions[0].accounts.len(), 12);
}

#[test]
fn run_without_a_result_on_any_failure() {
    let runner = FunctionRunner::new_with_client(&SEED, &env(Some(REQUEST))).unwrap();
    let state = fetched(Some(request_data()));
    let mut bad_quote = quote_with(MR);
    bad_quote.truncate(400);
    assert_eq!(
        runner.get_result(vec![], bad_quote, 5, &state, &[1u8; 32]),
        Err(SwitchboardError::SerializationFailure)
    );
    assert_eq!(
        runner.get_result(vec![], quote_with(MR), 5, &fetched(None), &[1u8; 32]),
        Err(SwitchboardError::RecordNotFound)
    );
    let too_many = vec![listing(key(90), 0..250, false)];
    assert_eq!(
        runner.get_result(too_many, quote_with(MR), 5, &state, &[1u8; 32]),
        Err(SwitchboardError::SerializationFailure)
    );
    let too_long = vec![Instruction::new_with_bytes(key(90), &vec![0u8; 65536], vec![])];
    assert_eq!(
        runner.get_result(too_long, quote_with(MR), 5, &state, &[1u8; 32]),
        Err(SwitchboardError::SerializationFailure)
    );
    let longest = vec![Instruction::new_with_bytes(key(90), &vec![0u8; 65535], vec![])];
    assert!(runner.get_result(longest, quote_with(MR), 5, &state, &[1u8; 32]).is_ok());
}

#[test]
fn only_the_key_of_the_run_can_sign_for_it() {
    // a runner whose address is not that of its key cannot sign its bundle
    let stranger = FunctionRunner::from_parts(generate_signer(&SEED), key(1), &env(None));
    let stranger = stranger.unwrap();
    assert_eq!(
        stranger.get_result(vec![], quote_with(MR), 5, &fetched(None), &[1u8; 32]),
        Err(SwitchboardError::SerializationFailure)
    );
    // unless its key pays, or an operation of the function lists it as a signer
    let own = signer_to_pubkey(&generate_signer(&SEED)).unwrap();
    let listed = Instruction::new_with_bytes(key(2), &[], vec![AccountMeta::new(own, true)]);
    assert!(stranger.get_result(vec![listed], quote_with(MR), 5, &fetched(None), &[1u8; 32]).is_ok());
    let unlisted = Instruction::new_with_bytes(key(2), &[], vec![AccountMeta::new(own, false)]);
    assert!(stranger
        .get_result(vec![unlisted], quote_with(MR), 5, &fetched(None), &[1u8; 32])
        .is_err());
    let mut paying = FunctionRunner::from_parts(generate_signer(&SEED), key(1), &env(None))
        .unwrap();
    paying.payer = own;
    assert!(paying.get_result(vec![], quote_with(MR), 5, &fetched(None), &[1u8; 32]).is_ok());
}

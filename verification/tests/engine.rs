use switchboard_solana::address::find;
use switchboard_solana::constants::{attestation_program_id, QUOTE_SEED};
use switchboard_solana::engine::{
    check_permission, compute_deadline, verify, FunctionSubject, PermissionState, QueueState,
    QuoteClaim, RequestSubject, Settlement, Subject,
};
use switchboard_solana::error::SwitchboardError;
use switchboard_solana::function::FunctionAccountData;
use switchboard_solana::function_request::FunctionRequestAccountData;
use switchboard_solana::permission::AttestationPermissionAccountData;
use switchboard_solana::pubkey::Pubkey;
use switchboard_solana::queue::AttestationQueueAccountData;
use switchboard_solana::quote::QuoteAccountData;
use switchboard_solana::verifier_record::VerifierAccountData;

const M1: [u8; 32] = [0x11; 32];
const M2: [u8; 32] = [0x22; 32];
const T: i64 = 1_700_000_000;
const TTL: i64 = 3600;
const REWARD: u32 = 5000;

fn key(n: u8) -> Pubkey {
    Pubkey::new_from_array([n; 32])
}

const FUNCTION: u8 = 1;
const QUEUE: u8 = 2;
const AUTHORITY: u8 = 3;
const VERIFIER: u8 = 4;
const RECEIVER: u8 = 5;
const ESCROW: u8 = 6;
const REQUEST: u8 = 7;
const REQUEST_ESCROW: u8 = 8;

fn queue_state() -> QueueState {
    let mut record =
        AttestationQueueAccountData::create(key(AUTHORITY), [0u8; 1024], 0, REWARD, TTL, 60);
    assert!(record.add_mr_enclave(&M1));
    QueueState { key: key(QUEUE), record }
}

fn permission_state(last_heartbeat: i64) -> PermissionState {
    PermissionState {
        verifier_key: key(VERIFIER),
        verifier: VerifierAccountData::create(
            key(40),
            [0x33; 32],
            4,
            0,
            i64::MAX,
            key(QUEUE),
            true,
            last_heartbeat,
            key(41),
        ),
        permission: AttestationPermissionAccountData::create(
            key(AUTHORITY),
            1,
            key(QUEUE),
            key(VERIFIER),
            0,
            255,
        ),
        receiver: key(RECEIVER),
    }
}

fn function_subject(next_allowed: i64, claimed_next: i64) -> Subject {
    Subject::Function(FunctionSubject {
        key: key(FUNCTION),
        record: FunctionAccountData::create(
            [0u8; 32],
            key(60),
            key(ESCROW),
            key(QUEUE),
            60,
            next_allowed,
        ),
        next_allowed_timestamp: claimed_next,
    })
}

fn request_subject(claimed_slot: u64, claimed_hash: [u8; 32]) -> Subject {
    Subject::Request(RequestSubject {
        key: key(REQUEST),
        record: FunctionRequestAccountData::create(
            key(FUNCTION),
            key(REQUEST_ESCROW),
            key(70),
            true,
            900,
            [0x44; 32],
            2000,
        ),
        request_slot: claimed_slot,
        container_params_hash: claimed_hash,
    })
}

fn stored_quote(mr_enclave: [u8; 32]) -> (Pubkey, QuoteAccountData) {
    let (address, bump) = find(&QUOTE_SEED, &vec![key(FUNCTION)], &attestation_program_id()).unwrap();
    (address, QuoteAccountData::create(bump, key(QUEUE), mr_enclave, key(80), 1))
}

fn claim(mr_enclave: [u8; 32], is_failure: bool) -> QuoteClaim {
    let (address, record) = stored_quote(mr_enclave);
    QuoteClaim { key: address, data: record.encode(), is_failure }
}

#[test]
fn accepted_claim_marks_the_quote_and_pays_the_reward() {
    let subject = function_subject(T, T + 60);
    let outcome =
        verify(&subject, &claim(M1, false), &queue_state(), &permission_state(T - 10), T).unwrap();
    let (_, before) = stored_quote(M1);
    let mut expected = before;
    expected.verification_status = 4;
    expected.verification_timestamp = T;
    expected.valid_until = T + TTL;
    assert_eq!(outcome.quote, expected);
    assert!(outcome.quote.is_verified(T));
    assert!(outcome.quote.is_verified(T + TTL - 1));
    assert!(!outcome.quote.is_verified(T + TTL));
    assert_eq!(
        outcome.settlement,
        Settlement { source: key(ESCROW), receiver: key(RECEIVER), amount: 5000 }
    );
    assert_eq!(outcome.subject, function_subject(T + 60, T + 60));
}

#[test]
fn unknown_measurement_is_refused() {
    let subject = function_subject(T, T + 60);
    let presented = claim(M2, false);
    let before = presented.clone();
    let r = verify(&subject, &presented, &queue_state(), &permission_state(T - 10), T);
    assert_eq!(r, Err(SwitchboardError::StaleOrUnknownMeasurement));
    // nothing was changed: the stored quote is as it was, with no flag set
    assert_eq!(presented, before);
    assert_eq!(QuoteAccountData::new_from_bytes(&presented.data).unwrap().verification_status, 0);
    // the same claim with the listed measurement is accepted
    assert!(verify(&subject, &claim(M1, false), &queue_state(), &permission_state(T - 10), T).is_ok());
}

#[test]
fn schedule_gates_the_function() {
    let subject = function_subject(T, T + 60);
    let queue = queue_state();
    let permission = permission_state(T - 10);
    assert_eq!(
        verify(&subject, &claim(M1, false), &queue, &permission, T - 1),
        Err(SwitchboardError::ScheduleNotElapsed)
    );
    let outcome = verify(&subject, &claim(M1, false), &queue, &permission, T).unwrap();
    match outcome.subject {
        Subject::Function(f) => assert_eq!(f.record.next_allowed_timestamp, T + 60),
        Subject::Request(_) => panic!("a function stays a function"),
    }
    // a second claim at the same time finds the function not due
    assert_eq!(
        verify(&outcome.subject, &claim(M1, false), &queue, &permission, T),
        Err(SwitchboardError::ScheduleNotElapsed)
    );
    // the advanced schedule gates the next run in turn
    let later = permission_state(T + 30);
    let next = function_subject(T + 60, T + 120);
    assert_eq!(
        verify(&next, &claim(M1, false), &queue, &later, T + 59),
        Err(SwitchboardError::ScheduleNotElapsed)
    );
    let outcome = verify(&next, &claim(M1, false), &queue, &later, T + 60).unwrap();
    assert_eq!(outcome.subject, function_subject(T + 120, T + 120));
}

#[test]
fn schedule_moves_past_now_with_every_accepted_claim() {
    let queue = queue_state();
    let permission = permission_state(T);
    let next_allowed = |outcome: Subject| match outcome {
        Subject::Function(f) => f.record.next_allowed_timestamp,
        Subject::Request(_) => panic!("a function stays a function"),
    };
    // a claim that names no later time for the next run is refused
    for claimed in [i64::MIN, T - 500, T, T + 5] {
        assert_eq!(
            verify(&function_subject(T, claimed), &claim(M1, false), &queue, &permission, T + 5),
            Err(SwitchboardError::ScheduleNotElapsed)
        );
    }
    // an accepted claim moves the schedule one interval past now
    for claimed in [T + 6, T + 60, i64::MAX] {
        let subject = function_subject(T, claimed);
        let outcome = verify(&subject, &claim(M1, false), &queue, &permission, T + 5).unwrap();
        assert_eq!(next_allowed(outcome.subject), T + 65);
    }
    // a function on no schedule may run again a second later
    let unscheduled = Subject::Function(FunctionSubject {
        key: key(FUNCTION),
        record: FunctionAccountData::create([0u8; 32], key(60), key(ESCROW), key(QUEUE), 0, T),
        next_allowed_timestamp: i64::MAX,
    });
    let outcome = verify(&unscheduled, &claim(M1, false), &queue, &permission, T).unwrap();
    assert_eq!(next_allowed(outcome.subject), T + 1);
    assert_eq!(
        verify(&outcome.subject, &claim(M1, false), &queue, &permission, T),
        Err(SwitchboardError::ScheduleNotElapsed)
    );
    assert!(verify(&outcome.subject, &claim(M1, false), &queue, &permission, T + 1).is_ok());
    // at the end of time no later run can be named
    let last = permission_state(i64::MAX);
    assert_eq!(
        verify(&function_subject(T, i64::MAX), &claim(M1, false), &queue, &last, i64::MAX),
        Err(SwitchboardError::ScheduleNotElapsed)
    );
    let outcome =
        verify(&function_subject(T, i64::MAX), &claim(M1, false), &queue, &last, i64::MAX - 1);
    assert_eq!(next_allowed(outcome.unwrap().subject), i64::MAX);
}

#[test]
fn verifying_twice_succeeds_twice_and_pays_once_each() {
    let queue = queue_state();
    let permission = permission_state(T);
    let subject = function_subject(T, T + 60);
    let first_claim = claim(M1, false);
    let first = verify(&subject, &first_claim, &queue, &permission, T).unwrap();
    assert_eq!(first.quote.verification_status, 4);
    assert_eq!(first.settlement.amount, 5000);
    // the same inputs give the same answer
    assert_eq!(verify(&subject, &first_claim, &queue, &permission, T), Ok(first));
    // the quote as the first operation left it is accepted again
    let second_claim =
        QuoteClaim { key: first_claim.key, data: first.quote.encode(), is_failure: false };
    let again = match first.subject {
        Subject::Function(f) => {
            Subject::Function(FunctionSubject { next_allowed_timestamp: T + 120, ..f })
        }
        Subject::Request(_) => panic!("a function stays a function"),
    };
    let second = verify(&again, &second_claim, &queue, &permission, T + 60).unwrap();
    assert_eq!(second.quote.verification_status, 4);
    assert_eq!(second.quote.verification_timestamp, T + 60);
    assert_eq!(second.quote.valid_until, T + 60 + TTL);
    assert_eq!(second.quote.mr_enclave, M1);
    assert_eq!(second.settlement, first.settlement);
    assert_eq!(first.settlement.amount + second.settlement.amount, 10000);
}

#[test]
fn reported_failure_is_marked_and_earns_nothing() {
    let subject = function_subject(T, T + 60);
    let outcome =
        verify(&subject, &claim(M1, true), &queue_state(), &permission_state(T), T).unwrap();
    assert_eq!(outcome.quote.verification_status, 2);
    assert_eq!(outcome.quote.verification_timestamp, T);
    assert_eq!(outcome.quote.valid_until, T);
    assert!(!outcome.quote.is_verified(T - 1));
    assert_eq!(outcome.settlement.amount, 0);
    assert_eq!(outcome.subject, function_subject(T + 60, T + 60));
}

#[test]
fn status_flags_are_replaced_but_the_override_stays() {
    let (address, mut record) = stored_quote(M1);
    record.verification_status = 1 | 2 | 8;
    let presented = QuoteClaim { key: address, data: record.encode(), is_failure: false };
    let subject = function_subject(T, T + 60);
    let outcome = verify(&subject, &presented, &queue_state(), &permission_state(T), T).unwrap();
    assert_eq!(outcome.quote.verification_status, 4 | 8);
    let failed = QuoteClaim { key: address, data: outcome.quote.encode(), is_failure: true };
    let outcome = verify(&subject, &failed, &queue_state(), &permission_state(T), T).unwrap();
    assert_eq!(outcome.quote.verification_status, 2 | 8);
    assert!(outcome.quote.is_verified(T + 1_000_000));
}

#[test]
fn quote_of_another_type_is_refused_first() {
    let subject = function_subject(T, T + 60);
    let mut presented = claim(M2, false);
    presented.data[3] ^= 0xff;
    presented.key = key(99);
    assert_eq!(
        verify(&subject, &presented, &queue_state(), &permission_state(0), T - 1),
        Err(SwitchboardError::RecordTypeMismatch)
    );
    let empty = QuoteClaim { key: key(1), data: vec![], is_failure: false };
    assert_eq!(
        verify(&subject, &empty, &queue_state(), &permission_state(T), T),
        Err(SwitchboardError::RecordTypeMismatch)
    );
}

#[test]
fn unreadable_quote_is_a_serialization_failure() {
    let subject = function_subject(T, T + 60);
    let mut truncated = claim(M1, false);
    truncated.data.truncate(500);
    assert_eq!(
        verify(&subject, &truncated, &queue_state(), &permission_state(T), T),
        Err(SwitchboardError::SerializationFailure)
    );
    let (address, mut record) = stored_quote(M1);
    record.verification_status = 16;
    let unknown_bits = QuoteClaim { key: address, data: record.encode(), is_failure: false };
    assert_eq!(
        verify(&subject, &unknown_bits, &queue_state(), &permission_state(T), T),
        Err(SwitchboardError::SerializationFailure)
    );
}

#[test]
fn address_must_follow_from_seeds_and_bump() {
    let subject = function_subject(T, T + 60);
    let mut elsewhere = claim(M1, false);
    elsewhere.key = key(99);
    assert_eq!(
        verify(&subject, &elsewhere, &queue_state(), &permission_state(T), T),
        Err(SwitchboardError::AddressDerivationFailure)
    );
    let (address, mut record) = stored_quote(M1);
    record.bump = record.bump.wrapping_sub(1);
    let wrong_bump = QuoteClaim { key: address, data: record.encode(), is_failure: false };
    assert_eq!(
        verify(&subject, &wrong_bump, &queue_state(), &permission_state(T), T),
        Err(SwitchboardError::AddressDerivationFailure)
    );
    // the quote of one function is not the quote of another
    let other = Subject::Function(FunctionSubject {
        key: key(50),
        record: FunctionAccountData::create([0u8; 32], key(60), key(ESCROW), key(QUEUE), 60, T),
        next_allowed_timestamp: T + 60,
    });
    assert_eq!(
        verify(&other, &claim(M1, false), &queue_state(), &permission_state(T), T),
        Err(SwitchboardError::AddressDerivationFailure)
    );
}

#[test]
fn verifier_needs_permission_membership_and_a_fresh_heartbeat() {
    let subject = function_subject(T, T + 60);
    let queue = queue_state();
    let presented = claim(M1, false);
    // the heartbeat may be as old as the queue allows, and no older
    assert!(verify(&subject, &presented, &queue, &permission_state(T - 60), T).is_ok());
    assert_eq!(
        verify(&subject, &presented, &queue, &permission_state(T - 61), T),
        Err(SwitchboardError::PermissionDenied)
    );
    assert!(check_permission(&queue, &permission_state(T - 60), T));
    assert!(!check_permission(&queue, &permission_state(T - 61), T));
    assert!(!check_permission(&queue, &permission_state(i64::MIN), i64::MAX));
    let mut off_queue = permission_state(T);
    off_queue.verifier.is_on_queue = false;
    assert_eq!(
        verify(&subject, &presented, &queue, &off_queue, T),
        Err(SwitchboardError::PermissionDenied)
    );
    let mut no_flag = permission_state(T);
    no_flag.permission.permissions = 2;
    assert_eq!(
        verify(&subject, &presented, &queue, &no_flag, T),
        Err(SwitchboardError::PermissionDenied)
    );
    let mut other_grantee = permission_state(T);
    other_grantee.permission.grantee = key(99);
    assert!(!check_permission(&queue, &other_grantee, T));
    let mut other_queue = permission_state(T);
    other_queue.permission.granter = key(99);
    assert!(!check_permission(&queue, &other_queue, T));
    let mut other_authority = permission_state(T);
    other_authority.permission.authority = key(99);
    assert!(!check_permission(&queue, &other_authority, T));
    let mut member_elsewhere = permission_state(T);
    member_elsewhere.verifier.attestation_queue = key(99);
    assert!(!check_permission(&queue, &member_elsewhere, T));
    let mut expired = permission_state(T);
    expired.permission.expiration = T;
    assert!(!check_permission(&queue, &expired, T));
    assert!(check_permission(&queue, &expired, T - 1));
    // the denial comes before the measurement is looked at
    assert_eq!(
        verify(&subject, &claim(M2, false), &queue, &off_queue, T),
        Err(SwitchboardError::PermissionDenied)
    );
}

#[test]
fn request_must_be_the_open_one() {
    let queue = queue_state();
    let permission = permission_state(T);
    let presented = claim(M1, false);
    let open = request_subject(900, [0x44; 32]);
    let outcome = verify(&open, &presented, &queue, &permission, T).unwrap();
    assert_eq!(
        outcome.settlement,
        Settlement { source: key(REQUEST_ESCROW), receiver: key(RECEIVER), amount: 5000 }
    );
    assert_eq!(outcome.quote.verification_status, 4);
    // the open request is used up: the record is as it was but for that
    let settled = match (open, outcome.subject) {
        (Subject::Request(before), Subject::Request(after)) => {
            assert!(before.record.is_active);
            assert!(!after.record.is_active);
            let mut expected = before;
            expected.record.is_active = false;
            assert_eq!(after, expected);
            Subject::Request(after)
        }
        _ => panic!("a request stays a request"),
    };
    // so a second identical claim is refused, now and at any later time
    assert_eq!(
        verify(&settled, &presented, &queue, &permission, T),
        Err(SwitchboardError::RecordNotFound)
    );
    assert_eq!(
        verify(&settled, &presented, &queue, &permission_state(T + 100), T + 100),
        Err(SwitchboardError::RecordNotFound)
    );
    // a run that reports failure uses the request up as well
    let failed = verify(&open, &claim(M1, true), &queue, &permission, T).unwrap();
    assert_eq!(failed.subject, settled);
    assert_eq!(failed.settlement.amount, 0);
    assert_eq!(
        verify(&request_subject(901, [0x44; 32]), &presented, &queue, &permission, T),
        Err(SwitchboardError::RecordNotFound)
    );
    assert_eq!(
        verify(&request_subject(900, [0x45; 32]), &presented, &queue, &permission, T),
        Err(SwitchboardError::RecordNotFound)
    );
    // a request has no schedule to wait for
    let ancient = permission_state(-5);
    assert!(verify(&open, &presented, &queue, &ancient, 0).is_ok());
}

#[test]
fn deadline_saturates() {
    assert_eq!(compute_deadline(100, 50), 150);
    assert_eq!(compute_deadline(100, 0), 100);
    assert_eq!(compute_deadline(100, -5), 100);
    assert_eq!(compute_deadline(i64::MAX - 1, 5), i64::MAX);
    assert_eq!(compute_deadline(i64::MAX, i64::MAX), i64::MAX);
    assert_eq!(compute_deadline(-10, 4), -6);
    assert_eq!(compute_deadline(i64::MIN, i64::MAX), -1);
}

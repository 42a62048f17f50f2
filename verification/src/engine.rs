//! The verification engine: the rules by which an attestation claim is
//! accepted, and what an accepted claim changes. Every rule is checked
//! before anything is changed, so that a claim is taken whole or not at all.

use crate::address::derive_spec;
use crate::bytes::bytes_equal;
use crate::constants::{ATTESTATION_PROGRAM_ID, QUOTE_SEED};
use crate::error::SwitchboardError;
use crate::function::FunctionAccountData;
use crate::function_request::FunctionRequestAccountData;
use crate::permission::{AttestationPermissionAccountData, SwitchboardAttestationPermission};
use crate::pubkey::Pubkey;
use crate::queue::AttestationQueueAccountData;
use crate::quote::{lemma_quote_fields, lemma_quote_round_trip, QuoteAccountData};
use crate::status::{lemma_status_bits_round_trip, StatusFlags};
use crate::verifier_record::VerifierAccountData;
use vstd::prelude::*;

verus! {

/// A function whose run is to be verified, with what the claim says of it.
#[derive(Debug, Clone, Copy, PartialEq, Eq)]
pub struct FunctionSubject {
    /// The address of the function record.
    pub key: Pubkey,
    pub record: FunctionAccountData,
    /// The time that the claim names as the next allowed one.
    pub next_allowed_timestamp: i64,
}

/// A request whose run is to be verified, with what the claim says of it.
#[derive(Debug, Clone, Copy, PartialEq, Eq)]
pub struct RequestSubject {
    /// The address of the request record.
    pub key: Pubkey,
    pub record: FunctionRequestAccountData,
    /// The slot of the request that the claim says it served.
    pub request_slot: u64,
    /// The parameter hash that the claim says it was started with.
    pub container_params_hash: [u8; 32],
}

/// What is verified: the run of a function on its schedule, or one requested
/// run.
#[derive(Debug, Clone, Copy, PartialEq, Eq)]
pub enum Subject {
    Function(FunctionSubject),
    Request(RequestSubject),
}

/// The quote of the enclave that ran, as the claim presents it.
#[derive(Debug, Clone, PartialEq, Eq)]
pub struct QuoteClaim {
    /// The address at which the quote record is stored.
    pub key: Pubkey,
    /// The stored bytes of the quote record.
    pub data: Vec<u8>,
    /// Whether the enclave reports that its own run failed.
    pub is_failure: bool,
}

/// The queue against which the claim is checked.
#[derive(Debug, Clone, Copy, PartialEq, Eq)]
pub struct QueueState {
    /// The address of the queue record.
    pub key: Pubkey,
    pub record: AttestationQueueAccountData,
}

/// The verifying party: its record, its permission on the queue, and where
/// its reward goes.
#[derive(Debug, Clone, Copy, PartialEq, Eq)]
pub struct PermissionState {
    /// The address of the verifier record.
    pub verifier_key: Pubkey,
    pub verifier: VerifierAccountData,
    pub permission: AttestationPermissionAccountData,
    /// Where the verifier wants its reward.
    pub receiver: Pubkey,
}

/// A payment out of an escrow.
#[derive(Debug, Clone, Copy, PartialEq, Eq)]
pub struct Settlement {
    /// The token holding that pays.
    pub source: Pubkey,
    pub receiver: Pubkey,
    pub amount: u64,
}

/// What an accepted claim changes, all of it to be stored together.
#[derive(Debug, Clone, Copy, PartialEq, Eq)]
pub struct VerificationOutcome {
    /// The quote record as it is to be stored.
    pub quote: QuoteAccountData,
    /// The subject as it is to be stored.
    pub subject: Subject,
    /// The reward of the verifier; nothing for a run that reports failure.
    pub settlement: Settlement,
}

/// The deadline of a verification made at `now` that holds for `ttl`
/// seconds: never before `now`, never beyond the end of time.
pub open spec fn deadline(now: i64, ttl: i64) -> i64 {
    if ttl <= 0 {
        now
    } else if now + ttl > i64::MAX {
        i64::MAX
    } else {
        (now + ttl) as i64
    }
}

impl Subject {
    /// The function whose quote the claim presents: the function itself, or
    /// the function of the request.
    pub open spec fn function_key(self) -> Pubkey {
        match self {
            Subject::Function(f) => f.key,
            Subject::Request(r) => r.record.function,
        }
    }

    /// The token holding that pays the reward: the escrow of the function, or
    /// that of the request.
    pub open spec fn escrow(self) -> Pubkey {
        match self {
            Subject::Function(f) => f.record.escrow_token_wallet,
            Subject::Request(r) => r.record.escrow,
        }
    }

    /// Why the subject may not be verified at `now`, if it may not. A
    /// function is refused before its next allowed time, and where the claim
    /// names no time after `now` for its next run: such a claim was made for
    /// a run that is past. A request is refused where none is open, or where
    /// the slot or the parameter hash of the claim is not the stored one.
    pub open spec fn refusal(self, now: i64) -> Option<SwitchboardError> {
        match self {
            Subject::Function(f) => if now < f.record.next_allowed_timestamp
                || f.next_allowed_timestamp <= now {
                Some(SwitchboardError::ScheduleNotElapsed)
            } else {
                None
            },
            Subject::Request(r) => if !r.record.is_active || r.request_slot
                != r.record.request_slot || r.container_params_hash@
                != r.record.container_params_hash@ {
                Some(SwitchboardError::RecordNotFound)
            } else {
                None
            },
        }
    }

    /// The subject after a verification at `now`. The schedule of a function
    /// moves on: its next allowed time is one step of the function after
    /// `now`. The open request of a request record is used up: no request is
    /// open any more.
    pub open spec fn consumed(self, now: i64) -> Subject {
        match self {
            Subject::Function(f) => Subject::Function(
                FunctionSubject {
                    record: FunctionAccountData {
                        next_allowed_timestamp: f.record.advanced(now),
                        ..f.record
                    },
                    ..f
                },
            ),
            Subject::Request(r) => Subject::Request(
                RequestSubject {
                    record: FunctionRequestAccountData { is_active: false, ..r.record },
                    ..r
                },
            ),
        }
    }
}

/// Whether the verifying party may verify on the queue at `now`: its
/// permission record is the one of the queue for it, grants taking part and
/// has not run out; the verifier has joined this queue; and its last
/// heartbeat is no older than the queue allows.
pub open spec fn permission_holds(queue_state: QueueState, permission_state: PermissionState, now: i64)
    -> bool {
    &&& permission_state.permission.is_for(
        queue_state.record.authority,
        queue_state.key,
        permission_state.verifier_key,
    )
    &&& permission_state.permission.spec_has(SwitchboardAttestationPermission::PermitNodeheartbeat)
    &&& (permission_state.permission.expiration == 0 || now < permission_state.permission.expiration)
    &&& permission_state.verifier.is_on_queue
    &&& permission_state.verifier.attestation_queue@ == queue_state.key@
    &&& now - permission_state.verifier.last_heartbeat <= queue_state.record.verifier_timeout
}

/// The quote record after a verification at `now`: success set and failure
/// cleared, or the reverse for a run that reports failure; verified at
/// `now`; valid until the deadline, or no longer than `now` after a failure.
pub open spec fn verified_quote(
    record: QuoteAccountData,
    flags: StatusFlags,
    is_failure: bool,
    now: i64,
    ttl: i64,
) -> QuoteAccountData {
    QuoteAccountData {
        verification_status: (if is_failure {
            flags.with_failure_spec()
        } else {
            flags.with_success_spec()
        }).spec_bits() as u8,
        verification_timestamp: now,
        valid_until: if is_failure {
            now
        } else {
            deadline(now, ttl)
        },
        ..record
    }
}

/// What `verify` answers. The rules stand in the order in which they are
/// checked; the first that is broken gives the failure.
pub open spec fn verify_spec(
    subject: Subject,
    quote: QuoteClaim,
    queue_state: QueueState,
    permission_state: PermissionState,
    now: i64,
) -> Result<VerificationOutcome, SwitchboardError> {
    if !QuoteAccountData::has_tag(quote.data@) {
        Err(SwitchboardError::RecordTypeMismatch)
    } else if QuoteAccountData::parse(quote.data@) is None {
        Err(SwitchboardError::SerializationFailure)
    } else {
        let record = QuoteAccountData::parse(quote.data@)->0;
        if record.spec_status() is None {
            Err(SwitchboardError::SerializationFailure)
        } else if derive_spec(
            QUOTE_SEED@,
            seq![subject.function_key()],
            record.bump,
            ATTESTATION_PROGRAM_ID@,
        ) != Some(quote.key@) {
            Err(SwitchboardError::AddressDerivationFailure)
        } else if !permission_holds(queue_state, permission_state, now) {
            Err(SwitchboardError::PermissionDenied)
        } else if !queue_state.record.allows(record.mr_enclave@) {
            Err(SwitchboardError::StaleOrUnknownMeasurement)
        } else if subject.refusal(now) is Some {
            Err(subject.refusal(now)->0)
        } else {
            Ok(
                VerificationOutcome {
                    quote: verified_quote(
                        record,
                        record.spec_status()->0,
                        quote.is_failure,
                        now,
                        queue_state.record.max_quote_verification_age,
                    ),
                    subject: subject.consumed(now),
                    settlement: Settlement {
                        source: subject.escrow(),
                        receiver: permission_state.receiver,
                        amount: if quote.is_failure {
                            0
                        } else {
                            queue_state.record.reward as u64
                        },
                    },
                },
            )
        }
    }
}

/// Whether the verifying party may verify on the queue at `now`.
pub fn check_permission(queue_state: &QueueState, permission_state: &PermissionState, now: i64) -> (r:
    bool)
    ensures
        r == permission_holds(*queue_state, *permission_state, now),
{
    let permission = &permission_state.permission;
    let verifier = &permission_state.verifier;
    let age: i128 = (now as i128) - (verifier.last_heartbeat as i128);
    permission.authority == queue_state.record.authority && permission.granter == queue_state.key
        && permission.grantee == permission_state.verifier_key && permission.has(
        SwitchboardAttestationPermission::PermitNodeheartbeat,
    ) && (permission.expiration == 0 || now < permission.expiration) && verifier.is_on_queue
        && verifier.attestation_queue == queue_state.key && age
        <= queue_state.record.verifier_timeout as i128
}

/// The deadline of a verification made at `now` that holds for `ttl` seconds.
pub fn compute_deadline(now: i64, ttl: i64) -> (r: i64)
    ensures
        r == deadline(now, ttl),
        r >= now,
{
    if ttl <= 0 {
        now
    } else if now > i64::MAX - ttl {
        i64::MAX
    } else {
        now + ttl
    }
}

/// Checks an attestation claim and says what it changes. The checks are made
/// in this order, and the first that fails decides the answer: the stored
/// quote has the type tag of a quote record and can be read; its address
/// follows from its seed, the function and its bump; the verifying party
/// holds the permission of the queue, has joined it and has reported within
/// the time that the queue allows; the measurement of the quote is on the
/// allow-list of the queue; and a function is due and its claim names a
/// later time for the next run, or a request is open and is the one that
/// the claim names. Nothing is changed unless all hold. Then the quote is
/// marked; the schedule of a function moves on, past `now` by one step of
/// the function, and the open request of a request record is used up, so
/// that the same claim is not taken twice; and the reward of the queue is
/// owed to the receiver out of the escrow. A run that reports its own
/// failure is marked failed and earns nothing, and is used up all the same.
pub fn verify(
    subject: &Subject,
    quote: &QuoteClaim,
    queue_state: &QueueState,
    permission_state: &PermissionState,
    now: i64,
) -> (r: Result<VerificationOutcome, SwitchboardError>)
    ensures
        r == verify_spec(*subject, *quote, *queue_state, *permission_state, now),
{
    let record = match QuoteAccountData::new_from_bytes(quote.data.as_slice()) {
        Ok(q) => q,
        Err(e) => {
            return Err(e);
        },
    };
    let flags = match record.status() {
        Some(s) => s,
        None => {
            return Err(SwitchboardError::SerializationFailure);
        },
    };
    let function_key: Pubkey = match subject {
        Subject::Function(f) => f.key,
        Subject::Request(r) => r.record.function,
    };
    match record.get_pda_pubkey(&function_key) {
        Ok(k) => {
            if k != quote.key {
                return Err(SwitchboardError::AddressDerivationFailure);
            }
        },
        Err(e) => {
            return Err(e);
        },
    }
    if !check_permission(queue_state, permission_state, now) {
        return Err(SwitchboardError::PermissionDenied);
    }
    if !queue_state.record.has_mr_enclave(&record.mr_enclave) {
        return Err(SwitchboardError::StaleOrUnknownMeasurement);
    }
    let consumed: Subject = match subject {
        Subject::Function(f) => {
            if now < f.record.next_allowed_timestamp || f.next_allowed_timestamp <= now {
                return Err(SwitchboardError::ScheduleNotElapsed);
            }
            let mut function = f.record;
            function.next_allowed_timestamp = f.record.advance(now);
            Subject::Function(
                FunctionSubject {
                    key: f.key,
                    record: function,
                    next_allowed_timestamp: f.next_allowed_timestamp,
                },
            )
        },
        Subject::Request(r) => {
            if !r.record.is_active || r.request_slot != r.record.request_slot || !bytes_equal(
                r.container_params_hash.as_slice(),
                r.record.container_params_hash.as_slice(),
            ) {
                return Err(SwitchboardError::RecordNotFound);
            }
            let mut request = r.record;
            request.is_active = false;
            Subject::Request(
                RequestSubject {
                    key: r.key,
                    record: request,
                    request_slot: r.request_slot,
                    container_params_hash: r.container_params_hash,
                },
            )
        },
    };
    let source: Pubkey = match subject {
        Subject::Function(f) => f.record.escrow_token_wallet,
        Subject::Request(r) => r.record.escrow,
    };
    let mut updated = record;
    if quote.is_failure {
        updated.verification_status = flags.with_failure().bits();
        updated.verification_timestamp = now;
        updated.valid_until = now;
    } else {
        updated.verification_status = flags.with_success().bits();
        updated.verification_timestamp = now;
        updated.valid_until = compute_deadline(now, queue_state.record.max_quote_verification_age);
    }
    let amount: u64 = if quote.is_failure {
        0
    } else {
        queue_state.record.reward as u64
    };
    Ok(
        VerificationOutcome {
            quote: updated,
            subject: consumed,
            settlement: Settlement { source, receiver: permission_state.receiver, amount },
        },
    )
}

/// An accepted claim leaves the quote well-formed: its status is a set of
/// flags in which success and failure exclude each other and nothing is
/// pending, success is set exactly where no failure was reported, the
/// override is as it was, the time of verification is `now`, and the
/// deadline is not before it. It pays the reward of the queue for a success
/// and nothing for a failure, and no part of the queue or of the verifier is
/// changed.
pub proof fn lemma_outcome_well_formed(
    subject: Subject,
    quote: QuoteClaim,
    queue_state: QueueState,
    permission_state: PermissionState,
    now: i64,
)
    requires
        verify_spec(subject, quote, queue_state, permission_state, now) is Ok,
    ensures
        ({
            let outcome = verify_spec(subject, quote, queue_state, permission_state, now)->Ok_0;
            let before = QuoteAccountData::parse(quote.data@)->0;
            &&& outcome.quote.spec_status() matches Some(flags) && flags.consistent()
                && !flags.pending && flags.success == !quote.is_failure && flags.failure
                == quote.is_failure && flags.overridden == before.spec_status()->0.overridden
            &&& outcome.quote.well_formed()
            &&& outcome.quote.verification_timestamp == now
            &&& outcome.quote.valid_until >= outcome.quote.verification_timestamp
            &&& outcome.quote.mr_enclave == before.mr_enclave
            &&& outcome.quote.bump == before.bump
            &&& outcome.settlement.amount == (if quote.is_failure {
                0u64
            } else {
                queue_state.record.reward as u64
            })
            &&& outcome.settlement.receiver == permission_state.receiver
            &&& outcome.settlement.source == subject.escrow()
            &&& outcome.subject.function_key() == subject.function_key()
        }),
{
    let before = QuoteAccountData::parse(quote.data@)->0;
    let flags = before.spec_status()->0;
    lemma_status_bits_round_trip(flags.with_success_spec(), flags);
    lemma_status_bits_round_trip(flags.with_failure_spec(), flags);
}

/// A measurement that is not on the allow-list of the queue is refused as
/// unknown, whatever the claim says otherwise, once the quote has been read,
/// its address checked and the verifier admitted; and a claim that is
/// refused changes nothing, for it has no outcome.
pub proof fn lemma_unknown_measurement_refused(
    subject: Subject,
    quote: QuoteClaim,
    queue_state: QueueState,
    permission_state: PermissionState,
    now: i64,
)
    requires
        QuoteAccountData::parse(quote.data@) matches Some(record) && record.spec_status() is Some
            && derive_spec(
            QUOTE_SEED@,
            seq![subject.function_key()],
            record.bump,
            ATTESTATION_PROGRAM_ID@,
        ) == Some(quote.key@) && !queue_state.record.allows(record.mr_enclave@),
        permission_holds(queue_state, permission_state, now),
    ensures
        verify_spec(subject, quote, queue_state, permission_state, now) == Err::<
            VerificationOutcome,
            SwitchboardError,
        >(SwitchboardError::StaleOrUnknownMeasurement),
{
}

/// The schedule gates a function and moves on with every accepted claim.
/// Where every other rule holds, a claim is refused with the schedule
/// exactly if `now` is earlier than the next allowed time or the claim names
/// no later time than `now` for the next run. A claim that is accepted
/// leaves the next allowed time later than `now`, one step of the function
/// after it, so that a second claim at the same time finds the function not
/// due.
pub proof fn lemma_schedule_gate(
    function: FunctionSubject,
    quote: QuoteClaim,
    queue_state: QueueState,
    permission_state: PermissionState,
    now: i64,
)
    requires
        QuoteAccountData::parse(quote.data@) matches Some(record) && record.spec_status() is Some
            && derive_spec(QUOTE_SEED@, seq![function.key], record.bump, ATTESTATION_PROGRAM_ID@)
            == Some(quote.key@) && queue_state.record.allows(record.mr_enclave@),
        permission_holds(queue_state, permission_state, now),
    ensures
        now < function.record.next_allowed_timestamp || function.next_allowed_timestamp <= now
            ==> verify_spec(
            Subject::Function(function),
            quote,
            queue_state,
            permission_state,
            now,
        ) == Err::<VerificationOutcome, SwitchboardError>(SwitchboardError::ScheduleNotElapsed),
        function.record.next_allowed_timestamp <= now < function.next_allowed_timestamp ==> (
        verify_spec(
            Subject::Function(function),
            quote,
            queue_state,
            permission_state,
            now,
        ) matches Ok(outcome) && outcome.subject matches Subject::Function(after)
            && after.record.next_allowed_timestamp > now && after.record.next_allowed_timestamp
            == function.record.advanced(now) && after.record.next_allowed_timestamp
            > function.record.next_allowed_timestamp && outcome.subject.refusal(now) == Some(
            SwitchboardError::ScheduleNotElapsed,
        )),
{
}

/// A request is settled once. Where every other rule holds, the claim for
/// the open request is accepted and leaves no request open, so that a second
/// claim on the request as the first left it, whatever it names and whenever
/// it comes, is refused: the record that it asks for is not there.
pub proof fn lemma_request_settled_once(
    request: RequestSubject,
    quote: QuoteClaim,
    queue_state: QueueState,
    permission_state: PermissionState,
    now: i64,
    again: i64,
)
    requires
        verify_spec(Subject::Request(request), quote, queue_state, permission_state, now) is Ok,
    ensures
        ({
            let first = verify_spec(
                Subject::Request(request),
                quote,
                queue_state,
                permission_state,
                now,
            )->Ok_0;
            &&& request.record.is_active
            &&& first.subject matches Subject::Request(after) && !after.record.is_active
                && after.record == (FunctionRequestAccountData {
                is_active: false,
                ..request.record
            })
            &&& first.subject.refusal(again) == Some(SwitchboardError::RecordNotFound)
        }),
{
}

/// Verifying twice pays twice and no more. Where a claim for a function that
/// reports no failure has been accepted at `now`, a second claim that
/// presents the quote as the first left it, and the function as the first
/// left it, is accepted again at any time at which the function is due
/// again, the verifier is still admitted and the claim names a later time
/// for the next run. The quote is marked as a success both times, and each
/// of the two operations owes the reward of the queue once. Before the
/// function is due again the second claim is refused, and pays nothing.
pub proof fn lemma_verify_twice(
    function: FunctionSubject,
    quote: QuoteClaim,
    queue_state: QueueState,
    permission_state: PermissionState,
    now: i64,
    second: QuoteClaim,
    second_names: i64,
    again: i64,
)
    requires
        !quote.is_failure,
        verify_spec(Subject::Function(function), quote, queue_state, permission_state, now) is Ok,
        second.key == quote.key,
        !second.is_failure,
        second.data@ == verify_spec(
            Subject::Function(function),
            quote,
            queue_state,
            permission_state,
            now,
        )->Ok_0.quote.encoding(),
        permission_holds(queue_state, permission_state, again),
    ensures
        ({
            let first = verify_spec(
                Subject::Function(function),
                quote,
                queue_state,
                permission_state,
                now,
            )->Ok_0;
            let left = first.subject->Function_0;
            let renewed = Subject::Function(
                FunctionSubject { next_allowed_timestamp: second_names, ..left },
            );
            let last = verify_spec(renewed, second, queue_state, permission_state, again);
            &&& first.subject is Function
            &&& first.quote.spec_status() matches Some(flags) && flags.success && !flags.failure
            &&& first.settlement.amount == queue_state.record.reward
            &&& left.record.next_allowed_timestamp == function.record.advanced(now)
            &&& if left.record.next_allowed_timestamp <= again < second_names {
                &&& last is Ok
                &&& last->Ok_0.quote.spec_status() matches Some(flags) && flags.success
                    && !flags.failure
                &&& last->Ok_0.settlement.amount == queue_state.record.reward
                &&& last->Ok_0.settlement.receiver == first.settlement.receiver
                &&& last->Ok_0.quote.mr_enclave == first.quote.mr_enclave
            } else {
                last == Err::<VerificationOutcome, SwitchboardError>(
                    SwitchboardError::ScheduleNotElapsed,
                )
            }
        }),
{
    let subject = Subject::Function(function);
    lemma_outcome_well_formed(subject, quote, queue_state, permission_state, now);
    let first = verify_spec(subject, quote, queue_state, permission_state, now)->Ok_0;
    let left = first.subject->Function_0;
    let renewed = Subject::Function(
        FunctionSubject { next_allowed_timestamp: second_names, ..left },
    );
    lemma_quote_fields(first.quote);
    lemma_quote_round_trip(first.quote, first.quote);
    assert(QuoteAccountData::has_tag(second.data@));
    assert(QuoteAccountData::parse(second.data@) == Some(first.quote));
    assert(renewed.function_key() == subject.function_key());
    if left.record.next_allowed_timestamp <= again < second_names {
        lemma_outcome_well_formed(renewed, second, queue_state, permission_state, again);
    }
}

} // verus!

//! One run of the runner, step by step. The runner decides; its surroundings
//! do what it asks for and hand back what came of it: they generate the
//! quote, fetch records, and fetch a block hash. A run ends at its first
//! failure, and it emits a result only when every step before has succeeded.

use crate::account::{
    fetch_anchor_account, fetched_bytes, fetched_record, load_account, loaded_record,
};
use crate::enclave::{quote_mr_enclave, quote_parses};
use crate::error::SwitchboardError;
use crate::function::FunctionAccountData;
use crate::function_request::FunctionRequestAccountData;
use crate::function_runner::{lemma_own_key_signs, FetchedState, FunctionResult, FunctionRunner};
use crate::instruction::{Instruction, InstructionView};
use crate::transaction::{fits_message, names_signer};
use crate::pubkey::Pubkey;
use crate::queue::AttestationQueueAccountData;
use crate::verifier_record::VerifierAccountData;
use vstd::prelude::*;

verus! {

/// Where a run stands.
#[derive(Debug, Clone, PartialEq, Eq)]
pub enum RunStep {
    /// Nothing has been done yet.
    Start,
    /// The quote of the enclave has been asked for.
    AwaitingQuote,
    /// The request record has been asked for.
    AwaitingRequest { quote_raw: Vec<u8> },
    /// The function record has been asked for.
    AwaitingFunction { quote_raw: Vec<u8>, request: Option<FunctionRequestAccountData> },
    /// The verifier record has been asked for.
    AwaitingVerifier {
        quote_raw: Vec<u8>,
        request: Option<FunctionRequestAccountData>,
        function: FunctionAccountData,
    },
    /// The queue record has been asked for.
    AwaitingQueue {
        quote_raw: Vec<u8>,
        request: Option<FunctionRequestAccountData>,
        function: FunctionAccountData,
        verifier: VerifierAccountData,
    },
    /// A recent block hash has been asked for.
    AwaitingBlockhash { quote_raw: Vec<u8>, state: FetchedState },
    /// The result has been emitted.
    Finished,
    /// The run has failed and emits nothing.
    Failed,
}

/// What the surroundings hand back to the run.
#[derive(Debug, Clone, PartialEq, Eq)]
pub enum RunEvent {
    /// The run is to begin.
    Begin,
    /// The quote that the enclave generated, or none where it could not.
    Quote(Option<Vec<u8>>),
    /// The bytes of the record that was asked for, or none where the fetch
    /// failed.
    Record(Option<Vec<u8>>),
    /// A recent block hash, or none where the fetch failed.
    Blockhash(Option<[u8; 32]>),
}

/// What the run asks its surroundings to do next.
#[derive(Debug, Clone, PartialEq, Eq)]
pub enum RunAction {
    /// Generate a quote that binds this address, the public address of the
    /// key of the run.
    GenerateQuote(Pubkey),
    /// Fetch the record at this address.
    Fetch(Pubkey),
    /// Fetch a recent block hash.
    GetBlockhash,
    /// Hand this result off for submission; the run is over.
    Emit(FunctionResult),
    /// The run has failed with this failure; nothing is emitted.
    Stop(SwitchboardError),
    /// The run was over before; there is nothing to do.
    Halt,
}

/// A run: the operations of the function, and where the run stands.
#[derive(Debug, Clone, PartialEq, Eq)]
pub struct Run {
    /// The operations that the function wants performed once its run is
    /// verified.
    pub ixs: Vec<Instruction>,
    pub step: RunStep,
}

impl RunStep {
    /// Whether the run is over.
    pub open spec fn is_terminal(self) -> bool {
        self is Finished || self is Failed
    }
}

impl FunctionRunner {
    /// The step and the action that follow `step` on `event`, for every step
    /// but the last. An event that the step did not ask for ends the run as
    /// a failure of the surroundings.
    pub open spec fn next_of(&self, step: RunStep, event: RunEvent) -> (RunStep, RunAction) {
        match (step, event) {
            (RunStep::Start, RunEvent::Begin) => (
                RunStep::AwaitingQuote,
                RunAction::GenerateQuote(self.signer),
            ),
            (RunStep::AwaitingQuote, RunEvent::Quote(Some(quote_raw))) => if !quote_parses(
                quote_raw@,
            ) {
                (RunStep::Failed, RunAction::Stop(SwitchboardError::SerializationFailure))
            } else if self.serves_request() {
                (RunStep::AwaitingRequest { quote_raw }, RunAction::Fetch(self.fn_request_key))
            } else {
                (
                    RunStep::AwaitingFunction { quote_raw, request: None },
                    RunAction::Fetch(self.function),
                )
            },
            (RunStep::AwaitingQuote, RunEvent::Quote(None)) => (
                RunStep::Failed,
                RunAction::Stop(SwitchboardError::SerializationFailure),
            ),
            (
                RunStep::AwaitingRequest { quote_raw },
                RunEvent::Record(data),
            ) => match fetched_record::<FunctionRequestAccountData>(fetched_bytes(data)) {
                Ok(request) => if self.function@ != request.function@ {
                    (RunStep::Failed, RunAction::Stop(SwitchboardError::RecordNotFound))
                } else {
                    (
                        RunStep::AwaitingFunction { quote_raw, request: Some(request) },
                        RunAction::Fetch(self.function),
                    )
                },
                Err(e) => (RunStep::Failed, RunAction::Stop(e)),
            },
            (
                RunStep::AwaitingFunction { quote_raw, request },
                RunEvent::Record(data),
            ) => match fetched_record::<FunctionAccountData>(fetched_bytes(data)) {
                Ok(function) => (
                    RunStep::AwaitingVerifier { quote_raw, request, function },
                    RunAction::Fetch(self.verifier),
                ),
                Err(e) => (RunStep::Failed, RunAction::Stop(e)),
            },
            (
                RunStep::AwaitingVerifier { quote_raw, request, function },
                RunEvent::Record(data),
            ) => match fetched_record::<VerifierAccountData>(fetched_bytes(data)) {
                Ok(verifier) => (
                    RunStep::AwaitingQueue { quote_raw, request, function, verifier },
                    RunAction::Fetch(function.attestation_queue),
                ),
                Err(e) => (RunStep::Failed, RunAction::Stop(e)),
            },
            (
                RunStep::AwaitingQueue { quote_raw, request, function, verifier },
                RunEvent::Record(data),
            ) => match loaded_record::<AttestationQueueAccountData>(fetched_bytes(data)) {
                Ok(queue) => (
                    RunStep::AwaitingBlockhash {
                        quote_raw,
                        state: FetchedState { function, request, verifier, queue },
                    },
                    RunAction::GetBlockhash,
                ),
                Err(e) => (RunStep::Failed, RunAction::Stop(e)),
            },
            (RunStep::AwaitingBlockhash { .. }, RunEvent::Blockhash(None)) => (
                RunStep::Failed,
                RunAction::Stop(SwitchboardError::NetworkFailure),
            ),
            (RunStep::Finished, _) => (RunStep::Finished, RunAction::Halt),
            (RunStep::Failed, _) => (RunStep::Failed, RunAction::Halt),
            _ => (RunStep::Failed, RunAction::Stop(SwitchboardError::NetworkFailure)),
        }
    }

    /// Whether `(after, action)` may follow the last step on a block hash:
    /// either the result is emitted and the run is finished, or the run
    /// stops with a failure and has failed; and the result or the failure is
    /// what `get_result` answers for the operations, the quote, the time,
    /// the fetched records and the block hash.
    pub open spec fn may_finish(
        &self,
        ixs: Seq<Instruction>,
        quote_raw: Seq<u8>,
        current_time: i64,
        state: FetchedState,
        blockhash: Seq<u8>,
        after: RunStep,
        action: RunAction,
    ) -> bool {
        match action {
            RunAction::Emit(result) => after is Finished && self.is_result(
                Ok(result),
                ixs,
                quote_raw,
                current_time,
                state,
                blockhash,
            ),
            RunAction::Stop(e) => after is Failed && self.is_result(
                Err(e),
                ixs,
                quote_raw,
                current_time,
                state,
                blockhash,
            ),
            _ => false,
        }
    }

    /// Takes one step of a run: decides from where the run stands and from
    /// what the surroundings hand back where it stands next and what is to
    /// be done. `current_time` is read at the last step only.
    pub fn advance(&self, run: Run, event: RunEvent, current_time: i64) -> (r: (Run, RunAction))
        ensures
            match (run.step, event) {
                (
                    RunStep::AwaitingBlockhash { quote_raw, state },
                    RunEvent::Blockhash(Some(hash)),
                ) => self.may_finish(
                    run.ixs@,
                    quote_raw@,
                    current_time,
                    state,
                    hash@,
                    r.0.step,
                    r.1,
                ),
                _ => (r.0.step, r.1) == self.next_of(run.step, event) && r.0.ixs == run.ixs,
            },
    {
        let Run { ixs, step } = run;
        match (step, event) {
            (RunStep::Start, RunEvent::Begin) => (
                Run { ixs, step: RunStep::AwaitingQuote },
                RunAction::GenerateQuote(self.signer),
            ),
            (RunStep::AwaitingQuote, RunEvent::Quote(Some(quote_raw))) => {
                if quote_mr_enclave(quote_raw.as_slice()).is_none() {
                    fail(ixs, SwitchboardError::SerializationFailure)
                } else if self.is_request() {
                    (
                        Run { ixs, step: RunStep::AwaitingRequest { quote_raw } },
                        RunAction::Fetch(self.fn_request_key),
                    )
                } else {
                    (
                        Run { ixs, step: RunStep::AwaitingFunction { quote_raw, request: None } },
                        RunAction::Fetch(self.function),
                    )
                }
            },
            (RunStep::AwaitingQuote, RunEvent::Quote(None)) => fail(
                ixs,
                SwitchboardError::SerializationFailure,
            ),
            (RunStep::AwaitingRequest { quote_raw }, RunEvent::Record(data)) => {
                match fetch_anchor_account::<FunctionRequestAccountData>(&data) {
                    Ok(request) => {
                        if self.function != request.function {
                            fail(ixs, SwitchboardError::RecordNotFound)
                        } else {
                            (
                                Run {
                                    ixs,
                                    step: RunStep::AwaitingFunction {
                                        quote_raw,
                                        request: Some(request),
                                    },
                                },
                                RunAction::Fetch(self.function),
                            )
                        }
                    },
                    Err(e) => fail(ixs, e),
                }
            },
            (RunStep::AwaitingFunction { quote_raw, request }, RunEvent::Record(data)) => {
                match fetch_anchor_account::<FunctionAccountData>(&data) {
                    Ok(function) => (
                        Run { ixs, step: RunStep::AwaitingVerifier { quote_raw, request, function } },
                        RunAction::Fetch(self.verifier),
                    ),
                    Err(e) => fail(ixs, e),
                }
            },
            (
                RunStep::AwaitingVerifier { quote_raw, request, function },
                RunEvent::Record(data),
            ) => {
                match fetch_anchor_account::<VerifierAccountData>(&data) {
                    Ok(verifier) => (
                        Run {
                            ixs,
                            step: RunStep::AwaitingQueue { quote_raw, request, function, verifier },
                        },
                        RunAction::Fetch(function.attestation_queue),
                    ),
                    Err(e) => fail(ixs, e),
                }
            },
            (
                RunStep::AwaitingQueue { quote_raw, request, function, verifier },
                RunEvent::Record(data),
            ) => {
                match load_account::<AttestationQueueAccountData>(&data) {
                    Ok(queue) => (
                        Run {
                            ixs,
                            step: RunStep::AwaitingBlockhash {
                                quote_raw,
                                state: FetchedState { function, request, verifier, queue },
                            },
                        },
                        RunAction::GetBlockhash,
                    ),
                    Err(e) => fail(ixs, e),
                }
            },
            (RunStep::AwaitingBlockhash { quote_raw, state }, RunEvent::Blockhash(Some(hash))) => {
                match self.get_result(ixs, quote_raw, current_time, &state, &hash) {
                    Ok(result) => (
                        Run { ixs: Vec::new(), step: RunStep::Finished },
                        RunAction::Emit(result),
                    ),
                    Err(e) => (Run { ixs: Vec::new(), step: RunStep::Failed }, RunAction::Stop(e)),
                }
            },
            (RunStep::AwaitingBlockhash { .. }, RunEvent::Blockhash(None)) => fail(
                ixs,
                SwitchboardError::NetworkFailure,
            ),
            (RunStep::Finished, _) => (Run { ixs, step: RunStep::Finished }, RunAction::Halt),
            (RunStep::Failed, _) => (Run { ixs, step: RunStep::Failed }, RunAction::Halt),
            _ => fail(ixs, SwitchboardError::NetworkFailure),
        }
    }
}

/// The end of a run that has failed.
fn fail(ixs: Vec<Instruction>, error: SwitchboardError) -> (r: (Run, RunAction))
    ensures
        r.0.ixs == ixs,
        r.0.step == RunStep::Failed,
        r.1 == RunAction::Stop(error),
{
    (Run { ixs, step: RunStep::Failed }, RunAction::Stop(error))
}

/// Begins a run for the operations of the function.
pub fn begin(ixs: Vec<Instruction>) -> (r: Run)
    ensures
        r.ixs == ixs,
        r.step == RunStep::Start,
{
    Run { ixs, step: RunStep::Start }
}

/// A run that is over stays over: whatever is handed to it, it stands where
/// it stood and asks for nothing.
pub proof fn lemma_run_is_terminal_on_first_error(
    runner: FunctionRunner,
    step: RunStep,
    event: RunEvent,
)
    requires
        step.is_terminal(),
    ensures
        runner.next_of(step, event) == (step, RunAction::Halt),
{
}

/// Before its last step a run emits nothing: every step but the last either
/// asks its surroundings for something, stops with a failure, or halts. A
/// step that stops leaves the run failed, and only a failed run has stopped.
pub proof fn lemma_emit_only_at_the_end(runner: FunctionRunner, step: RunStep, event: RunEvent)
    ensures
        !(runner.next_of(step, event).1 is Emit),
        runner.next_of(step, event).1 is Stop ==> runner.next_of(step, event).0 is Failed,
        !(runner.next_of(step, event).0 is Finished) || step is Finished,
{
}

/// A run asks for the request record exactly if it serves a request, and it
/// asks for it before anything else is fetched: after a quote that parses,
/// the next fetch is that of the request where the run serves one, and that
/// of the function where it serves none.
pub proof fn lemma_request_is_fetched_first(runner: FunctionRunner, quote_raw: Vec<u8>)
    requires
        quote_parses(quote_raw@),
    ensures
        runner.serves_request() ==> runner.next_of(
            RunStep::AwaitingQuote,
            RunEvent::Quote(Some(quote_raw)),
        ) == (RunStep::AwaitingRequest { quote_raw }, RunAction::Fetch(runner.fn_request_key)),
        !runner.serves_request() ==> runner.next_of(
            RunStep::AwaitingQuote,
            RunEvent::Quote(Some(quote_raw)),
        ) == (
            RunStep::AwaitingFunction { quote_raw, request: None },
            RunAction::Fetch(runner.function),
        ),
{
}

/// A run whose every step succeeds emits its result: at the last step, a
/// runner that holds the key of its own address, with a quote that parses,
/// records from which the verify operation can be built and a bundle that
/// fits, may do nothing but emit.
pub proof fn lemma_last_step_emits(
    runner: FunctionRunner,
    ixs: Seq<Instruction>,
    quote_raw: Seq<u8>,
    current_time: i64,
    state: FetchedState,
    blockhash: Seq<u8>,
    after: RunStep,
    action: RunAction,
)
    requires
        runner.may_finish(ixs, quote_raw, current_time, state, blockhash, after, action),
        runner.holds_own_key(),
        quote_parses(quote_raw),
        runner.verify_error(state) is None,
        forall|bundle: Seq<InstructionView>| #[trigger]
            runner.is_bundle(bundle, ixs, quote_raw, current_time, state) ==> fits_message(
                bundle,
                runner.payer,
            ),
    ensures
        action is Emit,
        after is Finished,
{
    if let RunAction::Stop(e) = action {
        let bundle = choose|bundle: Seq<InstructionView>|
            {
                &&& #[trigger] runner.is_bundle(bundle, ixs, quote_raw, current_time, state)
                &&& !(fits_message(bundle, runner.payer) && names_signer(
                    bundle,
                    runner.payer,
                    runner.signer_keypair.public_key(),
                ))
            };
        lemma_own_key_signs(runner, bundle, ixs, quote_raw, current_time, state);
    }
}

} // verus!

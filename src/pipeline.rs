//! The orchestrator: one message at a time, from the stream through the
//! detector to the reward submission. The network work (reading frames,
//! fetching a checkpoint reference, sending and confirming) is done by the
//! caller, which hands each outcome back as an `Event` and carries out the
//! `Action` that comes back.
use crate::chain::transfer_data;
use crate::detector::{detect, has_qualifying_line, transfer_lines_of, Detection};
use crate::record::LogRecord;
use crate::reward::{carries, sign_reward, RewardTransaction, SigningIdentity, SubmissionError};
use solana_sdk::pubkey::Pubkey;
use solana_sdk::transaction::Transaction;
use vstd::prelude::*;

verus! {

/// Where the pipeline stands.
pub enum Phase {
    /// Waiting for the next message of the stream.
    Listening,
    /// A match was found; waiting for a checkpoint reference to bind the
    /// reward to `target` to.
    AwaitingFreshness { target: Pubkey },
    /// The reward to `target` was handed out for sending; waiting for the
    /// network's verdict.
    AwaitingConfirmation { target: Pubkey },
    /// The stream ended; nothing more happens.
    Stopped,
}

/// What the caller observed.
pub enum Event {
    /// A text frame that holds a log record.
    Record(LogRecord),
    /// A text frame that does not hold a log record.
    Malformed,
    /// A frame that carries no text (a ping, a binary frame).
    OtherFrame,
    /// The stream failed mid-session.
    TransportError,
    /// The stream ended.
    StreamEnded,
    /// The checkpoint reference that was asked for, or `None` when it could not
    /// be fetched.
    Freshness(Option<solana_sdk::hash::Hash>),
    /// The signature of the confirmed reward, or `None` when the network
    /// rejected it or did not confirm it in time.
    Confirmation(Option<String>),
}

/// What the caller is to do next.
pub enum Action {
    /// Nothing; wait for the next event.
    Nothing,
    /// Report a message that could not be parsed; go on listening.
    ReportParseError,
    /// Report the record's signature and transfer lines; it did not match.
    Inspected { signature: String, detection: Detection },
    /// Report the record's signature, transfer lines and the match, then fetch
    /// a checkpoint reference.
    FetchFreshness { signature: String, detection: Detection },
    /// Send the signed `transaction`, which `reward` describes, and wait for
    /// its confirmation.
    Submit { reward: RewardTransaction, transaction: Transaction },
    /// Report that the reward to `target` was confirmed under `signature`.
    ReportSubmitted { target: Pubkey, signature: String },
    /// Report a failed submission; go on listening.
    ReportFailure { error: SubmissionError },
    /// Stop: the stream is over (`transport_error` when it failed).
    Stop { transport_error: bool },
}

/// The pipeline's state: its phase and the identity that signs rewards.
pub struct Orchestrator {
    phase: Phase,
    identity: SigningIdentity,
}

/// The event ends the stream.
pub open spec fn ends_stream(event: Event) -> bool {
    event is TransportError || event is StreamEnded
}

/// The event can be handled in `phase`: a frame while listening, a checkpoint
/// reference while waiting for one, a verdict while waiting for one, or the
/// end of the stream at any time.
pub open spec fn expected_in(phase: Phase, event: Event) -> bool {
    match phase {
        Phase::Listening => event is Record || event is Malformed || event is OtherFrame
            || ends_stream(event),
        Phase::AwaitingFreshness { .. } => event is Freshness || ends_stream(event),
        Phase::AwaitingConfirmation { .. } => event is Confirmation || ends_stream(event),
        Phase::Stopped => false,
    }
}

/// One step of the pipeline from `phase` on `event`, to `next` with `action`,
/// for the identity whose address is `signer`.
pub open spec fn step_spec(
    phase: Phase,
    event: Event,
    signer: Pubkey,
    next: Phase,
    action: Action,
) -> bool {
    if phase is Stopped {
        next is Stopped && action == (Action::Stop { transport_error: false })
    } else if ends_stream(event) {
        next is Stopped && action == (Action::Stop { transport_error: event is TransportError })
    } else if !expected_in(phase, event) {
        next == phase && action is Nothing
    } else {
        match event {
            Event::Malformed => next is Listening && action is ReportParseError,
            Event::OtherFrame => next is Listening && action is Nothing,
            Event::Record(r) => if has_qualifying_line(r.lines()) {
                &&& action matches Action::FetchFreshness { signature, detection }
                &&& signature@ == r.signature@
                &&& detection.matched
                &&& detection.transfer_line_views() == transfer_lines_of(r.lines())
                &&& detection.target matches Some(t)
                &&& next == (Phase::AwaitingFreshness { target: t })
            } else {
                &&& action matches Action::Inspected { signature, detection }
                &&& signature@ == r.signature@
                &&& !detection.matched
                &&& detection.target is None
                &&& detection.transfer_line_views() == transfer_lines_of(r.lines())
                &&& next is Listening
            },
            Event::Freshness(None) => {
                &&& next is Listening
                &&& action == (Action::ReportFailure { error: SubmissionError::FreshnessUnavailable })
            },
            Event::Freshness(Some(h)) => {
                let target = phase->AwaitingFreshness_target;
                &&& action matches Action::Submit { reward, transaction }
                &&& reward.is_single_party()
                &&& reward.fee_payer == signer
                &&& reward.recipients() == seq![target]
                &&& reward.transfers@[0].lamports == crate::reward::REWARD_AMOUNT
                &&& reward.freshness == h
                &&& carries(transaction, reward)
                &&& next == (Phase::AwaitingConfirmation { target })
            },
            Event::Confirmation(Some(s)) => {
                &&& next is Listening
                &&& action matches Action::ReportSubmitted { target, signature }
                &&& target == phase->AwaitingConfirmation_target
                &&& signature@ == s@
            },
            Event::Confirmation(None) => {
                &&& next is Listening
                &&& action == (Action::ReportFailure { error: SubmissionError::RejectedOrTimedOut })
            },
            _ => false,
        }
    }
}

/// A message that could not be parsed is reported and never reaches the
/// detector: the pipeline reports it and goes on listening.
pub proof fn lemma_malformed_skips_detection(signer: Pubkey, next: Phase, action: Action)
    requires
        step_spec(Phase::Listening, Event::Malformed, signer, next, action),
    ensures
        action is ReportParseError,
        next is Listening,
{
}

/// A transaction is handed out for sending only once a checkpoint reference
/// has been fetched, and always then: a failed fetch submits nothing and the
/// pipeline goes on listening.
pub proof fn lemma_submission_needs_freshness(
    phase: Phase,
    event: Event,
    signer: Pubkey,
    next: Phase,
    action: Action,
)
    requires
        step_spec(phase, event, signer, next, action),
    ensures
        action is Submit ==> (phase is AwaitingFreshness && (event matches Event::Freshness(Some(_)))),
        (phase is AwaitingFreshness && (event matches Event::Freshness(Some(_)))) ==> (action is Submit
            && next is AwaitingConfirmation),
        (phase is AwaitingFreshness && (event matches Event::Freshness(None)))
            ==> action == (Action::ReportFailure { error: SubmissionError::FreshnessUnavailable })
            && next is Listening,
{
}

/// Every transaction handed out for sending has one recipient, the detected
/// counterparty, and one signer, the pipeline's identity, which also pays the
/// fee and sends the value; the signed ledger transaction carries exactly that
/// reward.
pub proof fn lemma_submitted_reward_is_single_party(
    phase: Phase,
    event: Event,
    signer: Pubkey,
    next: Phase,
    action: Action,
)
    requires
        step_spec(phase, event, signer, next, action),
        action is Submit,
    ensures
        action->Submit_reward.is_single_party(),
        action->Submit_reward.signers@ == seq![signer],
        action->Submit_reward.recipients() == seq![phase->AwaitingFreshness_target],
        action->Submit_reward.transfers@[0].lamports == crate::reward::REWARD_AMOUNT,
        carries(action->Submit_transaction, action->Submit_reward),
        action->Submit_transaction.message.account_keys@[0] == signer,
        action->Submit_transaction.message.header.num_required_signatures == 1,
        action->Submit_transaction.message.instructions@.len() == 1,
        action->Submit_transaction.message.account_keys@[
            action->Submit_transaction.message.instructions@[0].accounts@[1] as int]
            == phase->AwaitingFreshness_target,
        action->Submit_transaction.message.instructions@[0].data@ == transfer_data(
            crate::reward::REWARD_AMOUNT,
        ),
        action->Submit_transaction.message.recent_blockhash == event->Freshness_0->Some_0,
{
    assert(action->Submit_reward.recipients()[0] == action->Submit_reward.transfers@[0].to);
}

/// Only the end of the stream stops the pipeline: a failed submission, a
/// malformed message or any other event leaves it running.
pub proof fn lemma_only_stream_end_stops(
    phase: Phase,
    event: Event,
    signer: Pubkey,
    next: Phase,
    action: Action,
)
    requires
        step_spec(phase, event, signer, next, action),
        !(phase is Stopped),
        !ends_stream(event),
    ensures
        !(next is Stopped),
        !(action is Stop),
{
}

impl Orchestrator {
    /// A pipeline that listens, signing with `identity`.
    pub fn new(identity: SigningIdentity) -> (r: Orchestrator)
        ensures
            r.current() is Listening,
            r.signer() == identity.spec_address(),
    {
        Orchestrator { phase: Phase::Listening, identity }
    }

    /// The phase the pipeline is in.
    pub closed spec fn current(&self) -> Phase {
        self.phase
    }

    /// The phase the pipeline is in.
    pub fn phase(&self) -> (r: &Phase)
        ensures
            *r == self.current(),
    {
        &self.phase
    }

    /// The address that signs and pays for every reward.
    pub closed spec fn signer(&self) -> Pubkey {
        self.identity.spec_address()
    }

    /// The address that signs and pays for every reward.
    pub fn signer_address(&self) -> (r: Pubkey)
        ensures
            r == self.signer(),
    {
        self.identity.address()
    }

    /// The pipeline has stopped for good.
    pub fn is_stopped(&self) -> (r: bool)
        ensures
            r == self.current() is Stopped,
    {
        match self.phase {
            Phase::Stopped => true,
            _ => false,
        }
    }

    /// The pipeline waits for the next message of the stream.
    pub fn is_listening(&self) -> (r: bool)
        ensures
            r == self.current() is Listening,
    {
        match self.phase {
            Phase::Listening => true,
            _ => false,
        }
    }

    /// Handles one event and says what to do next.
    pub fn step(&mut self, event: Event) -> (action: Action)
        ensures
            final(self).signer() == old(self).signer(),
            step_spec(old(self).current(), event, old(self).signer(), final(self).current(), action),
    {
        let stopped = self.is_stopped();
        if stopped {
            return Action::Stop { transport_error: false };
        }
        match event {
            Event::TransportError => {
                self.phase = Phase::Stopped;
                Action::Stop { transport_error: true }
            },
            Event::StreamEnded => {
                self.phase = Phase::Stopped;
                Action::Stop { transport_error: false }
            },
            Event::Record(record) => {
                if !self.is_listening() {
                    return Action::Nothing;
                }
                let detection = detect(&record);
                match detection.target {
                    Some(target) => {
                        self.phase = Phase::AwaitingFreshness { target };
                        Action::FetchFreshness { signature: record.signature, detection }
                    },
                    None => Action::Inspected { signature: record.signature, detection },
                }
            },
            Event::Malformed => {
                if !self.is_listening() {
                    return Action::Nothing;
                }
                Action::ReportParseError
            },
            Event::OtherFrame => Action::Nothing,
            Event::Freshness(fetched) => {
                let target = match self.phase {
                    Phase::AwaitingFreshness { target } => target,
                    _ => {
                        return Action::Nothing;
                    },
                };
                match fetched {
                    None => {
                        self.phase = Phase::Listening;
                        Action::ReportFailure { error: SubmissionError::FreshnessUnavailable }
                    },
                    Some(freshness) => {
                        let reward = RewardTransaction::reward(&self.identity, target, freshness);
                        let transaction = sign_reward(&self.identity, &reward);
                        self.phase = Phase::AwaitingConfirmation { target };
                        Action::Submit { reward, transaction }
                    },
                }
            },
            Event::Confirmation(verdict) => {
                let target = match self.phase {
                    Phase::AwaitingConfirmation { target } => target,
                    _ => {
                        return Action::Nothing;
                    },
                };
                self.phase = Phase::Listening;
                match verdict {
                    Some(signature) => Action::ReportSubmitted { target, signature },
                    None => Action::ReportFailure { error: SubmissionError::RejectedOrTimedOut },
                }
            },
        }
    }
}

} // verus!

use reward_bot::detector::detect;
use reward_bot::pipeline::{Action, Event, Orchestrator, Phase};
use reward_bot::record::LogRecord;
use reward_bot::reward::{
    sign_reward, RewardTransaction, SigningIdentity, SubmissionError, REWARD_AMOUNT,
};
use solana_sdk::pubkey::Pubkey;
use solana_sdk::signer::keypair::Keypair;
use solana_sdk::signer::Signer;

fn record(signature: &str, logs: &[&str]) -> LogRecord {
    LogRecord::new(
        signature.to_string(),
        None,
        logs.iter().map(|l| l.to_string()).collect(),
    )
}

fn orchestrator() -> (Orchestrator, Pubkey) {
    let keypair = Keypair::new();
    let address = keypair.pubkey();
    (Orchestrator::new(SigningIdentity::new(keypair)), address)
}

fn scenario_one() -> LogRecord {
    record(
        "S1",
        &["program X invoked", "transfer executed, amount: 1000000000"],
    )
}

/// Steps a listening pipeline to the point where it waits for a checkpoint.
fn matched(o: &mut Orchestrator) -> Pubkey {
    match o.step(Event::Record(scenario_one())) {
        Action::FetchFreshness { detection, .. } => detection.target.unwrap(),
        _ => panic!("expected a match"),
    }
}

#[test]
fn detect_matches_large_transfer() {
    let d = detect(&scenario_one());
    assert!(d.matched);
    assert!(d.target.is_some());
    assert_eq!(d.transfer_lines, vec!["transfer executed, amount: 1000000000".to_string()]);
}

#[test]
fn detect_ignores_records_without_transfers() {
    let d = detect(&record("S2", &["balance check only"]));
    assert!(!d.matched);
    assert!(d.target.is_none());
    assert!(d.transfer_lines.is_empty());
}

#[test]
fn detect_needs_the_amount_marker() {
    let d = detect(&record("S", &["transfer executed, amount: 5", "transfer done"]));
    assert!(!d.matched);
    assert!(d.target.is_none());
    assert_eq!(d.transfer_lines.len(), 2);
}

#[test]
fn detect_needs_the_transfer_word() {
    let d = detect(&record("S", &["withdraw, amount: 1000000000"]));
    assert!(!d.matched);
    assert!(d.transfer_lines.is_empty());
}

#[test]
fn detect_empty_trace() {
    let d = detect(&record("S", &[]));
    assert!(!d.matched);
    assert!(d.target.is_none());
    assert!(d.transfer_lines.is_empty());
}

#[test]
fn detect_several_matches_keeps_one_target() {
    let d = detect(&record(
        "S",
        &[
            "transfer a, amount: 1000000000",
            "noise",
            "transfer b, amount: 10000000000",
        ],
    ));
    assert!(d.matched);
    assert!(d.target.is_some());
    assert_eq!(d.transfer_lines.len(), 2);
    assert_eq!(d.transfer_lines[1], "transfer b, amount: 10000000000");
}

#[test]
fn detect_draws_a_fresh_target_per_match() {
    let a = detect(&scenario_one()).target.unwrap();
    let b = detect(&scenario_one()).target.unwrap();
    assert_ne!(a, b);
}

#[test]
fn identity_address_is_the_keypair_address() {
    let keypair = Keypair::new();
    let address = keypair.pubkey();
    assert_eq!(SigningIdentity::new(keypair).address(), address);
}

#[test]
fn reward_names_one_recipient_and_one_signer() {
    let identity = SigningIdentity::new(Keypair::new());
    let target = Pubkey::new_unique();
    let freshness = solana_sdk::hash::Hash::new_unique();
    let tx = RewardTransaction::reward(&identity, target, freshness);
    assert_eq!(tx.fee_payer, identity.address());
    assert_eq!(tx.signers, vec![identity.address()]);
    assert_eq!(tx.transfers.len(), 1);
    assert_eq!(tx.transfers[0].from, identity.address());
    assert_eq!(tx.transfers[0].to, target);
    assert_eq!(tx.transfers[0].lamports, 500_000_000);
    assert_eq!(tx.freshness, freshness);
}

#[test]
fn sign_reward_signs_with_the_identity() {
    let identity = SigningIdentity::new(Keypair::new());
    let target = Pubkey::new_unique();
    let freshness = solana_sdk::hash::Hash::new_unique();
    let tx = RewardTransaction::reward(&identity, target, freshness);
    let signed = sign_reward(&identity, &tx);
    assert!(signed.is_signed());
    assert_eq!(signed.signatures.len(), 1);
    assert_eq!(signed.message.header.num_required_signatures, 1);
    assert_eq!(signed.message.account_keys[0], identity.address());
    assert!(signed.message.account_keys.contains(&target));
    assert_eq!(signed.message.recent_blockhash, freshness);
    assert_eq!(signed.message.instructions.len(), 1);
    let ix = &signed.message.instructions[0];
    assert_eq!(ix.accounts.len(), 2);
    assert_eq!(ix.accounts[0], 0);
    assert_eq!(signed.message.account_keys[ix.accounts[1] as usize], target);
    let mut data = vec![2u8, 0, 0, 0];
    data.extend_from_slice(&500_000_000u64.to_le_bytes());
    assert_eq!(ix.data, data);
    assert_eq!(
        signed.message.account_keys[ix.program_id_index as usize],
        solana_sdk::system_program::id()
    );
    assert!(signed.verify().is_ok());
}

#[test]
fn end_to_end_large_transfer_is_rewarded() {
    let (mut o, address) = orchestrator();
    assert_eq!(o.signer_address(), address);
    let target = match o.step(Event::Record(scenario_one())) {
        Action::FetchFreshness { signature, detection } => {
            assert_eq!(signature, "S1");
            assert!(detection.matched);
            assert_eq!(
                detection.transfer_lines,
                vec!["transfer executed, amount: 1000000000".to_string()]
            );
            detection.target.unwrap()
        }
        _ => panic!("expected a match"),
    };
    assert!(matches!(o.phase(), Phase::AwaitingFreshness { target: t } if *t == target));
    let freshness = solana_sdk::hash::Hash::new_unique();
    match o.step(Event::Freshness(Some(freshness))) {
        Action::Submit { reward, transaction } => {
            assert_eq!(reward.fee_payer, address);
            assert_eq!(reward.signers, vec![address]);
            assert_eq!(reward.transfers.len(), 1);
            assert_eq!(reward.transfers[0].to, target);
            assert_eq!(reward.transfers[0].lamports, REWARD_AMOUNT);
            assert_eq!(REWARD_AMOUNT, 500_000_000);
            assert!(transaction.is_signed());
            assert_eq!(transaction.signatures.len(), 1);
            assert_eq!(transaction.message.account_keys[0], address);
            assert_eq!(transaction.message.recent_blockhash, freshness);
            let ix = &transaction.message.instructions[0];
            assert_eq!(transaction.message.account_keys[ix.accounts[1] as usize], target);
            assert!(transaction.verify().is_ok());
        }
        _ => panic!("expected a submission"),
    }
    assert!(matches!(o.phase(), Phase::AwaitingConfirmation { .. }));
    match o.step(Event::Confirmation(Some("5ig".to_string()))) {
        Action::ReportSubmitted { target: t, signature } => {
            assert_eq!(t, target);
            assert_eq!(signature, "5ig");
        }
        _ => panic!("expected a confirmation report"),
    }
    assert!(o.is_listening());
}

#[test]
fn end_to_end_no_match_submits_nothing() {
    let (mut o, _) = orchestrator();
    match o.step(Event::Record(record("S2", &["balance check only"]))) {
        Action::Inspected { signature, detection } => {
            assert_eq!(signature, "S2");
            assert!(!detection.matched);
            assert!(detection.target.is_none());
        }
        _ => panic!("expected no match"),
    }
    assert!(o.is_listening());
}

#[test]
fn end_to_end_malformed_frame_is_skipped() {
    let (mut o, _) = orchestrator();
    assert!(matches!(o.step(Event::Malformed), Action::ReportParseError));
    assert!(o.is_listening());
    assert!(!o.is_stopped());
    matched(&mut o);
    assert!(matches!(o.phase(), Phase::AwaitingFreshness { .. }));
}

#[test]
fn end_to_end_freshness_failure_keeps_listening() {
    let (mut o, _) = orchestrator();
    matched(&mut o);
    match o.step(Event::Freshness(None)) {
        Action::ReportFailure { error } => {
            assert_eq!(error, SubmissionError::FreshnessUnavailable)
        }
        _ => panic!("expected a failure report"),
    }
    assert!(o.is_listening());
    assert!(!o.is_stopped());
    assert!(matches!(
        o.step(Event::Record(record("S3", &["balance check only"]))),
        Action::Inspected { .. }
    ));
}

#[test]
fn rejected_submission_keeps_listening() {
    let (mut o, _) = orchestrator();
    matched(&mut o);
    assert!(matches!(
        o.step(Event::Freshness(Some(solana_sdk::hash::Hash::new_unique()))),
        Action::Submit { .. }
    ));
    match o.step(Event::Confirmation(None)) {
        Action::ReportFailure { error } => assert_eq!(error, SubmissionError::RejectedOrTimedOut),
        _ => panic!("expected a failure report"),
    }
    assert!(o.is_listening());
}

#[test]
fn other_frames_are_ignored() {
    let (mut o, _) = orchestrator();
    assert!(matches!(o.step(Event::OtherFrame), Action::Nothing));
    assert!(o.is_listening());
}

#[test]
fn out_of_phase_events_change_nothing() {
    let (mut o, _) = orchestrator();
    assert!(matches!(o.step(Event::Freshness(None)), Action::Nothing));
    assert!(matches!(o.step(Event::Confirmation(None)), Action::Nothing));
    assert!(o.is_listening());
    matched(&mut o);
    assert!(matches!(o.step(Event::Malformed), Action::Nothing));
    assert!(matches!(o.phase(), Phase::AwaitingFreshness { .. }));
}

#[test]
fn transport_error_stops_for_good() {
    let (mut o, _) = orchestrator();
    assert!(matches!(
        o.step(Event::TransportError),
        Action::Stop { transport_error: true }
    ));
    assert!(o.is_stopped());
    assert!(matches!(
        o.step(Event::Record(scenario_one())),
        Action::Stop { transport_error: false }
    ));
    assert!(o.is_stopped());
}

#[test]
fn stream_end_stops_while_submitting() {
    let (mut o, _) = orchestrator();
    matched(&mut o);
    assert!(matches!(
        o.step(Event::StreamEnded),
        Action::Stop { transport_error: false }
    ));
    assert!(o.is_stopped());
}

#[test]
fn reward_to_self_is_still_single_signer() {
    let identity = SigningIdentity::new(Keypair::new());
    let me = identity.address();
    let tx = RewardTransaction::reward(&identity, me, solana_sdk::hash::Hash::new_unique());
    let signed = sign_reward(&identity, &tx);
    assert!(signed.is_signed());
    assert_eq!(signed.signatures.len(), 1);
    assert_eq!(signed.message.header.num_required_signatures, 1);
    let ix = &signed.message.instructions[0];
    assert_eq!(signed.message.account_keys[ix.accounts[1] as usize], me);
}

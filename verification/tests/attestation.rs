use op_challenger::attestation::check_attestation;
use op_challenger::factory::{handle_creation_event, FactoryAction};
use op_challenger::telemetry::{increment_root_mismatch_count, MismatchCounter};
use op_challenger::types::{ChallengerMode, GameType, OutputRoot};

#[test]
fn mismatch_in_listen_and_respond_counts_and_dispatches() {
    let claimed = OutputRoot { bytes: [0xAA; 32] };
    let trusted = OutputRoot { bytes: [0xBB; 32] };
    let action = handle_creation_event(2, 120, 100, &claimed);
    let record = match action {
        FactoryAction::Route(record) => record,
        _ => panic!("an output-attestation game must be routed"),
    };
    let mut counter = MismatchCounter::new();
    let challenge = check_attestation(
        &record,
        &trusted,
        ChallengerMode::ListenAndRespond,
        &mut counter,
    );
    assert_eq!(counter.count, 1);
    let challenge = challenge.expect("a mismatch in listen-and-respond must dispatch");
    assert_eq!(challenge.evidence, trusted);
    assert_eq!(challenge.game, record);
    assert_eq!(challenge.game.disputed_block, 100);
}

#[test]
fn mismatch_in_listen_only_counts_without_dispatching() {
    let claimed = OutputRoot { bytes: [0xAA; 32] };
    let trusted = OutputRoot { bytes: [0xBB; 32] };
    let action = handle_creation_event(2, 120, 100, &claimed);
    let record = match action {
        FactoryAction::Route(record) => record,
        _ => panic!("an output-attestation game must be routed"),
    };
    let mut counter = MismatchCounter::new();
    let challenge = check_attestation(&record, &trusted, ChallengerMode::ListenOnly, &mut counter);
    assert_eq!(counter.count, 1);
    assert_eq!(challenge, None);
}

#[test]
fn matching_roots_leave_counter_untouched() {
    let claimed = OutputRoot { bytes: [0xAA; 32] };
    let trusted = OutputRoot { bytes: [0xAA; 32] };
    let action = handle_creation_event(2, 120, 100, &claimed);
    let record = match action {
        FactoryAction::Route(record) => record,
        _ => panic!("an output-attestation game must be routed"),
    };
    let mut counter = MismatchCounter::new();
    let challenge = check_attestation(
        &record,
        &trusted,
        ChallengerMode::ListenAndRespond,
        &mut counter,
    );
    assert_eq!(counter.count, 0);
    assert_eq!(challenge, None);
    let again = check_attestation(&record, &trusted, ChallengerMode::ListenOnly, &mut counter);
    assert_eq!(counter.count, 0);
    assert_eq!(again, None);
}

#[test]
fn counter_is_increment_only() {
    let mut counter = MismatchCounter::new();
    assert_eq!(counter.reading(), 0);
    increment_root_mismatch_count(&mut counter);
    assert_eq!(counter.reading(), 1);
    increment_root_mismatch_count(&mut counter);
    increment_root_mismatch_count(&mut counter);
    assert_eq!(counter.reading(), 3);
}

#[test]
fn factory_routes_only_output_attestation_games() {
    let claimed = OutputRoot { bytes: [0x11; 32] };
    match handle_creation_event(2, 7, 5, &claimed) {
        FactoryAction::Route(record) => {
            assert_eq!(record.game_type, GameType::OutputAttestation);
            assert_eq!(record.creation_block, 7);
            assert_eq!(record.disputed_block, 5);
            assert_eq!(record.claimed_root, claimed);
        }
        _ => panic!("tag 2 must be routed"),
    }
    assert_eq!(
        handle_creation_event(0, 7, 5, &claimed),
        FactoryAction::Unhandled(GameType::Fault)
    );
    assert_eq!(
        handle_creation_event(1, 7, 5, &claimed),
        FactoryAction::Unhandled(GameType::Validity)
    );
}

#[test]
fn factory_skips_unknown_tags_without_dying() {
    let claimed = OutputRoot { bytes: [0x11; 32] };
    assert_eq!(
        handle_creation_event(7, 7, 5, &claimed),
        FactoryAction::SkipUnknown(7)
    );
    assert_eq!(
        handle_creation_event(255, 7, 5, &claimed),
        FactoryAction::SkipUnknown(255)
    );
}

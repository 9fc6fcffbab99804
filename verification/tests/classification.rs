use op_challenger::types::{ChallengerError, ChallengerMode, GameType, OutputRoot};

#[test]
fn game_type_decodes_each_known_tag() {
    assert_eq!(GameType::try_from(0), Ok(GameType::Fault));
    assert_eq!(GameType::try_from(1), Ok(GameType::Validity));
    assert_eq!(GameType::try_from(2), Ok(GameType::OutputAttestation));
}

#[test]
fn game_type_rejects_out_of_range_tags() {
    assert_eq!(GameType::try_from(3), Err(ChallengerError::InvalidGameType));
    assert_eq!(GameType::try_from(4), Err(ChallengerError::InvalidGameType));
    assert_eq!(GameType::try_from(255), Err(ChallengerError::InvalidGameType));
}

#[test]
fn mode_parses_listen_only() {
    assert_eq!(
        ChallengerMode::from_str("listen-only"),
        Ok(ChallengerMode::ListenOnly)
    );
}

#[test]
fn mode_parses_listen_and_respond() {
    assert_eq!(
        ChallengerMode::from_str("listen-and-respond"),
        Ok(ChallengerMode::ListenAndRespond)
    );
}

#[test]
fn mode_rejects_other_spellings() {
    assert_eq!(
        ChallengerMode::from_str(""),
        Err(ChallengerError::InvalidMode)
    );
    assert_eq!(
        ChallengerMode::from_str("listen"),
        Err(ChallengerError::InvalidMode)
    );
    assert_eq!(
        ChallengerMode::from_str("LISTEN-ONLY"),
        Err(ChallengerError::InvalidMode)
    );
    assert_eq!(
        ChallengerMode::from_str("listen-only "),
        Err(ChallengerError::InvalidMode)
    );
}

#[test]
fn mode_defaults_to_listen_and_respond() {
    assert_eq!(ChallengerMode::default(), ChallengerMode::ListenAndRespond);
}

#[test]
fn output_root_equality_is_byte_for_byte() {
    let a = OutputRoot { bytes: [0xAA; 32] };
    let a2 = OutputRoot { bytes: [0xAA; 32] };
    let mut almost = [0xAA; 32];
    almost[31] = 0xAB;
    let b = OutputRoot { bytes: almost };
    assert!(a.equals(&a2));
    assert!(!a.equals(&b));
    assert!(!b.equals(&a));
}

#[test]
fn output_root_decodes_exactly_32_bytes() {
    let mut payload = vec![0u8; 32];
    payload[0] = 0xBB;
    payload[31] = 0x01;
    let root = OutputRoot::from_bytes(&payload).unwrap();
    assert_eq!(root.bytes[0], 0xBB);
    assert_eq!(root.bytes[31], 0x01);
    assert_eq!(root.bytes[1], 0x00);
}

#[test]
fn output_root_rejects_other_shapes() {
    assert_eq!(
        OutputRoot::from_bytes(&vec![]),
        Err(ChallengerError::MalformedOutputRoot)
    );
    assert_eq!(
        OutputRoot::from_bytes(&vec![0u8; 31]),
        Err(ChallengerError::MalformedOutputRoot)
    );
    assert_eq!(
        OutputRoot::from_bytes(&vec![0u8; 33]),
        Err(ChallengerError::MalformedOutputRoot)
    );
}

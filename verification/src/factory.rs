//! The factory driver's decision: classify each game-creation event and
//! route output-attestation games onward.

use vstd::prelude::*;
use crate::types::classify_tag;
use crate::types::DisputeGameRecord;
use crate::types::GameType;
use crate::types::OutputRoot;

verus! {

/// What the factory driver does with one creation event.
#[derive(Clone, Copy, Debug, PartialEq, Eq)]
pub enum FactoryAction {
    /// An output-attestation game: hand its record to the attestation
    /// driver's intake.
    Route(DisputeGameRecord),
    /// A known game type this challenger does not handle; noted explicitly,
    /// never dropped silently.
    Unhandled(GameType),
    /// An unknown tag: skipped as forward-compatible, never loop-fatal.
    SkipUnknown(u8),
}

/// The routing a creation event gets, as a function of its decoded tag.
pub open spec fn event_routing(
    tag: u8,
    creation_block: u64,
    disputed_block: u64,
    claimed_root: OutputRoot,
) -> FactoryAction {
    match classify_tag(tag) {
        Ok(GameType::OutputAttestation) => FactoryAction::Route(
            DisputeGameRecord {
                game_type: GameType::OutputAttestation,
                creation_block,
                disputed_block,
                claimed_root,
            },
        ),
        Ok(g) => FactoryAction::Unhandled(g),
        Err(_) => FactoryAction::SkipUnknown(tag),
    }
}

/// Classify one game-creation event observed on the factory and decide its
/// routing. An out-of-range tag is tolerated, not fatal.
pub fn handle_creation_event(
    tag: u8,
    creation_block: u64,
    disputed_block: u64,
    claimed_root: &OutputRoot,
) -> (r: FactoryAction)
    ensures
        r == event_routing(tag, creation_block, disputed_block, *claimed_root),
{
    match GameType::try_from(tag) {
        Ok(GameType::OutputAttestation) => FactoryAction::Route(
            DisputeGameRecord {
                game_type: GameType::OutputAttestation,
                creation_block,
                disputed_block,
                claimed_root: *claimed_root,
            },
        ),
        Ok(g) => FactoryAction::Unhandled(g),
        Err(_) => FactoryAction::SkipUnknown(tag),
    }
}

} // verus!

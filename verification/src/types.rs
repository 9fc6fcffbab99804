//! Data model of the challenger: addresses, output roots, game types,
//! operating modes, dispute-game records and challenge requests.

use vstd::prelude::*;
use vstd::string::StringExecFns;

verus! {

/// Errors the challenger core can report.
#[derive(Clone, Copy, Debug, PartialEq, Eq, Structural)]
pub enum ChallengerError {
    /// A game-type tag outside the known range; decoding never falls back to
    /// a default.
    InvalidGameType,
    /// An operating-mode string other than `listen-only` or
    /// `listen-and-respond`.
    InvalidMode,
    /// Listen-and-respond mode was selected without a signing key.
    MissingSignerKey,
    /// A trusted-source response whose shape is not a 32-byte root; this is
    /// never transient, so the driver that sees it must die.
    MalformedOutputRoot,
    /// An endpoint that stayed broken past the retry budget, or a
    /// subscription that ended while the driver was still live.
    EndpointFailure,
}

/// A 20-byte account or contract address on the base chain.
#[derive(Clone, Copy, Debug, PartialEq, Eq)]
pub struct Address {
    pub bytes: [u8; 20],
}

impl View for Address {
    type V = Seq<u8>;

    open spec fn view(&self) -> Seq<u8> {
        self.bytes@
    }
}

/// A 32-byte commitment to rollup state at one block. Two roots agree
/// exactly when their bytes agree.
#[derive(Clone, Copy, Debug, PartialEq, Eq)]
pub struct OutputRoot {
    pub bytes: [u8; 32],
}

impl View for OutputRoot {
    type V = Seq<u8>;

    open spec fn view(&self) -> Seq<u8> {
        self.bytes@
    }
}

impl OutputRoot {
    /// Byte-for-byte comparison of two roots.
    pub fn equals(&self, other: &OutputRoot) -> (r: bool)
        ensures
            r == (self@ == other@),
    {
        let mut i: usize = 0;
        while i < 32
            invariant
                i <= 32,
                forall|k: int| 0 <= k < i ==> self.bytes@[k] == other.bytes@[k],
            decreases 32 - i,
        {
            if self.bytes[i] != other.bytes[i] {
                return false;
            }
            i += 1;
        }
        proof {
            assert(self@ =~= other@);
        }
        true
    }

    /// Decode a root from a raw response payload: exactly 32 bytes, any
    /// other shape is a decode error.
    pub fn from_bytes(bytes: &Vec<u8>) -> (r: Result<OutputRoot, ChallengerError>)
        ensures
            bytes@.len() == 32 ==> (r matches Ok(root) && root@ == bytes@),
            bytes@.len() != 32 ==> r == Err::<OutputRoot, ChallengerError>(
                ChallengerError::MalformedOutputRoot,
            ),
    {
        if bytes.len() != 32 {
            return Err(ChallengerError::MalformedOutputRoot);
        }
        let mut out: [u8; 32] = [0u8; 32];
        let mut i: usize = 0;
        while i < 32
            invariant
                i <= 32,
                bytes@.len() == 32,
                forall|k: int| 0 <= k < i ==> out@[k] == bytes@[k],
            decreases 32 - i,
        {
            out[i] = bytes[i];
            i += 1;
        }
        proof {
            assert(out@ =~= bytes@);
        }
        Ok(OutputRoot { bytes: out })
    }
}

/// The kinds of dispute game the factory can create.
#[derive(Clone, Copy, Debug, PartialEq, Eq, Structural)]
pub enum GameType {
    Fault,
    Validity,
    OutputAttestation,
}

/// What decoding an on-chain game-type tag yields: the three known tags map
/// to their game types, anything else is an error, never a default.
pub open spec fn classify_tag(value: u8) -> Result<GameType, ChallengerError> {
    if value == 0 {
        Ok(GameType::Fault)
    } else if value == 1 {
        Ok(GameType::Validity)
    } else if value == 2 {
        Ok(GameType::OutputAttestation)
    } else {
        Err(ChallengerError::InvalidGameType)
    }
}

impl GameType {
    /// The tag under which the factory encodes this game type.
    pub open spec fn tag(self) -> u8 {
        match self {
            GameType::Fault => 0,
            GameType::Validity => 1,
            GameType::OutputAttestation => 2,
        }
    }

    /// Decode an on-chain game-type tag.
    pub fn try_from(value: u8) -> (r: Result<GameType, ChallengerError>)
        ensures
            r == classify_tag(value),
    {
        match value {
            0 => Ok(GameType::Fault),
            1 => Ok(GameType::Validity),
            2 => Ok(GameType::OutputAttestation),
            _ => Err(ChallengerError::InvalidGameType),
        }
    }
}

/// Law: classification is exact — each tag in range decodes to the game type
/// that encodes back to that same tag, distinct tags decode to distinct game
/// types, and every out-of-range tag is a decode error.
pub proof fn lemma_classification_exact(value: u8)
    ensures
        value <= 2 ==> (classify_tag(value) matches Ok(g) && g.tag() == value),
        value > 2 ==> classify_tag(value) == Err::<GameType, ChallengerError>(
            ChallengerError::InvalidGameType,
        ),
        forall|a: u8, b: u8|
            a <= 2 && b <= 2 && a != b ==> classify_tag(a) != classify_tag(b),
{
}

/// The challenger's operating modes.
#[derive(Clone, Copy, Debug, PartialEq, Eq, Structural)]
pub enum ChallengerMode {
    /// Detect and report divergences without ever sending a transaction.
    ListenOnly,
    /// Detect divergences and respond with challenge transactions.
    ListenAndRespond,
}

impl Default for ChallengerMode {
    /// The challenger responds unless told otherwise.
    fn default() -> (r: Self)
        ensures
            r == ChallengerMode::ListenAndRespond,
    {
        ChallengerMode::ListenAndRespond
    }
}

/// What parsing an operating-mode string yields.
pub open spec fn mode_of_str(s: Seq<char>) -> Result<ChallengerMode, ChallengerError> {
    if s == "listen-only"@ {
        Ok(ChallengerMode::ListenOnly)
    } else if s == "listen-and-respond"@ {
        Ok(ChallengerMode::ListenAndRespond)
    } else {
        Err(ChallengerError::InvalidMode)
    }
}

impl ChallengerMode {
    /// Parse an operating mode from its command-line spelling.
    pub fn from_str(s: &str) -> (r: Result<ChallengerMode, ChallengerError>)
        ensures
            r == mode_of_str(s@),
    {
        let owned: String = s.to_owned();
        if owned == String::from_str("listen-only") {
            Ok(ChallengerMode::ListenOnly)
        } else if owned == String::from_str("listen-and-respond") {
            Ok(ChallengerMode::ListenAndRespond)
        } else {
            Err(ChallengerError::InvalidMode)
        }
    }
}

/// What the factory driver records of one game-creation event. On-chain
/// claims are append-only facts, so a record is never updated in place.
#[derive(Clone, Copy, Debug, PartialEq, Eq)]
pub struct DisputeGameRecord {
    pub game_type: GameType,
    pub creation_block: u64,
    pub disputed_block: u64,
    pub claimed_root: OutputRoot,
}

/// A challenge raised against a false claim, carrying the trusted root as
/// evidence; consumed exactly once by the dispatch driver.
#[derive(Clone, Copy, Debug, PartialEq, Eq)]
pub struct ChallengeRequest {
    pub game: DisputeGameRecord,
    pub evidence: OutputRoot,
}

} // verus!

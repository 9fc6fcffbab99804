//! The shared driver configuration and the startup rule that gates the
//! signing key on the operating mode.

use vstd::prelude::*;
use vstd::array::spec_array_fill_for_copy_type;
use vstd::array::array_fill_for_copy_types;
use crate::types::Address;
use crate::types::ChallengerError;
use crate::types::ChallengerMode;

verus! {

/// A 32-byte signing key. The all-zero key is the placeholder identity that
/// listen-only mode binds to so the transport keeps its signing-capable
/// shape without ever signing a real transaction.
#[derive(Clone, Copy, Debug, PartialEq, Eq)]
pub struct SignerKey {
    pub bytes: [u8; 32],
}

impl View for SignerKey {
    type V = Seq<u8>;

    open spec fn view(&self) -> Seq<u8> {
        self.bytes@
    }
}

/// The all-zero placeholder identity.
pub open spec fn placeholder_key() -> SignerKey {
    SignerKey { bytes: spec_array_fill_for_copy_type::<u8, 32>(0u8) }
}

impl SignerKey {
    /// Whether this key is the all-zero placeholder.
    pub open spec fn is_placeholder(self) -> bool {
        forall|i: int| 0 <= i < 32 ==> self@[i] == 0
    }

    /// The placeholder identity, spelled out.
    pub fn placeholder() -> (r: SignerKey)
        ensures
            r == placeholder_key(),
            r.is_placeholder(),
    {
        SignerKey { bytes: array_fill_for_copy_types::<u8, 32>(0u8) }
    }
}

/// What startup resolves the signing key to, given the mode and what was
/// supplied: listen-and-respond demands a key; listen-only accepts a missing
/// key and substitutes the placeholder.
pub open spec fn resolved_key(mode: ChallengerMode, key: Option<SignerKey>) -> Result<
    SignerKey,
    ChallengerError,
> {
    match mode {
        ChallengerMode::ListenAndRespond => match key {
            Some(k) => Ok(k),
            None => Err(ChallengerError::MissingSignerKey),
        },
        ChallengerMode::ListenOnly => match key {
            Some(k) => Ok(k),
            None => Ok(placeholder_key()),
        },
    }
}

/// Resolve the signing key for the selected mode, before any driver starts.
pub fn resolve_signer_key(mode: ChallengerMode, key: Option<SignerKey>) -> (r: Result<
    SignerKey,
    ChallengerError,
>)
    ensures
        r == resolved_key(mode, key),
{
    match key {
        Some(k) => Ok(k),
        None => match mode {
            ChallengerMode::ListenAndRespond => Err(ChallengerError::MissingSignerKey),
            ChallengerMode::ListenOnly => Ok(SignerKey::placeholder()),
        },
    }
}

/// Law: listen-only never requires a real signing key — resolution succeeds
/// for every supplied option, and a missing key becomes the placeholder —
/// while listen-and-respond fails exactly when no key is supplied.
pub proof fn lemma_mode_gates_key(key: Option<SignerKey>)
    ensures
        resolved_key(ChallengerMode::ListenOnly, key) is Ok,
        key is None ==> resolved_key(ChallengerMode::ListenOnly, key)
            == Ok::<SignerKey, ChallengerError>(placeholder_key()),
        resolved_key(ChallengerMode::ListenAndRespond, key) is Err <==> key is None,
{
}

/// The one configuration value every driver loop shares. Built once, after
/// the key is resolved for the mode; read-only afterwards. The two chain
/// endpoints stay with the shell as opaque handles; the core keeps what its
/// decisions read.
#[derive(Clone, Copy, Debug, PartialEq, Eq)]
pub struct DriverConfig {
    pub dispute_game_factory: Address,
    pub l2_output_oracle: Address,
    pub signer_key: SignerKey,
    pub mode: ChallengerMode,
}

impl DriverConfig {
    /// Build the shared configuration.
    pub fn new(
        dispute_game_factory: Address,
        l2_output_oracle: Address,
        signer_key: SignerKey,
        mode: ChallengerMode,
    ) -> (r: DriverConfig)
        ensures
            r.dispute_game_factory == dispute_game_factory,
            r.l2_output_oracle == l2_output_oracle,
            r.signer_key == signer_key,
            r.mode == mode,
    {
        DriverConfig { dispute_game_factory, l2_output_oracle, signer_key, mode }
    }
}

} // verus!

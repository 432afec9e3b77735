//! The credential flow: obtain a bridge credential, either from the
//! stored credential file or by registering with the bridge, which blocks
//! on a physical link confirmation.
//!
//! The flow is an explicit state machine. The caller performs each
//! pending I/O action (read the file, request registration, wait and
//! request again, persist the credential) and feeds the outcome back as
//! an event; the machine makes every decision.

use vstd::prelude::*;

verus! {

/// Why the credential flow gave up. "Link not yet confirmed" is absent on
/// purpose: it is a poll-and-wait condition, not a failure.
#[derive(Clone, Copy, Debug, PartialEq, Eq, Structural)]
pub enum CredentialFailure {
    /// The stored credential file exists but could not be read.
    StoredUnreadable,
    /// The bridge refused registration for some reason other than the
    /// link confirmation still being pending.
    RegistrationRefused,
    /// The freshly issued credential could not be written to the
    /// credential file.
    PersistFailed,
}

/// Where the credential flow stands. `Done` and `Failed` are terminal.
#[derive(Debug, PartialEq, Eq)]
pub enum CredentialState {
    /// About to read the stored credential file.
    ReadStored,
    /// About to request registration from the bridge.
    Register,
    /// The link confirmation is still pending: wait, then request again.
    AwaitLink,
    /// Registration issued a credential; about to write it to the file.
    Persist { username: String },
    /// A valid credential is at hand.
    Done { username: String },
    Failed { reason: CredentialFailure },
}

/// The outcome of the I/O action a state asks for.
#[derive(Debug, PartialEq, Eq)]
pub enum CredentialEvent {
    /// The credential file was read.
    StoredFound { username: String },
    /// The credential file does not exist.
    StoredMissing,
    /// The credential file exists but reading it failed.
    StoredUnreadable,
    /// The bridge issued a credential.
    Registered { username: String },
    /// The bridge reported that the link button has not been pressed yet.
    LinkNotPressed,
    /// The bridge refused registration for any other reason.
    RegisterRefused,
    /// The credential was written to the file.
    Persisted,
    /// Writing the credential file failed.
    PersistFailed,
}

/// The I/O action a state asks its caller to perform next.
#[derive(Debug, PartialEq, Eq)]
pub enum CredentialAction {
    /// Read the stored credential file.
    ReadStoredFile,
    /// Request registration from the bridge.
    RequestRegistration,
    /// Wait one poll period, then request registration again.
    WaitThenRequestAgain,
    /// Write this credential to the credential file.
    PersistCredential { username: String },
    /// Terminal: nothing left to do.
    Stop,
}

/// Whether an event can answer the action this state asks for.
pub open spec fn spec_expects(state: CredentialState, event: CredentialEvent) -> bool {
    match state {
        CredentialState::ReadStored => event matches CredentialEvent::StoredFound { .. } || event
            matches CredentialEvent::StoredMissing || event
            matches CredentialEvent::StoredUnreadable,
        CredentialState::Register | CredentialState::AwaitLink => event
            matches CredentialEvent::Registered { .. } || event
            matches CredentialEvent::LinkNotPressed || event
            matches CredentialEvent::RegisterRefused,
        CredentialState::Persist { .. } => event matches CredentialEvent::Persisted || event
            matches CredentialEvent::PersistFailed,
        CredentialState::Done { .. } => false,
        CredentialState::Failed { .. } => false,
    }
}

/// The transition relation: a stored credential or a persisted fresh one
/// ends the flow; a missing file starts registration; a pending link
/// confirmation loops through `AwaitLink`; everything else fails with its
/// reason.
pub open spec fn spec_step(state: CredentialState, event: CredentialEvent) -> CredentialState {
    match event {
        CredentialEvent::StoredFound { username } => CredentialState::Done { username },
        CredentialEvent::StoredMissing => CredentialState::Register,
        CredentialEvent::StoredUnreadable => CredentialState::Failed {
            reason: CredentialFailure::StoredUnreadable,
        },
        CredentialEvent::Registered { username } => CredentialState::Persist { username },
        CredentialEvent::LinkNotPressed => CredentialState::AwaitLink,
        CredentialEvent::RegisterRefused => CredentialState::Failed {
            reason: CredentialFailure::RegistrationRefused,
        },
        CredentialEvent::Persisted => match state {
            CredentialState::Persist { username } => CredentialState::Done { username },
            _ => state,
        },
        CredentialEvent::PersistFailed => CredentialState::Failed {
            reason: CredentialFailure::PersistFailed,
        },
    }
}

/// The action each state asks for: terminal states ask for nothing.
pub open spec fn spec_action(state: CredentialState) -> CredentialAction {
    match state {
        CredentialState::ReadStored => CredentialAction::ReadStoredFile,
        CredentialState::Register => CredentialAction::RequestRegistration,
        CredentialState::AwaitLink => CredentialAction::WaitThenRequestAgain,
        CredentialState::Persist { username } => CredentialAction::PersistCredential { username },
        CredentialState::Done { .. } => CredentialAction::Stop,
        CredentialState::Failed { .. } => CredentialAction::Stop,
    }
}

/// Advances the flow by one observed event.
pub fn credential_step(state: CredentialState, event: CredentialEvent) -> (next: CredentialState)
    requires
        spec_expects(state, event),
    ensures
        next == spec_step(state, event),
{
    match event {
        CredentialEvent::StoredFound { username } => CredentialState::Done { username },
        CredentialEvent::StoredMissing => CredentialState::Register,
        CredentialEvent::StoredUnreadable => CredentialState::Failed {
            reason: CredentialFailure::StoredUnreadable,
        },
        CredentialEvent::Registered { username } => CredentialState::Persist { username },
        CredentialEvent::LinkNotPressed => CredentialState::AwaitLink,
        CredentialEvent::RegisterRefused => CredentialState::Failed {
            reason: CredentialFailure::RegistrationRefused,
        },
        CredentialEvent::Persisted => match state {
            CredentialState::Persist { username } => CredentialState::Done { username },
            other => other,
        },
        CredentialEvent::PersistFailed => CredentialState::Failed {
            reason: CredentialFailure::PersistFailed,
        },
    }
}

/// The I/O action the caller must perform for this state.
pub fn credential_action(state: &CredentialState) -> (a: CredentialAction)
    ensures
        a == spec_action(*state),
{
    match state {
        CredentialState::ReadStored => CredentialAction::ReadStoredFile,
        CredentialState::Register => CredentialAction::RequestRegistration,
        CredentialState::AwaitLink => CredentialAction::WaitThenRequestAgain,
        CredentialState::Persist { username } => CredentialAction::PersistCredential {
            username: username.clone(),
        },
        CredentialState::Done { .. } => CredentialAction::Stop,
        CredentialState::Failed { .. } => CredentialAction::Stop,
    }
}

/// A pending link confirmation never fails the flow: it always moves to
/// `AwaitLink`, whose action is to wait and ask again.
pub proof fn lemma_link_wait_is_not_failure(state: CredentialState)
    requires
        spec_expects(state, CredentialEvent::LinkNotPressed),
    ensures
        spec_step(state, CredentialEvent::LinkNotPressed) == CredentialState::AwaitLink,
        spec_action(spec_step(state, CredentialEvent::LinkNotPressed))
            == CredentialAction::WaitThenRequestAgain,
{
}

/// The flow only ends in `Done` holding a credential an event delivered:
/// either the stored one just read, or a freshly registered one — and the
/// latter only after it was persisted.
pub proof fn lemma_done_credential_provenance(state: CredentialState, event: CredentialEvent)
    requires
        spec_expects(state, event),
        spec_step(state, event) matches CredentialState::Done { .. },
    ensures
        (spec_step(state, event) matches CredentialState::Done { username } ==> ((event
            == CredentialEvent::StoredFound { username }) || (event == CredentialEvent::Persisted
            && state == CredentialState::Persist { username }))),
{
}

} // verus!

use hms2osc::pairing::CredentialAction;
use hms2osc::pairing::CredentialEvent;
use hms2osc::pairing::CredentialFailure;
use hms2osc::pairing::CredentialState;
use hms2osc::pairing::credential_action;
use hms2osc::pairing::credential_step;

#[test]
fn stored_credential_ends_the_flow() {
    let state = CredentialState::ReadStored;
    assert_eq!(credential_action(&state), CredentialAction::ReadStoredFile);
    let state = credential_step(
        state,
        CredentialEvent::StoredFound {
            username: String::from("user-1"),
        },
    );
    assert_eq!(
        state,
        CredentialState::Done {
            username: String::from("user-1")
        }
    );
    assert_eq!(credential_action(&state), CredentialAction::Stop);
}

#[test]
fn missing_file_runs_registration_and_persists() {
    let state = credential_step(CredentialState::ReadStored, CredentialEvent::StoredMissing);
    assert_eq!(state, CredentialState::Register);
    assert_eq!(
        credential_action(&state),
        CredentialAction::RequestRegistration
    );

    let state = credential_step(
        state,
        CredentialEvent::Registered {
            username: String::from("fresh"),
        },
    );
    assert_eq!(
        credential_action(&state),
        CredentialAction::PersistCredential {
            username: String::from("fresh")
        }
    );

    let state = credential_step(state, CredentialEvent::Persisted);
    assert_eq!(
        state,
        CredentialState::Done {
            username: String::from("fresh")
        }
    );
}

#[test]
fn pending_link_confirmation_waits_and_retries() {
    let state = credential_step(CredentialState::Register, CredentialEvent::LinkNotPressed);
    assert_eq!(state, CredentialState::AwaitLink);
    assert_eq!(
        credential_action(&state),
        CredentialAction::WaitThenRequestAgain
    );

    // Still pending after another attempt: keep waiting, not a failure.
    let state = credential_step(state, CredentialEvent::LinkNotPressed);
    assert_eq!(state, CredentialState::AwaitLink);

    // And a later attempt may still succeed.
    let state = credential_step(
        state,
        CredentialEvent::Registered {
            username: String::from("late"),
        },
    );
    assert_eq!(
        state,
        CredentialState::Persist {
            username: String::from("late")
        }
    );
}

#[test]
fn unreadable_file_fails() {
    let state = credential_step(CredentialState::ReadStored, CredentialEvent::StoredUnreadable);
    assert_eq!(
        state,
        CredentialState::Failed {
            reason: CredentialFailure::StoredUnreadable
        }
    );
    assert_eq!(credential_action(&state), CredentialAction::Stop);
}

#[test]
fn refused_registration_fails() {
    let state = credential_step(CredentialState::AwaitLink, CredentialEvent::RegisterRefused);
    assert_eq!(
        state,
        CredentialState::Failed {
            reason: CredentialFailure::RegistrationRefused
        }
    );
}

#[test]
fn failed_persist_fails() {
    let state = credential_step(
        CredentialState::Persist {
            username: String::from("fresh"),
        },
        CredentialEvent::PersistFailed,
    );
    assert_eq!(
        state,
        CredentialState::Failed {
            reason: CredentialFailure::PersistFailed
        }
    );
}

use iris_cli::errors::{Error, SecretField};
use iris_cli::orchestrator::{orchestrate_step, OrchestratorEvent, Phase};
use iris_cli::resolver::secret_from_prompts;

#[test]
fn successful_run_passes_through_every_phase() {
    let p = Phase::Idle;
    let p = orchestrate_step(p, OrchestratorEvent::ResolutionSucceeded);
    assert_eq!(p, Phase::SecretResolved);
    let p = orchestrate_step(p, OrchestratorEvent::WorkerSpawned);
    assert_eq!(p, Phase::WorkerRunning);
    let p = orchestrate_step(p, OrchestratorEvent::DrainStarted);
    assert_eq!(p, Phase::Draining);
    let p = orchestrate_step(p, OrchestratorEvent::StreamEnded);
    assert_eq!(p, Phase::Done { exit_code: 0 });
}

#[test]
fn handshake_failure_never_spawns_a_worker() {
    let p = orchestrate_step(Phase::Idle, OrchestratorEvent::ResolutionFailed);
    assert_eq!(p, Phase::Done { exit_code: 1 });
    // The terminal phase absorbs every later event: the worker and the
    // drain loop are unreachable after a failed handshake.
    let p = orchestrate_step(p, OrchestratorEvent::WorkerSpawned);
    assert_eq!(p, Phase::Done { exit_code: 1 });
    let p = orchestrate_step(p, OrchestratorEvent::StreamEnded);
    assert_eq!(p, Phase::Done { exit_code: 1 });
}

#[test]
fn logged_failure_ends_the_run_with_status_one() {
    let p = orchestrate_step(Phase::Draining, OrchestratorEvent::FailureLogged);
    assert_eq!(p, Phase::Done { exit_code: 1 });
}

#[test]
fn out_of_phase_events_change_nothing() {
    assert_eq!(
        orchestrate_step(Phase::Idle, OrchestratorEvent::StreamEnded),
        Phase::Idle
    );
    assert_eq!(
        orchestrate_step(Phase::WorkerRunning, OrchestratorEvent::WorkerSpawned),
        Phase::WorkerRunning
    );
}

#[test]
fn unreadable_room_prompt_reports_the_room_field() {
    let r = secret_from_prompts(None, None);
    assert!(matches!(
        r,
        Err(Error::SecretInputUnavailable {
            field: SecretField::RoomIdentifier
        })
    ));
    assert!(r
        .unwrap_err()
        .is_input_unavailable(SecretField::RoomIdentifier));
}

#[test]
fn unreadable_passphrase_prompt_reports_the_passphrase_field() {
    let r = secret_from_prompts(Some("42".to_string()), None);
    assert!(matches!(
        r,
        Err(Error::SecretInputUnavailable {
            field: SecretField::Passphrase
        })
    ));
}

#[test]
fn successful_prompts_build_the_secret() {
    let sec = secret_from_prompts(Some("42".to_string()), Some("pass".to_string())).unwrap();
    assert_eq!(sec.room_identifier, "42");
    assert_eq!(sec.passphrase, "pass");
}

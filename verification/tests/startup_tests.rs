use metrics_gateway::startup::{startup_exit_code, startup_outcome, StartupError};

#[test]
fn unreachable_producer_aborts_startup() {
    let r = startup_outcome(false, &vec![true, true]);
    assert_eq!(r, Err(StartupError::ConnectFailed));
    assert_ne!(startup_exit_code(&r), 0);
}

#[test]
fn any_bind_failure_aborts_startup() {
    let r = startup_outcome(true, &vec![true, false, true]);
    assert_eq!(r, Err(StartupError::BindFailed(1)));
    assert_ne!(startup_exit_code(&r), 0);
}

#[test]
fn full_success_begins_serving() {
    let r = startup_outcome(true, &vec![true, true]);
    assert_eq!(r, Ok(()));
    assert_eq!(startup_exit_code(&r), 0);
}

#[test]
fn empty_bind_set_only_needs_the_connect() {
    assert_eq!(startup_outcome(true, &vec![]), Ok(()));
    assert_eq!(
        startup_outcome(false, &vec![]),
        Err(StartupError::ConnectFailed)
    );
}

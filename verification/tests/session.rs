use dofus_vision::session::CaptureCommand;
use dofus_vision::session::SessionError;
use dofus_vision::session::SessionManager;
use dofus_vision::session::SessionState;

fn stops_of(cmds: &[CaptureCommand], id: u32) -> usize {
    cmds.iter()
        .filter(|c| matches!(c, CaptureCommand::Stop { window_id } if *window_id == id))
        .count()
}

#[test]
fn start_twice_stops_first_exactly_once() {
    let mut m = SessionManager::new();
    let first_cmds = m.start(1, 640, 480);
    m.confirm_start(true).expect("the stream opened");
    assert_eq!(m.state, SessionState::Active { window_id: 1 });

    let second_cmds = m.start(2, 800, 600);
    m.confirm_start(true).expect("the stream opened");
    assert_eq!(m.state, SessionState::Active { window_id: 2 });

    let mut all = first_cmds.clone();
    all.extend(second_cmds.iter().cloned());
    assert_eq!(stops_of(&all, 1), 1);
    assert_eq!(
        second_cmds,
        vec![
            CaptureCommand::Stop { window_id: 1 },
            CaptureCommand::Open { window_id: 2, width: 800, height: 600, show_cursor: false },
        ]
    );
}

#[test]
fn start_from_idle_only_opens() {
    let mut m = SessionManager::new();
    let cmds = m.start(7, 320, 240);
    assert_eq!(
        cmds,
        vec![CaptureCommand::Open { window_id: 7, width: 320, height: 240, show_cursor: false }]
    );
    assert_eq!(m.state, SessionState::Starting { window_id: 7 });
}

#[test]
fn stop_on_idle_is_a_no_op() {
    let mut m = SessionManager::new();
    let cmds = m.stop();
    assert!(cmds.is_empty());
    assert_eq!(m.state, SessionState::Idle);
}

#[test]
fn stop_on_active_emits_one_stop() {
    let mut m = SessionManager::new();
    m.start(9, 100, 100);
    m.confirm_start(true).expect("the stream opened");
    let cmds = m.stop();
    assert_eq!(cmds, vec![CaptureCommand::Stop { window_id: 9 }]);
    assert_eq!(m.state, SessionState::Idle);
}

#[test]
fn confirm_failure_reverts_to_idle() {
    let mut m = SessionManager::new();
    m.start(4, 100, 100);
    let err = m.confirm_start(false).expect_err("the OS rejected the stream");
    assert_eq!(err, SessionError::StreamUnavailable);
    assert_eq!(m.state, SessionState::Idle);
}

#[test]
fn start_while_starting_stops_the_pending_stream() {
    let mut m = SessionManager::new();
    m.start(1, 100, 100);
    let cmds = m.start(2, 200, 200);
    assert_eq!(
        cmds,
        vec![
            CaptureCommand::Stop { window_id: 1 },
            CaptureCommand::Open { window_id: 2, width: 200, height: 200, show_cursor: false },
        ]
    );
}

use appinsights::channel::{send_command, ShutdownState, SupervisorDecision, WorkerExit};
use appinsights::channel::supervise;
use appinsights::worker::Command;

#[test]
fn it_shuts_down_only_on_the_first_request() {
    let mut s = ShutdownState::new();
    assert!(s.request());
    assert!(!s.request());
    assert!(!s.request());
    assert!(s.requested);
}

#[test]
fn it_stops_the_supervisor_on_a_graceful_exit() {
    assert_eq!(supervise(WorkerExit::Graceful, false), SupervisorDecision::Stop);
    assert_eq!(supervise(WorkerExit::Graceful, true), SupervisorDecision::Stop);
}

#[test]
fn it_restarts_a_crashed_worker_unless_shutdown_was_requested() {
    assert_eq!(supervise(WorkerExit::Crashed, false), SupervisorDecision::Restart);
    assert_eq!(supervise(WorkerExit::Crashed, true), SupervisorDecision::Stop);
}

#[test]
fn it_delivers_commands_while_the_receiver_lives() {
    let (sender, mut receiver) = futures_channel::mpsc::unbounded();
    assert!(send_command(&sender, Command::Flush));
    assert_eq!(receiver.try_next().unwrap(), Some(Command::Flush));
}

#[test]
fn it_drops_commands_once_the_receiver_is_gone() {
    let (sender, receiver) = futures_channel::mpsc::unbounded::<Command>();
    drop(receiver);
    assert!(!send_command(&sender, Command::Close));
}

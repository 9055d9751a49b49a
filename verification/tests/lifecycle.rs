use mouse_poller::controller::ControlStatus;
use mouse_poller::controller::PollerController;

#[test]
fn start_is_idempotent_and_single_session() {
    let mut c = PollerController::new();
    assert!(!c.active);
    assert_eq!(c.on_start(), ControlStatus::Started);
    assert!(c.active);
    assert_eq!(c.on_start(), ControlStatus::AlreadyRunning);
    assert_eq!(c.on_start(), ControlStatus::AlreadyRunning);
    assert!(c.active, "repeated starts keep exactly one session active");
}

#[test]
fn stop_clears_the_slot_and_is_idempotent() {
    let mut c = PollerController::new();
    assert_eq!(c.on_stop(), ControlStatus::NotRunning, "stopping with no session has no effect");
    assert!(!c.active);
    c.on_start();
    assert_eq!(c.on_stop(), ControlStatus::Stopping);
    assert!(!c.active, "the slot is cleared at once, before the thread terminates");
    assert_eq!(c.on_stop(), ControlStatus::NotRunning);
    assert!(!c.active);
}

#[test]
fn stop_then_start_proceeds_immediately() {
    let mut c = PollerController::new();
    assert_eq!(c.on_start(), ControlStatus::Started);
    assert_eq!(c.on_stop(), ControlStatus::Stopping);
    assert_eq!(c.on_start(), ControlStatus::Started, "a new session may start right after stop");
}

#[test]
fn combined_control_command() {
    let mut c = PollerController::new();
    assert_eq!(c.on_control(true), ControlStatus::Started);
    assert_eq!(c.on_control(true), ControlStatus::AlreadyRunning);
    assert_eq!(c.on_control(false), ControlStatus::Stopping);
    assert_eq!(c.on_control(false), ControlStatus::NotRunning);
}

#[test]
fn status_messages() {
    assert_eq!(ControlStatus::Started.message(), "started");
    assert_eq!(ControlStatus::AlreadyRunning.message(), "already running");
    assert_eq!(ControlStatus::Stopping.message(), "stopping");
    assert_eq!(ControlStatus::NotRunning.message(), "not running");
}

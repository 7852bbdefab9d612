use pisays::attrs::{LinkConfig, TermAttrs, B115200, ECHO, ICANON};
use pisays::link::{
    OpenAction, OpenEvent, OpenPhase, Serial, SerialError, Transfer, WriteAction,
};

fn config() -> LinkConfig {
    LinkConfig { baud: B115200, echo_enabled: false, receive_enabled: false }
}

fn fetched() -> TermAttrs {
    TermAttrs { iflag: 0, oflag: 1, cflag: 0o000400, lflag: ICANON | ECHO, ospeed: 0o15 }
}

/// A stand-in for the operating system that fails where told and records the
/// descriptors it closes.
struct FakeOs {
    open_ret: i32,
    fetch_ok: bool,
    commit_ok: bool,
    opened: Vec<String>,
    closed: Vec<i32>,
    committed: Vec<TermAttrs>,
}

impl FakeOs {
    fn new(open_ret: i32, fetch_ok: bool, commit_ok: bool) -> FakeOs {
        FakeOs {
            open_ret,
            fetch_ok,
            commit_ok,
            opened: Vec::new(),
            closed: Vec::new(),
            committed: Vec::new(),
        }
    }

    fn open_link(&mut self) -> Result<Serial, SerialError> {
        let mut opener = Serial::new(String::from("/dev/ttyUSB1"), config());
        let mut action = opener.step(OpenEvent::Begin);
        loop {
            let event = match action {
                OpenAction::OpenDevice { path } => {
                    self.opened.push(path);
                    OpenEvent::OpenReturned { ret: self.open_ret, code: 2 }
                }
                OpenAction::FetchAttrs { .. } => {
                    if self.fetch_ok {
                        OpenEvent::Fetched { attrs: fetched() }
                    } else {
                        OpenEvent::FetchFailed { code: 25 }
                    }
                }
                OpenAction::Commit { attrs, .. } => {
                    if self.commit_ok {
                        self.committed.push(attrs);
                        OpenEvent::Committed
                    } else {
                        OpenEvent::CommitFailed { code: 22 }
                    }
                }
                OpenAction::Ready(serial) => return Ok(serial),
                OpenAction::CloseAndFail { fd, error } => {
                    self.closed.push(fd);
                    return Err(error);
                }
                OpenAction::Fail(error) => return Err(error),
                OpenAction::Ignore => panic!("event out of order"),
            };
            action = opener.step(event);
        }
    }
}

fn drive(t: &mut Transfer, results: &[isize], code: i32) -> (Vec<usize>, Result<(), SerialError>) {
    let mut starts = Vec::new();
    let mut k = 0;
    loop {
        match t.action() {
            WriteAction::Send { start, .. } => {
                starts.push(start);
                t.record(results[k], code);
                k += 1;
            }
            WriteAction::Finish(r) => return (starts, r),
        }
    }
}

#[test]
fn open_configures_and_hands_over_link() {
    let mut os = FakeOs::new(3, true, true);
    let serial = os.open_link().unwrap();
    assert_eq!(serial.fd(), 3);
    let mut expected = fetched();
    expected.make_raw(&config());
    assert_eq!(serial.attrs(), expected);
    assert_eq!(os.committed, vec![expected]);
    assert!(os.closed.is_empty());
    assert_eq!(os.opened, vec![String::from("/dev/ttyUSB1")]);
    assert_eq!(serial.release(), 3);
}

#[test]
fn open_failure_is_os_error_without_descriptor() {
    let mut os = FakeOs::new(-1, true, true);
    assert_eq!(os.open_link().unwrap_err(), SerialError::OS(2));
    assert!(os.closed.is_empty());
    assert!(os.committed.is_empty());
    assert_eq!(os.opened.len(), 1);
}

#[test]
fn commit_failure_closes_descriptor() {
    let mut os = FakeOs::new(4, true, false);
    assert_eq!(os.open_link().unwrap_err(), SerialError::Termios(22));
    assert_eq!(os.closed, vec![4]);
}

#[test]
fn fetch_failure_closes_descriptor() {
    let mut os = FakeOs::new(5, false, true);
    assert_eq!(os.open_link().unwrap_err(), SerialError::Termios(25));
    assert_eq!(os.closed, vec![5]);
}

#[test]
fn out_of_order_events_are_ignored() {
    let mut opener = Serial::new(String::from("/dev/ttyUSB1"), config());
    assert!(matches!(opener.step(OpenEvent::Committed), OpenAction::Ignore));
    assert_eq!(opener.phase(), OpenPhase::Start);
    match opener.step(OpenEvent::Begin) {
        OpenAction::OpenDevice { path } => assert_eq!(path, "/dev/ttyUSB1"),
        other => panic!("unexpected {:?}", other),
    }
    assert_eq!(opener.path(), "/dev/ttyUSB1");
    assert!(matches!(opener.step(OpenEvent::Begin), OpenAction::Ignore));
    assert_eq!(opener.phase(), OpenPhase::Opening);
    assert_eq!(opener.config(), config());
    assert!(matches!(
        opener.step(OpenEvent::OpenReturned { ret: 0, code: 0 }),
        OpenAction::FetchAttrs { fd: 0 }
    ));
}

#[test]
fn no_second_link_after_ready() {
    let mut opener = Serial::new(String::from("/dev/ttyUSB1"), config());
    opener.step(OpenEvent::Begin);
    opener.step(OpenEvent::OpenReturned { ret: 7, code: 0 });
    opener.step(OpenEvent::Fetched { attrs: fetched() });
    assert!(matches!(opener.step(OpenEvent::Committed), OpenAction::Ready(_)));
    assert_eq!(opener.phase(), OpenPhase::Done);
    assert!(matches!(opener.step(OpenEvent::Committed), OpenAction::Ignore));
}

fn ready_link(fd: i32) -> Serial {
    let mut os = FakeOs::new(fd, true, true);
    os.open_link().unwrap()
}

#[test]
fn empty_write_is_one_zero_length_transfer() {
    let serial = ready_link(3);
    let mut t = serial.write(&[]);
    assert!(matches!(t.action(), WriteAction::Send { fd: 3, start: 0 }));
    let (starts, r) = drive(&mut t, &[0], 0);
    assert_eq!(starts, vec![0]);
    assert_eq!(r, Ok(()));
}

#[test]
fn failing_write_is_os_error() {
    let serial = ready_link(3);
    let mut t = serial.write(b"Hello, world!\n");
    let (starts, r) = drive(&mut t, &[-1], 9);
    assert_eq!(starts, vec![0]);
    assert_eq!(r, Err(SerialError::OS(9)));
    assert_eq!(t.sent(), 0);
}

#[test]
fn short_writes_continue_until_all_sent() {
    let serial = ready_link(3);
    let mut t = serial.write(b"Hello, world!\n");
    let (starts, r) = drive(&mut t, &[5, 0, 4, 100], 0);
    assert_eq!(starts, vec![0, 5, 5, 9]);
    assert_eq!(r, Ok(()));
    assert_eq!(t.sent(), 14);
}

#[test]
fn finished_transfer_stays_finished() {
    let serial = ready_link(3);
    let mut t = serial.write(b"ab");
    t.record(2, 0);
    t.record(-1, 5);
    assert!(matches!(t.action(), WriteAction::Finish(Ok(()))));
}

#[test]
fn link_keeps_fetched_snapshot() {
    let serial = ready_link(6);
    assert_eq!(serial.saved(), fetched());
    assert_ne!(serial.attrs(), serial.saved());
}

use xallfirewall::capture::{CaptureLoop, LoopAction, LoopEvent};
use xallfirewall::error::CaptureError;
use xallfirewall::initialize_lib;
use xallfirewall::interface::{detect_network_activity, NetworkInterface, OperStatus};
use xallfirewall::orchestrator::{Orchestrator, ScanAction};
use xallfirewall::packet::CapturedPacket;
use xallfirewall::session::{CaptureSession, OpenAction, OpenStep, SessionOpener, StepOutcome};
use xallfirewall::stack::{StackAcquire, StackRegistry, StackRelease};

/// A stand-in for the operating system that counts every resource it hands out
/// and takes back, and fails one chosen step.
struct FakeOs {
    stack_inits: usize,
    stack_cleanups: usize,
    sockets_created: usize,
    sockets_closed: Vec<usize>,
    next_handle: usize,
    fail: Option<(OpenStep, i32)>,
    handled: Vec<CapturedPacket>,
}

impl FakeOs {
    fn new() -> FakeOs {
        FakeOs {
            stack_inits: 0,
            stack_cleanups: 0,
            sockets_created: 0,
            sockets_closed: Vec::new(),
            next_handle: 100,
            fail: None,
            handled: Vec::new(),
        }
    }

    fn failing(step: OpenStep, code: i32) -> FakeOs {
        let mut os = FakeOs::new();
        os.fail = Some((step, code));
        os
    }

    fn fails(&self, step: OpenStep) -> Option<i32> {
        let same = |a: OpenStep, b: OpenStep| std::mem::discriminant(&a) == std::mem::discriminant(&b);
        match self.fail {
            Some((s, code)) if same(s, step) => Some(code),
            _ => None,
        }
    }

    fn perform(&mut self, step: OpenStep, stack: &mut StackRegistry) -> StepOutcome {
        if step == OpenStep::InitStack {
            let outcome = match stack.acquire() {
                StackAcquire::Initialize => {
                    let r = match self.fails(step) {
                        Some(code) => Err(code),
                        None => {
                            self.stack_inits += 1;
                            Ok(())
                        }
                    };
                    stack.initialized(r)
                }
                StackAcquire::Shared => Ok(()),
            };
            return match outcome {
                Ok(()) => StepOutcome::Done,
                Err(code) => StepOutcome::Failed { code },
            };
        }
        if let OpenStep::EnableHeaderIncluded { handle } | OpenStep::Bind { handle } = step {
            assert_eq!(handle, self.next_handle, "steps act on the socket just created");
        }
        if let Some(code) = self.fails(step) {
            return StepOutcome::Failed { code };
        }
        if step == OpenStep::CreateSocket {
            self.sockets_created += 1;
            self.next_handle += 1;
            return StepOutcome::SocketCreated { handle: self.next_handle };
        }
        StepOutcome::Done
    }

    fn release(&mut self, handle: Option<usize>, release_stack: bool, stack: &mut StackRegistry) {
        if let Some(h) = handle {
            self.sockets_closed.push(h);
        }
        if release_stack && stack.release() == StackRelease::Cleanup {
            self.stack_cleanups += 1;
        }
    }

    fn open(&mut self, name: &str, stack: &mut StackRegistry) -> Result<CaptureSession, CaptureError> {
        let (mut opener, mut action) = SessionOpener::new();
        loop {
            match action {
                OpenAction::Perform { step } => {
                    let outcome = self.perform(step, stack);
                    action = opener.step(outcome);
                }
                OpenAction::Abort { close_socket, release_stack, error } => {
                    self.release(close_socket, release_stack, stack);
                    return Err(error);
                }
                OpenAction::Opened { handle } => {
                    return Ok(CaptureSession::opened(handle, name.to_string()));
                }
                OpenAction::Idle => panic!("open sequence ended without a result"),
            }
        }
    }

    fn close(&mut self, session: &mut CaptureSession, stack: &mut StackRegistry) {
        let handle = session.close();
        let held = handle.is_some();
        self.release(handle, held, stack);
    }

    fn capture(&mut self, events: Vec<LoopEvent>) -> Result<(), CaptureError> {
        let (mut lp, mut action) = CaptureLoop::new();
        let mut script = events.into_iter();
        loop {
            match action {
                LoopAction::Deliver { packet } => {
                    self.handled.push(packet);
                    return Ok(());
                }
                LoopAction::Finish { result } => return result,
                _ => {}
            }
            let event = script.next().unwrap_or(LoopEvent::TimedOut);
            let cancelled = script.len() == 0;
            action = lp.step(event, cancelled);
        }
    }
}

fn datagram() -> Vec<u8> {
    let mut bytes = vec![0u8; 24];
    bytes[0] = 0x45;
    bytes[12..16].copy_from_slice(&[10, 0, 0, 5]);
    bytes[16..20].copy_from_slice(&[93, 184, 216, 34]);
    bytes
}

/// Runs a whole scan: one session per planned interface, each closed whatever
/// its capture returned. Returns the interfaces sessions were opened on.
fn scan(os: &mut FakeOs, stack: &mut StackRegistry, orchestrator: &mut Orchestrator) -> Vec<String> {
    let mut opened = Vec::new();
    while let ScanAction::Capture { interface } = orchestrator.next_action() {
        let result = match os.open(&interface, stack) {
            Ok(mut session) => {
                opened.push(interface.clone());
                let r = os.capture(vec![LoopEvent::Readable, LoopEvent::Received { bytes: datagram() }]);
                os.close(&mut session, stack);
                r
            }
            Err(e) => Err(e),
        };
        orchestrator.record(result);
    }
    opened
}

#[test]
fn end_to_end_scan_opens_only_the_up_interface() {
    initialize_lib();
    let interfaces = vec![
        NetworkInterface::new("eth0".to_string(), OperStatus::Up),
        NetworkInterface::new("lo".to_string(), OperStatus::Down),
    ];
    assert!(interfaces.iter().all(|i| detect_network_activity(&i.name)));
    let mut os = FakeOs::new();
    let mut stack = StackRegistry::new();
    let mut orchestrator = Orchestrator::new(&interfaces);
    let opened = scan(&mut os, &mut stack, &mut orchestrator);
    assert_eq!(opened, vec!["eth0".to_string()]);
    assert!(orchestrator.failures().is_empty());
    assert!(orchestrator.is_done());
    assert_eq!(os.handled.len(), 1);
    assert_eq!(os.handled[0].summary(), Some("Src: 10.0.0.5, Dest: 93.184.216.34".to_string()));
    assert_eq!(os.sockets_created, os.sockets_closed.len());
    assert_eq!(os.stack_inits, 1);
    assert_eq!(os.stack_cleanups, 1);
    assert_eq!(stack.holder_count(), 0);
}

#[test]
fn interfaces_that_are_down_are_never_opened() {
    let interfaces = vec![
        NetworkInterface::new("eth0".to_string(), OperStatus::Down),
        NetworkInterface::new("wlan0".to_string(), OperStatus::Down),
        NetworkInterface::new("tun0".to_string(), OperStatus::Unknown),
    ];
    let mut os = FakeOs::new();
    let mut stack = StackRegistry::new();
    let mut orchestrator = Orchestrator::new(&interfaces);
    assert!(orchestrator.targets().is_empty());
    assert!(matches!(orchestrator.next_action(), ScanAction::Done));
    let opened = scan(&mut os, &mut stack, &mut orchestrator);
    assert!(opened.is_empty());
    assert_eq!(os.sockets_created, 0);
    assert_eq!(os.stack_inits, 0);
}

#[test]
fn scan_targets_keep_enumeration_order() {
    let interfaces = vec![
        NetworkInterface::new("eth1".to_string(), OperStatus::Up),
        NetworkInterface::new("lo".to_string(), OperStatus::Down),
        NetworkInterface::new("eth0".to_string(), OperStatus::Up),
    ];
    let orchestrator = Orchestrator::new(&interfaces);
    assert_eq!(orchestrator.targets(), &vec!["eth1".to_string(), "eth0".to_string()]);
}

#[test]
fn failure_on_one_interface_does_not_stop_the_scan() {
    let interfaces = vec![
        NetworkInterface::new("eth0".to_string(), OperStatus::Up),
        NetworkInterface::new("eth1".to_string(), OperStatus::Up),
    ];
    let mut stack = StackRegistry::new();
    let mut orchestrator = Orchestrator::new(&interfaces);
    let mut os = FakeOs::failing(OpenStep::Bind { handle: 0 }, 10049);
    let first = match orchestrator.next_action() {
        ScanAction::Capture { interface } => interface,
        ScanAction::Done => panic!("eth0 should be planned"),
    };
    assert_eq!(first, "eth0");
    let r = os.open(&first, &mut stack).map(|_| ());
    orchestrator.record(r);
    os.fail = None;
    let opened = scan(&mut os, &mut stack, &mut orchestrator);
    assert_eq!(opened, vec!["eth1".to_string()]);
    let failures = orchestrator.failures();
    assert_eq!(failures.len(), 1);
    assert_eq!(failures[0].interface, "eth0");
    assert_eq!(failures[0].error, CaptureError::BindFailed { code: 10049 });
    assert_eq!(os.sockets_created, os.sockets_closed.len());
    assert_eq!(stack.holder_count(), 0);
}

#[test]
fn bind_rejection_leaves_nothing_open() {
    let mut os = FakeOs::failing(OpenStep::Bind { handle: 0 }, 10049);
    let mut stack = StackRegistry::new();
    let r = os.open("eth9", &mut stack);
    assert_eq!(r.err(), Some(CaptureError::BindFailed { code: 10049 }));
    assert_eq!(os.sockets_created, 1);
    assert_eq!(os.sockets_closed, vec![101]);
    assert_eq!(os.stack_inits, os.stack_cleanups);
    assert_eq!(stack.holder_count(), 0);
}

#[test]
fn each_failing_step_names_itself() {
    let cases = [
        (OpenStep::InitStack, CaptureError::StackInitFailed { code: 10091 }, 0),
        (OpenStep::CreateSocket, CaptureError::SocketCreateFailed { code: 10013 }, 0),
        (OpenStep::EnableHeaderIncluded { handle: 0 }, CaptureError::SocketOptionFailed { code: 10042 }, 1),
        (OpenStep::Bind { handle: 0 }, CaptureError::BindFailed { code: 10049 }, 1),
    ];
    for (step, error, sockets) in cases {
        let mut os = FakeOs::failing(step, error.code());
        let mut stack = StackRegistry::new();
        let r = os.open("eth0", &mut stack);
        assert_eq!(r.err(), Some(error));
        assert_eq!(os.sockets_created, sockets);
        assert_eq!(os.sockets_closed.len(), sockets);
        assert_eq!(os.stack_inits, os.stack_cleanups);
        assert_eq!(stack.holder_count(), 0);
    }
}

#[test]
fn stack_init_failure_releases_nothing() {
    let (mut opener, first) = SessionOpener::new();
    assert_eq!(first, OpenAction::Perform { step: OpenStep::InitStack });
    let a = opener.step(StepOutcome::Failed { code: 10091 });
    assert_eq!(
        a,
        OpenAction::Abort {
            close_socket: None,
            release_stack: false,
            error: CaptureError::StackInitFailed { code: 10091 },
        }
    );
    assert_eq!(opener.step(StepOutcome::Done), OpenAction::Idle);
}

#[test]
fn successful_open_hands_the_socket_to_the_session() {
    let (mut opener, _) = SessionOpener::new();
    assert_eq!(opener.step(StepOutcome::Done), OpenAction::Perform { step: OpenStep::CreateSocket });
    assert_eq!(
        opener.step(StepOutcome::SocketCreated { handle: 7 }),
        OpenAction::Perform { step: OpenStep::EnableHeaderIncluded { handle: 7 } }
    );
    assert_eq!(opener.step(StepOutcome::Done), OpenAction::Perform { step: OpenStep::Bind { handle: 7 } });
    assert_eq!(opener.step(StepOutcome::Done), OpenAction::Opened { handle: 7 });
    let s = CaptureSession::opened(7, "eth0".to_string());
    assert_eq!(s.handle(), 7);
    assert_eq!(s.bound_interface(), "eth0");
    assert!(s.header_included());
    assert!(s.is_open());
}

#[test]
fn out_of_turn_outcome_repeats_the_step() {
    let (mut opener, _) = SessionOpener::new();
    opener.step(StepOutcome::Done);
    assert_eq!(opener.step(StepOutcome::Done), OpenAction::Perform { step: OpenStep::CreateSocket });
}

#[test]
fn closing_twice_is_a_no_op_the_second_time() {
    let mut os = FakeOs::new();
    let mut stack = StackRegistry::new();
    let mut session = os.open("eth0", &mut stack).unwrap();
    assert_eq!(stack.holder_count(), 1);
    os.close(&mut session, &mut stack);
    assert!(!session.is_open());
    assert_eq!(os.sockets_closed, vec![101]);
    assert_eq!(os.stack_cleanups, 1);
    os.close(&mut session, &mut stack);
    assert_eq!(session.close(), None);
    assert_eq!(os.sockets_closed, vec![101]);
    assert_eq!(os.stack_cleanups, 1);
    assert_eq!(stack.holder_count(), 0);
}

#[test]
fn stack_is_shared_by_concurrent_sessions() {
    let mut os = FakeOs::new();
    let mut stack = StackRegistry::new();
    let mut a = os.open("eth0", &mut stack).unwrap();
    let mut b = os.open("eth1", &mut stack).unwrap();
    assert_eq!(os.stack_inits, 1);
    assert_eq!(stack.holder_count(), 2);
    os.close(&mut a, &mut stack);
    assert_eq!(os.stack_cleanups, 0);
    os.close(&mut b, &mut stack);
    assert_eq!(os.stack_cleanups, 1);
}

#[test]
fn registry_counts_holders() {
    let mut stack = StackRegistry::new();
    assert_eq!(stack.acquire(), StackAcquire::Initialize);
    assert_eq!(stack.holder_count(), 0);
    assert_eq!(stack.initialized(Err(10091)), Err(10091));
    assert_eq!(stack.holder_count(), 0);
    assert_eq!(stack.acquire(), StackAcquire::Initialize);
    assert_eq!(stack.initialized(Ok(())), Ok(()));
    assert_eq!(stack.acquire(), StackAcquire::Shared);
    assert_eq!(stack.holder_count(), 2);
    assert_eq!(stack.release(), StackRelease::Keep);
    assert_eq!(stack.release(), StackRelease::Cleanup);
    assert_eq!(stack.holder_count(), 0);
}

#[test]
fn interface_status_codes() {
    assert_eq!(OperStatus::from_oper_status_code(1), OperStatus::Up);
    assert_eq!(OperStatus::from_oper_status_code(2), OperStatus::Down);
    assert_eq!(OperStatus::from_oper_status_code(3), OperStatus::Unknown);
    assert_eq!(OperStatus::from_oper_status_code(7), OperStatus::Unknown);
    assert!(detect_network_activity("eth0"));
}

use krab3ds::capture::{CaptureLoop, LoopAction, LoopEvent, LoopState};
use krab3ds::device::{find_capture_device, is_capture_device, select_endpoint, vendor_kick, InterfaceSetting};
use krab3ds::error::CaptureError;
use krab3ds::session::{DeviceSession, Endpoint, OpOutcome, SessionStage, UsbOp};

#[test]
fn endpoint_new_keeps_fields() {
    let ep = Endpoint::new(1, 2, 3, 130);
    assert_eq!((ep.config, ep.iface, ep.setting, ep.address), (1, 2, 3, 130));
}

#[test]
fn vendor_kick_request() {
    let r = vendor_kick();
    assert_eq!(r.request_type, 0x40);
    assert_eq!(r.request, 0x40);
    assert_eq!((r.value, r.index), (0, 0));
    assert_eq!(r.payload, vec![0u8; 512]);
    assert_eq!(r.timeout_ms, 100);
}

#[test]
fn finds_capture_device() {
    assert!(is_capture_device(0x16D0, 0x06A3));
    assert!(!is_capture_device(0x16D0, 0x06A4));
    let ids = [(0x1234, 0x5678), (0x16D0, 0x06A3), (0x16D0, 0x06A3)];
    assert_eq!(find_capture_device(&ids), Ok(1));
    assert_eq!(find_capture_device(&ids[..1]), Err(CaptureError::DeviceNotFound));
    assert_eq!(find_capture_device(&[]), Err(CaptureError::DeviceNotFound));
}

#[test]
fn selects_last_endpoint_of_last_setting() {
    let interfaces = vec![
        vec![InterfaceSetting { number: 0, setting: 0, endpoints: vec![1] }],
        vec![
            InterfaceSetting { number: 1, setting: 0, endpoints: vec![2] },
            InterfaceSetting { number: 1, setting: 1, endpoints: vec![3, 130] },
        ],
    ];
    assert_eq!(select_endpoint(1, &interfaces), Ok(Endpoint::new(1, 1, 1, 130)));
}

#[test]
fn endpoint_selection_errors() {
    assert_eq!(select_endpoint(1, &vec![]), Err(CaptureError::ConfigurationError));
    assert_eq!(select_endpoint(1, &vec![vec![]]), Err(CaptureError::ConfigurationError));
    let no_endpoint = vec![vec![InterfaceSetting { number: 0, setting: 0, endpoints: vec![] }]];
    assert_eq!(select_endpoint(1, &no_endpoint), Err(CaptureError::ConfigurationError));
}

fn run_configure(session: &mut DeviceSession, driver_active: bool) -> Vec<UsbOp> {
    let mut ops = vec![session.begin_configure()];
    let mut outcome = OpOutcome::DriverActive { active: driver_active };
    while let Some(op) = session.advance(outcome) {
        ops.push(op);
        outcome = OpOutcome::Done;
    }
    ops
}

fn run_teardown(session: &mut DeviceSession) -> Vec<UsbOp> {
    let mut ops = vec![];
    let mut next = session.begin_teardown();
    while let Some(op) = next {
        ops.push(op);
        next = session.advance(OpOutcome::Done);
    }
    ops
}

#[test]
fn configure_detaches_and_teardown_reattaches() {
    let mut s = DeviceSession::new(Endpoint::new(1, 2, 3, 130));
    let ops = run_configure(&mut s, true);
    assert_eq!(
        ops,
        vec![
            UsbOp::ProbeKernelDriver { iface: 2 },
            UsbOp::DetachKernelDriver { iface: 2 },
            UsbOp::SetActiveConfiguration { config: 1 },
            UsbOp::ClaimInterface { iface: 2 },
            UsbOp::SetAlternateSetting { iface: 2, setting: 3 },
        ]
    );
    assert_eq!(s.stage, SessionStage::Ready);
    assert!(s.using_kernel_driver && s.claimed);
    assert_eq!(
        run_teardown(&mut s),
        vec![UsbOp::ReleaseInterface { iface: 2 }, UsbOp::AttachKernelDriver { iface: 2 }]
    );
    assert_eq!(s.stage, SessionStage::Closed);
}

#[test]
fn teardown_without_detach_never_attaches() {
    let mut s = DeviceSession::new(Endpoint::new(1, 2, 3, 130));
    let ops = run_configure(&mut s, false);
    assert!(!ops.contains(&UsbOp::DetachKernelDriver { iface: 2 }));
    assert!(!s.using_kernel_driver);
    assert_eq!(run_teardown(&mut s), vec![UsbOp::ReleaseInterface { iface: 2 }]);
    assert_eq!(s.stage, SessionStage::Closed);
}

#[test]
fn failed_probe_counts_as_no_driver() {
    let mut s = DeviceSession::new(Endpoint::new(1, 0, 0, 130));
    s.begin_configure();
    assert_eq!(s.advance(OpOutcome::Failed), Some(UsbOp::SetActiveConfiguration { config: 1 }));
    assert!(!s.using_kernel_driver);
}

#[test]
fn failed_claim_ends_configure_and_undoes_detach() {
    let mut s = DeviceSession::new(Endpoint::new(1, 0, 0, 130));
    s.begin_configure();
    s.advance(OpOutcome::DriverActive { active: true });
    s.advance(OpOutcome::Done);
    s.advance(OpOutcome::Done);
    assert_eq!(s.advance(OpOutcome::Failed), None);
    assert_eq!(s.stage, SessionStage::Failed);
    assert!(s.configure_finished());
    assert!(!s.claimed);
    assert_eq!(run_teardown(&mut s), vec![UsbOp::AttachKernelDriver { iface: 0 }]);
}

#[test]
fn failed_detach_is_not_recorded() {
    let mut s = DeviceSession::new(Endpoint::new(1, 0, 0, 130));
    s.begin_configure();
    s.advance(OpOutcome::DriverActive { active: true });
    assert_eq!(s.advance(OpOutcome::Failed), None);
    assert_eq!(s.stage, SessionStage::Failed);
    assert_eq!(run_teardown(&mut s), vec![]);
}

#[test]
fn capture_loop_one_iteration() {
    let mut l = CaptureLoop::new();
    let mut actions = vec![];
    for event in [
        LoopEvent::Start,
        LoopEvent::Configured,
        LoopEvent::Running,
        LoopEvent::KickSent,
        LoopEvent::BulkRead { bytes: 16384 },
        LoopEvent::BulkRead { bytes: 0 },
        LoopEvent::Dispatched,
        LoopEvent::StopRequested,
        LoopEvent::TornDown,
    ] {
        actions.push(l.step(event));
    }
    assert_eq!(
        actions,
        vec![
            LoopAction::Configure,
            LoopAction::CheckStop,
            LoopAction::SendVendorKick,
            LoopAction::ReadBulk,
            LoopAction::ReadBulk,
            LoopAction::Dispatch,
            LoopAction::CheckStop,
            LoopAction::Teardown,
            LoopAction::Exit,
        ]
    );
    assert_eq!(actions.iter().filter(|a| **a == LoopAction::Dispatch).count(), 1);
    assert_eq!(l.state, LoopState::Finished);
    assert_eq!(l.error, None);
}

#[test]
fn capture_loop_failures_tear_down() {
    let mut l = CaptureLoop::new();
    l.step(LoopEvent::Start);
    assert_eq!(l.step(LoopEvent::ConfigureFailed), LoopAction::Teardown);
    assert_eq!(l.error, Some(CaptureError::ConfigurationError));

    let mut l = CaptureLoop::new();
    l.step(LoopEvent::Start);
    l.step(LoopEvent::Configured);
    l.step(LoopEvent::Running);
    assert_eq!(l.step(LoopEvent::KickFailed), LoopAction::Teardown);
    assert_eq!(l.error, Some(CaptureError::ControlTransferError));

    let mut l = CaptureLoop::new();
    l.step(LoopEvent::Start);
    l.step(LoopEvent::Configured);
    l.step(LoopEvent::Running);
    l.step(LoopEvent::KickSent);
    assert_eq!(l.step(LoopEvent::BulkReadFailed), LoopAction::Teardown);
    assert_eq!(l.error, Some(CaptureError::BulkTransferError));
    assert_eq!(l.step(LoopEvent::TornDown), LoopAction::Exit);
    assert_eq!(l.step(LoopEvent::Start), LoopAction::Exit);
}

#[test]
fn capture_loop_ignores_unrelated_event() {
    let mut l = CaptureLoop::new();
    assert_eq!(l.step(LoopEvent::Dispatched), LoopAction::Configure);
    assert_eq!(l.state, LoopState::Idle);
}

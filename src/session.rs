use vstd::prelude::*;

verus! {

/// The configuration, interface, alternate setting and bulk-IN endpoint
/// address through which the device streams its capture data.
#[derive(Debug, Clone, Copy, PartialEq, Eq, Structural)]
pub struct Endpoint {
    pub config: u8,
    pub iface: u8,
    pub setting: u8,
    pub address: u8,
}

impl Endpoint {
    pub fn new(config: u8, iface: u8, setting: u8, address: u8) -> (r: Endpoint)
        ensures
            r.config == config,
            r.iface == iface,
            r.setting == setting,
            r.address == address,
    {
        Endpoint { config, iface, setting, address }
    }
}

/// One USB operation on the device handle, to be carried out by the caller.
#[derive(Debug, Clone, Copy, PartialEq, Eq, Structural)]
pub enum UsbOp {
    ProbeKernelDriver { iface: u8 },
    DetachKernelDriver { iface: u8 },
    SetActiveConfiguration { config: u8 },
    ClaimInterface { iface: u8 },
    SetAlternateSetting { iface: u8, setting: u8 },
    ReleaseInterface { iface: u8 },
    AttachKernelDriver { iface: u8 },
}

/// How the last requested operation went.
#[derive(Debug, Clone, Copy, PartialEq, Eq, Structural)]
pub enum OpOutcome {
    /// The operation succeeded.
    Done,
    /// The operation failed.
    Failed,
    /// Answer to a kernel-driver probe: whether a kernel driver is bound.
    DriverActive { active: bool },
}

/// Where the handshake or the teardown stands.
#[derive(Debug, Clone, Copy, PartialEq, Eq, Structural)]
pub enum SessionStage {
    Unconfigured,
    Probing,
    Detaching,
    SettingConfiguration,
    Claiming,
    SettingAlternate,
    Ready,
    Failed,
    Releasing,
    Reattaching,
    Closed,
}

/// The handshake with the capture device and its mirror-image teardown. The
/// session decides which operation comes next; the caller performs it on the
/// device handle and reports the outcome.
#[derive(Debug, Clone, Copy, PartialEq, Eq, Structural)]
pub struct DeviceSession {
    pub endpoint: Endpoint,
    pub stage: SessionStage,
    /// A kernel driver was bound to the interface and this session detached it.
    pub using_kernel_driver: bool,
    /// This session holds a claim on the interface.
    pub claimed: bool,
}

/// The operations that tear down session `s`: release a claimed interface,
/// then hand the interface back to a kernel driver that the session detached.
pub open spec fn teardown_ops(s: DeviceSession) -> Seq<UsbOp> {
    let release = if s.claimed {
        seq![UsbOp::ReleaseInterface { iface: s.endpoint.iface }]
    } else {
        Seq::empty()
    };
    let reattach = if s.using_kernel_driver {
        seq![UsbOp::AttachKernelDriver { iface: s.endpoint.iface }]
    } else {
        Seq::empty()
    };
    release + reattach
}

impl DeviceSession {
    pub fn new(endpoint: Endpoint) -> (r: DeviceSession)
        ensures
            r.endpoint == endpoint,
            r.stage == SessionStage::Unconfigured,
            !r.using_kernel_driver,
            !r.claimed,
    {
        DeviceSession {
            endpoint,
            stage: SessionStage::Unconfigured,
            using_kernel_driver: false,
            claimed: false,
        }
    }

    /// The session after the pending operation ended with `outcome`, and the
    /// operation to perform next, if any.
    pub open spec fn advanced(self, outcome: OpOutcome) -> (DeviceSession, Option<UsbOp>) {
        let ep = self.endpoint;
        let set_config = Some(UsbOp::SetActiveConfiguration { config: ep.config });
        let fail = (DeviceSession { stage: SessionStage::Failed, ..self }, None::<UsbOp>);
        match self.stage {
            SessionStage::Probing => match outcome {
                OpOutcome::DriverActive { active: true } => (
                    DeviceSession { stage: SessionStage::Detaching, ..self },
                    Some(UsbOp::DetachKernelDriver { iface: ep.iface }),
                ),
                _ => (DeviceSession { stage: SessionStage::SettingConfiguration, ..self }, set_config),
            },
            SessionStage::Detaching => if outcome == OpOutcome::Done {
                (
                    DeviceSession {
                        stage: SessionStage::SettingConfiguration,
                        using_kernel_driver: true,
                        ..self
                    },
                    set_config,
                )
            } else {
                fail
            },
            SessionStage::SettingConfiguration => if outcome == OpOutcome::Done {
                (
                    DeviceSession { stage: SessionStage::Claiming, ..self },
                    Some(UsbOp::ClaimInterface { iface: ep.iface }),
                )
            } else {
                fail
            },
            SessionStage::Claiming => if outcome == OpOutcome::Done {
                (
                    DeviceSession { stage: SessionStage::SettingAlternate, claimed: true, ..self },
                    Some(UsbOp::SetAlternateSetting { iface: ep.iface, setting: ep.setting }),
                )
            } else {
                fail
            },
            SessionStage::SettingAlternate => if outcome == OpOutcome::Done {
                (DeviceSession { stage: SessionStage::Ready, ..self }, None)
            } else {
                fail
            },
            SessionStage::Releasing => if self.using_kernel_driver {
                (
                    DeviceSession { stage: SessionStage::Reattaching, claimed: false, ..self },
                    Some(UsbOp::AttachKernelDriver { iface: ep.iface }),
                )
            } else {
                (DeviceSession { stage: SessionStage::Closed, claimed: false, ..self }, None)
            },
            SessionStage::Reattaching => (
                DeviceSession { stage: SessionStage::Closed, ..self },
                None,
            ),
            _ => (self, None),
        }
    }

    /// Starts the handshake: the first operation probes for a kernel driver.
    pub fn begin_configure(&mut self) -> (op: UsbOp)
        requires
            old(self).stage == SessionStage::Unconfigured,
        ensures
            *final(self) == (DeviceSession { stage: SessionStage::Probing, ..*old(self) }),
            op == (UsbOp::ProbeKernelDriver { iface: old(self).endpoint.iface }),
    {
        self.stage = SessionStage::Probing;
        UsbOp::ProbeKernelDriver { iface: self.endpoint.iface }
    }

    /// Takes the outcome of the pending operation and names the next one. A
    /// failed probe counts as no kernel driver bound; any other failure ends
    /// the handshake in `Failed`. The release and the reattachment of the
    /// teardown move on whatever their outcome.
    pub fn advance(&mut self, outcome: OpOutcome) -> (next: Option<UsbOp>)
        ensures
            (*final(self), next) == old(self).advanced(outcome),
    {
        let ep = self.endpoint;
        match self.stage {
            SessionStage::Probing => match outcome {
                OpOutcome::DriverActive { active: true } => {
                    self.stage = SessionStage::Detaching;
                    Some(UsbOp::DetachKernelDriver { iface: ep.iface })
                },
                _ => {
                    self.stage = SessionStage::SettingConfiguration;
                    Some(UsbOp::SetActiveConfiguration { config: ep.config })
                },
            },
            SessionStage::Detaching => if outcome == OpOutcome::Done {
                self.stage = SessionStage::SettingConfiguration;
                self.using_kernel_driver = true;
                Some(UsbOp::SetActiveConfiguration { config: ep.config })
            } else {
                self.stage = SessionStage::Failed;
                None
            },
            SessionStage::SettingConfiguration => if outcome == OpOutcome::Done {
                self.stage = SessionStage::Claiming;
                Some(UsbOp::ClaimInterface { iface: ep.iface })
            } else {
                self.stage = SessionStage::Failed;
                None
            },
            SessionStage::Claiming => if outcome == OpOutcome::Done {
                self.stage = SessionStage::SettingAlternate;
                self.claimed = true;
                Some(UsbOp::SetAlternateSetting { iface: ep.iface, setting: ep.setting })
            } else {
                self.stage = SessionStage::Failed;
                None
            },
            SessionStage::SettingAlternate => if outcome == OpOutcome::Done {
                self.stage = SessionStage::Ready;
                None
            } else {
                self.stage = SessionStage::Failed;
                None
            },
            SessionStage::Releasing => {
                self.claimed = false;
                if self.using_kernel_driver {
                    self.stage = SessionStage::Reattaching;
                    Some(UsbOp::AttachKernelDriver { iface: ep.iface })
                } else {
                    self.stage = SessionStage::Closed;
                    None
                }
            },
            SessionStage::Reattaching => {
                self.stage = SessionStage::Closed;
                None
            },
            _ => None,
        }
    }

    /// The session once teardown has begun, and its first operation.
    pub open spec fn teardown_started(self) -> (DeviceSession, Option<UsbOp>) {
        let iface = self.endpoint.iface;
        if self.claimed {
            (
                DeviceSession { stage: SessionStage::Releasing, ..self },
                Some(UsbOp::ReleaseInterface { iface }),
            )
        } else if self.using_kernel_driver {
            (
                DeviceSession { stage: SessionStage::Reattaching, ..self },
                Some(UsbOp::AttachKernelDriver { iface }),
            )
        } else {
            (DeviceSession { stage: SessionStage::Closed, ..self }, None)
        }
    }

    /// Starts the teardown: the first of `teardown_ops`, or straight to
    /// `Closed` where there is nothing to undo.
    pub fn begin_teardown(&mut self) -> (op: Option<UsbOp>)
        ensures
            (*final(self), op) == old(self).teardown_started(),
            op == (if teardown_ops(*old(self)).len() == 0 {
                None
            } else {
                Some(teardown_ops(*old(self))[0])
            }),
    {
        let iface = self.endpoint.iface;
        if self.claimed {
            self.stage = SessionStage::Releasing;
            Some(UsbOp::ReleaseInterface { iface })
        } else if self.using_kernel_driver {
            self.stage = SessionStage::Reattaching;
            Some(UsbOp::AttachKernelDriver { iface })
        } else {
            self.stage = SessionStage::Closed;
            None
        }
    }

    /// Whether the handshake has finished, successfully or not.
    pub fn configure_finished(&self) -> (r: bool)
        ensures
            r == (self.stage == SessionStage::Ready || self.stage == SessionStage::Failed),
    {
        self.stage == SessionStage::Ready || self.stage == SessionStage::Failed
    }
}

/// The session records a detached kernel driver exactly when a detach that it
/// asked for succeeded; the record is never cleared.
pub proof fn detach_is_recorded(s: DeviceSession, outcome: OpOutcome)
    ensures
        s.advanced(outcome).0.using_kernel_driver == (s.using_kernel_driver || (s.stage
            == SessionStage::Detaching && outcome == OpOutcome::Done)),
        s.advanced(outcome).0.endpoint == s.endpoint,
{
}

/// Teardown mirrors the handshake: whatever outcomes are reported, teardown
/// asks to reattach the kernel driver if and only if the session detached it,
/// releases the interface if and only if the session claimed it, and ends
/// `Closed` after at most two operations.
pub proof fn teardown_mirrors_configure(s: DeviceSession, first: OpOutcome, second: OpOutcome)
    ensures
        ({
            let (s1, op1) = s.teardown_started();
            let (s2, op2) = s1.advanced(first);
            let (s3, op3) = s2.advanced(second);
            let attach = Some(UsbOp::AttachKernelDriver { iface: s.endpoint.iface });
            let release = Some(UsbOp::ReleaseInterface { iface: s.endpoint.iface });
            &&& (op1 == attach || op2 == attach) <==> s.using_kernel_driver
            &&& op3 != attach
            &&& (op1 == release || op2 == release) <==> s.claimed
            &&& op3 is None
            &&& s3.stage == SessionStage::Closed
        }),
        teardown_ops(s).contains(UsbOp::AttachKernelDriver { iface: s.endpoint.iface })
            <==> s.using_kernel_driver,
{
    let attach = UsbOp::AttachKernelDriver { iface: s.endpoint.iface };
    if s.using_kernel_driver {
        assert(teardown_ops(s)[teardown_ops(s).len() - 1] == attach);
    } else {
        assert(!teardown_ops(s).contains(attach)) by {
            if s.claimed {
                assert(teardown_ops(s) =~= seq![UsbOp::ReleaseInterface { iface: s.endpoint.iface }]);
            } else {
                assert(teardown_ops(s) =~= Seq::<UsbOp>::empty());
            }
        }
    }
}

} // verus!

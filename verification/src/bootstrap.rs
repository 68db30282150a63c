//! Service bootstrapper: brings the driver service from an unknown state
//! to the running state, idempotently.
//!
//! The operating-system service manager stands behind the
//! [`ServiceManager`] trait. A manager value carries a ghost
//! [`ManagerModel`] that records the service's state, how many start
//! requests have been issued, and whether each operation would currently
//! succeed; the bootstrap algorithm is specified exactly over that model
//! by [`bootstrap_step`] and [`bootstrap_outcome`]. The in-crate
//! [`FakeServiceManager`] implements the trait and is what the tests run
//! against; a real backend supplies the operating-system calls outside
//! this crate.

use vstd::prelude::*;

verus! {

/// Well-known name the driver service is registered under.
pub const DRIVER_SERVICE_NAME: &'static str = "VirtualKMDriver";

/// Display name the driver service is created with.
pub const DRIVER_DISPLAY_NAME: &'static str = "Virtual Keyboard Mouse Driver";

/// State of the driver service as the service manager reports it.
#[derive(Clone, Copy, Debug, PartialEq, Eq, Structural)]
pub enum ServiceState {
    NotRegistered,
    Registered,
    Running,
}

/// Identity of the driver service: the service and display names it is
/// registered under and the path of its binary.
pub struct DriverDescriptor {
    pub service_name: String,
    pub display_name: String,
    pub binary_path: String,
}

/// Failure of the registration step.
#[derive(Clone, Copy, Debug, PartialEq, Eq, Structural)]
pub enum RegisterError {
    /// The service manager could not be opened with creation rights.
    ManagerUnavailable,
    /// The service did not exist and could not be created.
    CreateFailed,
}

/// Failure of one bootstrap run.
#[derive(Clone, Copy, Debug, PartialEq, Eq, Structural)]
pub enum BootstrapError {
    /// The service manager could not be opened with creation rights.
    ManagerUnavailable,
    /// The service did not exist and could not be created.
    RegistrationFailed,
    /// The start request failed, with the reported error code.
    StartFailed(u32),
}

/// Ghost model of the service manager as the bootstrapper observes it:
/// the service's state, the name the service was created under (when this
/// bootstrapper created it), the number of start requests issued so far,
/// and whether each operation would currently succeed.
pub ghost struct ManagerModel {
    pub service: ServiceState,
    pub starts: nat,
    pub created_name: Option<Seq<char>>,
    /// The manager itself can be opened.
    pub manager_ok: bool,
    /// Creating an absent service would succeed.
    pub register_ok: bool,
    /// The status query is answering.
    pub query_ok: bool,
    /// `None` when a start request would succeed, otherwise the error
    /// code it would fail with.
    pub start_error: Option<u32>,
}

/// Outcome of the registration step on a manager in state `m`.
pub open spec fn register_outcome(m: ManagerModel) -> Result<(), RegisterError> {
    if !m.manager_ok {
        Err(RegisterError::ManagerUnavailable)
    } else if m.service == ServiceState::NotRegistered && !m.register_ok {
        Err(RegisterError::CreateFailed)
    } else {
        Ok(())
    }
}

/// Manager state after the registration step: an absent service is
/// created (and recorded under `name`); anything else is left alone.
pub open spec fn register_step(m: ManagerModel, name: Seq<char>) -> ManagerModel {
    if m.manager_ok && m.service == ServiceState::NotRegistered && m.register_ok {
        ManagerModel { service: ServiceState::Registered, created_name: Some(name), ..m }
    } else {
        m
    }
}

/// Outcome of one start request on a manager in state `m`.
pub open spec fn start_outcome(m: ManagerModel) -> Result<(), u32> {
    match m.start_error {
        None => Ok(()),
        Some(code) => Err(code),
    }
}

/// Manager state after one start request: the request is counted either
/// way, and on success the service is running.
pub open spec fn start_step(m: ManagerModel) -> ManagerModel {
    ManagerModel {
        starts: m.starts + 1,
        service: if m.start_error is None {
            ServiceState::Running
        } else {
            m.service
        },
        ..m
    }
}

/// Result of one full bootstrap run on a manager in state `m`:
/// registration failures map to their `BootstrapError`; a service that
/// the status query reports as running is a success without a start; any
/// other state leads to one start request.
pub open spec fn bootstrap_outcome(m: ManagerModel) -> Result<(), BootstrapError> {
    if !m.manager_ok {
        Err(BootstrapError::ManagerUnavailable)
    } else if m.service == ServiceState::NotRegistered && !m.register_ok {
        Err(BootstrapError::RegistrationFailed)
    } else if m.query_ok && m.service == ServiceState::Running {
        Ok(())
    } else {
        match m.start_error {
            None => Ok(()),
            Some(code) => Err(BootstrapError::StartFailed(code)),
        }
    }
}

/// Manager state after one full bootstrap run starting from `m`.
pub open spec fn bootstrap_step(m: ManagerModel, name: Seq<char>) -> ManagerModel {
    if register_outcome(m) is Err {
        m
    } else if m.query_ok && m.service == ServiceState::Running {
        register_step(m, name)
    } else {
        start_step(register_step(m, name))
    }
}

/// Interface to the operating-system service manager.
///
/// The ghost model pins down what each operation does and whether it
/// would currently succeed, so that callers get exact outcomes. The
/// in-crate [`FakeServiceManager`] is the verified implementation; a real
/// backend implements the same operations against the operating system,
/// outside this crate and outside verification.
pub trait ServiceManager: Sized {
    spec fn model(&self) -> ManagerModel;

    /// Opens the manager with creation rights and makes sure the named
    /// service is registered, creating it as a kernel-level demand-start
    /// service at `descriptor.binary_path` when it is absent.
    fn ensure_registered(&mut self, descriptor: &DriverDescriptor) -> (r: Result<
        (),
        RegisterError,
    >)
        ensures
            final(self).model() == register_step(
                old(self).model(),
                descriptor.service_name@,
            ),
            r == register_outcome(old(self).model()),
    ;

    /// Queries the service's current state. A successful query reports
    /// the true state; the query changes nothing either way.
    fn query_status(&mut self) -> (r: Result<ServiceState, u32>)
        ensures
            final(self).model() == old(self).model(),
            old(self).model().query_ok ==> r == Ok::<ServiceState, u32>(
                old(self).model().service,
            ),
            !old(self).model().query_ok ==> r is Err,
    ;

    /// Issues one start request for the service.
    fn start(&mut self) -> (r: Result<(), u32>)
        requires
            old(self).model().starts < u64::MAX,
        ensures
            final(self).model() == start_step(old(self).model()),
            r == start_outcome(old(self).model()),
    ;
}

/// Makes sure the driver service named by `descriptor` is registered and
/// running.
///
/// The steps are ordered for idempotency: registration tolerates an
/// already-existing service, and a service that the status query reports
/// as running is a success without a second start. A failed query is not
/// treated as a stopped service: the run proceeds to a start request.
pub fn ensure_running<M: ServiceManager>(
    manager: &mut M,
    descriptor: &DriverDescriptor,
) -> (r: Result<(), BootstrapError>)
    requires
        old(manager).model().starts < u64::MAX,
    ensures
        final(manager).model() == bootstrap_step(
            old(manager).model(),
            descriptor.service_name@,
        ),
        r == bootstrap_outcome(old(manager).model()),
{
    match manager.ensure_registered(descriptor) {
        Err(RegisterError::ManagerUnavailable) => {
            return Err(BootstrapError::ManagerUnavailable);
        },
        Err(RegisterError::CreateFailed) => {
            return Err(BootstrapError::RegistrationFailed);
        },
        Ok(()) => {},
    }
    match manager.query_status() {
        Ok(ServiceState::Running) => {
            return Ok(());
        },
        _ => {},
    }
    match manager.start() {
        Ok(()) => Ok(()),
        Err(code) => Err(BootstrapError::StartFailed(code)),
    }
}

/// Idempotency: when a bootstrap run succeeds and the status query is
/// answering, a second run succeeds as well, changes nothing, and in
/// particular issues no further start request.
pub proof fn lemma_bootstrap_idempotent(m: ManagerModel, name: Seq<char>)
    requires
        bootstrap_outcome(m) is Ok,
        m.query_ok,
    ensures
        bootstrap_outcome(bootstrap_step(m, name)) is Ok,
        bootstrap_step(bootstrap_step(m, name), name) == bootstrap_step(m, name),
        bootstrap_step(bootstrap_step(m, name), name).starts == bootstrap_step(m, name).starts,
{
}

/// A successful run always leaves the service running — never
/// unregistered.
pub proof fn lemma_bootstrap_success_running(m: ManagerModel, name: Seq<char>)
    requires
        bootstrap_outcome(m) is Ok,
    ensures
        bootstrap_step(m, name).service == ServiceState::Running,
{
}

/// A not-yet-registered service under a healthy manager is created under
/// the given name and brought to the running state by exactly one start
/// request.
pub proof fn lemma_bootstrap_fresh_service(m: ManagerModel, name: Seq<char>)
    requires
        m.service == ServiceState::NotRegistered,
        m.manager_ok,
        m.register_ok,
        m.start_error is None,
    ensures
        bootstrap_outcome(m) is Ok,
        bootstrap_step(m, name).service == ServiceState::Running,
        bootstrap_step(m, name).starts == m.starts + 1,
        bootstrap_step(m, name).created_name == Some(name),
{
}

/// In-crate service manager double: a plain value that plays the role of
/// the operating-system service manager, with fields that choose whether
/// each operation succeeds. Its ghost model is the direct image of its
/// fields.
#[derive(Debug)]
pub struct FakeServiceManager {
    pub service: ServiceState,
    pub starts: u64,
    pub created_name: Option<String>,
    pub manager_ok: bool,
    pub register_ok: bool,
    pub query_ok: bool,
    pub start_error: Option<u32>,
}

impl ServiceManager for FakeServiceManager {
    open spec fn model(&self) -> ManagerModel {
        ManagerModel {
            service: self.service,
            starts: self.starts as nat,
            created_name: match self.created_name {
                Some(name) => Some(name@),
                None => None,
            },
            manager_ok: self.manager_ok,
            register_ok: self.register_ok,
            query_ok: self.query_ok,
            start_error: self.start_error,
        }
    }

    fn ensure_registered(&mut self, descriptor: &DriverDescriptor) -> (r: Result<
        (),
        RegisterError,
    >) {
        if !self.manager_ok {
            return Err(RegisterError::ManagerUnavailable);
        }
        if self.service == ServiceState::NotRegistered {
            if !self.register_ok {
                return Err(RegisterError::CreateFailed);
            }
            self.service = ServiceState::Registered;
            self.created_name = Some(descriptor.service_name.clone());
        }
        Ok(())
    }

    fn query_status(&mut self) -> (r: Result<ServiceState, u32>) {
        if self.query_ok {
            Ok(self.service)
        } else {
            Err(1)
        }
    }

    fn start(&mut self) -> (r: Result<(), u32>) {
        self.starts = self.starts + 1;
        match self.start_error {
            None => {
                self.service = ServiceState::Running;
                Ok(())
            },
            Some(code) => Err(code),
        }
    }
}

impl FakeServiceManager {
    /// A fake manager holding a service in the given state, with every
    /// operation set to succeed and no start request issued yet.
    pub fn healthy(service: ServiceState) -> (m: FakeServiceManager)
        ensures
            m.model() == (ManagerModel {
                service,
                starts: 0,
                created_name: None,
                manager_ok: true,
                register_ok: true,
                query_ok: true,
                start_error: None,
            }),
    {
        FakeServiceManager {
            service,
            starts: 0,
            created_name: None,
            manager_ok: true,
            register_ok: true,
            query_ok: true,
            start_error: None,
        }
    }
}

} // verus!

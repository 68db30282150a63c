use controller_emulator::bootstrap::ensure_running;
use controller_emulator::bootstrap::BootstrapError;
use controller_emulator::bootstrap::DriverDescriptor;
use controller_emulator::bootstrap::FakeServiceManager;
use controller_emulator::bootstrap::ServiceState;
use controller_emulator::bootstrap::DRIVER_DISPLAY_NAME;
use controller_emulator::bootstrap::DRIVER_SERVICE_NAME;

fn descriptor() -> DriverDescriptor {
    DriverDescriptor {
        service_name: DRIVER_SERVICE_NAME.to_string(),
        display_name: DRIVER_DISPLAY_NAME.to_string(),
        binary_path: "driver\\VirtualKMDriver.sys".to_string(),
    }
}

#[test]
fn running_service_succeeds_without_start() {
    let mut manager = FakeServiceManager::healthy(ServiceState::Running);
    let result = ensure_running(&mut manager, &descriptor());
    assert!(result.is_ok());
    assert_eq!(manager.service, ServiceState::Running);
    assert_eq!(manager.starts, 0);
}

#[test]
fn second_run_is_idempotent_and_starts_nothing() {
    let mut manager = FakeServiceManager::healthy(ServiceState::NotRegistered);
    let first = ensure_running(&mut manager, &descriptor());
    assert!(first.is_ok());
    assert_eq!(manager.service, ServiceState::Running);
    assert_eq!(manager.starts, 1);
    let second = ensure_running(&mut manager, &descriptor());
    assert!(second.is_ok());
    assert_eq!(manager.service, ServiceState::Running);
    // The second run observed the running state and issued no new start.
    assert_eq!(manager.starts, 1);
}

#[test]
fn fresh_service_is_registered_and_started() {
    let mut manager = FakeServiceManager::healthy(ServiceState::NotRegistered);
    let result = ensure_running(&mut manager, &descriptor());
    assert!(result.is_ok());
    assert_eq!(manager.service, ServiceState::Running);
    assert_eq!(manager.starts, 1);
    assert_eq!(manager.created_name, Some(DRIVER_SERVICE_NAME.to_string()));
}

#[test]
fn registered_but_stopped_service_is_started() {
    let mut manager = FakeServiceManager::healthy(ServiceState::Registered);
    let result = ensure_running(&mut manager, &descriptor());
    assert!(result.is_ok());
    assert_eq!(manager.service, ServiceState::Running);
    assert_eq!(manager.starts, 1);
    // The service already existed, so none was created.
    assert_eq!(manager.created_name, None);
}

#[test]
fn unavailable_manager_fails_before_anything_else() {
    let mut manager = FakeServiceManager::healthy(ServiceState::NotRegistered);
    manager.manager_ok = false;
    let result = ensure_running(&mut manager, &descriptor());
    assert_eq!(result, Err(BootstrapError::ManagerUnavailable));
    assert_eq!(manager.service, ServiceState::NotRegistered);
    assert_eq!(manager.starts, 0);
}

#[test]
fn failed_creation_is_registration_failure() {
    let mut manager = FakeServiceManager::healthy(ServiceState::NotRegistered);
    manager.register_ok = false;
    let result = ensure_running(&mut manager, &descriptor());
    assert_eq!(result, Err(BootstrapError::RegistrationFailed));
    assert_eq!(manager.service, ServiceState::NotRegistered);
    assert_eq!(manager.starts, 0);
}

#[test]
fn failed_start_reports_the_os_error() {
    let mut manager = FakeServiceManager::healthy(ServiceState::Registered);
    manager.start_error = Some(5);
    let result = ensure_running(&mut manager, &descriptor());
    assert_eq!(result, Err(BootstrapError::StartFailed(5)));
    assert_eq!(manager.service, ServiceState::Registered);
    assert_eq!(manager.starts, 1);
}

#[test]
fn failed_query_still_attempts_a_start() {
    // A failed status query does not imply a stopped service; the run
    // proceeds to a start request instead of failing closed.
    let mut manager = FakeServiceManager::healthy(ServiceState::Running);
    manager.query_ok = false;
    let result = ensure_running(&mut manager, &descriptor());
    assert!(result.is_ok());
    assert_eq!(manager.starts, 1);
}

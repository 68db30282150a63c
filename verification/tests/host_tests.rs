use controller_emulator::channel::Channel;
use controller_emulator::channel::FakeDevice;
use controller_emulator::channel::DRIVER_DEVICE_PATH;
use controller_emulator::codec::SEND_KEY_OPCODE;
use controller_emulator::host::fire_callback;
use controller_emulator::host::run_session;
use controller_emulator::host::ScriptError;
use controller_emulator::host::CALLBACK_GLOBAL;

#[test]
fn callback_fires_once_per_script_call_in_order() {
    let device = FakeDevice::healthy();
    let channel = Channel::open(device, DRIVER_DEVICE_PATH).unwrap();
    let script = "rust_callback()\nrust_callback()\nrust_callback()";
    let (device, result) = run_session(script, channel);
    assert!(result.is_ok());
    assert_eq!(
        device.frames,
        vec![vec![0x1E, 0x00], vec![0x1E, 0x00], vec![0x1E, 0x00]]
    );
    assert_eq!(device.ops, vec![SEND_KEY_OPCODE; 3]);
    assert_eq!(device.closes, 1);
    assert!(!device.opened);
}

#[test]
fn empty_script_sends_nothing_and_closes() {
    let device = FakeDevice::healthy();
    let channel = Channel::open(device, DRIVER_DEVICE_PATH).unwrap();
    let (device, result) = run_session("", channel);
    assert!(result.is_ok());
    assert!(device.frames.is_empty());
    assert_eq!(device.closes, 1);
}

#[test]
fn parse_error_is_reported_and_channel_closed() {
    let device = FakeDevice::healthy();
    let channel = Channel::open(device, DRIVER_DEVICE_PATH).unwrap();
    let (device, result) = run_session("this is not lua(", channel);
    assert!(matches!(result, Err(ScriptError::Parse(_))));
    assert!(device.frames.is_empty());
    assert_eq!(device.closes, 1);
}

#[test]
fn script_runtime_error_is_reported() {
    let device = FakeDevice::healthy();
    let channel = Channel::open(device, DRIVER_DEVICE_PATH).unwrap();
    let (device, result) = run_session("error('boom')", channel);
    assert!(matches!(result, Err(ScriptError::Runtime(_))));
    assert!(device.frames.is_empty());
    assert_eq!(device.closes, 1);
}

#[test]
fn io_failure_aborts_the_script_run() {
    let mut device = FakeDevice::healthy();
    device.io_error = Some(31);
    let channel = Channel::open(device, DRIVER_DEVICE_PATH).unwrap();
    // The first callback fails; the statements after it must not run.
    let script = "rust_callback()\nrust_callback()\nrust_callback()";
    let (device, result) = run_session(script, channel);
    assert!(matches!(result, Err(ScriptError::Runtime(_))));
    assert_eq!(device.frames.len(), 1);
    assert_eq!(device.closes, 1);
}

#[test]
fn script_sees_only_the_registered_global() {
    // A fresh engine has a clean global namespace apart from the
    // callback: an unknown name is a runtime error.
    let device = FakeDevice::healthy();
    let channel = Channel::open(device, DRIVER_DEVICE_PATH).unwrap();
    let (device, result) = run_session("some_other_callback()", channel);
    assert!(matches!(result, Err(ScriptError::Runtime(_))));
    assert!(device.frames.is_empty());
    assert_eq!(device.closes, 1);
}

#[test]
fn callback_global_is_the_registered_name() {
    let device = FakeDevice::healthy();
    let channel = Channel::open(device, DRIVER_DEVICE_PATH).unwrap();
    let script = format!("{}()", CALLBACK_GLOBAL);
    let (device, result) = run_session(&script, channel);
    assert!(result.is_ok());
    assert_eq!(device.frames.len(), 1);
}

#[test]
fn fire_callback_sends_the_demo_event() {
    let device = FakeDevice::healthy();
    let mut channel = Channel::open(device, DRIVER_DEVICE_PATH).unwrap();
    assert!(fire_callback(&mut channel).is_ok());
    let device = channel.close();
    assert_eq!(device.frames, vec![vec![0x1E, 0x00]]);
}

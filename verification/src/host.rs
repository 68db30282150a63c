//! Script host: owns a Lua engine for the duration of one session,
//! exposes the native key-event callback to scripts under a fixed global
//! name, executes a script source to completion, and closes the channel
//! when the run ends — on success and on failure alike.
//!
//! The engine is the embedded Lua interpreter of the `mlua` crate. It is
//! driven through one trusted wrapper, [`lua_run_with_callback`]; the
//! callback body itself, [`fire_callback`], is verified, and the wrapper
//! hands the channel to nothing else, so everything a script can do to
//! the device is a sequence of callback firings — the contracts below
//! say exactly that.

use vstd::prelude::*;

use crate::bootstrap::bootstrap_outcome;
use crate::bootstrap::bootstrap_step;
use crate::bootstrap::ensure_running;
use crate::bootstrap::BootstrapError;
use crate::bootstrap::DriverDescriptor;
use crate::bootstrap::ServiceManager;
use crate::channel::close_step;
use crate::channel::lemma_sends_preserve_order_and_handle;
use crate::channel::open_step;
use crate::channel::send_all_step;
use crate::channel::send_step;
use crate::channel::Channel;
use crate::channel::ChannelError;
use crate::channel::DeviceBackend;
use crate::channel::DeviceModel;
use crate::codec::frame_spec;
use crate::codec::KeyEvent;
use crate::codec::KEY_STATE_PRESSED;
use crate::codec::SEND_KEY_OPCODE;

verus! {

/// Global name under which scripts reach the native callback.
pub const CALLBACK_GLOBAL: &'static str = "rust_callback";

/// Key code of the fixed demonstration event the callback sends.
pub const DEMO_KEY_CODE: u8 = 0x1E;

/// Failure of one script run.
#[derive(Clone, Debug, PartialEq, Eq)]
pub enum ScriptError {
    /// The source failed to parse, with the engine's message.
    Parse(String),
    /// The run aborted with a runtime error — including a channel
    /// failure propagated out of the callback — with the engine's
    /// message.
    Runtime(String),
}

/// The fixed demonstration event the callback sends on every firing:
/// key `0x1E`, pressed.
pub open spec fn demo_key_event() -> KeyEvent {
    KeyEvent { key_code: DEMO_KEY_CODE, key_state: KEY_STATE_PRESSED }
}

/// Builds the fixed demonstration event.
pub fn make_demo_key_event() -> (e: KeyEvent)
    ensures
        e == demo_key_event(),
{
    KeyEvent { key_code: DEMO_KEY_CODE, key_state: KEY_STATE_PRESSED }
}

/// Body of the native callback: sends the fixed demonstration event
/// through the channel as one device-control request. Any channel error
/// is handed back to the caller, which aborts the script run with it.
pub fn fire_callback<B: DeviceBackend>(chan: &mut Channel<B>) -> (r: Result<(), ChannelError>)
    requires
        old(chan).wf(),
    ensures
        final(chan).model() == send_step(
            old(chan).model(),
            SEND_KEY_OPCODE,
            frame_spec(demo_key_event()),
        ),
        final(chan).wf(),
        old(chan).model().io_error is None ==> r is Ok,
        old(chan).model().io_error matches Some(code) ==> r == Err::<(), ChannelError>(
            ChannelError::IoFailed(code),
        ),
{
    chan.send_key_event(make_demo_key_event())
}

/// Device model after a script session in which the callback fired `n`
/// times.
pub open spec fn session_step(m: DeviceModel, n: nat) -> DeviceModel {
    send_all_step(m, Seq::new(n, |i: int| demo_key_event()))
}

/// A session's commands are the old ones followed by `n` copies of the
/// demonstration frame, in order, and the handle accounting is
/// untouched.
pub proof fn lemma_session_frames(m: DeviceModel, n: nat)
    ensures
        session_step(m, n).frames =~= m.frames + Seq::new(
            n,
            |i: int| frame_spec(demo_key_event()),
        ),
        session_step(m, n).closes == m.closes,
        session_step(m, n).opens == m.opens,
        session_step(m, n).opened == m.opened,
{
    let events = Seq::new(n, |i: int| demo_key_event());
    lemma_sends_preserve_order_and_handle(m, events);
    assert(events.map_values(|e: KeyEvent| frame_spec(e)) =~= Seq::new(
        n,
        |i: int| frame_spec(demo_key_event()),
    ));
}

/// Relies on mlua: `Lua::new` for a fresh engine with a clean global
/// namespace, `Scope::create_function_mut` and `Table::set` (via
/// `Lua::globals`) to register the callback under [`CALLBACK_GLOBAL`],
/// and `Lua::load` / `Chunk::exec` to run `source` to completion on the
/// engine's single thread, inside `Lua::scope` so the callback may
/// borrow the channel. A parse failure surfaces as mlua's `SyntaxError`
/// and maps to [`ScriptError::Parse`]; every other engine error maps to
/// [`ScriptError::Runtime`]. The channel is handed to nothing but
/// [`fire_callback`], so whatever the script does, the device sees some
/// number of callback firings in order — which is all this contract
/// claims.
#[verifier::external_body]
fn lua_run_with_callback<B: DeviceBackend>(source: &str, chan: &mut Channel<B>) -> (r: Result<
    (),
    ScriptError,
>)
    requires
        old(chan).wf(),
    ensures
        exists|n: nat| final(chan).model() == session_step(old(chan).model(), n),
        final(chan).wf(),
{
    let lua = mlua::Lua::new();
    lua.scope(|scope| {
        let callback = scope.create_function_mut(|_, ()| {
            fire_callback(chan).map_err(|e| mlua::Error::runtime(e.message()))
        })?;
        lua.globals().set("rust_callback", callback)?;
        lua.load(source).exec()
    }).map_err(|e| match e {
        mlua::Error::SyntaxError { message, .. } => ScriptError::Parse(message),
        other => ScriptError::Runtime(format!("{}", other)),
    })
}

/// Runs `source` on a fresh engine with the callback registered, then
/// closes the channel — on success and on failure alike — and hands the
/// backend back beside the script result. The handle is thus released
/// exactly once per session.
pub fn run_session<B: DeviceBackend>(source: &str, chan: Channel<B>) -> (r: (
    B,
    Result<(), ScriptError>,
))
    requires
        chan.wf(),
        chan.model().closes < u64::MAX,
    ensures
        exists|n: nat| r.0.model() == close_step(session_step(chan.model(), n)),
        !r.0.model().opened,
        r.0.model().closes == chan.model().closes + 1,
        r.0.model().opens == chan.model().opens,
{
    let mut running = chan;
    let script_result = lua_run_with_callback(source, &mut running);
    proof {
        let n = choose|n: nat| running.model() == session_step(chan.model(), n);
        lemma_session_frames(chan.model(), n);
    }
    let backend = running.close();
    (backend, script_result)
}

/// Failure of one full driver session.
#[derive(Clone, Debug, PartialEq, Eq)]
pub enum RunError {
    /// The driver service could not be brought to the running state.
    Bootstrap(BootstrapError),
    /// The control channel could not be opened.
    Channel(ChannelError),
    /// The script run aborted.
    Script(ScriptError),
}

/// One single-shot run, end to end: make sure the driver service is
/// running, open the control channel at `device_path`, run `source` with
/// the callback registered, and close the channel. Each failure stops
/// the run and maps to its [`RunError`]; nothing is retried.
pub fn run_driver_session<M: ServiceManager, B: DeviceBackend>(
    manager: &mut M,
    descriptor: &DriverDescriptor,
    backend: B,
    device_path: &str,
    source: &str,
) -> (r: (B, Result<(), RunError>))
    requires
        old(manager).model().starts < u64::MAX,
        !backend.model().opened,
        backend.model().opens < u64::MAX,
        backend.model().closes < u64::MAX,
    ensures
        final(manager).model() == bootstrap_step(
            old(manager).model(),
            descriptor.service_name@,
        ),
        bootstrap_outcome(old(manager).model()) matches Err(e) ==> r.0.model()
            == backend.model() && r.1 == Err::<(), RunError>(RunError::Bootstrap(e)),
        bootstrap_outcome(old(manager).model()) is Ok ==> match backend.model().open_error {
            Some(code) => r.0.model() == open_step(backend.model(), device_path@) && r.1
                == Err::<(), RunError>(RunError::Channel(ChannelError::OpenFailed(code))),
            None => {
                &&& exists|n: nat| r.0.model() == close_step(
                    session_step(open_step(backend.model(), device_path@), n),
                )
                &&& !r.0.model().opened
                &&& r.0.model().closes == backend.model().closes + 1
                &&& r.0.model().opens == backend.model().opens + 1
                &&& (r.1 is Ok || r.1 matches Err(RunError::Script(_)))
            },
        },
{
    match ensure_running(manager, descriptor) {
        Err(e) => {
            return (backend, Err(RunError::Bootstrap(e)));
        },
        Ok(()) => {},
    }
    let chan = match Channel::open(backend, device_path) {
        Ok(chan) => chan,
        Err((b, e)) => {
            return (b, Err(RunError::Channel(e)));
        },
    };
    let (b, script_result) = run_session(source, chan);
    match script_result {
        Ok(()) => (b, Ok(())),
        Err(e) => (b, Err(RunError::Script(e))),
    }
}

} // verus!

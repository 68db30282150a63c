//! Command channel: owns the open handle to the driver's control
//! endpoint and sends encoded key-event commands through it.
//!
//! The operating-system device interface stands behind the
//! [`DeviceBackend`] trait. A backend carries a ghost [`DeviceModel`]
//! that records whether the endpoint is open, how often it was opened and
//! closed, and every command handed to it; [`open_step`], [`send_step`]
//! and [`close_step`] pin down what each operation does to that model.
//! A [`Channel`] is created only by a successful open and gives the
//! backend up again exactly when it is closed, so the handle is released
//! exactly once per channel, by ownership rather than bookkeeping. The
//! in-crate [`FakeDevice`] implements the trait and is what the tests run
//! against; a real backend supplies the operating-system calls outside
//! this crate.

use vstd::prelude::*;

use crate::codec::frame_spec;
use crate::codec::KeyEvent;
use crate::codec::SEND_KEY_OPCODE;

verus! {

/// Well-known path of the driver's control endpoint.
pub const DRIVER_DEVICE_PATH: &'static str = "\\\\.\\VirtualKMDriver";

/// Failure of a channel operation.
#[derive(Clone, Copy, Debug, PartialEq, Eq, Structural)]
pub enum ChannelError {
    /// The control endpoint could not be opened, with the reported error
    /// code.
    OpenFailed(u32),
    /// A device-control request completed unsuccessfully, with the
    /// reported error code.
    IoFailed(u32),
}

/// Ghost model of the device endpoint as the channel observes it: the
/// handle state, the open/close accounting, every command handed to the
/// device in order, the path of the last open, and whether an open or a
/// device-control request would currently succeed.
pub ghost struct DeviceModel {
    pub opened: bool,
    pub opens: nat,
    pub closes: nat,
    /// Opcode of each command handed to the device, in order.
    pub ops: Seq<u32>,
    /// Frame bytes of each command handed to the device, in order, kept
    /// whether or not the request succeeded.
    pub frames: Seq<Seq<u8>>,
    pub last_path: Option<Seq<char>>,
    /// `None` when an open would succeed, otherwise the error code it
    /// would fail with.
    pub open_error: Option<u32>,
    /// `None` when a device-control request would succeed, otherwise the
    /// error code it would fail with.
    pub io_error: Option<u32>,
}

/// Device model after one open of the endpoint at `path`.
pub open spec fn open_step(m: DeviceModel, path: Seq<char>) -> DeviceModel {
    DeviceModel { opened: m.open_error is None, opens: m.opens + 1, last_path: Some(path), ..m }
}

/// Outcome of one open on a device in state `m`.
pub open spec fn open_outcome(m: DeviceModel) -> Result<(), u32> {
    match m.open_error {
        None => Ok(()),
        Some(code) => Err(code),
    }
}

/// Device model after one device-control request: the command is
/// recorded either way.
pub open spec fn send_step(m: DeviceModel, opcode: u32, frame: Seq<u8>) -> DeviceModel {
    DeviceModel { ops: m.ops.push(opcode), frames: m.frames.push(frame), ..m }
}

/// Outcome of one device-control request on a device in state `m`.
pub open spec fn send_outcome(m: DeviceModel) -> Result<(), u32> {
    match m.io_error {
        None => Ok(()),
        Some(code) => Err(code),
    }
}

/// Device model after the handle is released.
pub open spec fn close_step(m: DeviceModel) -> DeviceModel {
    DeviceModel { opened: false, closes: m.closes + 1, ..m }
}

/// Interface to the operating-system device endpoint.
///
/// The ghost model pins down what each operation does and whether it
/// would currently succeed, so that callers get exact outcomes. The
/// in-crate [`FakeDevice`] is the verified implementation; a real backend
/// implements the same operations against the operating system, outside
/// this crate and outside verification.
pub trait DeviceBackend: Sized {
    spec fn model(&self) -> DeviceModel;

    /// Opens the endpoint at `path` for read and write with shared
    /// access; the endpoint must already exist.
    fn open(&mut self, path: &str) -> (r: Result<(), u32>)
        requires
            !old(self).model().opened,
            old(self).model().opens < u64::MAX,
        ensures
            final(self).model() == open_step(old(self).model(), path@),
            r == open_outcome(old(self).model()),
    ;

    /// Issues one synchronous device-control request carrying `opcode`
    /// and the bytes of `frame`, and blocks until it completes. No data
    /// comes back.
    fn send(&mut self, opcode: u32, frame: &Vec<u8>) -> (r: Result<(), u32>)
        requires
            old(self).model().opened,
        ensures
            final(self).model() == send_step(old(self).model(), opcode, frame@),
            r == send_outcome(old(self).model()),
    ;

    /// Releases the open handle. The release itself is best-effort: the
    /// model records it either way, and the result carries any error
    /// code only for a backend's own reporting.
    fn close(&mut self) -> (r: Result<(), u32>)
        requires
            old(self).model().opened,
            old(self).model().closes < u64::MAX,
        ensures
            final(self).model() == close_step(old(self).model()),
    ;
}

/// An open control channel to the driver. It exists only while the
/// backend's handle is open, and the only way to take the backend out
/// again is [`Channel::close`], which releases the handle — so a
/// channel's handle is released exactly once, by ownership.
pub struct Channel<B: DeviceBackend> {
    backend: B,
}

impl<B: DeviceBackend> Channel<B> {
    /// The ghost model of the owned backend.
    pub closed spec fn model(&self) -> DeviceModel {
        self.backend.model()
    }

    /// A channel is well-formed exactly when its handle is open. Every
    /// channel handed out by [`Channel::open`] is, and stays so until it
    /// is closed.
    pub open spec fn wf(&self) -> bool {
        self.model().opened
    }

    /// Opens the driver's control endpoint at `path` and wraps the
    /// backend in a channel. On failure the backend is handed back
    /// beside the error, so nothing is lost and no handle is left open.
    pub fn open(backend: B, path: &str) -> (r: Result<Channel<B>, (B, ChannelError)>)
        requires
            !backend.model().opened,
            backend.model().opens < u64::MAX,
        ensures
            match r {
                Ok(chan) => {
                    &&& backend.model().open_error is None
                    &&& chan.model() == open_step(backend.model(), path@)
                    &&& chan.wf()
                },
                Err((b, e)) => {
                    &&& b.model() == open_step(backend.model(), path@)
                    &&& backend.model().open_error matches Some(code) && e
                        == ChannelError::OpenFailed(code)
                },
            },
    {
        let mut b = backend;
        match b.open(path) {
            Ok(()) => Ok(Channel { backend: b }),
            Err(code) => Err((b, ChannelError::OpenFailed(code))),
        }
    }

    /// Encodes `event` and sends it as one synchronous device-control
    /// request tagged with [`SEND_KEY_OPCODE`]. A non-success completion
    /// maps to [`ChannelError::IoFailed`].
    pub fn send_key_event(&mut self, event: KeyEvent) -> (r: Result<(), ChannelError>)
        requires
            old(self).wf(),
        ensures
            final(self).model() == send_step(
                old(self).model(),
                SEND_KEY_OPCODE,
                frame_spec(event),
            ),
            final(self).wf(),
            old(self).model().io_error is None ==> r is Ok,
            old(self).model().io_error matches Some(code) ==> r == Err::<(), ChannelError>(
                ChannelError::IoFailed(code),
            ),
    {
        let frame = event.encode();
        match self.backend.send(SEND_KEY_OPCODE, &frame) {
            Ok(()) => Ok(()),
            Err(code) => Err(ChannelError::IoFailed(code)),
        }
    }

    /// Consumes the channel and releases the handle, exactly once. A
    /// release failure is a backend-side report, never escalated: closing
    /// is best-effort cleanup.
    pub fn close(self) -> (backend: B)
        requires
            self.wf(),
            self.model().closes < u64::MAX,
        ensures
            backend.model() == close_step(self.model()),
    {
        let Channel { mut backend } = self;
        let _best_effort = backend.close();
        backend
    }
}

impl ChannelError {
    /// A short description of the failure, for reporting.
    pub fn message(&self) -> (r: &'static str)
        ensures
            r@ == channel_error_message(*self),
    {
        match self {
            ChannelError::OpenFailed(_) => "failed to open the driver control endpoint",
            ChannelError::IoFailed(_) => "device control request failed",
        }
    }
}

/// The description [`ChannelError::message`] returns for each failure.
pub open spec fn channel_error_message(e: ChannelError) -> Seq<char> {
    match e {
        ChannelError::OpenFailed(_) => "failed to open the driver control endpoint"@,
        ChannelError::IoFailed(_) => "device control request failed"@,
    }
}

/// Device model after sending each event of `events` in order, whether
/// each request succeeds or fails.
pub open spec fn send_all_step(m: DeviceModel, events: Seq<KeyEvent>) -> DeviceModel
    decreases events.len(),
{
    if events.len() == 0 {
        m
    } else {
        send_all_step(
            send_step(m, SEND_KEY_OPCODE, frame_spec(events[0])),
            events.drop_first(),
        )
    }
}

/// Order preservation and exactly-once release: any run of sends —
/// successful or failing — hands the device exactly the frames of its
/// events, in the same order, and never touches the handle accounting;
/// one close after the run releases the handle exactly once.
pub proof fn lemma_sends_preserve_order_and_handle(m: DeviceModel, events: Seq<KeyEvent>)
    ensures
        send_all_step(m, events).frames =~= m.frames + events.map_values(
            |e: KeyEvent| frame_spec(e),
        ),
        send_all_step(m, events).opens == m.opens,
        send_all_step(m, events).closes == m.closes,
        send_all_step(m, events).opened == m.opened,
        close_step(send_all_step(m, events)).closes == m.closes + 1,
        close_step(send_all_step(m, events)).opens == m.opens,
    decreases events.len(),
{
    let mapped = events.map_values(|e: KeyEvent| frame_spec(e));
    if events.len() == 0 {
        assert(send_all_step(m, events).frames =~= m.frames + mapped);
    } else {
        let m1 = send_step(m, SEND_KEY_OPCODE, frame_spec(events[0]));
        let rest = events.drop_first();
        lemma_sends_preserve_order_and_handle(m1, rest);
        let rest_mapped = rest.map_values(|e: KeyEvent| frame_spec(e));
        assert(send_all_step(m, events).frames =~= m.frames + mapped) by {
            assert(send_all_step(m, events).frames =~= m1.frames + rest_mapped);
            assert forall|i: int| 0 <= i < (m.frames + mapped).len() implies (m1.frames
                + rest_mapped)[i] == (m.frames + mapped)[i] by {
                if i < m.frames.len() {
                } else if i == m.frames.len() {
                } else {
                    assert(rest_mapped[i - m.frames.len() - 1] == frame_spec(
                        rest[i - m.frames.len() - 1],
                    ));
                    assert(rest[i - m.frames.len() - 1] == events[i - m.frames.len()]);
                }
            }
        }
    }
}

/// In-crate device double: a plain value that plays the role of the
/// driver's control endpoint, with fields that choose whether opens and
/// requests succeed. Its ghost model is the direct image of its fields.
#[derive(Debug)]
pub struct FakeDevice {
    pub opened: bool,
    pub opens: u64,
    pub closes: u64,
    pub ops: Vec<u32>,
    pub frames: Vec<Vec<u8>>,
    pub last_path: Option<String>,
    pub open_error: Option<u32>,
    pub io_error: Option<u32>,
}

/// Copies the bytes of a frame into a fresh vector.
fn copy_frame(frame: &Vec<u8>) -> (r: Vec<u8>)
    ensures
        r@ == frame@,
{
    let mut r: Vec<u8> = Vec::new();
    let mut i: usize = 0;
    while i < frame.len()
        invariant
            i <= frame.len(),
            r@ == frame@.subrange(0, i as int),
        decreases frame.len() - i,
    {
        r.push(frame[i]);
        proof {
            assert(r@ =~= frame@.subrange(0, i as int + 1));
        }
        i = i + 1;
    }
    proof {
        assert(r@ =~= frame@);
    }
    r
}

impl DeviceBackend for FakeDevice {
    open spec fn model(&self) -> DeviceModel {
        DeviceModel {
            opened: self.opened,
            opens: self.opens as nat,
            closes: self.closes as nat,
            ops: self.ops@,
            frames: self.frames@.map_values(|f: Vec<u8>| f@),
            last_path: match self.last_path {
                Some(path) => Some(path@),
                None => None,
            },
            open_error: self.open_error,
            io_error: self.io_error,
        }
    }

    fn open(&mut self, path: &str) -> (r: Result<(), u32>) {
        self.opens = self.opens + 1;
        self.last_path = Some(path.to_owned());
        match self.open_error {
            None => {
                self.opened = true;
                Ok(())
            },
            Some(code) => Err(code),
        }
    }

    fn send(&mut self, opcode: u32, frame: &Vec<u8>) -> (r: Result<(), u32>) {
        self.ops.push(opcode);
        let copy = copy_frame(frame);
        self.frames.push(copy);
        proof {
            assert(self.model().frames =~= send_step(old(self).model(), opcode, frame@).frames);
        }
        match self.io_error {
            None => Ok(()),
            Some(code) => Err(code),
        }
    }

    fn close(&mut self) -> (r: Result<(), u32>) {
        self.opened = false;
        self.closes = self.closes + 1;
        Ok(())
    }
}

impl FakeDevice {
    /// A fresh fake endpoint: closed, nothing recorded, every operation
    /// set to succeed.
    pub fn healthy() -> (d: FakeDevice)
        ensures
            d.model() == (DeviceModel {
                opened: false,
                opens: 0,
                closes: 0,
                ops: Seq::<u32>::empty(),
                frames: Seq::<Seq<u8>>::empty(),
                last_path: None,
                open_error: None,
                io_error: None,
            }),
    {
        let d = FakeDevice {
            opened: false,
            opens: 0,
            closes: 0,
            ops: Vec::new(),
            frames: Vec::new(),
            last_path: None,
            open_error: None,
            io_error: None,
        };
        proof {
            assert(d.model().ops =~= Seq::<u32>::empty());
            assert(d.model().frames =~= Seq::<Seq<u8>>::empty());
        }
        d
    }
}

} // verus!

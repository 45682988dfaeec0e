//! The vision engine: target state, the capture callback's frame path,
//! and the consumer's frame access.
//!
//! It owns the scan result (window name, process, id, resolution label),
//! the session manager, and the shared frame store. The OS hands the
//! surrounding application raw samples; the application feeds them to
//! [`handle_sample`], which filters, converts and publishes them, and the
//! consumer polls [`VisionEngine::capture_frame`] on its own cadence.

use vstd::prelude::*;
use vstd::utf8::encode_utf8;
use std::sync::Arc;
use crate::frame_store::FrameStore;
use crate::locator::ScanError;
use crate::locator::WindowDescriptor;
use crate::locator::find_target;
use crate::locator::first_match;
use crate::pixel::convert;
use crate::pixel::convert_spec;
use crate::session::CaptureCommand;
use crate::session::SessionError;
use crate::session::SessionManager;
use crate::session::SessionState;
use crate::session::confirm_next;
use crate::session::start_commands;
use crate::session::stop_commands;

verus! {

/// The character for one decimal digit value.
pub open spec fn dec_digit(d: int) -> char {
    if d == 0 {
        '0'
    } else if d == 1 {
        '1'
    } else if d == 2 {
        '2'
    } else if d == 3 {
        '3'
    } else if d == 4 {
        '4'
    } else if d == 5 {
        '5'
    } else if d == 6 {
        '6'
    } else if d == 7 {
        '7'
    } else if d == 8 {
        '8'
    } else {
        '9'
    }
}

/// The decimal numeral of `n`: most significant digit first, no sign, no
/// padding, a single `0` for zero.
pub open spec fn dec_of(n: nat) -> Seq<char>
    decreases n,
{
    if n < 10 {
        seq![dec_digit(n as int)]
    } else {
        dec_of(n / 10).push(dec_digit((n % 10) as int))
    }
}

/// The display label of a frame size: width, an `x`, height.
pub open spec fn resolution_label(width: nat, height: nat) -> Seq<char> {
    dec_of(width) + seq!['x'] + dec_of(height)
}

/// Relies on `core::fmt`'s `Display` for `u32`: it writes the decimal
/// digits of the value, most significant first, without sign or padding.
#[verifier::external_body]
fn format_resolution(width: u32, height: u32) -> (s: String)
    ensures
        s@ == resolution_label(width as nat, height as nat),
{
    format!("{}x{}", width, height)
}

/// The type tag the capture stream attaches to each delivered sample.
/// Only screen content is processed; audio and microphone samples are
/// silently ignored.
#[derive(Debug, Clone, Copy, PartialEq, Eq, Structural)]
pub enum SampleKind {
    /// Screen (video) content.
    Screen,
    /// System audio.
    Audio,
    /// Microphone input.
    Microphone,
}

/// Whether one delivered sample ends in a frame-store write: it is
/// screen content, it is not empty, its claimed dimensions are positive,
/// and its converted pixels fill those dimensions exactly. Anything else
/// — a malformed or truncated frame included — is dropped silently.
pub open spec fn sample_accepted(kind: SampleKind, data: Seq<u8>, width: u32, height: u32) -> bool {
    &&& kind == SampleKind::Screen
    &&& data.len() > 0
    &&& width > 0
    &&& height > 0
    &&& convert_spec(data).len() == width as int * height as int * 4
}

/// The capture callback's work for one delivered sample: filter by type,
/// convert BGRA to RGBA, and publish the frame with one store write.
/// Never blocks beyond the store's short critical section, never panics,
/// and tolerates empty or malformed frames by dropping them.
pub fn handle_sample(
    store: &FrameStore,
    kind: SampleKind,
    data: &[u8],
    width: u32,
    height: u32,
) -> (wrote: bool)
    ensures
        wrote == sample_accepted(kind, data@, width, height),
{
    match kind {
        SampleKind::Screen => {},
        _ => { return false; },
    }
    if data.len() == 0 || width == 0 || height == 0 {
        return false;
    }
    let rgba = convert(data);
    assert(width as int * height as int * 4 < 0x10000000000000000000000000000i128) by (nonlinear_arith)
        requires
            width <= 0xffffffffu32,
            height <= 0xffffffffu32,
    ;
    let expected: u128 = (width as u128) * (height as u128) * 4;
    if (rgba.len() as u128) == expected {
        store.write(rgba, width, height);
        true
    } else {
        false
    }
}

/// Owns the scan result, the session lifecycle, and the shared frame
/// store of the capture pipeline.
pub struct VisionEngine {
    /// Title of the target window; `"Not Scanned"` before the first scan,
    /// `"Dofus not found"` after a scan that matched nothing.
    pub target_window_name: String,
    /// Process that owns the target window, once found.
    pub target_window_pid: Option<i32>,
    /// Compositor id of the target window, once found.
    pub target_window_id: Option<u32>,
    /// Display label of the target window's size, `"0x0"` before a find.
    pub window_resolution: String,
    /// The single-slot frame cell; the application hands a second handle
    /// of it to the capture callback thread.
    pub frame_store: Arc<FrameStore>,
    /// Lifecycle of the single capture stream.
    pub session: SessionManager,
}

impl VisionEngine {
    /// An engine that has scanned nothing and streams nothing.
    pub fn new() -> (v: VisionEngine)
        ensures
            v.target_window_name@ == "Not Scanned"@,
            v.target_window_pid is None,
            v.target_window_id is None,
            v.window_resolution@ == "0x0"@,
            v.session.state == SessionState::Idle,
    {
        VisionEngine {
            target_window_name: "Not Scanned".to_owned(),
            target_window_pid: None,
            target_window_id: None,
            window_resolution: "0x0".to_owned(),
            frame_store: Arc::new(FrameStore::new()),
            session: SessionManager::new(),
        }
    }

    /// Scans the window inventory for the first title containing
    /// `"Dofus"`. On a match the target fields take the window's title,
    /// process, id and size label, and a session start for that window is
    /// requested, stopping any bound stream first; the commands come back
    /// for the application to perform. When nothing matches, the target
    /// fields say so and the session is left alone. When the inventory
    /// itself was unavailable, nothing changes at all.
    pub fn find_dofus_window(&mut self, inventory: Option<&Vec<WindowDescriptor>>) -> (r: (
        Result<WindowDescriptor, ScanError>,
        Vec<CaptureCommand>,
    ))
        ensures
            match inventory {
                None => {
                    &&& r.0 == Err::<WindowDescriptor, ScanError>(ScanError::InventoryUnavailable)
                    &&& r.1@.len() == 0
                    &&& *final(self) == *old(self)
                },
                Some(ws) => match first_match(ws@, encode_utf8("Dofus"@)) {
                    Some(i) => {
                        &&& r.0 matches Ok(w) && w.same_as(&ws@[i])
                        &&& final(self).target_window_name@ == ws@[i].title@
                        &&& final(self).target_window_pid == Some(ws@[i].pid)
                        &&& final(self).target_window_id == Some(ws@[i].id)
                        &&& final(self).window_resolution@ == resolution_label(
                            ws@[i].width as nat,
                            ws@[i].height as nat,
                        )
                        &&& final(self).session.state == (SessionState::Starting {
                            window_id: ws@[i].id,
                        })
                        &&& r.1@ == start_commands(
                            old(self).session.state,
                            ws@[i].id,
                            ws@[i].width,
                            ws@[i].height,
                        )
                    },
                    None => {
                        &&& r.0 == Err::<WindowDescriptor, ScanError>(ScanError::NotFound)
                        &&& r.1@.len() == 0
                        &&& final(self).target_window_name@ == "Dofus not found"@
                        &&& final(self).target_window_pid is None
                        &&& final(self).target_window_id is None
                        &&& final(self).window_resolution == old(self).window_resolution
                        &&& final(self).session == old(self).session
                    },
                },
            },
    {
        match inventory {
            None => (Err(ScanError::InventoryUnavailable), Vec::new()),
            Some(ws) => {
                match find_target(ws, "Dofus") {
                    Ok(w) => {
                        self.target_window_name = w.title.clone();
                        self.target_window_pid = Some(w.pid);
                        self.target_window_id = Some(w.id);
                        self.window_resolution = format_resolution(w.width, w.height);
                        let cmds = self.session.start(w.id, w.width, w.height);
                        (Ok(w), cmds)
                    },
                    Err(e) => {
                        self.target_window_name = "Dofus not found".to_owned();
                        self.target_window_pid = None;
                        self.target_window_id = None;
                        (Err(e), Vec::new())
                    },
                }
            },
        }
    }

    /// Requests a stream bound to `window_id`, the frame size fixed to
    /// the window's reported size and the cursor disabled; any bound
    /// stream is stopped first. The commands come back for the
    /// application to perform, which then reports through
    /// [`VisionEngine::confirm_stream`].
    pub fn start_streaming(&mut self, window_id: u32, width: u32, height: u32) -> (cmds: Vec<
        CaptureCommand,
    >)
        ensures
            final(self).session.state == (SessionState::Starting { window_id }),
            cmds@ == start_commands(old(self).session.state, window_id, width, height),
            final(self).target_window_name == old(self).target_window_name,
            final(self).target_window_pid == old(self).target_window_pid,
            final(self).target_window_id == old(self).target_window_id,
            final(self).window_resolution == old(self).window_resolution,
    {
        self.session.start(window_id, width, height)
    }

    /// Records whether the OS accepted the start request. On rejection
    /// the session reverts to idle with `StreamUnavailable` — the target
    /// fields stay as the scan set them, so the display still shows the
    /// window that was found but is not streaming.
    pub fn confirm_stream(&mut self, ok: bool) -> (r: Result<(), SessionError>)
        requires
            old(self).session.state is Starting,
        ensures
            final(self).session.state == confirm_next(old(self).session.state, ok),
            r is Ok <==> ok,
            !ok ==> r == Err::<(), SessionError>(SessionError::StreamUnavailable),
            final(self).target_window_name == old(self).target_window_name,
            final(self).target_window_pid == old(self).target_window_pid,
            final(self).target_window_id == old(self).target_window_id,
            final(self).window_resolution == old(self).window_resolution,
    {
        self.session.confirm_start(ok)
    }

    /// Releases whatever stream is bound and returns the session to
    /// idle. Idempotent: on an idle session nothing is emitted and
    /// nothing is an error.
    pub fn stop(&mut self) -> (cmds: Vec<CaptureCommand>)
        ensures
            final(self).session.state == SessionState::Idle,
            cmds@ == stop_commands(old(self).session.state),
            final(self).target_window_name == old(self).target_window_name,
            final(self).target_window_pid == old(self).target_window_pid,
            final(self).target_window_id == old(self).target_window_id,
            final(self).window_resolution == old(self).window_resolution,
    {
        self.session.stop()
    }

    /// The newest frame, or `None` while no frame has arrived or the
    /// slot is blank. The copy is independent — the capture callback is
    /// never stalled by a consumer holding it — and always well-formed:
    /// exactly `width * height * 4` pixel bytes with positive
    /// dimensions, ready for an image buffer of the same shape.
    pub fn capture_frame(&self) -> (r: Option<crate::frame_store::FrameBuffer>)
        ensures
            match r {
                Some(fb) => {
                    &&& fb.pixels@.len() == fb.width as int * fb.height as int * 4
                    &&& fb.width > 0
                    &&& fb.height > 0
                },
                None => true,
            },
    {
        self.frame_store.read_snapshot()
    }
}

} // verus!

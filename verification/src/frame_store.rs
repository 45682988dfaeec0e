//! Frame Store: the single-slot holder of the most recently captured frame.
//!
//! One writer (the capture callback) replaces the slot, newest frame wins;
//! the consumer takes an independent copy on its own cadence. Both sides go
//! through one reader-writer lock whose invariant ties the pixel length to
//! the reported dimensions, so no reader can ever observe a width/height
//! pair that does not match the pixel bytes taken in the same critical
//! section.

use vstd::prelude::*;
use vstd::rwlock::RwLock;
use vstd::rwlock::RwLockPredicate;

verus! {

/// One frame in the canonical RGBA encoding: `pixels` holds exactly
/// `width * height * 4` bytes, row-major, no padding.
pub struct FrameBuffer {
    /// The pixel bytes, four per pixel.
    pub pixels: Vec<u8>,
    /// Width in pixels.
    pub width: u32,
    /// Height in pixels.
    pub height: u32,
}

impl FrameBuffer {
    /// The dimensions and the pixel bytes agree: `width * height * 4`
    /// bytes exactly.
    pub open spec fn wf(&self) -> bool {
        self.pixels@.len() == self.width as int * self.height as int * 4
    }

    /// A frame that carries no picture yet: no bytes, zero dimensions.
    pub open spec fn is_blank(&self) -> bool {
        self.pixels@.len() == 0 || self.width == 0 || self.height == 0
    }

    /// The empty slot contents before any frame arrived.
    pub fn blank() -> (fb: FrameBuffer)
        ensures
            fb.wf(),
            fb.is_blank(),
            fb.pixels@.len() == 0 && fb.width == 0 && fb.height == 0,
    {
        FrameBuffer { pixels: Vec::new(), width: 0, height: 0 }
    }
}

/// What a snapshot of slot contents `cell` yields: nothing while the slot
/// is blank, otherwise a copy with the same bytes and dimensions.
pub open spec fn snapshot_model(cell: FrameBuffer) -> Option<(Seq<u8>, u32, u32)> {
    if cell.is_blank() {
        None
    } else {
        Some((cell.pixels@, cell.width, cell.height))
    }
}

/// Lock invariant of the store: every value that ever rests in the slot
/// is a well-formed frame.
pub struct FrameStoreInv {}

impl RwLockPredicate<FrameBuffer> for FrameStoreInv {
    open spec fn inv(self, v: FrameBuffer) -> bool {
        v.wf()
    }
}

/// The mutually-exclusive single-slot cell shared between the capture
/// callback (sole writer) and the consumer. Neither operation blocks on
/// the other beyond the short critical section.
pub struct FrameStore {
    lock: RwLock<FrameBuffer, FrameStoreInv>,
}

/// An independent copy of a frame's bytes.
fn copy_bytes(src: &Vec<u8>) -> (out: Vec<u8>)
    ensures
        out@ == src@,
{
    let mut out: Vec<u8> = Vec::new();
    let mut i: usize = 0;
    while i < src.len()
        invariant
            i <= src@.len(),
            out@ == src@.subrange(0, i as int),
        decreases src@.len() - i,
    {
        out.push(src[i]);
        i = i + 1;
    }
    assert(out@ =~= src@);
    out
}

/// The copy that `read_snapshot` hands out for given slot contents:
/// `None` while the slot is blank, else an independent well-formed copy
/// with exactly the slot's bytes and dimensions.
pub fn snapshot_of(cell: &FrameBuffer) -> (r: Option<FrameBuffer>)
    requires
        cell.wf(),
    ensures
        match r {
            Some(fb) => {
                &&& fb.wf()
                &&& snapshot_model(*cell) == Some((fb.pixels@, fb.width, fb.height))
            },
            None => snapshot_model(*cell) is None,
        },
{
    if cell.pixels.len() == 0 || cell.width == 0 || cell.height == 0 {
        None
    } else {
        Some(
            FrameBuffer {
                pixels: copy_bytes(&cell.pixels),
                width: cell.width,
                height: cell.height,
            },
        )
    }
}

impl FrameStore {
    /// A store that has seen no frame yet: every snapshot is `None` until
    /// the first write.
    pub fn new() -> (s: FrameStore) {
        FrameStore { lock: RwLock::new(FrameBuffer::blank(), Ghost(FrameStoreInv {})) }
    }

    /// Replaces the slot contents unconditionally: newest frame wins and
    /// the prior frame is dropped. The pixel bytes must agree with the
    /// dimensions, which is what keeps the lock invariant.
    pub fn write(&self, pixels: Vec<u8>, width: u32, height: u32)
        requires
            pixels@.len() == width as int * height as int * 4,
    {
        let (_replaced, handle) = self.lock.acquire_write();
        handle.release_write(FrameBuffer { pixels, width, height });
    }

    /// Takes an independent copy of the newest frame, or `None` while the
    /// slot is blank. Every frame handed out is well-formed: its pixel
    /// length is exactly `width * height * 4` and both dimensions are
    /// positive, whatever writes raced with this read.
    pub fn read_snapshot(&self) -> (r: Option<FrameBuffer>)
        ensures
            match r {
                Some(fb) => {
                    &&& fb.pixels@.len() == fb.width as int * fb.height as int * 4
                    &&& fb.width > 0
                    &&& fb.height > 0
                    &&& fb.pixels@.len() > 0
                },
                None => true,
            },
    {
        let read_handle = self.lock.acquire_read();
        let r = snapshot_of(read_handle.borrow());
        read_handle.release_read();
        r
    }
}

/// After `write(p, w, h)` of a frame with positive dimensions and
/// matching pixel length, a snapshot of the slot yields exactly the bytes
/// of `p` and the exact pair `(w, h)`, and that length is `w * h * 4`.
pub proof fn lemma_write_then_snapshot(p: Vec<u8>, w: u32, h: u32)
    requires
        p@.len() == w as int * h as int * 4,
        w > 0,
        h > 0,
    ensures
        snapshot_model(FrameBuffer { pixels: p, width: w, height: h }) == Some((p@, w, h)),
        p@.len() == w as int * h as int * 4,
{
    assert(w as int * h as int * 4 > 0) by (nonlinear_arith)
        requires
            w >= 1,
            h >= 1,
    ;
}

/// Before any write the slot is blank, and a snapshot of a blank slot
/// yields nothing.
pub proof fn lemma_blank_snapshot(fb: FrameBuffer)
    requires
        fb.is_blank(),
    ensures
        snapshot_model(fb) is None,
{
}

} // verus!

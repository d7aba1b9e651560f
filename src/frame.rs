//! The frame buffer: `width * height` RGBA pixels, row-major, four bytes each.
use vstd::prelude::*;

use crate::gradient::{fill_gradient, gradient};

verus! {

/// What a frame holds: its size in pixels and its bytes.
pub struct FrameView {
    pub width: u32,
    pub height: u32,
    pub bytes: Seq<u8>,
}

/// The number of bytes of a frame `width` pixels wide and `height` high.
pub open spec fn frame_len(width: int, height: int) -> int {
    4 * width * height
}

/// Whether a frame of that size can be held in memory addressed by `usize`.
pub open spec fn fits(width: u32, height: u32) -> bool {
    frame_len(width as int, height as int) <= usize::MAX
}

/// A frame holds exactly four bytes for each pixel.
pub open spec fn frame_wf(f: FrameView) -> bool {
    f.bytes.len() == frame_len(f.width as int, f.height as int)
}

/// The bytes after the buffer is resized to `len`: what was there is kept up
/// to the new length, and new bytes are zero.
pub open spec fn resized(bytes: Seq<u8>, len: int) -> Seq<u8> {
    if len <= bytes.len() {
        bytes.subrange(0, len)
    } else {
        bytes + Seq::new((len - bytes.len()) as nat, |k: int| 0u8)
    }
}

/// A frame resized to `width` by `height`.
pub open spec fn resized_frame(f: FrameView, width: u32, height: u32) -> FrameView {
    FrameView {
        width,
        height,
        bytes: resized(f.bytes, frame_len(width as int, height as int)),
    }
}

/// A frame whose every byte has been overwritten with the gradient.
pub open spec fn filled_frame(f: FrameView) -> FrameView {
    FrameView { bytes: gradient(f.width as int, f.height as int), ..f }
}

/// A pixel buffer together with its size.
pub struct Frame {
    width: u32,
    height: u32,
    data: Vec<u8>,
}

impl View for Frame {
    type V = FrameView;

    closed spec fn view(&self) -> FrameView {
        FrameView { width: self.width, height: self.height, bytes: self.data@ }
    }
}

impl Frame {
    pub open spec fn wf(&self) -> bool {
        frame_wf(self@)
    }

    /// A frame of no pixels.
    pub fn empty() -> (f: Frame)
        ensures
            f.wf(),
            f@ == (FrameView { width: 0, height: 0, bytes: Seq::empty() }),
    {
        Frame { width: 0, height: 0, data: Vec::new() }
    }

    pub fn width(&self) -> (r: u32)
        ensures
            r == self@.width,
    {
        self.width
    }

    pub fn height(&self) -> (r: u32)
        ensures
            r == self@.height,
    {
        self.height
    }

    /// The pixel bytes, row-major, red, green, blue and alpha for each pixel.
    pub fn bytes(&self) -> (r: &[u8])
        ensures
            r@ == self@.bytes,
    {
        self.data.as_slice()
    }

    /// Resizes the frame to `width` by `height` pixels. Fails, leaving the
    /// frame as it was, only where the new buffer's length would not fit in
    /// `usize`.
    pub fn resize(&mut self, width: u32, height: u32) -> (ok: bool)
        requires
            old(self).wf(),
        ensures
            final(self).wf(),
            ok == fits(width, height),
            ok ==> final(self)@ == resized_frame(old(self)@, width, height),
            !ok ==> final(self)@ == old(self)@,
    {
        proof {
            assert(width * height * 4 == frame_len(width as int, height as int)) by (nonlinear_arith);
        }
        let pixels = (width as usize).checked_mul(height as usize);
        let len: usize = match pixels {
            Some(p) => match p.checked_mul(4) {
                Some(l) => l,
                None => {
                    return false;
                },
            },
            None => {
                proof {
                    assert(width * height * 4 >= width * height) by (nonlinear_arith);
                }
                return false;
            },
        };
        let ghost before = self.data@;
        if len <= self.data.len() {
            self.data.truncate(len);
        } else {
            while self.data.len() < len
                invariant
                    before.len() <= self.data.len() <= len,
                    self.data@.subrange(0, before.len() as int) == before,
                    forall|k: int|
                        before.len() <= k < self.data.len() ==> #[trigger] self.data@[k] == 0u8,
                decreases len - self.data.len(),
            {
                self.data.push(0u8);
            }
            assert(self.data@ =~= resized(before, len as int));
        }
        self.width = width;
        self.height = height;
        true
    }

    /// Overwrites every pixel with the gradient for the frame's size.
    pub fn fill(&mut self)
        requires
            old(self).wf(),
        ensures
            final(self).wf(),
            final(self)@ == filled_frame(old(self)@),
    {
        fill_gradient(&mut self.data, self.width, self.height);
    }
}

} // verus!

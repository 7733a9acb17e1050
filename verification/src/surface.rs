//! The presentation surface: owner of the on-screen pixel buffer.
//!
//! The surface's buffer is resized to match the window before any render
//! and a caller-filled frame of exactly the surface's dimensions is then
//! presented into it. `resize` to the current size is a no-op, so calling
//! it twice with one size leaves the surface exactly as after the first
//! call; `present` with a mismatched frame is a precondition violation,
//! never silently cropped or stretched.

use vstd::prelude::*;

use crate::raster::FrameBuffer;
use crate::raster::FrameV;
use crate::raster::zero_seq;

verus! {

/// What `resize` does to a surface's value: nothing when the size already
/// matches, else a cleared buffer of the new dimensions.
pub open spec fn resize_spec(s: FrameV, width: int, height: int) -> FrameV {
    if s.width == width && s.height == height {
        s
    } else {
        FrameV { width, height, data: zero_seq(4 * width * height) }
    }
}

/// The surface bound to the window. It owns the frame that is shown on
/// screen; pushing those bytes to the display is the caller's task.
pub struct Surface {
    frame: FrameBuffer,
}

impl View for Surface {
    type V = FrameV;

    closed spec fn view(&self) -> FrameV {
        self.frame@
    }
}

impl Surface {
    /// The held frame matches the surface's dimensions and those fit the
    /// renderer's size bound.
    pub open spec fn wf(&self) -> bool {
        &&& self@.data.len() == 4 * self@.width * self@.height
        &&& 4 * self@.width * self@.height <= 0x7fffffff
    }

    /// A surface of the given dimensions holding a cleared frame.
    pub fn new(width: u32, height: u32) -> (s: Surface)
        requires
            4 * (width as int) * (height as int) <= 0x7fffffff,
        ensures
            s@ == (FrameV {
                width: width as int,
                height: height as int,
                data: zero_seq(4 * (width as int) * (height as int)),
            }),
            s.wf(),
    {
        Surface { frame: FrameBuffer::new_zeroed(width, height) }
    }

    /// The surface's width in pixels.
    pub fn width(&self) -> (w: u32)
        ensures
            w as int == self@.width,
    {
        self.frame.width()
    }

    /// The surface's height in pixels.
    pub fn height(&self) -> (h: u32)
        ensures
            h as int == self@.height,
    {
        self.frame.height()
    }

    /// The bytes of the frame the surface holds.
    pub fn frame_data(&self) -> (d: &Vec<u8>)
        ensures
            d@ == self@.data,
    {
        self.frame.data()
    }

    /// Resizes the surface to the window's physical size.
    ///
    /// Idempotent: when the size is unchanged the surface is left exactly
    /// as it is; otherwise the buffer is reallocated, cleared, at the new
    /// dimensions.
    pub fn resize(&mut self, width: u32, height: u32)
        requires
            old(self).wf(),
            4 * (width as int) * (height as int) <= 0x7fffffff,
        ensures
            final(self)@ == resize_spec(old(self)@, width as int, height as int),
            final(self).wf(),
    {
        if self.frame.width() != width || self.frame.height() != height {
            self.frame = FrameBuffer::new_zeroed(width, height);
        }
    }

    /// Displays a caller-filled frame of exactly the surface's current
    /// dimensions; the surface then holds it.
    pub fn present(&mut self, frame: FrameBuffer)
        requires
            old(self).wf(),
            frame.wf(),
            frame@.width == old(self)@.width,
            frame@.height == old(self)@.height,
        ensures
            final(self)@ == frame@,
            final(self).wf(),
    {
        self.frame = frame;
    }
}

/// Resizing twice with one size is the same as resizing once with it: the
/// second call finds the size unchanged and leaves the surface untouched.
pub proof fn lemma_resize_idempotent(s: FrameV, width: int, height: int)
    ensures
        resize_spec(resize_spec(s, width, height), width, height)
            == resize_spec(s, width, height),
{
}

} // verus!

//! The rasterizer: a pure function from a scene and a target size to a
//! fully-populated pixel buffer.
//!
//! [`rasterize`] scales the scene to exactly fill the requested
//! width × height and returns an RGBA buffer of exactly those dimensions.
//! It is deterministic: the rendered bytes are a function of the document
//! bytes and the target size alone, named [`raster_of`]. A zero target
//! size yields a zero-sized buffer rather than an error.

use vstd::prelude::*;

use crate::scene::Scene;

verus! {

/// A zero-filled byte sequence of length `n`: the cleared frame.
pub open spec fn zero_seq(n: int) -> Seq<u8> {
    Seq::new(n as nat, |i: int| 0u8)
}

/// The mathematical value of a frame buffer: its pixel dimensions and its
/// RGBA bytes, four per pixel, row by row.
#[verifier::ext_equal]
pub ghost struct FrameV {
    pub width: int,
    pub height: int,
    pub data: Seq<u8>,
}

/// A pixel grid sized to the current target dimensions. Cleared on
/// allocation; filled by [`rasterize`].
pub struct FrameBuffer {
    width: u32,
    height: u32,
    data: Vec<u8>,
}

impl View for FrameBuffer {
    type V = FrameV;

    closed spec fn view(&self) -> FrameV {
        FrameV { width: self.width as int, height: self.height as int, data: self.data@ }
    }
}

impl FrameBuffer {
    /// The buffer holds exactly four bytes per pixel of its dimensions.
    pub open spec fn wf(&self) -> bool {
        self@.data.len() == 4 * self@.width * self@.height
    }

    /// The buffer's width in pixels.
    pub fn width(&self) -> (w: u32)
        ensures
            w as int == self@.width,
    {
        self.width
    }

    /// The buffer's height in pixels.
    pub fn height(&self) -> (h: u32)
        ensures
            h as int == self@.height,
    {
        self.height
    }

    /// The buffer's bytes.
    pub fn data(&self) -> (d: &Vec<u8>)
        ensures
            d@ == self@.data,
    {
        &self.data
    }

    /// A cleared buffer of the given dimensions.
    pub fn new_zeroed(width: u32, height: u32) -> (fb: FrameBuffer)
        requires
            4 * (width as int) * (height as int) <= 0x7fffffff,
        ensures
            fb@ == (FrameV {
                width: width as int,
                height: height as int,
                data: zero_seq(4 * (width as int) * (height as int)),
            }),
            fb.wf(),
    {
        proof {
            assert((width as int) * (height as int) <= 0x7fffffff
                && (width as int) * (height as int) * 4 == 4 * (width as int) * (height as int))
                by (nonlinear_arith)
                requires
                    4 * (width as int) * (height as int) <= 0x7fffffff,
            ;
        }
        let px: usize = (width as usize) * (height as usize);
        let len: usize = px * 4;
        let mut data: Vec<u8> = Vec::new();
        for i in iter: 0..len
            invariant
                data@ == zero_seq(i as int),
                len == 4 * (width as int) * (height as int),
        {
            data.push(0u8);
            proof {
                assert(data@ =~= zero_seq(i as int + 1));
            }
        }
        let fb = FrameBuffer { width, height, data };
        proof {
            assert(fb@ =~= (FrameV {
                width: width as int,
                height: height as int,
                data: zero_seq(4 * (width as int) * (height as int)),
            }));
        }
        fb
    }
}

/// The bytes that rendering the document `doc` at `width` × `height`
/// produces, scaled to exactly fill that size, over a cleared buffer —
/// the cleared buffer itself for a document whose intrinsic size exceeds
/// what a pixel rect can express. The rendering is deterministic and
/// reads nothing beyond the document, so the result is a function of the
/// document bytes and the target size alone; it is only named here and
/// applied by [`render_scene_into`].
pub uninterp spec fn raster_of(doc: Seq<u8>, width: u32, height: u32) -> Seq<u8>;

/// Relies on `resvg::render`, which paints a parsed tree onto a pixmap
/// under a root transform, and on the `tiny_skia` transform algebra
/// (`Transform::from_bbox`, `invert`, `pre_concat`) to build the exact
/// transform that maps the tree's intrinsic size onto `width` × `height`,
/// as resvg's own command line does for its fit-to-size option. Every
/// step is checked: on a document whose intrinsic size cannot be
/// expressed as a pixel rect (it exceeds the rect limits) the cleared
/// frame is left standing, and that choice too depends only on the
/// document. A `Scene`'s tree is the parse of its viewed bytes
/// (established by `parse_scene`, which reads nothing but the bytes),
/// and parse and render are both deterministic, so the painted frame is
/// a function of those bytes and the target size.
#[verifier::external_body]
fn render_scene_into(scene: &Scene, width: u32, height: u32, frame: &mut Vec<u8>)
    requires
        1 <= width,
        1 <= height,
        4 * (width as int) * (height as int) <= 0x7fffffff,
        old(frame)@ == zero_seq(4 * (width as int) * (height as int)),
    ensures
        final(frame)@ == raster_of(scene@, width, height),
        final(frame)@.len() == old(frame)@.len(),
{
    let s = scene.tree.size().to_int_size();
    let Some(sr) = tiny_skia::IntRect::from_xywh(0, 0, s.width(), s.height()) else { return };
    let Some(dr) = tiny_skia::IntRect::from_xywh(0, 0, width, height) else { return };
    let Some(src) = sr.to_rect().to_non_zero_rect() else { return };
    let Some(dst) = dr.to_rect().to_non_zero_rect() else { return };
    let Some(inv) = tiny_skia::Transform::from_bbox(src).invert() else { return };
    let Some(mut pm) = tiny_skia::PixmapMut::from_bytes(frame.as_mut_slice(), width, height) else {
        return
    };
    resvg::render(&scene.tree, tiny_skia::Transform::from_bbox(dst).pre_concat(inv), &mut pm);
}

/// Renders `scene` at exactly `width` × `height`.
///
/// The returned buffer's dimensions equal the requested ones for every
/// target size; for a nonzero size its bytes are the rendering of the
/// scene's document scaled to fill that size, and a zero size gives the
/// zero-sized buffer.
pub fn rasterize(scene: &Scene, width: u32, height: u32) -> (fb: FrameBuffer)
    requires
        4 * (width as int) * (height as int) <= 0x7fffffff,
    ensures
        fb@.width == width as int,
        fb@.height == height as int,
        fb.wf(),
        1 <= width && 1 <= height ==> fb@.data == raster_of(scene@, width, height),
        width == 0 || height == 0 ==> fb@.data == Seq::<u8>::empty(),
{
    let mut fb = FrameBuffer::new_zeroed(width, height);
    if 1 <= width && 1 <= height {
        render_scene_into(scene, width, height, &mut fb.data);
    } else {
        proof {
            assert(4 * (width as int) * (height as int) == 0) by (nonlinear_arith)
                requires
                    width == 0 || height == 0,
            ;
            assert(fb@.data =~= Seq::<u8>::empty());
        }
    }
    fb
}

} // verus!

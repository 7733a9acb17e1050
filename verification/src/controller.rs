//! The event-loop controller: the single-threaded dispatcher that owns
//! the scene and the presentation surface and decides, one event at a
//! time, when to reload, re-rasterize and redraw.
//!
//! The caller runs the platform's event loop and hands each event here as
//! plain values: the freshly read file contents after a change signal,
//! the window's physical size on resize and redraw, the close request.
//! Each handler returns the [`Action`] the caller must perform. The scene
//! is replaced wholesale on a successful reload and left untouched on a
//! failed one, so the viewer keeps showing the last good render.

use vstd::prelude::*;

use crate::raster::FrameV;
use crate::raster::rasterize;
use crate::raster::raster_of;
use crate::raster::zero_seq;
use crate::scene::LoadError;
use crate::scene::Scene;
use crate::scene::parse_scene;
use crate::scene::svg_well_formed;
use crate::surface::Surface;
use crate::surface::resize_spec;

verus! {

/// What the caller must do after a handled event.
#[derive(Clone, Copy, Debug, PartialEq, Eq, Structural)]
pub enum Action {
    /// Nothing: wait for the next event.
    Idle,
    /// Ask the window for a redraw.
    Redraw,
    /// Leave the event loop; the process exits.
    Quit,
}

/// The mathematical value of the controller: the bytes of the document
/// whose scene it holds, the surface's value, and whether the loop goes
/// on.
#[verifier::ext_equal]
pub ghost struct ControllerV {
    pub doc: Seq<u8>,
    pub surface: FrameV,
    pub running: bool,
}

/// The document held after a reload attempt: the new bytes when they
/// parse, the old document untouched when they do not or when the file
/// could not be read at all.
pub open spec fn reload_doc(doc: Seq<u8>, read: Option<Seq<u8>>) -> Seq<u8> {
    match read {
        Option::Some(bytes) => if svg_well_formed(bytes) {
            bytes
        } else {
            doc
        },
        Option::None => doc,
    }
}

/// The action a reload attempt asks for: a redraw exactly when the scene
/// was replaced.
pub open spec fn reload_action(read: Option<Seq<u8>>) -> Action {
    match read {
        Option::Some(bytes) => if svg_well_formed(bytes) {
            Action::Redraw
        } else {
            Action::Idle
        },
        Option::None => Action::Idle,
    }
}

/// The dispatcher's state: one scene, one surface, one flag.
pub struct Controller {
    scene: Scene,
    surface: Surface,
    running: bool,
}

impl View for Controller {
    type V = ControllerV;

    closed spec fn view(&self) -> ControllerV {
        ControllerV { doc: self.scene@, surface: self.surface@, running: self.running }
    }
}

impl Controller {
    /// The controller's surface is well formed.
    pub open spec fn wf(&self) -> bool {
        &&& self@.surface.data.len() == 4 * self@.surface.width * self@.surface.height
        &&& 4 * self@.surface.width * self@.surface.height <= 0x7fffffff
    }

    /// Startup: parses the initial document and allocates the surface at
    /// the initial window size. Fails exactly when the document does not
    /// parse; the caller then aborts before any window is shown.
    pub fn new(doc: Vec<u8>, width: u32, height: u32) -> (r: Result<Controller, LoadError>)
        requires
            4 * (width as int) * (height as int) <= 0x7fffffff,
        ensures
            r is Ok <==> svg_well_formed(doc@),
            r matches Ok(c) ==> c@ == (ControllerV {
                doc: doc@,
                surface: FrameV {
                    width: width as int,
                    height: height as int,
                    data: zero_seq(4 * (width as int) * (height as int)),
                },
                running: true,
            }) && c.wf(),
            r matches Err(e) ==> e == LoadError::Parse,
    {
        match parse_scene(&doc) {
            Ok(scene) => Ok(Controller { scene, surface: Surface::new(width, height), running: true }),
            Err(e) => Err(e),
        }
    }

    /// Whether the loop goes on; false after a close request.
    pub fn is_running(&self) -> (r: bool)
        ensures
            r == self@.running,
    {
        self.running
    }

    /// The surface's width in pixels.
    pub fn surface_width(&self) -> (w: u32)
        ensures
            w as int == self@.surface.width,
    {
        self.surface.width()
    }

    /// The surface's height in pixels.
    pub fn surface_height(&self) -> (h: u32)
        ensures
            h as int == self@.surface.height,
    {
        self.surface.height()
    }

    /// The bytes of the frame the surface holds, for the caller to push
    /// to the display.
    pub fn frame_data(&self) -> (d: &Vec<u8>)
        ensures
            d@ == self@.surface.data,
    {
        self.surface.frame_data()
    }

    /// A change signal arrived and the caller re-read the file: `read` is
    /// its full contents, or nothing when the read failed.
    ///
    /// On a successful parse the scene is replaced wholesale and a redraw
    /// is requested; on any failure the held scene and the surface stay
    /// exactly as they are and no redraw is requested.
    pub fn handle_file_changed(&mut self, read: Option<Vec<u8>>) -> (act: Action)
        requires
            old(self).wf(),
        ensures
            final(self).wf(),
            final(self)@.surface == old(self)@.surface,
            final(self)@.running == old(self)@.running,
            read is None ==> final(self)@.doc == old(self)@.doc && act == Action::Idle,
            read matches Some(bytes) ==> {
                &&& final(self)@.doc == reload_doc(old(self)@.doc, Some(bytes@))
                &&& act == reload_action(Some(bytes@))
            },
    {
        match read {
            Some(bytes) => match parse_scene(&bytes) {
                Ok(scene) => {
                    self.scene = scene;
                    Action::Redraw
                },
                Err(_) => Action::Idle,
            },
            None => Action::Idle,
        }
    }

    /// The window was resized: the surface follows the new physical size
    /// and a redraw is requested, deferred to the next redraw event.
    pub fn handle_resize(&mut self, width: u32, height: u32) -> (act: Action)
        requires
            old(self).wf(),
            4 * (width as int) * (height as int) <= 0x7fffffff,
        ensures
            final(self).wf(),
            final(self)@.doc == old(self)@.doc,
            final(self)@.running == old(self)@.running,
            final(self)@.surface == resize_spec(old(self)@.surface, width as int, height as int),
            act == Action::Redraw,
    {
        self.surface.resize(width, height);
        Action::Redraw
    }

    /// A redraw is due: `width` and `height` are the window's physical
    /// size re-queried at this very moment, never a cached one.
    ///
    /// The surface is resized to that size, the frame is cleared, the
    /// held scene is rasterized at that size and the result presented: so
    /// the surface's dimensions equal the window's current size whenever
    /// rendering begins, and its bytes are the held document's rendering
    /// at exactly that size.
    pub fn handle_redraw(&mut self, width: u32, height: u32)
        requires
            old(self).wf(),
            4 * (width as int) * (height as int) <= 0x7fffffff,
        ensures
            final(self).wf(),
            final(self)@.doc == old(self)@.doc,
            final(self)@.running == old(self)@.running,
            final(self)@.surface.width == width as int,
            final(self)@.surface.height == height as int,
            1 <= width && 1 <= height ==> final(self)@.surface.data
                == raster_of(old(self)@.doc, width, height),
            width == 0 || height == 0 ==> final(self)@.surface.data == Seq::<u8>::empty(),
    {
        self.surface.resize(width, height);
        let fb = rasterize(&self.scene, width, height);
        self.surface.present(fb);
    }

    /// The user asked to close the window: the loop terminates.
    pub fn handle_close(&mut self) -> (act: Action)
        requires
            old(self).wf(),
        ensures
            final(self).wf(),
            final(self)@.doc == old(self)@.doc,
            final(self)@.surface == old(self)@.surface,
            !final(self)@.running,
            act == Action::Quit,
    {
        self.running = false;
        Action::Quit
    }
}

/// Failure isolation: a reload attempt against a now-corrupted file
/// leaves the held document as it was, and with it the rendering at every
/// target size — the viewer's output after the failed attempt is the
/// output from before it.
pub proof fn lemma_failed_reload_preserves_render(
    doc: Seq<u8>,
    bad: Seq<u8>,
    width: u32,
    height: u32,
)
    requires
        !svg_well_formed(bad),
    ensures
        reload_doc(doc, Some(bad)) == doc,
        raster_of(reload_doc(doc, Some(bad)), width, height) == raster_of(doc, width, height),
{
}

} // verus!

//! The document loader: bytes in, a parsed scene or a typed error out.
//!
//! A [`Scene`] is an immutable, parsed in-memory form of the vector
//! document at a point in time. It is created here and replaced wholesale
//! on every successful reload, never mutated in place. Its view is the
//! byte content of the document it was parsed from: every later contract
//! (notably the rasterizer's) speaks of the scene through those bytes.

use vstd::prelude::*;

verus! {

/// Declares `usvg::Tree`, the parsed form of a vector document, so that a
/// value of it can be carried through the library. The library never looks
/// inside it.
#[verifier::external_type_specification]
#[verifier::external_body]
pub struct ExTree(usvg::Tree);

/// Declares `usvg::Error`, the parser's error type. The library does not
/// distinguish its variants: any parse failure is a [`LoadError::Parse`].
#[verifier::external_type_specification]
#[verifier::external_body]
pub struct ExError(usvg::Error);

/// Whether `usvg::Tree::from_data` accepts `data` as a well-formed vector
/// document under the library's parse options: the defaults, except that
/// image references resolve only data URLs, never files, so that nothing
/// outside the bytes is read. Acceptance is then a function of the bytes
/// alone; nothing shorter than the format's grammar could state it, so it
/// is only named here and applied by [`tree_from_data`].
pub uninterp spec fn svg_well_formed(data: Seq<u8>) -> bool;

/// Why a document failed to load.
#[derive(Clone, Copy, Debug, PartialEq, Eq, Structural)]
pub enum LoadError {
    /// The file could not be read.
    Io,
    /// The bytes are not a well-formed document.
    Parse,
}

/// Relies on `usvg::Tree::from_data`: it parses the given bytes and
/// returns `Ok` exactly when they form a well-formed document. The
/// options are the defaults with the image string resolver replaced by
/// one that resolves nothing, and the default font database is empty, so
/// the parse reads no file and no system state: acceptance and the
/// returned tree depend on the bytes alone. An image reference that does
/// not resolve is skipped by the parser, never an error.
#[verifier::external_body]
fn tree_from_data(data: &Vec<u8>) -> (r: Result<usvg::Tree, usvg::Error>)
    ensures
        r is Ok <==> svg_well_formed(data@),
{
    let opt = usvg::Options {
        image_href_resolver: usvg::ImageHrefResolver {
            resolve_data: usvg::ImageHrefResolver::default_data_resolver(),
            resolve_string: Box::new(|_: &str, _: &usvg::Options| None),
        },
        ..usvg::Options::default()
    };
    usvg::Tree::from_data(data.as_slice(), &opt)
}

/// An immutable parsed document. Its view is the byte content it was
/// parsed from.
pub struct Scene {
    pub(crate) tree: usvg::Tree,
    src: Ghost<Seq<u8>>,
}

impl View for Scene {
    type V = Seq<u8>;

    closed spec fn view(&self) -> Seq<u8> {
        self.src@
    }
}

/// Parses the full contents of the document file into a [`Scene`].
///
/// Succeeds exactly on well-formed documents; the returned scene's view is
/// the given bytes. Reading the file is the caller's task: a read failure
/// is a [`LoadError::Io`] before this function is reached.
pub fn parse_scene(data: &Vec<u8>) -> (r: Result<Scene, LoadError>)
    ensures
        r is Ok <==> svg_well_formed(data@),
        r matches Ok(s) ==> s@ == data@,
        r matches Err(e) ==> e == LoadError::Parse,
{
    match tree_from_data(data) {
        Ok(tree) => Ok(Scene { tree, src: Ghost(data@) }),
        Err(_) => Err(LoadError::Parse),
    }
}

} // verus!

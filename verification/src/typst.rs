//! The vector-document compositor.
//!
//! Typeset markup is compiled to SVG by an external compiler process (the
//! caller runs it); the library parses the SVG into a vector tree, tracks
//! the placement parameters and the built/not-built state, and hands the
//! caller an exact compositing step.  Rasterization -- sampling the tree
//! at `document size * scale` pixels -- is the caller's: the resulting
//! bytes are installed with `build`, and `render` refuses to composite
//! until that has happened.

use vstd::prelude::*;

use crate::rat::Coord;
use crate::renderer::Renderer;
use crate::renderer::copy_bytes;

verus! {

#[verifier::external_type_specification]
#[verifier::external_body]
pub struct ExTree(resvg::usvg::Tree);

#[verifier::external_type_specification]
#[verifier::external_body]
pub struct ExSize(resvg::usvg::Size);

/// Whether the SVG parser accepts these bytes as a vector document.  With
/// default options the parser's acceptance depends on its input alone --
/// the defaults hold an empty font database and fixed constants, so no
/// system state enters -- which lets the accepted set be named.
pub uninterp spec fn svg_parses(data: Seq<u8>) -> bool;

/// Relies on usvg's SVG parser, `Tree::from_data` with default options:
/// turns SVG bytes into a vector document tree, exactly when the bytes
/// are in the parser's accepted set `svg_parses`.  Nothing is assumed of
/// the returned tree itself.
#[verifier::external_body]
pub(crate) fn parse_svg(data: &Vec<u8>) -> (r: Option<resvg::usvg::Tree>)
    ensures
        r.is_some() == svg_parses(data@),
{
    resvg::usvg::Tree::from_data(data, &resvg::usvg::Options::default()).ok()
}

/// Relies on `usvg::Tree::size`: reports the intrinsic size of the
/// document.  Nothing is assumed of the returned value.
pub assume_specification[ resvg::usvg::Tree::size ](t: &resvg::usvg::Tree) -> resvg::usvg::Size;

/// A rasterized bitmap: `width * height` pixels, four bytes per pixel.
pub struct Raster {
    pub width: u32,
    pub height: u32,
    pub pixels: Vec<u8>,
}

impl Raster {
    /// Well-formed: the buffer holds exactly four bytes per pixel.
    pub open spec fn wf(self) -> bool {
        self.pixels@.len() == self.width * self.height * 4
    }
}

/// One compositing step: paint `pixels`, a `width * height` bitmap, onto
/// the frame's surface at offset `(x, y)` with alpha-over blending.
pub struct Blit {
    pub pixels: Vec<u8>,
    pub width: u32,
    pub height: u32,
    pub x: Coord,
    pub y: Coord,
}

/// A typeset vector document with placement parameters and, once `build`
/// has been called, its rasterized bitmap.
pub struct Typst {
    /// The parsed vector document.
    pub tree: resvg::usvg::Tree,
    /// Offset applied at composite time; never baked into the raster.
    pub translation: (Coord, Coord),
    /// Raster scale; a change takes effect only at the next `build`.
    pub scale: (Coord, Coord),
    /// The rasterized bitmap, present only after `build`.
    pub raster: Option<Raster>,
}

impl Typst {
    /// Well-formed: placement parameters are well-formed and any installed
    /// raster is correctly sized.
    pub open spec fn wf(self) -> bool {
        &&& self.translation.0.wf()
        &&& self.translation.1.wf()
        &&& self.scale.0.wf()
        &&& self.scale.1.wf()
        &&& match self.raster {
            Some(r) => r.wf(),
            None => true,
        }
    }

    /// `build` has produced a raster that `render` may composite.
    pub open spec fn built(self) -> bool {
        self.raster is Some
    }

    pub(crate) fn new(tree: resvg::usvg::Tree) -> (r: Typst)
        ensures
            r.wf(),
            !r.built(),
            r.translation.0 == (Coord { num: 0, den: 1 }),
            r.translation.1 == (Coord { num: 0, den: 1 }),
            r.scale.0 == (Coord { num: 1, den: 1 }),
            r.scale.1 == (Coord { num: 1, den: 1 }),
    {
        Typst {
            tree,
            translation: (Coord::zero(), Coord::zero()),
            scale: (Coord::one(), Coord::one()),
            raster: None,
        }
    }

    /// Sets the composite-time offset.  It takes effect at `render`; the
    /// raster is unaffected.
    pub fn translate(&mut self, x: Coord, y: Coord)
        requires
            old(self).wf(),
            x.wf(),
            y.wf(),
        ensures
            final(self).wf(),
            final(self).translation == (x, y),
            final(self).scale == old(self).scale,
            final(self).raster == old(self).raster,
            final(self).tree == old(self).tree,
    {
        self.translation = (x, y);
    }

    /// Sets the raster scale.  It takes effect only at the next `build`;
    /// until then composites keep using the previous raster.
    pub fn scale(&mut self, sx: Coord, sy: Coord)
        requires
            old(self).wf(),
            sx.wf(),
            sy.wf(),
        ensures
            final(self).wf(),
            final(self).scale == (sx, sy),
            final(self).translation == old(self).translation,
            final(self).raster == old(self).raster,
            final(self).tree == old(self).tree,
    {
        self.scale = (sx, sy);
    }

    /// Installs the raster for the current scale.  The caller samples the
    /// document at `width * height` pixels -- the document size scaled by
    /// `scale` -- and hands the premultiplied RGBA bytes here; the offset
    /// is not baked in.
    pub fn build(&mut self, pixels: Vec<u8>, width: u32, height: u32)
        requires
            old(self).wf(),
            pixels@.len() == width * height * 4,
        ensures
            final(self).wf(),
            final(self).built(),
            final(self).raster.unwrap().width == width,
            final(self).raster.unwrap().height == height,
            final(self).raster.unwrap().pixels@ == pixels@,
            final(self).translation == old(self).translation,
            final(self).scale == old(self).scale,
            final(self).tree == old(self).tree,
    {
        self.raster = Some(Raster { width, height, pixels });
    }

    /// The compositing step for the current raster: a copy of the bitmap
    /// together with the placement offset, for the caller to alpha-blend
    /// onto the frame's surface.  `build` must have been called first.
    pub fn render(&self) -> (r: Blit)
        requires
            self.wf(),
            self.built(),
        ensures
            r.pixels@ == self.raster.unwrap().pixels@,
            r.width == self.raster.unwrap().width,
            r.height == self.raster.unwrap().height,
            (r.x, r.y) == self.translation,
            r.pixels@.len() == r.width * r.height * 4,
    {
        let raster = self.raster.as_ref().unwrap();
        let pixels = copy_bytes(&raster.pixels);
        Blit {
            pixels,
            width: raster.width,
            height: raster.height,
            x: self.translation.0,
            y: self.translation.1,
        }
    }

    /// The intrinsic size of the vector document, as the parser reported
    /// it.  The value is opaque to the library; the caller reads it to
    /// choose the raster dimensions.
    pub fn get_size(&self) -> resvg::usvg::Size {
        self.tree.size()
    }
}

impl Renderer {
    /// Wraps compiled typeset output as a compositor: parses the external
    /// compiler's SVG bytes into a vector document.  A compositor comes
    /// back exactly when the parser accepts the bytes; otherwise nothing.
    pub fn render_typst(&self, svg_data: &Vec<u8>) -> (r: Option<Typst>)
        ensures
            r.is_some() == svg_parses(svg_data@),
            r.is_some() ==> r.unwrap().wf() && !r.unwrap().built(),
            r.is_some() ==> r.unwrap().translation.0 == (Coord { num: 0, den: 1 })
                && r.unwrap().translation.1 == (Coord { num: 0, den: 1 })
                && r.unwrap().scale.0 == (Coord { num: 1, den: 1 }) && r.unwrap().scale.1 == (
            Coord { num: 1, den: 1 }),
    {
        match parse_svg(svg_data) {
            Some(tree) => Some(Typst::new(tree)),
            None => None,
        }
    }
}

} // verus!

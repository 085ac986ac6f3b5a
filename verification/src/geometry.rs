//! Aspect-ratio fitting of an image into a window, in exact rational
//! arithmetic.

use vstd::prelude::*;
use crate::mesh::Vertex;

verus! {

/// A size in pixels.
#[derive(Clone, Copy, Debug, PartialEq, Eq)]
pub struct Size {
    pub width: u32,
    pub height: u32,
}

/// The rational number `num / den`, taken negative where `negative` is set.
///
/// Fractions are kept as they are computed and are not reduced. A zero
/// denominator stands for an undefined value; of the fractions this crate
/// computes only `0 / 0` can be one.
#[derive(Clone, Copy, Debug, PartialEq, Eq)]
pub struct Ratio {
    pub negative: bool,
    pub num: u64,
    pub den: u64,
}

/// Half the width and half the height of the quad, in normalized device
/// coordinates, where the whole viewport spans `-1 ..= 1` on both axes.
#[derive(Clone, Copy, Debug, PartialEq, Eq)]
pub struct Extent {
    pub w: Ratio,
    pub h: Ratio,
}

impl Ratio {
    /// The natural number `n` as a fraction over one.
    pub open spec fn whole(n: nat) -> Ratio {
        Ratio { negative: false, num: n as u64, den: 1 }
    }

    /// The fraction `num / den` of two natural numbers.
    pub open spec fn of(num: nat, den: nat) -> Ratio {
        Ratio { negative: false, num: num as u64, den: den as u64 }
    }

    /// The fraction with the opposite sign.
    pub open spec fn negated(self) -> Ratio {
        Ratio { negative: !self.negative, num: self.num, den: self.den }
    }

    /// Whether the fraction stands for a number.
    pub open spec fn defined(self) -> bool {
        self.den != 0
    }

    /// Whether the fraction stands for a number in `0 ..= 1`, zero left out.
    pub open spec fn proper(self) -> bool {
        !self.negative && 0 < self.num <= self.den
    }

    /// Whether the fraction stands for the number one.
    pub open spec fn unit(self) -> bool {
        !self.negative && self.num == self.den && self.den != 0
    }

    pub fn zero() -> (r: Ratio)
        ensures
            r == Ratio::whole(0),
    {
        Ratio { negative: false, num: 0, den: 1 }
    }

    pub fn one() -> (r: Ratio)
        ensures
            r == Ratio::whole(1),
    {
        Ratio { negative: false, num: 1, den: 1 }
    }

    pub fn neg(self) -> (r: Ratio)
        ensures
            r == self.negated(),
    {
        Ratio { negative: !self.negative, num: self.num, den: self.den }
    }
}

/// Whether a `window` is relatively wider than an `image`, that is, whether
/// `window.width / window.height > image.width / image.height`, decided
/// without dividing.
pub open spec fn wider(window: Size, image: Size) -> bool {
    window.width * image.height > image.width * window.height
}

/// The half-extents of the largest quad of the image's aspect ratio that
/// fits the viewport.
///
/// With `aw = window.width / window.height` and
/// `ai = image.width / image.height`: where the window is relatively wider
/// than the image the quad is `ai / aw` wide and fills the height, else it
/// fills the width and is `aw / ai` high.
pub open spec fn fitted(window: Size, image: Size) -> Extent {
    if wider(window, image) {
        Extent {
            w: Ratio::of(
                (image.width * window.height) as nat,
                (window.width * image.height) as nat,
            ),
            h: Ratio::whole(1),
        }
    } else {
        Extent {
            w: Ratio::whole(1),
            h: Ratio::of(
                (window.width * image.height) as nat,
                (image.width * window.height) as nat,
            ),
        }
    }
}

/// The four corners of the quad of half-extents `e`, centred in the
/// viewport, each with the corner of the texture that lands on it.
pub open spec fn corners(e: Extent) -> Seq<Vertex> {
    seq![
        Vertex { position: [e.w.negated(), e.h.negated()], tex_coords: [Ratio::whole(0), Ratio::whole(0)] },
        Vertex { position: [e.w.negated(), e.h], tex_coords: [Ratio::whole(0), Ratio::whole(1)] },
        Vertex { position: [e.w, e.h], tex_coords: [Ratio::whole(1), Ratio::whole(1)] },
        Vertex { position: [e.w, e.h.negated()], tex_coords: [Ratio::whole(1), Ratio::whole(0)] },
    ]
}

/// The order in which the corners are drawn: two triangles with the same
/// winding.
pub open spec fn winding() -> Seq<u32> {
    seq![0u32, 2u32, 1u32, 0u32, 3u32, 2u32]
}

proof fn product_bounds(a: u32, b: u32)
    ensures
        0 <= a * b <= u64::MAX,
        a > 0 && b > 0 ==> a * b > 0,
{
    assert(0 <= a * b <= 0xffff_ffff * 0xffff_ffff && (a > 0 && b > 0 ==> a * b > 0))
        by (nonlinear_arith)
        requires
            0 <= a <= 0xffff_ffff,
            0 <= b <= 0xffff_ffff,
    ;
}

/// Fitting keeps the aspect ratio. For a window and an image that are not
/// empty, both half-extents are defined and lie in `0 ..= 1`, zero left
/// out; one of them is exactly one; and `w / h` equals the image's aspect
/// ratio over the window's, so that the quad has the image's shape on
/// screen.
pub proof fn fitted_keeps_aspect(window: Size, image: Size)
    requires
        window.width > 0,
        window.height > 0,
        image.width > 0,
        image.height > 0,
    ensures
        fitted(window, image).w.proper(),
        fitted(window, image).h.proper(),
        fitted(window, image).w == Ratio::whole(1) || fitted(window, image).h == Ratio::whole(1),
        fitted(window, image).w.num * fitted(window, image).h.den * (image.height
            * window.width) == fitted(window, image).h.num * fitted(window, image).w.den * (
        image.width * window.height),
{
    product_bounds(window.width, image.height);
    product_bounds(image.width, window.height);
    let across = window.width * image.height;
    let along = image.width * window.height;
    assert(image.height * window.width == across) by (nonlinear_arith)
        requires
            across == window.width * image.height,
    ;
    assert(along * 1 * across == 1 * across * along) by (nonlinear_arith);
    assert(1 * along * across == across * 1 * along) by (nonlinear_arith);
}

/// Where the window and the image have the same aspect ratio the quad
/// fills the viewport: both half-extents stand for the number one.
pub proof fn fitted_fills_equal_aspect(window: Size, image: Size)
    requires
        window.width > 0,
        window.height > 0,
        image.width > 0,
        image.height > 0,
        window.width * image.height == image.width * window.height,
    ensures
        fitted(window, image).w.unit(),
        fitted(window, image).h.unit(),
{
    product_bounds(window.width, image.height);
    product_bounds(image.width, window.height);
}

/// A half-extent is undefined only where the window or the image is empty.
pub proof fn fitted_defined(window: Size, image: Size)
    ensures
        fitted(window, image).w.defined(),
        fitted(window, image).h.defined() <==> wider(window, image) || (image.width > 0
            && window.height > 0),
        !fitted(window, image).h.defined() ==> fitted(window, image).h.num == 0,
{
    product_bounds(window.width, image.height);
    product_bounds(image.width, window.height);
    assert(image.width * window.height != 0 <==> image.width > 0 && window.height > 0)
        by (nonlinear_arith);
}

/// Computes the half-extents of the quad that shows `image` in `window`
/// with the image's aspect ratio kept.
pub fn fit(window: Size, image: Size) -> (e: Extent)
    ensures
        e == fitted(window, image),
{
    let across: u64 = product(window.width, image.height);
    let along: u64 = product(image.width, window.height);
    if across > along {
        Extent { w: Ratio { negative: false, num: along, den: across }, h: Ratio::one() }
    } else {
        Extent { w: Ratio::one(), h: Ratio { negative: false, num: across, den: along } }
    }
}

fn product(a: u32, b: u32) -> (p: u64)
    ensures
        p == a * b,
{
    assert(a * b <= 0xffff_ffff * 0xffff_ffff) by (nonlinear_arith)
        requires
            a <= 0xffff_ffff,
            b <= 0xffff_ffff,
    ;
    a as u64 * b as u64
}

/// Builds the four vertices of the quad of half-extents `e`.
pub fn quad(e: Extent) -> (vertices: Vec<Vertex>)
    ensures
        vertices@ == corners(e),
{
    let vertices = vec![
        Vertex { position: [e.w.neg(), e.h.neg()], tex_coords: [Ratio::zero(), Ratio::zero()] },
        Vertex { position: [e.w.neg(), e.h], tex_coords: [Ratio::zero(), Ratio::one()] },
        Vertex { position: [e.w, e.h], tex_coords: [Ratio::one(), Ratio::one()] },
        Vertex { position: [e.w, e.h.neg()], tex_coords: [Ratio::one(), Ratio::zero()] },
    ];
    assert(vertices@ =~= corners(e));
    vertices
}

/// The index list of the quad.
pub fn indices() -> (list: Vec<u32>)
    ensures
        list@ == winding(),
{
    let list = vec![0u32, 2u32, 1u32, 0u32, 3u32, 2u32];
    assert(list@ =~= winding());
    list
}

} // verus!

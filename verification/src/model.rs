//! Card model: the face content types and the draw recipe each face
//! must satisfy.
//!
//! A face is rendered as a fixed layered sequence: a sky quadrilateral,
//! a ground quadrilateral whose palette is selected by the `promoted`
//! flag, the face image, and one marker dot per entry of `points`.
//! All coordinates are per-mille of the face width (x) or height (y),
//! so the recipe is exact integer data; a renderer scales it.

use vstd::prelude::*;
use vstd::string::StringExecFns;
use crate::geometry::{marker_x, marker_y, marker_x_spec, marker_y_spec};

verus! {

/// Content of one physical face: the artwork image and the marker indices.
/// Each element of `points` independently yields one marker dot; duplicates
/// are permitted and each yields a separate dot.
#[derive(Debug)]
pub struct Animal {
    pub img: String,
    pub points: Vec<u8>,
}

/// Mathematical image of an [`Animal`].
pub struct AnimalView {
    pub img: Seq<char>,
    pub points: Seq<u8>,
}

impl View for Animal {
    type V = AnimalView;

    open spec fn view(&self) -> AnimalView {
        AnimalView { img: self.img@, points: self.points@ }
    }
}

impl Clone for Animal {
    fn clone(&self) -> (r: Self)
        ensures
            r@ == self@,
    {
        let r = Animal { img: self.img.clone(), points: self.points.clone() };
        proof {
            assert(r.points@ =~= self.points@);
        }
        r
    }
}

/// One renderable face: its content, the path prefix under which the
/// artwork is resolved, and the palette switch for the ground region.
#[derive(Debug)]
pub struct AnimalCard {
    pub content: Animal,
    pub relative_path: String,
    pub promoted: bool,
}

/// Mathematical image of an [`AnimalCard`].
pub struct AnimalCardView {
    pub content: AnimalView,
    pub relative_path: Seq<char>,
    pub promoted: bool,
}

impl View for AnimalCard {
    type V = AnimalCardView;

    open spec fn view(&self) -> AnimalCardView {
        AnimalCardView {
            content: self.content@,
            relative_path: self.relative_path@,
            promoted: self.promoted,
        }
    }
}

impl Clone for AnimalCard {
    fn clone(&self) -> (r: Self)
        ensures
            r@ == self@,
    {
        AnimalCard {
            content: self.content.clone(),
            relative_path: self.relative_path.clone(),
            promoted: self.promoted,
        }
    }
}

/// Fill paint of a drawn region. The ground palette is keyed off the
/// face's `promoted` flag; everything else is fixed.
#[derive(Clone, Copy, Debug, PartialEq, Eq, Structural)]
pub enum Fill {
    Sky,
    GroundBase,
    GroundPromoted,
    Marker,
}

/// A point in per-mille units: `x` of the face width, `y` of the face height.
#[derive(Clone, Copy, Debug, PartialEq, Eq, Structural)]
pub struct PerMille {
    pub x: u32,
    pub y: u32,
}

/// One drawing command of a face recipe. Commands are emitted back to
/// front: a later command draws on top of an earlier one.
#[derive(Clone, Debug, PartialEq, Eq)]
pub enum DrawCmd {
    /// A filled quadrilateral traced `p0 -> p1 -> p2 -> p3 -> p0`.
    Quad { p0: PerMille, p1: PerMille, p2: PerMille, p3: PerMille, fill: Fill },
    /// The face artwork, placed with its top-left corner at `pos`.
    Image { path: String, pos: PerMille, size: PerMille },
    /// A filled ellipse centred at `center` with the given radii.
    Ellipse { center: PerMille, radius: PerMille, fill: Fill },
}

/// CSS color of each fill paint.
pub fn fill_color(f: Fill) -> (r: &'static str)
    ensures
        f == Fill::Sky ==> r@ == "#bbbbff"@,
        f == Fill::GroundBase ==> r@ == "#bbffbb"@,
        f == Fill::GroundPromoted ==> r@ == "#ffff99"@,
        f == Fill::Marker ==> r@ == "black"@,
{
    match f {
        Fill::Sky => "#bbbbff",
        Fill::GroundBase => "#bbffbb",
        Fill::GroundPromoted => "#ffff99",
        Fill::Marker => "black",
    }
}

/// The sky region: a fixed quadrilateral over the upper part of the face.
pub open spec fn sky_cmd() -> DrawCmd {
    DrawCmd::Quad {
        p0: PerMille { x: 0, y: 1000 },
        p1: PerMille { x: 200, y: 0 },
        p2: PerMille { x: 800, y: 0 },
        p3: PerMille { x: 1000, y: 1000 },
        fill: Fill::Sky,
    }
}

/// The ground region: a fixed quadrilateral over the lower half of the
/// face, whose palette is selected by `promoted`.
pub open spec fn ground_cmd(promoted: bool) -> DrawCmd {
    DrawCmd::Quad {
        p0: PerMille { x: 0, y: 1000 },
        p1: PerMille { x: 100, y: 500 },
        p2: PerMille { x: 900, y: 500 },
        p3: PerMille { x: 1000, y: 1000 },
        fill: if promoted { Fill::GroundPromoted } else { Fill::GroundBase },
    }
}

/// The marker dot for marker index `p`: a small fixed-radius ellipse at
/// the ring position the geometry engine derives for `p`.
pub open spec fn marker_cmd(p: u8) -> DrawCmd {
    DrawCmd::Ellipse {
        center: PerMille {
            x: marker_x_spec(p as int) as u32,
            y: marker_y_spec(p as int) as u32,
        },
        radius: PerMille { x: 20, y: 20 },
        fill: Fill::Marker,
    }
}

impl AnimalCard {
    /// The complete draw recipe of this face, in layering order:
    /// sky, ground, artwork, then one marker per entry of `points`.
    pub fn draw_commands(&self) -> (r: Vec<DrawCmd>)
        ensures
            r@.len() == 3 + self.content.points@.len(),
            r@[0] == sky_cmd(),
            r@[1] == ground_cmd(self.promoted),
            (r@[2] matches DrawCmd::Image { path, pos, size }
                && path@ == self.relative_path@ + self.content.img@
                && pos == (PerMille { x: 150, y: 150 })
                && size == (PerMille { x: 700, y: 700 })),
            forall|i: int|
                0 <= i < self.content.points@.len() ==> r@[3 + i] == marker_cmd(
                    self.content.points@[i],
                ),
    {
        let mut r: Vec<DrawCmd> = Vec::new();
        r.push(DrawCmd::Quad {
            p0: PerMille { x: 0, y: 1000 },
            p1: PerMille { x: 200, y: 0 },
            p2: PerMille { x: 800, y: 0 },
            p3: PerMille { x: 1000, y: 1000 },
            fill: Fill::Sky,
        });
        let ground = if self.promoted {
            Fill::GroundPromoted
        } else {
            Fill::GroundBase
        };
        r.push(DrawCmd::Quad {
            p0: PerMille { x: 0, y: 1000 },
            p1: PerMille { x: 100, y: 500 },
            p2: PerMille { x: 900, y: 500 },
            p3: PerMille { x: 1000, y: 1000 },
            fill: ground,
        });
        let path = self.relative_path.clone().concat(self.content.img.as_str());
        r.push(DrawCmd::Image {
            path,
            pos: PerMille { x: 150, y: 150 },
            size: PerMille { x: 700, y: 700 },
        });
        let n = self.content.points.len();
        let mut i: usize = 0;
        while i < n
            invariant
                n == self.content.points@.len(),
                i <= n,
                r@.len() == 3 + i,
                r@[0] == sky_cmd(),
                r@[1] == ground_cmd(self.promoted),
                (r@[2] matches DrawCmd::Image { path, pos, size }
                    && path@ == self.relative_path@ + self.content.img@
                    && pos == (PerMille { x: 150, y: 150 })
                    && size == (PerMille { x: 700, y: 700 })),
                forall|j: int|
                    0 <= j < i ==> r@[3 + j] == marker_cmd(self.content.points@[j]),
            decreases n - i,
        {
            let p = self.content.points[i];
            r.push(DrawCmd::Ellipse {
                center: PerMille { x: marker_x(p), y: marker_y(p) },
                radius: PerMille { x: 20, y: 20 },
                fill: Fill::Marker,
            });
            i += 1;
        }
        r
    }
}

} // verus!

//! Display points, the bounding box of a set of them, and the projection of
//! a point onto a viewport.
//!
//! Coordinates are whole numbers of a unit that the caller chooses. Two
//! positions are the same when both coordinates are equal.

use vstd::prelude::*;

verus! {

/// A fixed display location.
#[derive(Clone, Copy, Debug, PartialEq, Eq, Structural)]
pub struct FixedPoint {
    pub x: i64,
    pub y: i64,
}

/// The smallest axis-aligned box that holds a set of points.
#[derive(Clone, Copy, Debug, PartialEq, Eq, Structural)]
pub struct Bounds {
    pub min_x: i64,
    pub max_x: i64,
    pub min_y: i64,
    pub max_y: i64,
}

/// The x coordinates of `points`, in order.
pub open spec fn xs(points: Seq<FixedPoint>) -> Seq<int> {
    Seq::new(points.len(), |i: int| points[i].x as int)
}

/// The y coordinates of `points`, in order.
pub open spec fn ys(points: Seq<FixedPoint>) -> Seq<int> {
    Seq::new(points.len(), |i: int| points[i].y as int)
}

/// The bounding box of a non-empty sequence of points: on each axis the
/// running minimum and maximum over all of them.
pub open spec fn bounds_of(points: Seq<FixedPoint>) -> Bounds
    recommends
        points.len() > 0,
{
    Bounds {
        min_x: xs(points).min() as i64,
        max_x: xs(points).max() as i64,
        min_y: ys(points).min() as i64,
        max_y: ys(points).max() as i64,
    }
}

impl Bounds {
    /// Extent along x.
    pub open spec fn width(self) -> int {
        self.max_x - self.min_x
    }

    /// Extent along y.
    pub open spec fn height(self) -> int {
        self.max_y - self.min_y
    }

    /// A box without extent on some axis cannot be projected.
    pub open spec fn degenerate(self) -> bool {
        self.width() <= 0 || self.height() <= 0
    }

    /// Whether `p` lies inside the box, edges included.
    pub open spec fn contains(self, p: FixedPoint) -> bool {
        self.min_x <= p.x <= self.max_x && self.min_y <= p.y <= self.max_y
    }
}

/// What the box of `points` is, said without a fold: every point lies inside
/// it and each of its four edges passes through some point.
pub proof fn lemma_bounds_of(points: Seq<FixedPoint>)
    requires
        points.len() > 0,
    ensures
        forall|i: int| 0 <= i < points.len() ==> bounds_of(points).contains(#[trigger] points[i]),
        exists|i: int| 0 <= i < points.len() && points[i].x == bounds_of(points).min_x,
        exists|i: int| 0 <= i < points.len() && points[i].x == bounds_of(points).max_x,
        exists|i: int| 0 <= i < points.len() && points[i].y == bounds_of(points).min_y,
        exists|i: int| 0 <= i < points.len() && points[i].y == bounds_of(points).max_y,
        bounds_of(points).min_x <= bounds_of(points).max_x,
        bounds_of(points).min_y <= bounds_of(points).max_y,
{
    let px = xs(points);
    let py = ys(points);
    px.min_ensures();
    px.max_ensures();
    py.min_ensures();
    py.max_ensures();
    assert forall|i: int| 0 <= i < points.len() implies bounds_of(points).contains(
        #[trigger] points[i],
    ) by {
        assert(px[i] == points[i].x);
        assert(py[i] == points[i].y);
    }
}

/// The bounding box of `points`, or nothing where there is no point.
pub fn bounds(points: &Vec<FixedPoint>) -> (r: Option<Bounds>)
    ensures
        points@.len() == 0 ==> r.is_none(),
        points@.len() > 0 ==> r == Some(bounds_of(points@)),
{
    if points.len() == 0 {
        return None;
    }
    let mut b = Bounds {
        min_x: points[0].x,
        max_x: points[0].x,
        min_y: points[0].y,
        max_y: points[0].y,
    };
    let mut i: usize = 1;
    while i < points.len()
        invariant
            1 <= i <= points@.len(),
            forall|j: int| 0 <= j < i ==> b.contains(#[trigger] points@[j]),
            exists|j: int| 0 <= j < i && points@[j].x == b.min_x,
            exists|j: int| 0 <= j < i && points@[j].x == b.max_x,
            exists|j: int| 0 <= j < i && points@[j].y == b.min_y,
            exists|j: int| 0 <= j < i && points@[j].y == b.max_y,
        decreases points@.len() - i,
    {
        let p = points[i];
        if p.x < b.min_x {
            b.min_x = p.x;
        }
        if p.x > b.max_x {
            b.max_x = p.x;
        }
        if p.y < b.min_y {
            b.min_y = p.y;
        }
        if p.y > b.max_y {
            b.max_y = p.y;
        }
        i = i + 1;
    }
    proof {
        lemma_bounds_of(points@);
    }
    Some(b)
}

/// The drawing area, in pixels.
#[derive(Clone, Copy, Debug, PartialEq, Eq, Structural)]
pub struct Viewport {
    pub width: u32,
    pub height: u32,
}

/// A place on the screen, in pixels from the top left corner.
#[derive(Clone, Copy, Debug, PartialEq, Eq, Structural)]
pub struct ScreenPoint {
    pub x: u32,
    pub y: u32,
}

/// Why a frame cannot be laid out.
#[derive(Clone, Copy, Debug, PartialEq, Eq, Structural)]
pub enum RenderError {
    /// All points share one x or one y, so the box has no extent to divide by.
    DegenerateBounds,
}

/// Horizontal screen position of `x`: its share of the box's width, applied
/// to the viewport's width and rounded down.
pub open spec fn screen_x(b: Bounds, x: int, view: Viewport) -> int
    recommends
        b.width() > 0,
{
    (x - b.min_x) * view.width / b.width()
}

/// Vertical screen position of `y`. Data grows upwards and the screen
/// downwards, so the share is taken off the viewport's height.
pub open spec fn screen_y(b: Bounds, y: int, view: Viewport) -> int
    recommends
        b.height() > 0,
{
    view.height - (y - b.min_y) * view.height / b.height()
}

/// A share `part / whole` of `span`, rounded down, lies between nothing and
/// all of `span`.
pub proof fn lemma_share_within_span(part: int, whole: int, span: int)
    requires
        0 <= part <= whole,
        0 < whole,
        0 <= span,
    ensures
        0 <= part * span / whole <= span,
{
    assert(0 <= part * span <= whole * span) by (nonlinear_arith)
        requires
            0 <= part <= whole,
            0 <= span,
    ;
    assert(part * span / whole <= span) by (nonlinear_arith)
        requires
            0 <= part * span <= whole * span,
            0 < whole,
    ;
    assert(0 <= part * span / whole) by (nonlinear_arith)
        requires
            0 <= part * span,
            0 < whole,
    ;
}

/// Projects `p` onto the viewport.
///
/// Fails exactly when the box has no extent on some axis. The point has to
/// lie inside the box: the position of one outside may not fit a pixel count.
pub fn project(b: &Bounds, p: &FixedPoint, view: &Viewport) -> (r: Result<ScreenPoint, RenderError>)
    requires
        b.contains(*p),
    ensures
        b.degenerate() <==> r == Err::<ScreenPoint, RenderError>(RenderError::DegenerateBounds),
        !b.degenerate() ==> r == Ok::<ScreenPoint, RenderError>(
            (ScreenPoint {
                x: screen_x(*b, p.x as int, *view) as u32,
                y: screen_y(*b, p.y as int, *view) as u32,
            }),
        ),
        r matches Ok(s) ==> s.x <= view.width && s.y <= view.height,
{
    if b.max_x <= b.min_x || b.max_y <= b.min_y {
        return Err(RenderError::DegenerateBounds);
    }
    let width: u128 = (b.max_x as i128 - b.min_x as i128) as u128;
    let height: u128 = (b.max_y as i128 - b.min_y as i128) as u128;
    let dx: u128 = (p.x as i128 - b.min_x as i128) as u128;
    let dy: u128 = (p.y as i128 - b.min_y as i128) as u128;
    let span_x: u128 = view.width as u128;
    let span_y: u128 = view.height as u128;
    proof {
        lemma_share_within_span(dx as int, width as int, span_x as int);
        lemma_share_within_span(dy as int, height as int, span_y as int);
        assert(dx * span_x <= width * span_x) by (nonlinear_arith)
            requires
                dx <= width,
        ;
        assert(dy * span_y <= height * span_y) by (nonlinear_arith)
            requires
                dy <= height,
        ;
        assert(width * span_x <= 0x1_0000_0000_0000_0000 * 0x1_0000_0000) by (nonlinear_arith)
            requires
                width <= 0x1_0000_0000_0000_0000,
                span_x <= 0x1_0000_0000,
        ;
        assert(height * span_y <= 0x1_0000_0000_0000_0000 * 0x1_0000_0000) by (nonlinear_arith)
            requires
                height <= 0x1_0000_0000_0000_0000,
                span_y <= 0x1_0000_0000,
        ;
    }
    let sx: u128 = dx * span_x / width;
    let sy: u128 = span_y - dy * span_y / height;
    Ok(ScreenPoint { x: sx as u32, y: sy as u32 })
}

/// Every point of a set that has two different x and two different y gets a
/// box with extent on both axes and a screen position inside the viewport.
pub proof fn lemma_projection_within_viewport(points: Seq<FixedPoint>, i: int, view: Viewport)
    requires
        exists|a: int, b: int|
            0 <= a < points.len() && 0 <= b < points.len() && points[a].x != points[b].x,
        exists|a: int, b: int|
            0 <= a < points.len() && 0 <= b < points.len() && points[a].y != points[b].y,
        0 <= i < points.len(),
    ensures
        bounds_of(points).min_x < bounds_of(points).max_x,
        bounds_of(points).min_y < bounds_of(points).max_y,
        !bounds_of(points).degenerate(),
        0 <= screen_x(bounds_of(points), points[i].x as int, view) <= view.width,
        0 <= screen_y(bounds_of(points), points[i].y as int, view) <= view.height,
{
    let w = bounds_of(points);
    lemma_bounds_of(points);
    lemma_share_within_span(points[i].x - w.min_x, w.width(), view.width as int);
    lemma_share_within_span(points[i].y - w.min_y, w.height(), view.height as int);
}

} // verus!

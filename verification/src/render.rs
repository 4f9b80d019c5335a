//! Which display point is lit in which colour, and the list of squares to
//! paint for one frame.
//!
//! A point is lit by a track once a sample of that track, among those before
//! the cursor, was recorded at exactly the point's position. Where several
//! tracks lit one point, the last of them in the order of the tracks shows.

use crate::geometry::{
    bounds, bounds_of, lemma_bounds_of, project, screen_x, screen_y, Bounds, FixedPoint,
    RenderError, ScreenPoint, Viewport,
};
use crate::track::{tracks_view, Sample};
use vstd::prelude::*;

verus! {

/// A display colour.
#[derive(Clone, Copy, Debug, PartialEq, Eq, Structural)]
pub struct Color {
    pub r: u8,
    pub g: u8,
    pub b: u8,
}

impl Color {
    /// The colour of a point that no track has lit: black.
    pub open spec fn spec_unlit() -> Color {
        Color { r: 0, g: 0, b: 0 }
    }

    /// The colour of a point that no track has lit: black.
    #[verifier::when_used_as_spec(spec_unlit)]
    pub fn unlit() -> (c: Color)
        ensures
            c == Color::spec_unlit(),
    {
        Color { r: 0, g: 0, b: 0 }
    }
}

/// Side of the square painted for a point, in pixels.
pub const SQUARE_SIDE: u32 = 20;

/// One square to paint: its top left corner and its colour.
#[derive(Clone, Copy, Debug, PartialEq, Eq, Structural)]
pub struct DrawCall {
    pub at: ScreenPoint,
    pub color: Color,
}

/// Whether sample `i` of `track` comes before the cursor and was recorded at `p`.
pub open spec fn visits_at(track: Seq<Sample>, p: FixedPoint, cursor: nat, i: int) -> bool {
    0 <= i < cursor && i < track.len() && track[i].position == p
}

/// Whether some sample of `track` before the cursor was recorded at `p`.
pub open spec fn visited(track: Seq<Sample>, p: FixedPoint, cursor: nat) -> bool {
    exists|i: int| visits_at(track, p, cursor, i)
}

/// The earliest sample of `track` before the cursor that was recorded at
/// `p`, found by scanning from the first sample on; nothing where there is none.
pub fn first_visit(track: &Vec<Sample>, p: &FixedPoint, cursor: usize) -> (r: Option<usize>)
    ensures
        match r {
            Some(i) => {
                &&& visits_at(track@, *p, cursor as nat, i as int)
                &&& forall|j: int| 0 <= j < i ==> !visits_at(track@, *p, cursor as nat, j)
            },
            None => !visited(track@, *p, cursor as nat),
        },
{
    let mut i: usize = 0;
    while i < cursor && i < track.len()
        invariant
            forall|j: int| 0 <= j < i ==> !visits_at(track@, *p, cursor as nat, j),
        decreases track@.len() - i,
    {
        if track[i].position.x == p.x && track[i].position.y == p.y {
            return Some(i);
        }
        i = i + 1;
    }
    None
}

/// The track whose colour shows at `p`: the last, in the order of the
/// tracks, that visited `p`. Nothing where none did.
pub open spec fn last_visitor(tracks: Seq<Seq<Sample>>, p: FixedPoint, cursor: nat) -> Option<int>
    decreases tracks.len(),
{
    if tracks.len() == 0 {
        None
    } else if visited(tracks.last(), p, cursor) {
        Some(tracks.len() - 1)
    } else {
        last_visitor(tracks.drop_last(), p, cursor)
    }
}

/// [`last_visitor`] said without recursion: the track it names visited the
/// point and no later track did; where it names none, no track did.
pub proof fn lemma_last_visitor(tracks: Seq<Seq<Sample>>, p: FixedPoint, cursor: nat)
    ensures
        match last_visitor(tracks, p, cursor) {
            Some(t) => {
                &&& 0 <= t < tracks.len()
                &&& visited(tracks[t], p, cursor)
                &&& forall|u: int| t < u < tracks.len() ==> !visited(#[trigger] tracks[u], p, cursor)
            },
            None => forall|u: int| 0 <= u < tracks.len() ==> !visited(#[trigger] tracks[u], p, cursor),
        },
    decreases tracks.len(),
{
    if tracks.len() > 0 && !visited(tracks.last(), p, cursor) {
        let front = tracks.drop_last();
        lemma_last_visitor(front, p, cursor);
        assert forall|u: int| 0 <= u < front.len() implies front[u] == tracks[u] by {}
    }
}

/// With the cursor on the first sample, as after a start or a stop, no point
/// is lit.
pub proof fn lemma_nothing_lit_at_the_start(tracks: Seq<Seq<Sample>>, p: FixedPoint)
    ensures
        last_visitor(tracks, p, 0) is None,
    decreases tracks.len(),
{
    if tracks.len() > 0 {
        lemma_nothing_lit_at_the_start(tracks.drop_last(), p);
    }
}

/// A point that is lit stays lit as the cursor moves on, and the track whose
/// colour shows can only give way to a later track.
pub proof fn lemma_lit_points_stay_lit(
    tracks: Seq<Seq<Sample>>,
    p: FixedPoint,
    cursor: nat,
    later: nat,
)
    requires
        cursor <= later,
    ensures
        last_visitor(tracks, p, cursor) matches Some(t) ==> {
            &&& last_visitor(tracks, p, later) matches Some(u)
            &&& t <= u
        },
    decreases tracks.len(),
{
    if tracks.len() > 0 {
        lemma_lit_points_stay_lit(tracks.drop_last(), p, cursor, later);
        lemma_last_visitor(tracks.drop_last(), p, later);
        if visited(tracks.last(), p, cursor) {
            let i = choose|i: int| visits_at(tracks.last(), p, cursor, i);
            assert(visits_at(tracks.last(), p, later, i));
        }
    }
}

/// Finds the track whose colour shows at `p`.
pub fn lit_by(tracks: &Vec<Vec<Sample>>, p: &FixedPoint, cursor: usize) -> (r: Option<usize>)
    ensures
        match r {
            Some(t) => last_visitor(tracks_view(tracks@), *p, cursor as nat) == Some(t as int),
            None => last_visitor(tracks_view(tracks@), *p, cursor as nat) is None,
        },
{
    let ghost all = tracks_view(tracks@);
    let mut lit: Option<usize> = None;
    let mut t: usize = 0;
    while t < tracks.len()
        invariant
            t <= tracks@.len(),
            all == tracks_view(tracks@),
            match lit {
                Some(u) => last_visitor(all.take(t as int), *p, cursor as nat) == Some(u as int),
                None => last_visitor(all.take(t as int), *p, cursor as nat) is None,
            },
        decreases tracks@.len() - t,
    {
        let found = first_visit(&tracks[t], p, cursor);
        proof {
            let upto = all.take(t + 1);
            assert(upto.drop_last() == all.take(t as int));
        }
        if found.is_some() {
            lit = Some(t);
        }
        t = t + 1;
    }
    proof {
        assert(all.take(t as int) == all);
    }
    lit
}

/// The colour that shows at `p`: that of the last track that visited it.
/// Nothing where the point is unlit.
pub open spec fn color_of(
    tracks: Seq<Seq<Sample>>,
    colors: Seq<Color>,
    p: FixedPoint,
    cursor: nat,
) -> Option<Color> {
    match last_visitor(tracks, p, cursor) {
        Some(t) => Some(colors[t]),
        None => None,
    }
}

/// Finds the colour that shows at `p`. `colors` holds a colour for each track.
pub fn point_color(
    tracks: &Vec<Vec<Sample>>,
    colors: &Vec<Color>,
    p: &FixedPoint,
    cursor: usize,
) -> (r: Option<Color>)
    requires
        tracks@.len() <= colors@.len(),
    ensures
        r == color_of(tracks_view(tracks@), colors@, *p, cursor as nat),
{
    proof {
        lemma_last_visitor(tracks_view(tracks@), *p, cursor as nat);
    }
    match lit_by(tracks, p, cursor) {
        Some(t) => Some(colors[t]),
        None => None,
    }
}

/// The colours of all points, in the order of the points.
pub fn grid_colors(
    points: &Vec<FixedPoint>,
    tracks: &Vec<Vec<Sample>>,
    colors: &Vec<Color>,
    cursor: usize,
) -> (r: Vec<Option<Color>>)
    requires
        tracks@.len() <= colors@.len(),
    ensures
        r@.len() == points@.len(),
        forall|i: int|
            0 <= i < points@.len() ==> r@[i] == color_of(
                tracks_view(tracks@),
                colors@,
                #[trigger] points@[i],
                cursor as nat,
            ),
{
    let mut grid: Vec<Option<Color>> = Vec::new();
    let mut i: usize = 0;
    while i < points.len()
        invariant
            tracks@.len() <= colors@.len(),
            i <= points@.len(),
            grid@.len() == i,
            forall|j: int|
                0 <= j < i ==> grid@[j] == color_of(
                    tracks_view(tracks@),
                    colors@,
                    #[trigger] points@[j],
                    cursor as nat,
                ),
        decreases points@.len() - i,
    {
        grid.push(point_color(tracks, colors, &points[i], cursor));
        i = i + 1;
    }
    grid
}

/// Where the square of `p` goes on the screen.
pub open spec fn placed(b: Bounds, p: FixedPoint, view: Viewport) -> ScreenPoint {
    ScreenPoint {
        x: screen_x(b, p.x as int, view) as u32,
        y: screen_y(b, p.y as int, view) as u32,
    }
}

/// The first pass of a frame: an unlit square for every point, in order.
pub open spec fn background_pass(points: Seq<FixedPoint>, b: Bounds, view: Viewport) -> Seq<
    DrawCall,
> {
    Seq::new(points.len(), |i: int| DrawCall { at: placed(b, points[i], view), color: Color::unlit() })
}

/// The second pass of a frame: over the squares of the first pass, a square
/// in its colour for every lit point, in order. `among` are the points to
/// paint; the box `b` is that of the whole set.
pub open spec fn lit_pass(
    among: Seq<FixedPoint>,
    tracks: Seq<Seq<Sample>>,
    colors: Seq<Color>,
    cursor: nat,
    b: Bounds,
    view: Viewport,
) -> Seq<DrawCall>
    decreases among.len(),
{
    if among.len() == 0 {
        Seq::empty()
    } else {
        let before = lit_pass(among.drop_last(), tracks, colors, cursor, b, view);
        match color_of(tracks, colors, among.last(), cursor) {
            Some(color) => before.push(DrawCall { at: placed(b, among.last(), view), color }),
            None => before,
        }
    }
}

/// The squares to paint for one frame, in painting order.
///
/// Without points there is nothing to paint. Points that share one x or one
/// y cannot be spread over the viewport, and the frame fails.
pub open spec fn frame_of(
    points: Seq<FixedPoint>,
    tracks: Seq<Seq<Sample>>,
    colors: Seq<Color>,
    cursor: nat,
    view: Viewport,
) -> Result<Seq<DrawCall>, RenderError> {
    if points.len() == 0 {
        Ok(Seq::empty())
    } else if bounds_of(points).degenerate() {
        Err(RenderError::DegenerateBounds)
    } else {
        Ok(
            background_pass(points, bounds_of(points), view) + lit_pass(
                points,
                tracks,
                colors,
                cursor,
                bounds_of(points),
                view,
            ),
        )
    }
}

/// Lays out one frame. `colors` holds a colour for each track.
pub fn draw_frame(
    points: &Vec<FixedPoint>,
    tracks: &Vec<Vec<Sample>>,
    colors: &Vec<Color>,
    cursor: usize,
    view: &Viewport,
) -> (r: Result<Vec<DrawCall>, RenderError>)
    requires
        tracks@.len() <= colors@.len(),
    ensures
        match frame_of(points@, tracks_view(tracks@), colors@, cursor as nat, *view) {
            Ok(calls) => r matches Ok(list) && list@ == calls,
            Err(e) => r == Err::<Vec<DrawCall>, RenderError>(e),
        },
{
    let b = match bounds(points) {
        Some(b) => b,
        None => {
            return Ok(Vec::new());
        },
    };
    if b.max_x <= b.min_x || b.max_y <= b.min_y {
        return Err(RenderError::DegenerateBounds);
    }
    let ghost all = tracks_view(tracks@);
    let mut list: Vec<DrawCall> = Vec::new();
    let mut i: usize = 0;
    while i < points.len()
        invariant
            points@.len() > 0,
            b == bounds_of(points@),
            !b.degenerate(),
            i <= points@.len(),
            list@ == background_pass(points@.take(i as int), b, *view),
        decreases points@.len() - i,
    {
        proof {
            lemma_bounds_of(points@);
        }
        let at = match project(&b, &points[i], view) {
            Ok(at) => at,
            Err(_) => {
                return Err(RenderError::DegenerateBounds);
            },
        };
        list.push(DrawCall { at, color: Color::unlit() });
        i = i + 1;
    }
    proof {
    }
    let mut k: usize = 0;
    while k < points.len()
        invariant
            tracks@.len() <= colors@.len(),
            all == tracks_view(tracks@),
            points@.len() > 0,
            b == bounds_of(points@),
            !b.degenerate(),
            k <= points@.len(),
            list@ == background_pass(points@, b, *view) + lit_pass(
                points@.take(k as int),
                all,
                colors@,
                cursor as nat,
                b,
                *view,
            ),
        decreases points@.len() - k,
    {
        proof {
            lemma_bounds_of(points@);
            let upto = points@.take(k + 1);
            assert(upto.drop_last() == points@.take(k as int));
        }
        match point_color(tracks, colors, &points[k], cursor) {
            Some(color) => {
                let at = match project(&b, &points[k], view) {
                    Ok(at) => at,
                    Err(_) => {
                        return Err(RenderError::DegenerateBounds);
                    },
                };
                list.push(DrawCall { at, color });
            },
            None => {},
        }
        k = k + 1;
    }
    proof {
        assert(points@.take(k as int) == points@);
    }
    Ok(list)
}

} // verus!

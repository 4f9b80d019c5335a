use led_circuit::geometry::{FixedPoint, RenderError, ScreenPoint, Viewport};
use led_circuit::render::{
    draw_frame, first_visit, grid_colors, lit_by, point_color, Color, DrawCall, SQUARE_SIDE,
};
use led_circuit::session::RaceSession;
use led_circuit::track::{Sample, Timestamp};

const RED: Color = Color { r: 255, g: 0, b: 0 };
const GREEN: Color = Color { r: 0, g: 255, b: 0 };
const BLUE: Color = Color { r: 0, g: 0, b: 255 };
const BLACK: Color = Color { r: 0, g: 0, b: 0 };

fn pt(x: i64, y: i64) -> FixedPoint {
    FixedPoint { x, y }
}

fn at(secs: i64, x: i64, y: i64, delay: u64) -> Sample {
    Sample { timestamp: Timestamp { secs, nanos: 0 }, position: pt(x, y), delay_to_next: delay }
}

fn square(x: u32, y: u32, color: Color) -> DrawCall {
    DrawCall { at: ScreenPoint { x, y }, color }
}

#[test]
fn the_unlit_colour_is_black() {
    assert_eq!(Color::unlit(), BLACK);
    assert_eq!(SQUARE_SIDE, 20);
}

#[test]
fn first_visit_finds_the_earliest_sample_at_the_point() {
    let track = vec![at(0, 1, 1, 0), at(1, 5, 5, 0), at(2, 3, 3, 0), at(3, 5, 5, 0)];
    assert_eq!(first_visit(&track, &pt(5, 5), 4), Some(1));
    assert_eq!(first_visit(&track, &pt(3, 3), 4), Some(2));
    assert_eq!(first_visit(&track, &pt(1, 1), 1), Some(0));
}

#[test]
fn first_visit_looks_before_the_cursor_only() {
    let track = vec![at(0, 1, 1, 0), at(1, 5, 5, 0), at(2, 3, 3, 0)];
    assert_eq!(first_visit(&track, &pt(5, 5), 0), None);
    assert_eq!(first_visit(&track, &pt(5, 5), 1), None);
    assert_eq!(first_visit(&track, &pt(5, 5), 2), Some(1));
    assert_eq!(first_visit(&track, &pt(3, 3), 2), None);
}

#[test]
fn first_visit_takes_a_cursor_past_the_end_of_the_track() {
    let track = vec![at(0, 1, 1, 0), at(1, 5, 5, 0)];
    assert_eq!(first_visit(&track, &pt(5, 5), 100), Some(1));
    assert_eq!(first_visit(&track, &pt(2, 2), usize::MAX), None);
    assert_eq!(first_visit(&Vec::new(), &pt(2, 2), 3), None);
}

#[test]
fn first_visit_needs_both_coordinates_equal() {
    let track = vec![at(0, 1, 2, 0)];
    assert_eq!(first_visit(&track, &pt(1, 3), 1), None);
    assert_eq!(first_visit(&track, &pt(2, 2), 1), None);
    assert_eq!(first_visit(&track, &pt(2, 1), 1), None);
    assert_eq!(first_visit(&track, &pt(1, 2), 1), Some(0));
}

#[test]
fn lit_by_names_the_last_track_that_visited() {
    let tracks = vec![
        vec![at(0, 1, 1, 0), at(1, 2, 2, 0)],
        vec![at(0, 2, 2, 0)],
        vec![at(0, 7, 7, 0), at(1, 1, 1, 0)],
        vec![at(0, 8, 8, 0)],
    ];
    assert_eq!(lit_by(&tracks, &pt(2, 2), 2), Some(1));
    assert_eq!(lit_by(&tracks, &pt(1, 1), 2), Some(2));
    assert_eq!(lit_by(&tracks, &pt(1, 1), 1), Some(0));
    assert_eq!(lit_by(&tracks, &pt(8, 8), 1), Some(3));
    assert_eq!(lit_by(&tracks, &pt(9, 9), 2), None);
    assert_eq!(lit_by(&tracks, &pt(1, 1), 0), None);
    assert_eq!(lit_by(&Vec::new(), &pt(1, 1), 5), None);
}

#[test]
fn point_color_is_that_of_the_last_track_on_a_collision() {
    let tracks = vec![vec![at(0, 4, 4, 0)], vec![at(0, 4, 4, 0)], vec![at(0, 5, 5, 0)]];
    let colors = vec![RED, GREEN, BLUE];
    assert_eq!(point_color(&tracks, &colors, &pt(4, 4), 1), Some(GREEN));
    assert_eq!(point_color(&tracks, &colors, &pt(5, 5), 1), Some(BLUE));
    assert_eq!(point_color(&tracks, &colors, &pt(6, 6), 1), None);
}

#[test]
fn point_color_shows_a_place_left_long_ago() {
    // The entity has moved on from (1, 1); the point stays lit.
    let tracks = vec![vec![at(0, 1, 1, 0), at(1, 2, 2, 0), at(2, 3, 3, 0)]];
    let colors = vec![RED, GREEN];
    assert_eq!(point_color(&tracks, &colors, &pt(1, 1), 3), Some(RED));
}

#[test]
fn grid_colors_follow_the_order_of_the_points() {
    let points = vec![pt(0, 0), pt(1, 1), pt(2, 2), pt(1, 1)];
    let tracks = vec![vec![at(0, 1, 1, 0)], vec![at(0, 2, 2, 0), at(1, 0, 0, 0)]];
    let colors = vec![RED, GREEN];
    assert_eq!(
        grid_colors(&points, &tracks, &colors, 1),
        vec![None, Some(RED), Some(GREEN), Some(RED)]
    );
    assert_eq!(
        grid_colors(&points, &tracks, &colors, 2),
        vec![Some(GREEN), Some(RED), Some(GREEN), Some(RED)]
    );
    assert_eq!(grid_colors(&points, &tracks, &colors, 0), vec![None, None, None, None]);
}

#[test]
fn two_entities_light_the_corners_they_passed() {
    let points = vec![pt(0, 0), pt(10, 0), pt(0, 10), pt(10, 10)];
    let a = vec![at(0, 0, 0, 50), at(1, 10, 0, 50)];
    let b = vec![at(0, 10, 10, 50)];
    let mut s = RaceSession::new(points.clone(), vec![a, b], vec![RED, GREEN], 0);
    s.start(0);
    assert!(s.tick(50));
    assert!(s.tick(100));
    assert_eq!(s.current_index(), 2);
    let grid = grid_colors(s.points(), s.tracks(), s.colors(), s.current_index());
    // (0,0) and (10,0) were passed by the red entity, (10,10) by the green
    // one, (0,10) by none.
    assert_eq!(grid, vec![Some(RED), Some(RED), None, Some(GREEN)]);
    let view = Viewport { width: 200, height: 100 };
    assert_eq!(
        s.frame(&view),
        Ok(vec![
            square(0, 100, BLACK),
            square(200, 100, BLACK),
            square(0, 0, BLACK),
            square(200, 0, BLACK),
            square(0, 100, RED),
            square(200, 100, RED),
            square(200, 0, GREEN),
        ])
    );
}

#[test]
fn after_one_tick_only_the_first_samples_show() {
    let points = vec![pt(0, 0), pt(10, 0), pt(0, 10), pt(10, 10)];
    let a = vec![at(0, 0, 0, 50), at(1, 10, 0, 50)];
    let b = vec![at(0, 10, 10, 50)];
    let mut s = RaceSession::new(points, vec![a, b], vec![RED, GREEN], 0);
    s.start(0);
    assert_eq!(
        grid_colors(s.points(), s.tracks(), s.colors(), s.current_index()),
        vec![None, None, None, None]
    );
    assert!(s.tick(50));
    assert_eq!(
        grid_colors(s.points(), s.tracks(), s.colors(), s.current_index()),
        vec![Some(RED), None, None, Some(GREEN)]
    );
}

#[test]
fn draw_frame_paints_the_background_and_then_the_lit_points() {
    let points = vec![pt(0, 0), pt(4, 2), pt(8, 4)];
    let tracks = vec![vec![at(0, 8, 4, 0)], vec![at(0, 4, 2, 0), at(1, 8, 4, 0)]];
    let colors = vec![RED, BLUE];
    let view = Viewport { width: 80, height: 40 };
    assert_eq!(
        draw_frame(&points, &tracks, &colors, 1, &view),
        Ok(vec![
            square(0, 40, BLACK),
            square(40, 20, BLACK),
            square(80, 0, BLACK),
            square(40, 20, BLUE),
            square(80, 0, RED),
        ])
    );
    assert_eq!(
        draw_frame(&points, &tracks, &colors, 2, &view),
        Ok(vec![
            square(0, 40, BLACK),
            square(40, 20, BLACK),
            square(80, 0, BLACK),
            square(40, 20, BLUE),
            square(80, 0, BLUE),
        ])
    );
}

#[test]
fn draw_frame_before_the_first_advance_is_all_background() {
    let points = vec![pt(0, 0), pt(4, 2)];
    let tracks = vec![vec![at(0, 0, 0, 0)]];
    let view = Viewport { width: 8, height: 8 };
    assert_eq!(
        draw_frame(&points, &tracks, &vec![RED], 0, &view),
        Ok(vec![square(0, 8, BLACK), square(8, 0, BLACK)])
    );
}

#[test]
fn draw_frame_without_points_paints_nothing() {
    let tracks = vec![vec![at(0, 0, 0, 0)]];
    let view = Viewport { width: 8, height: 8 };
    assert_eq!(draw_frame(&Vec::new(), &tracks, &vec![RED], 1, &view), Ok(Vec::new()));
}

#[test]
fn draw_frame_fails_when_all_points_share_one_x() {
    let points = vec![pt(3, 0), pt(3, 5), pt(3, 9)];
    let view = Viewport { width: 8, height: 8 };
    assert_eq!(
        draw_frame(&points, &Vec::new(), &Vec::new(), 0, &view),
        Err(RenderError::DegenerateBounds)
    );
}

#[test]
fn draw_frame_fails_when_all_points_share_one_y() {
    let points = vec![pt(0, 7), pt(5, 7)];
    let view = Viewport { width: 8, height: 8 };
    assert_eq!(
        draw_frame(&points, &Vec::new(), &Vec::new(), 0, &view),
        Err(RenderError::DegenerateBounds)
    );
}

#[test]
fn draw_frame_fails_for_a_single_point() {
    let view = Viewport { width: 8, height: 8 };
    assert_eq!(
        draw_frame(&vec![pt(1, 1)], &Vec::new(), &Vec::new(), 0, &view),
        Err(RenderError::DegenerateBounds)
    );
}

#[test]
fn frame_of_a_session_goes_by_its_cursor() {
    let points = vec![pt(0, 0), pt(2, 2)];
    let tracks = vec![vec![at(0, 2, 2, 10), at(1, 0, 0, 10)]];
    let mut s = RaceSession::new(points, tracks, vec![GREEN], 0);
    let view = Viewport { width: 10, height: 10 };
    let background = vec![square(0, 10, BLACK), square(10, 0, BLACK)];
    assert_eq!(s.frame(&view), Ok(background.clone()));
    s.start(0);
    s.tick(10);
    let mut one = background.clone();
    one.push(square(10, 0, GREEN));
    assert_eq!(s.frame(&view), Ok(one));
    s.tick(20);
    let mut both = background.clone();
    both.push(square(0, 10, GREEN));
    both.push(square(10, 0, GREEN));
    assert_eq!(s.frame(&view), Ok(both));
    s.reset(30);
    assert_eq!(s.frame(&view), Ok(background));
}

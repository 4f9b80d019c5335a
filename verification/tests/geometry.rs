use led_circuit::geometry::{bounds, project, Bounds, FixedPoint, RenderError, ScreenPoint, Viewport};

fn pt(x: i64, y: i64) -> FixedPoint {
    FixedPoint { x, y }
}

#[test]
fn bounds_of_no_points_is_none() {
    assert_eq!(bounds(&Vec::new()), None);
}

#[test]
fn bounds_of_four_corners() {
    let points = vec![pt(0, 0), pt(10, 0), pt(0, 10), pt(10, 10)];
    assert_eq!(bounds(&points), Some(Bounds { min_x: 0, max_x: 10, min_y: 0, max_y: 10 }));
}

#[test]
fn bounds_take_each_edge_from_another_point() {
    let points = vec![pt(3, -7), pt(-4, 2), pt(9, 5), pt(1, 11), pt(0, 0)];
    assert_eq!(bounds(&points), Some(Bounds { min_x: -4, max_x: 9, min_y: -7, max_y: 11 }));
}

#[test]
fn bounds_of_one_point_have_no_extent() {
    let points = vec![pt(5, -5)];
    assert_eq!(bounds(&points), Some(Bounds { min_x: 5, max_x: 5, min_y: -5, max_y: -5 }));
}

#[test]
fn bounds_reach_the_ends_of_the_number_range() {
    let points = vec![pt(i64::MAX, i64::MIN), pt(i64::MIN, i64::MAX), pt(0, 0)];
    assert_eq!(
        bounds(&points),
        Some(Bounds { min_x: i64::MIN, max_x: i64::MAX, min_y: i64::MIN, max_y: i64::MAX })
    );
}

#[test]
fn bounds_are_ordered_for_two_distinct_values_per_axis() {
    let points = vec![pt(2, 8), pt(7, 3), pt(7, 8)];
    let b = bounds(&points).unwrap();
    assert!(b.min_x <= b.max_x);
    assert!(b.min_y <= b.max_y);
    assert_eq!((b.min_x, b.max_x, b.min_y, b.max_y), (2, 7, 3, 8));
}

#[test]
fn project_scales_and_flips_the_vertical_axis() {
    let b = Bounds { min_x: 0, max_x: 10, min_y: 0, max_y: 10 };
    let view = Viewport { width: 100, height: 50 };
    assert_eq!(project(&b, &pt(5, 2), &view), Ok(ScreenPoint { x: 50, y: 40 }));
}

#[test]
fn project_puts_the_corners_of_the_box_on_the_corners_of_the_viewport() {
    let b = Bounds { min_x: -20, max_x: 20, min_y: 100, max_y: 300 };
    let view = Viewport { width: 800, height: 600 };
    assert_eq!(project(&b, &pt(-20, 100), &view), Ok(ScreenPoint { x: 0, y: 600 }));
    assert_eq!(project(&b, &pt(20, 100), &view), Ok(ScreenPoint { x: 800, y: 600 }));
    assert_eq!(project(&b, &pt(-20, 300), &view), Ok(ScreenPoint { x: 0, y: 0 }));
    assert_eq!(project(&b, &pt(20, 300), &view), Ok(ScreenPoint { x: 800, y: 0 }));
}

#[test]
fn project_rounds_the_share_down() {
    let b = Bounds { min_x: 0, max_x: 3, min_y: 0, max_y: 3 };
    let view = Viewport { width: 100, height: 100 };
    // 1 * 100 / 3 = 33 across, 100 - 2 * 100 / 3 = 100 - 66 = 34 down.
    assert_eq!(project(&b, &pt(1, 2), &view), Ok(ScreenPoint { x: 33, y: 34 }));
}

#[test]
fn project_fails_without_width() {
    let b = Bounds { min_x: 4, max_x: 4, min_y: 0, max_y: 10 };
    let view = Viewport { width: 100, height: 100 };
    assert_eq!(project(&b, &pt(4, 5), &view), Err(RenderError::DegenerateBounds));
}

#[test]
fn project_fails_without_height() {
    let b = Bounds { min_x: 0, max_x: 10, min_y: -1, max_y: -1 };
    let view = Viewport { width: 100, height: 100 };
    assert_eq!(project(&b, &pt(5, -1), &view), Err(RenderError::DegenerateBounds));
}

#[test]
fn project_onto_an_empty_viewport_is_the_origin() {
    let b = Bounds { min_x: 0, max_x: 10, min_y: 0, max_y: 10 };
    let view = Viewport { width: 0, height: 0 };
    assert_eq!(project(&b, &pt(7, 7), &view), Ok(ScreenPoint { x: 0, y: 0 }));
}

#[test]
fn project_over_the_whole_number_range() {
    let b = Bounds { min_x: i64::MIN, max_x: i64::MAX, min_y: i64::MIN, max_y: i64::MAX };
    let view = Viewport { width: u32::MAX, height: u32::MAX };
    assert_eq!(
        project(&b, &pt(i64::MAX, i64::MIN), &view),
        Ok(ScreenPoint { x: u32::MAX, y: u32::MAX })
    );
    assert_eq!(
        project(&b, &pt(-1, -1), &view),
        Ok(ScreenPoint { x: 2147483647, y: 2147483648 })
    );
}

#[test]
fn every_point_of_a_set_projects_into_the_viewport() {
    let points =
        vec![pt(-3, 14), pt(15, -9), pt(2, 6), pt(5, 3), pt(-5, 8), pt(9, 7), pt(-9, -3), pt(2, 3)];
    let b = bounds(&points).unwrap();
    assert!(b.min_x < b.max_x && b.min_y < b.max_y);
    let view = Viewport { width: 641, height: 479 };
    for p in &points {
        let at = project(&b, p, &view).unwrap();
        assert!(at.x <= view.width);
        assert!(at.y <= view.height);
    }
}

use table_editor::clickable::{first_hovered, Clickable};
use table_editor::frame::{extent_between, Frame};
use table_editor::point::{clamp_into_range, Point, COORD_MAX, COORD_MIN, HOTSPOT_RADIUS};
use table_editor::rect::Rect;

fn corners_of(rect: &Rect) -> Vec<(i32, i32)> {
    rect.get_all_points().iter().map(|p| (p.x, p.y)).collect()
}

#[test]
fn new_point_is_the_origin() {
    let p = Point::new();
    assert_eq!((p.x, p.y), (0, 0));
}

#[test]
fn from_xy_keeps_the_coordinates() {
    let p = Point::from_xy(-7, 12);
    assert_eq!((p.x, p.y), (-7, 12));
    assert_eq!(p, Point { x: -7, y: 12 });
}

#[test]
fn point_move_by_adds_the_delta() {
    let mut p = Point::from_xy(3, 4);
    p.move_by(10, -6);
    assert_eq!(p, Point::from_xy(13, -2));
    p.move_by(0, 0);
    assert_eq!(p, Point::from_xy(13, -2));
}

#[test]
fn point_move_by_reaches_the_ends_of_i32() {
    let mut p = Point::from_xy(i32::MAX - 1, i32::MIN + 1);
    p.move_by(1, -1);
    assert_eq!(p, Point::from_xy(i32::MAX, i32::MIN));
}

#[test]
fn update_and_get_diff_returns_the_distance_and_moves() {
    let mut p = Point::from_xy(100, 200);
    let diff = p.update_and_get_diff(130, 150);
    assert_eq!(diff, (30, -50));
    assert_eq!(p, Point::from_xy(130, 150));
    let none = p.update_and_get_diff(130, 150);
    assert_eq!(none, (0, 0));
}

#[test]
fn hotspot_radius_is_five() {
    assert_eq!(HOTSPOT_RADIUS, 5);
}

#[test]
fn point_is_hovered_within_its_square_hotspot() {
    let p = Point::from_xy(100, 100);
    assert!(p.is_hovered(&Point::from_xy(100, 100)));
    assert!(p.is_hovered(&Point::from_xy(105, 100)));
    assert!(p.is_hovered(&Point::from_xy(95, 100)));
    assert!(p.is_hovered(&Point::from_xy(100, 105)));
    assert!(p.is_hovered(&Point::from_xy(100, 95)));
    assert!(p.is_hovered(&Point::from_xy(105, 105)));
    assert!(p.is_hovered(&Point::from_xy(95, 95)));
}

#[test]
fn point_is_not_hovered_one_pixel_outside() {
    let p = Point::from_xy(100, 100);
    assert!(!p.is_hovered(&Point::from_xy(106, 100)));
    assert!(!p.is_hovered(&Point::from_xy(94, 100)));
    assert!(!p.is_hovered(&Point::from_xy(100, 106)));
    assert!(!p.is_hovered(&Point::from_xy(100, 94)));
    assert!(!p.is_hovered(&Point::from_xy(106, 106)));
}

#[test]
fn point_is_hovered_far_apart_without_overflow() {
    let p = Point::from_xy(i32::MAX, i32::MAX);
    assert!(!p.is_hovered(&Point::from_xy(i32::MIN, i32::MIN)));
    assert!(p.is_hovered(&Point::from_xy(i32::MAX - 5, i32::MAX)));
    let q = Point::from_xy(i32::MIN, 0);
    assert!(q.is_hovered(&Point::from_xy(i32::MIN + 5, -5)));
    assert!(!q.is_hovered(&Point::from_xy(i32::MAX, 0)));
}

#[test]
fn to_rect_is_the_square_of_side_ten_around_the_point() {
    let r = Point::from_xy(50, 60).to_rect();
    assert_eq!(corners_of(&r), vec![(45, 55), (55, 55), (55, 65), (45, 65)]);
    assert_eq!(r.to_frame(), Frame { x: 45, y: 55, width: 10, height: 10 });
}

#[test]
fn to_rect_covers_what_the_point_covers() {
    let p = Point::from_xy(50, 60);
    let r = p.to_rect();
    for x in 40..61 {
        for y in 50..71 {
            let click = Point::from_xy(x, y);
            assert_eq!(p.is_hovered(&click), r.is_hovered(&click));
        }
    }
}

#[test]
fn offset_adds_the_delta_inside_the_range() {
    let p = Point::from_xy(500, 500).offset(20, -30);
    assert_eq!(p, Point::from_xy(520, 470));
}

#[test]
fn offset_stops_at_the_ends_of_the_range() {
    assert_eq!(COORD_MAX, 1073741823);
    assert_eq!(COORD_MIN, -1073741824);
    let p = Point::from_xy(COORD_MAX - 3, COORD_MIN + 3).offset(10, -10);
    assert_eq!(p, Point::from_xy(COORD_MAX, COORD_MIN));
    let q = Point::from_xy(0, 0).offset(i32::MAX, i32::MIN);
    assert_eq!(q, Point::from_xy(COORD_MAX, COORD_MIN));
    let back = Point::from_xy(i32::MAX, i32::MIN).offset(i32::MAX, i32::MIN);
    assert_eq!(back, Point::from_xy(COORD_MAX, COORD_MIN));
}

#[test]
fn offset_by_nothing_brings_a_point_into_the_range() {
    assert_eq!(Point::from_xy(i32::MAX, 7).offset(0, 0), Point::from_xy(COORD_MAX, 7));
    assert_eq!(Point::from_xy(7, i32::MIN).offset(0, 0), Point::from_xy(7, COORD_MIN));
    assert_eq!(Point::from_xy(7, -8).offset(0, 0), Point::from_xy(7, -8));
}

#[test]
fn clamp_into_range_keeps_what_is_in_range() {
    assert_eq!(clamp_into_range(0), 0);
    assert_eq!(clamp_into_range(1073741823), 1073741823);
    assert_eq!(clamp_into_range(-1073741824), -1073741824);
    assert_eq!(clamp_into_range(1073741824), 1073741823);
    assert_eq!(clamp_into_range(-1073741825), -1073741824);
    assert_eq!(clamp_into_range(i64::MAX), 1073741823);
    assert_eq!(clamp_into_range(i64::MIN), -1073741824);
}

#[test]
fn rect_new_keeps_the_corners_as_given() {
    let r = Rect::new(1, 2, 10, 20);
    assert_eq!(corners_of(&r), vec![(1, 2), (10, 2), (10, 20), (1, 20)]);
    let reversed = Rect::new(10, 20, 1, 2);
    assert_eq!(corners_of(&reversed), vec![(10, 20), (1, 20), (1, 2), (10, 2)]);
}

#[test]
fn get_all_points_goes_clockwise_from_the_top_left() {
    let c = Rect::new(500, 500, 600, 700).get_all_points();
    assert_eq!(c[0], Point::from_xy(500, 500));
    assert_eq!(c[1], Point::from_xy(600, 500));
    assert_eq!(c[2], Point::from_xy(600, 700));
    assert_eq!(c[3], Point::from_xy(500, 700));
}

#[test]
fn rect_move_by_shifts_every_corner_by_the_delta() {
    let rects = [Rect::new(0, 0, 1, 1), Rect::new(-50, 20, 70, 300), Rect::new(9, 9, 3, 3)];
    let deltas = [(0, 0), (10, -5), (-1000, 1000), (1, 0), (0, -1)];
    for rect in rects.iter() {
        for (dx, dy) in deltas.iter() {
            let before = corners_of(rect);
            let mut moved = *rect;
            moved.move_by(*dx, *dy);
            let after = corners_of(&moved);
            for k in 0..4 {
                assert_eq!(after[k], (before[k].0 + dx, before[k].1 + dy));
            }
        }
    }
}

#[test]
fn rect_move_by_exact_value() {
    let mut r = Rect::new(500, 500, 600, 600);
    r.move_by(10, -5);
    assert_eq!(r, Rect::new(510, 495, 610, 595));
}

#[test]
fn rect_is_hovered_inside_and_on_the_border() {
    let r = Rect::new(10, 20, 30, 40);
    assert!(r.is_hovered(&Point::from_xy(20, 30)));
    assert!(r.is_hovered(&Point::from_xy(10, 20)));
    assert!(r.is_hovered(&Point::from_xy(30, 40)));
    assert!(r.is_hovered(&Point::from_xy(10, 40)));
    assert!(r.is_hovered(&Point::from_xy(30, 20)));
}

#[test]
fn rect_is_not_hovered_one_pixel_outside() {
    let r = Rect::new(10, 20, 30, 40);
    assert!(!r.is_hovered(&Point::from_xy(9, 30)));
    assert!(!r.is_hovered(&Point::from_xy(31, 30)));
    assert!(!r.is_hovered(&Point::from_xy(20, 19)));
    assert!(!r.is_hovered(&Point::from_xy(20, 41)));
}

#[test]
fn rect_with_reversed_corners_is_never_hovered() {
    let r = Rect::new(30, 40, 10, 20);
    assert!(!r.is_hovered(&Point::from_xy(20, 30)));
    assert!(!r.is_hovered(&Point::from_xy(30, 40)));
    assert!(!r.is_hovered(&Point::from_xy(10, 20)));
}

#[test]
fn rect_with_equal_corners_is_hovered_at_that_point_only() {
    let r = Rect::new(5, 5, 5, 5);
    assert!(r.is_hovered(&Point::from_xy(5, 5)));
    assert!(!r.is_hovered(&Point::from_xy(5, 6)));
}

#[test]
fn clamped_brings_both_corners_into_the_range() {
    let r = Rect::new(i32::MIN, -3, i32::MAX, 1073741824).clamped();
    assert_eq!(r, Rect::new(COORD_MIN, -3, COORD_MAX, COORD_MAX));
    let same = Rect::new(500, 500, 600, 600).clamped();
    assert_eq!(same, Rect::new(500, 500, 600, 600));
}

#[test]
fn from_corners_is_new_on_the_coordinates() {
    let r = Rect::from_corners(Point::from_xy(1, 2), Point::from_xy(3, 4));
    assert_eq!(r, Rect::new(1, 2, 3, 4));
}

#[test]
fn to_frame_is_the_first_corner_and_the_size() {
    assert_eq!(
        Rect::new(500, 500, 600, 650).to_frame(),
        Frame { x: 500, y: 500, width: 100, height: 150 }
    );
    assert_eq!(Rect::new(-10, -20, 10, 20).to_frame(), Frame { x: -10, y: -20, width: 20, height: 40 });
    assert_eq!(Rect::new(7, 7, 7, 7).to_frame(), Frame { x: 7, y: 7, width: 0, height: 0 });
}

#[test]
fn to_frame_of_reversed_corners_wraps_the_size() {
    assert_eq!(
        Rect::new(10, 10, 5, 9).to_frame(),
        Frame { x: 10, y: 10, width: 4294967291, height: 4294967295 }
    );
}

#[test]
fn extent_between_is_the_difference_modulo_two_to_the_32() {
    assert_eq!(extent_between(0, 0), 0);
    assert_eq!(extent_between(500, 600), 100);
    assert_eq!(extent_between(-5, 5), 10);
    assert_eq!(extent_between(10, 5), 4294967291);
    assert_eq!(extent_between(i32::MIN, i32::MAX), 4294967295);
    assert_eq!(extent_between(i32::MAX, i32::MIN), 1);
}

#[test]
fn first_hovered_finds_the_first_of_several_hits() {
    let shapes = vec![
        Rect::new(0, 0, 10, 10),
        Rect::new(5, 5, 20, 20),
        Rect::new(5, 5, 30, 30),
    ];
    assert_eq!(first_hovered(shapes.as_slice(), &Point::from_xy(7, 7)), Some(0));
    assert_eq!(first_hovered(shapes.as_slice(), &Point::from_xy(15, 15)), Some(1));
    assert_eq!(first_hovered(shapes.as_slice(), &Point::from_xy(25, 25)), Some(2));
    assert_eq!(first_hovered(shapes.as_slice(), &Point::from_xy(31, 31)), None);
}

#[test]
fn first_hovered_of_nothing_is_none() {
    let shapes: Vec<Point> = Vec::new();
    assert_eq!(first_hovered(shapes.as_slice(), &Point::from_xy(0, 0)), None);
}

#[test]
fn first_hovered_works_on_points_too() {
    let shapes = [Point::from_xy(0, 0), Point::from_xy(8, 0), Point::from_xy(4, 0)];
    assert_eq!(first_hovered(&shapes, &Point::from_xy(4, 0)), Some(0));
    assert_eq!(first_hovered(&shapes, &Point::from_xy(6, 0)), Some(1));
    assert_eq!(first_hovered(&shapes, &Point::from_xy(13, 0)), Some(1));
    assert_eq!(first_hovered(&shapes, &Point::from_xy(14, 0)), None);
}

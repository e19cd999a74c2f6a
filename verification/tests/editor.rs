use map_editor::geometry::hole_outline;
use map_editor::geometry::EditingState;
use map_editor::geometry::GeometryStore;
use map_editor::geometry::InvariantViolation;
use map_editor::geometry::Point;
use map_editor::input::apply_frame;
use map_editor::input::FrameInput;
use map_editor::persist::load_holes;
use map_editor::persist::save_holes;

fn pt(x: f32, y: f32) -> Point {
    Point::new(x.to_bits(), y.to_bits())
}

fn idle_frame() -> FrameInput {
    FrameInput {
        primary_click: false,
        map_key_held: false,
        hole_key_held: false,
        hole_key_released: false,
        pointer: None,
    }
}

fn map_click(p: Option<Point>) -> FrameInput {
    FrameInput { primary_click: true, map_key_held: true, pointer: p, ..idle_frame() }
}

fn hole_click(p: Option<Point>) -> FrameInput {
    FrameInput { primary_click: true, hole_key_held: true, pointer: p, ..idle_frame() }
}

fn hole_release() -> FrameInput {
    FrameInput { hole_key_released: true, ..idle_frame() }
}

#[test]
fn map_appends_in_order() {
    let mut s = GeometryStore::new();
    for p in [pt(0.0, 0.0), pt(1.0, 0.0), pt(1.0, 1.0)] {
        let r = apply_frame(&mut s, &map_click(Some(p)));
        assert_eq!(r, Ok(0));
    }
    assert_eq!(s.map_points(), &vec![pt(0.0, 0.0), pt(1.0, 0.0), pt(1.0, 1.0)]);
    assert_eq!(s.hole_count(), 0);
}

#[test]
fn hole_gesture_builds_one_polygon() {
    let mut s = GeometryStore::new();
    assert_eq!(apply_frame(&mut s, &hole_click(Some(pt(5.0, 5.0)))), Ok(0));
    assert_eq!(s.holes_list(), &vec![vec![pt(5.0, 5.0)]]);
    assert_eq!(s.editing_state(), EditingState::Extending);

    assert_eq!(apply_frame(&mut s, &hole_click(Some(pt(6.0, 5.0)))), Ok(0));
    assert_eq!(apply_frame(&mut s, &hole_click(Some(pt(6.0, 6.0)))), Ok(0));
    assert_eq!(s.holes_list(), &vec![vec![pt(5.0, 5.0), pt(6.0, 5.0), pt(6.0, 6.0)]]);

    assert_eq!(apply_frame(&mut s, &hole_release()), Ok(0));
    assert_eq!(s.editing_state(), EditingState::Idle);
    assert_eq!(s.holes_list(), &vec![vec![pt(5.0, 5.0), pt(6.0, 5.0), pt(6.0, 6.0)]]);
}

#[test]
fn save_then_clear_then_load_restores() {
    let mut s = GeometryStore::new();
    apply_frame(&mut s, &hole_click(Some(pt(5.0, 5.0)))).unwrap();
    apply_frame(&mut s, &hole_click(Some(pt(6.0, 5.0)))).unwrap();
    apply_frame(&mut s, &hole_click(Some(pt(6.0, 6.0)))).unwrap();
    apply_frame(&mut s, &hole_release()).unwrap();

    let bytes = save_holes(&s);
    s.replace_holes(vec![]);
    assert_eq!(s.hole_count(), 0);

    load_holes(&mut s, Some(bytes));
    assert_eq!(s.holes_list(), &vec![vec![pt(5.0, 5.0), pt(6.0, 5.0), pt(6.0, 6.0)]]);
}

#[test]
fn round_trip_keeps_several_polygons_in_order() {
    let mut s = GeometryStore::new();
    s.replace_holes(vec![
        vec![pt(-1.5, 2.25), pt(0.0, -0.0)],
        vec![pt(3.0, 4.0), pt(5.0, 6.0), pt(7.0, 8.0)],
    ]);
    let before = s.holes_list().clone();
    let bytes = save_holes(&s);
    s.replace_holes(vec![]);
    load_holes(&mut s, Some(bytes));
    assert_eq!(s.holes_list(), &before);
}

#[test]
fn saved_bytes_parse_back_as_coordinate_pairs() {
    let mut s = GeometryStore::new();
    s.replace_holes(vec![vec![Point::new(1, 2), Point::new(3, 4)]]);
    let bytes = save_holes(&s);
    let parsed: Vec<Vec<(u32, u32)>> = serde_json::from_slice(&bytes).unwrap();
    assert_eq!(parsed, vec![vec![(1, 2), (3, 4)]]);
}

#[test]
fn load_with_nothing_read_changes_nothing() {
    let mut s = GeometryStore::new();
    apply_frame(&mut s, &hole_click(Some(pt(5.0, 5.0)))).unwrap();
    let before = s.holes_list().clone();
    load_holes(&mut s, None);
    assert_eq!(s.holes_list(), &before);
    assert_eq!(s.editing_state(), EditingState::Extending);
}

#[test]
fn load_of_undecodable_bytes_changes_nothing() {
    let mut s = GeometryStore::new();
    apply_frame(&mut s, &hole_click(Some(pt(5.0, 5.0)))).unwrap();
    let before = s.holes_list().clone();
    load_holes(&mut s, Some(b"not a saved file".to_vec()));
    assert_eq!(s.holes_list(), &before);
}

#[test]
fn click_outside_viewport_is_ignored_with_diagnostic() {
    let mut s = GeometryStore::new();
    apply_frame(&mut s, &map_click(Some(pt(9.0, 9.0)))).unwrap();

    let r = apply_frame(&mut s, &map_click(None));
    assert_eq!(r, Ok(1));
    assert_eq!(s.map_points(), &vec![pt(9.0, 9.0)]);

    let r = apply_frame(&mut s, &hole_click(None));
    assert_eq!(r, Ok(1));
    assert_eq!(s.hole_count(), 0);
}

#[test]
fn release_while_idle_is_noop() {
    let mut s = GeometryStore::new();
    apply_frame(&mut s, &map_click(Some(pt(1.0, 2.0)))).unwrap();
    apply_frame(&mut s, &hole_click(Some(pt(3.0, 4.0)))).unwrap();
    apply_frame(&mut s, &hole_release()).unwrap();
    assert_eq!(s.editing_state(), EditingState::Idle);

    let map_before = s.map_points().clone();
    let holes_before = s.holes_list().clone();
    let r = apply_frame(&mut s, &hole_release());
    assert_eq!(r, Ok(0));
    assert_eq!(s.map_points(), &map_before);
    assert_eq!(s.holes_list(), &holes_before);
    assert_eq!(s.editing_state(), EditingState::Idle);
}

#[test]
fn both_modifiers_fire_both_branches_on_one_click() {
    let mut s = GeometryStore::new();
    let both = FrameInput {
        primary_click: true,
        map_key_held: true,
        hole_key_held: true,
        pointer: Some(pt(2.0, 3.0)),
        ..idle_frame()
    };
    let r = apply_frame(&mut s, &both);
    assert_eq!(r, Ok(0));
    assert_eq!(s.map_points(), &vec![pt(2.0, 3.0)]);
    assert_eq!(s.holes_list(), &vec![vec![pt(2.0, 3.0)]]);
    assert_eq!(s.editing_state(), EditingState::Extending);
}

#[test]
fn extending_with_no_hole_is_the_defect() {
    let mut s = GeometryStore::new();
    apply_frame(&mut s, &hole_click(Some(pt(5.0, 5.0)))).unwrap();
    assert_eq!(s.editing_state(), EditingState::Extending);

    // A load may replace the collection with an empty one while a hole is
    // still marked as in progress; the next extension is then the defect.
    load_holes(&mut s, Some(b"[]".to_vec()));
    assert_eq!(s.hole_count(), 0);
    assert_eq!(s.editing_state(), EditingState::Extending);

    let r = apply_frame(&mut s, &hole_click(Some(pt(6.0, 6.0))));
    assert_eq!(r, Err(InvariantViolation));
    assert_eq!(s.hole_count(), 0);
}

#[test]
fn extension_leaves_earlier_holes_unchanged() {
    let mut s = GeometryStore::new();
    apply_frame(&mut s, &hole_click(Some(pt(1.0, 1.0)))).unwrap();
    apply_frame(&mut s, &hole_click(Some(pt(2.0, 2.0)))).unwrap();
    apply_frame(&mut s, &hole_release()).unwrap();
    apply_frame(&mut s, &hole_click(Some(pt(3.0, 3.0)))).unwrap();
    apply_frame(&mut s, &hole_click(Some(pt(4.0, 4.0)))).unwrap();
    assert_eq!(
        s.holes_list(),
        &vec![vec![pt(1.0, 1.0), pt(2.0, 2.0)], vec![pt(3.0, 3.0), pt(4.0, 4.0)]]
    );
}

#[test]
fn empty_collection_round_trips() {
    let mut s = GeometryStore::new();
    let bytes = save_holes(&s);
    load_holes(&mut s, Some(bytes));
    assert_eq!(s.hole_count(), 0);
}

#[test]
fn outline_closes_the_polygon() {
    let h = vec![pt(0.0, 0.0), pt(1.0, 0.0), pt(1.0, 1.0)];
    let segs = hole_outline(&h);
    assert_eq!(
        segs,
        vec![(h[0], h[1]), (h[1], h[2]), (h[2], h[0])]
    );
}

#[test]
fn outline_of_a_hole_just_started_is_empty() {
    assert_eq!(hole_outline(&vec![]), vec![]);
    assert_eq!(hole_outline(&vec![pt(5.0, 5.0)]), vec![]);
}

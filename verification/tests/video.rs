use rusty_nes::{
    cursor_start, diagonal_point, frame_step, is_within_reach, Event, FrameAction, Key, Point,
    CURSOR_START,
};

#[test]
fn the_cursor_starts_at_one_hundred() {
    assert_eq!(CURSOR_START, 100);
    assert_eq!(cursor_start(), Point { x: 100, y: 100 });
}

#[test]
fn a_key_down_moves_the_cursor_and_plots_it() {
    let cursor = Point { x: 100, y: 100 };
    assert_eq!(
        frame_step(cursor, Event::KeyDown(Key::Up)),
        (Point { x: 100, y: 99 }, FrameAction::Plot(Point { x: 100, y: 99 }))
    );
    assert_eq!(
        frame_step(cursor, Event::KeyDown(Key::Down)),
        (Point { x: 100, y: 101 }, FrameAction::Plot(Point { x: 100, y: 101 }))
    );
    assert_eq!(
        frame_step(cursor, Event::KeyDown(Key::Left)),
        (Point { x: 99, y: 100 }, FrameAction::Plot(Point { x: 99, y: 100 }))
    );
    assert_eq!(
        frame_step(cursor, Event::KeyDown(Key::Right)),
        (Point { x: 101, y: 100 }, FrameAction::Plot(Point { x: 101, y: 100 }))
    );
}

#[test]
fn quit_stops_and_leaves_the_cursor() {
    let cursor = Point { x: 3, y: -4 };
    assert_eq!(frame_step(cursor, Event::Quit), (cursor, FrameAction::Stop));
}

#[test]
fn a_key_up_changes_nothing() {
    let cursor = Point { x: 3, y: -4 };
    for key in [Key::Up, Key::Down, Key::Left, Key::Right] {
        assert_eq!(frame_step(cursor, Event::KeyUp(key)), (cursor, FrameAction::Wait));
    }
}

#[test]
fn moves_add_up() {
    let mut cursor = cursor_start();
    for key in [Key::Up, Key::Up, Key::Left, Key::Down, Key::Right, Key::Right] {
        assert!(is_within_reach(cursor, Event::KeyDown(key)));
        cursor = frame_step(cursor, Event::KeyDown(key)).0;
    }
    assert_eq!(cursor, Point { x: 101, y: 99 });
}

#[test]
fn the_edge_of_the_numbers_is_out_of_reach() {
    let corner = Point { x: i32::MIN, y: i32::MAX };
    assert!(!is_within_reach(corner, Event::KeyDown(Key::Left)));
    assert!(!is_within_reach(corner, Event::KeyDown(Key::Down)));
    assert!(is_within_reach(corner, Event::KeyDown(Key::Right)));
    assert!(is_within_reach(corner, Event::KeyDown(Key::Up)));
    assert!(is_within_reach(corner, Event::KeyUp(Key::Left)));
    assert!(is_within_reach(corner, Event::Quit));
    let other = Point { x: i32::MAX, y: i32::MIN };
    assert!(!is_within_reach(other, Event::KeyDown(Key::Right)));
    assert!(!is_within_reach(other, Event::KeyDown(Key::Up)));
    assert_eq!(
        frame_step(other, Event::KeyDown(Key::Left)).0,
        Point { x: i32::MAX - 1, y: i32::MIN }
    );
}

#[test]
fn the_diagonal_runs_from_bottom_left_to_top_right() {
    assert_eq!(diagonal_point(0, 600), Point { x: 0, y: 600 });
    assert_eq!(diagonal_point(1, 600), Point { x: 1, y: 599 });
    assert_eq!(diagonal_point(599, 600), Point { x: 599, y: 1 });
    assert_eq!(diagonal_point(0, 1), Point { x: 0, y: 1 });
}

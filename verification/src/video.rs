use vstd::prelude::*;

verus! {

/// The keys that move the cursor.
#[derive(Debug, Clone, Copy, PartialEq, Eq, Structural)]
pub enum Key {
    Up,
    Down,
    Left,
    Right,
}

/// What the window reports.
#[derive(Debug, Clone, Copy, PartialEq, Eq, Structural)]
pub enum Event {
    KeyUp(Key),
    KeyDown(Key),
    Quit,
}

/// A point of the window, in pixels from its top left corner.
#[derive(Debug, Clone, Copy, PartialEq, Eq, Structural)]
pub struct Point {
    pub x: i32,
    pub y: i32,
}

/// What is to be done with the window after an event.
#[derive(Debug, Clone, Copy, PartialEq, Eq, Structural)]
pub enum FrameAction {
    /// Draw this point and present the frame.
    Plot(Point),
    /// Leave the window as it is.
    Wait,
    /// Stop drawing.
    Stop,
}

/// Where the cursor starts, on both axes.
pub const CURSOR_START: i32 = 100;

/// The cursor before the first event.
pub fn cursor_start() -> (cursor: Point)
    ensures
        cursor == (Point { x: CURSOR_START, y: CURSOR_START }),
{
    Point { x: CURSOR_START, y: CURSOR_START }
}

/// `point` moved one pixel in the direction of `key`. Up is towards the top
/// of the window, where `y` is smaller.
pub open spec fn moved(point: Point, key: Key) -> Point {
    match key {
        Key::Up => Point { x: point.x, y: (point.y - 1) as i32 },
        Key::Down => Point { x: point.x, y: (point.y + 1) as i32 },
        Key::Left => Point { x: (point.x - 1) as i32, y: point.y },
        Key::Right => Point { x: (point.x + 1) as i32, y: point.y },
    }
}

/// Whether `point` can move one pixel in the direction of `key` and stay
/// among the points that a pair of `i32` can name.
pub open spec fn can_move(point: Point, key: Key) -> bool {
    match key {
        Key::Up => point.y > i32::MIN,
        Key::Down => point.y < i32::MAX,
        Key::Left => point.x > i32::MIN,
        Key::Right => point.x < i32::MAX,
    }
}

/// Whether `event` asks the cursor at `point` for a move that it can make,
/// or for none at all.
pub open spec fn can_follow(point: Point, event: Event) -> bool {
    event matches Event::KeyDown(key) ==> can_move(point, key)
}

/// Tests [`can_follow`].
pub fn is_within_reach(cursor: Point, event: Event) -> (within: bool)
    ensures
        within == can_follow(cursor, event),
{
    match event {
        Event::KeyDown(Key::Up) => cursor.y > i32::MIN,
        Event::KeyDown(Key::Down) => cursor.y < i32::MAX,
        Event::KeyDown(Key::Left) => cursor.x > i32::MIN,
        Event::KeyDown(Key::Right) => cursor.x < i32::MAX,
        _ => true,
    }
}

/// The point of the diagonal that is drawn in column `column` of a window
/// `window_width` pixels wide: the diagonal runs from the bottom left to the
/// top right.
pub fn diagonal_point(column: i32, window_width: i32) -> (point: Point)
    requires
        0 <= column < window_width,
    ensures
        point == (Point { x: column, y: (window_width - column) as i32 }),
{
    Point { x: column, y: window_width - column }
}

/// What one event does to the frame: a key that goes down moves the cursor
/// by one pixel and has the new place drawn, the request to quit stops the
/// drawing, and anything else changes nothing.
pub fn frame_step(cursor: Point, event: Event) -> (next: (Point, FrameAction))
    requires
        can_follow(cursor, event),
    ensures
        next == match event {
            Event::KeyDown(key) => (moved(cursor, key), FrameAction::Plot(moved(cursor, key))),
            Event::Quit => (cursor, FrameAction::Stop),
            Event::KeyUp(_) => (cursor, FrameAction::Wait),
        },
{
    match event {
        Event::KeyDown(key) => {
            let next = match key {
                Key::Up => Point { x: cursor.x, y: cursor.y - 1 },
                Key::Down => Point { x: cursor.x, y: cursor.y + 1 },
                Key::Left => Point { x: cursor.x - 1, y: cursor.y },
                Key::Right => Point { x: cursor.x + 1, y: cursor.y },
            };
            (next, FrameAction::Plot(next))
        },
        Event::Quit => (cursor, FrameAction::Stop),
        Event::KeyUp(_) => (cursor, FrameAction::Wait),
    }
}

} // verus!

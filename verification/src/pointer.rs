//! What a move, a click and a cursor query come to: the events to inject,
//! and the answer to give once the worker has run.

use crate::button::MouseButton;
use crate::error::MouseError;
use crate::flags::{absolute_move_code, absolute_move_flags, BUTTON_CODES};
use crate::geometry::{
    lemma_on_screen_in_range, normalize_point, normalized_point, NormalizedPoint, Point,
    ScreenPoint, ScreenSize,
};
use vstd::prelude::*;

verus! {

/// One call of the system's pointer injection, argument by argument.
#[derive(Clone, Copy, Debug, PartialEq, Eq, Structural)]
pub struct InputEvent {
    /// What the event reports, as a set of event codes.
    pub flags: u32,
    /// Horizontal position in the injection space.
    pub dx: i32,
    /// Vertical position in the injection space.
    pub dy: i32,
    /// Wheel or extra-button data; zero for moves and clicks.
    pub data: i32,
    /// A value the application attaches to the event; zero here.
    pub extra_info: usize,
}

/// How handing a piece of work to a worker ended.
#[derive(Debug, PartialEq, Eq)]
pub enum Dispatched<T> {
    /// The worker ran the work to its end and this is what it returned.
    Completed(T),
    /// The worker was lost before the work returned.
    Failed,
}

/// An event with the given code at a point of the injection space, with no
/// data attached.
pub open spec fn plain_event(flags: u32, at: NormalizedPoint) -> InputEvent {
    InputEvent { flags, dx: at.nx, dy: at.ny, data: 0, extra_info: 0 }
}

/// The absolute move to `at`.
pub open spec fn move_event(at: NormalizedPoint) -> InputEvent {
    plain_event(absolute_move_code(), at)
}

/// Whether every event lies inside the injection space `[0, 65536)` on both
/// axes.
pub open spec fn all_in_range(events: Seq<InputEvent>) -> bool {
    forall|i: int|
        0 <= i < events.len() ==> 0 <= (#[trigger] events[i]).dx < 65536 && 0 <= events[i].dy
            < 65536
}

/// The events of a click at `at`: the move there, the press, the release.
pub open spec fn click_events(button: MouseButton, at: NormalizedPoint) -> Seq<InputEvent> {
    seq![
        move_event(at),
        plain_event(button.press_code(), at),
        plain_event(button.release_code(), at),
    ]
}

/// A cursor coordinate as an unsigned pixel value: the same 32 bits, read
/// without a sign.
pub open spec fn pixel(v: i32) -> u32 {
    if v >= 0 {
        v as u32
    } else {
        (v + 0x1_0000_0000) as u32
    }
}

/// The position reported for a cursor query: the reading itself, or the
/// origin where the system gave none.
pub open spec fn reported_position(reading: Option<ScreenPoint>) -> Point {
    match reading {
        Some(at) => Point { x: pixel(at.x), y: pixel(at.y) },
        None => Point { x: 0, y: 0 },
    }
}

/// A click holds exactly one press and exactly one release of its button,
/// the press before the release, and all of its events lie at one point.
/// The event before them is the move, which carries no button code.
pub proof fn lemma_click_press_then_release(button: MouseButton, at: NormalizedPoint)
    ensures
        click_events(button, at).len() == 3,
        click_events(button, at)[0].flags & BUTTON_CODES == 0,
        forall|i: int|
            0 <= i < 3 ==> (#[trigger] click_events(button, at)[i].flags == button.press_code()
                <==> i == 1),
        forall|i: int|
            0 <= i < 3 ==> (#[trigger] click_events(button, at)[i].flags == button.release_code()
                <==> i == 2),
        forall|i: int|
            0 <= i < 3 ==> (#[trigger] click_events(button, at)[i]).dx == at.nx && click_events(
                button,
                at,
            )[i].dy == at.ny,
{
    assert(0x8001u32 & 0x007eu32 == 0) by (bit_vector);
}

fn event_at(flags: u32, at: NormalizedPoint) -> (e: InputEvent)
    ensures
        e == plain_event(flags, at),
{
    InputEvent { flags, dx: at.nx, dy: at.ny, data: 0, extra_info: 0 }
}

/// Prepares one injection: scales the pixel position `(dx, dy)` by the
/// screen's extent and puts the other arguments beside it unchanged.
pub fn mouse_event(
    dw_flags: u32,
    dx: i32,
    dy: i32,
    dw_data: i32,
    dw_extra_info: usize,
    screen: ScreenSize,
) -> (r: Result<InputEvent, MouseError>)
    ensures
        r == match normalized_point(ScreenPoint { x: dx, y: dy }, screen) {
            Ok(at) => Ok(
                InputEvent {
                    flags: dw_flags,
                    dx: at.nx,
                    dy: at.ny,
                    data: dw_data,
                    extra_info: dw_extra_info,
                },
            ),
            Err(e) => Err(e),
        },
{
    match normalize_point(ScreenPoint { x: dx, y: dy }, screen) {
        Ok(at) => Ok(
            InputEvent {
                flags: dw_flags,
                dx: at.nx,
                dy: at.ny,
                data: dw_data,
                extra_info: dw_extra_info,
            },
        ),
        Err(e) => Err(e),
    }
}

/// The single event that moves the cursor to pixel `(x, y)`.
pub fn mouse_move_inner(x: i32, y: i32, screen: ScreenSize) -> (r: Result<InputEvent, MouseError>)
    ensures
        r == match normalized_point(ScreenPoint { x, y }, screen) {
            Ok(at) => Ok(move_event(at)),
            Err(e) => Err(e),
        },
{
    mouse_event(absolute_move_flags(), x, y, 0, 0, screen)
}

/// What to inject to move the cursor to pixel `(x, y)`: one absolute move.
pub fn mouse_move(x: i32, y: i32, screen: ScreenSize) -> (r: Result<Vec<InputEvent>, MouseError>)
    ensures
        match normalized_point(ScreenPoint { x, y }, screen) {
            Ok(at) => r matches Ok(events) && events@ == seq![move_event(at)],
            Err(e) => r == Err::<Vec<InputEvent>, MouseError>(e),
        },
        screen.contains(ScreenPoint { x, y }) ==> (r matches Ok(events) && all_in_range(events@)),
{
    proof {
        if screen.contains(ScreenPoint { x, y }) {
            lemma_on_screen_in_range(ScreenPoint { x, y }, screen);
        }
    }
    match mouse_move_inner(x, y, screen) {
        Ok(event) => {
            let mut events: Vec<InputEvent> = Vec::new();
            events.push(event);
            assert(events@ =~= seq![event]);
            Ok(events)
        },
        Err(e) => Err(e),
    }
}

/// What to inject to click `button` at pixel `(x, y)`: the move there, then
/// the press and the release of that button, all three at the one point
/// that `(x, y)` scales to.
pub fn mouse_click(button: MouseButton, x: i32, y: i32, screen: ScreenSize) -> (r: Result<
    Vec<InputEvent>,
    MouseError,
>)
    ensures
        match normalized_point(ScreenPoint { x, y }, screen) {
            Ok(at) => r matches Ok(events) && events@ == click_events(button, at),
            Err(e) => r == Err::<Vec<InputEvent>, MouseError>(e),
        },
        screen.contains(ScreenPoint { x, y }) ==> (r matches Ok(events) && all_in_range(events@)),
{
    proof {
        if screen.contains(ScreenPoint { x, y }) {
            lemma_on_screen_in_range(ScreenPoint { x, y }, screen);
        }
    }
    let at: NormalizedPoint = match normalize_point(ScreenPoint { x, y }, screen) {
        Ok(at) => at,
        Err(e) => { return Err(e); },
    };
    let down: u32 = button.press_flag();
    let up: u32 = button.release_flag();
    let mut events: Vec<InputEvent> = Vec::new();
    events.push(event_at(absolute_move_flags(), at));
    events.push(event_at(down, at));
    events.push(event_at(up, at));
    assert(events@ =~= click_events(button, at));
    Ok(events)
}

/// Turns what the system answered to a cursor query into the position to
/// report. A reading is passed on bit for bit; where the system gave none,
/// the origin is reported.
pub fn get_mouse_pos_inner(reading: Option<ScreenPoint>) -> (p: Point)
    ensures
        p == reported_position(reading),
{
    match reading {
        Some(at) => Point::new(unsigned(at.x), unsigned(at.y)),
        None => Point::new(0, 0),
    }
}

fn unsigned(v: i32) -> (u: u32)
    ensures
        u == pixel(v),
{
    if v >= 0 {
        v as u32
    } else {
        (v as i64 + 0x1_0000_0000) as u32
    }
}

/// The answer to a cursor query, given how its dispatch ended. A lost
/// worker is a failure of its own; only a completed query whose reading is
/// missing falls back to the origin.
pub fn get_mouse_pos(outcome: Dispatched<Option<ScreenPoint>>) -> (r: Result<Point, MouseError>)
    ensures
        r == match outcome {
            Dispatched::Completed(reading) => Ok::<Point, MouseError>(reported_position(reading)),
            Dispatched::Failed => Err(MouseError::DispatchFailure),
        },
{
    match outcome {
        Dispatched::Completed(reading) => Ok(get_mouse_pos_inner(reading)),
        Dispatched::Failed => Err(MouseError::DispatchFailure),
    }
}

/// The answer to a move or a click, given how its dispatch ended: `true`
/// once the worker has injected the events, the worker's own refusal where
/// it made one, and a dispatch failure where the worker was lost.
pub fn dispatch_status(outcome: Dispatched<Result<(), MouseError>>) -> (r: Result<bool, MouseError>)
    ensures
        r == match outcome {
            Dispatched::Completed(Ok(_)) => Ok::<bool, MouseError>(true),
            Dispatched::Completed(Err(e)) => Err(e),
            Dispatched::Failed => Err(MouseError::DispatchFailure),
        },
{
    match outcome {
        Dispatched::Completed(Ok(_)) => Ok(true),
        Dispatched::Completed(Err(e)) => Err(e),
        Dispatched::Failed => Err(MouseError::DispatchFailure),
    }
}

} // verus!

//! The drag gesture as a state machine over discrete events. The shell
//! feeds one event per input change; the only transition that produces a
//! move to apply is a release while a drop target is hovered.

use vstd::prelude::*;

use crate::manager::Location;

verus! {

/// One discrete input change of a drag gesture.
#[derive(Clone, Copy, Debug, PartialEq, Eq, Structural)]
pub enum DragEvent {
    /// The pointer went down on the item at the given location.
    Start(Location),
    /// The drag hovers over a drop position (as
    /// [`crate::manager::compute_insert_index`] resolved it).
    Hover(Location),
    /// The pointer was released.
    Release,
    /// The gesture was abandoned.
    Cancel,
}

/// Where a drag gesture stands between two events.
#[derive(Clone, Copy, Debug, PartialEq, Eq, Structural)]
pub enum DragState {
    /// No drag is in progress.
    Idle,
    /// The item picked up at `payload` is being dragged; `target` is the
    /// drop position hovered most recently, if any.
    Dragging { payload: Location, target: Option<Location> },
}

/// Feeds one event to the gesture. Returns the next state and the move
/// the event completed: a source and destination pair comes out exactly
/// when a release happens while a drop target is hovered — a release
/// outside every drop zone, or a cancellation, mutates nothing.
pub fn drag_step(state: DragState, event: DragEvent) -> (outcome: (
    DragState,
    Option<(Location, Location)>,
))
    ensures
        state is Idle ==> outcome.1 is None,
        state matches DragState::Dragging { payload, target } ==> (event == DragEvent::Release
            ==> outcome.0 is Idle && (match target {
            Some(to) => outcome.1 == Some((payload, to)),
            None => outcome.1 is None,
        })),
        event == DragEvent::Cancel ==> outcome.0 is Idle && outcome.1 is None,
        event matches DragEvent::Start(from) ==> (outcome.0 == (DragState::Dragging {
            payload: from,
            target: None,
        }) && outcome.1 is None),
        state matches DragState::Dragging { payload, target: _ } ==> (event matches
            DragEvent::Hover(to) ==> outcome.0 == (DragState::Dragging {
            payload,
            target: Some(to),
        }) && outcome.1 is None),
        state is Idle && !(event matches DragEvent::Start(_)) ==> outcome.0 is Idle,
{
    match (state, event) {
        (_, DragEvent::Start(from)) => (DragState::Dragging { payload: from, target: None }, None),
        (DragState::Idle, _) => (DragState::Idle, None),
        (DragState::Dragging { payload, target: _ }, DragEvent::Hover(to)) => (
            DragState::Dragging { payload, target: Some(to) },
            None,
        ),
        (DragState::Dragging { payload, target }, DragEvent::Release) => {
            match target {
                Some(to) => (DragState::Idle, Some((payload, to))),
                None => (DragState::Idle, None),
            }
        },
        (DragState::Dragging { .. }, DragEvent::Cancel) => (DragState::Idle, None),
    }
}

} // verus!

//! Hover tracking for a container of widgets.
//!
//! A hover container watches the pointer and publishes a message when the
//! pointer enters it and another when the pointer leaves. The float-valued
//! geometry — whether the pointer position lies inside the container's
//! bounds — is the embedding program's business; these functions take the
//! resulting booleans and decide what is published, whether the event is
//! consumed, and what status the container is drawn in.

use vstd::prelude::*;

verus! {

/// The hover condition a container is drawn in.
#[derive(Clone, Copy, Debug, PartialEq, Eq, Structural)]
pub enum Status {
    /// No hover callback is set; the container does not react.
    Disabled,
    /// The pointer is over the container and it is marked hovered.
    Hovered,
    /// Anything else.
    NotHovered,
}

/// The message published when the pointer enters a container: either a fixed
/// message or one produced on demand.
#[verifier::reject_recursive_types(Message)]
pub enum OnHover<Message, F: Fn() -> Message> {
    /// A fixed message, cloned out on each publish.
    Direct(Message),
    /// A producer called on each publish.
    Closure(F),
}

/// The message published when the pointer leaves a container: either a fixed
/// message or one produced on demand.
#[verifier::reject_recursive_types(Message)]
pub enum OnExit<Message, F: Fn() -> Message> {
    /// A fixed message, cloned out on each publish.
    Direct(Message),
    /// A producer called on each publish.
    Closure(F),
}

impl<Message: Clone, F: Fn() -> Message> OnHover<Message, F> {
    /// The message to publish: a clone of the fixed message, or whatever the
    /// producer yields.
    pub fn get(&self) -> (r: Message)
        requires
            (self matches OnHover::Closure(f) ==> f.requires(())),
        ensures
            (self matches OnHover::Direct(m) ==> vstd::pervasive::cloned(*m, r)),
            (self matches OnHover::Closure(f) ==> f.ensures((), r)),
    {
        match self {
            OnHover::Direct(message) => message.clone(),
            OnHover::Closure(f) => f(),
        }
    }
}

impl<Message: Clone, F: Fn() -> Message> OnExit<Message, F> {
    /// The message to publish: a clone of the fixed message, or whatever the
    /// producer yields.
    pub fn get(&self) -> (r: Message)
        requires
            (self matches OnExit::Closure(f) ==> f.requires(())),
        ensures
            (self matches OnExit::Direct(m) ==> vstd::pervasive::cloned(*m, r)),
            (self matches OnExit::Closure(f) ==> f.ensures((), r)),
    {
        match self {
            OnExit::Direct(message) => message.clone(),
            OnExit::Closure(f) => f(),
        }
    }
}

/// What the container publishes on a pointer transition.
#[derive(Clone, Copy, Debug, PartialEq, Eq, Structural)]
pub enum HoverEvent {
    /// The pointer entered: publish the hover message.
    Entered,
    /// The pointer left: publish the exit message.
    Left,
}

/// The outcome of one pointer event over a container.
#[derive(Clone, Copy, Debug, PartialEq, Eq, Structural)]
pub struct PointerOutcome {
    /// Which message to publish, if any.
    pub publish: Option<HoverEvent>,
    /// Whether the event is consumed rather than passed on.
    pub captured: bool,
    /// The hover mark to store for the next event.
    pub is_hovered: bool,
}

/// The status to draw a container in: hover tracking is disabled without a
/// hover callback, and the container counts as hovered only when the pointer
/// is over it and the stored mark agrees.
pub open spec fn spec_hover_status(has_on_hover: bool, is_mouse_over: bool, is_hovered: bool) -> Status {
    if !has_on_hover {
        Status::Disabled
    } else if is_mouse_over && is_hovered {
        Status::Hovered
    } else {
        Status::NotHovered
    }
}

/// Decide the status a container is drawn in.
pub fn hover_status(has_on_hover: bool, is_mouse_over: bool, is_hovered: bool) -> (s: Status)
    ensures
        s == spec_hover_status(has_on_hover, is_mouse_over, is_hovered),
{
    if !has_on_hover {
        Status::Disabled
    } else if is_mouse_over && is_hovered {
        Status::Hovered
    } else {
        Status::NotHovered
    }
}

/// What one pointer event does, given which callbacks are set, the stored
/// hover mark, and whether the pointer is now inside the bounds. With both
/// callbacks set, a leave publishes the exit message and an enter the hover
/// message, both consuming the event and updating the mark. With only the
/// exit callback set, nothing happens at all. With no exit callback, the
/// mark is still tracked but nothing is published or consumed.
pub open spec fn spec_pointer_event(
    has_on_exit: bool,
    has_on_hover: bool,
    was_hovered: bool,
    now_hovered: bool,
) -> PointerOutcome {
    if has_on_exit && has_on_hover {
        if was_hovered && !now_hovered {
            PointerOutcome { publish: Some(HoverEvent::Left), captured: true, is_hovered: false }
        } else if !was_hovered && now_hovered {
            PointerOutcome { publish: Some(HoverEvent::Entered), captured: true, is_hovered: true }
        } else {
            PointerOutcome { publish: None, captured: false, is_hovered: was_hovered }
        }
    } else if has_on_exit {
        PointerOutcome { publish: None, captured: false, is_hovered: was_hovered }
    } else {
        let mark = if was_hovered != now_hovered {
            now_hovered
        } else {
            was_hovered
        };
        PointerOutcome { publish: None, captured: false, is_hovered: mark }
    }
}

/// Decide what one pointer event over the container does.
pub fn pointer_event(
    has_on_exit: bool,
    has_on_hover: bool,
    was_hovered: bool,
    now_hovered: bool,
) -> (r: PointerOutcome)
    ensures
        r == spec_pointer_event(has_on_exit, has_on_hover, was_hovered, now_hovered),
{
    if has_on_exit && has_on_hover {
        if was_hovered && !now_hovered {
            PointerOutcome { publish: Some(HoverEvent::Left), captured: true, is_hovered: false }
        } else if !was_hovered && now_hovered {
            PointerOutcome { publish: Some(HoverEvent::Entered), captured: true, is_hovered: true }
        } else {
            PointerOutcome { publish: None, captured: false, is_hovered: was_hovered }
        }
    } else if has_on_exit {
        PointerOutcome { publish: None, captured: false, is_hovered: was_hovered }
    } else {
        let mark = if was_hovered != now_hovered {
            now_hovered
        } else {
            was_hovered
        };
        PointerOutcome { publish: None, captured: false, is_hovered: mark }
    }
}

} // verus!

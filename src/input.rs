//! Logical input channels, merged from every raw button bound to them, and
//! the binding of the secondary (gamepad) device.
use vstd::prelude::*;

verus! {

/// The state of one button, or of one logical channel, for the current tick.
#[derive(Clone, Copy, Debug, PartialEq, Eq, Structural)]
pub struct ButtonState {
    pub pressed: bool,
    pub just_pressed: bool,
    pub just_released: bool,
}

impl ButtonState {
    /// A button that is up and did not change this tick.
    pub fn released() -> (r: ButtonState)
        ensures
            !r.pressed && !r.just_pressed && !r.just_released,
    {
        ButtonState { pressed: false, just_pressed: false, just_released: false }
    }
}

/// The five logical channels.
#[derive(Clone, Copy, Debug, PartialEq, Eq, Structural)]
pub enum Action {
    Left,
    Right,
    Jump,
    Save,
    Load,
}

/// One physical button's state, tagged with the channel it is bound to.
#[derive(Clone, Copy, Debug, PartialEq, Eq, Structural)]
pub struct RawButton {
    pub action: Action,
    pub state: ButtonState,
}

/// The logical input frame of one tick.
#[derive(Clone, Copy, Debug, PartialEq, Eq, Structural)]
pub struct InputState {
    pub left: ButtonState,
    pub right: ButtonState,
    pub jump: ButtonState,
    pub save: ButtonState,
    pub load: ButtonState,
}

impl InputState {
    /// A frame with every channel up.
    pub fn idle() -> (r: InputState)
        ensures
            r == idle_frame(),
    {
        InputState {
            left: ButtonState::released(),
            right: ButtonState::released(),
            jump: ButtonState::released(),
            save: ButtonState::released(),
            load: ButtonState::released(),
        }
    }
}

pub open spec fn released_button() -> ButtonState {
    ButtonState { pressed: false, just_pressed: false, just_released: false }
}

pub open spec fn idle_frame() -> InputState {
    InputState {
        left: released_button(),
        right: released_button(),
        jump: released_button(),
        save: released_button(),
        load: released_button(),
    }
}

/// A channel's state: each of its three signals is the OR of that signal
/// over every raw button bound to the channel.
pub open spec fn channel_of(raw: Seq<RawButton>, action: Action) -> ButtonState {
    ButtonState {
        pressed: exists|i: int| 0 <= i < raw.len() && raw[i].action == action && raw[i].state.pressed,
        just_pressed: exists|i: int|
            0 <= i < raw.len() && raw[i].action == action && raw[i].state.just_pressed,
        just_released: exists|i: int|
            0 <= i < raw.len() && raw[i].action == action && raw[i].state.just_released,
    }
}

pub open spec fn frame_of(raw: Seq<RawButton>) -> InputState {
    InputState {
        left: channel_of(raw, Action::Left),
        right: channel_of(raw, Action::Right),
        jump: channel_of(raw, Action::Jump),
        save: channel_of(raw, Action::Save),
        load: channel_of(raw, Action::Load),
    }
}

/// ORs together the raw buttons bound to `action`.
pub fn merge_channel(raw: &Vec<RawButton>, action: Action) -> (r: ButtonState)
    ensures
        r == channel_of(raw@, action),
{
    let mut pressed = false;
    let mut just_pressed = false;
    let mut just_released = false;
    let mut i: usize = 0;
    while i < raw.len()
        invariant
            i <= raw.len(),
            pressed == exists|j: int| 0 <= j < i && raw@[j].action == action && raw@[j].state.pressed,
            just_pressed == exists|j: int|
                0 <= j < i && raw@[j].action == action && raw@[j].state.just_pressed,
            just_released == exists|j: int|
                0 <= j < i && raw@[j].action == action && raw@[j].state.just_released,
        decreases raw.len() - i,
    {
        let b = raw[i];
        if b.action == action {
            pressed = pressed || b.state.pressed;
            just_pressed = just_pressed || b.state.just_pressed;
            just_released = just_released || b.state.just_released;
        }
        i = i + 1;
    }
    ButtonState { pressed, just_pressed, just_released }
}

/// Builds this tick's logical input frame from every raw button, whatever
/// device it comes from.
pub fn input_handling(raw: &Vec<RawButton>) -> (r: InputState)
    ensures
        r == frame_of(raw@),
{
    InputState {
        left: merge_channel(raw, Action::Left),
        right: merge_channel(raw, Action::Right),
        jump: merge_channel(raw, Action::Jump),
        save: merge_channel(raw, Action::Save),
        load: merge_channel(raw, Action::Load),
    }
}

/// A secondary device appearing or going away, by device id.
#[derive(Clone, Copy, Debug, PartialEq, Eq, Structural)]
pub enum ConnectionEvent {
    Connected(usize),
    Disconnected(usize),
}

/// The active secondary device after one event: a connecting device is bound
/// only when none is; a disconnecting device is unbound only if it is the
/// bound one.
pub open spec fn bound_after(active: Option<usize>, event: ConnectionEvent) -> Option<usize> {
    match event {
        ConnectionEvent::Connected(id) => if active is None { Some(id) } else { active },
        ConnectionEvent::Disconnected(id) => if active == Some(id) { None } else { active },
    }
}

/// The active secondary device after a sequence of events, taken in order.
pub open spec fn bound_after_all(active: Option<usize>, events: Seq<ConnectionEvent>) -> Option<usize>
    decreases events.len(),
{
    if events.len() == 0 {
        active
    } else {
        bound_after(bound_after_all(active, events.drop_last()), events.last())
    }
}

/// Updates the binding of the secondary device with this tick's connection
/// events, in the order they came.
pub fn gamepad_connections(active: Option<usize>, events: &Vec<ConnectionEvent>) -> (r: Option<usize>)
    ensures
        r == bound_after_all(active, events@),
{
    let mut current = active;
    let mut i: usize = 0;
    while i < events.len()
        invariant
            i <= events.len(),
            current == bound_after_all(active, events@.subrange(0, i as int)),
        decreases events.len() - i,
    {
        let event = events[i];
        assert(events@.subrange(0, i + 1).drop_last() == events@.subrange(0, i as int));
        current = match event {
            ConnectionEvent::Connected(id) => if current.is_none() { Some(id) } else { current },
            ConnectionEvent::Disconnected(id) => {
                match current {
                    Some(old_id) => if old_id == id { None } else { current },
                    None => None,
                }
            },
        };
        i = i + 1;
    }
    assert(events@.subrange(0, events.len() as int) == events@);
    current
}

} // verus!

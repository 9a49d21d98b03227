//! Edge-triggered keyboard and mouse state.
//!
//! Every key and button is a small state machine over [`KeyState`]. Events
//! arriving from the windowing system drive it through [`transition`]; once
//! per frame [`Input::update`] applies [`decay`], so that a fresh press is
//! visible as `JustPressed` for exactly one frame.

use std::collections::HashMap;
use vstd::std_specs::iter::IteratorSpec;
use vstd::prelude::*;

verus! {

broadcast use vstd::std_specs::hash::group_hash_axioms;

/// What a key or button is doing.
#[derive(Clone, Copy, Debug, PartialEq, Eq, Structural)]
pub enum KeyState {
    JustPressed,
    Pressed,
    Released,
}

/// The two edges the windowing system reports for a key or button.
#[derive(Clone, Copy, Debug, PartialEq, Eq, Structural)]
pub enum ElementState {
    Pressed,
    Released,
}

/// Something that can happen to a single key between two observations.
#[derive(Clone, Copy, Debug, PartialEq, Eq, Structural)]
pub enum KeyEvent {
    Press,
    Release,
    Refresh,
}

/// Code of the left mouse button.
pub const MOUSE_LEFT: u32 = 0;

/// Code of the right mouse button.
pub const MOUSE_RIGHT: u32 = 1;

/// Code of the middle mouse button.
pub const MOUSE_MIDDLE: u32 = 2;

/// Code of the key that moves the camera forward.
pub const KEY_W: u32 = 1;

/// Code of the key that moves the camera to the left.
pub const KEY_A: u32 = 2;

/// Code of the key that moves the camera backward.
pub const KEY_S: u32 = 3;

/// Code of the key that moves the camera to the right.
pub const KEY_D: u32 = 4;

/// Code of the key that toggles wireframe drawing.
pub const KEY_F5: u32 = 5;

/// Code of the key that quits.
pub const KEY_ESCAPE: u32 = 6;

/// The state a key moves to when the windowing system reports `action`.
pub open spec fn transition(state: KeyState, action: ElementState) -> KeyState {
    match action {
        ElementState::Released => KeyState::Released,
        ElementState::Pressed => match state {
            KeyState::Released => KeyState::JustPressed,
            KeyState::JustPressed => KeyState::Pressed,
            KeyState::Pressed => KeyState::Pressed,
        },
    }
}

/// The state a key moves to at the start of a frame.
pub open spec fn decay(state: KeyState) -> KeyState {
    match state {
        KeyState::JustPressed => KeyState::Pressed,
        KeyState::Pressed => KeyState::Pressed,
        KeyState::Released => KeyState::Released,
    }
}

/// The state recorded for `code`; a code never heard of is released.
pub open spec fn state_of(states: Map<u32, KeyState>, code: u32) -> KeyState {
    if states.contains_key(code) {
        states[code]
    } else {
        KeyState::Released
    }
}

/// Every recorded state after one decay step.
pub open spec fn decayed(states: Map<u32, KeyState>) -> Map<u32, KeyState> {
    Map::new(|code: u32| states.contains_key(code), |code: u32| decay(states[code]))
}

/// The state of one key after `event`.
pub open spec fn after_event(state: KeyState, event: KeyEvent) -> KeyState {
    match event {
        KeyEvent::Press => transition(state, ElementState::Pressed),
        KeyEvent::Release => transition(state, ElementState::Released),
        KeyEvent::Refresh => decay(state),
    }
}

/// The state of one key after a whole history of events, oldest first.
pub open spec fn after_events(state: KeyState, events: Seq<KeyEvent>) -> KeyState
    decreases events.len(),
{
    if events.len() == 0 {
        state
    } else {
        after_event(after_events(state, events.drop_last()), events.last())
    }
}

/// The nearest `i64` to `value`.
pub open spec fn saturate(value: int) -> i64 {
    if value > i64::MAX {
        i64::MAX
    } else if value < i64::MIN {
        i64::MIN
    } else {
        value as i64
    }
}

/// Keyboard keys, mouse buttons and the mouse motion gathered since the last
/// refresh.
///
/// Mouse motion is measured in thousandths of a pixel.
#[derive(Debug)]
pub struct Input {
    keyboard_keys: HashMap<u32, KeyState>,
    mouse_buttons: HashMap<u32, KeyState>,
    delta_xpos: i64,
    delta_ypos: i64,
}

/// What an [`Input`] holds.
pub struct InputView {
    pub keys: Map<u32, KeyState>,
    pub buttons: Map<u32, KeyState>,
    pub delta_xpos: i64,
    pub delta_ypos: i64,
}

impl View for Input {
    type V = InputView;

    closed spec fn view(&self) -> InputView {
        InputView {
            keys: self.keyboard_keys@,
            buttons: self.mouse_buttons@,
            delta_xpos: self.delta_xpos,
            delta_ypos: self.delta_ypos,
        }
    }
}

fn apply(states: &mut HashMap<u32, KeyState>, code: u32, action: ElementState)
    ensures
        final(states)@ == old(states)@.insert(
            code,
            transition(state_of(old(states)@, code), action),
        ),
{
    let next = match action {
        ElementState::Released => KeyState::Released,
        ElementState::Pressed => match lookup(states, code) {
            KeyState::Released => KeyState::JustPressed,
            KeyState::JustPressed => KeyState::Pressed,
            KeyState::Pressed => KeyState::Pressed,
        },
    };
    states.insert(code, next);
}

fn lookup(states: &HashMap<u32, KeyState>, code: u32) -> (state: KeyState)
    ensures
        state == state_of(states@, code),
{
    match states.get(&code) {
        Some(state) => *state,
        None => KeyState::Released,
    }
}

fn refresh(states: &mut HashMap<u32, KeyState>)
    ensures
        final(states)@ == decayed(old(states)@),
{
    let mut codes: Vec<u32> = Vec::new();
    for code in it: states.keys()
        invariant
            it.seq() == states.keys().remaining(),
            codes@ == it.seq().take(it.index() as int).unref(),
    {
        codes.push(*code);
    }
    let ghost before = states@;
    assert(codes@ == states.keys().remaining().unref());
    let mut i: usize = 0;
    while i < codes.len()
        invariant
            i <= codes.len(),
            codes@.to_set() == before.dom(),
            states@.dom() == before.dom(),
            forall|c: u32|
                before.contains_key(c) ==> #[trigger] states@[c] == decay(before[c]) || states@[c]
                    == before[c],
            forall|j: int| 0 <= j < i ==> #[trigger] states@[codes@[j]] == decay(before[codes@[j]]),
        decreases codes.len() - i,
    {
        let code = codes[i];
        let next = match lookup(states, code) {
            KeyState::JustPressed => KeyState::Pressed,
            KeyState::Pressed => KeyState::Pressed,
            KeyState::Released => KeyState::Released,
        };
        states.insert(code, next);
        i += 1;
    }
    assert(states@ =~= decayed(before));
}

fn saturating_sum(a: i64, b: i64) -> (sum: i64)
    ensures
        sum == saturate(a + b),
{
    if b > 0 && a > i64::MAX - b {
        i64::MAX
    } else if b < 0 && a < i64::MIN - b {
        i64::MIN
    } else {
        a + b
    }
}

impl Input {
    /// An input state in which nothing was ever pressed or moved.
    pub fn new() -> (input: Input)
        ensures
            input@.keys == Map::<u32, KeyState>::empty(),
            input@.buttons == Map::<u32, KeyState>::empty(),
            input@.delta_xpos == 0,
            input@.delta_ypos == 0,
    {
        Input {
            keyboard_keys: HashMap::new(),
            mouse_buttons: HashMap::new(),
            delta_xpos: 0,
            delta_ypos: 0,
        }
    }

    /// Records a key going down or up.
    pub fn dispatch_keyboard(&mut self, key: u32, action: ElementState)
        ensures
            final(self)@ == (InputView {
                keys: old(self)@.keys.insert(key, transition(state_of(old(self)@.keys, key), action)),
                ..old(self)@
            }),
    {
        apply(&mut self.keyboard_keys, key, action);
    }

    /// Records a mouse button going down or up.
    pub fn dispatch_mouse_buttons(&mut self, button: u32, action: ElementState)
        ensures
            final(self)@ == (InputView {
                buttons: old(self)@.buttons.insert(
                    button,
                    transition(state_of(old(self)@.buttons, button), action),
                ),
                ..old(self)@
            }),
    {
        apply(&mut self.mouse_buttons, button, action);
    }

    /// Adds a mouse movement to the motion gathered since the last refresh.
    /// The sums stop at the ends of `i64`.
    pub fn dispatch_mouse_motion(&mut self, delta_xpos: i64, delta_ypos: i64)
        ensures
            final(self)@ == (InputView {
                delta_xpos: saturate(old(self)@.delta_xpos + delta_xpos),
                delta_ypos: saturate(old(self)@.delta_ypos + delta_ypos),
                ..old(self)@
            }),
    {
        self.delta_xpos = saturating_sum(self.delta_xpos, delta_xpos);
        self.delta_ypos = saturating_sum(self.delta_ypos, delta_ypos);
    }

    /// Starts a new frame: every fresh press becomes a held press and the
    /// gathered mouse motion is dropped. Call this before the frame's events
    /// are dispatched.
    pub fn update(&mut self)
        ensures
            final(self)@ == (InputView {
                keys: decayed(old(self)@.keys),
                buttons: decayed(old(self)@.buttons),
                delta_xpos: 0,
                delta_ypos: 0,
            }),
    {
        refresh(&mut self.keyboard_keys);
        refresh(&mut self.mouse_buttons);
        self.delta_xpos = 0;
        self.delta_ypos = 0;
    }

    /// Whether the key went down since the last refresh.
    pub fn keyboard_just_pressed(&self, key: u32) -> (yes: bool)
        ensures
            yes == (state_of(self@.keys, key) == KeyState::JustPressed),
    {
        lookup(&self.keyboard_keys, key) == KeyState::JustPressed
    }

    /// Whether the key is held: down, and not only since the last refresh.
    pub fn keyboard_pressed(&self, key: u32) -> (yes: bool)
        ensures
            yes == (state_of(self@.keys, key) == KeyState::Pressed),
    {
        lookup(&self.keyboard_keys, key) == KeyState::Pressed
    }

    /// Whether the key is up.
    pub fn keyboard_released(&self, key: u32) -> (yes: bool)
        ensures
            yes == (state_of(self@.keys, key) == KeyState::Released),
    {
        lookup(&self.keyboard_keys, key) == KeyState::Released
    }

    /// Whether the button went down since the last refresh.
    pub fn mouse_just_pressed(&self, button: u32) -> (yes: bool)
        ensures
            yes == (state_of(self@.buttons, button) == KeyState::JustPressed),
    {
        lookup(&self.mouse_buttons, button) == KeyState::JustPressed
    }

    /// Whether the button is held: down, and not only since the last
    /// refresh.
    pub fn mouse_pressed(&self, button: u32) -> (yes: bool)
        ensures
            yes == (state_of(self@.buttons, button) == KeyState::Pressed),
    {
        lookup(&self.mouse_buttons, button) == KeyState::Pressed
    }

    /// Whether the button is up.
    pub fn mouse_released(&self, button: u32) -> (yes: bool)
        ensures
            yes == (state_of(self@.buttons, button) == KeyState::Released),
    {
        lookup(&self.mouse_buttons, button) == KeyState::Released
    }

    /// The mouse motion to the right gathered since the last refresh.
    pub fn delta_xpos(&self) -> (delta: i64)
        ensures
            delta == self@.delta_xpos,
    {
        self.delta_xpos
    }

    /// The mouse motion downwards gathered since the last refresh.
    pub fn delta_ypos(&self) -> (delta: i64)
        ensures
            delta == self@.delta_ypos,
    {
        self.delta_ypos
    }
}

/// Dispatching an event to one code moves that code along [`after_event`]
/// and leaves every other code where it was.
pub proof fn lemma_dispatch_is_local(
    states: Map<u32, KeyState>,
    code: u32,
    action: ElementState,
    other: u32,
)
    ensures
        state_of(states.insert(code, transition(state_of(states, code), action)), code)
            == after_event(
            state_of(states, code),
            match action {
                ElementState::Pressed => KeyEvent::Press,
                ElementState::Released => KeyEvent::Release,
            },
        ),
        other != code ==> state_of(
            states.insert(code, transition(state_of(states, code), action)),
            other,
        ) == state_of(states, other),
{
}

/// A refresh moves every code along [`after_event`] with `Refresh`: what was
/// just pressed is now held, and nothing is just pressed any more.
pub proof fn lemma_refresh_decays(states: Map<u32, KeyState>, code: u32)
    ensures
        state_of(decayed(states), code) == after_event(state_of(states, code), KeyEvent::Refresh),
        state_of(states, code) == KeyState::JustPressed ==> state_of(decayed(states), code)
            == KeyState::Pressed,
        state_of(decayed(states), code) != KeyState::JustPressed,
{
}

/// A key becomes just pressed in one way only: by a press while released.
pub proof fn lemma_just_pressed_follows_release(state: KeyState, event: KeyEvent)
    ensures
        after_event(state, event) == KeyState::JustPressed <==> state == KeyState::Released
            && event == KeyEvent::Press,
{
}

/// Once pressed, a key that sees presses and refreshes but no release is
/// held after every one of them: it is never just pressed again.
pub proof fn lemma_held_until_released(state: KeyState, events: Seq<KeyEvent>)
    requires
        state != KeyState::Released,
        events.len() > 0,
        forall|i: int| 0 <= i < events.len() ==> events[i] != KeyEvent::Release,
    ensures
        after_events(state, events) == KeyState::Pressed,
    decreases events.len(),
{
    let earlier = events.drop_last();
    assert(events.last() != KeyEvent::Release);
    if events.len() > 1 {
        lemma_held_until_released(state, earlier);
    } else {
        assert(after_events(state, earlier) == state);
    }
}

} // verus!

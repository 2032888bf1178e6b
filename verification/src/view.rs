//! View state and the input reducer.
//!
//! The reducer is a total function from a state and an event to the next state
//! and an [`Action`].  The action tells the caller which real-valued update to
//! apply to the zoom level, the pan offset, the cursor position or the pan
//! velocity; the reducer itself owns every flag and the iteration budget.

use vstd::prelude::*;

verus! {

/// Amount by which one key press changes the iteration budget.
pub const ITERATION_STEP: u32 = 100;

/// Smallest iteration budget.
pub const MIN_ITERATIONS: u32 = 100;

/// Largest iteration budget: a tenth of the largest `u32`, rounded down.
pub const MAX_ITERATIONS: u32 = 429_496_729;

/// Iteration budget of a fresh or reset view.
pub const DEFAULT_ITERATIONS: u32 = 1500;

/// Whether `n` is an admissible iteration budget.
pub open spec fn budget_in_range(n: u32) -> bool {
    MIN_ITERATIONS <= n <= MAX_ITERATIONS
}

/// The budget after one request for fewer iterations: a step down where that
/// stays at or above the floor, else unchanged.
pub open spec fn budget_lowered(n: u32) -> u32 {
    if n >= MIN_ITERATIONS + ITERATION_STEP {
        (n - ITERATION_STEP) as u32
    } else {
        n
    }
}

/// The budget after one request for more iterations: a step up where that
/// stays at or below the ceiling, else unchanged.
pub open spec fn budget_raised(n: u32) -> u32 {
    if n + ITERATION_STEP <= MAX_ITERATIONS {
        (n + ITERATION_STEP) as u32
    } else {
        n
    }
}

/// Lowers an iteration budget by one step, never below the floor.
pub fn lower_budget(n: u32) -> (r: u32)
    ensures
        r == budget_lowered(n),
{
    if n >= MIN_ITERATIONS + ITERATION_STEP {
        n - ITERATION_STEP
    } else {
        n
    }
}

/// Raises an iteration budget by one step, never above the ceiling.
pub fn raise_budget(n: u32) -> (r: u32)
    ensures
        r == budget_raised(n),
{
    if n <= MAX_ITERATIONS - ITERATION_STEP {
        n + ITERATION_STEP
    } else {
        n
    }
}

/// The keys the viewer distinguishes.  Every other key is `Other`.
#[derive(Clone, Copy, Debug, PartialEq, Eq, Structural)]
pub enum Key {
    /// Pan left.
    KeyA,
    /// Pan right.
    KeyD,
    /// Pan up.
    KeyW,
    /// Pan down.
    KeyS,
    /// Switch between the Mandelbrot set and the Julia set.
    Space,
    /// Switch colour rotation on or off.
    KeyQ,
    /// Fewer iterations.
    Comma,
    /// More iterations.
    Period,
    /// Reset the view.
    KeyR,
    /// Switch fullscreen on or off.
    F11,
    /// Leave the viewer.
    Escape,
    /// Any key without a meaning here.
    Other,
}

/// The mouse buttons the viewer distinguishes.
#[derive(Clone, Copy, Debug, PartialEq, Eq, Structural)]
pub enum Button {
    Left,
    Other,
}

/// An input event.  Cursor coordinates are the bit patterns of doubles, a
/// scroll amount is the bit pattern of a single.
#[derive(Clone, Copy, Debug, PartialEq, Eq, Structural)]
pub enum Event {
    /// A key went down (`pressed`) or up.  `repeat` marks an auto-repeat and
    /// `synthetic` an event made up by the windowing system.
    Key { key: Key, pressed: bool, repeat: bool, synthetic: bool },
    /// The cursor moved to the pixel position (`x`, `y`).
    CursorMoved { x: u64, y: u64 },
    /// The wheel turned vertically by `lines`, positive when scrolling up.
    Scroll { lines: u32 },
    /// A mouse button went down (`pressed`) or up.
    MouseButton { button: Button, pressed: bool },
    /// The set of held modifier keys changed; `ctrl` is the control key.
    ModifiersChanged { ctrl: bool },
}

/// What the caller has to do after an event.
#[derive(Clone, Copy, Debug, PartialEq, Eq, Structural)]
pub enum Action {
    /// Nothing.
    Nothing,
    /// Add `dx` and `dy` times the current step size to the pan velocity.
    /// Each of the two is -1, 0 or 1.
    Accelerate { dx: i8, dy: i8 },
    /// Add `delta`, the bit pattern of a single, to the zoom level, keeping
    /// the centre of the view fixed.
    ZoomAtCentre { delta: u32 },
    /// Add `delta`, the bit pattern of a single, to the zoom level, keeping
    /// the point under the cursor fixed.
    ZoomAtCursor { delta: u32 },
    /// Record the cursor's pixel position (`x`, `y`); with `drag`, also pan by
    /// the distance the cursor travelled in the complex plane.
    MoveCursor { x: u64, y: u64, drag: bool },
    /// Run the frame synchronizer at once.
    Synchronize,
    /// Restore zoom level, offset, cursor position and pan velocity to their
    /// defaults, and put the window out of fullscreen mode, as the reset
    /// state has it.
    Reset,
    /// Put the window into (`on`) or out of fullscreen mode.
    Fullscreen { on: bool },
}

/// The sign bit of a single.
pub const SINGLE_SIGN_BIT: u32 = 0x8000_0000;

/// The bit pattern of the negation of a single: the same bits with the sign
/// bit flipped.  Scrolling up zooms in, which lowers the zoom level.
pub open spec fn negated(bits: u32) -> u32 {
    if bits >= SINGLE_SIGN_BIT {
        (bits - SINGLE_SIGN_BIT) as u32
    } else {
        (bits + SINGLE_SIGN_BIT) as u32
    }
}

/// Negates a single, given as its bit pattern.
pub fn negate(bits: u32) -> (r: u32)
    ensures
        r == negated(bits),
{
    if bits >= SINGLE_SIGN_BIT {
        bits - SINGLE_SIGN_BIT
    } else {
        bits + SINGLE_SIGN_BIT
    }
}

/// The direction in which a key pans, as a pair of unit steps; `(0, 0)` for a
/// key that does not pan.
pub open spec fn heading(key: Key) -> (i8, i8) {
    match key {
        Key::KeyA => (-1i8, 0i8),
        Key::KeyD => (1i8, 0i8),
        Key::KeyW => (0i8, 1i8),
        Key::KeyS => (0i8, -1i8),
        _ => (0i8, 0i8),
    }
}

/// Whether a key pans.
pub open spec fn pans(key: Key) -> bool {
    key == Key::KeyA || key == Key::KeyD || key == Key::KeyW || key == Key::KeyS
}

/// The change of pan velocity, in step sizes, caused by a panning key going
/// down (its heading) or up (the opposite).
pub open spec fn push(key: Key, pressed: bool) -> (i8, i8) {
    let h = heading(key);
    if pressed {
        h
    } else {
        ((-h.0) as i8, (-h.1) as i8)
    }
}

/// The discrete part of the view: the mode flags and the iteration budget.
#[derive(Clone, Copy, Debug, PartialEq, Eq, Structural)]
pub struct ViewState {
    /// Whether the control key is held.
    pub ctrl_pressed: bool,
    /// Whether the left mouse button is held.
    pub mouse_clicked: bool,
    /// Whether the window is meant to be fullscreen.
    pub fullscreen: bool,
    /// Whether the Mandelbrot set (rather than the Julia set) is shown.
    pub is_mandelbrot: bool,
    /// Whether the colours rotate over time.
    pub rotate_colors: bool,
    /// Iteration budget of the evaluator.
    pub max_iterations: u32,
}

impl ViewState {
    /// The state of a fresh or reset view.
    pub open spec fn initial() -> ViewState {
        ViewState {
            ctrl_pressed: false,
            mouse_clicked: false,
            fullscreen: false,
            is_mandelbrot: true,
            rotate_colors: true,
            max_iterations: DEFAULT_ITERATIONS,
        }
    }

    /// Validity: the iteration budget lies within its bounds.
    pub open spec fn wf(self) -> bool {
        budget_in_range(self.max_iterations)
    }

    /// The state after a key event that is neither a repeat nor synthetic.
    pub open spec fn after_key(self, key: Key, pressed: bool) -> ViewState {
        if !pressed {
            self
        } else {
            match key {
                Key::Space => ViewState { is_mandelbrot: !self.is_mandelbrot, ..self },
                Key::KeyQ => ViewState { rotate_colors: !self.rotate_colors, ..self },
                Key::Comma => ViewState {
                    max_iterations: budget_lowered(self.max_iterations),
                    ..self
                },
                Key::Period => ViewState {
                    max_iterations: budget_raised(self.max_iterations),
                    ..self
                },
                Key::KeyR => Self::initial(),
                Key::F11 => ViewState { fullscreen: !self.fullscreen, ..self },
                _ => self,
            }
        }
    }

    /// The action for a key event that is neither a repeat nor synthetic.
    pub open spec fn action_for_key(self, key: Key, pressed: bool) -> Action {
        if pans(key) {
            Action::Accelerate { dx: push(key, pressed).0, dy: push(key, pressed).1 }
        } else if !pressed {
            Action::Nothing
        } else {
            match key {
                Key::Comma => if budget_lowered(self.max_iterations) != self.max_iterations {
                    Action::Synchronize
                } else {
                    Action::Nothing
                },
                Key::Period => if budget_raised(self.max_iterations) != self.max_iterations {
                    Action::Synchronize
                } else {
                    Action::Nothing
                },
                Key::KeyR => Action::Reset,
                Key::F11 => Action::Fullscreen { on: !self.fullscreen },
                _ => Action::Nothing,
            }
        }
    }

    /// The state after `event`.
    pub open spec fn after(self, event: Event) -> ViewState {
        match event {
            Event::Key { key, pressed, repeat, synthetic } => if repeat || synthetic {
                self
            } else {
                self.after_key(key, pressed)
            },
            Event::CursorMoved { .. } => self,
            Event::Scroll { .. } => self,
            Event::MouseButton { button, pressed } => if button == Button::Left {
                ViewState { mouse_clicked: pressed, ..self }
            } else {
                self
            },
            Event::ModifiersChanged { ctrl } => ViewState { ctrl_pressed: ctrl, ..self },
        }
    }

    /// The action that `event` asks for in this state.
    pub open spec fn action_for(self, event: Event) -> Action {
        match event {
            Event::Key { key, pressed, repeat, synthetic } => if repeat || synthetic {
                Action::Nothing
            } else {
                self.action_for_key(key, pressed)
            },
            Event::CursorMoved { x, y } => Action::MoveCursor { x, y, drag: self.mouse_clicked },
            Event::Scroll { lines } => if self.ctrl_pressed {
                Action::ZoomAtCentre { delta: negated(lines) }
            } else {
                Action::ZoomAtCursor { delta: negated(lines) }
            },
            Event::MouseButton { .. } => Action::Nothing,
            Event::ModifiersChanged { .. } => Action::Nothing,
        }
    }

    /// The state after each event of `events` in turn.
    pub open spec fn after_all(self, events: Seq<Event>) -> ViewState
        decreases events.len(),
    {
        if events.len() == 0 {
            self
        } else {
            self.after_all(events.drop_last()).after(events.last())
        }
    }

    /// A fresh view.
    pub fn new() -> (s: ViewState)
        ensures
            s == Self::initial(),
            s.wf(),
    {
        ViewState {
            ctrl_pressed: false,
            mouse_clicked: false,
            fullscreen: false,
            is_mandelbrot: true,
            rotate_colors: true,
            max_iterations: DEFAULT_ITERATIONS,
        }
    }

    /// Restores every field to its default.
    pub fn reset(&mut self)
        ensures
            *final(self) == Self::initial(),
    {
        *self = ViewState::new();
    }

    /// The change of pan velocity for a panning key, in step sizes.
    fn push_of(key: Key, pressed: bool) -> (d: (i8, i8))
        requires
            pans(key),
        ensures
            d == push(key, pressed),
    {
        let h: (i8, i8) = match key {
            Key::KeyA => (-1i8, 0i8),
            Key::KeyD => (1i8, 0i8),
            Key::KeyW => (0i8, 1i8),
            _ => (0i8, -1i8),
        };
        if pressed {
            h
        } else {
            (-h.0, -h.1)
        }
    }

    /// Applies a key event that is neither a repeat nor synthetic.
    fn key_input(&mut self, key: Key, pressed: bool) -> (action: Action)
        ensures
            *final(self) == old(self).after_key(key, pressed),
            action == old(self).action_for_key(key, pressed),
    {
        match key {
            Key::KeyA | Key::KeyD | Key::KeyW | Key::KeyS => {
                let d = Self::push_of(key, pressed);
                Action::Accelerate { dx: d.0, dy: d.1 }
            },
            Key::Space => {
                if pressed {
                    self.is_mandelbrot = !self.is_mandelbrot;
                }
                Action::Nothing
            },
            Key::KeyQ => {
                if pressed {
                    self.rotate_colors = !self.rotate_colors;
                }
                Action::Nothing
            },
            Key::Comma => {
                let lowered = lower_budget(self.max_iterations);
                if pressed && lowered != self.max_iterations {
                    self.max_iterations = lowered;
                    Action::Synchronize
                } else {
                    Action::Nothing
                }
            },
            Key::Period => {
                let raised = raise_budget(self.max_iterations);
                if pressed && raised != self.max_iterations {
                    self.max_iterations = raised;
                    Action::Synchronize
                } else {
                    Action::Nothing
                }
            },
            Key::KeyR => {
                if pressed {
                    self.reset();
                    Action::Reset
                } else {
                    Action::Nothing
                }
            },
            Key::F11 => {
                if pressed {
                    self.fullscreen = !self.fullscreen;
                    Action::Fullscreen { on: self.fullscreen }
                } else {
                    Action::Nothing
                }
            },
            _ => Action::Nothing,
        }
    }

    /// The input reducer: applies `event` to the state and returns what the
    /// caller has to do about it.
    pub fn input(&mut self, event: Event) -> (action: Action)
        ensures
            *final(self) == old(self).after(event),
            action == old(self).action_for(event),
            old(self).wf() ==> final(self).wf(),
    {
        match event {
            Event::Key { key, pressed, repeat, synthetic } => {
                if repeat || synthetic {
                    Action::Nothing
                } else {
                    self.key_input(key, pressed)
                }
            },
            Event::CursorMoved { x, y } => Action::MoveCursor { x, y, drag: self.mouse_clicked },
            Event::Scroll { lines } => {
                let delta = negate(lines);
                if self.ctrl_pressed {
                    Action::ZoomAtCentre { delta }
                } else {
                    Action::ZoomAtCursor { delta }
                }
            },
            Event::MouseButton { button, pressed } => {
                if button == Button::Left {
                    self.mouse_clicked = pressed;
                }
                Action::Nothing
            },
            Event::ModifiersChanged { ctrl } => {
                self.ctrl_pressed = ctrl;
                Action::Nothing
            },
        }
    }
}

impl Default for ViewState {
    fn default() -> (s: ViewState)
        ensures
            s == ViewState::initial(),
    {
        ViewState::new()
    }
}

/// Lowering or raising an admissible budget gives an admissible budget.
pub proof fn lemma_budget_stays_in_range(n: u32)
    requires
        budget_in_range(n),
    ensures
        budget_in_range(budget_lowered(n)),
        budget_in_range(budget_raised(n)),
{
}

/// At the floor a request for fewer iterations changes nothing, and within one
/// step of the ceiling a request for more changes nothing.
pub proof fn lemma_budget_saturates(n: u32)
    ensures
        budget_lowered(MIN_ITERATIONS) == MIN_ITERATIONS,
        budget_raised(MAX_ITERATIONS) == MAX_ITERATIONS,
        n + ITERATION_STEP > MAX_ITERATIONS ==> budget_raised(n) == n,
        n < MIN_ITERATIONS + ITERATION_STEP ==> budget_lowered(n) == n,
{
}

/// No event takes a valid state to an invalid one.
pub proof fn lemma_event_preserves_validity(s: ViewState, event: Event)
    requires
        s.wf(),
    ensures
        s.after(event).wf(),
{
}

/// No sequence of events takes a valid state to an invalid one: the iteration
/// budget never leaves its bounds.
pub proof fn lemma_events_preserve_validity(s: ViewState, events: Seq<Event>)
    requires
        s.wf(),
    ensures
        s.after_all(events).wf(),
    decreases events.len(),
{
    if events.len() > 0 {
        lemma_events_preserve_validity(s, events.drop_last());
        lemma_event_preserves_validity(s.after_all(events.drop_last()), events.last());
    }
}

/// Whether an event is a cursor move.
pub open spec fn is_cursor_move(event: Event) -> bool {
    match event {
        Event::CursorMoved { .. } => true,
        _ => false,
    }
}

/// A run of cursor moves leaves the state as it is.  So while the left button
/// is held, every move of the run is answered with a drag, and the caller
/// pans at each of them.
pub proof fn lemma_cursor_moves_keep_dragging(s: ViewState, moves: Seq<Event>, x: u64, y: u64)
    requires
        forall|i: int| 0 <= i < moves.len() ==> is_cursor_move(#[trigger] moves[i]),
    ensures
        s.after_all(moves) == s,
        s.after_all(moves).action_for(Event::CursorMoved { x, y }) == (Action::MoveCursor {
            x,
            y,
            drag: s.mouse_clicked,
        }),
    decreases moves.len(),
{
    if moves.len() > 0 {
        lemma_cursor_moves_keep_dragging(s, moves.drop_last(), x, y);
        assert(is_cursor_move(moves[moves.len() - 1]));
    }
}

/// Pressing and then releasing one panning key changes the pan velocity by
/// opposite amounts, which cancel, and leaves the state as it was.
pub proof fn lemma_press_release_cancels(s: ViewState, key: Key)
    requires
        pans(key),
    ensures
        ({
            let down = Event::Key { key, pressed: true, repeat: false, synthetic: false };
            let up = Event::Key { key, pressed: false, repeat: false, synthetic: false };
            &&& s.after(down).after(up) == s
            &&& s.action_for(down) == Action::Accelerate {
                dx: push(key, true).0,
                dy: push(key, true).1,
            }
            &&& s.after(down).action_for(up) == Action::Accelerate {
                dx: push(key, false).0,
                dy: push(key, false).1,
            }
            &&& push(key, true).0 + push(key, false).0 == 0
            &&& push(key, true).1 + push(key, false).1 == 0
        }),
{
}

} // verus!

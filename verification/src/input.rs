//! Input handling of the application as a state machine: keyboard and mouse
//! events update the input state, and each redraw yields the camera moves to
//! apply and whether to report the scene this frame.
use vstd::prelude::*;

verus! {

/// Frames between two position reports.
pub const REPORT_INTERVAL: u32 = 60;

/// The keys that move the camera.
#[derive(Debug, Clone, Copy, PartialEq, Eq, Structural)]
pub enum CameraKey {
    /// W: move forward
    Forward,
    /// S: move backward
    Backward,
    /// A: move left
    Left,
    /// D: move right
    Right,
    /// Q: move down
    Down,
    /// E: move up
    Up,
}

/// The application's input state.
#[derive(Debug, Clone, Copy, PartialEq, Eq, Structural)]
pub struct InputState {
    /// W is held
    pub forward: bool,
    /// S is held
    pub backward: bool,
    /// A is held
    pub left: bool,
    /// D is held
    pub right: bool,
    /// Q is held
    pub down: bool,
    /// E is held
    pub up: bool,
    /// The left mouse button is held
    pub mouse_pressed: bool,
    /// A cursor position has been recorded during the current drag
    pub has_anchor: bool,
    /// Frames drawn so far
    pub frame_count: u32,
}

/// What a cursor move asks of the application.
#[derive(Debug, Clone, Copy, PartialEq, Eq, Structural)]
pub struct CursorAction {
    /// Rotate the camera by the offset from the recorded position to the new one
    pub rotate: bool,
    /// Record the new position
    pub record: bool,
}

/// What a redraw asks of the application.
#[derive(Debug, Clone, PartialEq, Eq)]
pub struct FramePlan {
    /// Camera moves to apply, in order
    pub moves: Vec<CameraKey>,
    /// Report the first dynamic entity's position this frame
    pub report: bool,
}

/// `Seq` holding `k` when `b` holds, and nothing otherwise.
pub open spec fn if_held(b: bool, k: CameraKey) -> Seq<CameraKey> {
    if b {
        seq![k]
    } else {
        Seq::empty()
    }
}

impl InputState {
    /// Nothing held, no drag, no frame drawn.
    pub open spec fn initial() -> InputState {
        InputState {
            forward: false,
            backward: false,
            left: false,
            right: false,
            down: false,
            up: false,
            mouse_pressed: false,
            has_anchor: false,
            frame_count: 0,
        }
    }

    /// Whether `key` is held.
    pub open spec fn holds(self, key: CameraKey) -> bool {
        match key {
            CameraKey::Forward => self.forward,
            CameraKey::Backward => self.backward,
            CameraKey::Left => self.left,
            CameraKey::Right => self.right,
            CameraKey::Down => self.down,
            CameraKey::Up => self.up,
        }
    }

    /// The state after `key` is pressed (`pressed`) or released.
    pub open spec fn on_key(self, key: CameraKey, pressed: bool) -> InputState {
        match key {
            CameraKey::Forward => InputState { forward: pressed, ..self },
            CameraKey::Backward => InputState { backward: pressed, ..self },
            CameraKey::Left => InputState { left: pressed, ..self },
            CameraKey::Right => InputState { right: pressed, ..self },
            CameraKey::Down => InputState { down: pressed, ..self },
            CameraKey::Up => InputState { up: pressed, ..self },
        }
    }

    /// The state after a mouse button changes; only the left button counts,
    /// and releasing it ends the drag.
    pub open spec fn on_button(self, left: bool, pressed: bool) -> InputState {
        if left {
            InputState {
                mouse_pressed: pressed,
                has_anchor: if pressed {
                    self.has_anchor
                } else {
                    false
                },
                ..self
            }
        } else {
            self
        }
    }

    /// What a cursor move asks for in this state.
    pub open spec fn cursor_action(self) -> CursorAction {
        CursorAction { rotate: self.mouse_pressed && self.has_anchor, record: self.mouse_pressed }
    }

    /// The state after the cursor moves.
    pub open spec fn on_cursor(self) -> InputState {
        if self.mouse_pressed {
            InputState { has_anchor: true, ..self }
        } else {
            self
        }
    }

    /// The camera moves of a frame: one per held key, in the order W, S, A, D, Q, E.
    pub open spec fn pending_moves(self) -> Seq<CameraKey> {
        if_held(self.forward, CameraKey::Forward) + if_held(self.backward, CameraKey::Backward)
            + if_held(self.left, CameraKey::Left) + if_held(self.right, CameraKey::Right)
            + if_held(self.down, CameraKey::Down) + if_held(self.up, CameraKey::Up)
    }

    /// Whether the frame about to be drawn reports the scene.
    pub open spec fn reports(self) -> bool {
        self.frame_count % REPORT_INTERVAL == 0
    }

    /// The state after a frame is drawn.
    pub open spec fn on_redraw(self) -> InputState {
        InputState { frame_count: (self.frame_count + 1) as u32, ..self }
    }

    /// Creates the input state of a starting application.
    pub fn new() -> (s: InputState)
        ensures
            s == InputState::initial(),
    {
        InputState {
            forward: false,
            backward: false,
            left: false,
            right: false,
            down: false,
            up: false,
            mouse_pressed: false,
            has_anchor: false,
            frame_count: 0,
        }
    }

    /// Whether `key` is held.
    pub fn is_held(&self, key: CameraKey) -> (b: bool)
        ensures
            b == self.holds(key),
    {
        match key {
            CameraKey::Forward => self.forward,
            CameraKey::Backward => self.backward,
            CameraKey::Left => self.left,
            CameraKey::Right => self.right,
            CameraKey::Down => self.down,
            CameraKey::Up => self.up,
        }
    }

    /// Tracks a camera key being pressed or released.
    pub fn key_changed(&mut self, key: CameraKey, pressed: bool)
        ensures
            *final(self) == old(self).on_key(key, pressed),
    {
        match key {
            CameraKey::Forward => self.forward = pressed,
            CameraKey::Backward => self.backward = pressed,
            CameraKey::Left => self.left = pressed,
            CameraKey::Right => self.right = pressed,
            CameraKey::Down => self.down = pressed,
            CameraKey::Up => self.up = pressed,
        }
    }

    /// Tracks a mouse button; `left` tells whether it is the left button.
    pub fn button_changed(&mut self, left: bool, pressed: bool)
        ensures
            *final(self) == old(self).on_button(left, pressed),
    {
        if left {
            self.mouse_pressed = pressed;
            if !self.mouse_pressed {
                self.has_anchor = false;
            }
        }
    }

    /// Handles a cursor move during a drag: says whether to rotate from the
    /// recorded position and whether to record the new one.
    pub fn cursor_moved(&mut self) -> (a: CursorAction)
        ensures
            a == old(self).cursor_action(),
            *final(self) == old(self).on_cursor(),
    {
        if self.mouse_pressed {
            let rotate = self.has_anchor;
            self.has_anchor = true;
            CursorAction { rotate, record: true }
        } else {
            CursorAction { rotate: false, record: false }
        }
    }

    /// Plans a frame: the camera moves for the held keys, and whether this
    /// frame reports the scene (every `REPORT_INTERVAL` frames, from the first).
    pub fn redraw(&mut self) -> (plan: FramePlan)
        requires
            old(self).frame_count < u32::MAX,
        ensures
            plan.moves@ == old(self).pending_moves(),
            plan.report == old(self).reports(),
            *final(self) == old(self).on_redraw(),
    {
        let mut moves: Vec<CameraKey> = Vec::new();
        if self.forward {
            moves.push(CameraKey::Forward);
        }
        if self.backward {
            moves.push(CameraKey::Backward);
        }
        if self.left {
            moves.push(CameraKey::Left);
        }
        if self.right {
            moves.push(CameraKey::Right);
        }
        if self.down {
            moves.push(CameraKey::Down);
        }
        if self.up {
            moves.push(CameraKey::Up);
        }
        let report = self.frame_count % REPORT_INTERVAL == 0;
        self.frame_count = self.frame_count + 1;
        FramePlan { moves, report }
    }
}

/// Releasing a key undoes pressing it.
pub proof fn lemma_release_undoes_press(s: InputState, key: CameraKey)
    ensures
        s.on_key(key, true).on_key(key, false) == s.on_key(key, false),
        !s.holds(key) ==> s.on_key(key, true).on_key(key, false) == s,
{
}

/// A key event changes only that key.
pub proof fn lemma_key_is_independent(s: InputState, key: CameraKey, other: CameraKey, pressed: bool)
    ensures
        s.on_key(key, pressed).holds(key) == pressed,
        other != key ==> s.on_key(key, pressed).holds(other) == s.holds(other),
{
}

/// A drag never jumps: after the left button is released, pressing it again
/// and moving the cursor does not rotate the camera; the next move does.
pub proof fn lemma_drag_starts_without_rotation(s: InputState)
    ensures
        ({
            let pressed = s.on_button(true, false).on_button(true, true);
            &&& !pressed.cursor_action().rotate
            &&& pressed.cursor_action().record
            &&& pressed.on_cursor().cursor_action().rotate
        }),
{
}

/// A redraw reports exactly when the number of frames drawn before it is a
/// multiple of 60, whatever that number is; so reports recur every 60 frames.
pub proof fn lemma_report_every_sixty_frames(s: InputState)
    ensures
        s.reports() <==> s.frame_count % 60 == 0,
        s.frame_count + 60 <= u32::MAX ==> (InputState {
            frame_count: (s.frame_count + 60) as u32,
            ..s
        }).reports() == s.reports(),
        s.frame_count < u32::MAX ==> s.on_redraw().frame_count == s.frame_count + 1,
{
}

/// Only the left button drags: a change of any other button leaves the input
/// state as it was, and releasing the left button ends the drag.
pub proof fn lemma_only_left_button_drags(s: InputState, pressed: bool)
    ensures
        s.on_button(false, pressed) == s,
        s.on_button(true, pressed).mouse_pressed == pressed,
        !s.on_button(true, false).has_anchor,
        !s.on_button(true, false).cursor_action().rotate,
        !s.on_button(true, false).cursor_action().record,
        !s.mouse_pressed ==> !s.on_button(false, pressed).cursor_action().record,
{
}

/// A concatenation contains exactly what its parts contain.
proof fn lemma_concat_contains(a: Seq<CameraKey>, b: Seq<CameraKey>, k: CameraKey)
    ensures
        (a + b).contains(k) <==> a.contains(k) || b.contains(k),
{
    if (a + b).contains(k) {
        let i = choose|i: int| 0 <= i < (a + b).len() && (a + b)[i] == k;
        if i < a.len() {
            assert(a[i] == k);
        } else {
            assert(b[i - a.len()] == k);
        }
    }
    if a.contains(k) {
        let i = choose|i: int| 0 <= i < a.len() && a[i] == k;
        assert((a + b)[i] == k);
    }
    if b.contains(k) {
        let i = choose|i: int| 0 <= i < b.len() && b[i] == k;
        assert((a + b)[a.len() + i] == k);
    }
}

/// A frame's moves are exactly the held keys, each at most once.
pub proof fn lemma_moves_are_held_keys(s: InputState, key: CameraKey)
    ensures
        s.pending_moves().contains(key) <==> s.holds(key),
        s.pending_moves().len() <= 6,
{
    let a = if_held(s.forward, CameraKey::Forward);
    let b = if_held(s.backward, CameraKey::Backward);
    let c = if_held(s.left, CameraKey::Left);
    let d = if_held(s.right, CameraKey::Right);
    let e = if_held(s.down, CameraKey::Down);
    let f = if_held(s.up, CameraKey::Up);
    assert(a.contains(key) <==> s.forward && key == CameraKey::Forward) by {
        if s.forward {
            assert(a[0] == CameraKey::Forward);
        }
    }
    assert(b.contains(key) <==> s.backward && key == CameraKey::Backward) by {
        if s.backward {
            assert(b[0] == CameraKey::Backward);
        }
    }
    assert(c.contains(key) <==> s.left && key == CameraKey::Left) by {
        if s.left {
            assert(c[0] == CameraKey::Left);
        }
    }
    assert(d.contains(key) <==> s.right && key == CameraKey::Right) by {
        if s.right {
            assert(d[0] == CameraKey::Right);
        }
    }
    assert(e.contains(key) <==> s.down && key == CameraKey::Down) by {
        if s.down {
            assert(e[0] == CameraKey::Down);
        }
    }
    assert(f.contains(key) <==> s.up && key == CameraKey::Up) by {
        if s.up {
            assert(f[0] == CameraKey::Up);
        }
    }
    lemma_concat_contains(a, b, key);
    lemma_concat_contains(a + b, c, key);
    lemma_concat_contains(a + b + c, d, key);
    lemma_concat_contains(a + b + c + d, e, key);
    lemma_concat_contains(a + b + c + d + e, f, key);
}

} // verus!

//! Input: which keys and mouse buttons are held, which were pressed or
//! released this frame, and the game actions they are bound to.
//!
//! The platform layer turns its window events into `InputEvent`s; the
//! state here is updated by them, turned into actions once per frame by
//! `end_frame`, and its per-frame edges are cleared by `clear_edges`.

use crate::engine::Action;
use vstd::prelude::*;

verus! {

/// A physical key: the ones the game binds by name, any other by its
/// platform code.
#[derive(Debug, Clone, Copy, PartialEq, Eq, Structural, Hash)]
pub enum Key {
    W,
    A,
    S,
    D,
    E,
    ArrowUp,
    ArrowDown,
    ArrowLeft,
    ArrowRight,
    ShiftLeft,
    Space,
    F1,
    Escape,
    Other(u32),
}

/// A mouse button.
#[derive(Debug, Clone, Copy, PartialEq, Eq, Structural, Hash)]
pub enum MouseButton {
    Left,
    Right,
    Middle,
    Back,
    Forward,
    Other(u16),
}

/// A key or button event from the window.
#[derive(Debug, Clone, Copy, PartialEq, Eq, Structural)]
pub enum InputEvent {
    KeyPressed(Key),
    KeyReleased(Key),
    ButtonPressed(MouseButton),
    ButtonReleased(MouseButton),
}

/// The elements a sequence holds, as a set.
pub open spec fn set_of<T>(s: Seq<T>) -> Set<T> {
    Set::new(|x: T| s.contains(x))
}

/// What an `InputState` records.
pub struct InputView {
    /// Keys held down now.
    pub down: Set<Key>,
    /// Keys that went down this frame.
    pub pressed: Set<Key>,
    /// Keys that came up this frame.
    pub released: Set<Key>,
    /// Mouse buttons held down now.
    pub buttons: Set<MouseButton>,
    /// Actions whose key is held (as of the last `end_frame`).
    pub actions_down: Set<Action>,
    /// Actions whose key went down this frame (as of the last `end_frame`).
    pub actions_pressed: Set<Action>,
}

/// The state after one event: a key going down is `pressed` only if it was
/// not already down (key repeat does not press it again); a key coming up
/// leaves `down` and joins `released`.
pub open spec fn after_event(v: InputView, e: InputEvent) -> InputView {
    match e {
        InputEvent::KeyPressed(k) => InputView {
            down: v.down.insert(k),
            pressed: if v.down.contains(k) { v.pressed } else { v.pressed.insert(k) },
            ..v
        },
        InputEvent::KeyReleased(k) => InputView {
            down: v.down.remove(k),
            released: v.released.insert(k),
            ..v
        },
        InputEvent::ButtonPressed(b) => InputView { buttons: v.buttons.insert(b), ..v },
        InputEvent::ButtonReleased(b) => InputView { buttons: v.buttons.remove(b), ..v },
    }
}

/// The actions bound to any of `keys`.
pub open spec fn bound_actions(bindings: Seq<(Key, Action)>, keys: Set<Key>) -> Set<Action> {
    Set::new(
        |a: Action|
            exists|i: int| 0 <= i < bindings.len() && #[trigger] bindings[i].1 == a && keys.contains(bindings[i].0),
    )
}

/// Key-to-action bindings; a key may drive several actions and an action
/// may have several keys.
#[derive(Debug, Clone)]
pub struct InputMap {
    pub bindings: Vec<(Key, Action)>,
}

impl Default for InputMap {
    /// WASD and the arrow keys move, left shift sprints, E interacts, space
    /// attacks, F1 toggles the debug overlay and Escape escapes.
    fn default() -> (m: InputMap)
        ensures
            m.bindings@ == seq![
                (Key::W, Action::MoveUp),
                (Key::ArrowUp, Action::MoveUp),
                (Key::S, Action::MoveDown),
                (Key::ArrowDown, Action::MoveDown),
                (Key::A, Action::MoveLeft),
                (Key::ArrowLeft, Action::MoveLeft),
                (Key::D, Action::MoveRight),
                (Key::ArrowRight, Action::MoveRight),
                (Key::ShiftLeft, Action::Sprint),
                (Key::E, Action::Interact),
                (Key::Space, Action::Attack),
                (Key::F1, Action::ToggleDebug),
                (Key::Escape, Action::Escape),
            ],
    {
        InputMap {
            bindings: vec![
                (Key::W, Action::MoveUp),
                (Key::ArrowUp, Action::MoveUp),
                (Key::S, Action::MoveDown),
                (Key::ArrowDown, Action::MoveDown),
                (Key::A, Action::MoveLeft),
                (Key::ArrowLeft, Action::MoveLeft),
                (Key::D, Action::MoveRight),
                (Key::ArrowRight, Action::MoveRight),
                (Key::ShiftLeft, Action::Sprint),
                (Key::E, Action::Interact),
                (Key::Space, Action::Attack),
                (Key::F1, Action::ToggleDebug),
                (Key::Escape, Action::Escape),
            ],
        }
    }
}

fn has_key(v: &Vec<Key>, k: Key) -> (b: bool)
    ensures
        b == v@.contains(k),
{
    let mut i: usize = 0;
    while i < v.len()
        invariant
            0 <= i <= v.len(),
            forall|j: int| 0 <= j < i ==> v@[j] != k,
        decreases v.len() - i,
    {
        if v[i] == k {
            return true;
        }
        i = i + 1;
    }
    false
}

/// Adds `k` unless present; says whether it was added.
fn add_key(v: &mut Vec<Key>, k: Key) -> (added: bool)
    ensures
        added == !old(v)@.contains(k),
        set_of(final(v)@) == set_of(old(v)@).insert(k),
{
    if has_key(v, k) {
        assert(set_of(v@) =~= set_of(v@).insert(k));
        false
    } else {
        let ghost before = v@;
        v.push(k);
        assert forall|x: Key| #[trigger] v@.contains(x) == (before.contains(x) || x == k) by {
            if before.contains(x) {
                let j = choose|j: int| 0 <= j < before.len() && before[j] == x;
                assert(v@[j] == x);
            }
            if x == k {
                assert(v@[before.len() as int] == k);
            }
        }
        assert(set_of(v@) =~= set_of(before).insert(k));
        true
    }
}

/// Removes every occurrence of `k`.
fn drop_key(v: &mut Vec<Key>, k: Key)
    ensures
        set_of(final(v)@) == set_of(old(v)@).remove(k),
{
    let ghost before = v@;
    let mut kept: Vec<Key> = Vec::new();
    let mut i: usize = 0;
    while i < v.len()
        invariant
            0 <= i <= v.len(),
            v@ == before,
            forall|x: Key| #[trigger] kept@.contains(x) <==> (x != k && before.take(i as int).contains(x)),
        decreases v.len() - i,
    {
        let x = v[i];
        proof {
            assert(before.take(i as int + 1) =~= before.take(i as int).push(x));
        }
        let ghost kept_before = kept@;
        if x != k {
            kept.push(x);
        }
        assert forall|y: Key| #[trigger] kept@.contains(y) <==> (y != k && before.take(i as int + 1).contains(y)) by {
            let t = before.take(i as int);
            if t.contains(y) {
                let j = choose|j: int| 0 <= j < t.len() && t[j] == y;
                assert(t.push(x)[j] == y);
            }
            if y == x {
                assert(t.push(x)[t.len() as int] == x);
            }
            if before.take(i as int + 1).contains(y) {
                let j = choose|j: int| 0 <= j < t.len() + 1 && t.push(x)[j] == y;
                if j < t.len() {
                    assert(t[j] == y);
                }
            }
            if kept@.contains(y) {
                let j = choose|j: int| 0 <= j < kept@.len() && kept@[j] == y;
                if j < kept_before.len() {
                    assert(kept_before[j] == y);
                }
            }
            if kept_before.contains(y) {
                let j = choose|j: int| 0 <= j < kept_before.len() && kept_before[j] == y;
                assert(kept@[j] == y);
            }
            if x != k && y == x {
                assert(kept@[kept_before.len() as int] == x);
            }
        }
        i = i + 1;
    }
    proof {
        assert(before.take(before.len() as int) =~= before);
    }
    *v = kept;
    assert(set_of(v@) =~= set_of(before).remove(k));
}

fn has_button(v: &Vec<MouseButton>, k: MouseButton) -> (b: bool)
    ensures
        b == v@.contains(k),
{
    let mut i: usize = 0;
    while i < v.len()
        invariant
            0 <= i <= v.len(),
            forall|j: int| 0 <= j < i ==> v@[j] != k,
        decreases v.len() - i,
    {
        if v[i] == k {
            return true;
        }
        i = i + 1;
    }
    false
}

/// Adds `k` unless present; says whether it was added.
fn add_button(v: &mut Vec<MouseButton>, k: MouseButton) -> (added: bool)
    ensures
        added == !old(v)@.contains(k),
        set_of(final(v)@) == set_of(old(v)@).insert(k),
{
    if has_button(v, k) {
        assert(set_of(v@) =~= set_of(v@).insert(k));
        false
    } else {
        let ghost before = v@;
        v.push(k);
        assert forall|x: MouseButton| #[trigger] v@.contains(x) == (before.contains(x) || x == k) by {
            if before.contains(x) {
                let j = choose|j: int| 0 <= j < before.len() && before[j] == x;
                assert(v@[j] == x);
            }
            if x == k {
                assert(v@[before.len() as int] == k);
            }
        }
        assert(set_of(v@) =~= set_of(before).insert(k));
        true
    }
}

/// Removes every occurrence of `k`.
fn drop_button(v: &mut Vec<MouseButton>, k: MouseButton)
    ensures
        set_of(final(v)@) == set_of(old(v)@).remove(k),
{
    let ghost before = v@;
    let mut kept: Vec<MouseButton> = Vec::new();
    let mut i: usize = 0;
    while i < v.len()
        invariant
            0 <= i <= v.len(),
            v@ == before,
            forall|x: MouseButton| #[trigger] kept@.contains(x) <==> (x != k && before.take(i as int).contains(x)),
        decreases v.len() - i,
    {
        let x = v[i];
        proof {
            assert(before.take(i as int + 1) =~= before.take(i as int).push(x));
        }
        let ghost kept_before = kept@;
        if x != k {
            kept.push(x);
        }
        assert forall|y: MouseButton| #[trigger] kept@.contains(y) <==> (y != k && before.take(i as int + 1).contains(y)) by {
            let t = before.take(i as int);
            if t.contains(y) {
                let j = choose|j: int| 0 <= j < t.len() && t[j] == y;
                assert(t.push(x)[j] == y);
            }
            if y == x {
                assert(t.push(x)[t.len() as int] == x);
            }
            if before.take(i as int + 1).contains(y) {
                let j = choose|j: int| 0 <= j < t.len() + 1 && t.push(x)[j] == y;
                if j < t.len() {
                    assert(t[j] == y);
                }
            }
            if kept@.contains(y) {
                let j = choose|j: int| 0 <= j < kept@.len() && kept@[j] == y;
                if j < kept_before.len() {
                    assert(kept_before[j] == y);
                }
            }
            if kept_before.contains(y) {
                let j = choose|j: int| 0 <= j < kept_before.len() && kept_before[j] == y;
                assert(kept@[j] == y);
            }
            if x != k && y == x {
                assert(kept@[kept_before.len() as int] == x);
            }
        }
        i = i + 1;
    }
    proof {
        assert(before.take(before.len() as int) =~= before);
    }
    *v = kept;
    assert(set_of(v@) =~= set_of(before).remove(k));
}

fn has_action(v: &Vec<Action>, k: Action) -> (b: bool)
    ensures
        b == v@.contains(k),
{
    let mut i: usize = 0;
    while i < v.len()
        invariant
            0 <= i <= v.len(),
            forall|j: int| 0 <= j < i ==> v@[j] != k,
        decreases v.len() - i,
    {
        if v[i] == k {
            return true;
        }
        i = i + 1;
    }
    false
}

/// Adds `k` unless present; says whether it was added.
fn add_action(v: &mut Vec<Action>, k: Action) -> (added: bool)
    ensures
        added == !old(v)@.contains(k),
        set_of(final(v)@) == set_of(old(v)@).insert(k),
{
    if has_action(v, k) {
        assert(set_of(v@) =~= set_of(v@).insert(k));
        false
    } else {
        let ghost before = v@;
        v.push(k);
        assert forall|x: Action| #[trigger] v@.contains(x) == (before.contains(x) || x == k) by {
            if before.contains(x) {
                let j = choose|j: int| 0 <= j < before.len() && before[j] == x;
                assert(v@[j] == x);
            }
            if x == k {
                assert(v@[before.len() as int] == k);
            }
        }
        assert(set_of(v@) =~= set_of(before).insert(k));
        true
    }
}

/// Keys, buttons and actions as tracked over a frame. Updated from window
/// events, read by the game systems.
#[derive(Debug, Clone)]
pub struct InputState {
    keys_down: Vec<Key>,
    keys_pressed: Vec<Key>,
    keys_released: Vec<Key>,
    mouse_buttons_down: Vec<MouseButton>,
    actions_down: Vec<Action>,
    actions_pressed: Vec<Action>,
}

/// Nothing held, pressed or released.
pub open spec fn idle() -> InputView {
    InputView {
        down: Set::empty(),
        pressed: Set::empty(),
        released: Set::empty(),
        buttons: Set::empty(),
        actions_down: Set::empty(),
        actions_pressed: Set::empty(),
    }
}

impl View for InputState {
    type V = InputView;

    closed spec fn view(&self) -> InputView {
        InputView {
            down: set_of(self.keys_down@),
            pressed: set_of(self.keys_pressed@),
            released: set_of(self.keys_released@),
            buttons: set_of(self.mouse_buttons_down@),
            actions_down: set_of(self.actions_down@),
            actions_pressed: set_of(self.actions_pressed@),
        }
    }
}

proof fn lemma_set_of_empty<T>(s: Seq<T>)
    requires
        s.len() == 0,
    ensures
        set_of(s) == Set::<T>::empty(),
{
    assert(set_of(s) =~= Set::<T>::empty());
}

impl Default for InputState {
    fn default() -> (s: InputState)
        ensures
            s@ == idle(),
    {
        InputState::new()
    }
}

impl InputState {
    pub fn new() -> (s: InputState)
        ensures
            s@ == idle(),
    {
        let s = InputState {
            keys_down: Vec::new(),
            keys_pressed: Vec::new(),
            keys_released: Vec::new(),
            mouse_buttons_down: Vec::new(),
            actions_down: Vec::new(),
            actions_pressed: Vec::new(),
        };
        proof {
            lemma_set_of_empty(s.keys_down@);
            lemma_set_of_empty(s.mouse_buttons_down@);
            lemma_set_of_empty(s.actions_down@);
        }
        s
    }

    /// Applies one key or button event.
    pub fn handle_event(&mut self, event: &InputEvent)
        ensures
            final(self)@ == after_event(old(self)@, *event),
    {
        match *event {
            InputEvent::KeyPressed(k) => {
                if add_key(&mut self.keys_down, k) {
                    add_key(&mut self.keys_pressed, k);
                }
            },
            InputEvent::KeyReleased(k) => {
                drop_key(&mut self.keys_down, k);
                add_key(&mut self.keys_released, k);
            },
            InputEvent::ButtonPressed(b) => {
                add_button(&mut self.mouse_buttons_down, b);
            },
            InputEvent::ButtonReleased(b) => {
                drop_button(&mut self.mouse_buttons_down, b);
            },
        }
    }

    /// Recomputes the actions from the keys, once all of a frame's events
    /// are in: an action is down when one of its keys is down, pressed when
    /// one of its keys was pressed this frame.
    pub fn end_frame(&mut self, map: &InputMap)
        ensures
            final(self)@ == (InputView {
                actions_down: bound_actions(map.bindings@, old(self)@.down),
                actions_pressed: bound_actions(map.bindings@, old(self)@.pressed),
                ..old(self)@
            }),
    {
        let ghost down = self@.down;
        let ghost pressed = self@.pressed;
        let ghost bindings = map.bindings@;
        self.actions_down = Vec::new();
        self.actions_pressed = Vec::new();
        proof {
            lemma_set_of_empty(self.actions_down@);
            lemma_set_of_empty(self.actions_pressed@);
            assert(bound_actions(bindings.take(0), down) =~= Set::<Action>::empty());
            assert(bound_actions(bindings.take(0), pressed) =~= Set::<Action>::empty());
        }
        let n = map.bindings.len();
        let mut i: usize = 0;
        while i < n
            invariant
                0 <= i <= n,
                n == bindings.len(),
                bindings == map.bindings@,
                set_of(self.keys_down@) == down,
                set_of(self.keys_pressed@) == pressed,
                self.keys_down == old(self).keys_down,
                self.keys_pressed == old(self).keys_pressed,
                self.keys_released == old(self).keys_released,
                self.mouse_buttons_down == old(self).mouse_buttons_down,
                set_of(self.actions_down@) == bound_actions(bindings.take(i as int), down),
                set_of(self.actions_pressed@) == bound_actions(bindings.take(i as int), pressed),
            decreases n - i,
        {
            let (code, action) = map.bindings[i];
            proof {
                lemma_bound_actions_step(bindings, i as int, down);
                lemma_bound_actions_step(bindings, i as int, pressed);
            }
            if has_key(&self.keys_down, code) {
                add_action(&mut self.actions_down, action);
            }
            if has_key(&self.keys_pressed, code) {
                add_action(&mut self.actions_pressed, action);
            }
            i = i + 1;
        }
        proof {
            assert(bindings.take(n as int) =~= bindings);
        }
    }

    /// Forgets this frame's edges: what was pressed or released, and the
    /// actions pressed. What is held stays held.
    pub fn clear_edges(&mut self)
        ensures
            final(self)@ == (InputView {
                pressed: Set::empty(),
                released: Set::empty(),
                actions_pressed: Set::empty(),
                ..old(self)@
            }),
    {
        self.keys_pressed = Vec::new();
        self.keys_released = Vec::new();
        self.actions_pressed = Vec::new();
        proof {
            lemma_set_of_empty(self.keys_pressed@);
            lemma_set_of_empty(self.actions_pressed@);
        }
    }

    pub fn key_down(&self, code: Key) -> (b: bool)
        ensures
            b == self@.down.contains(code),
    {
        has_key(&self.keys_down, code)
    }

    pub fn key_pressed(&self, code: Key) -> (b: bool)
        ensures
            b == self@.pressed.contains(code),
    {
        has_key(&self.keys_pressed, code)
    }

    pub fn action_down(&self, action: Action) -> (b: bool)
        ensures
            b == self@.actions_down.contains(action),
    {
        has_action(&self.actions_down, action)
    }

    pub fn action_pressed(&self, action: Action) -> (b: bool)
        ensures
            b == self@.actions_pressed.contains(action),
    {
        has_action(&self.actions_pressed, action)
    }

    pub fn mouse_button_down(&self, button: MouseButton) -> (b: bool)
        ensures
            b == self@.buttons.contains(button),
    {
        has_button(&self.mouse_buttons_down, button)
    }

    /// The movement direction from the held move actions, before
    /// normalising: x is right minus left, y is down minus up (screen y
    /// grows downwards), each -1, 0 or 1.
    pub fn movement_axes(&self) -> (d: (i32, i32))
        ensures
            d == (axis(self@.actions_down, Action::MoveLeft, Action::MoveRight), axis(
                self@.actions_down,
                Action::MoveUp,
                Action::MoveDown,
            )),
    {
        let mut x: i32 = 0;
        let mut y: i32 = 0;
        if self.action_down(Action::MoveLeft) {
            x = x - 1;
        }
        if self.action_down(Action::MoveRight) {
            x = x + 1;
        }
        if self.action_down(Action::MoveUp) {
            y = y - 1;
        }
        if self.action_down(Action::MoveDown) {
            y = y + 1;
        }
        (x, y)
    }
}

/// `1` if `plus` is held, minus `1` if `minus` is held.
pub open spec fn axis(actions: Set<Action>, minus: Action, plus: Action) -> i32 {
    ((if actions.contains(plus) { 1int } else { 0 }) - (if actions.contains(minus) { 1int } else { 0 })) as i32
}

/// Taking one more binding adds its action when its key is in `keys`.
proof fn lemma_bound_actions_step(bindings: Seq<(Key, Action)>, i: int, keys: Set<Key>)
    requires
        0 <= i < bindings.len(),
    ensures
        bound_actions(bindings.take(i + 1), keys) == if keys.contains(bindings[i].0) {
            bound_actions(bindings.take(i), keys).insert(bindings[i].1)
        } else {
            bound_actions(bindings.take(i), keys)
        },
{
    let before = bindings.take(i);
    let after = bindings.take(i + 1);
    assert forall|a: Action| #[trigger] bound_actions(after, keys).contains(a) == (bound_actions(before, keys).contains(a) || (keys.contains(bindings[i].0) && a == bindings[i].1)) by {
        if bound_actions(after, keys).contains(a) {
            let j = choose|j: int| 0 <= j < after.len() && #[trigger] after[j].1 == a && keys.contains(after[j].0);
            if j < i {
                assert(before[j] == after[j]);
            }
        }
        if bound_actions(before, keys).contains(a) {
            let j = choose|j: int| 0 <= j < before.len() && #[trigger] before[j].1 == a && keys.contains(before[j].0);
            assert(after[j] == before[j]);
        }
        if keys.contains(bindings[i].0) && a == bindings[i].1 {
            assert(after[i] == bindings[i]);
        }
    }
    if keys.contains(bindings[i].0) {
        assert(bound_actions(after, keys) =~= bound_actions(before, keys).insert(bindings[i].1));
    } else {
        assert(bound_actions(after, keys) =~= bound_actions(before, keys));
    }
}

/// Every key reported pressed this frame is still held or was released this
/// frame.
pub open spec fn edges_consistent(v: InputView) -> bool {
    v.pressed.subset_of(v.down.union(v.released))
}

/// A fresh input state has consistent edges.
pub proof fn lemma_idle_edges_consistent()
    ensures
        edges_consistent(idle()),
{
}

/// Every key or button event keeps the edges consistent.
pub proof fn lemma_event_keeps_edges_consistent(v: InputView, e: InputEvent)
    requires
        edges_consistent(v),
    ensures
        edges_consistent(after_event(v, e)),
{
}

/// Recomputing actions and clearing the edges keep the edges consistent.
pub proof fn lemma_frame_ops_keep_edges_consistent(v: InputView, bindings: Seq<(Key, Action)>)
    requires
        edges_consistent(v),
    ensures
        edges_consistent(InputView {
            actions_down: bound_actions(bindings, v.down),
            actions_pressed: bound_actions(bindings, v.pressed),
            ..v
        }),
        edges_consistent(InputView {
            pressed: Set::empty(),
            released: Set::empty(),
            actions_pressed: Set::empty(),
            ..v
        }),
{
}

/// A key already held is not pressed again by a repeated key-down event,
/// and nothing else changes.
pub proof fn lemma_held_key_repeat(v: InputView, k: Key)
    requires
        v.down.contains(k),
    ensures
        after_event(v, InputEvent::KeyPressed(k)) == v,
{
    assert(v.down.insert(k) =~= v.down);
}

/// Pressing and releasing a key that was up leaves the held keys as they
/// were, with the key both pressed and released this frame.
pub proof fn lemma_press_release_round_trip(v: InputView, k: Key)
    requires
        !v.down.contains(k),
    ensures
        after_event(after_event(v, InputEvent::KeyPressed(k)), InputEvent::KeyReleased(k)).down
            == v.down,
        after_event(after_event(v, InputEvent::KeyPressed(k)), InputEvent::KeyReleased(k)).pressed
            == v.pressed.insert(k),
        after_event(after_event(v, InputEvent::KeyPressed(k)), InputEvent::KeyReleased(k)).released
            == v.released.insert(k),
{
    assert(v.down.insert(k).remove(k) =~= v.down);
}

} // verus!

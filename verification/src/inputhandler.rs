use std::collections::HashMap;
use vstd::prelude::*;
use crate::globals::TILE_SIZE;

verus! {

broadcast use vstd::std_specs::hash::group_hash_axioms;

/// Whether a key or button is down or up.
#[derive(Clone, Copy, Eq, PartialEq, Debug, Structural)]
pub enum InputKey {
    Pressed,
    Released,
}

/// What is kept of a key or button: how it was last seen, and whether that
/// press has been handed out already.
#[derive(Clone, Copy, Eq, PartialEq, Debug, Structural)]
pub struct InputState {
    pub state: InputKey,
    pub served: bool,
}

impl Default for InputState {
    fn default() -> (record: InputState)
        ensures
            record == (InputState { state: InputKey::Released, served: false }),
    {
        InputState { state: InputKey::Released, served: false }
    }
}

/// One event of the platform, as far as the game reads it.
#[derive(Clone, Copy, Eq, PartialEq, Debug, Structural)]
pub enum InputEvent {
    /// A key of the keyboard, by its code, went down or up.
    Keyboard { key: u32, state: InputKey },
    /// A button of the mouse, by its code, went down or up.
    Mouse { button: u32, state: InputKey },
    /// The cursor moved to the pixel `(x, y)` of the window.
    CursorMoved { x: i32, y: i32 },
    /// Anything else.
    Other,
}

/// The key under which a keyboard key is recorded.
pub open spec fn spec_keyboard_key(code: u32) -> u64 {
    (code * 2) as u64
}

/// The key under which a mouse button is recorded.
pub open spec fn spec_mouse_key(code: u32) -> u64 {
    (code * 2 + 1) as u64
}

/// The key under which a keyboard key is recorded.
#[verifier::when_used_as_spec(spec_keyboard_key)]
pub fn keyboard_key(code: u32) -> (key: u64)
    ensures
        key == spec_keyboard_key(code),
{
    code as u64 * 2
}

/// The key under which a mouse button is recorded.
#[verifier::when_used_as_spec(spec_mouse_key)]
pub fn mouse_key(code: u32) -> (key: u64)
    ensures
        key == spec_mouse_key(code),
{
    code as u64 * 2 + 1
}

/// What an input handler holds, as plain values.
pub struct InputModel {
    /// Column and row of the tile that the cursor was last seen over.
    pub cursor: (u32, u32),
    /// The latest record of every key and button that was seen.
    pub records: Map<u64, InputState>,
}

impl InputModel {
    /// A handler that has seen nothing yet.
    pub open spec fn initial() -> InputModel {
        InputModel { cursor: (0, 0), records: Map::empty() }
    }

    /// After `key` was seen in `state`: the record is new and not handed out.
    pub open spec fn recorded(self, key: u64, state: InputKey) -> InputModel {
        InputModel {
            records: self.records.insert(key, InputState { state, served: false }),
            ..self
        }
    }

    /// Whether `key` holds a press that was not handed out yet.
    pub open spec fn is_pressed(self, key: u64) -> bool {
        &&& self.records.contains_key(key)
        &&& self.records[key].state == InputKey::Pressed
        &&& !self.records[key].served
    }

    /// After `key` was asked for: a fresh press is marked as handed out, and
    /// nothing else changes.
    pub open spec fn served(self, key: u64) -> InputModel {
        if self.is_pressed(key) {
            InputModel {
                records: self.records.insert(
                    key,
                    InputState { state: InputKey::Pressed, served: true },
                ),
                ..self
            }
        } else {
            self
        }
    }

    /// After `key` was asked for `n` times in a row.
    pub open spec fn served_times(self, key: u64, n: nat) -> InputModel
        decreases n,
    {
        if n == 0 {
            self
        } else {
            self.served_times(key, (n - 1) as nat).served(key)
        }
    }

    /// After the cursor was seen at the pixel `(x, y)`: with both coordinates
    /// positive the cursor is over the tile that holds that pixel, otherwise
    /// it stays where it was.
    pub open spec fn cursor_moved(self, x: i32, y: i32) -> InputModel {
        if x > 0 && y > 0 {
            InputModel { cursor: ((x / TILE_SIZE) as u32, (y / TILE_SIZE) as u32), ..self }
        } else {
            self
        }
    }

    /// After `event` was taken in.
    pub open spec fn updated(self, event: InputEvent) -> InputModel {
        match event {
            InputEvent::Keyboard { key, state } => self.recorded(keyboard_key(key), state),
            InputEvent::Mouse { button, state } => self.recorded(mouse_key(button), state),
            InputEvent::CursorMoved { x, y } => self.cursor_moved(x, y),
            InputEvent::Other => self,
        }
    }
}

/// A press is handed out once. After a key was seen pressed, the next question
/// about it is answered with yes, and every question after that with no,
/// however many follow: a question that was answered with no changes nothing.
/// A key that was seen released is not pressed, and one that is seen pressed
/// again after that is handed out once more.
pub proof fn lemma_press_handed_out_once(input: InputModel, key: u64)
    ensures
        input.recorded(key, InputKey::Pressed).is_pressed(key),
        !input.served(key).is_pressed(key),
        input.served(key).served(key) == input.served(key),
        !input.is_pressed(key) ==> input.served(key) == input,
        !input.recorded(key, InputKey::Released).is_pressed(key),
        input.served(key).recorded(key, InputKey::Released).recorded(
            key,
            InputKey::Pressed,
        ).is_pressed(key),
{
    assert(input.served(key).served(key).records =~= input.served(key).records);
}

/// However often a key is asked for in a row, it comes to what asking once
/// comes to: whatever was pressed is handed out by the first question, and no
/// later question finds a press.
pub proof fn lemma_asked_again(input: InputModel, key: u64, n: nat)
    requires
        n >= 1,
    ensures
        input.served_times(key, n) == input.served(key),
        !input.served_times(key, n).is_pressed(key),
    decreases n,
{
    lemma_press_handed_out_once(input, key);
    if n > 1 {
        lemma_asked_again(input, key, (n - 1) as nat);
    } else {
        assert(input.served_times(key, 0) == input);
    }
}

/// What is recorded or asked of one key leaves every other key as it was, and
/// so does a move of the cursor.
pub proof fn lemma_keys_apart(
    input: InputModel,
    key: u64,
    other: u64,
    state: InputKey,
    x: i32,
    y: i32,
)
    requires
        key != other,
    ensures
        input.recorded(other, state).is_pressed(key) == input.is_pressed(key),
        input.served(other).is_pressed(key) == input.is_pressed(key),
        input.cursor_moved(x, y).is_pressed(key) == input.is_pressed(key),
{
}

/// No two keys or buttons share a record.
pub proof fn lemma_record_keys_distinct(code: u32, other: u32)
    ensures
        keyboard_key(code) != mouse_key(other),
        keyboard_key(code) == keyboard_key(other) ==> code == other,
        mouse_key(code) == mouse_key(other) ==> code == other,
{
}

/// The cursor moves only to a pixel with both coordinates positive, and then
/// to the tile that holds that pixel: any other position leaves the handler
/// as it was. No move of the cursor touches the record of a key.
pub proof fn lemma_cursor_moves(input: InputModel, x: i32, y: i32)
    ensures
        x <= 0 || y <= 0 ==> input.cursor_moved(x, y) == input,
        x > 0 && y > 0 ==> input.cursor_moved(x, y).cursor == ((x / 100) as u32, (y / 100) as u32),
        input.cursor_moved(x, y).records == input.records,
{
}

/// Turns raw input events into presses that are each handed out once.
pub struct InputHandler {
    pub cursor_position: (u32, u32),
    mouse_hash: HashMap<u64, InputState>,
}

impl View for InputHandler {
    type V = InputModel;

    closed spec fn view(&self) -> InputModel {
        InputModel { cursor: self.cursor_position, records: self.mouse_hash@ }
    }
}

impl Clone for InputHandler {
    fn clone(&self) -> (handler: InputHandler)
        ensures
            handler@ == self@,
    {
        InputHandler {
            cursor_position: self.cursor_position,
            mouse_hash: self.mouse_hash.clone(),
        }
    }
}

impl Default for InputHandler {
    fn default() -> (handler: InputHandler)
        ensures
            handler@ == InputModel::initial(),
    {
        InputHandler::new()
    }
}

impl InputHandler {
    /// A handler that has seen nothing yet, with the cursor over the first tile.
    pub fn new() -> (handler: InputHandler)
        ensures
            handler@ == InputModel::initial(),
    {
        InputHandler { cursor_position: (0, 0), mouse_hash: HashMap::new() }
    }

    /// Column and row of the tile that the cursor was last seen over.
    pub fn cursor_position(&self) -> (position: (u32, u32))
        ensures
            position == self@.cursor,
    {
        self.cursor_position
    }

    /// Takes in a position of the cursor, in pixels of the window.
    pub fn set_cursor_position(&mut self, _cursor_position: &[i32; 2])
        ensures
            final(self)@ == old(self)@.cursor_moved(_cursor_position[0], _cursor_position[1]),
            _cursor_position[0] <= 0 || _cursor_position[1] <= 0 ==> final(self)@ == old(self)@,
    {
        let x_position: i32 = _cursor_position[0];
        let y_position: i32 = _cursor_position[1];
        if x_position > 0 && y_position > 0 {
            let x_tile: u32 = (x_position / TILE_SIZE) as u32;
            let y_tile: u32 = (y_position / TILE_SIZE) as u32;
            self.cursor_position = (x_tile, y_tile);
        }
    }

    /// Records that the mouse button `_pressed_button` is now `_current_value`.
    pub fn set_mouse_button(&mut self, _pressed_button: u32, _current_value: InputKey)
        ensures
            final(self)@ == old(self)@.recorded(mouse_key(_pressed_button), _current_value),
    {
        let new_state = InputState { state: _current_value, served: false };
        let hash_key: u64 = mouse_key(_pressed_button);
        self.mouse_hash.insert(hash_key, new_state);
    }

    /// Records that the keyboard key `_pressed_key` is now `_current_value`.
    pub fn set_keyboard_button(&mut self, _pressed_key: u32, _current_value: InputKey)
        ensures
            final(self)@ == old(self)@.recorded(keyboard_key(_pressed_key), _current_value),
    {
        let new_state = InputState { state: _current_value, served: false };
        let hash_key: u64 = keyboard_key(_pressed_key);
        self.mouse_hash.insert(hash_key, new_state);
    }

    fn is_pressed(&self, _pressed_button: u64) -> (pressed: bool)
        ensures
            pressed == self@.is_pressed(_pressed_button),
    {
        let val = self.mouse_hash.get(&_pressed_button);
        match val {
            None => false,
            Some(val) => val.state == InputKey::Pressed && !val.served,
        }
    }

    /// Whether the keyboard key `_pressed_button` was pressed and that press
    /// not handed out before. A press is handed out once.
    pub fn is_keyboard_pressed(&mut self, _pressed_button: u32) -> (pressed: bool)
        ensures
            pressed == old(self)@.is_pressed(keyboard_key(_pressed_button)),
            final(self)@ == old(self)@.served(keyboard_key(_pressed_button)),
    {
        let hash_key: u64 = keyboard_key(_pressed_button);
        self.is_pressed_and_changed(hash_key)
    }

    /// Whether the mouse button `_pressed_button` was pressed and that press
    /// not handed out before. A press is handed out once.
    pub fn is_mouse_pressed(&mut self, _pressed_button: u32) -> (pressed: bool)
        ensures
            pressed == old(self)@.is_pressed(mouse_key(_pressed_button)),
            final(self)@ == old(self)@.served(mouse_key(_pressed_button)),
    {
        let hash_key: u64 = mouse_key(_pressed_button);
        self.is_pressed_and_changed(hash_key)
    }

    /// Whether the record under `_pressed_keyboard_button` is a press that
    /// was not handed out before; if so, it is marked as handed out.
    pub fn is_pressed_and_changed(&mut self, _pressed_keyboard_button: u64) -> (pressed: bool)
        ensures
            pressed == old(self)@.is_pressed(_pressed_keyboard_button),
            final(self)@ == old(self)@.served(_pressed_keyboard_button),
    {
        if self.is_pressed(_pressed_keyboard_button) {
            let _last_state = match self.mouse_hash.remove(&_pressed_keyboard_button) {
                Some(state) => state,
                None => InputState::default(),
            };
            let new_state = InputState { state: _last_state.state, served: true };
            self.mouse_hash.insert(_pressed_keyboard_button, new_state);
            assert(self@.records =~= old(self)@.served(_pressed_keyboard_button).records);
            true
        } else {
            false
        }
    }

    /// Takes in one event of the platform.
    pub fn update(&mut self, input_event: &InputEvent)
        ensures
            final(self)@ == old(self)@.updated(*input_event),
    {
        match input_event {
            InputEvent::Keyboard { key, state } => {
                self.set_keyboard_button(*key, *state);
            },
            InputEvent::Mouse { button, state } => {
                self.set_mouse_button(*button, *state);
            },
            InputEvent::CursorMoved { x, y } => {
                let position: [i32; 2] = [*x, *y];
                self.set_cursor_position(&position);
            },
            InputEvent::Other => {},
        }
    }
}

} // verus!

//! Input ingestion and the input-state queries widgets build on.
//!
//! All input calls buffer state that the next `begin`/`end` cycle
//! consumes; calls between frames accumulate (scroll deltas sum, text
//! fragments append).

use vstd::prelude::*;

use crate::arith::{sadd, sat_add};
use crate::geometry::Vec2;
use crate::id::Id;
use crate::text_buf::TextBuf;
use crate::{Context, ModKey, ModKeyState, MouseButton, MouseState, TextSizeHandler};

verus! {

impl<F: TextSizeHandler> Context<F> {
    /// Records the pointer's absolute position.
    pub fn input_mouse_move(&mut self, pos: Vec2)
        ensures
            *final(self) == (Context { mouse_pos: pos, ..*old(self) }),
    {
        self.mouse_pos = pos;
    }

    /// Records a button press at the given position: the button is both
    /// held and freshly pressed until the frame consumes it.
    pub fn input_mouse_down(&mut self, pos: Vec2, btn: MouseButton)
        ensures
            final(self).mouse_pos == pos,
            final(self).mouse_down.spec_is_set(btn),
            final(self).mouse_pressed.spec_is_set(btn),
            forall|b: MouseButton|
                b != btn ==> final(self).mouse_down.spec_is_set(b) == old(self).mouse_down.spec_is_set(b),
            forall|b: MouseButton|
                b != btn ==> final(self).mouse_pressed.spec_is_set(b) == old(self).mouse_pressed.spec_is_set(b),
            *final(self) == (Context {
                mouse_pos: pos,
                mouse_down: final(self).mouse_down,
                mouse_pressed: final(self).mouse_pressed,
                ..*old(self)
            }),
    {
        self.input_mouse_move(pos);
        self.mouse_down.set(btn);
        self.mouse_pressed.set(btn);
    }

    /// Records a button release at the given position.
    pub fn input_mouse_up(&mut self, pos: Vec2, btn: MouseButton)
        ensures
            final(self).mouse_pos == pos,
            !final(self).mouse_down.spec_is_set(btn),
            forall|b: MouseButton|
                b != btn ==> final(self).mouse_down.spec_is_set(b) == old(self).mouse_down.spec_is_set(b),
            *final(self) == (Context {
                mouse_pos: pos,
                mouse_down: final(self).mouse_down,
                ..*old(self)
            }),
    {
        self.input_mouse_move(pos);
        self.mouse_down.unset(btn);
    }

    /// Accumulates a scroll delta; several calls within one frame add up
    /// (saturating at the coordinate range).
    pub fn input_scroll(&mut self, delta: Vec2)
        ensures
            *final(self) == (Context {
                scroll_delta: Vec2 {
                    x: sat_add(old(self).scroll_delta.x as int, delta.x as int) as i32,
                    y: sat_add(old(self).scroll_delta.y as int, delta.y as int) as i32,
                },
                ..*old(self)
            }),
    {
        self.scroll_delta = Vec2 {
            x: sadd(self.scroll_delta.x, delta.x),
            y: sadd(self.scroll_delta.y, delta.y),
        };
    }

    /// Records a key press: the key is both held and freshly pressed
    /// until the frame consumes it.
    pub fn input_key_down(&mut self, key: ModKey)
        ensures
            final(self).key_down.spec_is_set(key),
            final(self).key_pressed.spec_is_set(key),
            forall|k: ModKey|
                k != key ==> final(self).key_down.spec_is_set(k) == old(self).key_down.spec_is_set(k),
            forall|k: ModKey|
                k != key ==> final(self).key_pressed.spec_is_set(k) == old(self).key_pressed.spec_is_set(k),
            *final(self) == (Context {
                key_down: final(self).key_down,
                key_pressed: final(self).key_pressed,
                ..*old(self)
            }),
    {
        self.key_down.set(key);
        self.key_pressed.set(key);
    }

    /// Records a key release.
    pub fn input_key_up(&mut self, key: ModKey)
        ensures
            !final(self).key_down.spec_is_set(key),
            forall|k: ModKey|
                k != key ==> final(self).key_down.spec_is_set(k) == old(self).key_down.spec_is_set(k),
            *final(self) == (Context { key_down: final(self).key_down, ..*old(self) }),
    {
        self.key_down.unset(key);
    }

    /// Appends raw text input for the focused editing widget, truncating
    /// at the buffer's capacity on a character boundary; returns the
    /// number of bytes stored.
    pub fn input_text(&mut self, text: &str) -> (count: usize)
        requires
            old(self).wf(),
        ensures
            count == crate::text_buf::push_count(
                vstd::utf8::encode_utf8(text@),
                old(self).text_input.bytes().len() as int,
                crate::MAX_TEXT_STORE as int,
            ),
            final(self).text_input.bytes() == old(self).text_input.bytes()
                + vstd::utf8::encode_utf8(text@).take(count as int),
            *final(self) == (Context { text_input: final(self).text_input, ..*old(self) }),
            final(self).wf(),
    {
        self.text_input.push_str(text)
    }

    /// The pointer's current position.
    pub fn mouse_pos(&self) -> (r: Vec2)
        ensures
            r == self.mouse_pos,
    {
        self.mouse_pos
    }

    /// The pointer's position when the previous frame ended.
    pub fn last_mouse_pos(&self) -> (r: Vec2)
        ensures
            r == self.last_mouse_pos,
    {
        self.last_mouse_pos
    }

    /// The pointer movement this frame.
    pub fn mouse_delta(&self) -> (r: Vec2)
        ensures
            r == self.mouse_delta,
    {
        self.mouse_delta
    }

    /// The scroll delta accumulated for this frame.
    pub fn scroll_delta(&self) -> (r: Vec2)
        ensures
            r == self.scroll_delta,
    {
        self.scroll_delta
    }

    /// Whether any button was freshly pressed this frame.
    pub fn mouse_any_pressed(&self) -> (r: bool)
        ensures
            r == self.mouse_pressed.spec_any(),
    {
        self.mouse_pressed.left || self.mouse_pressed.right || self.mouse_pressed.middle
    }

    /// Whether any button is currently held.
    pub fn mouse_any_down(&self) -> (r: bool)
        ensures
            r == self.mouse_down.spec_any(),
    {
        self.mouse_down.left || self.mouse_down.right || self.mouse_down.middle
    }

    /// Whether the button was freshly pressed this frame.
    pub fn mouse_pressed(&self, btn: MouseButton) -> (r: bool)
        ensures
            r == self.mouse_pressed.spec_is_set(btn),
    {
        self.mouse_pressed.is_set(btn)
    }

    /// Whether the button is currently held.
    pub fn mouse_down(&self, btn: MouseButton) -> (r: bool)
        ensures
            r == self.mouse_down.spec_is_set(btn),
    {
        self.mouse_down.is_set(btn)
    }

    /// Whether the key is currently held.
    pub fn key_down(&self, key: ModKey) -> (r: bool)
        ensures
            r == self.key_down.spec_is_set(key),
    {
        self.key_down.is_set(key)
    }

    /// Whether the key was freshly pressed this frame.
    pub fn key_pressed(&self, key: ModKey) -> (r: bool)
        ensures
            r == self.key_pressed.spec_is_set(key),
    {
        self.key_pressed.is_set(key)
    }

    /// Whether the key is currently released.
    pub fn key_up(&self, key: ModKey) -> (r: bool)
        ensures
            r == !self.key_down.spec_is_set(key),
    {
        !self.key_down.is_set(key)
    }

    /// Whether the identifier holds focus.
    pub fn is_focused(&self, id: Id) -> (r: bool)
        ensures
            r == (self.focus_id == Some(id)),
    {
        match self.focus_id {
            Some(f) => f.0 == id.0,
            None => false,
        }
    }

    /// Whether the identifier is hovered.
    pub fn is_hovered(&self, id: Id) -> (r: bool)
        ensures
            r == (self.hover_id == Some(id)),
    {
        match self.hover_id {
            Some(h) => h.0 == id.0,
            None => false,
        }
    }

    /// Moves focus to the given identifier (or clears it), and marks
    /// focus as settled for this frame. At most one identifier is ever
    /// focused: focus is a single slot, not a set.
    pub fn set_focus(&mut self, id: Option<Id>)
        ensures
            *final(self) == (Context { focus_id: id, updated_focus: true, ..*old(self) }),
    {
        self.focus_id = id;
        self.updated_focus = true;
    }
}

} // verus!

//! The widget interaction state machine: hover and focus resolution.
//!
//! Every widget funnels through [`Context::update_widget`] each frame it
//! is declared. A widget hovers when the pointer sits in its rectangle,
//! no button is held, and its containing root is the topmost one under
//! the pointer. A hovered widget gains focus on a press; focus is lost on
//! a press elsewhere, or when no button is held and the widget does not
//! hold focus. Focus is a single slot — at most one identifier is focused
//! at any time, by construction.

use vstd::prelude::*;

use crate::geometry::{spec_overlaps, Rect};
use crate::id::Id;
use crate::{
    Container, ContainerOption, Context, CursorIcon, TextSizeHandler, WidgetInteraction,
};

verus! {

/// Whether the walk of the open-container stack from `k` slots downward
/// reaches the hover root before leaving the innermost root container.
pub open spec fn in_hover_root_from(
    hover_root: Option<usize>,
    stack: Seq<usize>,
    containers: Seq<Container>,
    k: int,
) -> bool
    decreases k,
{
    if k <= 0 || k > stack.len() {
        false
    } else {
        let idx = stack[k - 1] as int;
        if hover_root == Some(stack[k - 1]) {
            true
        } else if 0 <= idx < containers.len() && containers[idx].head is Some {
            // Only root containers have a head command; reaching one
            // without meeting the hover root means this widget is not in
            // it.
            false
        } else {
            in_hover_root_from(hover_root, stack, containers, k - 1)
        }
    }
}

/// Whether the innermost enclosing root container is the hover root: the
/// topmost root container under the pointer.
pub open spec fn spec_in_hover_root<F: TextSizeHandler>(c: &Context<F>) -> bool {
    c.hover_root is Some && in_hover_root_from(
        c.hover_root,
        c.container_stack@,
        c.containers@,
        c.container_stack@.len() as int,
    )
}

/// Whether the pointer counts as over a widget rectangle: inside it,
/// inside the active clip rectangle, and inside the hover root.
pub open spec fn spec_is_mouse_over<F: TextSizeHandler>(c: &Context<F>, rect: Rect) -> bool {
    &&& spec_overlaps(rect, c.mouse_pos)
    &&& c.clip_stack@.len() > 0
    &&& spec_overlaps(c.clip_stack@.last(), c.mouse_pos)
    &&& spec_in_hover_root(c)
}

/// The hover, focus, focus-settled and cursor state after one
/// [`Context::update_widget`] call, in evaluation order: the hover
/// update, the two focus-loss rules, the press-to-focus rule, then the
/// cursor hint.
pub open spec fn spec_update_widget<F: TextSizeHandler>(
    c: &Context<F>,
    id: Id,
    rect: Rect,
    it: WidgetInteraction,
) -> (Option<Id>, Option<Id>, bool, Option<CursorIcon>) {
    let focused0 = c.focus_id == Some(id);
    let updated0 = focused0 || c.updated_focus;
    if it.options.spec_is_set(ContainerOption::NoInteract) {
        (c.hover_id, c.focus_id, updated0, c.cursor_icon)
    } else {
        let over = spec_is_mouse_over(c, rect);
        let pressed = c.mouse_pressed.spec_any();
        let down = c.mouse_down.spec_any();
        let hover1 = if over && !down {
            Some(id)
        } else {
            c.hover_id
        };
        let lost1 = focused0 && pressed && !over;
        let lost2 = focused0 && !down && !it.options.spec_is_set(ContainerOption::HoldFocus);
        let focus1 = if lost1 || lost2 {
            None
        } else {
            c.focus_id
        };
        let updated1 = updated0 || lost1 || lost2;
        let gain = hover1 == Some(id) && pressed;
        let focus2 = if gain {
            Some(id)
        } else {
            focus1
        };
        let updated2 = updated1 || gain;
        let hover2 = if hover1 == Some(id) && !pressed && !over {
            None
        } else {
            hover1
        };
        let cursor = if it.cursor is Some {
            let hovered = hover2 == Some(id) && c.cursor_icon is None;
            if (focus2 == Some(id) && it.retain_cursor_focus) || hovered {
                it.cursor
            } else {
                c.cursor_icon
            }
        } else {
            c.cursor_icon
        };
        (hover2, focus2, updated2, cursor)
    }
}

impl<F: TextSizeHandler> Context<F> {
    /// Whether the innermost enclosing root container is the hover root.
    pub fn in_hover_root(&self) -> (r: bool)
        requires
            self.wf(),
        ensures
            r == spec_in_hover_root(self),
    {
        let hover_root = match self.hover_root {
            Some(h) => h,
            None => {
                return false;
            },
        };

        let mut k = self.container_stack.len();
        while k > 0
            invariant
                self.wf(),
                self.hover_root == Some(hover_root),
                k <= self.container_stack@.len(),
                in_hover_root_from(
                    self.hover_root,
                    self.container_stack@,
                    self.containers@,
                    self.container_stack@.len() as int,
                ) == in_hover_root_from(
                    self.hover_root,
                    self.container_stack@,
                    self.containers@,
                    k as int,
                ),
            decreases k,
        {
            let index = self.container_stack.get_copy(k - 1);
            if index == hover_root {
                return true;
            }
            if self.containers.get(index).head.is_some() {
                return false;
            }
            k = k - 1;
        }
        false
    }

    /// Whether the pointer counts as over the rectangle: inside it,
    /// inside the active clip rectangle, and inside the hover root.
    pub fn is_mouse_over(&self, rect: Rect) -> (r: bool)
        requires
            self.wf(),
            self.clip_stack@.len() > 0,
        ensures
            r == spec_is_mouse_over(self, rect),
    {
        rect.overlaps(self.mouse_pos) && self.clip_rect().overlaps(self.mouse_pos)
            && self.in_hover_root()
    }

    /// Resolves hover and focus for one widget, exactly as
    /// [`spec_update_widget`] states. Focus is a single slot, so at most
    /// one identifier is focused after any number of these calls; a press
    /// while the pointer is away from a focused, interactive widget takes
    /// its focus in the same frame.
    pub fn update_widget(&mut self, id: Id, rect: Rect, interact: WidgetInteraction)
        requires
            old(self).wf(),
            old(self).clip_stack@.len() > 0,
        ensures
            final(self).wf(),
            ({
                let (h, f, u, ci) = spec_update_widget(old(self), id, rect, interact);
                *final(self) == (Context {
                    hover_id: h,
                    focus_id: f,
                    updated_focus: u,
                    cursor_icon: ci,
                    ..*old(self)
                })
            }),
            old(self).focus_id == Some(id) && !interact.options.spec_is_set(
                ContainerOption::NoInteract,
            ) && old(self).mouse_pressed.spec_any() && !spec_is_mouse_over(old(self), rect) && old(
                self,
            ).hover_id != Some(id) ==> final(self).focus_id is None,
    {
        let currently_focused = self.is_focused(id);
        let mouse_over = self.is_mouse_over(rect);

        if currently_focused {
            self.updated_focus = true;
        }

        if interact.options.is_set(ContainerOption::NoInteract) {
            return ;
        }

        if mouse_over && !self.mouse_any_down() {
            self.hover_id = Some(id);
        }

        if currently_focused {
            if self.mouse_any_pressed() && !mouse_over {
                self.set_focus(None);
            }
            if !self.mouse_any_down() && interact.options.is_unset(ContainerOption::HoldFocus) {
                self.set_focus(None);
            }
        }

        if self.is_hovered(id) {
            if self.mouse_any_pressed() {
                self.set_focus(Some(id));
            } else if !mouse_over {
                self.hover_id = None;
            }
        }

        if interact.cursor.is_some() {
            // Leave the hint alone if another widget already claimed the
            // cursor this frame.
            let hovered = self.is_hovered(id) && self.cursor_icon.is_none();

            if (self.is_focused(id) && interact.retain_cursor_focus) || hovered {
                self.cursor_icon = interact.cursor;
            }
        }
    }
}

/// Focus exclusivity: focus is one optional identifier, so two focused
/// identifiers are the same identifier.
pub proof fn lemma_focus_exclusive<F: TextSizeHandler>(c: &Context<F>, a: Id, b: Id)
    requires
        c.focus_id == Some(a),
        c.focus_id == Some(b),
    ensures
        a == b,
{
}

} // verus!

//! Checkboxes: a toggle box with a label beside it.

use vstd::prelude::*;

use crate::geometry::Rect;
use crate::style::WidgetColor;
use crate::widget::{widget_frame_kept, widget_ready, Widget};
use crate::{ContainerOptions, Context, Icon, MouseButton, Response, TextSizeHandler, WidgetInteraction};

verus! {

/// A checkbox: holds the label and the current checked state; the
/// response's `change` asks the caller to flip its state.
#[derive(PartialEq, Eq, Debug)]
pub struct Checkbox {
    pub label: String,
    pub checked: bool,
}

impl Checkbox {
    /// A checkbox labelled `label` in state `checked`.
    pub fn new(label: &str, checked: bool) -> (r: Checkbox)
        ensures
            r.label@ == label@,
            r.checked == checked,
    {
        Checkbox { label: <String as vstd::string::StringExecFns>::from_str(label), checked }
    }
}

impl Widget for Checkbox {
    /// Draws the checkbox; the response reports a change when the left
    /// button was pressed this frame and the box ended up focused.
    fn draw<F: TextSizeHandler>(self, ctx: &mut Context<F>) -> (r: Response)
        ensures
            // A change is asked for exactly when the left button was
            // pressed this frame and the hover/focus resolution left the
            // checkbox focused.
            ({
                let id = crate::id::id_of_str(self.label@, old(ctx).spec_entropy());
                let (l2, row) = crate::layout::spec_layout_next(
                    old(ctx).layout_stack@.last(),
                    old(ctx).style,
                );
                let it = WidgetInteraction {
                    options: crate::spec_no_options(),
                    cursor: None,
                    retain_cursor_focus: false,
                };
                let (h, f, u, ci) = crate::interact::spec_update_widget(old(ctx), id, row, it);
                &&& r.change == (old(ctx).mouse_pressed.spec_is_set(MouseButton::Left) && f
                    == Some(id))
                &&& !r.active
                &&& !r.submit
            }),
    {
        let mut resp = Response::none();

        let id = ctx.create_id(self.label.as_str());
        let row = ctx.layout_next();
        let frame = Rect { x: row.x, y: row.y, w: row.h, h: row.h };

        ctx.update_widget(id, row, WidgetInteraction::none());

        if ctx.mouse_pressed(MouseButton::Left) && ctx.is_focused(id) {
            resp.change = true;
        }

        ctx.draw_widget_frame(id, frame, WidgetColor::Base, ContainerOptions::none());

        let shown = if resp.change {
            !self.checked
        } else {
            self.checked
        };
        if shown {
            let color = ctx.style.colors.color(WidgetColor::Text);
            ctx.draw_icon(Icon::Check, frame, color);
        }

        let text_rect = Rect {
            x: crate::arith::sadd(row.x, frame.w),
            y: row.y,
            w: crate::arith::ssub(row.w, frame.w),
            h: row.h,
        };
        ctx.draw_widget_text(self.label, text_rect, WidgetColor::Text, ContainerOptions::none());

        resp
    }
}

} // verus!

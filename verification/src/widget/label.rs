//! Labels: read-only single-line text, plus a clickable variant that
//! underlines itself while hovered.

use vstd::prelude::*;

use crate::geometry::Rect;
use crate::style::WidgetColor;
use crate::widget::{widget_frame_kept, widget_ready, HorizontalAlign, Widget};
use crate::{
    ContainerOptions, Context, CursorIcon, MouseButton, Response, TextSizeHandler,
    WidgetInteraction,
};

verus! {

/// A read-only text label.
#[derive(PartialEq, Eq, Debug)]
pub struct Label {
    pub text: String,
    pub options: ContainerOptions,
}

/// A text label that reacts to clicks and underlines itself while
/// hovered.
#[derive(PartialEq, Eq, Debug)]
pub struct ClickableLabel {
    pub text: String,
    pub options: ContainerOptions,
}

impl Label {
    /// A label showing `text`.
    pub fn new(text: &str) -> (r: Label)
        ensures
            r.text@ == text@,
            r.options == crate::spec_no_options(),
    {
        Label {
            text: <String as vstd::string::StringExecFns>::from_str(text),
            options: ContainerOptions::none(),
        }
    }

    /// Aligns the text (left is the default).
    pub fn align(self, align: HorizontalAlign) -> (r: Label)
        ensures
            r.text == self.text,
    {
        let mut options = self.options;
        match align.as_option() {
            Some(o) => options.set(o),
            None => {},
        }
        Label { options, ..self }
    }
}

impl Widget for Label {
    fn draw<F: TextSizeHandler>(self, ctx: &mut Context<F>) -> (r: Response) {
        let layout = ctx.layout_next();
        ctx.draw_widget_text(self.text, layout, WidgetColor::Text, self.options);
        Response::none()
    }
}

impl ClickableLabel {
    /// A clickable label showing `text`.
    pub fn new(text: &str) -> (r: ClickableLabel)
        ensures
            r.text@ == text@,
            r.options == crate::spec_no_options(),
    {
        ClickableLabel {
            text: <String as vstd::string::StringExecFns>::from_str(text),
            options: ContainerOptions::none(),
        }
    }

    /// Aligns the text (left is the default).
    pub fn align(self, align: HorizontalAlign) -> (r: ClickableLabel)
        ensures
            r.text == self.text,
    {
        let mut options = self.options;
        match align.as_option() {
            Some(o) => options.set(o),
            None => {},
        }
        ClickableLabel { options, ..self }
    }
}

impl Widget for ClickableLabel {
    /// Draws the label; the response reports a click exactly when the
    /// left button was pressed this frame and the label ended up focused.
    fn draw<F: TextSizeHandler>(self, ctx: &mut Context<F>) -> (r: Response)
        ensures
            ({
                let id = crate::id::id_of_str(self.text@, old(ctx).spec_entropy());
                let (l2, layout) = crate::layout::spec_layout_next(
                    old(ctx).layout_stack@.last(),
                    old(ctx).style,
                );
                let it = WidgetInteraction {
                    options: self.options,
                    cursor: Some(CursorIcon::Hand),
                    retain_cursor_focus: false,
                };
                let (h, f, u, ci) = crate::interact::spec_update_widget(old(ctx), id, layout, it);
                &&& r.submit == (old(ctx).mouse_pressed.spec_is_set(MouseButton::Left) && f
                    == Some(id))
                &&& !r.active
                &&& !r.change
            }),
    {
        let id = ctx.create_id(self.text.as_str());

        let layout = ctx.layout_next();
        ctx.update_widget(
            id,
            layout,
            WidgetInteraction::from_options(self.options).cursor(CursorIcon::Hand),
        );

        let text_rect = ctx.draw_widget_text(self.text, layout, WidgetColor::Text, self.options);

        if ctx.is_hovered(id) {
            let color = ctx.style.colors.color(WidgetColor::Text);
            ctx.draw_rect(
                Rect {
                    x: text_rect.x,
                    y: crate::arith::sadd(text_rect.y, text_rect.h),
                    w: text_rect.w,
                    h: 1,
                },
                color,
            );
        }

        let mut resp = Response::none();
        if ctx.mouse_pressed(MouseButton::Left) && ctx.is_focused(id) {
            resp.submit = true;
        }
        resp
    }
}

} // verus!

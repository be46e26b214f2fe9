//! Text boxes: single-line editing of a caller-owned text buffer, with
//! the raw primitive the numeric-edit overlay builds on.

use vstd::prelude::*;

use crate::arith::{imin, sadd, sdiv, ssub};
use crate::container::decl_keeps_io;
use crate::geometry::{Rect, Vec2};
use crate::id::Id;
use crate::style::WidgetColor;
use crate::text_buf::{ConstStr, TextBuf};
use crate::widget::{widget_frame_kept, widget_ready};
use crate::{
    ContainerOption, ContainerOptions, Context, CursorIcon, ModKey, Response, TextSizeHandler,
    WidgetInteraction, MAX_FMT,
};

verus! {

/// The raw text box: resolves interaction for `id` over `r`, and while
/// focused feeds the frame's buffered text input into `buf` (appending
/// whole characters up to its capacity), handles backspace, and submits
/// on return; then draws the buffer's content, with a caret while
/// focused.
pub fn raw<F: TextSizeHandler, T: TextBuf>(
    ctx: &mut Context<F>,
    buf: &mut T,
    id: Id,
    r: Rect,
    options: ContainerOptions,
) -> (resp: Response)
    requires
        widget_ready(old(ctx)),
        old(buf).inv(),
    ensures
        widget_frame_kept(old(ctx), final(ctx)),
        final(buf).inv(),
        final(buf).byte_capacity() == old(buf).byte_capacity(),
        // Interaction resolves with focus held while the mouse stays
        // down; while focused, the frame's buffered text input lands in
        // the buffer (whole characters, up to its capacity), backspace
        // drops the last character, and return submits and releases
        // focus. An unfocused text box edits nothing.
        ({
            let it = WidgetInteraction {
                options: options.spec_with(ContainerOption::HoldFocus, true),
                cursor: Some(CursorIcon::Text),
                retain_cursor_focus: false,
            };
            let (h, f, u, ci) = crate::interact::spec_update_widget(old(ctx), id, r, it);
            let focused = f == Some(id);
            let tb = vstd::utf8::encode_utf8(old(ctx).text_input@);
            let stored = match old(buf).byte_capacity() {
                Some(cap) => crate::text_buf::push_count(
                    tb,
                    vstd::utf8::encode_utf8(old(buf).text()).len() as int,
                    cap,
                ),
                None => tb.len() as int,
            };
            let backspace = old(ctx).key_pressed.spec_is_set(ModKey::Backspace);
            let ret = old(ctx).key_pressed.spec_is_set(ModKey::Return);
            &&& (!focused ==> final(buf).text() == old(buf).text())
            &&& (focused ==> exists|mid_text: Seq<char>|
                {
                    &&& #[trigger] vstd::utf8::encode_utf8(mid_text) == vstd::utf8::encode_utf8(
                        old(buf).text(),
                    ) + tb.take(stored)
                    &&& final(buf).text() == if backspace {
                        if mid_text.len() == 0 {
                            mid_text
                        } else {
                            mid_text.drop_last()
                        }
                    } else {
                        mid_text
                    }
                })
            &&& resp.submit == (focused && ret)
            &&& resp.change == (focused && (stored > 0 || backspace))
            &&& !resp.active
            &&& final(ctx).hover_id == h
            &&& final(ctx).focus_id == if focused && ret {
                None
            } else {
                f
            }
        }),
{
    let mut resp = Response::none();

    let mut opts_copy = options;
    opts_copy.set(ContainerOption::HoldFocus);

    ctx.update_widget(
        id,
        r,
        WidgetInteraction::from_options(opts_copy).cursor(CursorIcon::Text),
    );

    let focused = ctx.is_focused(id);
    if focused {
        // Feed this frame's buffered text input into the buffer.
        let input = <String as vstd::string::StringExecFns>::from_str(ctx.text_input.as_str());
        if buf.push_str(input.as_str()) > 0 {
            resp.change = true;
        }

        if ctx.key_pressed(ModKey::Backspace) {
            buf.pop_char();
            resp.change = true;
        }

        if ctx.key_pressed(ModKey::Return) {
            ctx.set_focus(None);
            resp.submit = true;
        }
    }

    let text = <String as vstd::string::StringExecFns>::from_str(buf.as_str());

    ctx.draw_widget_frame(id, r, WidgetColor::Base, options);

    if focused {
        let color = ctx.style.colors.color(WidgetColor::Text);
        let font = ctx.style.font;
        let textw = ctx.font_handler.text_width(font, text.as_str());
        let texth = ctx.font_handler.text_height(font);
        let padding = ctx.style.padding as i32;

        let offset = ssub(ssub(r.w, padding), sadd(textw, 1));
        let textx = sadd(r.x, imin(offset, padding));
        let texty = sadd(r.y, sdiv(ssub(r.h, texth), 2));

        ctx.push_clip_rect(r);
        ctx.draw_text(font, text, Vec2 { x: textx, y: texty }, color);
        ctx.draw_rect(Rect { x: sadd(textx, textw), y: texty, w: 1, h: texth }, color);
        ctx.pop_clip_rect();
        proof {
            assert(final(ctx).clip_stack@ =~= old(ctx).clip_stack@);
        }
    } else {
        ctx.draw_widget_text(text, r, WidgetColor::Text, options);
    }

    resp
}

impl<F: TextSizeHandler> Context<F> {
    /// A raw text box over the engine's numeric-edit buffer: the overlay
    /// a numeric widget shows while its value is edited as text. The
    /// caller parses the buffer's content on submit.
    pub fn number_textbox(&mut self, id: Id, r: Rect, options: ContainerOptions) -> (resp:
        Response)
        requires
            widget_ready(old(self)),
        ensures
            widget_frame_kept(old(self), final(self)),
    {
        let mut buf: ConstStr<MAX_FMT> = ConstStr::new();
        core::mem::swap(&mut buf, &mut self.number_edit_buf);
        proof {
            assert(self.number_edit_buf.wf());
        }
        let resp = raw(self, &mut buf, id, r, options);
        core::mem::swap(&mut buf, &mut self.number_edit_buf);
        resp
    }
}

} // verus!

//! Buttons: a clickable rectangle holding centered text or an icon.

use vstd::prelude::*;

use crate::container::decl_keeps_io;
use crate::id::Id;
use crate::style::WidgetColor;
use crate::widget::{widget_frame_kept, widget_ready, HorizontalAlign, Widget};
use crate::{
    ContainerOption, ContainerOptions, Context, CursorIcon, Icon, MouseButton, Response,
    TextSizeHandler, WidgetInteraction,
};

verus! {

/// What a button shows: a text label or one icon of the fixed glyph set.
#[derive(PartialEq, Eq, Debug)]
pub enum ButtonContent {
    Text { text: String },
    Icon { icon: Icon },
}

/// A numeric key for each icon, used to derive a stable identifier for
/// icon buttons.
pub open spec fn spec_icon_key(icon: Icon) -> u64 {
    match icon {
        Icon::Blank => 0,
        Icon::Close => 1,
        Icon::Check => 2,
        Icon::Collapsed => 3,
        Icon::Expanded => 4,
        Icon::Resize => 5,
    }
}

/// A numeric key for each icon.
pub fn icon_key(icon: Icon) -> (r: u64)
    ensures
        r == spec_icon_key(icon),
{
    match icon {
        Icon::Blank => 0,
        Icon::Close => 1,
        Icon::Check => 2,
        Icon::Collapsed => 3,
        Icon::Expanded => 4,
        Icon::Resize => 5,
    }
}

/// A button: clickable, centered by default.
#[derive(PartialEq, Eq, Debug)]
pub struct Button {
    pub content: ButtonContent,
    pub options: ContainerOptions,
    pub hand_cursor: bool,
}

impl Button {
    /// A text button.
    pub fn new(text: &str) -> (r: Button)
        ensures
            r.content == (ButtonContent::Text { text: r.content->Text_text }),
            r.content->Text_text@ == text@,
            r.options == crate::spec_no_options().spec_with(ContainerOption::AlignCenter, true),
            !r.hand_cursor,
    {
        let mut options = ContainerOptions::none();
        options.set(ContainerOption::AlignCenter);
        Button {
            content: ButtonContent::Text {
                text: <String as vstd::string::StringExecFns>::from_str(text),
            },
            options,
            hand_cursor: false,
        }
    }

    /// An icon button.
    pub fn icon(icon: Icon) -> (r: Button)
        ensures
            r.content == (ButtonContent::Icon { icon }),
            !r.hand_cursor,
    {
        let mut options = ContainerOptions::none();
        options.set(ContainerOption::AlignCenter);
        Button { content: ButtonContent::Icon { icon }, options, hand_cursor: false }
    }

    /// A button showing nothing.
    pub fn empty() -> (r: Button)
        ensures
            r.content == (ButtonContent::Icon { icon: Icon::Blank }),
            !r.hand_cursor,
    {
        Button::icon(Icon::Blank)
    }

    /// Replaces the content with a text label.
    pub fn text(self, text: &str) -> (r: Button)
        ensures
            r.content == (ButtonContent::Text { text: r.content->Text_text }),
            r.content->Text_text@ == text@,
            r.options == self.options,
            r.hand_cursor == self.hand_cursor,
    {
        Button {
            content: ButtonContent::Text {
                text: <String as vstd::string::StringExecFns>::from_str(text),
            },
            ..self
        }
    }

    /// Shows a hand cursor while the button is hovered.
    pub fn with_cursor(self) -> (r: Button)
        ensures
            r == (Button { hand_cursor: true, ..self }),
    {
        Button { hand_cursor: true, ..self }
    }

    /// Makes the button inert.
    pub fn no_interact(self) -> (r: Button)
        ensures
            r == (Button {
                options: self.options.spec_with(ContainerOption::NoInteract, true),
                ..self
            }),
    {
        let mut options = self.options;
        options.set(ContainerOption::NoInteract);
        Button { options, ..self }
    }

    /// Keeps focus while a mouse button stays down.
    pub fn hold_focus(self) -> (r: Button)
        ensures
            r == (Button {
                options: self.options.spec_with(ContainerOption::HoldFocus, true),
                ..self
            }),
    {
        let mut options = self.options;
        options.set(ContainerOption::HoldFocus);
        Button { options, ..self }
    }

    /// Suppresses the background frame.
    pub fn no_frame(self) -> (r: Button)
        ensures
            r == (Button {
                options: self.options.spec_with(ContainerOption::NoFrame, true),
                ..self
            }),
    {
        let mut options = self.options;
        options.set(ContainerOption::NoFrame);
        Button { options, ..self }
    }

    /// Aligns the content (centered is the default).
    pub fn align(self, align: HorizontalAlign) -> (r: Button)
        ensures
            r.content == self.content,
            r.hand_cursor == self.hand_cursor,
    {
        let mut options = self.options;
        match align {
            HorizontalAlign::Left => options.unset(ContainerOption::AlignCenter),
            HorizontalAlign::Center => {},
            HorizontalAlign::Right => options.set(ContainerOption::AlignRight),
        }
        Button { options, ..self }
    }
}

impl Widget for Button {
    /// Draws the button; the response reports a click when the left
    /// button was pressed this frame and the button ended up focused.
    fn draw<F: TextSizeHandler>(self, ctx: &mut Context<F>) -> (r: Response)
        ensures
            final(ctx).last_zindex == old(ctx).last_zindex,
            final(ctx).containers@ == old(ctx).containers@,
            final(ctx).root_list@ == old(ctx).root_list@,
            final(ctx).hover_root == old(ctx).hover_root,
            final(ctx).next_hover_root == old(ctx).next_hover_root,
            final(ctx).container_pool@ == old(ctx).container_pool@,
            final(ctx).mouse_pressed == old(ctx).mouse_pressed,
            crate::draw::cmds_only_appended(old(ctx), final(ctx)),
            // A click is reported exactly when the left button was
            // pressed this frame and the hover/focus resolution left the
            // button focused.
            ({
                let id = match self.content {
                    ButtonContent::Text { text } => crate::id::id_of_str(
                        text@,
                        old(ctx).spec_entropy(),
                    ),
                    ButtonContent::Icon { icon } => crate::id::id_of_u64(
                        spec_icon_key(icon),
                        old(ctx).spec_entropy(),
                    ),
                };
                let (l2, rect) = crate::layout::spec_layout_next(
                    old(ctx).layout_stack@.last(),
                    old(ctx).style,
                );
                let it = if self.hand_cursor {
                    WidgetInteraction {
                        options: self.options,
                        cursor: Some(CursorIcon::Hand),
                        retain_cursor_focus: false,
                    }
                } else {
                    WidgetInteraction {
                        options: self.options,
                        cursor: None,
                        retain_cursor_focus: false,
                    }
                };
                let (h, f, u, ci) = crate::interact::spec_update_widget(old(ctx), id, rect, it);
                &&& r.submit == (old(ctx).mouse_pressed.spec_is_set(MouseButton::Left) && f
                    == Some(id))
                &&& !r.active
                &&& !r.change
            }),
    {
        let ghost start = *ctx;
        let mut resp = Response::none();

        let id: Id = match &self.content {
            ButtonContent::Text { text } => ctx.create_id(text.as_str()),
            ButtonContent::Icon { icon } => ctx.create_id_u64(icon_key(*icon)),
        };

        let rect = ctx.layout_next();
        let interaction = if self.hand_cursor {
            WidgetInteraction::from_options(self.options).cursor(CursorIcon::Hand)
        } else {
            WidgetInteraction::from_options(self.options)
        };

        ctx.update_widget(id, rect, interaction);

        if ctx.mouse_pressed(MouseButton::Left) && ctx.is_focused(id) {
            resp.submit = true;
        }

        let ghost mid0 = *ctx;
        ctx.draw_widget_frame(id, rect, WidgetColor::Button, self.options);
        let ghost mid1 = *ctx;

        match self.content {
            ButtonContent::Text { text } => {
                ctx.draw_widget_text(text, rect, WidgetColor::Text, self.options);
            },
            ButtonContent::Icon { icon } => {
                if !matches!(icon, Icon::Blank) {
                    let color = ctx.style.colors.color(WidgetColor::Text);
                    ctx.draw_icon(icon, rect, color);
                }
            },
        }
        proof {
            assert(final(ctx).command_list@.take(mid1.command_list@.len() as int)
                =~= mid1.command_list@);
            crate::draw::lemma_appended_trans(&mid0, &mid1, final(ctx));
            assert(mid0.command_list@.take(old(ctx).command_list@.len() as int)
                =~= old(ctx).command_list@);
            crate::draw::lemma_appended_trans(old(ctx), &mid0, final(ctx));
        }

        resp
    }
}

} // verus!

//! The widget layer: the trait every widget implements, shared alignment
//! options, word-wrapped text, and the one-call widget shorthands.

pub mod button;
pub mod checkbox;
pub mod dropdown;
pub mod label;
pub mod textbox;

use vstd::prelude::*;
use vstd::string::StrSliceExecFns;

use crate::arith::sadd;
use crate::container::decl_keeps_io;
use crate::draw::{appended_non_jump, cmds_only_appended};
use crate::geometry::Vec2;
use crate::style::WidgetColor;
use crate::text_buf::TextBuf;
use crate::widget::button::Button;
use crate::widget::checkbox::Checkbox;
use crate::widget::dropdown::{Dropdown, State};
use crate::widget::label::{ClickableLabel, Label};
use crate::geometry::Rect;
use crate::{
    Command, ContainerOption, Context, Response, TextSizeHandler, CLIP_STACK_SIZE,
    CONTAINER_STACK_SIZE, ID_STACK_SIZE, LAYOUT_STACK_SIZE, ROOT_LIST_SIZE,
};

verus! {

/// What a widget declaration needs from the context: a window is open (a
/// layout and a clip are active), and the bounded stacks have the room a
/// widget — including one that opens a popup — can take.
pub open spec fn widget_ready<F: TextSizeHandler>(c: &Context<F>) -> bool {
    &&& c.wf()
    &&& c.layout_stack@.len() > 0
    &&& c.layout_stack@.len() < LAYOUT_STACK_SIZE
    &&& c.clip_stack@.len() > 0
    &&& c.clip_stack@.len() + 3 <= CLIP_STACK_SIZE
    &&& c.container_stack@.len() < CONTAINER_STACK_SIZE
    &&& c.root_list@.len() < ROOT_LIST_SIZE
    &&& c.id_stack@.len() < ID_STACK_SIZE
    &&& c.last_zindex + 4 < i64::MAX
}

/// What every widget declaration leaves intact: the stacks it used are
/// balanced again, and the context stays well formed.
pub open spec fn widget_frame_kept<F: TextSizeHandler>(a: &Context<F>, b: &Context<F>) -> bool {
    &&& b.wf()
    &&& b.container_stack@ == a.container_stack@
    &&& b.clip_stack@ == a.clip_stack@
    &&& b.id_stack@ == a.id_stack@
    &&& b.layout_stack@.len() == a.layout_stack@.len()
    &&& b.open_roots == a.open_roots
    &&& b.style == a.style
    &&& b.frame == a.frame
}

/// A widget: one value describing one declaration, drawn into a context.
pub trait Widget: Sized {
    /// Declares the widget for this frame: resolves its interaction and
    /// appends its draw commands.
    fn draw<F: TextSizeHandler>(self, ctx: &mut Context<F>) -> (r: Response)
        requires
            widget_ready(old(ctx)),
        ensures
            widget_frame_kept(old(ctx), final(ctx)),
    ;
}

/// Horizontal alignment of a widget's content.
#[derive(Clone, Copy, PartialEq, Eq, Structural, Debug)]
pub enum HorizontalAlign {
    Left,
    Right,
    Center,
}

impl HorizontalAlign {
    /// The option switch this alignment corresponds to, if any.
    pub fn as_option(self) -> (r: Option<ContainerOption>)
        ensures
            r == match self {
                HorizontalAlign::Left => None::<ContainerOption>,
                HorizontalAlign::Center => Some(ContainerOption::AlignCenter),
                HorizontalAlign::Right => Some(ContainerOption::AlignRight),
            },
    {
        match self {
            HorizontalAlign::Left => None,
            HorizontalAlign::Center => Some(ContainerOption::AlignCenter),
            HorizontalAlign::Right => Some(ContainerOption::AlignRight),
        }
    }
}

impl<F: TextSizeHandler> Context<F> {
    /// Draws one widget.
    pub fn w<W: Widget>(&mut self, widget: W) -> (r: Response)
        requires
            widget_ready(old(self)),
        ensures
            widget_frame_kept(old(self), final(self)),
    {
        widget.draw(self)
    }

    /// Word-wrapped read-only text: fills the row, breaking lines at
    /// spaces once the measured width overflows, and always at newlines.
    /// The emitted text commands carry, in order, a prefix of the input
    /// split at the line breaks — the whole input when the command
    /// buffer has room for one command per character plus the two clip
    /// brackets; only buffer exhaustion drops a tail. The lines are
    /// bracketed by a clip to the active clip rectangle.
    pub fn text(&mut self, text: &str)
        requires
            widget_ready(old(self)),
        ensures
            widget_frame_kept(old(self), final(self)),
            decl_keeps_io(old(self), final(self)),
            cmds_only_appended(old(self), final(self)),
            appended_non_jump(old(self), final(self)),
            final(self).containers@ == old(self).containers@,
            final(self).root_list@ == old(self).root_list@,
            forall|i: int|
                old(self).command_list@.len() <= i < final(self).command_list@.len() ==> (((
                #[trigger] final(self).command_list@[i]) matches Command::Clip { .. }) || (final(self).command_list@[i] matches Command::Text { .. })),
            exists|k: int|
                0 <= k <= text@.len() && crate::draw::spec_text_payload(
                    final(self).command_list@,
                    old(self).command_list@.len() as int,
                ) == text@.take(k),
            (old(self).command_list@.len() + old(self).open_roots + text@.len() + 2
                <= crate::COMMAND_LIST_SIZE) ==> crate::draw::spec_text_payload(
                final(self).command_list@,
                old(self).command_list@.len() as int,
            ) == text@,
    {
        let ghost start = *self;
        let ghost pstart = old(self).command_list@.len() as int;
        let color = self.style.colors.color(WidgetColor::Text);
        self.layout_begin_column();

        let font = self.style.font;
        let height = self.font_handler.text_height(font);
        let widths: [i32; 1] = [-1];
        self.layout_row(&widths, height);

        // Clip every line to the active clip rectangle; the consumer
        // discards whatever falls outside.
        let clip = self.clip_rect();
        self.set_clip(clip);
        proof {
            if self.command_list@.len() > pstart {
                crate::draw::lemma_payload_push(start.command_list@, Command::Clip { rect: clip }, pstart);
            }
            assert(crate::draw::spec_text_payload(self.command_list@, pstart)
                =~= text@.take(0));
        }

        let total = text.unicode_len();
        let mut start_line: usize = 0;
        let ghost mut drawn_to: int = 0;

        while start_line < total
            invariant
                self.wf(),
                total == text@.len(),
                start_line <= total,
                0 <= drawn_to <= start_line,
                self.layout_stack@.len() == old(self).layout_stack@.len() + 1,
                self.container_stack@ == old(self).container_stack@,
                self.clip_stack@ == old(self).clip_stack@,
                self.id_stack@ == old(self).id_stack@,
                self.open_roots == old(self).open_roots,
                self.style == old(self).style,
                self.containers@ == old(self).containers@,
                self.root_list@ == old(self).root_list@,
                decl_keeps_io(old(self), self),
                pstart == old(self).command_list@.len(),
                self.command_list@.len() >= pstart,
                self.command_list@.take(pstart) == old(self).command_list@,
                self.command_list@.len() <= pstart + 1 + start_line,
                forall|i: int|
                    pstart <= i < self.command_list@.len() ==> (((#[trigger] self.command_list@[i]) matches Command::Clip { .. }) || (self.command_list@[i] matches Command::Text { .. })),
                crate::draw::spec_text_payload(self.command_list@, pstart) == text@.take(
                    drawn_to,
                ),
                drawn_to == start_line || self.command_list@.len() + old(self).open_roots
                    >= crate::COMMAND_LIST_SIZE,
                (pstart + old(self).open_roots + total + 2 <= crate::COMMAND_LIST_SIZE)
                    ==> drawn_to == start_line,
            decreases total - start_line,
        {
            let rect = self.layout_next();

            // Find where this line ends: at a newline, or before the word
            // that overflows the available width.
            let mut w: i32 = 0;
            let mut word_start = start_line;
            let mut end_line = total;
            let mut i = start_line;
            let mut stop = false;
            while i < total && !stop
                invariant
                    total == text@.len(),
                    start_line < total,
                    start_line <= word_start <= i,
                    i <= total,
                    start_line < end_line <= total,
                decreases total - i, if stop { 0int } else { 1int },
            {
                let c = text.get_char(i);
                if c == ' ' || c == '\n' {
                    let word = text.substring_char(word_start, i);
                    w = sadd(w, self.font_handler.text_width(font, word));

                    if w > rect.w && word_start != start_line {
                        end_line = word_start;
                        stop = true;
                    } else {
                        let space = text.substring_char(i, i + 1);
                        w = sadd(w, self.font_handler.text_width(font, space));
                        if c == '\n' {
                            end_line = i + 1;
                            stop = true;
                        } else {
                            word_start = i + 1;
                            i = i + 1;
                        }
                    }
                } else {
                    i = i + 1;
                }
            }

            let line = text.substring_char(start_line, end_line);
            let line_text = <String as vstd::string::StringExecFns>::from_str(line);
            let ghost before = self.command_list@;
            let pushed = self.push_cmd(
                Command::Text { font, pos: Vec2 { x: rect.x, y: rect.y }, color, text: line_text },
            );
            proof {
                if pushed {
                    assert(drawn_to == start_line);
                    crate::draw::lemma_payload_push(
                        before,
                        Command::Text {
                            font,
                            pos: Vec2 { x: rect.x, y: rect.y },
                            color,
                            text: line_text,
                        },
                        pstart,
                    );
                    assert(text@.take(drawn_to) + text@.subrange(
                        start_line as int,
                        end_line as int,
                    ) =~= text@.take(end_line as int));
                    drawn_to = end_line as int;
                    assert(self.command_list@.take(pstart) =~= old(self).command_list@);
                }
            }
            start_line = end_line;
        }

        let ghost before_unclip = self.command_list@;
        self.set_clip(Rect::unclipped());
        proof {
            if self.command_list@.len() > before_unclip.len() {
                crate::draw::lemma_payload_push(
                    before_unclip,
                    Command::Clip { rect: Rect { x: 0, y: 0, w: 0x1000000, h: 0x1000000 } },
                    pstart,
                );
                assert(self.command_list@.take(pstart) =~= old(self).command_list@);
            }
            assert(crate::draw::spec_text_payload(self.command_list@, pstart) == text@.take(
                drawn_to,
            ));
        }
        self.layout_end_column();
        proof {
            assert(final(self).command_list@.take(start.command_list@.len() as int)
                =~= start.command_list@);
            assert(final(self).clip_stack@ =~= old(self).clip_stack@);
            if pstart + old(self).open_roots + text@.len() + 2 <= crate::COMMAND_LIST_SIZE {
                assert(text@.take(text@.len() as int) =~= text@);
            }
        }
    }

    /// Shorthand for a read-only [`Label`].
    pub fn label(&mut self, text: &str)
        requires
            widget_ready(old(self)),
        ensures
            widget_frame_kept(old(self), final(self)),
    {
        Label::new(text).draw(self);
    }

    /// Shorthand for a [`ClickableLabel`]; returns whether it was clicked.
    pub fn clickable_label(&mut self, text: &str) -> (r: bool)
        requires
            widget_ready(old(self)),
        ensures
            widget_frame_kept(old(self), final(self)),
    {
        ClickableLabel::new(text).draw(self).submit
    }

    /// Shorthand for a [`Button`]; returns whether it was clicked.
    pub fn button(&mut self, text: &str) -> (r: bool)
        requires
            widget_ready(old(self)),
        ensures
            widget_frame_kept(old(self), final(self)),
    {
        Button::new(text).draw(self).submit
    }

    /// Shorthand for a [`Checkbox`] bound to `checked`; returns whether
    /// the state flipped.
    pub fn checkbox(&mut self, label: &str, checked: &mut bool) -> (r: bool)
        requires
            widget_ready(old(self)),
        ensures
            widget_frame_kept(old(self), final(self)),
            r ==> *final(checked) == !*old(checked),
            !r ==> *final(checked) == *old(checked),
    {
        let resp = Checkbox::new(label, *checked).draw(self);
        if resp.change {
            *checked = !*checked;
        }
        resp.change
    }

    /// Shorthand for a text box editing `buf` under the fixed key used
    /// for a window's single text box.
    pub fn textbox<T: TextBuf>(&mut self, buf: &mut T) -> (r: Response)
        requires
            widget_ready(old(self)),
            old(buf).inv(),
        ensures
            widget_frame_kept(old(self), final(self)),
            final(buf).inv(),
    {
        let id = self.create_id("!textbox");
        let rect = self.layout_next();
        crate::widget::textbox::raw(self, buf, id, rect, crate::ContainerOptions::none())
    }

    /// Shorthand for a [`Dropdown`] over `items`; returns whether an
    /// entry was selected this frame.
    pub fn dropdown(&mut self, state: &mut State, items: &Vec<String>) -> (r: bool)
        requires
            widget_ready(old(self)),
            old(state).index matches Some(i) ==> i < items@.len(),
        ensures
            widget_frame_kept(old(self), final(self)),
            final(state).index matches Some(i) ==> i < items@.len(),
    {
        Dropdown::new().draw(self, state, items).submit
    }
}

} // verus!

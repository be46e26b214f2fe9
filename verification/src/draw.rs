//! Clipping and the draw operations that append to the command buffer.
//!
//! Within a frame the buffer is strictly append-only, and nothing here
//! ever appends a jump record: jumps come only from opening and closing
//! root containers. When the buffer's headroom (one slot per open root,
//! reserved for its closing jump) is exhausted, a draw operation drops
//! its command silently and the widget simply does not render this frame.

use vstd::prelude::*;

use crate::arith::{imax, imin, sadd, sdiv, ssub};
use crate::geometry::{spec_clip, spec_intersect, Clip, Rect, Vec2};
use crate::id::Id;
use crate::style::{Color, FontId, WidgetColor};
use crate::{
    Command, Container, ContainerOption, ContainerOptions, Context, Icon, TextSizeHandler,
    CLIP_STACK_SIZE, COMMAND_LIST_SIZE,
};

verus! {

/// `b`'s command buffer extends `a`'s: nothing below the old length
/// changed.
pub open spec fn cmds_only_appended<F: TextSizeHandler>(a: &Context<F>, b: &Context<F>) -> bool {
    &&& b.command_list@.len() >= a.command_list@.len()
    &&& b.command_list@.take(a.command_list@.len() as int) == a.command_list@
}

/// Every command `b` appended beyond `a`'s length is a draw command,
/// never a jump.
pub open spec fn appended_non_jump<F: TextSizeHandler>(a: &Context<F>, b: &Context<F>) -> bool {
    forall|i: int|
        a.command_list@.len() <= i < b.command_list@.len() ==> !((
        #[trigger] b.command_list@[i]) matches Command::Jump { .. })
}


/// The concatenated text carried by the commands from `from` onward.
pub open spec fn spec_text_payload(cmds: Seq<Command>, from: int) -> Seq<char>
    decreases cmds.len() - from,
{
    if from < 0 || from >= cmds.len() {
        Seq::empty()
    } else {
        (match cmds[from] {
            Command::Text { text, .. } => text@,
            _ => Seq::empty(),
        }) + spec_text_payload(cmds, from + 1)
    }
}

/// A run without text commands carries no text.
pub proof fn lemma_payload_no_text(cmds: Seq<Command>, from: int)
    requires
        forall|i: int| from <= i < cmds.len() ==> !((#[trigger] cmds[i]) matches Command::Text { .. }),
    ensures
        spec_text_payload(cmds, from) == Seq::<char>::empty(),
    decreases cmds.len() - from,
{
    if 0 <= from < cmds.len() {
        lemma_payload_no_text(cmds, from + 1);
        assert(spec_text_payload(cmds, from) =~= Seq::<char>::empty());
    }
}

/// A run whose only text command (if any) carries `t` carries `t` as a
/// whole or nothing.
pub proof fn lemma_payload_all_or_nothing(cmds: Seq<Command>, from: int, t: Seq<char>)
    requires
        0 <= from,
        forall|i: int|
            from <= i < cmds.len() ==> match (#[trigger] cmds[i]) {
                Command::Text { text, .. } => text@ == t,
                _ => true,
            },
        forall|i: int, j: int|
            (from <= i < j < cmds.len() && ((#[trigger] cmds[i]) matches Command::Text { .. }))
                ==> !((#[trigger] cmds[j]) matches Command::Text { .. }),
    ensures
        spec_text_payload(cmds, from) == t || spec_text_payload(cmds, from) == Seq::<char>::empty(),
    decreases cmds.len() - from,
{
    if from < cmds.len() {
        if cmds[from] is Text {
            lemma_payload_no_text(cmds, from + 1);
            assert(spec_text_payload(cmds, from) =~= t);
        } else {
            lemma_payload_all_or_nothing(cmds, from + 1, t);
            if spec_text_payload(cmds, from + 1) == t {
                assert(spec_text_payload(cmds, from) =~= t);
            } else {
                assert(spec_text_payload(cmds, from) =~= Seq::<char>::empty());
            }
        }
    }
}

/// Appending one command extends the carried text by that command's
/// payload.
pub proof fn lemma_payload_push(a: Seq<Command>, x: Command, from: int)
    requires
        0 <= from <= a.len(),
    ensures
        spec_text_payload(a.push(x), from) == spec_text_payload(a, from) + (match x {
            Command::Text { text, .. } => text@,
            _ => Seq::<char>::empty(),
        }),
    decreases a.len() - from,
{
    let contribution = match x {
        Command::Text { text, .. } => text@,
        _ => Seq::<char>::empty(),
    };
    if from == a.len() {
        assert(spec_text_payload(a.push(x), from + 1) =~= Seq::<char>::empty());
        assert(spec_text_payload(a.push(x), from) =~= spec_text_payload(a, from) + contribution);
    } else {
        lemma_payload_push(a, x, from + 1);
        assert(a.push(x)[from] == a[from]);
        assert(spec_text_payload(a.push(x), from) =~= spec_text_payload(a, from) + contribution);
    }
}

/// The color slot a widget frame is filled with: the base slot shifted
/// to its focus variant while focused, its hover variant while hovered.
pub open spec fn spec_shifted_color(base: WidgetColor, focused: bool, hovered: bool) -> WidgetColor {
    if focused {
        if base == WidgetColor::Button {
            WidgetColor::ButtonFocus
        } else {
            WidgetColor::BaseFocus
        }
    } else if hovered {
        if base == WidgetColor::Button {
            WidgetColor::ButtonHover
        } else {
            WidgetColor::BaseHover
        }
    } else {
        base
    }
}

impl<F: TextSizeHandler> Context<F> {
    /// Appends a command when the buffer has headroom beyond the slots
    /// reserved for open roots' closing jumps; otherwise drops it.
    pub(crate) fn push_cmd(&mut self, cmd: Command) -> (pushed: bool)
        requires
            old(self).wf(),
        ensures
            final(self).wf(),
            *final(self) == (Context { command_list: final(self).command_list, ..*old(self) }),
            pushed == (old(self).command_list@.len() + old(self).open_roots < COMMAND_LIST_SIZE),
            pushed ==> final(self).command_list@ == old(self).command_list@.push(cmd),
            !pushed ==> final(self).command_list@ == old(self).command_list@,
    {
        if self.command_list.len() < COMMAND_LIST_SIZE - self.open_roots {
            self.command_list.push(cmd);
            true
        } else {
            false
        }
    }

    /// Classifies a rectangle against the active clip rectangle; with no
    /// clip active, nothing is clipped.
    pub fn check_clip(&self, rect: Rect) -> (c: Clip)
        ensures
            c == if self.clip_stack@.len() == 0 {
                Clip::Unclipped
            } else {
                spec_clip(self.clip_stack@.last(), rect)
            },
    {
        match self.clip_stack.last() {
            Some(last) => last.clip(rect),
            None => Clip::Unclipped,
        }
    }

    /// The active clip rectangle; a container must be open so one exists.
    pub fn clip_rect(&self) -> (r: Rect)
        requires
            self.clip_stack@.len() > 0,
        ensures
            r == self.clip_stack@.last(),
    {
        self.clip_stack.last_copy()
    }

    /// Pushes the intersection of `rect` with the active clip rectangle,
    /// so nested clips only ever narrow.
    pub fn push_clip_rect(&mut self, rect: Rect)
        requires
            old(self).wf(),
            old(self).clip_stack@.len() > 0,
            old(self).clip_stack@.len() < CLIP_STACK_SIZE,
        ensures
            final(self).wf(),
            *final(self) == (Context { clip_stack: final(self).clip_stack, ..*old(self) }),
            final(self).clip_stack@ == old(self).clip_stack@.push(
                spec_intersect(rect, old(self).clip_stack@.last()),
            ),
    {
        let last = self.clip_rect();
        self.clip_stack.push(rect.intersect(last));
    }

    /// Pops the active clip rectangle.
    pub fn pop_clip_rect(&mut self) -> (r: Option<Rect>)
        requires
            old(self).wf(),
        ensures
            final(self).wf(),
            *final(self) == (Context { clip_stack: final(self).clip_stack, ..*old(self) }),
            old(self).clip_stack@.len() == 0 ==> r is None && final(self).clip_stack@ == old(self).clip_stack@,
            old(self).clip_stack@.len() > 0 ==> r == Some(old(self).clip_stack@.last()) && final(self).clip_stack@ == old(self).clip_stack@.drop_last(),
    {
        self.clip_stack.pop()
    }

    /// Appends a clip command telling the consumer to clip what follows.
    pub fn set_clip(&mut self, rect: Rect)
        requires
            old(self).wf(),
        ensures
            final(self).wf(),
            *final(self) == (Context { command_list: final(self).command_list, ..*old(self) }),
            old(self).command_list@.len() + old(self).open_roots < COMMAND_LIST_SIZE ==> final(self).command_list@ == old(self).command_list@.push(Command::Clip { rect }),
            old(self).command_list@.len() + old(self).open_roots >= COMMAND_LIST_SIZE ==> final(self).command_list@ == old(self).command_list@,
    {
        self.push_cmd(Command::Clip { rect });
    }

    /// Appends a fill-rectangle command for the part of `rect` inside
    /// the active clip rectangle, when any of it is visible.
    pub fn draw_rect(&mut self, rect: Rect, color: Color)
        requires
            old(self).wf(),
            old(self).clip_stack@.len() > 0,
        ensures
            final(self).wf(),
            *final(self) == (Context { command_list: final(self).command_list, ..*old(self) }),
            ({
                let clipped = spec_intersect(rect, old(self).clip_stack@.last());
                if clipped.w > 0 && clipped.h > 0 && old(self).command_list@.len() + old(self).open_roots < COMMAND_LIST_SIZE {
                    final(self).command_list@ == old(self).command_list@.push(
                        Command::Rect { rect: clipped, color },
                    )
                } else if clipped.w > 0 && clipped.h > 0 {
                    final(self).command_list@ == old(self).command_list@
                } else {
                    final(self).command_list@ == old(self).command_list@
                }
            }),
            cmds_only_appended(old(self), final(self)),
            appended_non_jump(old(self), final(self)),
    {
        let clip = self.clip_rect();
        let clipped = rect.intersect(clip);
        if clipped.w > 0 && clipped.h > 0 {
            self.push_cmd(Command::Rect { rect: clipped, color });
        }
        proof {
            assert(final(self).command_list@.take(old(self).command_list@.len() as int)
                =~= old(self).command_list@);
        }
    }

    /// Draws the one-pixel outline of `r` as four thin rectangles.
    pub fn draw_box(&mut self, r: Rect, color: Color)
        requires
            old(self).wf(),
            old(self).clip_stack@.len() > 0,
        ensures
            final(self).wf(),
            *final(self) == (Context { command_list: final(self).command_list, ..*old(self) }),
            cmds_only_appended(old(self), final(self)),
            appended_non_jump(old(self), final(self)),
            // Only fills in the given color are appended.
            forall|i: int|
                old(self).command_list@.len() <= i < final(self).command_list@.len() ==> match (
                #[trigger] final(self).command_list@[i]) {
                    Command::Rect { color: c, .. } => c == color,
                    _ => false,
                },
    {
        let ghost mid0 = *self;
        self.draw_rect(Rect { x: sadd(r.x, 1), y: r.y, w: ssub(r.w, 2), h: 1 }, color);
        let ghost mid1 = *self;
        self.draw_rect(
            Rect { x: sadd(r.x, 1), y: sadd(r.y, ssub(r.h, 1)), w: ssub(r.w, 2), h: 1 },
            color,
        );
        let ghost mid2 = *self;
        self.draw_rect(Rect { x: r.x, y: r.y, w: 1, h: r.h }, color);
        let ghost mid3 = *self;
        self.draw_rect(Rect { x: sadd(r.x, ssub(r.w, 1)), y: r.y, w: 1, h: r.h }, color);
        proof {
            lemma_appended_trans(&mid0, &mid1, &mid2);
            lemma_appended_trans(&mid0, &mid2, &mid3);
            lemma_appended_trans(&mid0, &mid3, final(self));
            let lcmds = final(self).command_list@;
            let l0 = mid0.command_list@.len() as int;
            let l1 = mid1.command_list@.len() as int;
            let l2 = mid2.command_list@.len() as int;
            let l3 = mid3.command_list@.len() as int;
            assert forall|i: int| l0 <= i < lcmds.len() implies match (#[trigger] lcmds[i]) {
                Command::Rect { color: c, .. } => c == color,
                _ => false,
            } by {
                if i < l1 {
                    assert(lcmds[i] == lcmds.take(l3)[i]);
                    assert(mid3.command_list@[i] == mid3.command_list@.take(l2)[i]);
                    assert(mid2.command_list@[i] == mid2.command_list@.take(l1)[i]);
                } else if i < l2 {
                    assert(lcmds[i] == lcmds.take(l3)[i]);
                    assert(mid3.command_list@[i] == mid3.command_list@.take(l2)[i]);
                } else if i < l3 {
                    assert(lcmds[i] == lcmds.take(l3)[i]);
                }
            }
        }
    }

    /// Appends a draw-text command at `pos`, clipped against the active
    /// clip rectangle: fully hidden text is skipped, partially visible
    /// text is bracketed by clip commands.
    pub fn draw_text(&mut self, font: FontId, text: String, pos: Vec2, color: Color)
        requires
            old(self).wf(),
        ensures
            final(self).wf(),
            *final(self) == (Context { command_list: final(self).command_list, ..*old(self) }),
            cmds_only_appended(old(self), final(self)),
            appended_non_jump(old(self), final(self)),
            // Only clip brackets and the text itself are appended, and
            // the text lands whole or not at all (not at all when the
            // measured rectangle is fully clipped away, or the buffer has
            // no headroom).
            forall|i: int|
                old(self).command_list@.len() <= i < final(self).command_list@.len() ==> (((
                #[trigger] final(self).command_list@[i]) matches Command::Clip { .. }) || (final(self).command_list@[i] matches Command::Text { .. })),
            spec_text_payload(final(self).command_list@, old(self).command_list@.len() as int)
                == text@ || spec_text_payload(
                final(self).command_list@,
                old(self).command_list@.len() as int,
            ) == Seq::<char>::empty(),
    {
        let width = self.font_handler.text_width(font, text.as_str());
        let height = self.font_handler.text_height(font);
        let rect = Rect { x: pos.x, y: pos.y, w: width, h: height };

        let clip = self.check_clip(rect);
        let ghost start = *self;
        match clip {
            Clip::All => {
                proof {
                    assert(self.command_list@.take(self.command_list@.len() as int)
                        =~= self.command_list@);
                    lemma_payload_no_text(self.command_list@, self.command_list@.len() as int);
                }
                return ;
            },
            Clip::Part => {
                let c = self.clip_rect();
                self.set_clip(c);
            },
            Clip::Unclipped => {},
        }
        proof {
            assert(self.command_list@.take(start.command_list@.len() as int)
                =~= start.command_list@);
        }
        let ghost mid1 = *self;
        self.push_cmd(Command::Text { font, pos, color, text });
        proof {
            assert(self.command_list@.take(mid1.command_list@.len() as int)
                =~= mid1.command_list@);
        }
        let ghost mid2 = *self;

        if !matches!(clip, Clip::Unclipped) {
            self.set_clip(Rect::unclipped());
        }
        proof {
            assert(final(self).command_list@.take(mid2.command_list@.len() as int)
                =~= mid2.command_list@);
            lemma_appended_trans(&start, &mid1, &mid2);
            lemma_appended_trans(&start, &mid2, final(self));
            let lcmds = final(self).command_list@;
            let lo = start.command_list@.len() as int;
            let m1 = mid1.command_list@.len() as int;
            let m2 = mid2.command_list@.len() as int;
            assert forall|i: int| lo <= i < lcmds.len() implies (((#[trigger] lcmds[i])
                matches Command::Clip { .. }) || (lcmds[i] matches Command::Text { .. })) by {
                if i < m1 {
                    assert(lcmds[i] == lcmds.take(m2)[i]);
                    assert(mid2.command_list@[i] == mid2.command_list@.take(m1)[i]);
                } else if i < m2 {
                    assert(lcmds[i] == lcmds.take(m2)[i]);
                }
            }
            assert forall|i: int, j: int|
                (lo <= i < j < lcmds.len() && ((#[trigger] lcmds[i]) matches Command::Text {
                    ..
                })) implies !((#[trigger] lcmds[j]) matches Command::Text { .. }) by {
                if i < m1 {
                    assert(lcmds[i] == lcmds.take(m2)[i]);
                    assert(mid2.command_list@[i] == mid2.command_list@.take(m1)[i]);
                    assert(false);
                } else if j >= m2 {
                } else if i >= m2 {
                    assert(false);
                } else {
                    assert(lcmds[j] == lcmds.take(m2)[j]);
                    if j < m1 {
                        assert(mid2.command_list@[j] == mid2.command_list@.take(m1)[j]);
                        assert(false);
                    }
                }
            }
            assert forall|i: int| lo <= i < lcmds.len() implies match (#[trigger] lcmds[i]) {
                Command::Text { text: t, .. } => t@ == text@,
                _ => true,
            } by {
                if i < m1 {
                    assert(lcmds[i] == lcmds.take(m2)[i]);
                    assert(mid2.command_list@[i] == mid2.command_list@.take(m1)[i]);
                } else if i < m2 {
                    assert(lcmds[i] == lcmds.take(m2)[i]);
                }
            }
            lemma_payload_all_or_nothing(lcmds, lo, text@);
        }
    }

    /// Appends a draw-icon command, clipped like text.
    pub fn draw_icon(&mut self, id: Icon, rect: Rect, color: Color)
        requires
            old(self).wf(),
        ensures
            final(self).wf(),
            *final(self) == (Context { command_list: final(self).command_list, ..*old(self) }),
            cmds_only_appended(old(self), final(self)),
            appended_non_jump(old(self), final(self)),
            // Only clip brackets and this icon are appended.
            forall|i: int|
                old(self).command_list@.len() <= i < final(self).command_list@.len() ==> (((
                #[trigger] final(self).command_list@[i]) matches Command::Clip { .. }) || final(self).command_list@[i] == (Command::Icon { id, rect, color })),
    {
        let clip = self.check_clip(rect);
        let ghost start = *self;
        match clip {
            Clip::All => {
                proof {
                    assert(self.command_list@.take(self.command_list@.len() as int)
                        =~= self.command_list@);
                }
                return ;
            },
            Clip::Part => {
                let c = self.clip_rect();
                self.set_clip(c);
            },
            Clip::Unclipped => {},
        }
        proof {
            assert(self.command_list@.take(start.command_list@.len() as int)
                =~= start.command_list@);
        }
        let ghost mid1 = *self;
        self.push_cmd(Command::Icon { id, rect, color });
        proof {
            assert(self.command_list@.take(mid1.command_list@.len() as int)
                =~= mid1.command_list@);
        }
        let ghost mid2 = *self;

        if !matches!(clip, Clip::Unclipped) {
            self.set_clip(Rect::unclipped());
        }
        proof {
            assert(final(self).command_list@.take(mid2.command_list@.len() as int)
                =~= mid2.command_list@);
            lemma_appended_trans(&start, &mid1, &mid2);
            lemma_appended_trans(&start, &mid2, final(self));
            let lcmds = final(self).command_list@;
            let lo = start.command_list@.len() as int;
            let m1 = mid1.command_list@.len() as int;
            let m2 = mid2.command_list@.len() as int;
            assert forall|i: int| lo <= i < lcmds.len() implies (((#[trigger] lcmds[i])
                matches Command::Clip { .. }) || lcmds[i] == (Command::Icon { id, rect, color }))
                by {
                if i < m1 {
                    assert(lcmds[i] == lcmds.take(m2)[i]);
                    assert(mid2.command_list@[i] == mid2.command_list@.take(m1)[i]);
                } else if i < m2 {
                    assert(lcmds[i] == lcmds.take(m2)[i]);
                }
            }
        }
    }

    /// Draws a widget's background frame in the color slot shifted by its
    /// hover and focus state, unless the options suppress frames. The
    /// base color slot must be one of the two that carry hover and focus
    /// variants.
    pub fn draw_widget_frame(
        &mut self,
        id: Id,
        rect: Rect,
        color_id: WidgetColor,
        options: ContainerOptions,
    )
        requires
            old(self).wf(),
            old(self).clip_stack@.len() > 0,
            color_id == WidgetColor::Button || color_id == WidgetColor::Base,
        ensures
            final(self).wf(),
            *final(self) == (Context { command_list: final(self).command_list, ..*old(self) }),
            cmds_only_appended(old(self), final(self)),
            appended_non_jump(old(self), final(self)),
            // Frames can be switched off entirely; otherwise only fills
            // in the focus/hover-shifted slot color or the border color
            // are appended, and the shifted fill leads when visible.
            options.spec_is_set(ContainerOption::NoFrame) ==> final(self).command_list@ == old(self).command_list@,
            ({
                let shifted = spec_shifted_color(
                    color_id,
                    old(self).focus_id == Some(id),
                    old(self).hover_id == Some(id),
                );
                &&& (!options.spec_is_set(ContainerOption::NoFrame) ==> forall|i: int|
                    old(self).command_list@.len() <= i < final(self).command_list@.len()
                        ==> match (#[trigger] final(self).command_list@[i]) {
                        Command::Rect { color: c, .. } => c == old(self).style.colors.spec_color(
                            shifted,
                        ) || c == old(self).style.colors.spec_color(WidgetColor::Border),
                        _ => false,
                    })
                &&& ({
                    let clipped = spec_intersect(rect, old(self).clip_stack@.last());
                    (!options.spec_is_set(ContainerOption::NoFrame) && clipped.w > 0 && clipped.h
                        > 0 && old(self).command_list@.len() + old(self).open_roots
                        < COMMAND_LIST_SIZE) ==> final(self).command_list@.len() > old(self).command_list@.len() && final(self).command_list@[old(self).command_list@.len() as int] == (Command::Rect {
                        rect: clipped,
                        color: old(self).style.colors.spec_color(shifted),
                    })
                })
            }),
    {
        if options.is_set(ContainerOption::NoFrame) {
            proof {
                assert(self.command_list@.take(self.command_list@.len() as int)
                    =~= self.command_list@);
            }
            return ;
        }

        let shifted: WidgetColor = if self.is_focused(id) {
            if matches!(color_id, WidgetColor::Button) {
                WidgetColor::ButtonFocus
            } else {
                WidgetColor::BaseFocus
            }
        } else if self.is_hovered(id) {
            if matches!(color_id, WidgetColor::Button) {
                WidgetColor::ButtonHover
            } else {
                WidgetColor::BaseHover
            }
        } else {
            color_id
        };

        draw_frame(self, rect, shifted);
    }

    /// Draws a widget's text inside `rect`, aligned per the options and
    /// clipped to the rectangle, and returns the rectangle the measured
    /// text occupies, clipping taken into account.
    pub fn draw_widget_text(
        &mut self,
        text: String,
        rect: Rect,
        color_id: WidgetColor,
        options: ContainerOptions,
    ) -> (r: Rect)
        requires
            old(self).wf(),
            old(self).clip_stack@.len() > 0,
            old(self).clip_stack@.len() < CLIP_STACK_SIZE,
        ensures
            final(self).wf(),
            *final(self) == (Context {
                command_list: final(self).command_list,
                clip_stack: final(self).clip_stack,
                ..*old(self)
            }),
            final(self).clip_stack@ == old(self).clip_stack@,
            cmds_only_appended(old(self), final(self)),
            appended_non_jump(old(self), final(self)),
            // Only clip brackets and the text itself are appended, whole
            // or not at all.
            forall|i: int|
                old(self).command_list@.len() <= i < final(self).command_list@.len() ==> (((
                #[trigger] final(self).command_list@[i]) matches Command::Clip { .. }) || (final(self).command_list@[i] matches Command::Text { .. })),
            spec_text_payload(final(self).command_list@, old(self).command_list@.len() as int)
                == text@ || spec_text_payload(
                final(self).command_list@,
                old(self).command_list@.len() as int,
            ) == Seq::<char>::empty(),
            r.x >= rect.x,
            r.y >= rect.y,
            r.w <= rect.w,
            r.h <= rect.h,
    {
        let font = self.style.font;
        let width = self.font_handler.text_width(font, text.as_str());
        let height = self.font_handler.text_height(font);
        let padding = self.style.padding as i32;

        let ghost start = *self;
        self.push_clip_rect(rect);

        let pos_y = sadd(rect.y, sdiv(ssub(rect.h, height), 2));
        let pos_x = if options.is_set(ContainerOption::AlignCenter) {
            sadd(rect.x, sdiv(ssub(rect.w, width), 2))
        } else if options.is_set(ContainerOption::AlignRight) {
            ssub(sadd(rect.x, rect.w), sadd(width, padding))
        } else {
            sadd(rect.x, padding)
        };
        let pos = Vec2 { x: pos_x, y: pos_y };

        let color = self.style.colors.color(color_id);
        let ghost mid1 = *self;
        self.draw_text(font, text, pos, color);
        let ghost mid2 = *self;
        self.pop_clip_rect();

        proof {
            assert(mid1.command_list@.take(start.command_list@.len() as int)
                =~= start.command_list@);
            assert(final(self).command_list@.take(mid2.command_list@.len() as int)
                =~= mid2.command_list@);
            lemma_appended_trans(&start, &mid1, &mid2);
            lemma_appended_trans(&start, &mid2, final(self));
            assert(final(self).clip_stack@ =~= old(self).clip_stack@);
        }

        Rect {
            x: imax(rect.x, pos.x),
            y: imax(rect.y, pos.y),
            w: imin(width, rect.w),
            h: imin(height, rect.h),
        }
    }

}

/// Appending twice is appending: the only-appended and non-jump
/// relations compose.
pub proof fn lemma_appended_trans<F: TextSizeHandler>(
    a: &Context<F>,
    b: &Context<F>,
    c: &Context<F>,
)
    requires
        cmds_only_appended(a, b),
        appended_non_jump(a, b),
        cmds_only_appended(b, c),
        appended_non_jump(b, c),
    ensures
        cmds_only_appended(a, c),
        appended_non_jump(a, c),
{
    assert(c.command_list@.take(a.command_list@.len() as int) =~= a.command_list@);
    assert forall|i: int|
        a.command_list@.len() <= i < c.command_list@.len() implies !((
    #[trigger] c.command_list@[i]) matches Command::Jump { .. }) by {
        if i < b.command_list@.len() {
            assert(b.command_list@[i] == c.command_list@.take(b.command_list@.len() as int)[i]);
        }
    }
}

/// The default frame painter: fills the rectangle with the slot's color
/// and, for ordinary widget slots, outlines it with the border color
/// when the border is not fully transparent.
pub fn draw_frame<F: TextSizeHandler>(ctx: &mut Context<F>, rect: Rect, color_id: WidgetColor)
    requires
        old(ctx).wf(),
        old(ctx).clip_stack@.len() > 0,
    ensures
        final(ctx).wf(),
        *final(ctx) == (Context { command_list: final(ctx).command_list, ..*old(ctx) }),
        cmds_only_appended(old(ctx), final(ctx)),
        appended_non_jump(old(ctx), final(ctx)),
        // Only fills in the slot's color or the border color are
        // appended; when the clipped rectangle is visible and the buffer
        // has headroom, the first of them is that fill.
        forall|i: int|
            old(ctx).command_list@.len() <= i < final(ctx).command_list@.len() ==> match (
            #[trigger] final(ctx).command_list@[i]) {
                Command::Rect { color: c, .. } => c == old(ctx).style.colors.spec_color(color_id)
                    || c == old(ctx).style.colors.spec_color(WidgetColor::Border),
                _ => false,
            },
        ({
            let clipped = spec_intersect(rect, old(ctx).clip_stack@.last());
            (clipped.w > 0 && clipped.h > 0 && old(ctx).command_list@.len() + old(ctx).open_roots
                < COMMAND_LIST_SIZE) ==> final(ctx).command_list@.len() > old(ctx).command_list@.len() && final(ctx).command_list@[old(ctx).command_list@.len() as int] == (Command::Rect {
                rect: clipped,
                color: old(ctx).style.colors.spec_color(color_id),
            })
        }),
{
    let fill = ctx.style.colors.color(color_id);
    ctx.draw_rect(rect, fill);
    let ghost mid = *ctx;

    if matches!(
        color_id,
        WidgetColor::ScrollBase | WidgetColor::ScrollThumb | WidgetColor::TitleBackground
    ) {
        return ;
    }

    let border = ctx.style.colors.color(WidgetColor::Border);
    if border.a != 0 {
        ctx.draw_box(rect.expand(1), border);
        proof {
            lemma_appended_trans(old(ctx), &mid, final(ctx));
            let lo = old(ctx).command_list@.len() as int;
            let m = mid.command_list@.len() as int;
            assert forall|i: int| lo <= i < ctx.command_list@.len() implies match (
            #[trigger] ctx.command_list@[i]) {
                Command::Rect { color: c, .. } => c == old(ctx).style.colors.spec_color(color_id)
                    || c == old(ctx).style.colors.spec_color(WidgetColor::Border),
                _ => false,
            } by {
                if i < m {
                    assert(ctx.command_list@[i] == ctx.command_list@.take(m)[i]);
                }
            }
            if ctx.command_list@.len() > lo && m > lo {
                assert(ctx.command_list@[lo] == ctx.command_list@.take(m)[lo]);
            }
        }
    }
}

} // verus!

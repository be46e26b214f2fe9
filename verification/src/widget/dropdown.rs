//! Dropdowns: a button that opens a popup listing entries to pick from.

use vstd::prelude::*;

use crate::arith::{imin, sadd, smul};
use crate::geometry::{Rect, Vec2};
use crate::style::WidgetColor;
use crate::widget::button::Button;
use crate::widget::{widget_frame_kept, widget_ready, HorizontalAlign, Widget};
use crate::{
    Container, ContainerOption, ContainerOptions, Context, MouseButton, Response,
    TextSizeHandler, WidgetInteraction,
};

verus! {

/// A dropdown's persistent state: whether its list is open, and which
/// entry is selected.
#[derive(Clone, Copy, PartialEq, Eq, Structural, Debug)]
pub struct State {
    pub is_open: bool,
    pub index: Option<usize>,
}

impl State {
    /// Closed, with nothing selected.
    pub fn new() -> (r: State)
        ensures
            r == (State { is_open: false, index: None::<usize> }),
    {
        State { is_open: false, index: None }
    }

    /// Closed, with the given entry selected.
    pub fn with_selection(selected: usize) -> (r: State)
        ensures
            r == (State { is_open: false, index: Some(selected) }),
    {
        State { is_open: false, index: Some(selected) }
    }

    /// Flips the open flag.
    pub fn toggle(&mut self)
        ensures
            *final(self) == (State { is_open: !old(self).is_open, ..*old(self) }),
    {
        self.is_open = !self.is_open;
    }
}

/// A dropdown's configuration: the body button, the placeholder shown
/// while nothing is selected, how many entries are visible at once, and
/// the entries' alignment.
#[derive(PartialEq, Eq, Debug)]
pub struct Dropdown {
    pub placeholder: Option<String>,
    pub always_show_placeholder: bool,
    pub body: Button,
    pub content_options: ContainerOptions,
    pub visible_items: u8,
}

impl Dropdown {
    /// A dropdown with default configuration: three visible entries, no
    /// placeholder.
    pub fn new() -> (r: Dropdown)
        ensures
            r.placeholder is None,
            r.visible_items == 3,
    {
        Dropdown {
            placeholder: None,
            always_show_placeholder: false,
            body: Button::empty(),
            content_options: ContainerOptions::none(),
            visible_items: 3,
        }
    }

    /// The text shown while no entry is selected; `always_show` shows it
    /// even over a selection.
    pub fn placeholder_text(self, text: &str, always_show: bool) -> (r: Dropdown)
        ensures
            r.placeholder matches Some(p) && p@ == text@,
            r.always_show_placeholder == always_show,
    {
        Dropdown {
            placeholder: Some(<String as vstd::string::StringExecFns>::from_str(text)),
            always_show_placeholder: always_show,
            ..self
        }
    }

    /// How many entries are visible at once (capped at the entry count).
    pub fn visible_items(self, count: u8) -> (r: Dropdown)
        ensures
            r.visible_items == count,
    {
        Dropdown { visible_items: count, ..self }
    }

    /// Aligns the entries' text.
    pub fn content_align(self, align: HorizontalAlign) -> (r: Dropdown)
        ensures
            r.placeholder == self.placeholder,
            r.visible_items == self.visible_items,
    {
        let mut content_options = self.content_options;
        match align {
            HorizontalAlign::Left => {},
            HorizontalAlign::Center => content_options.set(ContainerOption::AlignCenter),
            HorizontalAlign::Right => content_options.set(ContainerOption::AlignRight),
        }
        Dropdown { content_options, ..self }
    }

    /// Makes the dropdown inert.
    pub fn no_interact(self) -> (r: Dropdown)
        ensures
            r.placeholder == self.placeholder,
            r.visible_items == self.visible_items,
    {
        Dropdown { body: self.body.no_interact(), ..self }
    }

    /// Draws the dropdown: the body button toggles the popup; while
    /// open, the popup lists the entries, and clicking one selects it and
    /// closes the popup. Reports a selection through `submit`.
    #[verifier::rlimit(100)]
    pub fn draw<F: TextSizeHandler>(
        self,
        ctx: &mut Context<F>,
        state: &mut State,
        items: &Vec<String>,
    ) -> (resp: Response)
        requires
            widget_ready(old(ctx)),
            old(state).index matches Some(i) ==> i < items@.len(),
        ensures
            widget_frame_kept(old(ctx), final(ctx)),
            final(state).index matches Some(i) ==> i < items@.len(),
            // A selection is reported only on a left press, lands on a
            // valid entry, and closes the list; a frame that changes
            // nothing reports no change.
            resp.submit ==> old(ctx).mouse_pressed.spec_is_set(MouseButton::Left) && (final(state).index matches Some(i) && i < items@.len()) && !final(state).is_open,
            !resp.change ==> *final(state) == *old(state),
            final(state).is_open != old(state).is_open ==> resp.change,
    {
        let show_placeholder = match (&self.placeholder, &state.index) {
            (Some(_), _) if self.always_show_placeholder => true,
            (Some(_), None) => true,
            _ => false,
        };
        let label: String = if show_placeholder {
            match self.placeholder {
                Some(p) => p,
                None => String::new(),
            }
        } else {
            match state.index {
                Some(index) => {
                    let s: &String = &items[index];
                    <String as vstd::string::StringExecFns>::from_str(s.as_str())
                },
                None => String::new(),
            }
        };

        let btn_resp = self.body.text(label.as_str()).draw(ctx);
        let mut resp = Response::none();

        if btn_resp.submit {
            state.toggle();
            resp.active = state.is_open;
            resp.change = true;
        }

        if !state.is_open {
            return resp;
        }

        let id = ctx.create_id("!dropdown");
        let cnt_idx = match ctx.get_container(id, ContainerOptions::none()) {
            Some(i) => i,
            None => {
                return resp;
            },
        };

        let last = ctx.last_rect;
        let count = imin(self.visible_items as i32, items.len() as i32);
        let rect = Rect {
            x: last.x,
            y: sadd(last.y, last.h),
            w: last.w,
            h: smul(last.h, count),
        };

        if btn_resp.submit {
            ctx.bring_to_front(cnt_idx);

            // Adopt the popup as the hover root so it is not closed by
            // the click that opened it.
            ctx.hover_root = Some(cnt_idx);
            ctx.next_hover_root = Some(cnt_idx);

            let mut c = ctx.container(cnt_idx);
            c.open = true;
            c.rect = rect;
            c.body = rect;
            c.scroll = Vec2 { x: 0, y: 0 };
            ctx.set_container(cnt_idx, c);
        }

        let mut options = ContainerOptions::none();
        options.set(ContainerOption::Popup);
        options.set(ContainerOption::NoResize);
        options.set(ContainerOption::NoTitle);

        let padding = self_style_padding(ctx);
        set_style_padding(ctx, 0);

        proof {
            reveal_strlit("!dropdown");
        }
        let ghost before_window = *ctx;
        if ctx.begin_window("!dropdown", rect, options) {
            proof {
                assert(ctx.container_stack@.len() == old(ctx).container_stack@.len() + 1);
                assert(ctx.clip_stack@.len() == old(ctx).clip_stack@.len() + 2);
                assert(ctx.layout_stack@.len() == old(ctx).layout_stack@.len() + 1);
                assert(ctx.id_stack@.len() == old(ctx).id_stack@.len() + 1);
                assert(ctx.container_stack@.drop_last() =~= old(ctx).container_stack@);
                assert(ctx.clip_stack@.drop_last().drop_last() =~= old(ctx).clip_stack@);
                assert(ctx.id_stack@.drop_last() =~= old(ctx).id_stack@);
            }
            set_style_padding(ctx, padding);
            let widths: [i32; 1] = [-1];
            ctx.layout_row(&widths, 0);

            let spacing = self_style_spacing(ctx);
            set_style_spacing(ctx, 0);
            let ghost style0 = ctx.style;

            let n = items.len();
            let mut i: usize = 0;
            while i < n
                invariant
                    n == items@.len(),
                    i <= n,
                    ctx.wf(),
                    ctx.style == style0,
                    ctx.frame == old(ctx).frame,
                    state.index matches Some(ix) ==> ix < items@.len(),
                    ctx.layout_stack@.len() > 0,
                    ctx.clip_stack@.len() > 0,
                    ctx.clip_stack@.len() < crate::CLIP_STACK_SIZE,
                    ctx.container_stack@.len() == old(ctx).container_stack@.len() + 1,
                    ctx.clip_stack@.len() == old(ctx).clip_stack@.len() + 2,
                    ctx.layout_stack@.len() == old(ctx).layout_stack@.len() + 1,
                    ctx.id_stack@.len() == old(ctx).id_stack@.len() + 1,
                    ctx.open_roots == old(ctx).open_roots + 1,
                    ctx.container_stack@.drop_last() == old(ctx).container_stack@,
                    ctx.clip_stack@.drop_last().drop_last() == old(ctx).clip_stack@,
                    ctx.id_stack@.drop_last() == old(ctx).id_stack@,
                    ctx.container_stack@.last() < crate::CONTAINER_POOL_SIZE,
                    state.is_open,
                    state.index matches Some(ix2) ==> ix2 < items@.len(),
                    resp.submit ==> old(ctx).mouse_pressed.spec_is_set(MouseButton::Left) && (state.index matches Some(ix3) && ix3 < items@.len()),
                    (!resp.change && !resp.submit) ==> *state == *old(state),
                    ctx.mouse_pressed == old(ctx).mouse_pressed,
                    ctx.containers@[ctx.container_stack@.last() as int].head is Some,
                    (ctx.containers@[ctx.container_stack@.last() as int].head->Some_0 as int)
                        < ctx.command_list@.len(),
                    (ctx.command_list@[ctx.containers@[ctx.container_stack@.last() as int].head->Some_0 as int]
                        matches crate::Command::Jump { .. }),
                decreases n - i,
            {
                let entry: &String = &items[i];
                let ghost prev = *ctx;
                if dropdown_entry(ctx, i, entry.as_str(), self.content_options) {
                    state.index = Some(i);
                    resp.submit = true;
                }
                proof {
                    let h = prev.containers@[prev.container_stack@.last() as int].head->Some_0
                        as int;
                    assert(ctx.command_list@[h] == ctx.command_list@.take(
                        prev.command_list@.len() as int,
                    )[h]);
                }
                i = i + 1;
            }

            set_style_spacing(ctx, spacing);
            ctx.end_window();
            proof {
                assert(ctx.container_stack@ =~= old(ctx).container_stack@);
                assert(ctx.clip_stack@ =~= old(ctx).clip_stack@);
                assert(ctx.id_stack@ =~= old(ctx).id_stack@);
            }
        } else {
            set_style_padding(ctx, padding);
        }

        // Close on a selection or on a click landing elsewhere.
        let open_now = ctx.container(cnt_idx).open;
        if resp.submit || !open_now {
            let mut c = ctx.container(cnt_idx);
            c.open = false;
            ctx.set_container(cnt_idx, c);
            state.toggle();

            resp.change = true;
            resp.active = false;
        }

        resp
    }
}

/// One entry row of an open dropdown; reports a click on it.
fn dropdown_entry<F: TextSizeHandler>(
    ctx: &mut Context<F>,
    index: usize,
    text: &str,
    options: ContainerOptions,
) -> (clicked: bool)
    requires
        old(ctx).wf(),
        old(ctx).layout_stack@.len() > 0,
        old(ctx).clip_stack@.len() > 0,
        old(ctx).clip_stack@.len() < crate::CLIP_STACK_SIZE,
    ensures
        final(ctx).wf(),
        final(ctx).container_stack@ == old(ctx).container_stack@,
        final(ctx).clip_stack@ == old(ctx).clip_stack@,
        final(ctx).id_stack@ == old(ctx).id_stack@,
        final(ctx).layout_stack@.len() == old(ctx).layout_stack@.len(),
        final(ctx).open_roots == old(ctx).open_roots,
        final(ctx).root_list@ == old(ctx).root_list@,
        final(ctx).containers@ == old(ctx).containers@,
        final(ctx).style == old(ctx).style,
        final(ctx).frame == old(ctx).frame,
        final(ctx).mouse_pressed == old(ctx).mouse_pressed,
        crate::draw::cmds_only_appended(old(ctx), final(ctx)),
        crate::draw::appended_non_jump(old(ctx), final(ctx)),
        // A click on the entry happens only on a left press.
        clicked ==> old(ctx).mouse_pressed.spec_is_set(MouseButton::Left),
{
    let id = ctx.create_id_u64(index as u64);

    let rect = ctx.layout_next();
    ctx.update_widget(id, rect, WidgetInteraction::none());

    let clicked = ctx.mouse_pressed(MouseButton::Left) && ctx.is_focused(id);

    let color_id = if ctx.is_hovered(id) {
        WidgetColor::BaseHover
    } else {
        WidgetColor::WindowBackground
    };

    let color = ctx.style.colors.color(color_id);
    let ghost mid0 = *ctx;
    ctx.draw_rect(rect, color);
    let ghost mid1 = *ctx;
    let text_owned = <String as vstd::string::StringExecFns>::from_str(text);
    ctx.draw_widget_text(text_owned, rect, WidgetColor::Text, options);
    proof {
        assert(mid0.command_list@.take(old(ctx).command_list@.len() as int)
            =~= old(ctx).command_list@);
        crate::draw::lemma_appended_trans(old(ctx), &mid0, &mid1);
        crate::draw::lemma_appended_trans(old(ctx), &mid1, final(ctx));
    }

    clicked
}

/// Reads the style padding (a helper keeping borrows simple).
fn self_style_padding<F: TextSizeHandler>(ctx: &Context<F>) -> (r: u16)
    ensures
        r == ctx.style.padding,
{
    ctx.style.padding
}

/// Reads the style spacing.
fn self_style_spacing<F: TextSizeHandler>(ctx: &Context<F>) -> (r: u16)
    ensures
        r == ctx.style.spacing,
{
    ctx.style.spacing
}

/// Writes the style padding.
fn set_style_padding<F: TextSizeHandler>(ctx: &mut Context<F>, v: u16)
    ensures
        *final(ctx) == (Context {
            style: crate::style::Style { padding: v, ..old(ctx).style },
            ..*old(ctx)
        }),
{
    ctx.style.padding = v;
}

/// Writes the style spacing.
fn set_style_spacing<F: TextSizeHandler>(ctx: &mut Context<F>, v: u16)
    ensures
        *final(ctx) == (Context {
            style: crate::style::Style { spacing: v, ..old(ctx).style },
            ..*old(ctx)
        }),
{
    ctx.style.spacing = v;
}

} // verus!

//! Windows, panels and headers: the container declarations an
//! application issues each frame.
//!
//! A window is a root container: it owns a contiguous run of draw
//! commands bracketed by jump records and participates in z-ordering. A
//! panel is nested inside a window's layout. A header (and the treenode
//! built on it) keeps its expanded state in the treenode pool: presence
//! in the pool means expanded.

use vstd::prelude::*;

use crate::arith::{imax, sadd, ssub};
use crate::container::{
    cmds_extended, decl_keeps_io, spec_container_available, spec_first_pool_match,
};
use crate::draw::{appended_non_jump, cmds_only_appended, draw_frame};
use crate::geometry::{Rect, Vec2};
use crate::id::Id;
use crate::style::WidgetColor;
use crate::{
    Command, Container, ContainerOption, ContainerOptions, Context, CursorIcon, Icon, MouseButton,
    PoolItem, TextSizeHandler, WidgetInteraction, CLIP_STACK_SIZE, COMMAND_LIST_SIZE,
    CONTAINER_POOL_SIZE, CONTAINER_STACK_SIZE, ID_STACK_SIZE, LAYOUT_STACK_SIZE, MAX_WIDTHS,
    ROOT_LIST_SIZE,
};

verus! {

impl<F: TextSizeHandler> Context<F> {
    /// Opens a window with the given title; `rect` places it the first
    /// time it appears, and its own remembered rectangle afterwards.
    /// Returns whether the window is open this frame: the caller declares
    /// its contents and must close it with [`Context::end_window`]
    /// exactly when this returns true.
    ///
    /// An established window keeps its rectangle across frames: with no
    /// mouse interaction and no auto-sizing, no container's established
    /// rectangle changes.
    #[verifier::rlimit(100)]
    pub fn begin_window(&mut self, title: &str, rect: Rect, options: ContainerOptions) -> (opened:
        bool)
        requires
            old(self).wf(),
            title@.len() > 0,
            old(self).container_stack@.len() < CONTAINER_STACK_SIZE,
            old(self).root_list@.len() < ROOT_LIST_SIZE,
            old(self).clip_stack@.len() + 2 <= CLIP_STACK_SIZE,
            old(self).id_stack@.len() < ID_STACK_SIZE,
            old(self).layout_stack@.len() < LAYOUT_STACK_SIZE,
            old(self).last_zindex < i64::MAX,
        ensures
            final(self).wf(),
            decl_keeps_io(old(self), final(self)),
            // The window opens exactly when the command buffer has room
            // for its two bracketing jumps and the pool yields an open
            // container for the title: a mapped identity must be open,
            // an unmapped one needs an evictable slot (and no dormancy
            // request).
            opened == ({
                let tid = old(self).spec_id_of(title@);
                &&& old(self).command_list@.len() + old(self).open_roots + 2
                    <= COMMAND_LIST_SIZE
                &&& spec_container_available(
                    old(self).container_pool@,
                    old(self).frame,
                    tid,
                    options,
                )
                &&& (forall|i: int|
                    #[trigger] spec_first_pool_match(old(self).container_pool@, tid, i)
                        ==> old(self).containers@[i].open)
            }),
            !opened ==> *final(self) == (Context {
                container_pool: final(self).container_pool,
                last_id: final(self).last_id,
                ..*old(self)
            }),
            opened ==> ({
                let cnt = final(self).container_stack@.last();
                &&& final(self).container_stack@ == old(self).container_stack@.push(cnt)
                &&& cnt < CONTAINER_POOL_SIZE
                &&& final(self).root_list@ == old(self).root_list@.push(cnt)
                &&& final(self).open_roots == old(self).open_roots + 1
                &&& final(self).id_stack@ == old(self).id_stack@.push(
                    old(self).spec_id_of(title@),
                )
                &&& final(self).layout_stack@.len() == old(self).layout_stack@.len() + 1
                &&& final(self).layout_stack@.take(old(self).layout_stack@.len() as int) == old(self).layout_stack@
                &&& final(self).clip_stack@.len() == old(self).clip_stack@.len() + 2
                &&& final(self).clip_stack@.take(old(self).clip_stack@.len() as int) == old(self).clip_stack@
                &&& final(self).command_list@.len() > old(self).command_list@.len()
                &&& final(self).command_list@.take(old(self).command_list@.len() as int) == old(self).command_list@
                &&& (final(self).command_list@[old(self).command_list@.len() as int]
                    matches Command::Jump { .. })
                &&& (forall|i: int|
                    old(self).command_list@.len() < i < final(self).command_list@.len()
                        ==> !((#[trigger] final(self).command_list@[i]) matches Command::Jump {
                        ..
                    }))
                &&& final(self).containers@[cnt as int].head == Some(
                    old(self).command_list@.len() as usize,
                )
            }),
            // Container persistence: without mouse interaction or
            // auto-sizing, every established rectangle survives.
            (!old(self).mouse_down.spec_any() && !old(self).mouse_pressed.spec_any()
                && !options.spec_is_set(ContainerOption::AutoSize)) ==> forall|j: int|
                0 <= j < CONTAINER_POOL_SIZE ==> (#[trigger] final(self).containers@[j].rect
                    == old(self).containers@[j].rect || old(self).containers@[j].rect.w == 0
                    || old(self).container_pool@[j].id != old(self).spec_id_of(title@)),
    {
        if COMMAND_LIST_SIZE - self.command_list.len() < self.open_roots + 2 {
            // No room for this window's bracketing jumps: it simply does
            // not render this frame.
            return false;
        }

        let id = self.create_id(title);
        let cnt_idx = match self.get_container(id, options) {
            Some(i) => i,
            None => {
                return false;
            },
        };
        let ghost s_a = *self;

        if !self.containers.get(cnt_idx).open {
            return false;
        }

        self.id_stack.push(id);

        if self.containers.get(cnt_idx).rect.w == 0 {
            let mut c = self.containers.get_copy(cnt_idx);
            c.rect = rect;
            self.containers.set(cnt_idx, c);
        }
        let ghost s_b = *self;

        self.begin_root_container(cnt_idx);
        let ghost g0 = *self;
        let body = self.window_chrome(cnt_idx, title, options);
        let ghost g1 = *self;
        self.window_finish(cnt_idx, body, options);
        proof {
            let oldlen = old(self).command_list@.len() as int;
            let g0len = g0.command_list@.len() as int;
            let g1len = g1.command_list@.len() as int;
            assert(g0.command_list@ == old(self).command_list@.push(
                Command::Jump { target: 0 },
            ));
            assert(g0len == oldlen + 1);
            assert(g1.command_list@.take(g0len) == g0.command_list@);
            assert(final(self).command_list@.take(g1len) == g1.command_list@);
            assert forall|i: int| 0 <= i < g0len implies final(self).command_list@[i]
                == g0.command_list@[i] by {
                assert(g1.command_list@[i] == g1.command_list@.take(g0len)[i]);
                assert(final(self).command_list@[i] == final(self).command_list@.take(g1len)[i]);
            }
            assert forall|i: int| 0 <= i < oldlen implies final(self).command_list@.take(
                oldlen,
            )[i] == old(self).command_list@[i] by {
                assert(final(self).command_list@[i] == g0.command_list@[i]);
                assert(g0.command_list@[i] == old(self).command_list@[i]);
            }
            assert(final(self).command_list@.take(oldlen) =~= old(self).command_list@);
            assert(final(self).command_list@[oldlen] == g0.command_list@[oldlen]);
            assert forall|i: int|
                oldlen < i < final(self).command_list@.len() implies !((
            #[trigger] final(self).command_list@[i]) matches Command::Jump { .. }) by {
                if i < g0len {
                    assert(final(self).command_list@[i] == g0.command_list@[i]);
                    assert(false);
                } else if i < g1len {
                    assert(final(self).command_list@[i] == final(self).command_list@.take(
                        g1len,
                    )[i]);
                }
            }
            assert(final(self).container_stack@ =~= old(self).container_stack@.push(
                final(self).container_stack@.last(),
            ));
            assert(final(self).layout_stack@.take(old(self).layout_stack@.len() as int)
                =~= old(self).layout_stack@);
            assert(final(self).clip_stack@.take(old(self).clip_stack@.len() as int)
                =~= old(self).clip_stack@);
            let tid = old(self).spec_id_of(title@);
            if !old(self).mouse_down.spec_any() && !old(self).mouse_pressed.spec_any()
                && !options.spec_is_set(ContainerOption::AutoSize) {
                assert forall|j: int| 0 <= j < CONTAINER_POOL_SIZE implies (#[trigger] final(self).containers@[j].rect == old(self).containers@[j].rect || old(self).containers@[j].rect.w == 0 || old(self).container_pool@[j].id != tid) by {
                    if old(self).container_pool@[j].id == tid {
                        assert(id == tid);
                        assert(s_a.containers@[j] == old(self).containers@[j]);
                        if j != cnt_idx as int {
                            assert(final(self).containers@[j] == old(self).containers@[j]);
                        } else {
                            if old(self).containers@[j].rect.w != 0 {
                                assert(s_b.containers@[j].rect == old(self).containers@[j].rect);
                                assert(g0.containers@[j].rect == old(self).containers@[j].rect);
                                assert(g1.containers@[j].rect == old(self).containers@[j].rect);
                            }
                        }
                    }
                }
            }
        }
        true
    }

    /// Draws a window's chrome — background, title bar with optional
    /// close box, resize handle — resolving their interaction, and
    /// returns the body left for content.
    #[verifier::rlimit(100)]
    pub(crate) fn window_chrome(&mut self, cnt_idx: usize, title: &str, options: ContainerOptions)
        -> (body: Rect)
        requires
            old(self).wf(),
            cnt_idx < CONTAINER_POOL_SIZE,
            old(self).clip_stack@.len() > 0,
            old(self).clip_stack@.len() < CLIP_STACK_SIZE,
        ensures
            final(self).wf(),
            decl_keeps_io(old(self), final(self)),
            cmds_only_appended(old(self), final(self)),
            appended_non_jump(old(self), final(self)),
            final(self).containers@.len() == old(self).containers@.len(),
            forall|j: int|
                0 <= j < old(self).containers@.len() && j != cnt_idx as int ==> final(self).containers@[j] == old(self).containers@[j],
            final(self).containers@[cnt_idx as int] == (Container {
                rect: final(self).containers@[cnt_idx as int].rect,
                open: final(self).containers@[cnt_idx as int].open,
                ..old(self).containers@[cnt_idx as int]
            }),
            (!old(self).mouse_down.spec_any() && !old(self).mouse_pressed.spec_any()) ==> final(self).containers@[cnt_idx as int].rect == old(self).containers@[cnt_idx as int].rect,
            final(self).clip_stack@ == old(self).clip_stack@,
            final(self).container_stack@ == old(self).container_stack@,
            final(self).root_list@ == old(self).root_list@,
            final(self).id_stack@ == old(self).id_stack@,
            final(self).layout_stack@ == old(self).layout_stack@,
            final(self).open_roots == old(self).open_roots,
            final(self).last_zindex == old(self).last_zindex,
            final(self).next_hover_root == old(self).next_hover_root,
            final(self).scroll_target == old(self).scroll_target,
    {
        let ghost start = *self;
        let rect = self.containers.get_copy(cnt_idx).rect;
        let mut body = rect;

        if options.is_unset(ContainerOption::NoFrame) {
            draw_frame(self, rect, WidgetColor::WindowBackground);
        }
        let ghost mid0 = *self;
        proof {
            assert(mid0.command_list@.take(start.command_list@.len() as int)
                =~= start.command_list@);
        }

        if options.is_unset(ContainerOption::NoTitle) {
            body = self.window_title_bar(cnt_idx, title, options, rect, body);
        }
        let ghost mid4 = *self;
        proof {
            assert(mid4.command_list@.take(mid0.command_list@.len() as int)
                =~= mid0.command_list@);
            crate::draw::lemma_appended_trans(&start, &mid0, &mid4);
        }

        // Resize handle in the bottom-right corner.
        if options.is_unset(ContainerOption::NoResize) {
            let sz = self.style.footer_height as i32;
            let rid = self.create_id("!resize");
            let r = Rect {
                x: ssub(sadd(rect.x, rect.w), sz),
                y: ssub(sadd(rect.y, rect.h), sz),
                w: sz,
                h: sz,
            };

            let text_color = self.style.colors.color(WidgetColor::Text);
            self.draw_icon(Icon::Resize, r, text_color);
            let ghost mid5 = *self;
            proof {
                crate::draw::lemma_appended_trans(&start, &mid4, &mid5);
            }
            self.update_widget(
                rid,
                r,
                WidgetInteraction::from_options(options).cursor(
                    CursorIcon::Resize,
                ).retain_cursor_focus(),
            );

            if self.is_focused(rid) && self.mouse_down(MouseButton::Left) {
                let mut c = self.containers.get_copy(cnt_idx);
                c.rect.w = imax(96, sadd(c.rect.w, self.mouse_delta.x));
                c.rect.h = imax(64, sadd(c.rect.h, self.mouse_delta.y));
                self.containers.set(cnt_idx, c);
            }

            body.h = ssub(body.h, sz);
        }
        proof {
            assert(final(self).command_list@.take(start.command_list@.len() as int)
                =~= start.command_list@);
        }

        body
    }

    /// Draws the title bar: a draggable strip with the window title and
    /// an optional close box; returns the body shrunk below it.
    #[verifier::rlimit(100)]
    pub(crate) fn window_title_bar(
        &mut self,
        cnt_idx: usize,
        title: &str,
        options: ContainerOptions,
        rect: Rect,
        body: Rect,
    ) -> (new_body: Rect)
        requires
            old(self).wf(),
            cnt_idx < CONTAINER_POOL_SIZE,
            old(self).clip_stack@.len() > 0,
            old(self).clip_stack@.len() < CLIP_STACK_SIZE,
        ensures
            final(self).wf(),
            decl_keeps_io(old(self), final(self)),
            cmds_only_appended(old(self), final(self)),
            appended_non_jump(old(self), final(self)),
            final(self).containers@.len() == old(self).containers@.len(),
            forall|j: int|
                0 <= j < old(self).containers@.len() && j != cnt_idx as int ==> final(self).containers@[j] == old(self).containers@[j],
            final(self).containers@[cnt_idx as int] == (Container {
                rect: final(self).containers@[cnt_idx as int].rect,
                open: final(self).containers@[cnt_idx as int].open,
                ..old(self).containers@[cnt_idx as int]
            }),
            (!old(self).mouse_down.spec_any() && !old(self).mouse_pressed.spec_any()) ==> final(self).containers@[cnt_idx as int].rect == old(self).containers@[cnt_idx as int].rect,
            final(self).clip_stack@ == old(self).clip_stack@,
            final(self).container_stack@ == old(self).container_stack@,
            final(self).root_list@ == old(self).root_list@,
            final(self).id_stack@ == old(self).id_stack@,
            final(self).layout_stack@ == old(self).layout_stack@,
            final(self).open_roots == old(self).open_roots,
            final(self).last_zindex == old(self).last_zindex,
            final(self).next_hover_root == old(self).next_hover_root,
            final(self).scroll_target == old(self).scroll_target,
    {
        let ghost start = *self;
        let mut body = body;
        let mut title_rect = rect;
        title_rect.h = self.style.title_height as i32;

        draw_frame(self, title_rect, WidgetColor::TitleBackground);

        let tid = self.create_id("!title");
        self.update_widget(tid, title_rect, WidgetInteraction::from_options(options));
        let title_text = <String as vstd::string::StringExecFns>::from_str(title);
        let ghost mid1 = *self;
        self.draw_widget_text(title_text, title_rect, WidgetColor::TitleText, options);
        let ghost mid2 = *self;
        proof {
            crate::draw::lemma_appended_trans(&start, &mid1, &mid2);
        }

        if self.is_focused(tid) && self.mouse_down(MouseButton::Left) {
            let mut c = self.containers.get_copy(cnt_idx);
            c.rect.x = sadd(c.rect.x, self.mouse_delta.x);
            c.rect.y = sadd(c.rect.y, self.mouse_delta.y);
            self.containers.set(cnt_idx, c);
        }

        body.y = sadd(body.y, title_rect.h);
        body.h = ssub(body.h, title_rect.h);

        if options.is_unset(ContainerOption::NoClose) {
            let cid = self.create_id("!close");
            let r = Rect {
                x: ssub(sadd(title_rect.x, title_rect.w), title_rect.h),
                y: title_rect.y,
                w: title_rect.h,
                h: title_rect.h,
            };

            let text_color = self.style.colors.color(WidgetColor::TitleText);
            self.draw_icon(Icon::Close, r, text_color);
            let ghost mid3 = *self;
            proof {
                crate::draw::lemma_appended_trans(&start, &mid2, &mid3);
            }
            self.update_widget(
                cid,
                r,
                WidgetInteraction::from_options(options).cursor(CursorIcon::Hand),
            );

            if self.mouse_pressed(MouseButton::Left) && self.is_focused(cid) {
                let mut c = self.containers.get_copy(cnt_idx);
                c.open = false;
                self.containers.set(cnt_idx, c);
            }
        }
        proof {
            assert(final(self).command_list@.take(start.command_list@.len() as int)
                =~= start.command_list@);
        }

        body
    }

    /// Finishes opening a window: lays its body out, applies
    /// auto-sizing, closes a popup that was clicked past, and clips
    /// content to the body.
    #[verifier::rlimit(100)]
    pub(crate) fn window_finish(&mut self, cnt_idx: usize, body: Rect, options: ContainerOptions)
        requires
            old(self).wf(),
            cnt_idx < CONTAINER_POOL_SIZE,
            old(self).clip_stack@.len() > 0,
            old(self).clip_stack@.len() < CLIP_STACK_SIZE,
            old(self).layout_stack@.len() < LAYOUT_STACK_SIZE,
        ensures
            final(self).wf(),
            decl_keeps_io(old(self), final(self)),
            cmds_only_appended(old(self), final(self)),
            appended_non_jump(old(self), final(self)),
            final(self).containers@.len() == old(self).containers@.len(),
            forall|j: int|
                0 <= j < old(self).containers@.len() && j != cnt_idx as int ==> final(self).containers@[j] == old(self).containers@[j],
            final(self).containers@[cnt_idx as int] == (Container {
                rect: final(self).containers@[cnt_idx as int].rect,
                open: final(self).containers@[cnt_idx as int].open,
                body: final(self).containers@[cnt_idx as int].body,
                scroll: final(self).containers@[cnt_idx as int].scroll,
                ..old(self).containers@[cnt_idx as int]
            }),
            !options.spec_is_set(ContainerOption::AutoSize) ==> final(self).containers@[cnt_idx as int].rect == old(self).containers@[cnt_idx as int].rect,
            final(self).layout_stack@.len() == old(self).layout_stack@.len() + 1,
            final(self).layout_stack@.take(old(self).layout_stack@.len() as int) == old(self).layout_stack@,
            final(self).clip_stack@.len() == old(self).clip_stack@.len() + 1,
            final(self).clip_stack@.take(old(self).clip_stack@.len() as int) == old(self).clip_stack@,
            final(self).container_stack@ == old(self).container_stack@,
            final(self).root_list@ == old(self).root_list@,
            final(self).id_stack@ == old(self).id_stack@,
            final(self).open_roots == old(self).open_roots,
            final(self).last_zindex == old(self).last_zindex,
            final(self).next_hover_root == old(self).next_hover_root,
    {
        self.push_container_body(cnt_idx, body, options);

        // Auto-sizing: grow or shrink toward the content measured last
        // frame, keeping the chrome's extra extent.
        if options.is_set(ContainerOption::AutoSize) {
            let layout_body = self.layout_stack.last_copy().body;
            let mut c = self.containers.get_copy(cnt_idx);
            let cnt_rect = c.rect;
            c.rect.w = sadd(c.content_size.x, ssub(cnt_rect.w, layout_body.w));
            c.rect.h = sadd(c.content_size.y, ssub(cnt_rect.h, layout_body.h));
            self.containers.set(cnt_idx, c);
        }

        // A popup closes as soon as a click lands in some other root.
        if options.is_set(ContainerOption::Popup) && self.mouse_any_pressed() {
            let elsewhere = match self.hover_root {
                Some(x) => x != cnt_idx,
                None => false,
            };
            if elsewhere {
                let mut c = self.containers.get_copy(cnt_idx);
                c.open = false;
                self.containers.set(cnt_idx, c);
            }
        }

        let body_clip = self.containers.get_copy(cnt_idx).body;
        self.push_clip_rect(body_clip);
        proof {
            assert(final(self).command_list@.take(old(self).command_list@.len() as int)
                =~= old(self).command_list@);
            assert(final(self).clip_stack@.take(old(self).clip_stack@.len() as int)
                =~= old(self).clip_stack@);
        }
    }

    /// Closes the window opened by the matching
    /// [`Context::begin_window`]: drops its body clip, brackets its
    /// command run with the tail jump, and pops it from the stacks.
    pub fn end_window(&mut self)
        requires
            old(self).wf(),
            old(self).container_stack@.len() > 0,
            old(self).layout_stack@.len() > 0,
            old(self).clip_stack@.len() >= 2,
            old(self).open_roots > 0,
            ({
                let idx = old(self).container_stack@.last() as int;
                &&& old(self).containers@[idx].head matches Some(h) && (h as int) < old(self).command_list@.len() && (old(self).command_list@[h as int] matches Command::Jump {
                    ..
                })
            }),
        ensures
            final(self).wf(),
            decl_keeps_io(old(self), final(self)),
            final(self).open_roots == old(self).open_roots - 1,
            final(self).container_stack@ == old(self).container_stack@.drop_last(),
            final(self).layout_stack@ == old(self).layout_stack@.drop_last(),
            final(self).clip_stack@ == old(self).clip_stack@.drop_last().drop_last(),
            final(self).id_stack@ == if old(self).id_stack@.len() == 0 {
                old(self).id_stack@
            } else {
                old(self).id_stack@.drop_last()
            },
            final(self).root_list@ == old(self).root_list@,
            final(self).hover_root == old(self).hover_root,
            final(self).next_hover_root == old(self).next_hover_root,
            final(self).last_zindex == old(self).last_zindex,
            cmds_extended(old(self).command_list@, final(self).command_list@),
            ({
                let idx = old(self).container_stack@.last() as int;
                let h = old(self).containers@[idx].head->Some_0 as int;
                let tail = old(self).command_list@.len();
                &&& final(self).command_list@.len() == old(self).command_list@.len() + 1
                &&& final(self).command_list@ == old(self).command_list@.push(
                    Command::Jump { target: 0 },
                ).update(h, Command::Jump { target: (tail + 1) as usize })
                &&& final(self).containers@[idx].tail == Some(tail as usize)
                &&& final(self).containers@[idx].head == old(self).containers@[idx].head
                &&& final(self).containers@[idx].rect == old(self).containers@[idx].rect
                &&& forall|j: int|
                    0 <= j < old(self).containers@.len() && j != idx ==> final(self).containers@[j] == old(self).containers@[j]
            }),
    {
        self.pop_clip_rect();
        self.end_root_container();
    }

    /// Opens a named panel: a nested container that takes the next layout
    /// rectangle as its body. Returns whether the panel exists this
    /// frame; the caller declares its contents and must close it with
    /// [`Context::end_panel`] exactly when this returns true.
    pub fn begin_panel(&mut self, name: &str, options: ContainerOptions) -> (opened: bool)
        requires
            old(self).wf(),
            name@.len() > 0,
            old(self).container_stack@.len() < CONTAINER_STACK_SIZE,
            old(self).clip_stack@.len() > 0,
            old(self).clip_stack@.len() + 1 < CLIP_STACK_SIZE,
            old(self).id_stack@.len() < ID_STACK_SIZE,
            old(self).layout_stack@.len() > 0,
            old(self).layout_stack@.len() < LAYOUT_STACK_SIZE,
            old(self).last_zindex < i64::MAX,
        ensures
            final(self).wf(),
            decl_keeps_io(old(self), final(self)),
            cmds_only_appended(old(self), final(self)),
            appended_non_jump(old(self), final(self)),
            final(self).open_roots == old(self).open_roots,
            final(self).root_list@ == old(self).root_list@,
            // The panel opens exactly when the pool yields a slot for its
            // name: a mapped identity always does; an unmapped one needs
            // an evictable slot and no dormancy request.
            opened == spec_container_available(
                old(self).container_pool@,
                old(self).frame,
                old(self).spec_id_of(name@),
                options,
            ),
            opened ==> ({
                &&& final(self).container_stack@.len() == old(self).container_stack@.len() + 1
                &&& final(self).container_stack@.take(old(self).container_stack@.len() as int)
                    == old(self).container_stack@
                &&& final(self).container_stack@.last() < CONTAINER_POOL_SIZE
                &&& final(self).layout_stack@.len() == old(self).layout_stack@.len() + 1
                &&& final(self).clip_stack@.len() == old(self).clip_stack@.len() + 1
                &&& final(self).id_stack@ == old(self).id_stack@.push(
                    old(self).spec_id_of(name@),
                )
            }),
            !opened ==> ({
                &&& final(self).container_stack@ == old(self).container_stack@
                &&& final(self).layout_stack@ == old(self).layout_stack@
                &&& final(self).clip_stack@ == old(self).clip_stack@
                &&& final(self).id_stack@ == old(self).id_stack@
            }),
    {
        let ghost start = *self;
        let id = self.push_id(name);
        let cnt_idx = match self.get_container(id, options) {
            Some(i) => i,
            None => {
                // The pool is exhausted this frame: the panel does not
                // render; withdraw its identifier so the frame stays
                // balanced.
                self.pop_id();
                proof {
                    assert(final(self).command_list@.take(start.command_list@.len() as int)
                        =~= start.command_list@);
                    assert(final(self).id_stack@ =~= start.id_stack@);
                }
                return false;
            },
        };

        let rect = self.layout_next();
        let mut c = self.containers.get_copy(cnt_idx);
        c.rect = rect;
        self.containers.set(cnt_idx, c);

        let ghost mid0 = *self;
        if options.is_unset(ContainerOption::NoFrame) {
            draw_frame(self, rect, WidgetColor::PanelBackground);
        }
        let ghost mid1 = *self;

        self.container_stack.push(cnt_idx);
        self.push_container_body(cnt_idx, rect, options);
        let ghost mid2 = *self;
        let body_clip = self.containers.get_copy(cnt_idx).body;
        self.push_clip_rect(body_clip);

        proof {
            assert(mid0.command_list@.take(start.command_list@.len() as int)
                =~= start.command_list@);
            assert(mid1.command_list@.take(mid0.command_list@.len() as int)
                =~= mid0.command_list@);
            crate::draw::lemma_appended_trans(&start, &mid0, &mid1);
            crate::draw::lemma_appended_trans(&start, &mid1, &mid2);
            assert(final(self).command_list@.take(mid2.command_list@.len() as int)
                =~= mid2.command_list@);
            crate::draw::lemma_appended_trans(&start, &mid2, final(self));
            assert(final(self).container_stack@.take(old(self).container_stack@.len() as int)
                =~= old(self).container_stack@);
        }
        true
    }

    /// Closes the panel opened by the matching [`Context::begin_panel`].
    pub fn end_panel(&mut self)
        requires
            old(self).wf(),
            old(self).container_stack@.len() > 0,
            old(self).layout_stack@.len() > 0,
            old(self).clip_stack@.len() > 0,
            old(self).open_roots < old(self).container_stack@.len(),
        ensures
            final(self).wf(),
            decl_keeps_io(old(self), final(self)),
            final(self).container_stack@ == old(self).container_stack@.drop_last(),
            final(self).layout_stack@ == old(self).layout_stack@.drop_last(),
            final(self).clip_stack@ == old(self).clip_stack@.drop_last(),
            final(self).command_list@ == old(self).command_list@,
            final(self).open_roots == old(self).open_roots,
            final(self).root_list@ == old(self).root_list@,
    {
        self.pop_clip_rect();
        self.pop_container();
    }


    /// Applies a header click's outcome to the treenode pool: an active
    /// identity is stamped with the current frame (claiming the
    /// least-recently-touched slot if it had none), an inactive one has
    /// its slot reset to vacant.
    pub(crate) fn set_treenode_state(&mut self, id: Id, index: Option<usize>, active: bool)
        requires
            old(self).wf(),
            index matches Some(i) ==> crate::container::spec_first_pool_match(
                old(self).treenode_pool@,
                id,
                i as int,
            ),
            index is None ==> forall|k: int|
                !crate::container::spec_first_pool_match(old(self).treenode_pool@, id, k),
        ensures
            final(self).wf(),
            *final(self) == (Context { treenode_pool: final(self).treenode_pool, ..*old(self) }),
            final(self).treenode_pool@.len() == old(self).treenode_pool@.len(),
            index matches Some(i) ==> final(self).treenode_pool@ == if active {
                old(self).treenode_pool@.update(
                    i as int,
                    PoolItem {
                        id: old(self).treenode_pool@[i as int].id,
                        last_update: old(self).frame,
                    },
                )
            } else {
                old(self).treenode_pool@.update(i as int, PoolItem { id: Id(0), last_update: 0 })
            },
            (index is None && !active) ==> *final(self) == *old(self),
    {
        match index {
            Some(i) => {
                if active {
                    let frame = self.frame;
                    let mut item = self.treenode_pool.get_copy(i);
                    item.last_update = frame;
                    self.treenode_pool.set(i, item);
                } else {
                    self.treenode_pool.set(i, PoolItem::vacant());
                }
            },
            None => {
                if active {
                    let frame = self.frame;
                    self.treenode_pool.pool_init(id, frame);
                }
            },
        }
    }

    /// One header row: a full-width toggle whose expanded state lives in
    /// the treenode pool (present means expanded). Returns whether it is
    /// expanded this frame; passing `expanded` inverts the default for an
    /// identity not in the pool, so such a header starts open.
    #[verifier::rlimit(100)]
    pub(crate) fn header_impl(&mut self, label: &str, is_treenode: bool, expanded: bool) -> (r:
        bool)
        requires
            old(self).wf(),
            old(self).layout_stack@.len() > 0,
            old(self).clip_stack@.len() > 0,
            old(self).clip_stack@.len() < CLIP_STACK_SIZE,
        ensures
            final(self).wf(),
            decl_keeps_io(old(self), final(self)),
            cmds_only_appended(old(self), final(self)),
            appended_non_jump(old(self), final(self)),
            final(self).container_stack@ == old(self).container_stack@,
            final(self).id_stack@ == old(self).id_stack@,
            final(self).clip_stack@ == old(self).clip_stack@,
            final(self).layout_stack@.len() == old(self).layout_stack@.len(),
            final(self).open_roots == old(self).open_roots,
            final(self).root_list@ == old(self).root_list@,
            final(self).containers@ == old(self).containers@,
            final(self).layout_stack@.last().indent == old(self).layout_stack@.last().indent,
            // Presence in the treenode pool decides expansion; the
            // `expanded` switch inverts the default.
            ({
                let id = old(self).spec_id_of(label@);
                let found = exists|i: int|
                    0 <= i < old(self).treenode_pool@.len() && old(self).treenode_pool@[i].id
                        == id;
                r == if expanded {
                    !found
                } else {
                    found
                }
            }),
            // The pool transition: with no press this frame, a found slot
            // is re-stamped with the current frame (the node stays in the
            // state it was) and a missing identity claims nothing.
            ({
                let id = old(self).spec_id_of(label@);
                &&& (!old(self).mouse_pressed.spec_any() ==> ({
                    &&& (forall|i: int|
                        #[trigger] crate::container::spec_first_pool_match(
                            old(self).treenode_pool@,
                            id,
                            i,
                        ) ==> final(self).treenode_pool@ == old(self).treenode_pool@.update(
                            i,
                            PoolItem {
                                id: old(self).treenode_pool@[i].id,
                                last_update: old(self).frame,
                            },
                        ))
                    &&& (!(exists|i: int|
                        crate::container::spec_first_pool_match(
                            old(self).treenode_pool@,
                            id,
                            i,
                        )) ==> final(self).treenode_pool@ == old(self).treenode_pool@)
                }))
                // A found slot is only ever re-stamped or reset to vacant.
                &&& (forall|i: int|
                    #[trigger] crate::container::spec_first_pool_match(
                        old(self).treenode_pool@,
                        id,
                        i,
                    ) ==> (final(self).treenode_pool@ == old(self).treenode_pool@.update(
                        i,
                        PoolItem {
                            id: old(self).treenode_pool@[i].id,
                            last_update: old(self).frame,
                        },
                    ) || final(self).treenode_pool@ == old(self).treenode_pool@.update(
                        i,
                        PoolItem { id: Id(0), last_update: 0 },
                    )))
            }),
    {
        let ghost start = *self;
        let id = self.create_id(label);

        let index = self.treenode_pool.pool_find(id);
        proof {
            if let Some(i) = index {
                assert(crate::container::spec_first_pool_match(
                    old(self).treenode_pool@,
                    old(self).spec_id_of(label@),
                    i as int,
                ));
                assert forall|k: int|
                    crate::container::spec_first_pool_match(
                        old(self).treenode_pool@,
                        old(self).spec_id_of(label@),
                        k,
                    ) implies k == i as int by {
                    if k < i {
                        assert(old(self).treenode_pool@[k].id != old(self).spec_id_of(label@));
                    } else if k > i {
                        assert(old(self).treenode_pool@[i as int].id != old(self).spec_id_of(
                            label@,
                        ));
                    }
                }
            } else {
                assert(forall|k: int|
                    !crate::container::spec_first_pool_match(
                        old(self).treenode_pool@,
                        old(self).spec_id_of(label@),
                        k,
                    ));
            }
        }
        let mut active = index.is_some();

        let expanded_now = if expanded {
            !active
        } else {
            active
        };

        let widths: [i32; 1] = [-1];
        self.layout_row(&widths, 0);

        let mut r = self.layout_next();
        self.update_widget(id, r, WidgetInteraction::none());

        if self.mouse_pressed(MouseButton::Left) && self.is_focused(id) {
            active = !active;
        }

        self.set_treenode_state(id, index, active);
        self.header_draw(id, r, label, is_treenode, expanded_now);

        expanded_now
    }

    /// Draws one header row: its frame (the hover color while a focused
    /// treenode), the expand or collapse icon, and the label.
    pub(crate) fn header_draw(
        &mut self,
        id: Id,
        r: Rect,
        label: &str,
        is_treenode: bool,
        expanded_now: bool,
    )
        requires
            old(self).wf(),
            old(self).clip_stack@.len() > 0,
            old(self).clip_stack@.len() < CLIP_STACK_SIZE,
        ensures
            final(self).wf(),
            decl_keeps_io(old(self), final(self)),
            cmds_only_appended(old(self), final(self)),
            appended_non_jump(old(self), final(self)),
            final(self).container_stack@ == old(self).container_stack@,
            final(self).id_stack@ == old(self).id_stack@,
            final(self).clip_stack@ == old(self).clip_stack@,
            final(self).layout_stack@ == old(self).layout_stack@,
            final(self).open_roots == old(self).open_roots,
            final(self).root_list@ == old(self).root_list@,
            final(self).containers@ == old(self).containers@,
            final(self).treenode_pool@ == old(self).treenode_pool@,
            final(self).last_id == old(self).last_id,
            final(self).last_rect == old(self).last_rect,
            final(self).last_zindex == old(self).last_zindex,
    {
        let ghost start = *self;
        let mut r = r;
        let ghost mid0 = *self;
        if is_treenode && self.is_focused(id) {
            draw_frame(self, r, WidgetColor::ButtonHover);
        } else {
            self.draw_widget_frame(id, r, WidgetColor::Button, ContainerOptions::none());
        }
        let ghost mid1 = *self;

        let icon = if expanded_now {
            Icon::Expanded
        } else {
            Icon::Collapsed
        };
        let text_color = self.style.colors.color(WidgetColor::Text);
        self.draw_icon(icon, Rect { x: r.x, y: r.y, w: r.h, h: r.h }, text_color);
        let ghost mid2 = *self;

        let padding = self.style.padding as i32;
        r.x = sadd(r.x, ssub(r.h, padding));
        r.w = ssub(r.w, ssub(r.h, padding));

        let label_text = <String as vstd::string::StringExecFns>::from_str(label);
        self.draw_widget_text(label_text, r, WidgetColor::Text, ContainerOptions::none());

        proof {
            assert(mid0.command_list@.take(start.command_list@.len() as int)
                =~= start.command_list@);
            crate::draw::lemma_appended_trans(&start, &mid0, &mid1);
            crate::draw::lemma_appended_trans(&start, &mid1, &mid2);
            crate::draw::lemma_appended_trans(&start, &mid2, final(self));
        }
    }

    /// One collapsible header row; `expanded` makes it start open the
    /// first time it appears.
    pub fn header(&mut self, label: &str, expanded: bool) -> (r: bool)
        requires
            old(self).wf(),
            old(self).layout_stack@.len() > 0,
            old(self).clip_stack@.len() > 0,
            old(self).clip_stack@.len() < CLIP_STACK_SIZE,
        ensures
            final(self).wf(),
            decl_keeps_io(old(self), final(self)),
            cmds_only_appended(old(self), final(self)),
            appended_non_jump(old(self), final(self)),
            final(self).container_stack@ == old(self).container_stack@,
            final(self).id_stack@ == old(self).id_stack@,
            final(self).clip_stack@ == old(self).clip_stack@,
            final(self).layout_stack@.len() == old(self).layout_stack@.len(),
            final(self).open_roots == old(self).open_roots,
            final(self).root_list@ == old(self).root_list@,
            ({
                let id = old(self).spec_id_of(label@);
                let found = exists|i: int|
                    0 <= i < old(self).treenode_pool@.len() && old(self).treenode_pool@[i].id
                        == id;
                r == if expanded {
                    !found
                } else {
                    found
                }
            }),
    {
        self.header_impl(label, false, expanded)
    }

    /// Opens a treenode: a header that, while expanded, indents its
    /// nested content and salts nested identifiers with its own. Close
    /// with [`Context::end_treenode`] exactly when this returns true.
    pub fn begin_treenode(&mut self, label: &str, expanded: bool) -> (r: bool)
        requires
            old(self).wf(),
            old(self).layout_stack@.len() > 0,
            old(self).clip_stack@.len() > 0,
            old(self).clip_stack@.len() < CLIP_STACK_SIZE,
            old(self).id_stack@.len() < ID_STACK_SIZE,
        ensures
            final(self).wf(),
            decl_keeps_io(old(self), final(self)),
            cmds_only_appended(old(self), final(self)),
            appended_non_jump(old(self), final(self)),
            final(self).container_stack@ == old(self).container_stack@,
            final(self).clip_stack@ == old(self).clip_stack@,
            final(self).layout_stack@.len() == old(self).layout_stack@.len(),
            final(self).open_roots == old(self).open_roots,
            final(self).root_list@ == old(self).root_list@,
            r ==> final(self).id_stack@.len() == old(self).id_stack@.len() + 1,
            !r ==> final(self).id_stack@ == old(self).id_stack@,
            // An expanded treenode indents its nested content by the
            // style's indent; a collapsed one leaves the indent alone.
            r ==> final(self).layout_stack@.last().indent == crate::arith::sat_add(
                old(self).layout_stack@.last().indent as int,
                old(self).style.indent as int,
            ),
            !r ==> final(self).layout_stack@.last().indent == old(self).layout_stack@.last().indent,
            ({
                let id = old(self).spec_id_of(label@);
                let found = exists|i: int|
                    0 <= i < old(self).treenode_pool@.len() && old(self).treenode_pool@[i].id
                        == id;
                r == if expanded {
                    !found
                } else {
                    found
                }
            }),
    {
        let ghost start = *self;
        if self.header_impl(label, true, expanded) {
            let n = self.layout_stack.len();
            let mut l = self.layout_stack.get_copy(n - 1);
            l.indent = sadd(l.indent, self.style.indent as i32);
            self.layout_stack.set(n - 1, l);
            let last = match self.last_id {
                Some(i) => i,
                None => Id(0),
            };
            self.id_stack.push(last);
            proof {
                assert(final(self).command_list@.take(start.command_list@.len() as int)
                    =~= start.command_list@);
            }
            true
        } else {
            false
        }
    }

    /// Closes the treenode opened by the matching
    /// [`Context::begin_treenode`]: removes its indent and its
    /// identifier salt.
    pub fn end_treenode(&mut self)
        requires
            old(self).wf(),
            old(self).layout_stack@.len() > 0,
        ensures
            final(self).wf(),
            decl_keeps_io(old(self), final(self)),
            final(self).command_list@ == old(self).command_list@,
            final(self).container_stack@ == old(self).container_stack@,
            final(self).clip_stack@ == old(self).clip_stack@,
            final(self).layout_stack@.len() == old(self).layout_stack@.len(),
            final(self).open_roots == old(self).open_roots,
            final(self).root_list@ == old(self).root_list@,
            final(self).id_stack@ == if old(self).id_stack@.len() == 0 {
                old(self).id_stack@
            } else {
                old(self).id_stack@.drop_last()
            },
            // The treenode's indent is removed again.
            final(self).layout_stack@.last().indent == crate::arith::sat_sub(
                old(self).layout_stack@.last().indent as int,
                old(self).style.indent as int,
            ),
    {
        let n = self.layout_stack.len();
        let mut l = self.layout_stack.get_copy(n - 1);
        l.indent = ssub(l.indent, self.style.indent as i32);
        self.layout_stack.set(n - 1, l);
        self.pop_id();
    }
}

} // verus!

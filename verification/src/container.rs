//! Container plumbing: looking containers up by identity, the stack of
//! open containers, z-order bookkeeping, scrollbars, and the jump records
//! that bracket a root container's run in the command buffer.

use vstd::prelude::*;

use crate::arith::{iclamp, imax, ineg, sadd, sat_add, sat_mul, sat_sub, smul, smuldiv, ssub};
use crate::draw::{appended_non_jump, cmds_only_appended, draw_frame};
use crate::geometry::{Rect, Vec2};
use crate::id::Id;
use crate::style::WidgetColor;
use crate::{
    Command, Container, ContainerOption, ContainerOptions, Context, PoolItem, TextSizeHandler,
    WidgetInteraction, COMMAND_LIST_SIZE, CONTAINER_POOL_SIZE, CONTAINER_STACK_SIZE,
    CLIP_STACK_SIZE, LAYOUT_STACK_SIZE, ROOT_LIST_SIZE,
};

verus! {

/// `b`'s command buffer extends `a`'s, except that jump records may have
/// been re-targeted in place: content commands never change, and no
/// position changes kind between jump and non-jump.
pub open spec fn cmds_extended(a: Seq<Command>, b: Seq<Command>) -> bool {
    &&& b.len() >= a.len()
    &&& forall|i: int|
        0 <= i < a.len() ==> (b[i] == a[i] || ((a[i] matches Command::Jump { .. }) && (
        #[trigger] b[i]) matches Command::Jump { .. }))
}

/// What a widget or container declaration never touches: the style, the
/// metrics provider, the frame counter, all buffered input, the numeric
/// edit state and the settled hover root.
pub open spec fn decl_keeps_io<F: TextSizeHandler>(a: &Context<F>, b: &Context<F>) -> bool {
    &&& b.style == a.style
    &&& b.font_handler == a.font_handler
    &&& b.frame == a.frame
    &&& b.mouse_pos == a.mouse_pos
    &&& b.last_mouse_pos == a.last_mouse_pos
    &&& b.mouse_delta == a.mouse_delta
    &&& b.scroll_delta == a.scroll_delta
    &&& b.mouse_down == a.mouse_down
    &&& b.mouse_pressed == a.mouse_pressed
    &&& b.key_down == a.key_down
    &&& b.key_pressed == a.key_pressed
    &&& b.text_input == a.text_input
    &&& b.number_edit_buf == a.number_edit_buf
    &&& b.number_edit_id == a.number_edit_id
    &&& b.hover_root == a.hover_root
}


/// The slot a linear scan of the pool finds for `id`: `i` is the first
/// slot mapping it.
pub open spec fn spec_first_pool_match(pool: Seq<PoolItem>, id: Id, i: int) -> bool {
    &&& 0 <= i < pool.len()
    &&& pool[i].id == id
    &&& forall|j: int| 0 <= j < i ==> pool[j].id != id
}

/// The slot an eviction claims for a new identity: `i` is the earliest
/// slot whose last-touched frame is the strict minimum below `frame`.
pub open spec fn spec_lru_slot(pool: Seq<PoolItem>, frame: u64, i: int) -> bool {
    &&& 0 <= i < pool.len()
    &&& pool[i].last_update < frame
    &&& forall|j: int| 0 <= j < pool.len() ==> pool[j].last_update >= pool[i].last_update
    &&& forall|j: int| 0 <= j < i ==> pool[j].last_update > pool[i].last_update
}

/// Whether a container lookup yields a slot: one already maps the
/// identity, or dormancy was not asked for and some slot was last
/// touched before this frame and can be evicted.
pub open spec fn spec_container_available(
    pool: Seq<PoolItem>,
    frame: u64,
    id: Id,
    options: ContainerOptions,
) -> bool {
    ||| exists|i: int| spec_first_pool_match(pool, id, i)
    ||| (!options.spec_is_set(ContainerOption::Closed) && exists|j: int|
        0 <= j < pool.len() && (#[trigger] pool[j]).last_update < frame)
}

impl<F: TextSizeHandler> Context<F> {
    /// The index of the innermost open container, if any.
    pub fn current_container_index(&self) -> (r: Option<usize>)
        ensures
            self.container_stack@.len() == 0 ==> r is None,
            self.container_stack@.len() > 0 ==> r == Some(self.container_stack@.last()),
    {
        match self.container_stack.last() {
            Some(i) => Some(*i),
            None => None,
        }
    }

    /// The innermost open container; one must be open.
    pub fn current_container(&self) -> (r: &Container)
        requires
            self.wf(),
            self.container_stack@.len() > 0,
        ensures
            *r == self.containers@[self.container_stack@.last() as int],
    {
        let index = self.container_stack.last_copy();
        self.containers.get(index)
    }

    /// A copy of the container at `index`.
    pub fn container(&self, index: usize) -> (r: Container)
        requires
            self.wf(),
            index < CONTAINER_POOL_SIZE,
        ensures
            r == self.containers@[index as int],
    {
        self.containers.get_copy(index)
    }

    /// A mutable reference to the container at `index`. Well-formedness
    /// survives as long as the caller does not raise the z-index past the
    /// engine's running maximum.
    pub fn container_mut(&mut self, index: usize) -> (r: &mut Container)
        requires
            old(self).wf(),
            index < CONTAINER_POOL_SIZE,
        ensures
            *r == old(self).containers@[index as int],
            final(self).containers@ == old(self).containers@.update(index as int, *final(r)),
            *final(self) == (Context { containers: final(self).containers, ..*old(self) }),
            final(r).zindex <= old(self).last_zindex ==> final(self).wf(),
    {
        self.containers.at_mut(index)
    }

    /// A mutable reference to the innermost open container; one must be
    /// open.
    pub fn current_container_mut(&mut self) -> (r: &mut Container)
        requires
            old(self).wf(),
            old(self).container_stack@.len() > 0,
        ensures
            *r == old(self).containers@[old(self).container_stack@.last() as int],
            final(self).containers@ == old(self).containers@.update(
                old(self).container_stack@.last() as int,
                *final(r),
            ),
            *final(self) == (Context { containers: final(self).containers, ..*old(self) }),
            final(r).zindex <= old(self).last_zindex ==> final(self).wf(),
    {
        let index = self.container_stack.last_copy();
        self.containers.at_mut(index)
    }

    /// Replaces the container at `index`; the engine's own callers only
    /// adjust placement, scroll and open state through this.
    pub fn set_container(&mut self, index: usize, c: Container)
        requires
            old(self).wf(),
            index < CONTAINER_POOL_SIZE,
            c.zindex <= old(self).last_zindex,
        ensures
            final(self).wf(),
            *final(self) == (Context { containers: final(self).containers, ..*old(self) }),
            final(self).containers@ == old(self).containers@.update(index as int, c),
    {
        self.containers.set(index, c);
    }

    /// How many container slots exist.
    pub fn containers_len(&self) -> (r: usize)
        requires
            self.wf(),
        ensures
            r == CONTAINER_POOL_SIZE,
    {
        self.containers.len()
    }

    /// Raises the container to the top of the paint order by giving it a
    /// fresh, strictly increasing z-index.
    pub fn bring_to_front(&mut self, index: usize)
        requires
            old(self).wf(),
            index < CONTAINER_POOL_SIZE,
            old(self).last_zindex < i64::MAX,
        ensures
            final(self).wf(),
            final(self).last_zindex == old(self).last_zindex + 1,
            final(self).containers@ == old(self).containers@.update(
                index as int,
                Container {
                    zindex: (old(self).last_zindex + 1) as i64,
                    ..old(self).containers@[index as int]
                },
            ),
            *final(self) == (Context {
                last_zindex: final(self).last_zindex,
                containers: final(self).containers,
                ..*old(self)
            }),
            // ... which is strictly above every other container.
            forall|j: int|
                0 <= j < CONTAINER_POOL_SIZE && j != index as int ==> (#[trigger] final(self).containers@[j]).zindex < final(self).containers@[index as int].zindex,
    {
        self.last_zindex = self.last_zindex + 1;
        let mut c = self.containers.get_copy(index);
        c.zindex = self.last_zindex;
        self.containers.set(index, c);
    }

    /// The container owning `id`: the slot already mapping it (touching
    /// its timestamp unless it is closed and the caller asked for closed
    /// containers to stay dormant), or a freshly claimed slot holding an
    /// open container brought to the front. Returns nothing when the
    /// caller asked for dormancy or the pool is exhausted this frame.
    pub(crate) fn get_container(&mut self, id: Id, options: ContainerOptions) -> (r: Option<
        usize,
    >)
        requires
            old(self).wf(),
            old(self).last_zindex < i64::MAX,
        ensures
            final(self).wf(),
            *final(self) == (Context {
                containers: final(self).containers,
                container_pool: final(self).container_pool,
                last_zindex: final(self).last_zindex,
                ..*old(self)
            }),
            final(self).containers@.len() == old(self).containers@.len(),
            final(self).container_pool@.len() == old(self).container_pool@.len(),
            (r matches Some(i) ==> i < CONTAINER_POOL_SIZE),
            // A slot is yielded exactly when one maps the identity or an
            // eviction is possible and dormancy was not asked for.
            (r is Some) == spec_container_available(
                old(self).container_pool@,
                old(self).frame,
                id,
                options,
            ),
            // A mapped identity keeps its slot: the first match is
            // returned, its container (in particular its rectangle) is
            // untouched, and its timestamp is bumped to the current frame
            // exactly when the container is open or dormancy was not
            // asked for.
            forall|i: int|
                #[trigger] spec_first_pool_match(old(self).container_pool@, id, i) ==> ({
                    &&& r == Some(i as usize)
                    &&& final(self).containers@ == old(self).containers@
                    &&& final(self).last_zindex == old(self).last_zindex
                    &&& final(self).container_pool@ == if old(self).containers@[i].open
                        || !options.spec_is_set(ContainerOption::Closed) {
                        old(self).container_pool@.update(
                            i,
                            PoolItem {
                                id: old(self).container_pool@[i].id,
                                last_update: old(self).frame,
                            },
                        )
                    } else {
                        old(self).container_pool@
                    }
                }),
            // A mapped identity moves pool timestamps at most.
            (exists|i: int| spec_first_pool_match(old(self).container_pool@, id, i)) ==> *final(self) == (Context { container_pool: final(self).container_pool, ..*old(self) }),
            // A dormant miss changes nothing at all.
            (!(exists|i: int| spec_first_pool_match(old(self).container_pool@, id, i))
                && options.spec_is_set(ContainerOption::Closed)) ==> r is None && *final(self)
                == *old(self),
            // An exhausted pool changes nothing at all.
            r is None ==> *final(self) == *old(self),
            // A fresh claim takes exactly the least-recently-touched slot,
            // stamps it, and yields an open container above every other.
            (!(exists|i: int| spec_first_pool_match(old(self).container_pool@, id, i))
                && !options.spec_is_set(ContainerOption::Closed)) ==> forall|i: int|
                #[trigger] spec_lru_slot(old(self).container_pool@, old(self).frame, i) ==> ({
                    &&& r == Some(i as usize)
                    &&& final(self).container_pool@ == old(self).container_pool@.update(
                        i,
                        PoolItem { id, last_update: old(self).frame },
                    )
                    &&& final(self).containers@ == old(self).containers@.update(
                        i,
                        Container {
                            open: true,
                            zindex: (old(self).last_zindex + 1) as i64,
                            ..crate::spec_fresh_container()
                        },
                    )
                    &&& final(self).last_zindex == old(self).last_zindex + 1
                    &&& forall|j: int|
                        0 <= j < CONTAINER_POOL_SIZE && j != i ==> (#[trigger] final(self).containers@[j]).zindex < final(self).containers@[i].zindex
                }),
            // A freshly claimed container is open and newly on top.
            (r matches Some(i) && !(exists|k: int|
                spec_first_pool_match(old(self).container_pool@, id, k))) ==> final(self).containers@[r->Some_0 as int].open && final(self).last_zindex == old(self).last_zindex
                + 1,
            // Containers other than the claimed one are never touched.
            forall|j: int|
                0 <= j < CONTAINER_POOL_SIZE && (r != Some(j as usize)) ==> final(self).containers@[j] == old(self).containers@[j],
            // A slot whose pool identity is the requested one is never
            // reassigned, so its container survives as it stands.
            forall|j: int|
                0 <= j < CONTAINER_POOL_SIZE && old(self).container_pool@[j].id == id
                    ==> final(self).containers@[j] == old(self).containers@[j],
    {
        let found = self.container_pool.pool_find(id);

        if let Some(index) = found {
            proof {
                assert(spec_first_pool_match(old(self).container_pool@, id, index as int));
                assert forall|i: int|
                    spec_first_pool_match(old(self).container_pool@, id, i) implies i
                    == index as int by {
                    if i < index {
                        assert(old(self).container_pool@[i].id != id);
                    } else if i > index {
                        assert(old(self).container_pool@[index as int].id != id);
                    }
                }
            }
            if self.containers.get(index).open || options.is_unset(ContainerOption::Closed) {
                let frame = self.frame;
                let mut item = self.container_pool.get_copy(index);
                item.last_update = frame;
                self.container_pool.set(index, item);
            }
            return Some(index);
        }
        proof {
            assert(forall|i: int| !spec_first_pool_match(old(self).container_pool@, id, i));
        }

        if options.is_set(ContainerOption::Closed) {
            return None;
        }

        match self.init_container_pool(id) {
            Some(index) => {
                proof {
                    assert(spec_lru_slot(old(self).container_pool@, old(self).frame, index as int));
                    assert forall|i: int|
                        spec_lru_slot(old(self).container_pool@, old(self).frame, i) implies i
                        == index as int by {
                        if i < index {
                            assert(old(self).container_pool@[i].last_update > old(self).container_pool@[index as int].last_update);
                            assert(old(self).container_pool@[index as int].last_update >= old(self).container_pool@[i].last_update);
                        } else if i > index {
                            assert(old(self).container_pool@[index as int].last_update > old(self).container_pool@[i].last_update);
                            assert(old(self).container_pool@[i].last_update >= old(self).container_pool@[index as int].last_update);
                        }
                    }
                }
                let mut container = Container::fresh();
                container.open = true;
                self.last_zindex = self.last_zindex + 1;
                container.zindex = self.last_zindex;
                self.containers.set(index, container);
                Some(index)
            },
            None => None,
        }
    }

    /// Looks the container for a name up, hashing the name in the current
    /// identifier context.
    pub fn container_index_by_name(&mut self, name: &str, options: ContainerOptions) -> (r:
        Option<usize>)
        requires
            old(self).wf(),
            old(self).last_zindex < i64::MAX,
        ensures
            final(self).wf(),
            (r matches Some(i) ==> i < CONTAINER_POOL_SIZE),
    {
        let id = self.create_id(name);
        self.get_container(id, options)
    }

    /// Opens a root container: pushes it on the container stack and the
    /// frame's root list, appends its head jump record (to be patched
    /// when the frame ends), makes it the next hover root when the
    /// pointer sits in it above the current candidate, and resets
    /// clipping so a nested root is not clipped by its parent.
    pub(crate) fn begin_root_container(&mut self, cnt: usize)
        requires
            old(self).wf(),
            cnt < CONTAINER_POOL_SIZE,
            old(self).container_stack@.len() < CONTAINER_STACK_SIZE,
            old(self).root_list@.len() < ROOT_LIST_SIZE,
            old(self).clip_stack@.len() < CLIP_STACK_SIZE,
            old(self).command_list@.len() + old(self).open_roots + 2 <= COMMAND_LIST_SIZE,
        ensures
            final(self).wf(),
            final(self).container_stack@ == old(self).container_stack@.push(cnt),
            final(self).root_list@ == old(self).root_list@.push(cnt),
            final(self).command_list@ == old(self).command_list@.push(
                Command::Jump { target: 0 },
            ),
            final(self).open_roots == old(self).open_roots + 1,
            final(self).clip_stack@ == old(self).clip_stack@.push(
                Rect { x: 0, y: 0, w: 0x1000000, h: 0x1000000 },
            ),
            final(self).containers@ == old(self).containers@.update(
                cnt as int,
                Container {
                    head: Some(old(self).command_list@.len() as usize),
                    ..old(self).containers@[cnt as int]
                },
            ),
            final(self).next_hover_root == if crate::geometry::spec_overlaps(
                old(self).containers@[cnt as int].rect,
                old(self).mouse_pos,
            ) && (match old(self).next_hover_root {
                Some(h) => old(self).containers@[cnt as int].zindex > old(self).containers@[h as int].zindex,
                None => true,
            }) {
                Some(cnt)
            } else {
                old(self).next_hover_root
            },
            *final(self) == (Context {
                container_stack: final(self).container_stack,
                root_list: final(self).root_list,
                command_list: final(self).command_list,
                open_roots: final(self).open_roots,
                clip_stack: final(self).clip_stack,
                containers: final(self).containers,
                next_hover_root: final(self).next_hover_root,
                ..*old(self)
            }),
    {
        self.container_stack.push(cnt);
        self.root_list.push(cnt);
        let head = self.command_list.len();
        self.push_cmd(Command::Jump { target: 0 });
        let mut c = self.containers.get_copy(cnt);
        c.head = Some(head);
        self.containers.set(cnt, c);
        self.open_roots = self.open_roots + 1;

        let overlaps = c.rect.overlaps(self.mouse_pos);
        let better = match self.next_hover_root {
            Some(h) => c.zindex > self.containers.get(h).zindex,
            None => true,
        };
        if overlaps && better {
            self.next_hover_root = Some(cnt);
        }

        self.clip_stack.push(Rect::unclipped());
    }

    /// Closes the innermost container: folds the finished layout's extent
    /// into the container's content size, then pops the layout, the
    /// container stack and the identifier pushed for it.
    pub(crate) fn pop_container(&mut self)
        requires
            old(self).wf(),
            old(self).container_stack@.len() > 0,
            old(self).layout_stack@.len() > 0,
            old(self).open_roots < old(self).container_stack@.len(),
        ensures
            final(self).wf(),
            final(self).container_stack@ == old(self).container_stack@.drop_last(),
            final(self).layout_stack@ == old(self).layout_stack@.drop_last(),
            final(self).id_stack@ == if old(self).id_stack@.len() == 0 {
                old(self).id_stack@
            } else {
                old(self).id_stack@.drop_last()
            },
            ({
                let l = old(self).layout_stack@.last();
                let idx = old(self).container_stack@.last() as int;
                final(self).containers@ == old(self).containers@.update(
                    idx,
                    Container {
                        content_size: Vec2 {
                            x: sat_sub(l.max.x as int, l.body.x as int) as i32,
                            y: sat_sub(l.max.y as int, l.body.y as int) as i32,
                        },
                        ..old(self).containers@[idx]
                    },
                )
            }),
            *final(self) == (Context {
                container_stack: final(self).container_stack,
                layout_stack: final(self).layout_stack,
                id_stack: final(self).id_stack,
                containers: final(self).containers,
                ..*old(self)
            }),
    {
        let layout = match self.layout_stack.pop() {
            Some(l) => l,
            None => {
                proof {
                    assert(false);
                }
                return ;
            },
        };
        let index = self.container_stack.last_copy();
        let mut c = self.containers.get_copy(index);
        c.content_size = Vec2 {
            x: ssub(layout.max.x, layout.body.x),
            y: ssub(layout.max.y, layout.body.y),
        };
        self.containers.set(index, c);
        self.container_stack.pop();
        self.pop_id();
    }


    /// One vertical scrollbar: when the content overflows the body
    /// vertically, tracks a drag of its thumb into the container's
    /// vertical scroll offset (clamped to the overflow), draws base and
    /// thumb, and makes the container the wheel target while the pointer
    /// is over the body; otherwise resets the offset.
    pub(crate) fn scrollbar_v(&mut self, cnt: usize, body: Rect, content_size: Vec2)
        requires
            old(self).wf(),
            cnt < CONTAINER_POOL_SIZE,
            old(self).clip_stack@.len() > 0,
        ensures
            final(self).wf(),
            final(self).containers@.len() == old(self).containers@.len(),
            forall|j: int|
                0 <= j < old(self).containers@.len() && j != cnt as int ==> final(self).containers@[j] == old(self).containers@[j],
            final(self).containers@[cnt as int] == (Container {
                scroll: final(self).containers@[cnt as int].scroll,
                ..old(self).containers@[cnt as int]
            }),
            // No vertical overflow resets the offset; otherwise it stays
            // clamped to the overflow. The horizontal offset is untouched.
            ({
                let maxscroll = sat_sub(content_size.y as int, body.h as int);
                &&& ((maxscroll <= 0 || body.h <= 0) ==> final(self).containers@[cnt as int].scroll.y == 0)
                &&& ((maxscroll > 0 && body.h > 0) ==> 0 <= final(self).containers@[cnt as int].scroll.y <= maxscroll)
                &&& final(self).containers@[cnt as int].scroll.x == old(self).containers@[cnt as int].scroll.x
            }),
            cmds_only_appended(old(self), final(self)),
            appended_non_jump(old(self), final(self)),
            final(self).scroll_target == old(self).scroll_target || final(self).scroll_target
                == Some(cnt),
            *final(self) == (Context {
                containers: final(self).containers,
                command_list: final(self).command_list,
                hover_id: final(self).hover_id,
                focus_id: final(self).focus_id,
                updated_focus: final(self).updated_focus,
                cursor_icon: final(self).cursor_icon,
                last_id: final(self).last_id,
                scroll_target: final(self).scroll_target,
                ..*old(self)
            }),
    {
        let ghost start = *self;
        let maxscroll = ssub(content_size.y, body.h);

        if maxscroll > 0 && body.h > 0 {
            let id = self.create_id("!scrollbarv");

            let mut base = body;
            base.x = sadd(body.x, body.w);
            base.w = self.style.scrollbar_size as i32;

            self.update_widget(id, base, WidgetInteraction::none());

            let mut c = self.containers.get_copy(cnt);
            if self.is_focused(id) && self.mouse_down(crate::MouseButton::Left) {
                c.scroll.y = sadd(c.scroll.y, smuldiv(self.mouse_delta.y, content_size.y, base.h));
            }
            c.scroll.y = iclamp(c.scroll.y, 0, maxscroll);
            self.containers.set(cnt, c);

            let ghost mid1 = *self;
            draw_frame(self, base, WidgetColor::ScrollBase);
            let ghost mid2 = *self;

            let mut thumb = base;
            thumb.h = imax(self.style.thumb_size as i32, smuldiv(base.h, body.h, content_size.y));
            thumb.y = sadd(thumb.y, smuldiv(c.scroll.y, ssub(base.h, thumb.h), maxscroll));

            draw_frame(self, thumb, WidgetColor::ScrollThumb);
            let ghost mid3 = *self;

            if self.is_mouse_over(body) {
                self.scroll_target = Some(cnt);
            }
            proof {
                assert(mid1.command_list@.take(start.command_list@.len() as int)
                    =~= start.command_list@);
                crate::draw::lemma_appended_trans(&start, &mid1, &mid2);
                crate::draw::lemma_appended_trans(&start, &mid2, &mid3);
                assert(final(self).command_list@.take(mid3.command_list@.len() as int)
                    =~= mid3.command_list@);
                crate::draw::lemma_appended_trans(&start, &mid3, final(self));
            }
        } else {
            let mut c = self.containers.get_copy(cnt);
            c.scroll.y = 0;
            self.containers.set(cnt, c);
            proof {
                assert(final(self).command_list@.take(start.command_list@.len() as int)
                    =~= start.command_list@);
            }
        }
    }

    /// One horizontal scrollbar; the mirror image of
    /// [`Context::scrollbar_v`], acting on the horizontal axis.
    pub(crate) fn scrollbar_h(&mut self, cnt: usize, body: Rect, content_size: Vec2)
        requires
            old(self).wf(),
            cnt < CONTAINER_POOL_SIZE,
            old(self).clip_stack@.len() > 0,
        ensures
            final(self).wf(),
            final(self).containers@.len() == old(self).containers@.len(),
            forall|j: int|
                0 <= j < old(self).containers@.len() && j != cnt as int ==> final(self).containers@[j] == old(self).containers@[j],
            final(self).containers@[cnt as int] == (Container {
                scroll: final(self).containers@[cnt as int].scroll,
                ..old(self).containers@[cnt as int]
            }),
            // No horizontal overflow resets the offset; otherwise it
            // stays clamped to the overflow. The vertical offset is
            // untouched.
            ({
                let maxscroll = sat_sub(content_size.x as int, body.w as int);
                &&& ((maxscroll <= 0 || body.w <= 0) ==> final(self).containers@[cnt as int].scroll.x == 0)
                &&& ((maxscroll > 0 && body.w > 0) ==> 0 <= final(self).containers@[cnt as int].scroll.x <= maxscroll)
                &&& final(self).containers@[cnt as int].scroll.y == old(self).containers@[cnt as int].scroll.y
            }),
            cmds_only_appended(old(self), final(self)),
            appended_non_jump(old(self), final(self)),
            final(self).scroll_target == old(self).scroll_target || final(self).scroll_target
                == Some(cnt),
            *final(self) == (Context {
                containers: final(self).containers,
                command_list: final(self).command_list,
                hover_id: final(self).hover_id,
                focus_id: final(self).focus_id,
                updated_focus: final(self).updated_focus,
                cursor_icon: final(self).cursor_icon,
                last_id: final(self).last_id,
                scroll_target: final(self).scroll_target,
                ..*old(self)
            }),
    {
        let ghost start = *self;
        let maxscroll = ssub(content_size.x, body.w);

        if maxscroll > 0 && body.w > 0 {
            let id = self.create_id("!scrollbarh");

            let mut base = body;
            base.y = sadd(body.y, body.h);
            base.h = self.style.scrollbar_size as i32;

            self.update_widget(id, base, WidgetInteraction::none());

            let mut c = self.containers.get_copy(cnt);
            if self.is_focused(id) && self.mouse_down(crate::MouseButton::Left) {
                c.scroll.x = sadd(c.scroll.x, smuldiv(self.mouse_delta.x, content_size.x, base.w));
            }
            c.scroll.x = iclamp(c.scroll.x, 0, maxscroll);
            self.containers.set(cnt, c);

            let ghost mid1 = *self;
            draw_frame(self, base, WidgetColor::ScrollBase);
            let ghost mid2 = *self;

            let mut thumb = base;
            thumb.w = imax(self.style.thumb_size as i32, smuldiv(base.w, body.w, content_size.x));
            thumb.x = sadd(thumb.x, smuldiv(c.scroll.x, ssub(base.w, thumb.w), maxscroll));

            draw_frame(self, thumb, WidgetColor::ScrollThumb);
            let ghost mid3 = *self;

            if self.is_mouse_over(body) {
                self.scroll_target = Some(cnt);
            }
            proof {
                assert(mid1.command_list@.take(start.command_list@.len() as int)
                    =~= start.command_list@);
                crate::draw::lemma_appended_trans(&start, &mid1, &mid2);
                crate::draw::lemma_appended_trans(&start, &mid2, &mid3);
                assert(final(self).command_list@.take(mid3.command_list@.len() as int)
                    =~= mid3.command_list@);
                crate::draw::lemma_appended_trans(&start, &mid3, final(self));
            }
        } else {
            let mut c = self.containers.get_copy(cnt);
            c.scroll.x = 0;
            self.containers.set(cnt, c);
            proof {
                assert(final(self).command_list@.take(start.command_list@.len() as int)
                    =~= start.command_list@);
            }
        }
    }

    /// Shrinks the body to make room for whichever scrollbars the
    /// content overflow demands, then lays both scrollbars out.
    pub(crate) fn scrollbars(&mut self, cnt: usize, body: &mut Rect)
        requires
            old(self).wf(),
            cnt < CONTAINER_POOL_SIZE,
            old(self).clip_stack@.len() > 0,
            old(self).clip_stack@.len() < CLIP_STACK_SIZE,
        ensures
            final(self).wf(),
            final(self).containers@.len() == old(self).containers@.len(),
            forall|j: int|
                0 <= j < old(self).containers@.len() && j != cnt as int ==> final(self).containers@[j] == old(self).containers@[j],
            final(self).containers@[cnt as int] == (Container {
                scroll: final(self).containers@[cnt as int].scroll,
                ..old(self).containers@[cnt as int]
            }),
            // The body shrinks by the scrollbar size on each overflowing
            // axis, and each scroll offset ends clamped into its overflow
            // range (zero where nothing overflows).
            ({
                let content = Vec2 {
                    x: sat_add(
                        old(self).containers@[cnt as int].content_size.x as int,
                        sat_mul(old(self).style.padding as int, 2),
                    ) as i32,
                    y: sat_add(
                        old(self).containers@[cnt as int].content_size.y as int,
                        sat_mul(old(self).style.padding as int, 2),
                    ) as i32,
                };
                let stored = old(self).containers@[cnt as int].body;
                let shrunk = Rect {
                    x: old(body).x,
                    y: old(body).y,
                    w: if content.y > stored.h {
                        sat_sub(old(body).w as int, old(self).style.scrollbar_size as int) as i32
                    } else {
                        old(body).w
                    },
                    h: if content.x > stored.w {
                        sat_sub(old(body).h as int, old(self).style.scrollbar_size as int) as i32
                    } else {
                        old(body).h
                    },
                };
                let maxv = sat_sub(content.y as int, shrunk.h as int);
                let maxh = sat_sub(content.x as int, shrunk.w as int);
                &&& *final(body) == shrunk
                &&& ((maxv <= 0 || shrunk.h <= 0) ==> final(self).containers@[cnt as int].scroll.y == 0)
                &&& ((maxv > 0 && shrunk.h > 0) ==> 0 <= final(self).containers@[cnt as int].scroll.y <= maxv)
                &&& ((maxh <= 0 || shrunk.w <= 0) ==> final(self).containers@[cnt as int].scroll.x == 0)
                &&& ((maxh > 0 && shrunk.w > 0) ==> 0 <= final(self).containers@[cnt as int].scroll.x <= maxh)
            }),
            cmds_only_appended(old(self), final(self)),
            appended_non_jump(old(self), final(self)),
            final(self).clip_stack@ == old(self).clip_stack@,
            final(self).scroll_target == old(self).scroll_target || final(self).scroll_target
                == Some(cnt),
            *final(self) == (Context {
                containers: final(self).containers,
                command_list: final(self).command_list,
                clip_stack: final(self).clip_stack,
                hover_id: final(self).hover_id,
                focus_id: final(self).focus_id,
                updated_focus: final(self).updated_focus,
                cursor_icon: final(self).cursor_icon,
                last_id: final(self).last_id,
                scroll_target: final(self).scroll_target,
                ..*old(self)
            }),
    {
        let scrollbar_size = self.style.scrollbar_size as i32;
        let padding = self.style.padding as i32;

        let cs = self.containers.get_copy(cnt).content_size;
        let content_size = Vec2 { x: sadd(cs.x, smul(padding, 2)), y: sadd(cs.y, smul(padding, 2)) };

        let ghost start = *self;
        self.push_clip_rect(*body);
        let ghost mid0 = *self;

        let container_body = self.containers.get_copy(cnt).body;
        if content_size.y > container_body.h {
            body.w = ssub(body.w, scrollbar_size);
        }
        if content_size.x > container_body.w {
            body.h = ssub(body.h, scrollbar_size);
        }

        self.scrollbar_v(cnt, *body, content_size);
        let ghost mid1 = *self;
        self.scrollbar_h(cnt, *body, content_size);
        let ghost mid2 = *self;

        self.pop_clip_rect();

        proof {
            assert(mid0.command_list@.take(start.command_list@.len() as int)
                =~= start.command_list@);
            crate::draw::lemma_appended_trans(&start, &mid0, &mid1);
            crate::draw::lemma_appended_trans(&start, &mid1, &mid2);
            assert(final(self).command_list@.take(mid2.command_list@.len() as int)
                =~= mid2.command_list@);
            crate::draw::lemma_appended_trans(&start, &mid2, final(self));
            assert(final(self).clip_stack@ =~= old(self).clip_stack@);
        }
    }

    /// Lays the container's body out: fits scrollbars unless they are
    /// switched off, opens the body's flow region (offset by the scroll),
    /// and records the body rectangle.
    pub(crate) fn push_container_body(&mut self, cnt: usize, body: Rect, options: ContainerOptions)
        requires
            old(self).wf(),
            cnt < CONTAINER_POOL_SIZE,
            old(self).clip_stack@.len() > 0,
            old(self).clip_stack@.len() < CLIP_STACK_SIZE,
            old(self).layout_stack@.len() < LAYOUT_STACK_SIZE,
        ensures
            final(self).wf(),
            final(self).containers@.len() == old(self).containers@.len(),
            forall|j: int|
                0 <= j < old(self).containers@.len() && j != cnt as int ==> final(self).containers@[j] == old(self).containers@[j],
            final(self).containers@[cnt as int] == (Container {
                scroll: final(self).containers@[cnt as int].scroll,
                body: final(self).containers@[cnt as int].body,
                ..old(self).containers@[cnt as int]
            }),
            cmds_only_appended(old(self), final(self)),
            appended_non_jump(old(self), final(self)),
            final(self).clip_stack@ == old(self).clip_stack@,
            final(self).layout_stack@.len() == old(self).layout_stack@.len() + 1,
            final(self).layout_stack@.take(old(self).layout_stack@.len() as int) == old(self).layout_stack@,
            *final(self) == (Context {
                containers: final(self).containers,
                command_list: final(self).command_list,
                clip_stack: final(self).clip_stack,
                layout_stack: final(self).layout_stack,
                hover_id: final(self).hover_id,
                focus_id: final(self).focus_id,
                updated_focus: final(self).updated_focus,
                cursor_icon: final(self).cursor_icon,
                last_id: final(self).last_id,
                scroll_target: final(self).scroll_target,
                ..*old(self)
            }),
    {
        let ghost start = *self;
        let mut body = body;
        if options.is_unset(ContainerOption::NoScroll) {
            self.scrollbars(cnt, &mut body);
        }
        let ghost mid1 = *self;

        let padding = self.style.padding as i32;
        let scroll = self.containers.get_copy(cnt).scroll;
        self.push_layout(body.expand(ineg(padding)), scroll);
        let mut c = self.containers.get_copy(cnt);
        c.body = body;
        self.containers.set(cnt, c);

        proof {
            if old(self).command_list@.len() <= final(self).command_list@.len() {
            }
            assert(final(self).command_list@.take(mid1.command_list@.len() as int)
                =~= mid1.command_list@);
            if start.command_list@ == mid1.command_list@ {
                assert(mid1.command_list@.take(start.command_list@.len() as int)
                    =~= start.command_list@);
            }
            crate::draw::lemma_appended_trans(&start, &mid1, final(self));
            assert(final(self).layout_stack@.take(old(self).layout_stack@.len() as int)
                =~= old(self).layout_stack@);
        }
    }

    /// Closes a root container: appends its tail jump record (patched at
    /// frame end), patches its head jump to skip the whole run, and pops
    /// the clipping reset and the container.
    pub(crate) fn end_root_container(&mut self)
        requires
            old(self).wf(),
            old(self).container_stack@.len() > 0,
            old(self).layout_stack@.len() > 0,
            old(self).open_roots > 0,
            ({
                let idx = old(self).container_stack@.last() as int;
                &&& old(self).containers@[idx].head matches Some(h) && (h as int) < old(self).command_list@.len() && (old(self).command_list@[h as int] matches Command::Jump {
                    ..
                })
            }),
        ensures
            final(self).wf(),
            final(self).open_roots == old(self).open_roots - 1,
            final(self).container_stack@ == old(self).container_stack@.drop_last(),
            final(self).clip_stack@ == if old(self).clip_stack@.len() == 0 {
                old(self).clip_stack@
            } else {
                old(self).clip_stack@.drop_last()
            },
            ({
                let idx = old(self).container_stack@.last() as int;
                let h = old(self).containers@[idx].head->Some_0 as int;
                let tail = old(self).command_list@.len();
                // The run is bracketed: the tail jump sits after the run
                // and the head jump skips past it.
                &&& final(self).command_list@.len() == old(self).command_list@.len() + 1
                &&& final(self).command_list@ == old(self).command_list@.push(
                    Command::Jump { target: 0 },
                ).update(h, Command::Jump { target: (tail + 1) as usize })
                &&& final(self).containers@[idx].tail == Some(tail as usize)
                &&& final(self).containers@[idx].head == old(self).containers@[idx].head
                &&& final(self).containers@[idx].rect == old(self).containers@[idx].rect
                &&& forall|j: int|
                    0 <= j < old(self).containers@.len() && j != idx ==> final(self).containers@[j] == old(self).containers@[j]
            }),
            cmds_extended(old(self).command_list@, final(self).command_list@),
            final(self).layout_stack@ == old(self).layout_stack@.drop_last(),
            final(self).id_stack@ == if old(self).id_stack@.len() == 0 {
                old(self).id_stack@
            } else {
                old(self).id_stack@.drop_last()
            },
            *final(self) == (Context {
                container_stack: final(self).container_stack,
                clip_stack: final(self).clip_stack,
                layout_stack: final(self).layout_stack,
                id_stack: final(self).id_stack,
                command_list: final(self).command_list,
                containers: final(self).containers,
                open_roots: final(self).open_roots,
                ..*old(self)
            }),
    {
        let index = self.container_stack.last_copy();
        let tail = self.command_list.len();
        self.command_list.push(Command::Jump { target: 0 });

        let mut c = self.containers.get_copy(index);
        c.tail = Some(tail);
        let head = match c.head {
            Some(h) => h,
            None => {
                proof {
                    assert(false);
                }
                0
            },
        };
        self.containers.set(index, c);

        let commands_len = self.command_list.len();
        self.command_list.set(head, Command::Jump { target: commands_len });
        self.open_roots = self.open_roots - 1;

        self.pop_clip_rect();
        self.pop_container();
    }
}

} // verus!

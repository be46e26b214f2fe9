//! Declarative builders for windows, panels, popups and treenodes: small
//! configuration values that open the corresponding container.

use vstd::prelude::*;

use crate::arith::iclamp;
use crate::container::{decl_keeps_io, spec_container_available, spec_first_pool_match, spec_lru_slot};
use crate::geometry::{Rect, Vec2};
use crate::widget::{widget_frame_kept, widget_ready};
use crate::{
    Container, ContainerOption, ContainerOptions, Context, TextSizeHandler, CLIP_STACK_SIZE,
    CONTAINER_POOL_SIZE, CONTAINER_STACK_SIZE, ID_STACK_SIZE, LAYOUT_STACK_SIZE, ROOT_LIST_SIZE,
};

verus! {

/// A window declaration: title, first-appearance placement, option
/// switches and optional size clamps.
#[derive(PartialEq, Eq, Debug)]
pub struct Window {
    pub title: String,
    pub rect: Rect,
    pub options: ContainerOptions,
    pub min_size: Option<Vec2>,
    pub max_size: Option<Vec2>,
}

impl Window {
    /// A window with the given title, placed at `rect` the first time it
    /// appears.
    pub fn new(title: &str, rect: Rect) -> (r: Window)
        ensures
            r.title@ == title@,
            r.rect == rect,
            r.options == crate::spec_no_options(),
            r.min_size is None,
            r.max_size is None,
    {
        Window {
            title: <String as vstd::string::StringExecFns>::from_str(title),
            rect,
            options: ContainerOptions::none(),
            min_size: None,
            max_size: None,
        }
    }

    /// Clamps the window to at least this size.
    pub fn min_size(self, size: Vec2) -> (r: Window)
        ensures
            r == (Window { min_size: Some(size), ..self }),
    {
        Window { min_size: Some(size), ..self }
    }

    /// Clamps the window to at most this size.
    pub fn max_size(self, size: Vec2) -> (r: Window)
        ensures
            r == (Window { max_size: Some(size), ..self }),
    {
        Window { max_size: Some(size), ..self }
    }

    /// Suppresses the background frame.
    pub fn no_frame(self) -> (r: Window)
        ensures
            r == (Window {
                options: self.options.spec_with(ContainerOption::NoFrame, true),
                ..self
            }),
    {
        let mut options = self.options;
        options.set(ContainerOption::NoFrame);
        Window { options, ..self }
    }

    /// Suppresses the title bar.
    pub fn no_title_bar(self) -> (r: Window)
        ensures
            r == (Window {
                options: self.options.spec_with(ContainerOption::NoTitle, true),
                ..self
            }),
    {
        let mut options = self.options;
        options.set(ContainerOption::NoTitle);
        Window { options, ..self }
    }

    /// Makes the window's widgets inert.
    pub fn no_interact(self) -> (r: Window)
        ensures
            r == (Window {
                options: self.options.spec_with(ContainerOption::NoInteract, true),
                ..self
            }),
    {
        let mut options = self.options;
        options.set(ContainerOption::NoInteract);
        Window { options, ..self }
    }

    /// Removes the close box.
    pub fn no_close(self) -> (r: Window)
        ensures
            r == (Window {
                options: self.options.spec_with(ContainerOption::NoClose, true),
                ..self
            }),
    {
        let mut options = self.options;
        options.set(ContainerOption::NoClose);
        Window { options, ..self }
    }

    /// Removes the resize handle.
    pub fn no_resize(self) -> (r: Window)
        ensures
            r == (Window {
                options: self.options.spec_with(ContainerOption::NoResize, true),
                ..self
            }),
    {
        let mut options = self.options;
        options.set(ContainerOption::NoResize);
        Window { options, ..self }
    }

    /// Removes the scrollbars.
    pub fn no_scroll(self) -> (r: Window)
        ensures
            r == (Window {
                options: self.options.spec_with(ContainerOption::NoScroll, true),
                ..self
            }),
    {
        let mut options = self.options;
        options.set(ContainerOption::NoScroll);
        Window { options, ..self }
    }

    /// Sizes the window to its content each frame.
    pub fn auto_size(self) -> (r: Window)
        ensures
            r == (Window {
                options: self.options.spec_with(ContainerOption::AutoSize, true),
                ..self
            }),
    {
        let mut options = self.options;
        options.set(ContainerOption::AutoSize);
        Window { options, ..self }
    }

    /// Closes the window when a click lands outside it.
    pub fn popup(self) -> (r: Window)
        ensures
            r == (Window {
                options: self.options.spec_with(ContainerOption::Popup, true),
                ..self
            }),
    {
        let mut options = self.options;
        options.set(ContainerOption::Popup);
        Window { options, ..self }
    }

    /// Opens the window, applying the size clamps; the caller declares
    /// its contents and calls [`Context::end_window`] exactly when this
    /// returns true.
    pub fn begin<F: TextSizeHandler>(self, ctx: &mut Context<F>) -> (opened: bool)
        requires
            old(ctx).wf(),
            self.title@.len() > 0,
            old(ctx).container_stack@.len() < CONTAINER_STACK_SIZE,
            old(ctx).root_list@.len() < ROOT_LIST_SIZE,
            old(ctx).clip_stack@.len() + 2 <= CLIP_STACK_SIZE,
            old(ctx).id_stack@.len() < ID_STACK_SIZE,
            old(ctx).layout_stack@.len() < LAYOUT_STACK_SIZE,
            old(ctx).last_zindex < i64::MAX,
            self.min_size matches Some(mn) && self.max_size matches Some(mx) ==> mn.x <= mx.x
                && mn.y <= mx.y,
            self.min_size matches Some(mn) ==> mn.x <= 0x7fffffff && mn.y <= 0x7fffffff,
        ensures
            final(ctx).wf(),
            opened ==> final(ctx).container_stack@.len() == old(ctx).container_stack@.len() + 1
                && final(ctx).layout_stack@.len() == old(ctx).layout_stack@.len() + 1 && final(ctx).clip_stack@.len() == old(ctx).clip_stack@.len() + 2 && final(ctx).open_roots == old(ctx).open_roots + 1 && final(ctx).container_stack@.last() < CONTAINER_POOL_SIZE && ({
                let idx = final(ctx).container_stack@.last() as int;
                &&& final(ctx).containers@[idx].head is Some
                &&& (final(ctx).containers@[idx].head->Some_0 as int) < final(ctx).command_list@.len()
                &&& (final(ctx).command_list@[final(ctx).containers@[idx].head->Some_0 as int]
                    matches crate::Command::Jump { .. })
            }),
            !opened ==> final(ctx).container_stack@ == old(ctx).container_stack@ && final(ctx).layout_stack@ == old(ctx).layout_stack@ && final(ctx).clip_stack@ == old(ctx).clip_stack@ && final(ctx).open_roots == old(ctx).open_roots,
    {
        let opened = ctx.begin_window(self.title.as_str(), self.rect, self.options);
        if !opened {
            return false;
        }

        if self.min_size.is_some() || self.max_size.is_some() {
            let index = ctx.container_stack.last_copy();
            let mut c = ctx.container(index);

            let mn = match self.min_size {
                Some(v) => v,
                None => Vec2 { x: 0, y: 0 },
            };
            let mx = match self.max_size {
                Some(v) => v,
                None => Vec2 { x: 0x7fffffff, y: 0x7fffffff },
            };

            c.rect.w = iclamp(c.rect.w, mn.x, mx.x);
            c.rect.h = iclamp(c.rect.h, mn.y, mx.y);
            ctx.set_container(index, c);
        }

        true
    }
}

/// A panel declaration: a nested container filling the next layout
/// rectangle.
#[derive(PartialEq, Eq, Debug)]
pub struct Panel {
    pub name: String,
    pub options: ContainerOptions,
}

impl Panel {
    /// A panel with the given name.
    pub fn new(name: &str) -> (r: Panel)
        ensures
            r.name@ == name@,
            r.options == crate::spec_no_options(),
    {
        Panel {
            name: <String as vstd::string::StringExecFns>::from_str(name),
            options: ContainerOptions::none(),
        }
    }

    /// Suppresses the background frame.
    pub fn no_frame(self) -> (r: Panel)
        ensures
            r == (Panel {
                options: self.options.spec_with(ContainerOption::NoFrame, true),
                ..self
            }),
    {
        let mut options = self.options;
        options.set(ContainerOption::NoFrame);
        Panel { options, ..self }
    }

    /// Removes the scrollbars.
    pub fn no_scroll(self) -> (r: Panel)
        ensures
            r == (Panel {
                options: self.options.spec_with(ContainerOption::NoScroll, true),
                ..self
            }),
    {
        let mut options = self.options;
        options.set(ContainerOption::NoScroll);
        Panel { options, ..self }
    }

    /// Opens the panel; the caller declares its contents and calls
    /// [`Context::end_panel`] exactly when this returns true.
    pub fn begin<F: TextSizeHandler>(self, ctx: &mut Context<F>) -> (opened: bool)
        requires
            old(ctx).wf(),
            self.name@.len() > 0,
            old(ctx).container_stack@.len() < CONTAINER_STACK_SIZE,
            old(ctx).clip_stack@.len() > 0,
            old(ctx).clip_stack@.len() + 1 < CLIP_STACK_SIZE,
            old(ctx).id_stack@.len() < ID_STACK_SIZE,
            old(ctx).layout_stack@.len() > 0,
            old(ctx).layout_stack@.len() < LAYOUT_STACK_SIZE,
            old(ctx).last_zindex < i64::MAX,
        ensures
            final(ctx).wf(),
            final(ctx).open_roots == old(ctx).open_roots,
            opened ==> final(ctx).container_stack@.len() == old(ctx).container_stack@.len() + 1
                && final(ctx).layout_stack@.len() == old(ctx).layout_stack@.len() + 1 && final(ctx).clip_stack@.len() == old(ctx).clip_stack@.len() + 1 && final(ctx).open_roots < final(ctx).container_stack@.len(),
            !opened ==> final(ctx).container_stack@ == old(ctx).container_stack@ && final(ctx).layout_stack@ == old(ctx).layout_stack@ && final(ctx).clip_stack@ == old(ctx).clip_stack@ && final(ctx).id_stack@ == old(ctx).id_stack@,
    {
        ctx.begin_panel(self.name.as_str(), self.options)
    }
}

/// A popup declaration: a window that appears at the pointer when opened
/// and closes on a click elsewhere.
#[derive(PartialEq, Eq, Debug)]
pub struct Popup {
    pub name: String,
}

impl Popup {
    /// A popup with the given name.
    pub fn new(name: &str) -> (r: Popup)
        ensures
            r.name@ == name@,
    {
        Popup { name: <String as vstd::string::StringExecFns>::from_str(name) }
    }

    /// Call when some action occurs (a button press, say) to make the
    /// popup appear: places it at the pointer, opens it and brings it to
    /// the front.
    pub fn open<F: TextSizeHandler>(&self, ctx: &mut Context<F>)
        requires
            old(ctx).wf(),
            old(ctx).last_zindex + 2 <= i64::MAX,
        ensures
            final(ctx).wf(),
            final(ctx).container_stack@ == old(ctx).container_stack@,
            final(ctx).clip_stack@ == old(ctx).clip_stack@,
            final(ctx).id_stack@ == old(ctx).id_stack@,
            final(ctx).layout_stack@ == old(ctx).layout_stack@,
            final(ctx).open_roots == old(ctx).open_roots,
            final(ctx).command_list@ == old(ctx).command_list@,
            // The popup's container — the slot its name maps to, or a
            // freshly claimed one — is opened, placed at the pointer as a
            // one-pixel seed for auto-sizing, raised above every other
            // container, and adopted as the hover root.
            forall|i: int|
                #[trigger] crate::container::spec_first_pool_match(
                    old(ctx).container_pool@,
                    old(ctx).spec_id_of(self.name@),
                    i,
                ) ==> ({
                    &&& final(ctx).containers@[i].open
                    &&& final(ctx).containers@[i].rect == (Rect {
                        x: old(ctx).mouse_pos.x,
                        y: old(ctx).mouse_pos.y,
                        w: 1,
                        h: 1,
                    })
                    &&& final(ctx).containers@[i].zindex == final(ctx).last_zindex
                    &&& final(ctx).hover_root == Some(i as usize)
                    &&& final(ctx).next_hover_root == Some(i as usize)
                    &&& forall|j: int|
                        0 <= j < CONTAINER_POOL_SIZE && j != i ==> (#[trigger] final(ctx).containers@[j]).zindex < final(ctx).containers@[i].zindex
                }),
            (!(exists|i: int|
                crate::container::spec_first_pool_match(
                    old(ctx).container_pool@,
                    old(ctx).spec_id_of(self.name@),
                    i,
                )) && !crate::container::spec_container_available(
                old(ctx).container_pool@,
                old(ctx).frame,
                old(ctx).spec_id_of(self.name@),
                crate::spec_no_options(),
            )) ==> *final(ctx) == (Context { last_id: final(ctx).last_id, ..*old(ctx) }),
            (!(exists|i: int|
                crate::container::spec_first_pool_match(
                    old(ctx).container_pool@,
                    old(ctx).spec_id_of(self.name@),
                    i,
                ))) ==> forall|i: int|
                #[trigger] crate::container::spec_lru_slot(
                    old(ctx).container_pool@,
                    old(ctx).frame,
                    i,
                ) ==> ({
                    &&& final(ctx).containers@[i].open
                    &&& final(ctx).containers@[i].rect == (Rect {
                        x: old(ctx).mouse_pos.x,
                        y: old(ctx).mouse_pos.y,
                        w: 1,
                        h: 1,
                    })
                    &&& final(ctx).containers@[i].zindex == final(ctx).last_zindex
                    &&& final(ctx).hover_root == Some(i as usize)
                    &&& final(ctx).next_hover_root == Some(i as usize)
                    &&& forall|j: int|
                        0 <= j < CONTAINER_POOL_SIZE && j != i ==> (#[trigger] final(ctx).containers@[j]).zindex < final(ctx).containers@[i].zindex
                }),
    {
        let id = ctx.create_id(self.name.as_str());

        if let Some(cnt_idx) = ctx.get_container(id, ContainerOptions::none()) {
            // Adopt the popup as the hover root so the click that opened
            // it does not immediately close it.
            ctx.hover_root = Some(cnt_idx);
            ctx.next_hover_root = Some(cnt_idx);

            let mut c = ctx.container(cnt_idx);
            c.rect = Rect { x: ctx.mouse_pos.x, y: ctx.mouse_pos.y, w: 1, h: 1 };
            c.open = true;
            ctx.set_container(cnt_idx, c);

            ctx.bring_to_front(cnt_idx);
        }
    }

    /// Declares the popup. Call it every frame like a window: it shows
    /// something only after [`Popup::open`] was called. The caller
    /// declares contents and calls [`Context::end_window`] exactly when
    /// this returns true.
    pub fn begin<F: TextSizeHandler>(self, ctx: &mut Context<F>) -> (opened: bool)
        requires
            old(ctx).wf(),
            self.name@.len() > 0,
            old(ctx).container_stack@.len() < CONTAINER_STACK_SIZE,
            old(ctx).root_list@.len() < ROOT_LIST_SIZE,
            old(ctx).clip_stack@.len() + 2 <= CLIP_STACK_SIZE,
            old(ctx).id_stack@.len() < ID_STACK_SIZE,
            old(ctx).layout_stack@.len() < LAYOUT_STACK_SIZE,
            old(ctx).last_zindex < i64::MAX,
        ensures
            final(ctx).wf(),
            opened ==> final(ctx).container_stack@.len() == old(ctx).container_stack@.len() + 1
                && final(ctx).layout_stack@.len() == old(ctx).layout_stack@.len() + 1 && final(ctx).clip_stack@.len() == old(ctx).clip_stack@.len() + 2 && final(ctx).open_roots == old(ctx).open_roots + 1 && final(ctx).container_stack@.last() < CONTAINER_POOL_SIZE && ({
                let idx = final(ctx).container_stack@.last() as int;
                &&& final(ctx).containers@[idx].head is Some
                &&& (final(ctx).containers@[idx].head->Some_0 as int) < final(ctx).command_list@.len()
                &&& (final(ctx).command_list@[final(ctx).containers@[idx].head->Some_0 as int]
                    matches crate::Command::Jump { .. })
            }),
    {
        let mut options = ContainerOptions::none();
        options.set(ContainerOption::Popup);
        options.set(ContainerOption::AutoSize);
        options.set(ContainerOption::NoResize);
        options.set(ContainerOption::NoScroll);
        options.set(ContainerOption::NoTitle);
        options.set(ContainerOption::Closed);

        ctx.begin_window(self.name.as_str(), Rect { x: 0, y: 0, w: 0, h: 0 }, options)
    }
}

/// A treenode declaration: a header whose expanded state persists in the
/// treenode pool, indenting its nested content.
#[derive(PartialEq, Eq, Debug)]
pub struct Treenode {
    pub label: String,
    pub expanded: bool,
}

impl Treenode {
    /// A treenode with the given label, collapsed by default.
    pub fn new(label: &str) -> (r: Treenode)
        ensures
            r.label@ == label@,
            !r.expanded,
    {
        Treenode { label: <String as vstd::string::StringExecFns>::from_str(label), expanded: false }
    }

    /// Makes the treenode start expanded the first time it appears.
    pub fn expanded(self, expanded: bool) -> (r: Treenode)
        ensures
            r == (Treenode { expanded, ..self }),
    {
        Treenode { expanded, ..self }
    }

    /// Opens the treenode; the caller declares its nested content and
    /// calls [`Context::end_treenode`] exactly when this returns true.
    pub fn begin<F: TextSizeHandler>(self, ctx: &mut Context<F>) -> (opened: bool)
        requires
            old(ctx).wf(),
            old(ctx).layout_stack@.len() > 0,
            old(ctx).clip_stack@.len() > 0,
            old(ctx).clip_stack@.len() < CLIP_STACK_SIZE,
            old(ctx).id_stack@.len() < ID_STACK_SIZE,
        ensures
            final(ctx).wf(),
            final(ctx).container_stack@ == old(ctx).container_stack@,
            final(ctx).clip_stack@ == old(ctx).clip_stack@,
            final(ctx).layout_stack@.len() == old(ctx).layout_stack@.len(),
            final(ctx).open_roots == old(ctx).open_roots,
            opened ==> final(ctx).id_stack@.len() == old(ctx).id_stack@.len() + 1,
            !opened ==> final(ctx).id_stack@ == old(ctx).id_stack@,
    {
        ctx.begin_treenode(self.label.as_str(), self.expanded)
    }
}

} // verus!

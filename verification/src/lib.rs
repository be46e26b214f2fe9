//! An immediate-mode GUI engine.
//!
//! The application redeclares its whole UI every frame as a linear sequence
//! of widget calls; the engine reconstructs persistent state (focus, hover,
//! scroll, window placement, z-order) across frames from stable per-widget
//! identifiers, and accumulates a flat, jump-spliced draw-command buffer
//! that a caller-owned consumer drains once per frame.

pub mod arith;
pub mod builders;
pub mod const_vec;
pub mod container;
pub mod draw;
pub mod frame;
pub mod geometry;
pub mod id;
pub mod ids;
pub mod input;
pub mod interact;
pub mod layout;
pub mod pool;
pub mod style;
pub mod text_buf;
pub mod theme;
pub mod widget;
pub mod window;

use vstd::prelude::*;

use crate::const_vec::ConstVec;
use crate::geometry::{Rect, Vec2};
use crate::id::Id;
use crate::style::{Color, FontId, Style};
use crate::text_buf::ConstStr;

verus! {

/// Capacity of the per-frame draw-command buffer.
pub const COMMAND_LIST_SIZE: usize = 4096;

/// Capacity of the per-frame list of root containers.
pub const ROOT_LIST_SIZE: usize = 32;

/// Capacity of the stack of open containers.
pub const CONTAINER_STACK_SIZE: usize = 32;

/// Capacity of the clip-rectangle stack.
pub const CLIP_STACK_SIZE: usize = 32;

/// Capacity of the identifier stack.
pub const ID_STACK_SIZE: usize = 32;

/// Capacity of the layout stack.
pub const LAYOUT_STACK_SIZE: usize = 16;

/// Number of slots in the container pool.
pub const CONTAINER_POOL_SIZE: usize = 48;

/// Number of slots in the treenode pool.
pub const TREENODE_POOL_SIZE: usize = 48;

/// Most columns a layout row can declare.
pub const MAX_WIDTHS: usize = 16;

/// Byte capacity of the numeric-edit buffer.
pub const MAX_FMT: usize = 127;

/// Byte capacity of the per-frame text-input buffer.
pub const MAX_TEXT_STORE: usize = 1024;

/// The icons of the engine's fixed glyph set.
#[derive(Clone, Copy, PartialEq, Eq, Structural, Debug)]
pub enum Icon {
    Blank,
    Close,
    Check,
    Collapsed,
    Expanded,
    Resize,
}

/// Cursor shapes a widget can ask the windowing layer to show.
#[derive(Clone, Copy, PartialEq, Eq, Structural, Debug)]
pub enum CursorIcon {
    Hand,
    Text,
    Drag,
    Resize,
}

/// What a widget reported this frame: whether it is active, was
/// submitted (clicked or confirmed), or changed its value.
#[derive(Clone, Copy, PartialEq, Eq, Structural, Debug)]
pub struct Response {
    pub active: bool,
    pub submit: bool,
    pub change: bool,
}

impl Response {
    /// A response with nothing reported.
    pub fn none() -> (r: Response)
        ensures
            r == (Response { active: false, submit: false, change: false }),
    {
        Response { active: false, submit: false, change: false }
    }
}

/// The behavior switches a container or widget can carry.
#[derive(Clone, Copy, PartialEq, Eq, Structural, Debug)]
pub enum ContainerOption {
    AlignCenter,
    AlignRight,
    NoInteract,
    NoFrame,
    NoResize,
    NoScroll,
    NoClose,
    NoTitle,
    HoldFocus,
    AutoSize,
    Popup,
    Closed,
}

/// A set of [`ContainerOption`] switches.
#[derive(Clone, Copy, PartialEq, Eq, Structural, Debug)]
pub struct ContainerOptions {
    pub align_center: bool,
    pub align_right: bool,
    pub no_interact: bool,
    pub no_frame: bool,
    pub no_resize: bool,
    pub no_scroll: bool,
    pub no_close: bool,
    pub no_title: bool,
    pub hold_focus: bool,
    pub auto_size: bool,
    pub popup: bool,
    pub closed: bool,
}

/// The empty option set.
pub open spec fn spec_no_options() -> ContainerOptions {
    ContainerOptions {
        align_center: false,
        align_right: false,
        no_interact: false,
        no_frame: false,
        no_resize: false,
        no_scroll: false,
        no_close: false,
        no_title: false,
        hold_focus: false,
        auto_size: false,
        popup: false,
        closed: false,
    }
}

impl ContainerOptions {
    /// Whether the switch is set.
    pub open spec fn spec_is_set(self, o: ContainerOption) -> bool {
        match o {
            ContainerOption::AlignCenter => self.align_center,
            ContainerOption::AlignRight => self.align_right,
            ContainerOption::NoInteract => self.no_interact,
            ContainerOption::NoFrame => self.no_frame,
            ContainerOption::NoResize => self.no_resize,
            ContainerOption::NoScroll => self.no_scroll,
            ContainerOption::NoClose => self.no_close,
            ContainerOption::NoTitle => self.no_title,
            ContainerOption::HoldFocus => self.hold_focus,
            ContainerOption::AutoSize => self.auto_size,
            ContainerOption::Popup => self.popup,
            ContainerOption::Closed => self.closed,
        }
    }

    /// The set with the switch forced to `v`.
    pub open spec fn spec_with(self, o: ContainerOption, v: bool) -> ContainerOptions {
        match o {
            ContainerOption::AlignCenter => ContainerOptions { align_center: v, ..self },
            ContainerOption::AlignRight => ContainerOptions { align_right: v, ..self },
            ContainerOption::NoInteract => ContainerOptions { no_interact: v, ..self },
            ContainerOption::NoFrame => ContainerOptions { no_frame: v, ..self },
            ContainerOption::NoResize => ContainerOptions { no_resize: v, ..self },
            ContainerOption::NoScroll => ContainerOptions { no_scroll: v, ..self },
            ContainerOption::NoClose => ContainerOptions { no_close: v, ..self },
            ContainerOption::NoTitle => ContainerOptions { no_title: v, ..self },
            ContainerOption::HoldFocus => ContainerOptions { hold_focus: v, ..self },
            ContainerOption::AutoSize => ContainerOptions { auto_size: v, ..self },
            ContainerOption::Popup => ContainerOptions { popup: v, ..self },
            ContainerOption::Closed => ContainerOptions { closed: v, ..self },
        }
    }

    /// The empty set: every switch off.
    pub fn none() -> (r: ContainerOptions)
        ensures
            r == spec_no_options(),
    {
        ContainerOptions {
            align_center: false,
            align_right: false,
            no_interact: false,
            no_frame: false,
            no_resize: false,
            no_scroll: false,
            no_close: false,
            no_title: false,
            hold_focus: false,
            auto_size: false,
            popup: false,
            closed: false,
        }
    }

    /// Whether the switch is set.
    pub fn is_set(&self, o: ContainerOption) -> (r: bool)
        ensures
            r == self.spec_is_set(o),
    {
        match o {
            ContainerOption::AlignCenter => self.align_center,
            ContainerOption::AlignRight => self.align_right,
            ContainerOption::NoInteract => self.no_interact,
            ContainerOption::NoFrame => self.no_frame,
            ContainerOption::NoResize => self.no_resize,
            ContainerOption::NoScroll => self.no_scroll,
            ContainerOption::NoClose => self.no_close,
            ContainerOption::NoTitle => self.no_title,
            ContainerOption::HoldFocus => self.hold_focus,
            ContainerOption::AutoSize => self.auto_size,
            ContainerOption::Popup => self.popup,
            ContainerOption::Closed => self.closed,
        }
    }

    /// Whether the switch is clear.
    pub fn is_unset(&self, o: ContainerOption) -> (r: bool)
        ensures
            r == !self.spec_is_set(o),
    {
        !self.is_set(o)
    }

    /// Turns the switch on.
    #[verifier::rlimit(50)]
    pub fn set(&mut self, o: ContainerOption)
        ensures
            *final(self) == old(self).spec_with(o, true),
    {
        match o {
            ContainerOption::AlignCenter => self.align_center = true,
            ContainerOption::AlignRight => self.align_right = true,
            ContainerOption::NoInteract => self.no_interact = true,
            ContainerOption::NoFrame => self.no_frame = true,
            ContainerOption::NoResize => self.no_resize = true,
            ContainerOption::NoScroll => self.no_scroll = true,
            ContainerOption::NoClose => self.no_close = true,
            ContainerOption::NoTitle => self.no_title = true,
            ContainerOption::HoldFocus => self.hold_focus = true,
            ContainerOption::AutoSize => self.auto_size = true,
            ContainerOption::Popup => self.popup = true,
            ContainerOption::Closed => self.closed = true,
        }
    }

    /// Turns the switch off.
    #[verifier::rlimit(50)]
    pub fn unset(&mut self, o: ContainerOption)
        ensures
            *final(self) == old(self).spec_with(o, false),
    {
        match o {
            ContainerOption::AlignCenter => self.align_center = false,
            ContainerOption::AlignRight => self.align_right = false,
            ContainerOption::NoInteract => self.no_interact = false,
            ContainerOption::NoFrame => self.no_frame = false,
            ContainerOption::NoResize => self.no_resize = false,
            ContainerOption::NoScroll => self.no_scroll = false,
            ContainerOption::NoClose => self.no_close = false,
            ContainerOption::NoTitle => self.no_title = false,
            ContainerOption::HoldFocus => self.hold_focus = false,
            ContainerOption::AutoSize => self.auto_size = false,
            ContainerOption::Popup => self.popup = false,
            ContainerOption::Closed => self.closed = false,
        }
    }
}

/// Mouse buttons the engine distinguishes.
#[derive(Clone, Copy, PartialEq, Eq, Structural, Debug)]
pub enum MouseButton {
    Left,
    Right,
    Middle,
}

/// Which mouse buttons are in a given state.
#[derive(Clone, Copy, PartialEq, Eq, Structural, Debug)]
pub struct MouseState {
    pub left: bool,
    pub right: bool,
    pub middle: bool,
}

impl MouseState {
    /// Whether the button is in this state.
    pub open spec fn spec_is_set(self, b: MouseButton) -> bool {
        match b {
            MouseButton::Left => self.left,
            MouseButton::Right => self.right,
            MouseButton::Middle => self.middle,
        }
    }

    /// Whether any button is in this state.
    pub open spec fn spec_any(self) -> bool {
        self.left || self.right || self.middle
    }

    /// No button.
    pub fn none() -> (r: MouseState)
        ensures
            r == (MouseState { left: false, right: false, middle: false }),
    {
        MouseState { left: false, right: false, middle: false }
    }

    /// Whether the button is in this state.
    pub fn is_set(&self, b: MouseButton) -> (r: bool)
        ensures
            r == self.spec_is_set(b),
    {
        match b {
            MouseButton::Left => self.left,
            MouseButton::Right => self.right,
            MouseButton::Middle => self.middle,
        }
    }

    /// Marks the button.
    pub fn set(&mut self, b: MouseButton)
        ensures
            *final(self) == match b {
                MouseButton::Left => MouseState { left: true, ..*old(self) },
                MouseButton::Right => MouseState { right: true, ..*old(self) },
                MouseButton::Middle => MouseState { middle: true, ..*old(self) },
            },
    {
        match b {
            MouseButton::Left => self.left = true,
            MouseButton::Right => self.right = true,
            MouseButton::Middle => self.middle = true,
        }
    }

    /// Clears the button.
    pub fn unset(&mut self, b: MouseButton)
        ensures
            *final(self) == match b {
                MouseButton::Left => MouseState { left: false, ..*old(self) },
                MouseButton::Right => MouseState { right: false, ..*old(self) },
                MouseButton::Middle => MouseState { middle: false, ..*old(self) },
            },
    {
        match b {
            MouseButton::Left => self.left = false,
            MouseButton::Right => self.right = false,
            MouseButton::Middle => self.middle = false,
        }
    }
}

/// The modifier-like keys the engine tracks.
#[derive(Clone, Copy, PartialEq, Eq, Structural, Debug)]
pub enum ModKey {
    Shift,
    Ctrl,
    Alt,
    Backspace,
    Return,
}

/// Which modifier-like keys are in a given state.
#[derive(Clone, Copy, PartialEq, Eq, Structural, Debug)]
pub struct ModKeyState {
    pub shift: bool,
    pub ctrl: bool,
    pub alt: bool,
    pub backspace: bool,
    pub ret: bool,
}

impl ModKeyState {
    /// Whether the key is in this state.
    pub open spec fn spec_is_set(self, k: ModKey) -> bool {
        match k {
            ModKey::Shift => self.shift,
            ModKey::Ctrl => self.ctrl,
            ModKey::Alt => self.alt,
            ModKey::Backspace => self.backspace,
            ModKey::Return => self.ret,
        }
    }

    /// No key.
    pub fn none() -> (r: ModKeyState)
        ensures
            r == (ModKeyState {
                shift: false,
                ctrl: false,
                alt: false,
                backspace: false,
                ret: false,
            }),
    {
        ModKeyState { shift: false, ctrl: false, alt: false, backspace: false, ret: false }
    }

    /// Whether the key is in this state.
    pub fn is_set(&self, k: ModKey) -> (r: bool)
        ensures
            r == self.spec_is_set(k),
    {
        match k {
            ModKey::Shift => self.shift,
            ModKey::Ctrl => self.ctrl,
            ModKey::Alt => self.alt,
            ModKey::Backspace => self.backspace,
            ModKey::Return => self.ret,
        }
    }

    /// Marks the key.
    pub fn set(&mut self, k: ModKey)
        ensures
            final(self).spec_is_set(k),
            forall|j: ModKey| j != k ==> final(self).spec_is_set(j) == old(self).spec_is_set(j),
    {
        match k {
            ModKey::Shift => self.shift = true,
            ModKey::Ctrl => self.ctrl = true,
            ModKey::Alt => self.alt = true,
            ModKey::Backspace => self.backspace = true,
            ModKey::Return => self.ret = true,
        }
    }

    /// Clears the key.
    pub fn unset(&mut self, k: ModKey)
        ensures
            !final(self).spec_is_set(k),
            forall|j: ModKey| j != k ==> final(self).spec_is_set(j) == old(self).spec_is_set(j),
    {
        match k {
            ModKey::Shift => self.shift = false,
            ModKey::Ctrl => self.ctrl = false,
            ModKey::Alt => self.alt = false,
            ModKey::Backspace => self.backspace = false,
            ModKey::Return => self.ret = false,
        }
    }
}

/// How the hover/focus resolver should treat a widget: its option
/// switches, an optional cursor hint, and whether that hint persists
/// while the widget is focused even if the pointer leaves its bounds
/// (needed for drag-style widgets).
#[derive(Clone, Copy, PartialEq, Eq, Structural, Debug)]
pub struct WidgetInteraction {
    pub options: ContainerOptions,
    pub cursor: Option<CursorIcon>,
    pub retain_cursor_focus: bool,
}

impl WidgetInteraction {
    /// The default interaction: no switches, no cursor hint.
    pub fn none() -> (r: WidgetInteraction)
        ensures
            r == (WidgetInteraction {
                options: spec_no_options(),
                cursor: None::<CursorIcon>,
                retain_cursor_focus: false,
            }),
    {
        WidgetInteraction {
            options: ContainerOptions::none(),
            cursor: None,
            retain_cursor_focus: false,
        }
    }

    /// An interaction carrying the given option switches.
    pub fn from_options(options: ContainerOptions) -> (r: WidgetInteraction)
        ensures
            r == (WidgetInteraction {
                options,
                cursor: None::<CursorIcon>,
                retain_cursor_focus: false,
            }),
    {
        WidgetInteraction { options, cursor: None, retain_cursor_focus: false }
    }

    /// Adds a cursor hint shown while the widget is hovered.
    pub fn cursor(self, cursor: CursorIcon) -> (r: WidgetInteraction)
        ensures
            r == (WidgetInteraction { cursor: Some(cursor), ..self }),
    {
        WidgetInteraction { cursor: Some(cursor), ..self }
    }

    /// Keeps the cursor hint while the widget is focused, even when the
    /// pointer leaves its bounds; only meaningful together with
    /// [`WidgetInteraction::cursor`].
    pub fn retain_cursor_focus(self) -> (r: WidgetInteraction)
        ensures
            r == (WidgetInteraction { retain_cursor_focus: true, ..self }),
    {
        WidgetInteraction { retain_cursor_focus: true, ..self }
    }

    /// Makes the widget inert: it never hovers or takes focus.
    pub fn no_interact(self) -> (r: WidgetInteraction)
        ensures
            r == (WidgetInteraction {
                options: self.options.spec_with(ContainerOption::NoInteract, true),
                ..self
            }),
    {
        let mut options = self.options;
        options.set(ContainerOption::NoInteract);
        WidgetInteraction { options, ..self }
    }

    /// Keeps focus while a mouse button stays down.
    pub fn hold_focus(self) -> (r: WidgetInteraction)
        ensures
            r == (WidgetInteraction {
                options: self.options.spec_with(ContainerOption::HoldFocus, true),
                ..self
            }),
    {
        let mut options = self.options;
        options.set(ContainerOption::HoldFocus);
        WidgetInteraction { options, ..self }
    }
}

/// One record of the draw-command buffer.
///
/// The buffer is append-only within a frame; `Jump` records are the only
/// ones whose payload is patched afterwards, to splice per-container runs
/// into the final z-order.
#[derive(PartialEq, Eq, Debug)]
pub enum Command {
    Jump { target: usize },
    Clip { rect: Rect },
    Rect { rect: Rect, color: Color },
    Text { font: FontId, pos: Vec2, color: Color, text: String },
    Icon { id: Icon, rect: Rect, color: Color },
}

/// One slot of a persistence pool: which identity holds it, and the frame
/// on which that identity was last touched.
#[derive(Clone, Copy, PartialEq, Eq, Structural, Debug)]
pub struct PoolItem {
    pub id: Id,
    pub last_update: u64,
}

impl PoolItem {
    /// A vacant slot.
    pub fn vacant() -> (r: PoolItem)
        ensures
            r == (PoolItem { id: Id(0), last_update: 0 }),
    {
        PoolItem { id: Id(0), last_update: 0 }
    }
}

/// A fresh, closed container with no placement.
pub open spec fn spec_fresh_container() -> Container {
    Container {
        rect: Rect { x: 0, y: 0, w: 0, h: 0 },
        body: Rect { x: 0, y: 0, w: 0, h: 0 },
        content_size: Vec2 { x: 0, y: 0 },
        scroll: Vec2 { x: 0, y: 0 },
        zindex: 0,
        open: false,
        head: None,
        tail: None,
    }
}

/// Persistent state of a window, panel or popup: its placement, content
/// metrics, scroll offsets, paint order and the bounds of its run in the
/// draw-command buffer.
#[derive(Clone, Copy, PartialEq, Eq, Structural, Debug)]
pub struct Container {
    pub rect: Rect,
    pub body: Rect,
    pub content_size: Vec2,
    pub scroll: Vec2,
    pub zindex: i64,
    pub open: bool,
    pub head: Option<usize>,
    pub tail: Option<usize>,
}

impl Container {
    /// A fresh, closed container with no placement.
    pub fn fresh() -> (r: Container)
        ensures
            r == spec_fresh_container(),
    {
        Container {
            rect: Rect { x: 0, y: 0, w: 0, h: 0 },
            body: Rect { x: 0, y: 0, w: 0, h: 0 },
            content_size: Vec2 { x: 0, y: 0 },
            scroll: Vec2 { x: 0, y: 0 },
            zindex: 0,
            open: false,
            head: None,
            tail: None,
        }
    }
}

/// How a pre-placed layout rectangle is interpreted: relative to the
/// layout body, or absolute in screen space.
#[derive(Clone, Copy, PartialEq, Eq, Structural, Debug)]
pub enum LayoutType {
    Relative,
    Absolute,
}

/// One flow region on the layout stack: its body rectangle, running
/// cursor, declared row plan and accumulated extent.
#[derive(Clone, Copy, Debug)]
pub struct Layout {
    pub body: Rect,
    pub next: Rect,
    pub pos: Vec2,
    pub size: Vec2,
    pub max: Vec2,
    pub widths: [i32; 16],
    pub items: usize,
    pub item_index: usize,
    pub next_row: i32,
    pub next_type: Option<LayoutType>,
    pub indent: i32,
}

impl Layout {
    /// A layout's row plan never declares more columns than the widths
    /// array holds, and the column cursor stays within the plan (a row
    /// plan of zero columns keeps the cursor at one after its first
    /// placement).
    pub open spec fn wf(&self) -> bool {
        &&& self.items <= MAX_WIDTHS
        &&& (if self.items == 0 {
            self.item_index <= 1
        } else {
            self.item_index <= self.items
        })
    }
}

/// The caller's text-metrics provider: pixel width of a string and line
/// height, per font handle. The engine queries it during layout; it must
/// be a pure measurement with no drawing side effects.
pub trait TextSizeHandler {
    /// The pixel width of `text` in the given font.
    fn text_width(&self, font: FontId, text: &str) -> i32;

    /// The line height of the given font.
    fn text_height(&self, font: FontId) -> i32;
}

/// The caller's command consumer: receives the frame's draw operations in
/// final z-order and rasterizes them.
pub trait CommandHandler {
    /// Sets the clip rectangle for subsequent operations.
    fn clip_cmd(&mut self, rect: Rect);

    /// Fills a rectangle.
    fn rect_cmd(&mut self, rect: Rect, color: Color);

    /// Draws a text run; ownership of the string passes to the consumer.
    fn text_cmd(&mut self, font: FontId, pos: Vec2, color: Color, text: String);

    /// Draws one icon of the fixed glyph set.
    fn icon_cmd(&mut self, id: Icon, rect: Rect, color: Color);
}

/// The immediate-mode engine: all persistent and per-frame state lives
/// here, exclusively owned, with no I/O of its own.
pub struct Context<F: TextSizeHandler> {
    pub style: Style,
    pub font_handler: F,
    pub cursor_icon: Option<CursorIcon>,
    pub hover_id: Option<Id>,
    pub focus_id: Option<Id>,
    pub last_id: Option<Id>,
    pub last_rect: Rect,
    pub last_zindex: i64,
    pub updated_focus: bool,
    pub frame: u64,
    pub hover_root: Option<usize>,
    pub next_hover_root: Option<usize>,
    pub scroll_target: Option<usize>,
    pub number_edit_buf: ConstStr<MAX_FMT>,
    pub number_edit_id: Option<Id>,
    pub command_list: ConstVec<Command, COMMAND_LIST_SIZE>,
    pub root_list: ConstVec<usize, ROOT_LIST_SIZE>,
    pub container_stack: ConstVec<usize, CONTAINER_STACK_SIZE>,
    pub clip_stack: ConstVec<Rect, CLIP_STACK_SIZE>,
    pub id_stack: ConstVec<Id, ID_STACK_SIZE>,
    pub layout_stack: ConstVec<Layout, LAYOUT_STACK_SIZE>,
    pub container_pool: ConstVec<PoolItem, CONTAINER_POOL_SIZE>,
    pub containers: ConstVec<Container, CONTAINER_POOL_SIZE>,
    pub treenode_pool: ConstVec<PoolItem, TREENODE_POOL_SIZE>,
    pub open_roots: usize,
    pub mouse_pos: Vec2,
    pub last_mouse_pos: Vec2,
    pub mouse_delta: Vec2,
    pub scroll_delta: Vec2,
    pub mouse_down: MouseState,
    pub mouse_pressed: MouseState,
    pub key_down: ModKeyState,
    pub key_pressed: ModKeyState,
    pub text_input: ConstStr<MAX_TEXT_STORE>,
}

impl<F: TextSizeHandler> Context<F> {
    /// The structural well-formedness every engine call preserves: the
    /// bounded vectors respect their capacities, the pools are fully
    /// allocated, every stored container index is in range, every stacked
    /// layout is well formed, and the command buffer keeps one slot of
    /// headroom per open root container for its closing jump record.
    pub open spec fn wf(&self) -> bool {
        &&& self.command_list.wf()
        &&& self.root_list.wf()
        &&& self.container_stack.wf()
        &&& self.clip_stack.wf()
        &&& self.id_stack.wf()
        &&& self.layout_stack.wf()
        &&& self.container_pool.wf()
        &&& self.containers.wf()
        &&& self.treenode_pool.wf()
        &&& self.number_edit_buf.wf()
        &&& self.text_input.wf()
        &&& self.containers@.len() == CONTAINER_POOL_SIZE
        &&& self.container_pool@.len() == CONTAINER_POOL_SIZE
        &&& self.treenode_pool@.len() == TREENODE_POOL_SIZE
        &&& forall|i: int|
            0 <= i < self.container_stack@.len() ==> self.container_stack@[i]
                < CONTAINER_POOL_SIZE
        &&& forall|i: int|
            0 <= i < self.root_list@.len() ==> self.root_list@[i] < CONTAINER_POOL_SIZE
        &&& (self.hover_root matches Some(i) ==> i < CONTAINER_POOL_SIZE)
        &&& (self.next_hover_root matches Some(i) ==> i < CONTAINER_POOL_SIZE)
        &&& (self.scroll_target matches Some(i) ==> i < CONTAINER_POOL_SIZE)
        &&& forall|i: int|
            0 <= i < self.layout_stack@.len() ==> (#[trigger] self.layout_stack@[i]).wf()
        &&& self.open_roots <= self.container_stack@.len()
        &&& self.command_list@.len() + self.open_roots <= COMMAND_LIST_SIZE
        &&& forall|i: int|
            0 <= i < self.containers@.len() ==> (#[trigger] self.containers@[i]).zindex
                <= self.last_zindex
    }

    /// A fresh engine around the given text-metrics provider: default
    /// style, empty stacks and buffers, fully vacant pools, frame zero.
    pub fn new(font_handler: F) -> (r: Context<F>)
        ensures
            r.wf(),
            crate::style::is_default_style(r.style),
            r.cursor_icon is None,
            r.hover_id is None,
            r.focus_id is None,
            r.last_id is None,
            r.last_rect == (Rect { x: 0, y: 0, w: 0, h: 0 }),
            r.last_zindex == 0,
            r.updated_focus == false,
            r.frame == 0,
            r.hover_root is None,
            r.next_hover_root is None,
            r.scroll_target is None,
            r.number_edit_buf@ == Seq::<char>::empty(),
            r.number_edit_id is None,
            r.command_list@ == Seq::<Command>::empty(),
            r.root_list@ == Seq::<usize>::empty(),
            r.container_stack@ == Seq::<usize>::empty(),
            r.clip_stack@ == Seq::<Rect>::empty(),
            r.id_stack@ == Seq::<Id>::empty(),
            r.layout_stack@ == Seq::<Layout>::empty(),
            r.container_pool@ == Seq::<PoolItem>::new(
                CONTAINER_POOL_SIZE as nat,
                |i: int| PoolItem { id: Id(0), last_update: 0 },
            ),
            r.containers@ == Seq::<Container>::new(
                CONTAINER_POOL_SIZE as nat,
                |i: int| spec_fresh_container(),
            ),
            r.treenode_pool@ == Seq::<PoolItem>::new(
                TREENODE_POOL_SIZE as nat,
                |i: int| PoolItem { id: Id(0), last_update: 0 },
            ),
            r.open_roots == 0,
            r.mouse_pos == (Vec2 { x: 0, y: 0 }),
            r.last_mouse_pos == (Vec2 { x: 0, y: 0 }),
            r.mouse_delta == (Vec2 { x: 0, y: 0 }),
            r.scroll_delta == (Vec2 { x: 0, y: 0 }),
            r.mouse_down == (MouseState { left: false, right: false, middle: false }),
            r.mouse_pressed == (MouseState { left: false, right: false, middle: false }),
            r.key_down == (ModKeyState {
                shift: false,
                ctrl: false,
                alt: false,
                backspace: false,
                ret: false,
            }),
            r.key_pressed == (ModKeyState {
                shift: false,
                ctrl: false,
                alt: false,
                backspace: false,
                ret: false,
            }),
            r.text_input@ == Seq::<char>::empty(),
            r.font_handler == font_handler,
    {
        let mut container_pool: ConstVec<PoolItem, CONTAINER_POOL_SIZE> = ConstVec::new();
        container_pool.init_default(PoolItem::vacant());
        let mut containers: ConstVec<Container, CONTAINER_POOL_SIZE> = ConstVec::new();
        containers.init_default(Container::fresh());
        let mut treenode_pool: ConstVec<PoolItem, TREENODE_POOL_SIZE> = ConstVec::new();
        treenode_pool.init_default(PoolItem::vacant());

        Context {
            style: Style::default_style(),
            font_handler,
            cursor_icon: None,
            hover_id: None,
            focus_id: None,
            last_id: None,
            last_rect: Rect { x: 0, y: 0, w: 0, h: 0 },
            last_zindex: 0,
            updated_focus: false,
            frame: 0,
            hover_root: None,
            next_hover_root: None,
            scroll_target: None,
            number_edit_buf: ConstStr::new(),
            number_edit_id: None,
            command_list: ConstVec::new(),
            root_list: ConstVec::new(),
            container_stack: ConstVec::new(),
            clip_stack: ConstVec::new(),
            id_stack: ConstVec::new(),
            layout_stack: ConstVec::new(),
            container_pool,
            containers,
            treenode_pool,
            open_roots: 0,
            mouse_pos: Vec2 { x: 0, y: 0 },
            last_mouse_pos: Vec2 { x: 0, y: 0 },
            mouse_delta: Vec2 { x: 0, y: 0 },
            scroll_delta: Vec2 { x: 0, y: 0 },
            mouse_down: MouseState::none(),
            mouse_pressed: MouseState::none(),
            key_down: ModKeyState::none(),
            key_pressed: ModKeyState::none(),
            text_input: ConstStr::new(),
        }
    }

    /// The frame counter, incremented by each `begin`.
    pub fn current_frame(&self) -> (r: u64)
        ensures
            r == self.frame,
    {
        self.frame
    }

    /// The cursor hint some widget asked for this frame, if any.
    pub fn cursor_icon(&self) -> (r: Option<CursorIcon>)
        ensures
            r == self.cursor_icon,
    {
        self.cursor_icon
    }
}

} // verus!

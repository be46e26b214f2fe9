//! The layout engine: a stack of flow regions that turns declarative row
//! plans into absolute widget rectangles.
//!
//! A row plan is a list of up to [`MAX_WIDTHS`](crate::MAX_WIDTHS) column
//! widths. A width of `0` means "use the style's default widget size";
//! a negative width means "fill the remaining body extent minus its
//! magnitude". Rows advance automatically once the declared column count
//! is exhausted, by reapplying the last row plan. All arithmetic
//! saturates at the coordinate range.

use vstd::prelude::*;

use crate::arith::{imax, sadd, sat_add, sat_mul, smul, ssub, sat_sub};
use crate::geometry::{Rect, Vec2};
use crate::{Context, Layout, LayoutType, TextSizeHandler, LAYOUT_STACK_SIZE, MAX_WIDTHS};
use crate::style::Style;

verus! {

/// The layout after a fresh row plan of `items` columns with the given
/// row height: the cursor returns to the indent column of the next row.
pub open spec fn spec_row_items(l: Layout, items: usize, height: i32) -> Layout {
    Layout {
        items,
        pos: Vec2 { x: l.indent, y: l.next_row },
        size: Vec2 { x: l.size.x, y: height },
        item_index: 0,
        ..l
    }
}

/// The larger of two mathematical values.
pub open spec fn spec_max(a: int, b: int) -> int {
    if a >= b {
        a
    } else {
        b
    }
}

/// The raw width of the next column: the declared column width, or the
/// layout's running width for a row plan of zero columns.
pub open spec fn spec_next_raw_size(l: Layout) -> Vec2 {
    Vec2 {
        x: if l.items > 0 {
            l.widths@[l.item_index as int]
        } else {
            l.size.x
        },
        y: l.size.y,
    }
}

/// A width or height resolved against the style and the remaining body
/// extent: zero becomes the style's default plus padding, a negative
/// value fills the remaining extent minus its magnitude.
pub open spec fn spec_resolve_extent(raw: int, origin: int, body_extent: int, style_default: int, padding: int) -> int {
    if raw == 0 {
        sat_add(style_default, sat_mul(padding, 2))
    } else if raw < 0 {
        sat_add(raw, sat_add(sat_sub(body_extent, origin), 1))
    } else {
        raw
    }
}

/// Whether the next placement starts a new row: the declared column
/// count is exhausted (a zero-column plan wraps only once).
pub open spec fn spec_wraps(l: Layout) -> bool {
    l.item_index == l.items
}

/// The layout state and produced rectangle of one placement that goes
/// through the flowing path (no pre-placed rectangle): resolve the
/// column extents against the style, advance the cursor, fold the
/// result into the running maximum extent.
pub open spec fn spec_layout_flow(l0: Layout, style: Style) -> (Layout, Rect) {
    let l = if spec_wraps(l0) {
        spec_row_items(l0, l0.items, l0.size.y)
    } else {
        l0
    };
    let raw = spec_next_raw_size(l);
    let w = spec_resolve_extent(
        raw.x as int,
        l.pos.x as int,
        l.body.w as int,
        style.size.x as int,
        style.padding as int,
    );
    let h = spec_resolve_extent(
        raw.y as int,
        l.pos.y as int,
        l.body.h as int,
        style.size.y as int,
        style.padding as int,
    );
    let local = Rect { x: l.pos.x, y: l.pos.y, w: w as i32, h: h as i32 };
    let l1 = Layout { item_index: if l.items > 0 { (l.item_index + 1) as usize } else { 1 }, ..l };
    spec_layout_advance(l1, style, local)
}

/// The common tail of a placement: advance the column cursor by the
/// rectangle's width plus spacing, remember where the next row starts,
/// shift the rectangle by the body origin, and fold it into the running
/// maximum extent.
pub open spec fn spec_layout_advance(l: Layout, style: Style, local: Rect) -> (Layout, Rect) {
    let spacing = style.spacing as int;
    let res = Rect {
        x: sat_add(local.x as int, l.body.x as int) as i32,
        y: sat_add(local.y as int, l.body.y as int) as i32,
        w: local.w,
        h: local.h,
    };
    let l2 = Layout {
        pos: Vec2 { x: sat_add(l.pos.x as int, sat_add(local.w as int, spacing)) as i32, ..l.pos },
        next_row: spec_max(
            l.next_row as int,
            sat_add(local.y as int, sat_add(local.h as int, spacing)),
        ) as i32,
        max: Vec2 {
            x: spec_max(l.max.x as int, sat_add(res.x as int, res.w as int)) as i32,
            y: spec_max(l.max.y as int, sat_add(res.y as int, res.h as int)) as i32,
        },
        ..l
    };
    (l2, res)
}

/// The full placement step: a pre-placed absolute rectangle is returned
/// as it stands; a pre-placed relative rectangle goes through the common
/// tail; otherwise the flowing path computes the rectangle from the row
/// plan.
pub open spec fn spec_layout_next(l: Layout, style: Style) -> (Layout, Rect) {
    match l.next_type {
        Some(LayoutType::Absolute) => (Layout { next_type: None, ..l }, l.next),
        Some(LayoutType::Relative) => spec_layout_advance(
            Layout { next_type: None, ..l },
            style,
            l.next,
        ),
        None => spec_layout_flow(l, style),
    }
}


/// Layout row arithmetic: after declaring a two-column row plan of a
/// fixed 100-pixel column and a fill-remaining column, the first two
/// placements share one row and together span exactly the body width
/// (the fixed column, the inter-item spacing, then the rest), and the
/// third placement starts a new row one default row height plus spacing
/// below. Stated away from the coordinate range's edges, where the
/// saturating arithmetic is exact.
pub proof fn lemma_layout_row_fill(l0: Layout, style: Style)
    requires
        l0.wf(),
        l0.next_type is None,
        l0.items == 2,
        l0.item_index == 0,
        l0.widths@.len() == MAX_WIDTHS,
        l0.widths@[0] == 100,
        l0.widths@[1] == -1,
        l0.size.y == 0,
        l0.indent == 0,
        l0.pos == (Vec2 { x: l0.indent, y: l0.next_row }),
        0 <= l0.body.x <= 0x100000,
        0 <= l0.body.y <= 0x100000,
        100 <= l0.body.w <= 0x100000,
        0 <= l0.body.h <= 0x100000,
        0 <= l0.next_row <= 0x100000,
        -0x100000 <= l0.max.x <= 0x100000,
        -0x100000 <= l0.max.y <= 0x100000,
        0 <= style.size.y <= 0x1000,
        style.padding <= 0x1000,
        style.spacing <= 0x1000,
    ensures
        ({
            let (l1, r1) = spec_layout_next(l0, style);
            let (l2, r2) = spec_layout_next(l1, style);
            let (l3, r3) = spec_layout_next(l2, style);
            let row_h = style.size.y + 2 * style.padding;
            &&& r1.w == 100
            &&& r2.w == l0.body.w - 100 - style.spacing
            &&& r1.w + style.spacing as int + r2.w == l0.body.w
            &&& r2.y == r1.y
            &&& r2.x == r1.x + 100 + style.spacing
            &&& r3.x == r1.x
            &&& r3.y == r1.y + row_h + style.spacing
        }),
{
    let (l1, r1) = spec_layout_next(l0, style);
    let (l2, r2) = spec_layout_next(l1, style);
    let (l3, r3) = spec_layout_next(l2, style);
    assert(r1.w == 100);
    assert(r1.y == l0.body.y + l0.next_row);
    assert(l1.pos.x == 100 + style.spacing);
    assert(r2.w == l0.body.w - 100 - style.spacing);
    assert(l2.item_index == 2);
    assert(spec_wraps(l2));
    assert(r3.x == l0.body.x);
    assert(r3.y == l0.body.y + l0.next_row + (style.size.y + 2 * style.padding)
        + style.spacing);
}

impl Layout {
    /// Sets the running width used by a zero-column row plan.
    pub fn width(&mut self, width: i32)
        ensures
            *final(self) == (Layout { size: Vec2 { x: width, ..old(self).size }, ..*old(self) }),
    {
        self.size.x = width;
    }

    /// Sets the running row height.
    pub fn height(&mut self, height: i32)
        ensures
            *final(self) == (Layout { size: Vec2 { y: height, ..old(self).size }, ..*old(self) }),
    {
        self.size.y = height;
    }

    /// Starts a fresh row of `items` columns, keeping the declared
    /// column widths as they stand.
    pub fn row_items(&mut self, items: usize, height: i32)
        requires
            items <= MAX_WIDTHS,
        ensures
            *final(self) == spec_row_items(*old(self), items, height),
            final(self).wf(),
    {
        self.items = items;
        self.pos = Vec2 { x: self.indent, y: self.next_row };
        self.size.y = height;
        self.item_index = 0;
    }

    /// Declares a row plan: the column widths (empty keeps the previous
    /// widths) and the row height.
    pub fn row(&mut self, widths: &[i32], height: i32)
        requires
            widths@.len() <= MAX_WIDTHS,
        ensures
            final(self).widths@.len() == MAX_WIDTHS,
            forall|i: int| 0 <= i < widths@.len() ==> final(self).widths@[i] == widths@[i],
            forall|i: int|
                widths@.len() <= i < MAX_WIDTHS ==> final(self).widths@[i] == old(
                    self,
                ).widths@[i],
            *final(self) == spec_row_items(
                Layout { widths: final(self).widths, ..*old(self) },
                widths@.len() as usize,
                height,
            ),
            final(self).wf(),
    {
        let n = widths.len();
        let mut i: usize = 0;
        while i < n
            invariant
                n == widths@.len(),
                n <= MAX_WIDTHS,
                i <= n,
                self.widths@.len() == MAX_WIDTHS,
                forall|j: int| 0 <= j < i ==> self.widths@[j] == widths@[j],
                forall|j: int|
                    i <= j < MAX_WIDTHS ==> self.widths@[j] == old(self).widths@[j],
                *self == (Layout { widths: self.widths, ..*old(self) }),
            decreases n - i,
        {
            self.widths[i] = widths[i];
            i = i + 1;
        }
        self.row_items(n, height);
    }

    /// Pre-places the next rectangle, relative to the body or absolute.
    pub fn set_next(&mut self, rect: Rect, ty: LayoutType)
        ensures
            *final(self) == (Layout { next: rect, next_type: Some(ty), ..*old(self) }),
    {
        self.next = rect;
        self.next_type = Some(ty);
    }
}

impl<F: TextSizeHandler> Context<F> {
    /// Declares the active layout's row plan; a window or panel must be
    /// open so a layout exists.
    pub fn layout_row(&mut self, widths: &[i32], height: i32)
        requires
            old(self).wf(),
            old(self).layout_stack@.len() > 0,
            widths@.len() <= MAX_WIDTHS,
        ensures
            final(self).wf(),
            *final(self) == (Context { layout_stack: final(self).layout_stack, ..*old(self) }),
            final(self).layout_stack@.len() == old(self).layout_stack@.len(),
            ({
                let top = final(self).layout_stack@.last();
                let prev = old(self).layout_stack@.last();
                &&& final(self).layout_stack@ == old(self).layout_stack@.update(
                    old(self).layout_stack@.len() - 1,
                    top,
                )
                &&& top == spec_row_items(
                    Layout { widths: top.widths, ..prev },
                    widths@.len() as usize,
                    height,
                )
                &&& forall|i: int| 0 <= i < widths@.len() ==> top.widths@[i] == widths@[i]
            }),
    {
        let n = self.layout_stack.len();
        let mut l = self.layout_stack.get_copy(n - 1);
        l.row(widths, height);
        self.layout_stack.set(n - 1, l);
    }

    /// Starts a fresh row of `items` columns on the active layout,
    /// keeping its declared widths.
    pub fn layout_row_items(&mut self, items: usize, height: i32)
        requires
            old(self).wf(),
            old(self).layout_stack@.len() > 0,
            items <= MAX_WIDTHS,
        ensures
            final(self).wf(),
            *final(self) == (Context { layout_stack: final(self).layout_stack, ..*old(self) }),
            final(self).layout_stack@ == old(self).layout_stack@.update(
                old(self).layout_stack@.len() - 1,
                spec_row_items(old(self).layout_stack@.last(), items, height),
            ),
    {
        let n = self.layout_stack.len();
        let mut l = self.layout_stack.get_copy(n - 1);
        l.row_items(items, height);
        self.layout_stack.set(n - 1, l);
    }

    /// Pre-places the next rectangle on the active layout.
    pub fn layout_set_next(&mut self, rect: Rect, ty: LayoutType)
        requires
            old(self).wf(),
            old(self).layout_stack@.len() > 0,
        ensures
            final(self).wf(),
            *final(self) == (Context { layout_stack: final(self).layout_stack, ..*old(self) }),
            final(self).layout_stack@ == old(self).layout_stack@.update(
                old(self).layout_stack@.len() - 1,
                Layout { next: rect, next_type: Some(ty), ..old(self).layout_stack@.last() },
            ),
    {
        let n = self.layout_stack.len();
        let mut l = self.layout_stack.get_copy(n - 1);
        l.set_next(rect, ty);
        self.layout_stack.set(n - 1, l);
    }

    /// Produces the rectangle for the next widget, exactly as
    /// [`spec_layout_next`] computes it from the active layout and the
    /// style, and remembers it as the last produced rectangle.
    pub fn layout_next(&mut self) -> (r: Rect)
        requires
            old(self).wf(),
            old(self).layout_stack@.len() > 0,
        ensures
            final(self).wf(),
            ({
                let (l2, res) = spec_layout_next(old(self).layout_stack@.last(), old(self).style);
                &&& r == res
                &&& final(self).layout_stack@ == old(self).layout_stack@.update(
                    old(self).layout_stack@.len() - 1,
                    l2,
                )
                &&& *final(self) == (Context {
                    layout_stack: final(self).layout_stack,
                    last_rect: res,
                    ..*old(self)
                })
            }),
    {
        let n = self.layout_stack.len();
        let mut l = self.layout_stack.get_copy(n - 1);
        let style_size = self.style.size;
        let padding = self.style.padding as i32;
        let spacing = self.style.spacing as i32;

        let result: Rect;
        match l.next_type {
            Some(LayoutType::Absolute) => {
                l.next_type = None;
                result = l.next;
                self.layout_stack.set(n - 1, l);
                self.last_rect = result;
                return result;
            },
            Some(LayoutType::Relative) => {
                l.next_type = None;
                result = l.next;
            },
            None => {
                if l.item_index == l.items {
                    l.row_items(l.items, l.size.y);
                }
                let raw_w = if l.items > 0 {
                    l.widths[l.item_index]
                } else {
                    l.size.x
                };
                let mut w = raw_w;
                let mut h = l.size.y;
                if w == 0 {
                    w = sadd(style_size.x, smul(padding, 2));
                } else if w < 0 {
                    w = sadd(w, sadd(ssub(l.body.w, l.pos.x), 1));
                }
                if h == 0 {
                    h = sadd(style_size.y, smul(padding, 2));
                } else if h < 0 {
                    h = sadd(h, sadd(ssub(l.body.h, l.pos.y), 1));
                }
                result = Rect { x: l.pos.x, y: l.pos.y, w, h };
                l.item_index = if l.items > 0 {
                    l.item_index + 1
                } else {
                    1
                };
            },
        }

        // Common tail: advance the cursor, shift by the body origin and
        // fold the extent into the running maximum.
        let res = Rect {
            x: sadd(result.x, l.body.x),
            y: sadd(result.y, l.body.y),
            w: result.w,
            h: result.h,
        };
        l.pos.x = sadd(l.pos.x, sadd(result.w, spacing));
        l.next_row = imax(l.next_row, sadd(result.y, sadd(result.h, spacing)));
        l.max.x = imax(l.max.x, sadd(res.x, res.w));
        l.max.y = imax(l.max.y, sadd(res.y, res.h));

        self.layout_stack.set(n - 1, l);
        self.last_rect = res;
        res
    }

    /// Pushes a fresh flow region over the given body (shifted by the
    /// scroll offset), with a single default column.
    pub fn push_layout(&mut self, body: Rect, scroll: Vec2)
        requires
            old(self).wf(),
            old(self).layout_stack@.len() < LAYOUT_STACK_SIZE,
        ensures
            final(self).wf(),
            *final(self) == (Context { layout_stack: final(self).layout_stack, ..*old(self) }),
            final(self).layout_stack@ == old(self).layout_stack@.push(
                final(self).layout_stack@.last(),
            ),
            ({
                let top = final(self).layout_stack@.last();
                &&& top.body == (Rect {
                    x: sat_sub(body.x as int, scroll.x as int) as i32,
                    y: sat_sub(body.y as int, scroll.y as int) as i32,
                    w: body.w,
                    h: body.h,
                })
                &&& top.max == (Vec2 { x: -0x1000000i32, y: -0x1000000i32 })
                &&& top.items == 1
                &&& top.item_index == 0
                &&& top.widths@[0] == 0
                &&& top.pos == (Vec2 { x: 0, y: 0 })
                &&& top.next_row == 0
                &&& top.size == (Vec2 { x: 0, y: 0 })
                &&& top.indent == 0
                &&& top.next_type is None
            }),
    {
        let mut l = Layout {
            body: Rect { x: ssub(body.x, scroll.x), y: ssub(body.y, scroll.y), w: body.w, h: body.h },
            next: Rect { x: 0, y: 0, w: 0, h: 0 },
            pos: Vec2 { x: 0, y: 0 },
            size: Vec2 { x: 0, y: 0 },
            max: Vec2 { x: -0x1000000, y: -0x1000000 },
            widths: [0, 0, 0, 0, 0, 0, 0, 0, 0, 0, 0, 0, 0, 0, 0, 0],
            items: 0,
            item_index: 0,
            next_row: 0,
            next_type: None,
            indent: 0,
        };
        let zero_width: [i32; 1] = [0];
        l.row(&zero_width, 0);
        self.layout_stack.push(l);
    }

    /// Opens a nested column: the next flowing rectangle becomes the body
    /// of a fresh flow region, so side-by-side vertical flows can wrap
    /// independently.
    pub fn layout_begin_column(&mut self)
        requires
            old(self).wf(),
            old(self).layout_stack@.len() > 0,
            old(self).layout_stack@.len() < LAYOUT_STACK_SIZE,
        ensures
            final(self).wf(),
            *final(self) == (Context {
                layout_stack: final(self).layout_stack,
                last_rect: final(self).last_rect,
                ..*old(self)
            }),
            final(self).layout_stack@.len() == old(self).layout_stack@.len() + 1,
    {
        let next = self.layout_next();
        self.push_layout(next, Vec2 { x: 0, y: 0 });
    }

    /// Closes a nested column, merging its cursor and maximum extent
    /// back into the parent flow region.
    pub fn layout_end_column(&mut self)
        requires
            old(self).wf(),
            old(self).layout_stack@.len() >= 2,
        ensures
            final(self).wf(),
            *final(self) == (Context { layout_stack: final(self).layout_stack, ..*old(self) }),
            final(self).layout_stack@.len() == old(self).layout_stack@.len() - 1,
            ({
                let b = old(self).layout_stack@.last();
                let a = old(self).layout_stack@[old(self).layout_stack@.len() - 2];
                let merged = Layout {
                    pos: Vec2 {
                        x: spec_max(
                            a.pos.x as int,
                            sat_add(b.pos.x as int, sat_sub(b.body.x as int, a.body.x as int)),
                        ) as i32,
                        y: a.pos.y,
                    },
                    next_row: spec_max(
                        a.next_row as int,
                        sat_add(b.next_row as int, sat_sub(b.body.y as int, a.body.y as int)),
                    ) as i32,
                    max: Vec2 {
                        x: spec_max(a.max.x as int, b.max.x as int) as i32,
                        y: spec_max(a.max.y as int, b.max.y as int) as i32,
                    },
                    ..a
                };
                final(self).layout_stack@ == old(self).layout_stack@.drop_last().update(
                    old(self).layout_stack@.len() - 2,
                    merged,
                )
            }),
    {
        let b = match self.layout_stack.pop() {
            Some(l) => l,
            None => {
                proof {
                    assert(false);
                }
                return ;
            },
        };
        let n = self.layout_stack.len();
        let mut a = self.layout_stack.get_copy(n - 1);
        a.pos.x = imax(a.pos.x, sadd(b.pos.x, ssub(b.body.x, a.body.x)));
        a.next_row = imax(a.next_row, sadd(b.next_row, ssub(b.body.y, a.body.y)));
        a.max.x = imax(a.max.x, b.max.x);
        a.max.y = imax(a.max.y, b.max.y);
        self.layout_stack.set(n - 1, a);
    }
}

} // verus!

use microui::geometry::{Clip, Rect, Vec2};
use microui::id::Id;
use microui::style::{Color, FontId};
use microui::{
    Command, Context, ContainerOptions, MouseButton, PoolItem, TextSizeHandler,
};
use microui::const_vec::ConstVec;

/// Fixed text metrics: eight pixels per character, sixteen-pixel lines.
struct FixedMetrics;

impl TextSizeHandler for FixedMetrics {
    fn text_width(&self, _font: FontId, text: &str) -> i32 {
        (text.chars().count() as i32) * 8
    }

    fn text_height(&self, _font: FontId) -> i32 {
        16
    }
}

fn ctx() -> Context<FixedMetrics> {
    Context::new(FixedMetrics)
}

#[test]
fn identity_is_stable_and_depth_sensitive() {
    let mut c = ctx();
    let a = c.create_id("button");
    let b = c.create_id("button");
    assert_eq!(a, b);

    // The same key at a deeper stack level hashes differently.
    c.push_id("window");
    let nested = c.create_id("button");
    assert_ne!(nested, a);
    c.pop_id();
    let back = c.create_id("button");
    assert_eq!(back, a);

    // The hash is the 64-bit FNV-1a of the key's bytes.
    assert_eq!(Id::new("", 0), Id(14695981039346656037));
    assert_eq!(Id::new("a", 0), Id(0xaf63dc4c8601ec8c));
}

#[test]
fn pool_evicts_least_recently_touched() {
    let mut pool: ConstVec<PoolItem, 3> = ConstVec::new();
    pool.init_default(PoolItem::vacant());

    // Frame 1: three distinct identities fill the pool front to back.
    assert_eq!(pool.pool_init(Id(11), 1), Some(0));
    assert_eq!(pool.pool_init(Id(12), 1), Some(1));
    assert_eq!(pool.pool_init(Id(13), 1), Some(2));
    // Every slot was touched this frame: a fourth identity fails.
    assert_eq!(pool.pool_init(Id(14), 1), None);

    // Frame 2: touch the first slot again.
    assert_eq!(pool.pool_find(Id(11)), Some(0));
    assert_eq!(pool.pool_init(Id(11), 2), Some(0));

    // Frame 3: the least recently touched slot is slot 1 (frame 1), not
    // slot 0 (frame 2).
    assert_eq!(pool.pool_init(Id(15), 3), Some(1));
    // Next oldest is slot 2.
    assert_eq!(pool.pool_init(Id(16), 3), Some(2));
    // Then slot 0.
    assert_eq!(pool.pool_init(Id(17), 3), Some(0));
    assert_eq!(pool.pool_init(Id(18), 3), None);
}

#[test]
fn window_rect_persists_across_frames() {
    let mut c = ctx();
    let placed = Rect { x: 40, y: 30, w: 300, h: 200 };

    c.begin();
    assert!(c.begin_window("persist", placed, ContainerOptions::none()));
    let first = c.current_container().rect;
    c.end_window();
    c.end();
    c.drain_commands();

    assert_eq!(first, placed);

    for _ in 0..3 {
        c.begin();
        let ignored = Rect { x: 1, y: 2, w: 3, h: 4 };
        assert!(c.begin_window("persist", ignored, ContainerOptions::none()));
        let again = c.current_container().rect;
        assert_eq!(again, placed);
        c.end_window();
        c.end();
        c.drain_commands();
    }
}

#[test]
fn commands_splice_in_z_order() {
    let mut c = ctx();
    let red = Color { r: 201, g: 1, b: 1, a: 255 };
    let blue = Color { r: 1, g: 1, b: 202, a: 255 };

    c.begin();
    // Window A first: lower z-index.
    assert!(c.begin_window("A", Rect { x: 0, y: 0, w: 150, h: 150 }, ContainerOptions::none()));
    c.draw_rect(Rect { x: 10, y: 40, w: 20, h: 20 }, red);
    c.end_window();
    // Window B second: higher z-index, overlapping A.
    assert!(c.begin_window("B", Rect { x: 50, y: 50, w: 150, h: 150 }, ContainerOptions::none()));
    c.draw_rect(Rect { x: 60, y: 90, w: 20, h: 20 }, blue);
    c.end_window();
    c.end();

    let drained = c.drain_commands();
    let reds: Vec<usize> = drained
        .iter()
        .enumerate()
        .filter_map(|(i, cmd)| match cmd {
            Command::Rect { color, .. } if *color == red => Some(i),
            _ => None,
        })
        .collect();
    let blues: Vec<usize> = drained
        .iter()
        .enumerate()
        .filter_map(|(i, cmd)| match cmd {
            Command::Rect { color, .. } if *color == blue => Some(i),
            _ => None,
        })
        .collect();

    // Each rectangle is delivered exactly once, A's before B's.
    assert_eq!(reds.len(), 1);
    assert_eq!(blues.len(), 1);
    assert!(reds[0] < blues[0]);
    // Nothing that was recorded is a jump.
    assert!(drained.iter().all(|cmd| !matches!(cmd, Command::Jump { .. })));
}

#[test]
fn layout_row_fills_remaining_width() {
    let mut c = ctx();
    let mut opts = ContainerOptions::none();
    opts.set(microui::ContainerOption::NoScroll);
    opts.set(microui::ContainerOption::NoResize);
    opts.set(microui::ContainerOption::NoTitle);

    c.begin();
    assert!(c.begin_window("layout", Rect { x: 0, y: 0, w: 300, h: 300 }, opts));
    // Body is the window minus 5 pixels of padding on each side: 290 wide.
    c.layout_row(&[100, -1], 0);
    let r1 = c.layout_next();
    let r2 = c.layout_next();
    let r3 = c.layout_next();
    c.end_window();
    c.end();
    c.drain_commands();

    assert_eq!(r1.w, 100);
    // Remaining width: 290 - 100 - 4 (spacing).
    assert_eq!(r2.w, 186);
    assert_eq!(r1.w + 4 + r2.w, 290);
    assert_eq!(r1.y, r2.y);
    // Default row height: widget height 10 plus twice the padding, then
    // the spacing.
    assert_eq!(r3.y, r1.y + 20 + 4);
    assert_eq!(r3.x, r1.x);
}

#[test]
fn focus_is_exclusive_and_taken_by_presses() {
    let mut c = ctx();
    let win = Rect { x: 0, y: 0, w: 300, h: 300 };
    let mut opts = ContainerOptions::none();
    opts.set(microui::ContainerOption::NoTitle);
    opts.set(microui::ContainerOption::NoResize);
    opts.set(microui::ContainerOption::NoScroll);

    let frame = |c: &mut Context<FixedMetrics>| -> (Id, Id) {
        c.begin();
        assert!(c.begin_window("focus", win, opts));
        c.layout_row(&[100, 100], 20);
        let first = c.create_id("first");
        let ra = c.layout_next();
        c.update_widget(first, ra, microui::WidgetInteraction::none());
        let second = c.create_id("second");
        let rb = c.layout_next();
        c.update_widget(second, rb, microui::WidgetInteraction::none());
        c.end_window();
        c.end();
        c.drain_commands();
        (first, second)
    };

    // Frame 1 establishes the hover root; frame 2 hovers the first
    // widget; a press then focuses it on frame 3.
    c.input_mouse_move(Vec2 { x: 10, y: 10 });
    frame(&mut c);
    frame(&mut c);
    c.input_mouse_down(Vec2 { x: 10, y: 10 }, MouseButton::Left);
    let (first, second) = frame(&mut c);
    assert!(c.is_focused(first));
    assert!(!c.is_focused(second));

    // Pressing away from the focused widget takes its focus in that
    // frame; focus stays a single slot throughout.
    c.input_mouse_up(Vec2 { x: 10, y: 10 }, MouseButton::Left);
    frame(&mut c);
    c.input_mouse_move(Vec2 { x: 110, y: 10 });
    frame(&mut c);
    c.input_mouse_down(Vec2 { x: 110, y: 10 }, MouseButton::Left);
    let (first, second) = frame(&mut c);
    assert!(!c.is_focused(first));
    assert!(c.is_focused(second));
}

#[test]
fn scroll_deltas_accumulate() {
    let mut c = ctx();
    c.input_scroll(Vec2 { x: 3, y: -4 });
    c.input_scroll(Vec2 { x: 10, y: 6 });
    assert_eq!(c.scroll_delta(), Vec2 { x: 13, y: 2 });
}

#[test]
fn text_input_truncates_at_character_boundary() {
    let mut c = ctx();
    let long = "x".repeat(1023);
    assert_eq!(c.input_text(&long), 1023);
    // Two more bytes would fit, but not mid-character: the two-byte
    // character is dropped whole once only one byte remains.
    assert_eq!(c.input_text("é"), 0);
    assert_eq!(c.input_text("y"), 1);
}

#[test]
fn default_style_values() {
    let c = ctx();
    assert_eq!(c.style.padding, 5);
    assert_eq!(c.style.spacing, 4);
    assert_eq!(c.style.size, Vec2 { x: 68, y: 10 });
    let text = c.style.colors.color(microui::style::WidgetColor::Text);
    assert_eq!(text, Color { r: 230, g: 230, b: 230, a: 255 });
}

#[test]
fn theme_maps_into_widget_colors() {
    let theme = microui::theme::mocha();
    let colors = theme.widget_colors();
    assert_eq!(colors.color(microui::style::WidgetColor::Text), theme.text);
    assert_eq!(colors.color(microui::style::WidgetColor::Border), theme.lavender);
    assert_eq!(colors.color(microui::style::WidgetColor::ScrollThumb), theme.overlay0);
}

#[test]
fn capacity_error_on_overfull_write() {
    let mut buf = microui::text_buf::ConstStr::<4>::new();
    let err = buf.write_str("hello").unwrap_err();
    assert_eq!(err, microui::text_buf::CapacityError);
    assert_eq!(buf.len(), 0);
}

#[test]
fn geometry_intersection_and_clip() {
    let a = Rect { x: 0, y: 0, w: 100, h: 100 };
    let b = Rect { x: 50, y: 50, w: 100, h: 100 };
    let i = a.intersect(b);
    assert_eq!(i, Rect { x: 50, y: 50, w: 50, h: 50 });

    assert!(matches!(a.clip(Rect { x: 10, y: 10, w: 10, h: 10 }), Clip::Unclipped));
    assert!(matches!(a.clip(Rect { x: 200, y: 200, w: 10, h: 10 }), Clip::All));
    assert!(matches!(a.clip(b), Clip::Part));
    assert!(a.overlaps(Vec2 { x: 0, y: 0 }));
    assert!(!a.overlaps(Vec2 { x: 100, y: 0 }));
}

#[test]
fn button_clicks_on_press() {
    let mut c = ctx();
    let win = Rect { x: 0, y: 0, w: 300, h: 300 };
    let mut opts = ContainerOptions::none();
    opts.set(microui::ContainerOption::NoTitle);
    opts.set(microui::ContainerOption::NoResize);
    opts.set(microui::ContainerOption::NoScroll);

    let frame = |c: &mut Context<FixedMetrics>| -> bool {
        c.begin();
        assert!(c.begin_window("buttons", win, opts));
        c.layout_row(&[-1], 30);
        let clicked = c.button("go");
        c.end_window();
        c.end();
        c.drain_commands();
        clicked
    };

    c.input_mouse_move(Vec2 { x: 20, y: 20 });
    assert!(!frame(&mut c));
    assert!(!frame(&mut c));
    c.input_mouse_down(Vec2 { x: 20, y: 20 }, MouseButton::Left);
    assert!(frame(&mut c));
}

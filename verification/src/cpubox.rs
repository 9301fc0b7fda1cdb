//! The cpu box layout: its size on the terminal and the inner box that
//! lists the cores in columns.
use vstd::prelude::*;
use crate::brshtop_box::{BrshtopBox, BoxView, fresh_box};
use crate::config::ViewMode;
use crate::strmap::{StrMap, DupView};
use crate::text::owned;
use crate::subbox::{SubBox, SubView};
use crate::netbox::{tdiv, nonneg};

verus! {

/// The size class of the core columns and their number: the widest class
/// (2) whose columns fit in two thirds of the box, else the narrowest (0),
/// with fewer columns when even those do not fit.
pub open spec fn core_columns(cols: int, avail: int, sensors: bool) -> (int, int) {
    let w2: int = 20 + (if sensors { 13int } else { 21int });
    let w1: int = 15 + (if sensors { 6int } else { 15int });
    let w0: int = 8 + (if sensors { 6int } else { 8int });
    if cols * w2 < avail {
        (cols, 2)
    } else if cols * w1 < avail {
        (cols, 1)
    } else if cols * w0 < avail {
        (cols, 0)
    } else {
        (avail / w0, 0)
    }
}

/// The width of the core list for its size class and number of columns.
pub open spec fn core_box_width(cols: int, size: int, sensors: bool) -> int {
    if size == 2 {
        20 + (if sensors { 13int } else { 21int })
    } else if size == 1 {
        15 + (if sensors { 6int } else { 15int })
    } else {
        8 + (if sensors { 6int } else { 8int }) * cols + 1
    }
}

/// The cpu box and its core list for a terminal of `term_w` by `term_h`
/// cells and `threads` hardware threads: the box takes its percentages of
/// the terminal and at least 8 lines; the core list has one column per
/// `height - 5` threads plus one, its lines are the threads per column
/// plus 4 (at most the inner height), and it stands at the right edge,
/// centered in height. The third value is the height of the box.
pub open spec fn cpu_layout(p: BoxView, s: SubView, term_w: int, term_h: int, threads: int, sensors: bool) -> (BoxView, SubView, i32) {
    let width: int = term_w * (p.width_p as int) / 100;
    let h0: int = term_h * (p.height_p as int) / 100;
    let height: int = if h0 < 8 { 8 } else { h0 };
    let cols0: int = if (threads + 1) / (height - 5) > u32::MAX { u32::MAX as int } else { (threads + 1) / (height - 5) };
    let avail: int = width - width / 3;
    let (cols, size) = core_columns(cols0, avail, sensors);
    let box_width: int = core_box_width(cols, size, sensors);
    let bh0: int = (if threads / cols > u32::MAX { u32::MAX as int } else { threads / cols }) + 4;
    let box_height: int = if bh0 > height - 2 { nonneg(height - 2) } else { bh0 };
    let box_x: int = nonneg((width - 1) - (box_width as u32 as i32));
    let total: int = tdiv(height - 2, 2) - nonneg(box_height / 2) + 1;
    let box_y: int = p.y + nonneg(total);
    (
        BoxView { width: width as u32, height: height as u32, ..p },
        SubView {
            box_columns: cols as u32,
            column_size: size as u32,
            box_width: box_width as u32,
            box_height: box_height as u32,
            box_x: box_x as u32,
            box_y: box_y as u32,
        },
        height as i32,
    )
}

/// The sizes on which the cpu layout stays within the integer types of the
/// boxes: the products of terminal size and percentages and the widths of
/// the columns fit in `u32`, there is at least one column of cores (the
/// threads are divided by it), and the core list stays on the screen.
pub open spec fn cpu_layout_domain(p: BoxView, term_w: int, term_h: int, threads: int, sensors: bool) -> bool {
    let width: int = term_w * (p.width_p as int) / 100;
    let h0: int = term_h * (p.height_p as int) / 100;
    let height: int = if h0 < 8 { 8 } else { h0 };
    let cols0: int = if (threads + 1) / (height - 5) > u32::MAX { u32::MAX as int } else { (threads + 1) / (height - 5) };
    let avail: int = width - width / 3;
    let (cols, size) = core_columns(cols0, avail, sensors);
    let box_width: int = core_box_width(cols, size, sensors);
    let bh0: int = (if cols > 0 && threads / cols > u32::MAX { u32::MAX as int } else if cols > 0 { threads / cols } else { 0 }) + 4;
    let box_height: int = if bh0 > height - 2 { nonneg(height - 2) } else { bh0 };
    let total: int = tdiv(height - 2, 2) - nonneg(box_height / 2) + 1;
    &&& term_w * (p.width_p as int) <= u32::MAX
    &&& term_h * (p.height_p as int) <= u32::MAX
    &&& threads < u64::MAX
    &&& cols0 * (20 + (if sensors { 13int } else { 21int })) <= u32::MAX
    &&& cols > 0
    &&& box_width <= u32::MAX
    &&& bh0 <= u32::MAX
    &&& i32::MIN <= (width - 1) - (box_width as u32 as i32)
    &&& p.y + nonneg(total) <= u32::MAX
}

/// `core_columns` and `core_box_width` over machine integers.
fn compute_columns(cols0: u64, avail: u64, sensors: bool) -> (r: (u64, u64, u64))
    requires
        cols0 <= u32::MAX,
        avail <= u32::MAX,
        cols0 * (20 + (if sensors { 13int } else { 21int })) <= u32::MAX,
    ensures
        (r.0 as int, r.1 as int) == core_columns(cols0 as int, avail as int, sensors),
        r.2 as int == core_box_width(r.0 as int, r.1 as int, sensors),
        r.0 <= u32::MAX,
{
    let k2: u64 = 20 + if sensors { 13 } else { 21 };
    let k1: u64 = 15 + if sensors { 6 } else { 15 };
    let k0: u64 = 8 + if sensors { 6 } else { 8 };
    assert(cols0 * k1 <= cols0 * k2 && cols0 * k0 <= cols0 * k2) by (nonlinear_arith)
        requires k0 <= k1 <= k2, 0 <= cols0;
    if cols0 * k2 < avail {
        (cols0, 2, k2)
    } else if cols0 * k1 < avail {
        (cols0, 1, k1)
    } else {
        let cols: u64 = if cols0 * k0 < avail { cols0 } else { avail / k0 };
        let kc: u64 = if sensors { 6 } else { 8 };
        assert(kc * cols <= 8 * 0xffff_ffff) by (nonlinear_arith)
            requires kc <= 8, cols <= 0xffff_ffff;
        (cols, 0, 8 + kc * cols + 1)
    }
}

/// Sizes the cpu box (`parent`, with its core list `sub`) for the terminal
/// size and the number of hardware threads, `got_sensors` when
/// temperatures are shown beside the cores, and records its height in
/// `brshtop_box` (see `cpu_layout`).
#[verifier::rlimit(60)]
fn size_boxes(
    parent: &mut BrshtopBox,
    sub: &mut SubBox,
    brshtop_box: &mut BrshtopBox,
    term_w: u16,
    term_h: u16,
    threads: u64,
    got_sensors: bool,
)
    requires
        cpu_layout_domain(old(parent)@, term_w as int, term_h as int, threads as int, got_sensors),
    ensures
        ({
            let (p, s, h) = cpu_layout(old(parent)@, old(sub)@, term_w as int, term_h as int, threads as int, got_sensors);
            &&& final(parent)@ == p
            &&& final(sub)@ == s
            &&& final(brshtop_box)@ == (BoxView { b_cpu_h: h, ..old(brshtop_box)@ })
        }),
{
    let ghost p0 = parent@;
    let wp: u64 = parent.get_width_p() as u64;
    let hp: u64 = parent.get_height_p() as u64;
    let a: u64 = (term_w as u64) * wp;
    let b: u64 = (term_h as u64) * hp;
    assert(a / 100 <= u32::MAX / 100) by (nonlinear_arith) requires a <= u32::MAX;
    assert(b / 100 <= u32::MAX / 100) by (nonlinear_arith) requires b <= u32::MAX;
    let width: u64 = a / 100;
    let h0: u64 = b / 100;
    let height: u64 = if h0 < 8 { 8 } else { h0 };
    parent.set_width(width as u32);
    parent.set_height(height as u32);
    brshtop_box.set_b_cpu_h(height as i32);
    let q: u64 = (threads + 1) / (height - 5);
    let cols0: u64 = if q > u32::MAX as u64 { u32::MAX as u64 } else { q };
    let avail: u64 = width - width / 3;
    let (cols, size, box_width) = compute_columns(cols0, avail, got_sensors);
    assert((cols as int, size as int) == core_columns(cols0 as int, avail as int, got_sensors));
    let bq: u64 = threads / cols;
    let bh0: u64 = (if bq > u32::MAX as u64 { u32::MAX as u64 } else { bq }) + 4;
    let box_height: u64 = if bh0 > height - 2 { height - 2 } else { bh0 };
    let bx: i64 = (width as i64 - 1) - (#[verifier::truncate] ((box_width as u32) as i32)) as i64;
    let hh: i64 = height as i64 - 2;
    let half: i64 = if hh >= 0 { hh / 2 } else { -((-hh) / 2) };
    let total: i64 = half - (box_height as i64 / 2) + 1;
    let box_y: u64 = parent.get_y() as u64 + (if total < 0 { 0 } else { total as u64 });
    sub.set_box_columns(cols as u32);
    sub.set_column_size(size as u32);
    sub.set_box_width(box_width as u32);
    sub.set_box_height(box_height as u32);
    sub.set_box_x(if bx < 0 { 0 } else { bx as u32 });
    sub.set_box_y(box_y as u32);
}

/// What the cpu box holds, as plain values.
pub struct CpuView {
    pub parent: BoxView,
    pub sub: SubView,
    pub redraw: bool,
    pub buffer: Seq<char>,
    pub battery_status: Seq<char>,
    pub old_battery_pos: u32,
    pub old_battery_len: usize,
    pub battery_path: Option<Seq<char>>,
    pub battery_clear: bool,
    pub battery_symbols: Map<Seq<char>, String>,
    pub clock_block: bool,
}

/// The view of an optional text.
pub open spec fn opt_view(o: Option<String>) -> Option<Seq<char>> {
    match o {
        Some(s) => Some(s@),
        None => None,
    }
}

/// The cpu box: the processor graph, the core list beside it and the
/// battery shown in its title.
pub struct CpuBox {
    parent: BrshtopBox,
    sub: SubBox,
    redraw: bool,
    buffer: String,
    battery_status: String,
    old_battery_pos: u32,
    old_battery_len: usize,
    battery_path: Option<String>,
    battery_clear: bool,
    battery_symbols: StrMap<String>,
    clock_block: bool,
}

impl View for CpuBox {
    type V = CpuView;

    closed spec fn view(&self) -> CpuView {
        CpuView {
            parent: self.parent@,
            sub: self.sub@,
            redraw: self.redraw,
            buffer: self.buffer@,
            battery_status: self.battery_status@,
            old_battery_pos: self.old_battery_pos,
            old_battery_len: self.old_battery_len,
            battery_path: opt_view(self.battery_path),
            battery_clear: self.battery_clear,
            battery_symbols: self.battery_symbols@,
            clock_block: self.clock_block,
        }
    }
}

/// The symbols shown for the states of the battery.
pub open spec fn battery_symbol_table() -> Map<Seq<char>, Seq<char>> {
    map![
        "Charging"@ => "\u{25b2}"@,
        "Discharging"@ => "\u{25bc}"@,
        "Full"@ => "\u{25a0}"@,
        "Not charging"@ => "\u{25a0}"@
    ]
}

impl CpuBox {
    /// A cpu box: full width and 32% high, at the top left, with its core
    /// list empty and no battery known yet; its buffer name "cpu" is added
    /// to `brshtop_box`.
    pub fn new(brshtop_box: &mut BrshtopBox, config_view_mode: ViewMode, arg_mode: ViewMode) -> (c: Self)
        ensures
            final(brshtop_box)@ == (BoxView { buffers: old(brshtop_box)@.buffers.push("cpu"@), ..old(brshtop_box)@ }),
            c@.parent == (BoxView {
                name: "cpu"@,
                height_p: 32,
                width_p: 100,
                x: 1,
                y: 1,
                resized: true,
                ..fresh_box(config_view_mode, arg_mode)
            }),
            c@.sub == SubBox::new_view(),
            !c@.redraw,
            c@.buffer == "cpu"@,
            c@.battery_status == "Unknown"@,
            c@.old_battery_pos == 0,
            c@.old_battery_len == 0,
            c@.battery_path == Some(""@),
            !c@.battery_clear,
            c@.battery_symbols.dom() == battery_symbol_table().dom(),
            forall|k: Seq<char>| #[trigger] c@.battery_symbols.contains_key(k) ==> c@.battery_symbols[k]@ == battery_symbol_table()[k],
            c@.clock_block,
    {
        let mut symbols: StrMap<String> = StrMap::new();
        symbols.insert(owned("Charging"), owned("\u{25b2}"));
        symbols.insert(owned("Discharging"), owned("\u{25bc}"));
        symbols.insert(owned("Full"), owned("\u{25a0}"));
        symbols.insert(owned("Not charging"), owned("\u{25a0}"));
        brshtop_box.push_buffers(owned("cpu"));
        let mut parent = BrshtopBox::new(config_view_mode, arg_mode);
        parent.set_name(owned("cpu"));
        parent.set_y(1);
        parent.set_x(1);
        parent.set_height_p(32);
        parent.set_width_p(100);
        parent.set_resized(true);
        let c = CpuBox {
            parent,
            sub: SubBox::new(),
            redraw: false,
            buffer: owned("cpu"),
            battery_status: owned("Unknown"),
            old_battery_pos: 0,
            old_battery_len: 0,
            battery_path: Some(owned("")),
            battery_clear: false,
            battery_symbols: symbols,
            clock_block: true,
        };
        assert(c@.battery_symbols.dom() =~= battery_symbol_table().dom());
        c
    }

    /// Sizes the box and its core list for the terminal size and the
    /// number of hardware threads, `got_sensors` when temperatures are
    /// shown beside the cores, and records its height in `brshtop_box`
    /// (see `cpu_layout`).
    pub fn calc_size(&mut self, brshtop_box: &mut BrshtopBox, term_w: u16, term_h: u16, threads: u64, got_sensors: bool)
        requires
            cpu_layout_domain(old(self)@.parent, term_w as int, term_h as int, threads as int, got_sensors),
        ensures
            ({
                let (p, s, h) = cpu_layout(old(self)@.parent, old(self)@.sub, term_w as int, term_h as int, threads as int, got_sensors);
                &&& final(self)@ == (CpuView { parent: p, sub: s, ..old(self)@ })
                &&& final(brshtop_box)@ == (BoxView { b_cpu_h: h, ..old(brshtop_box)@ })
            }),
    {
        size_boxes(&mut self.parent, &mut self.sub, brshtop_box, term_w, term_h, threads, got_sensors);
    }

    /// A copy of the box itself.
    pub fn get_parent(&self) -> (r: BrshtopBox)
        ensures
            r@ == self@.parent,
    {
        self.parent.dup()
    }

    /// Replaces the box itself.
    pub fn set_parent(&mut self, parent: BrshtopBox)
        ensures
            final(self)@ == (CpuView { parent: parent@, ..old(self)@ }),
    {
        self.parent = parent;
    }

    /// Sets the name of the box.
    pub fn set_parent_name(&mut self, name: String)
        ensures
            final(self)@ == (CpuView { parent: BoxView { name: name@, ..old(self)@.parent }, ..old(self)@ }),
    {
        self.parent.set_name(name);
    }

    /// Sets the x of the box.
    pub fn set_parent_x(&mut self, x: u32)
        ensures
            final(self)@ == (CpuView { parent: BoxView { x: x, ..old(self)@.parent }, ..old(self)@ }),
    {
        self.parent.set_x(x);
    }

    /// Sets the y of the box.
    pub fn set_parent_y(&mut self, y: u32)
        ensures
            final(self)@ == (CpuView { parent: BoxView { y: y, ..old(self)@.parent }, ..old(self)@ }),
    {
        self.parent.set_y(y);
    }

    /// Sets the height percentage of the box.
    pub fn set_parent_height_p(&mut self, height_p: u32)
        ensures
            final(self)@ == (CpuView { parent: BoxView { height_p: height_p, ..old(self)@.parent }, ..old(self)@ }),
    {
        self.parent.set_height_p(height_p);
    }

    /// Sets the width percentage of the box.
    pub fn set_parent_width_p(&mut self, width_p: u32)
        ensures
            final(self)@ == (CpuView { parent: BoxView { width_p: width_p, ..old(self)@.parent }, ..old(self)@ }),
    {
        self.parent.set_width_p(width_p);
    }

    /// Sets the resized of the box.
    pub fn set_parent_resized(&mut self, resized: bool)
        ensures
            final(self)@ == (CpuView { parent: BoxView { resized: resized, ..old(self)@.parent }, ..old(self)@ }),
    {
        self.parent.set_resized(resized);
    }

    /// Sets the width of the box.
    pub fn set_parent_width(&mut self, width: u32)
        ensures
            final(self)@ == (CpuView { parent: BoxView { width: width, ..old(self)@.parent }, ..old(self)@ }),
    {
        self.parent.set_width(width);
    }

    /// Sets the height of the box.
    pub fn set_parent_height(&mut self, height: u32)
        ensures
            final(self)@ == (CpuView { parent: BoxView { height: height, ..old(self)@.parent }, ..old(self)@ }),
    {
        self.parent.set_height(height);
    }

    /// A copy of the core list.
    pub fn get_sub(&self) -> (r: SubBox)
        ensures
            r@ == self@.sub,
    {
        self.sub.dup()
    }

    /// Replaces the core list.
    pub fn set_sub(&mut self, sub: SubBox)
        ensures
            final(self)@ == (CpuView { sub: sub@, ..old(self)@ }),
    {
        self.sub = sub;
    }

    /// Sets the box columns of the core list.
    pub fn set_sub_box_columns(&mut self, box_columns: u32)
        ensures
            final(self)@ == (CpuView { sub: SubView { box_columns: box_columns, ..old(self)@.sub }, ..old(self)@ }),
    {
        self.sub.set_box_columns(box_columns);
    }

    /// Sets the column size of the core list.
    pub fn set_sub_column_size(&mut self, column_size: u32)
        ensures
            final(self)@ == (CpuView { sub: SubView { column_size: column_size, ..old(self)@.sub }, ..old(self)@ }),
    {
        self.sub.set_column_size(column_size);
    }

    /// Sets the box width of the core list.
    pub fn set_sub_box_width(&mut self, box_width: u32)
        ensures
            final(self)@ == (CpuView { sub: SubView { box_width: box_width, ..old(self)@.sub }, ..old(self)@ }),
    {
        self.sub.set_box_width(box_width);
    }

    /// Sets the box height of the core list.
    pub fn set_sub_box_height(&mut self, box_height: u32)
        ensures
            final(self)@ == (CpuView { sub: SubView { box_height: box_height, ..old(self)@.sub }, ..old(self)@ }),
    {
        self.sub.set_box_height(box_height);
    }

    /// Sets the box x of the core list.
    pub fn set_sub_box_x(&mut self, box_x: u32)
        ensures
            final(self)@ == (CpuView { sub: SubView { box_x: box_x, ..old(self)@.sub }, ..old(self)@ }),
    {
        self.sub.set_box_x(box_x);
    }

    /// Sets the box y of the core list.
    pub fn set_sub_box_y(&mut self, box_y: u32)
        ensures
            final(self)@ == (CpuView { sub: SubView { box_y: box_y, ..old(self)@.sub }, ..old(self)@ }),
    {
        self.sub.set_box_y(box_y);
    }

    /// Whether the box is to be drawn anew.
    pub fn get_redraw(&self) -> (r: bool)
        ensures
            r == self@.redraw,
    {
        self.redraw
    }

    /// Sets whether the box is to be drawn anew.
    pub fn set_redraw(&mut self, redraw: bool)
        ensures
            final(self)@ == (CpuView { redraw: redraw, ..old(self)@ }),
    {
        self.redraw = redraw;
    }

    /// The name of the draw buffer.
    pub fn get_buffer(&self) -> (r: String)
        ensures
            r@ == self@.buffer,
    {
        self.buffer.clone()
    }

    /// Sets the name of the draw buffer.
    pub fn set_buffer(&mut self, buffer: String)
        ensures
            final(self)@ == (CpuView { buffer: buffer@, ..old(self)@ }),
    {
        self.buffer = buffer;
    }

    /// The state of the battery last shown.
    pub fn get_battery_status(&self) -> (r: String)
        ensures
            r@ == self@.battery_status,
    {
        self.battery_status.clone()
    }

    /// Sets the state of the battery last shown.
    pub fn set_battery_status(&mut self, battery_status: String)
        ensures
            final(self)@ == (CpuView { battery_status: battery_status@, ..old(self)@ }),
    {
        self.battery_status = battery_status;
    }

    /// Where the battery was last shown.
    pub fn get_old_battery_pos(&self) -> (r: u32)
        ensures
            r == self@.old_battery_pos,
    {
        self.old_battery_pos
    }

    /// Sets where the battery was last shown.
    pub fn set_old_battery_pos(&mut self, old_battery_pos: u32)
        ensures
            final(self)@ == (CpuView { old_battery_pos: old_battery_pos, ..old(self)@ }),
    {
        self.old_battery_pos = old_battery_pos;
    }

    /// How wide the battery was last shown.
    pub fn get_old_battery_len(&self) -> (r: usize)
        ensures
            r == self@.old_battery_len,
    {
        self.old_battery_len
    }

    /// Sets how wide the battery was last shown.
    pub fn set_old_battery_len(&mut self, old_battery_len: usize)
        ensures
            final(self)@ == (CpuView { old_battery_len: old_battery_len, ..old(self)@ }),
    {
        self.old_battery_len = old_battery_len;
    }

    /// Whether the battery is to be cleared from the title.
    pub fn get_battery_clear(&self) -> (r: bool)
        ensures
            r == self@.battery_clear,
    {
        self.battery_clear
    }

    /// Sets whether the battery is to be cleared from the title.
    pub fn set_battery_clear(&mut self, battery_clear: bool)
        ensures
            final(self)@ == (CpuView { battery_clear: battery_clear, ..old(self)@ }),
    {
        self.battery_clear = battery_clear;
    }

    /// Whether the clock is kept out of the title.
    pub fn get_clock_block(&self) -> (r: bool)
        ensures
            r == self@.clock_block,
    {
        self.clock_block
    }

    /// Sets whether the clock is kept out of the title.
    pub fn set_clock_block(&mut self, clock_block: bool)
        ensures
            final(self)@ == (CpuView { clock_block: clock_block, ..old(self)@ }),
    {
        self.clock_block = clock_block;
    }

    /// Where the battery's state is read, if anywhere.
    pub fn get_battery_path(&self) -> (r: Option<String>)
        ensures
            opt_view(r) == self@.battery_path,
    {
        match &self.battery_path {
            Some(s) => Some(s.clone()),
            None => None,
        }
    }

    /// Sets where the battery's state is read.
    pub fn set_battery_path(&mut self, battery_path: Option<String>)
        ensures
            final(self)@ == (CpuView { battery_path: opt_view(battery_path), ..old(self)@ }),
    {
        self.battery_path = battery_path;
    }

    /// A copy of the symbols of the battery's states.
    pub fn get_battery_symbols(&self) -> (r: StrMap<String>)
        ensures
            r@ == self@.battery_symbols,
    {
        self.battery_symbols.dup_view()
    }

    /// Replaces the symbols of the battery's states.
    pub fn set_battery_symbols(&mut self, battery_symbols: StrMap<String>)
        ensures
            final(self)@ == (CpuView { battery_symbols: battery_symbols@, ..old(self)@ }),
    {
        self.battery_symbols = battery_symbols;
    }
}

} // verus!

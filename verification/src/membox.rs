//! The memory box: the split between memory and disks, and the sizes of its
//! meters and graphs.
use vstd::prelude::*;
use crate::brshtop_box::{BrshtopBox, BoxView, fresh_box, views, dup_strings};
use crate::config::ViewMode;
use crate::text::owned;

verus! {

/// What the memory box holds, as plain values.
pub struct MemView {
    pub parent: BoxView,
    pub mem_meter: i32,
    pub mem_size: usize,
    pub disk_meter: i32,
    pub divider: i32,
    pub mem_width: u32,
    pub disks_width: u32,
    pub graph_height: u32,
    pub redraw: bool,
    pub buffer: Seq<char>,
    pub swap_on: bool,
    pub mem_names: Seq<Seq<char>>,
    pub swap_names: Seq<Seq<char>>,
}

/// The memory box: memory and swap on the left, disks on the right of the
/// divider column.
pub struct MemBox {
    parent: BrshtopBox,
    mem_meter: i32,
    mem_size: usize,
    disk_meter: i32,
    divider: i32,
    mem_width: u32,
    disks_width: u32,
    graph_height: u32,
    redraw: bool,
    buffer: String,
    swap_on: bool,
    mem_names: Vec<String>,
    swap_names: Vec<String>,
}

impl View for MemBox {
    type V = MemView;

    closed spec fn view(&self) -> MemView {
        MemView {
            parent: self.parent@,
            mem_meter: self.mem_meter,
            mem_size: self.mem_size,
            disk_meter: self.disk_meter,
            divider: self.divider,
            mem_width: self.mem_width,
            disks_width: self.disks_width,
            graph_height: self.graph_height,
            redraw: self.redraw,
            buffer: self.buffer@,
            swap_on: self.swap_on,
            mem_names: views(&self.mem_names@),
            swap_names: views(&self.swap_names@),
        }
    }
}

/// The part of the configuration that the memory box layout reads.
pub struct MemConfig {
    pub show_disks: bool,
    pub swap_disk: bool,
    pub mem_graphs: bool,
}

/// `n / 2` rounded up, and 0 when that is not positive.
pub open spec fn half_up_pos(n: int) -> int {
    if n > 0 { (n + 1) / 2 } else { 0 }
}

/// The width and height the memory box takes on the terminal.
pub open spec fn mem_size_of(p: BoxView, term_w: int, term_h: int) -> (int, int) {
    let width_p: int = if p.stat_mode { 100 } else { p.width_p as int };
    (term_w * width_p / 100, term_h * (p.height_p as int) / 100 + 1)
}

/// The widths of the memory and disks parts: half the inner width each,
/// rounded up for memory, with one more for memory when a column is left
/// over; without disks, memory takes the whole inner width.
pub open spec fn mem_widths(width: int, show_disks: bool, old_disks_width: int) -> (int, int) {
    if show_disks {
        let mw0 = half_up_pos(width - 3);
        let dw = if width - mw0 - 3 >= 0 { width - mw0 - 3 } else { 0 };
        (if mw0 + dw < width - 2 { mw0 + 1 } else { mw0 }, dw)
    } else {
        (if width - 1 >= 0 { width - 1 } else { 0 }, old_disks_width)
    }
}

/// The size class of the memory part: 3 when the box has room for two
/// items, else 2 when the memory part is wider than 25 columns, else 1.
pub open spec fn mem_class(height: int, swap_apart: bool, mem_width: int) -> int {
    if height - (if swap_apart { 3int } else { 2int }) > 2 * (if swap_apart { 6int } else { 4int }) {
        3
    } else if mem_width > 25 {
        2
    } else {
        1
    }
}

/// The height of the memory graphs: the lines left after the meters, in
/// items, at least 1; 0 without graphs.
pub open spec fn mem_graph_height(height: int, swap_apart: bool, mem_size: int, mem_graphs: bool) -> int {
    let ih: int = if swap_apart { 6 } else { 4 };
    let gh0 = ((height - (if swap_apart { 2int } else { 1int })) - (if mem_size == 3 { 2int } else { 1int }) * ih) / ih;
    if mem_graphs { if gh0 == 0 { 1 } else { gh0 } } else { 0 }
}

/// The width of the memory meters: what the labels leave of the memory
/// part (read as `i32` from its `u32` value), 6 more for the smallest size
/// or with graphs over one line, never negative.
pub open spec fn mem_meter_width(width: int, disks_part: int, mem_size: int, graph_height: int, mem_graphs: bool) -> int {
    let meter0: int = ((width - disks_part - (if mem_size > 2 { 9int } else { 20int })) as u32) as i32 as int;
    let meter1: int = if mem_size == 1 { meter0 + 6 } else { meter0 };
    let meter2: int = if meter1 < 1 { 0 } else { meter1 };
    if mem_graphs && graph_height > 1 { meter2 + 6 } else { meter2 }
}

/// The width of the disk meters: what is left right of the memory part, 10
/// more for a narrow disks part, never negative.
pub open spec fn disk_meter_width(width: int, mem_width: int, disks_width: int) -> int {
    let dm0: int = width - mem_width - 23;
    let dm1: int = if disks_width < 25 { dm0 + 10 } else { dm0 };
    if dm1 < 1 { 0 } else { dm1 }
}

/// The layout of the memory box for a terminal of `term_w` by `term_h`
/// cells below a cpu box `b_cpu_h` lines high: the box and its parts, and
/// the height that the box takes (which the caller keeps as the memory box
/// height). The column width of the memory part is then replaced by the
/// size class of the box (see `mem_class`).
pub open spec fn mem_layout(v: MemView, term_w: int, term_h: int, b_cpu_h: i32, c: MemConfig) -> (MemView, i32) {
    let p = v.parent;
    let (width, height) = mem_size_of(p, term_w, term_h);
    let y: int = if b_cpu_h + 1 >= 0 { b_cpu_h + 1 } else { 0 };
    let (mw1, dw) = mem_widths(width, c.show_disks, v.disks_width as int);
    let divider: int = if c.show_disks { (p.x as i32) as int + mw1 } else { v.divider as int };
    let swap_apart = v.swap_on && !c.swap_disk;
    let mem_width = mem_class(height, swap_apart, mw1);
    let graph_height = mem_graph_height(height, swap_apart, v.mem_size as int, c.mem_graphs);
    let meter = mem_meter_width(width, if c.show_disks { dw } else { 0 }, v.mem_size as int, graph_height, c.mem_graphs);
    let disk_meter: int = if c.show_disks { disk_meter_width(width, mem_width, dw) } else { v.disk_meter as int };
    (MemView {
        parent: BoxView { width: width as u32, height: height as u32, y: y as u32, ..p },
        mem_width: mem_width as u32,
        disks_width: dw as u32,
        divider: divider as i32,
        mem_meter: meter as i32,
        graph_height: graph_height as u32,
        disk_meter: disk_meter as i32,
        ..v
    }, height as i32)
}

/// The sizes on which the memory layout stays within the integer types of
/// the box: the products of terminal size and percentages fit in `u32`,
/// the box is at least 2 lines high (3 with swap shown apart), its width
/// leaves room for the disks part and the labels of the meters, and the
/// divider column fits in `i32`.
pub open spec fn mem_layout_domain(v: MemView, term_w: int, term_h: int, b_cpu_h: i32, c: MemConfig) -> bool {
    let p = v.parent;
    let width_p: int = if p.stat_mode { 100 } else { p.width_p as int };
    let (width, height) = mem_size_of(p, term_w, term_h);
    let (mw1, dw) = mem_widths(width, c.show_disks, v.disks_width as int);
    let swap_apart = v.swap_on && !c.swap_disk;
    let ih: int = if swap_apart { 6 } else { 4 };
    &&& term_w * width_p <= u32::MAX
    &&& term_h * (p.height_p as int) <= u32::MAX
    &&& b_cpu_h < i32::MAX
    &&& height >= (if swap_apart { 3int } else { 2int })
    &&& width - (if c.show_disks { dw } else { 0 }) - (if v.mem_size > 2 { 9int } else { 20int }) >= 0
    &&& c.show_disks ==> (p.x as i32) as int + mw1 <= i32::MAX
    &&& c.mem_graphs ==> (height - (if swap_apart { 2int } else { 1int })) - (if v.mem_size == 3 { 2int } else { 1int }) * ih >= 0
}

/// `mem_widths` over machine integers.
fn compute_mem_widths(width: i64, show_disks: bool, old_disks_width: u32) -> (r: (i64, i64))
    requires
        0 <= width <= u32::MAX,
    ensures
        (r.0 as int, r.1 as int) == mem_widths(width as int, show_disks, old_disks_width as int),
        0 <= r.0 <= u32::MAX,
        0 <= r.1 <= u32::MAX,
{
    if show_disks {
        let mw0: i64 = if width - 3 > 0 { (width - 3 + 1) / 2 } else { 0 };
        let dw: i64 = if width - mw0 - 3 >= 0 { width - mw0 - 3 } else { 0 };
        (if mw0 + dw < width - 2 { mw0 + 1 } else { mw0 }, dw)
    } else {
        (if width - 1 >= 0 { width - 1 } else { 0 }, old_disks_width as i64)
    }
}

/// `mem_size_of` over machine integers.
fn compute_mem_size(term_w: u16, term_h: u16, p: &BrshtopBox) -> (r: (i64, i64))
    requires
        term_w * (if p@.stat_mode { 100int } else { p@.width_p as int }) <= u32::MAX,
        term_h * (p@.height_p as int) <= u32::MAX,
    ensures
        (r.0 as int, r.1 as int) == mem_size_of(p@, term_w as int, term_h as int),
        0 <= r.0 <= u32::MAX / 100,
        1 <= r.1 <= u32::MAX / 100 + 1,
{
    let width_p: u64 = if p.get_stat_mode() { 100 } else { p.get_width_p() as u64 };
    let height_p: u64 = p.get_height_p() as u64;
    let tw: u64 = term_w as u64;
    let th: u64 = term_h as u64;
    let a: u64 = tw * width_p;
    let b: u64 = th * height_p;
    assert(a / 100 <= u32::MAX / 100) by (nonlinear_arith) requires a <= u32::MAX;
    assert(b / 100 <= u32::MAX / 100) by (nonlinear_arith) requires b <= u32::MAX;
    ((a / 100) as i64, (b / 100) as i64 + 1)
}

/// `mem_graph_height` over machine integers.
fn compute_graph_height(height: i64, swap_apart: bool, mem_size: usize, mem_graphs: bool) -> (r: i64)
    requires
        0 <= height <= u32::MAX,
        mem_graphs ==> (height - (if swap_apart { 2int } else { 1int })) - (if mem_size == 3 { 2int } else { 1int }) * (if swap_apart { 6int } else { 4int }) >= 0,
    ensures
        r as int == mem_graph_height(height as int, swap_apart, mem_size as int, mem_graphs),
        0 <= r <= u32::MAX,
{
    if mem_graphs {
        let ih: i64 = if swap_apart { 6 } else { 4 };
        let gh: i64 = ((height - (if swap_apart { 2 } else { 1 })) - (if mem_size == 3 { 2 } else { 1 }) * ih) / ih;
        if gh == 0 { 1 } else { gh }
    } else {
        0
    }
}

/// `mem_meter_width` over machine integers.
fn compute_mem_meter(width: i64, disks_part: i64, mem_size: usize, graph_height: i64, mem_graphs: bool) -> (r: i32)
    requires
        0 <= width <= u32::MAX / 100,
        0 <= disks_part,
        width - disks_part - (if mem_size > 2 { 9int } else { 20int }) >= 0,
        0 <= graph_height,
    ensures
        r as int == mem_meter_width(width as int, disks_part as int, mem_size as int, graph_height as int, mem_graphs),
{
    let m0: i64 = width - disks_part - (if mem_size > 2 { 9 } else { 20 });
    let mut meter: i32 = #[verifier::truncate] ((m0 as u32) as i32);
    if mem_size == 1 {
        meter = meter + 6;
    }
    if meter < 1 {
        meter = 0;
    }
    if mem_graphs && graph_height > 1 {
        meter = meter + 6;
    }
    meter
}

impl MemBox {
    /// A memory box: 45% wide and 38% high, at the top left, showing swap
    /// when the configuration does; its buffer name "mem" is added to
    /// `brshtop_box`.
    pub fn new(brshtop_box: &mut BrshtopBox, config_view_mode: ViewMode, arg_mode: ViewMode, show_swap: bool) -> (m: Self)
        ensures
            final(brshtop_box)@ == (BoxView { buffers: old(brshtop_box)@.buffers.push("mem"@), ..old(brshtop_box)@ }),
            m@ == (MemView {
                parent: BoxView {
                    name: "mem"@,
                    height_p: 38,
                    width_p: 45,
                    x: 1,
                    y: 1,
                    resized: true,
                    ..fresh_box(config_view_mode, arg_mode)
                },
                mem_meter: 0,
                mem_size: 0,
                disk_meter: 0,
                divider: 0,
                mem_width: 0,
                disks_width: 0,
                graph_height: 0,
                redraw: false,
                buffer: "mem"@,
                swap_on: show_swap,
                mem_names: seq!["used"@, "available"@, "cached"@, "free"@],
                swap_names: seq!["used"@, "free"@],
            }),
    {
        let mut mem_names: Vec<String> = Vec::new();
        mem_names.push(owned("used"));
        mem_names.push(owned("available"));
        mem_names.push(owned("cached"));
        mem_names.push(owned("free"));
        let mut swap_names: Vec<String> = Vec::new();
        swap_names.push(owned("used"));
        swap_names.push(owned("free"));
        let mut parent = BrshtopBox::new(config_view_mode, arg_mode);
        parent.set_name(owned("mem"));
        parent.set_height_p(38);
        parent.set_width_p(45);
        parent.set_x(1);
        parent.set_y(1);
        parent.set_resized(true);
        brshtop_box.push_buffers(owned("mem"));
        let m = MemBox {
            parent,
            mem_meter: 0,
            mem_size: 0,
            disk_meter: 0,
            divider: 0,
            mem_width: 0,
            disks_width: 0,
            graph_height: 0,
            redraw: false,
            buffer: owned("mem"),
            swap_on: show_swap,
            mem_names,
            swap_names,
        };
        assert(m@.mem_names =~= seq!["used"@, "available"@, "cached"@, "free"@]);
        assert(m@.swap_names =~= seq!["used"@, "free"@]);
        m
    }

    /// Lays the box out for the terminal size and the cpu box height (see
    /// `mem_layout`); returns the height the box takes.
    #[verifier::rlimit(50)]
    pub fn calc_size(&mut self, term_w: u16, term_h: u16, b_cpu_h: i32, config: &MemConfig) -> (b_mem_h: i32)
        requires
            mem_layout_domain(old(self)@, term_w as int, term_h as int, b_cpu_h, *config),
        ensures
            (final(self)@, b_mem_h) == mem_layout(old(self)@, term_w as int, term_h as int, b_cpu_h, *config),
    {
        let ghost v = self@;
        let (width, height) = compute_mem_size(term_w, term_h, &self.parent);
        let y: i64 = b_cpu_h as i64 + 1;
        let (mw1, dw) = compute_mem_widths(width, config.show_disks, self.disks_width);
        let swap_apart: bool = self.swap_on && !config.swap_disk;
        let divider: i32 = if config.show_disks {
            ((#[verifier::truncate] (self.parent.get_x() as i32)) as i64 + mw1) as i32
        } else {
            self.divider
        };
        let mem_width: i64 = if height - (if swap_apart { 3 } else { 2 }) > 2 * (if swap_apart { 6 } else { 4 }) {
            3
        } else if mw1 > 25 {
            2
        } else {
            1
        };
        let graph_height: i64 = compute_graph_height(height, swap_apart, self.mem_size, config.mem_graphs);
        let meter: i32 = compute_mem_meter(width, if config.show_disks { dw } else { 0 }, self.mem_size, graph_height, config.mem_graphs);
        let disk_meter: i32 = if config.show_disks {
            let dm0: i64 = width - mem_width - 23;
            let dm1: i64 = if dw < 25 { dm0 + 10 } else { dm0 };
            (if dm1 < 1 { 0 } else { dm1 }) as i32
        } else {
            self.disk_meter
        };
        self.parent.set_width(width as u32);
        self.parent.set_height(height as u32);
        self.parent.set_y(if y >= 0 { y as u32 } else { 0 });
        self.mem_width = mem_width as u32;
        self.disks_width = dw as u32;
        self.divider = divider;
        self.mem_meter = meter;
        self.graph_height = graph_height as u32;
        self.disk_meter = disk_meter;
        height as i32
    }
}

impl MemBox {
    pub fn get_parent(&self) -> (r: BrshtopBox)
        ensures
            r@ == self@.parent,
    {
        self.parent.dup()
    }

    pub fn set_parent(&mut self, parent: BrshtopBox)
        ensures
            final(self)@ == (MemView { parent: parent@, ..old(self)@ }),
    {
        self.parent = parent;
    }

    pub fn set_parent_name(&mut self, name: String)
        ensures
            final(self)@ == (MemView { parent: BoxView { name: name@, ..old(self)@.parent }, ..old(self)@ }),
    {
        self.parent.set_name(name);
    }

    pub fn set_parent_height_p(&mut self, height_p: u32)
        ensures
            final(self)@ == (MemView { parent: BoxView { height_p: height_p, ..old(self)@.parent }, ..old(self)@ }),
    {
        self.parent.set_height_p(height_p);
    }

    pub fn set_parent_width_p(&mut self, width_p: u32)
        ensures
            final(self)@ == (MemView { parent: BoxView { width_p: width_p, ..old(self)@.parent }, ..old(self)@ }),
    {
        self.parent.set_width_p(width_p);
    }

    pub fn set_parent_x(&mut self, x: u32)
        ensures
            final(self)@ == (MemView { parent: BoxView { x: x, ..old(self)@.parent }, ..old(self)@ }),
    {
        self.parent.set_x(x);
    }

    pub fn set_parent_y(&mut self, y: u32)
        ensures
            final(self)@ == (MemView { parent: BoxView { y: y, ..old(self)@.parent }, ..old(self)@ }),
    {
        self.parent.set_y(y);
    }

    pub fn set_parent_resized(&mut self, resized: bool)
        ensures
            final(self)@ == (MemView { parent: BoxView { resized: resized, ..old(self)@.parent }, ..old(self)@ }),
    {
        self.parent.set_resized(resized);
    }

    pub fn set_parent_width(&mut self, width: u32)
        ensures
            final(self)@ == (MemView { parent: BoxView { width: width, ..old(self)@.parent }, ..old(self)@ }),
    {
        self.parent.set_width(width);
    }

    pub fn set_parent_height(&mut self, height: u32)
        ensures
            final(self)@ == (MemView { parent: BoxView { height: height, ..old(self)@.parent }, ..old(self)@ }),
    {
        self.parent.set_height(height);
    }

    pub fn get_mem_meter(&self) -> (r: i32)
        ensures
            r == self@.mem_meter,
    {
        self.mem_meter
    }

    pub fn set_mem_meter(&mut self, mem_meter: i32)
        ensures
            final(self)@ == (MemView { mem_meter: mem_meter, ..old(self)@ }),
    {
        self.mem_meter = mem_meter;
    }

    pub fn get_mem_size(&self) -> (r: usize)
        ensures
            r == self@.mem_size,
    {
        self.mem_size
    }

    pub fn set_mem_size(&mut self, mem_size: usize)
        ensures
            final(self)@ == (MemView { mem_size: mem_size, ..old(self)@ }),
    {
        self.mem_size = mem_size;
    }

    pub fn get_disk_meter(&self) -> (r: i32)
        ensures
            r == self@.disk_meter,
    {
        self.disk_meter
    }

    pub fn set_disk_meter(&mut self, disk_meter: i32)
        ensures
            final(self)@ == (MemView { disk_meter: disk_meter, ..old(self)@ }),
    {
        self.disk_meter = disk_meter;
    }

    pub fn get_divider(&self) -> (r: i32)
        ensures
            r == self@.divider,
    {
        self.divider
    }

    pub fn set_divider(&mut self, divider: i32)
        ensures
            final(self)@ == (MemView { divider: divider, ..old(self)@ }),
    {
        self.divider = divider;
    }

    pub fn get_mem_width(&self) -> (r: u32)
        ensures
            r == self@.mem_width,
    {
        self.mem_width
    }

    pub fn set_mem_width(&mut self, mem_width: u32)
        ensures
            final(self)@ == (MemView { mem_width: mem_width, ..old(self)@ }),
    {
        self.mem_width = mem_width;
    }

    pub fn get_disks_width(&self) -> (r: u32)
        ensures
            r == self@.disks_width,
    {
        self.disks_width
    }

    pub fn set_disks_width(&mut self, disks_width: u32)
        ensures
            final(self)@ == (MemView { disks_width: disks_width, ..old(self)@ }),
    {
        self.disks_width = disks_width;
    }

    pub fn get_graph_height(&self) -> (r: u32)
        ensures
            r == self@.graph_height,
    {
        self.graph_height
    }

    pub fn set_graph_height(&mut self, graph_height: u32)
        ensures
            final(self)@ == (MemView { graph_height: graph_height, ..old(self)@ }),
    {
        self.graph_height = graph_height;
    }

    pub fn get_redraw(&self) -> (r: bool)
        ensures
            r == self@.redraw,
    {
        self.redraw
    }

    pub fn set_redraw(&mut self, redraw: bool)
        ensures
            final(self)@ == (MemView { redraw: redraw, ..old(self)@ }),
    {
        self.redraw = redraw;
    }

    pub fn get_buffer(&self) -> (r: String)
        ensures
            r@ == self@.buffer,
    {
        self.buffer.clone()
    }

    pub fn set_buffer(&mut self, buffer: String)
        ensures
            final(self)@ == (MemView { buffer: buffer@, ..old(self)@ }),
    {
        self.buffer = buffer;
    }

    pub fn get_swap_on(&self) -> (r: bool)
        ensures
            r == self@.swap_on,
    {
        self.swap_on
    }

    pub fn set_swap_on(&mut self, swap_on: bool)
        ensures
            final(self)@ == (MemView { swap_on: swap_on, ..old(self)@ }),
    {
        self.swap_on = swap_on;
    }

    pub fn get_mem_names(&self) -> (r: Vec<String>)
        ensures
            views(&r@) == self@.mem_names,
    {
        dup_strings(&self.mem_names)
    }

    pub fn set_mem_names(&mut self, mem_names: Vec<String>)
        ensures
            final(self)@ == (MemView { mem_names: views(&mem_names@), ..old(self)@ }),
    {
        self.mem_names = mem_names;
    }

    pub fn get_swap_names(&self) -> (r: Vec<String>)
        ensures
            views(&r@) == self@.swap_names,
    {
        dup_strings(&self.swap_names)
    }

    pub fn set_swap_names(&mut self, swap_names: Vec<String>)
        ensures
            final(self)@ == (MemView { swap_names: views(&swap_names@), ..old(self)@ }),
    {
        self.swap_names = swap_names;
    }

    /// The memory item name at `index`, if there is one.
    pub fn get_mem_names_index(&self, index: usize) -> (r: Option<String>)
        ensures
            r is Some <==> index < self@.mem_names.len(),
            r matches Some(s) ==> s@ == self@.mem_names[index as int],
    {
        if index < self.mem_names.len() {
            Some(self.mem_names[index].clone())
        } else {
            None
        }
    }

    /// Inserts `element` at `index` into a copy of the memory item names;
    /// the box keeps its names unchanged.
    pub fn set_mem_names_index(&mut self, index: usize, element: String)
        requires
            index <= old(self)@.mem_names.len(),
        ensures
            final(self)@ == old(self)@,
    {
        let mut names = dup_strings(&self.mem_names);
        names.insert(index, element);
    }

    /// The swap item name at `index`, if there is one.
    pub fn get_swap_names_index(&self, index: usize) -> (r: Option<String>)
        ensures
            r is Some <==> index < self@.swap_names.len(),
            r matches Some(s) ==> s@ == self@.swap_names[index as int],
    {
        if index < self.swap_names.len() {
            Some(self.swap_names[index].clone())
        } else {
            None
        }
    }

    /// Inserts `element` at `index` into a copy of the memory item names
    /// (not of the swap names); the box keeps its names unchanged.
    pub fn set_swap_names_index(&mut self, index: usize, element: String)
        requires
            index <= old(self)@.mem_names.len(),
        ensures
            final(self)@ == old(self)@,
    {
        let mut names = dup_strings(&self.mem_names);
        names.insert(index, element);
    }
}

} // verus!

//! The network box: its layout and the inner box of statistics.
use vstd::prelude::*;
use crate::brshtop_box::{BrshtopBox, BoxView, fresh_box};
use crate::subbox::{SubBox, SubView};
use crate::strmap::StrMap;
use crate::config::ViewMode;
use crate::text::owned;

verus! {

/// What the network box holds, as plain values.
pub struct NetView {
    pub parent: BoxView,
    pub sub: SubView,
    pub redraw: bool,
    pub graph_height: Map<Seq<char>, u32>,
    pub symbols: Map<Seq<char>, String>,
    pub buffer: Seq<char>,
}

/// The network box: download and upload graphs, one above the other, with
/// the statistics in an inner box at the right.
pub struct NetBox {
    parent: BrshtopBox,
    sub: SubBox,
    redraw: bool,
    graph_height: StrMap<u32>,
    symbols: StrMap<String>,
    buffer: String,
}

impl View for NetBox {
    type V = NetView;

    closed spec fn view(&self) -> NetView {
        NetView {
            parent: self.parent@,
            sub: self.sub@,
            redraw: self.redraw,
            graph_height: self.graph_height@,
            symbols: self.symbols@,
            buffer: self.buffer@,
        }
    }
}

/// Integer division that rounds toward zero, as Rust's `/` does.
pub open spec fn tdiv(a: int, b: int) -> int {
    if a >= 0 { a / b } else { -((-a) / b) }
}

/// A value, or 0 when it is negative.
pub open spec fn nonneg(a: int) -> int {
    if a < 0 { 0 } else { a }
}

/// The layout of the network box for a terminal of `term_w` by `term_h`
/// cells below the cpu and memory boxes: it takes the lines they leave at
/// the bottom of the terminal; the statistics box is 27 wide in a box wider
/// than 45 (19 otherwise), at most 9 high, at the right edge and centered;
/// the download graph takes the upper half of the inner lines, rounded up,
/// and the upload graph the rest.
pub open spec fn net_layout(v: NetView, term_w: int, term_h: int, b_cpu_h: i32, b_mem_h: i32) -> NetView {
    let p = v.parent;
    let width_p: int = if p.stat_mode { 100 } else { p.width_p as int };
    let width: int = term_w * width_p / 100;
    let height: int = nonneg(term_h - b_cpu_h - b_mem_h);
    let y: int = nonneg(term_h - height + 1);
    let box_width: int = if width > 45 { 27 } else { 19 };
    let box_height: int = if height > 10 { 9 } else { nonneg(height - 2) };
    let box_x: int = nonneg(width - box_width - 1);
    let box_y: int = y + nonneg(tdiv(height - 2, 2) - box_height / 2) + 1;
    let download: int = nonneg((height - 2 + 1) / 2);
    let upload: int = nonneg(height - 2 - download);
    NetView {
        parent: BoxView { width: width as u32, height: height as u32, y: y as u32, ..p },
        sub: SubView { box_width: box_width as u32, box_height: box_height as u32, box_x: box_x as u32, box_y: box_y as u32, ..v.sub },
        graph_height: v.graph_height.insert("download"@, download as u32).insert("upload"@, upload as u32),
        redraw: true,
        ..v
    }
}

/// The sizes on which the network layout stays within the integer types
/// of the box.
pub open spec fn net_layout_domain(v: NetView, term_w: int, term_h: int, b_cpu_h: i32, b_mem_h: i32) -> bool {
    let width_p: int = if v.parent.stat_mode { 100 } else { v.parent.width_p as int };
    &&& term_w * width_p <= u32::MAX
    &&& i32::MIN <= term_h - b_cpu_h <= i32::MAX
    &&& i32::MIN <= term_h - b_cpu_h - b_mem_h <= i32::MAX
}

impl NetBox {
    /// A network box: 45% wide and 30% high, at the top left, with the
    /// arrows "▼" for download and "▲" for upload; its buffer name "net" is
    /// added to `brshtop_box`.
    pub fn new(brshtop_box: &mut BrshtopBox, config_view_mode: ViewMode, arg_mode: ViewMode) -> (n: Self)
        ensures
            final(brshtop_box)@ == (BoxView { buffers: old(brshtop_box)@.buffers.push("net"@), ..old(brshtop_box)@ }),
            n@ == (NetView {
                parent: BoxView {
                    name: "net"@,
                    height_p: 30,
                    width_p: 45,
                    x: 1,
                    y: 1,
                    resized: true,
                    ..fresh_box(config_view_mode, arg_mode)
                },
                sub: SubBox::new_view(),
                redraw: true,
                graph_height: Map::empty(),
                symbols: n@.symbols,
                buffer: "net"@,
            }),
            n@.symbols.dom() == set!["download"@, "upload"@],
            n@.symbols["download"@]@ == "▼"@,
            n@.symbols["upload"@]@ == "▲"@,
    {
        let mut symbols: StrMap<String> = StrMap::new();
        symbols.insert(owned("download"), owned("▼"));
        symbols.insert(owned("upload"), owned("▲"));
        let mut parent = BrshtopBox::new(config_view_mode, arg_mode);
        parent.set_name(owned("net"));
        parent.set_height_p(30);
        parent.set_width_p(45);
        parent.set_x(1);
        parent.set_y(1);
        parent.set_resized(true);
        brshtop_box.push_buffers(owned("net"));
        let n = NetBox {
            parent,
            sub: SubBox::new(),
            redraw: true,
            graph_height: StrMap::new(),
            symbols,
            buffer: owned("net"),
        };
        proof {
            reveal_strlit("download");
            reveal_strlit("upload");
            assert("download"@[0] != "upload"@[0]);
            assert(n@.symbols.dom() =~= set!["download"@, "upload"@]);
            assert(n@.graph_height =~= Map::<Seq<char>, u32>::empty());
        }
        n
    }

    /// Lays the box out for the terminal size and the heights of the cpu
    /// and memory boxes (see `net_layout`).
    pub fn calc_size(&mut self, term_w: u16, term_h: u16, b_cpu_h: i32, b_mem_h: i32)
        requires
            net_layout_domain(old(self)@, term_w as int, term_h as int, b_cpu_h, b_mem_h),
        ensures
            final(self)@ == net_layout(old(self)@, term_w as int, term_h as int, b_cpu_h, b_mem_h),
    {
        let width_p: u64 = if self.parent.get_stat_mode() { 100 } else { self.parent.get_width_p() as u64 };
        let a: u64 = (term_w as u64) * width_p;
        assert(a / 100 <= u32::MAX / 100) by (nonlinear_arith) requires a <= u32::MAX;
        let width: i64 = (a / 100) as i64;
        let h0: i64 = term_h as i64 - b_cpu_h as i64 - b_mem_h as i64;
        let height: i64 = if h0 < 0 { 0 } else { h0 };
        let y0: i64 = term_h as i64 - height + 1;
        let y: i64 = if y0 < 0 { 0 } else { y0 };
        let box_width: i64 = if width > 45 { 27 } else { 19 };
        let box_height: i64 = if height > 10 { 9 } else if height - 2 < 0 { 0 } else { height - 2 };
        let bx: i64 = width - box_width - 1;
        let n: i64 = height - 2;
        let half: i64 = if n >= 0 { n / 2 } else { -((-n) / 2) };
        let by0: i64 = half - box_height / 2;
        let box_y: i64 = y + (if by0 < 0 { 0 } else { by0 }) + 1;
        let download: i64 = if (height - 2 + 1) / 2 < 0 { 0 } else { (height - 2 + 1) / 2 };
        let upload: i64 = if height - 2 - download < 0 { 0 } else { height - 2 - download };
        self.parent.set_width(width as u32);
        self.parent.set_height(height as u32);
        self.parent.set_y(y as u32);
        self.sub.set_box_width(box_width as u32);
        self.sub.set_box_height(box_height as u32);
        self.sub.set_box_x(if bx < 0 { 0 } else { bx as u32 });
        self.sub.set_box_y(box_y as u32);
        self.graph_height.insert(owned("download"), download as u32);
        self.graph_height.insert(owned("upload"), upload as u32);
        self.redraw = true;
    }
}

impl NetBox {
    pub fn get_parent(&self) -> (r: BrshtopBox)
        ensures
            r@ == self@.parent,
    {
        self.parent.dup()
    }

    pub fn set_parent(&mut self, parent: BrshtopBox)
        ensures
            final(self)@ == (NetView { parent: parent@, ..old(self)@ }),
    {
        self.parent = parent;
    }

    pub fn set_parent_name(&mut self, name: String)
        ensures
            final(self)@ == (NetView { parent: BoxView { name: name@, ..old(self)@.parent }, ..old(self)@ }),
    {
        self.parent.set_name(name);
    }

    pub fn set_parent_width(&mut self, width: u32)
        ensures
            final(self)@ == (NetView { parent: BoxView { width: width, ..old(self)@.parent }, ..old(self)@ }),
    {
        self.parent.set_width(width);
    }

    pub fn set_parent_height(&mut self, height: u32)
        ensures
            final(self)@ == (NetView { parent: BoxView { height: height, ..old(self)@.parent }, ..old(self)@ }),
    {
        self.parent.set_height(height);
    }

    pub fn set_parent_height_p(&mut self, height_p: u32)
        ensures
            final(self)@ == (NetView { parent: BoxView { height_p: height_p, ..old(self)@.parent }, ..old(self)@ }),
    {
        self.parent.set_height_p(height_p);
    }

    pub fn set_parent_width_p(&mut self, width_p: u32)
        ensures
            final(self)@ == (NetView { parent: BoxView { width_p: width_p, ..old(self)@.parent }, ..old(self)@ }),
    {
        self.parent.set_width_p(width_p);
    }

    pub fn set_parent_x(&mut self, x: u32)
        ensures
            final(self)@ == (NetView { parent: BoxView { x: x, ..old(self)@.parent }, ..old(self)@ }),
    {
        self.parent.set_x(x);
    }

    pub fn set_parent_y(&mut self, y: u32)
        ensures
            final(self)@ == (NetView { parent: BoxView { y: y, ..old(self)@.parent }, ..old(self)@ }),
    {
        self.parent.set_y(y);
    }

    pub fn set_parent_resized(&mut self, resized: bool)
        ensures
            final(self)@ == (NetView { parent: BoxView { resized: resized, ..old(self)@.parent }, ..old(self)@ }),
    {
        self.parent.set_resized(resized);
    }

    pub fn get_sub(&self) -> (r: SubBox)
        ensures
            r@ == self@.sub,
    {
        self.sub.dup()
    }

    pub fn set_sub(&mut self, sub: SubBox)
        ensures
            final(self)@ == (NetView { sub: sub@, ..old(self)@ }),
    {
        self.sub = sub;
    }

    pub fn get_redraw(&self) -> (r: bool)
        ensures
            r == self@.redraw,
    {
        self.redraw
    }

    pub fn set_redraw(&mut self, redraw: bool)
        ensures
            final(self)@ == (NetView { redraw: redraw, ..old(self)@ }),
    {
        self.redraw = redraw;
    }

    pub fn get_buffer(&self) -> (r: String)
        ensures
            r@ == self@.buffer,
    {
        self.buffer.clone()
    }

    pub fn set_buffer(&mut self, buffer: String)
        ensures
            final(self)@ == (NetView { buffer: buffer@, ..old(self)@ }),
    {
        self.buffer = buffer;
    }

    pub fn set_sub_box_width(&mut self, box_width: u32)
        ensures
            final(self)@ == (NetView { sub: SubView { box_width: box_width, ..old(self)@.sub }, ..old(self)@ }),
    {
        self.sub.set_box_width(box_width);
    }

    pub fn set_sub_box_height(&mut self, box_height: u32)
        ensures
            final(self)@ == (NetView { sub: SubView { box_height: box_height, ..old(self)@.sub }, ..old(self)@ }),
    {
        self.sub.set_box_height(box_height);
    }

    pub fn set_sub_box_x(&mut self, box_x: u32)
        ensures
            final(self)@ == (NetView { sub: SubView { box_x: box_x, ..old(self)@.sub }, ..old(self)@ }),
    {
        self.sub.set_box_x(box_x);
    }

    pub fn set_sub_box_y(&mut self, box_y: u32)
        ensures
            final(self)@ == (NetView { sub: SubView { box_y: box_y, ..old(self)@.sub }, ..old(self)@ }),
    {
        self.sub.set_box_y(box_y);
    }

    pub fn get_graph_height(&self) -> (r: StrMap<u32>)
        ensures
            r@ == self@.graph_height,
    {
        self.graph_height.dup_map()
    }

    pub fn set_graph_height(&mut self, graph_height: StrMap<u32>)
        ensures
            final(self)@ == (NetView { graph_height: graph_height@, ..old(self)@ }),
    {
        self.graph_height = graph_height;
    }

    pub fn get_graph_height_index(&self, index: String) -> (r: Option<u32>)
        ensures
            r is Some <==> self@.graph_height.dom().contains(index@),
            r matches Some(v) ==> v == self@.graph_height[index@],
    {
        match self.graph_height.get(index.as_str()) {
            Some(v) => Some(*v),
            None => None,
        }
    }

    pub fn set_graph_height_index(&mut self, index: String, element: u32)
        ensures
            final(self)@ == (NetView { graph_height: old(self)@.graph_height.insert(index@, element), ..old(self)@ }),
    {
        self.graph_height.insert(index, element);
    }

    pub fn get_symbols(&self) -> (r: StrMap<String>)
        ensures
            r@ == self@.symbols,
    {
        self.symbols.dup_map()
    }

    pub fn set_symbols(&mut self, symbols: StrMap<String>)
        ensures
            final(self)@ == (NetView { symbols: symbols@, ..old(self)@ }),
    {
        self.symbols = symbols;
    }

    pub fn get_symbols_index(&self, index: String) -> (r: Option<String>)
        ensures
            r is Some <==> self@.symbols.dom().contains(index@),
            r matches Some(v) ==> v == self@.symbols[index@],
    {
        match self.symbols.get(index.as_str()) {
            Some(v) => Some(v.clone()),
            None => None,
        }
    }

    pub fn set_symbols_index(&mut self, index: String, element: String)
        ensures
            final(self)@ == (NetView { symbols: old(self)@.symbols.insert(index@, element), ..old(self)@ }),
    {
        self.symbols.insert(index, element);
    }
}

} // verus!

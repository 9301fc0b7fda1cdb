//! The geometry and drawing state shared by every box on the screen.
use vstd::prelude::*;
use crate::config::ViewMode;
use crate::strmap::StrMap;

verus! {

/// What a box holds, as plain values.
pub struct BoxView {
    pub name: Seq<char>,
    pub height_p: u32,
    pub width_p: u32,
    pub x: u32,
    pub y: u32,
    pub width: u32,
    pub height: u32,
    pub proc_mode: bool,
    pub stat_mode: bool,
    pub out: Seq<char>,
    pub bg: Seq<char>,
    pub b_cpu_h: i32,
    pub b_mem_h: i32,
    pub redraw_all: bool,
    pub buffers: Seq<Seq<char>>,
    pub clock_on: bool,
    pub clock: Seq<char>,
    pub clock_len: u32,
    pub resized: bool,
    pub clock_custom_format: Map<Seq<char>, String>,
}

/// The characters of each string of a list.
pub open spec fn views(v: &Seq<String>) -> Seq<Seq<char>> {
    Seq::new(v.len(), |i: int| v[i]@)
}

/// A copy of a list of strings.
pub fn dup_strings(v: &Vec<String>) -> (r: Vec<String>)
    ensures
        r@ == v@,
{
    let mut r: Vec<String> = Vec::new();
    let mut i: usize = 0;
    while i < v.len()
        invariant
            i <= v.len(),
            r@ == v@.take(i as int),
        decreases v.len() - i,
    {
        r.push(v[i].clone());
        assert(r@ =~= v@.take(i + 1));
        i = i + 1;
    }
    assert(v@.take(v.len() as int) =~= v@);
    r
}

/// The geometry and drawing state of a box: its place and size on the
/// screen, in cells and in percent of the terminal, the names of its draw
/// buffers, and the clock shown in its title.
pub struct BrshtopBox {
    name: String,
    height_p: u32,
    width_p: u32,
    x: u32,
    y: u32,
    width: u32,
    height: u32,
    proc_mode: bool,
    stat_mode: bool,
    out: String,
    bg: String,
    _b_cpu_h: i32,
    _b_mem_h: i32,
    redraw_all: bool,
    buffers: Vec<String>,
    clock_on: bool,
    clock: String,
    clock_len: u32,
    resized: bool,
    clock_custom_format: StrMap<String>,
}

impl View for BrshtopBox {
    type V = BoxView;

    closed spec fn view(&self) -> BoxView {
        BoxView {
            name: self.name@,
            height_p: self.height_p,
            width_p: self.width_p,
            x: self.x,
            y: self.y,
            width: self.width,
            height: self.height,
            proc_mode: self.proc_mode,
            stat_mode: self.stat_mode,
            out: self.out@,
            bg: self.bg@,
            b_cpu_h: self._b_cpu_h,
            b_mem_h: self._b_mem_h,
            redraw_all: self.redraw_all,
            buffers: views(&self.buffers@),
            clock_on: self.clock_on,
            clock: self.clock@,
            clock_len: self.clock_len,
            resized: self.resized,
            clock_custom_format: self.clock_custom_format@,
        }
    }
}

/// A fresh box: every size and place zero, no buffers, no clock.
pub open spec fn fresh_box(config_mode: ViewMode, arg_mode: ViewMode) -> BoxView {
    BoxView {
        name: Seq::empty(),
        height_p: 0,
        width_p: 0,
        x: 0,
        y: 0,
        width: 0,
        height: 0,
        proc_mode: spec_proc_mode(config_mode, arg_mode),
        stat_mode: false,
        out: Seq::empty(),
        bg: Seq::empty(),
        b_cpu_h: 0,
        b_mem_h: 0,
        redraw_all: false,
        buffers: Seq::empty(),
        clock_on: false,
        clock: Seq::empty(),
        clock_len: 0,
        resized: false,
        clock_custom_format: Map::empty(),
    }
}

/// Whether the process box alone is shown, for the configured view mode and
/// the one given on the command line (`ViewMode::Unset` when none was given).
pub open spec fn spec_proc_mode(config_mode: ViewMode, arg_mode: ViewMode) -> bool {
    (config_mode == ViewMode::Proc && arg_mode == ViewMode::Unset) || arg_mode == ViewMode::Proc
}

impl BrshtopBox {
    /// A copy of the box.
    pub fn dup(&self) -> (r: Self)
        ensures
            r@ == self@,
    {
        let r = BrshtopBox {
            name: self.name.clone(),
            height_p: self.height_p,
            width_p: self.width_p,
            x: self.x,
            y: self.y,
            width: self.width,
            height: self.height,
            proc_mode: self.proc_mode,
            stat_mode: self.stat_mode,
            out: self.out.clone(),
            bg: self.bg.clone(),
            _b_cpu_h: self._b_cpu_h,
            _b_mem_h: self._b_mem_h,
            redraw_all: self.redraw_all,
            buffers: dup_strings(&self.buffers),
            clock_on: self.clock_on,
            clock: self.clock.clone(),
            clock_len: self.clock_len,
            resized: self.resized,
            clock_custom_format: self.clock_custom_format.dup_map(),
        };
        r
    }
}

impl BrshtopBox {
    /// A fresh box: every size and place zero, no buffers, no clock. The
    /// process box alone is shown when the command line asks for it, or when
    /// the configuration does and the command line gives no mode.
    pub fn new(config_view_mode: ViewMode, arg_mode: ViewMode) -> (b: Self)
        ensures
            b@ == fresh_box(config_view_mode, arg_mode),
    {
        let proc_mode = (config_view_mode == ViewMode::Proc && arg_mode == ViewMode::Unset)
            || arg_mode == ViewMode::Proc;
        let b = BrshtopBox {
            name: String::new(),
            height_p: 0,
            width_p: 0,
            x: 0,
            y: 0,
            width: 0,
            height: 0,
            proc_mode: proc_mode,
            stat_mode: false,
            out: String::new(),
            bg: String::new(),
            _b_cpu_h: 0,
            _b_mem_h: 0,
            redraw_all: false,
            buffers: Vec::new(),
            clock_on: false,
            clock: String::new(),
            clock_len: 0,
            resized: false,
            clock_custom_format: StrMap::new(),
        };
        assert(b@.buffers =~= Seq::<Seq<char>>::empty());
        assert(b@.clock_custom_format =~= Map::<Seq<char>, String>::empty());
        b
    }

    pub fn get_name(self) -> (r: String)
        ensures
            r@ == self@.name,
    {
        self.name.clone()
    }

    pub fn set_name(&mut self, name: String)
        ensures
            final(self)@ == (BoxView { name: name@, ..old(self)@ }),
    {
        self.name = name;
    }

    pub fn get_height_p(&self) -> (r: u32)
        ensures
            r == self@.height_p,
    {
        self.height_p
    }

    pub fn set_height_p(&mut self, height_p: u32)
        ensures
            final(self)@ == (BoxView { height_p: height_p, ..old(self)@ }),
    {
        self.height_p = height_p;
    }

    pub fn get_width_p(&self) -> (r: u32)
        ensures
            r == self@.width_p,
    {
        self.width_p
    }

    pub fn set_width_p(&mut self, width_p: u32)
        ensures
            final(self)@ == (BoxView { width_p: width_p, ..old(self)@ }),
    {
        self.width_p = width_p;
    }

    pub fn get_x(&self) -> (r: u32)
        ensures
            r == self@.x,
    {
        self.x
    }

    pub fn set_x(&mut self, x: u32)
        ensures
            final(self)@ == (BoxView { x: x, ..old(self)@ }),
    {
        self.x = x;
    }

    pub fn get_y(&self) -> (r: u32)
        ensures
            r == self@.y,
    {
        self.y
    }

    pub fn set_y(&mut self, y: u32)
        ensures
            final(self)@ == (BoxView { y: y, ..old(self)@ }),
    {
        self.y = y;
    }

    pub fn get_width(&self) -> (r: u32)
        ensures
            r == self@.width,
    {
        self.width
    }

    pub fn set_width(&mut self, width: u32)
        ensures
            final(self)@ == (BoxView { width: width, ..old(self)@ }),
    {
        self.width = width;
    }

    pub fn get_height(&self) -> (r: u32)
        ensures
            r == self@.height,
    {
        self.height
    }

    pub fn set_height(&mut self, height: u32)
        ensures
            final(self)@ == (BoxView { height: height, ..old(self)@ }),
    {
        self.height = height;
    }

    pub fn get_proc_mode(&self) -> (r: bool)
        ensures
            r == self@.proc_mode,
    {
        self.proc_mode
    }

    pub fn set_proc_mode(&mut self, proc_mode: bool)
        ensures
            final(self)@ == (BoxView { proc_mode: proc_mode, ..old(self)@ }),
    {
        self.proc_mode = proc_mode;
    }

    pub fn get_stat_mode(&self) -> (r: bool)
        ensures
            r == self@.stat_mode,
    {
        self.stat_mode
    }

    pub fn set_stat_mode(&mut self, stat_mode: bool)
        ensures
            final(self)@ == (BoxView { stat_mode: stat_mode, ..old(self)@ }),
    {
        self.stat_mode = stat_mode;
    }

    pub fn get_out(&self) -> (r: String)
        ensures
            r@ == self@.out,
    {
        self.out.clone()
    }

    pub fn set_out(&mut self, out: String)
        ensures
            final(self)@ == (BoxView { out: out@, ..old(self)@ }),
    {
        self.out = out;
    }

    pub fn get_bg(&self) -> (r: String)
        ensures
            r@ == self@.bg,
    {
        self.bg.clone()
    }

    pub fn set_bg(&mut self, bg: String)
        ensures
            final(self)@ == (BoxView { bg: bg@, ..old(self)@ }),
    {
        self.bg = bg;
    }

    pub fn get_b_cpu_h(&self) -> (r: i32)
        ensures
            r == self@.b_cpu_h,
    {
        self._b_cpu_h
    }

    pub fn set_b_cpu_h(&mut self, b_cpu_h: i32)
        ensures
            final(self)@ == (BoxView { b_cpu_h: b_cpu_h, ..old(self)@ }),
    {
        self._b_cpu_h = b_cpu_h;
    }

    pub fn get_b_mem_h(&self) -> (r: i32)
        ensures
            r == self@.b_mem_h,
    {
        self._b_mem_h
    }

    pub fn set_b_mem_h(&mut self, b_mem_h: i32)
        ensures
            final(self)@ == (BoxView { b_mem_h: b_mem_h, ..old(self)@ }),
    {
        self._b_mem_h = b_mem_h;
    }

    pub fn get_redraw_all(&self) -> (r: bool)
        ensures
            r == self@.redraw_all,
    {
        self.redraw_all
    }

    pub fn set_redraw_all(&mut self, redraw_all: bool)
        ensures
            final(self)@ == (BoxView { redraw_all: redraw_all, ..old(self)@ }),
    {
        self.redraw_all = redraw_all;
    }

    pub fn get_buffers(&self) -> (r: Vec<String>)
        ensures
            views(&r@) == self@.buffers,
    {
        dup_strings(&self.buffers)
    }

    pub fn set_buffers(&mut self, buffers: Vec<String>)
        ensures
            final(self)@ == (BoxView { buffers: views(&buffers@), ..old(self)@ }),
    {
        self.buffers = buffers;
    }

    pub fn get_clock_on(&self) -> (r: bool)
        ensures
            r == self@.clock_on,
    {
        self.clock_on
    }

    pub fn set_clock_on(&mut self, clock_on: bool)
        ensures
            final(self)@ == (BoxView { clock_on: clock_on, ..old(self)@ }),
    {
        self.clock_on = clock_on;
    }

    pub fn get_clock(&self) -> (r: String)
        ensures
            r@ == self@.clock,
    {
        self.clock.clone()
    }

    pub fn set_clock(&mut self, clock: String)
        ensures
            final(self)@ == (BoxView { clock: clock@, ..old(self)@ }),
    {
        self.clock = clock;
    }

    pub fn get_clock_len(&self) -> (r: u32)
        ensures
            r == self@.clock_len,
    {
        self.clock_len
    }

    pub fn set_clock_len(&mut self, clock_len: u32)
        ensures
            final(self)@ == (BoxView { clock_len: clock_len, ..old(self)@ }),
    {
        self.clock_len = clock_len;
    }

    pub fn get_resized(&self) -> (r: bool)
        ensures
            r == self@.resized,
    {
        self.resized
    }

    pub fn set_resized(&mut self, resized: bool)
        ensures
            final(self)@ == (BoxView { resized: resized, ..old(self)@ }),
    {
        self.resized = resized;
    }

    /// Adds a buffer name at the end of the list.
    pub fn push_buffers(&mut self, element: String)
        ensures
            final(self)@ == (BoxView { buffers: old(self)@.buffers.push(element@), ..old(self)@ }),
    {
        let ghost e = element@;
        self.buffers.push(element);
        assert(views(&self.buffers@) =~= old(self)@.buffers.push(e));
    }

    /// The buffer name at `index`, if there is one.
    pub fn get_buffers_index(&self, index: usize) -> (r: Option<String>)
        ensures
            r is Some <==> index < self@.buffers.len(),
            r matches Some(s) ==> s@ == self@.buffers[index as int],
    {
        if index < self.buffers.len() {
            Some(self.buffers[index].clone())
        } else {
            None
        }
    }

    /// Inserts a buffer name at `index`, moving the later ones up.
    pub fn set_buffers_index(&mut self, index: usize, element: String)
        requires
            index <= old(self)@.buffers.len(),
        ensures
            final(self)@ == (BoxView { buffers: old(self)@.buffers.insert(index as int, element@), ..old(self)@ }),
    {
        let ghost e = element@;
        self.buffers.insert(index, element);
        assert(views(&self.buffers@) =~= old(self)@.buffers.insert(index as int, e));
    }

    /// The custom clock formats: each key found in the clock text is
    /// replaced by its value.
    pub fn get_clock_custom_format(&self) -> (r: StrMap<String>)
        ensures
            r@ == self@.clock_custom_format,
    {
        self.clock_custom_format.dup_map()
    }

    pub fn set_clock_custom_format(&mut self, clock_custom_format: StrMap<String>)
        ensures
            final(self)@ == (BoxView { clock_custom_format: clock_custom_format@, ..old(self)@ }),
    {
        self.clock_custom_format = clock_custom_format;
    }

    /// The custom clock format under `index`, if any.
    pub fn get_clock_custom_format_index(&self, index: String) -> (r: Option<String>)
        ensures
            r is Some <==> self@.clock_custom_format.dom().contains(index@),
            r matches Some(s) ==> s == self@.clock_custom_format[index@],
    {
        match self.clock_custom_format.get(index.as_str()) {
            Some(s) => Some(s.clone()),
            None => None,
        }
    }

    /// Sets the custom clock format under `index`.
    pub fn set_clock_custom_format_index(&mut self, index: String, element: String)
        ensures
            final(self)@ == (BoxView {
                clock_custom_format: old(self)@.clock_custom_format.insert(index@, element),
                ..old(self)@
            }),
    {
        self.clock_custom_format.insert(index, element);
    }
}

} // verus!

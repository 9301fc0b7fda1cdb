//! The process box: its layout on the screen and the selection of a process
//! in the list by keys and by the mouse.
use vstd::prelude::*;
use std::collections::HashMap;
use crate::brshtop_box::{BrshtopBox, BoxView, fresh_box};
use crate::config::ViewMode;
use crate::text::{owned, str_eq};
use crate::brshtop_box::views;

use crate::collector::{Collector, Collectors};
use crate::event::{Event, EventEnum};

verus! {

broadcast use vstd::std_specs::hash::group_hash_axioms;

/// What the process box holds, as plain values.
pub struct ProcView {
    pub parent: BoxView,
    pub current_y: u32,
    pub current_h: u32,
    pub select_max: usize,
    pub selected: usize,
    pub selected_pid: u32,
    pub last_selection: usize,
    pub filtering: bool,
    pub moved: bool,
    pub start: i32,
    pub count: i32,
    pub s_len: usize,
    pub detailed: bool,
    pub detailed_x: u32,
    pub detailed_y: u32,
    pub detailed_width: u32,
    pub detailed_height: u32,
    pub buffer: Seq<char>,
    pub pid_counter: Map<u32, u32>,
    pub redraw: bool,
}

/// The process box: the list of processes with a selected line, the first
/// process shown (`start`, counted from 1) and the line selected
/// (`selected`, 0 when none, at most `select_max`, the lines that fit).
pub struct ProcBox {
    parent: BrshtopBox,
    current_y: u32,
    current_h: u32,
    select_max: usize,
    selected: usize,
    selected_pid: u32,
    last_selection: usize,
    filtering: bool,
    moved: bool,
    start: i32,
    count: i32,
    s_len: usize,
    detailed: bool,
    detailed_x: u32,
    detailed_y: u32,
    detailed_width: u32,
    detailed_height: u32,
    buffer: String,
    pid_counter: HashMap<u32, u32>,
    redraw: bool,
}

impl View for ProcBox {
    type V = ProcView;

    closed spec fn view(&self) -> ProcView {
        ProcView {
            parent: self.parent@,
            current_y: self.current_y,
            current_h: self.current_h,
            select_max: self.select_max,
            selected: self.selected,
            selected_pid: self.selected_pid,
            last_selection: self.last_selection,
            filtering: self.filtering,
            moved: self.moved,
            start: self.start,
            count: self.count,
            s_len: self.s_len,
            detailed: self.detailed,
            detailed_x: self.detailed_x,
            detailed_y: self.detailed_y,
            detailed_width: self.detailed_width,
            detailed_height: self.detailed_height,
            buffer: self.buffer@,
            pid_counter: self.pid_counter@,
            redraw: self.redraw,
        }
    }
}

/// A value saturated into the range of `u32`.
pub open spec fn sat_u32(v: int) -> u32 {
    if v < 0 {
        0
    } else if v > u32::MAX {
        u32::MAX
    } else {
        v as u32
    }
}

/// A value saturated into the range of `i32`.
pub open spec fn sat_i32(v: int) -> i32 {
    if v < i32::MIN {
        i32::MIN
    } else if v > i32::MAX {
        i32::MAX
    } else {
        v as i32
    }
}

/// The largest first line at which a list of `np` processes still fills
/// the `sm` lines of the box.
pub open spec fn last_start(np: int, sm: int) -> int {
    np - sm + 1
}

/// The state that moving the selection changes.
pub struct Selection {
    pub start: int,
    pub selected: int,
    pub last_selection: int,
}

/// The selection after a key, before it is brought back into range, and
/// whether the key asked to open the line under the mouse. `mx`, `my` is
/// the mouse position, `np` the number of processes, `sm` the lines that
/// fit, `cy` the first line of the list, `edge` the leftmost column of the
/// scroll bar, `detailed` whether a process is shown in detail.
pub open spec fn select_step(
    s: Selection,
    key: Seq<char>,
    mx: int,
    my: int,
    np: int,
    sm: int,
    cy: int,
    edge: int,
    detailed: bool,
) -> (Selection, bool) {
    if key == "up"@ {
        if s.selected == 1 && s.start > 1 {
            (Selection { start: s.start - 1, ..s }, false)
        } else if s.selected == 1 {
            (Selection { selected: 0, ..s }, false)
        } else if s.selected > 1 {
            (Selection { selected: s.selected - 1, ..s }, false)
        } else {
            (s, false)
        }
    } else if key == "down"@ {
        let s1 = if s.selected == 0 && detailed && s.last_selection > 0 {
            Selection { selected: s.last_selection, last_selection: 0, ..s }
        } else {
            s
        };
        if s1.selected == sm && s1.start < last_start(np, sm) {
            (Selection { start: s1.start + 1, ..s1 }, false)
        } else if s1.selected < sm {
            (Selection { selected: s1.selected + 1, ..s1 }, false)
        } else {
            (s1, false)
        }
    } else if key == "mouse_scroll_up"@ && s.start > 1 {
        (Selection { start: s.start - 5, ..s }, false)
    } else if key == "mouse_scroll_down"@ && s.start < last_start(np, sm) {
        (Selection { start: s.start + 5, ..s }, false)
    } else if key == "page_up"@ && s.start > 1 {
        (Selection { start: s.start - sm, ..s }, false)
    } else if key == "page_down"@ && s.start < last_start(np, sm) {
        (Selection { start: s.start + sm, ..s }, false)
    } else if key == "home"@ {
        if s.start > 1 {
            (Selection { start: 1, ..s }, false)
        } else if s.selected > 0 {
            (Selection { selected: 0, ..s }, false)
        } else {
            (s, false)
        }
    } else if key == "end"@ {
        if s.start < last_start(np, sm) {
            (Selection { start: last_start(np, sm), ..s }, false)
        } else if s.selected < sm {
            (Selection { selected: sm, ..s }, false)
        } else {
            (s, false)
        }
    } else if key == "mouse_click"@ {
        if mx > edge && cy + 1 < my && my < cy + 1 + sm + 1 {
            if my == cy + 2 {
                (Selection { start: 1, ..s }, false)
            } else if my == cy + 1 + sm {
                (Selection { start: last_start(np, sm), ..s }, false)
            } else {
                // the line of the scroll bar, scaled to the list
                let a = my - cy;
                let b = np - sm - 2;
                let c = sm - 2;
                (Selection { start: sat_i32((2 * (a * b) + c) / (2 * c)) as int, ..s }, false)
            }
        } else {
            let new_sel = (my - cy - (if my >= cy - 1 { 1int } else { 0int })) as usize as int;
            if new_sel > 0 && new_sel == s.selected {
                (s, true)
            } else if new_sel > 0 {
                (Selection { selected: new_sel, last_selection: 0, ..s }, false)
            } else {
                (s, false)
            }
        }
    } else if key == "mouse_unselect"@ {
        (Selection { selected: 0, ..s }, false)
    } else {
        (s, false)
    }
}

/// The first line brought back into the list: not past the last full page
/// (or past the last process when the list is shorter), and at least 1.
pub open spec fn clamp_start(start: int, np: int, sm: int) -> int {
    let st = if start > last_start(np, sm) && np > sm {
        last_start(np, sm)
    } else if start > np {
        np
    } else {
        start
    };
    if st < 1 { 1 } else { st }
}

/// The selected line brought back into the box: not past the last process
/// of a short list, and not past the lines that fit.
pub open spec fn clamp_selected(selected: usize, np: int, sm: int) -> int {
    if (selected as u32) > np && np < sm {
        np
    } else if selected > sm {
        sm
    } else {
        selected as int
    }
}

impl ProcBox {
    /// A process box: 55% wide and 68% high, at the top left, with the
    /// first process as first line and nothing selected. Its buffer name
    /// "proc" is added to `brshtop_box`.
    pub fn new(brshtop_box: &mut BrshtopBox, config_view_mode: ViewMode, arg_mode: ViewMode) -> (p: Self)
        ensures
            final(brshtop_box)@ == (BoxView { buffers: old(brshtop_box)@.buffers.push("proc"@), ..old(brshtop_box)@ }),
            p@.buffer == "proc"@,
            p@.parent == (BoxView {
                name: "proc"@,
                x: 1,
                y: 1,
                height_p: 68,
                width_p: 55,
                resized: true,
                ..fresh_box(config_view_mode, arg_mode)
            }),
            p@.current_y == 0 && p@.current_h == 0 && p@.select_max == 0 && p@.selected == 0,
            p@.selected_pid == 0 && p@.last_selection == 0 && !p@.filtering && !p@.moved,
            p@.start == 1 && p@.count == 0 && p@.s_len == 0 && !p@.detailed,
            p@.detailed_x == 0 && p@.detailed_y == 0 && p@.detailed_width == 0,
            p@.detailed_height == 8,
            p@.pid_counter == Map::<u32, u32>::empty(),
            p@.redraw,
    {
        brshtop_box.push_buffers(owned("proc"));
        let mut parent = BrshtopBox::new(config_view_mode, arg_mode);
        parent.set_x(1);
        parent.set_y(1);
        parent.set_height_p(68);
        parent.set_width_p(55);
        parent.set_resized(true);
        parent.set_name(owned("proc"));
        ProcBox {
            parent,
            current_y: 0,
            current_h: 0,
            select_max: 0,
            selected: 0,
            selected_pid: 0,
            last_selection: 0,
            filtering: false,
            moved: false,
            start: 1,
            count: 0,
            s_len: 0,
            detailed: false,
            detailed_x: 0,
            detailed_y: 0,
            detailed_width: 0,
            detailed_height: 8,
            buffer: owned("proc"),
            pid_counter: HashMap::new(),
            redraw: true,
        }
    }
}

/// The column right of which a click falls on the scroll bar.
pub open spec fn scroll_edge(p: BoxView) -> int {
    p.x + p.width - 4
}

/// A click on the scroll bar away from its two ends: the first line is then
/// scaled from the line clicked.
pub open spec fn drags_scroll_bar(key: Seq<char>, mx: int, my: int, sm: int, cy: int, edge: int) -> bool {
    &&& key == "mouse_click"@
    &&& mx > edge && cy + 1 < my && my < cy + 1 + sm + 1
    &&& my != cy + 2 && my != cy + 1 + sm
}

/// The inputs on which moving the selection stays within the integer types
/// the box uses: a process count within the range of process ids, a list
/// at least as long as the lines that fit (the bound is computed in
/// unsigned arithmetic), mouse positions and lines on a terminal screen,
/// and a scroll bar drag only over a list longer than the box by two.
pub open spec fn selector_domain(v: ProcView, key: Seq<char>, mx: int, my: int, np: int) -> bool {
    &&& np < 0x4000_0000
    &&& v.select_max <= np
    &&& 0 <= mx <= 0xffff && 0 <= my <= 0xffff
    &&& v.current_y <= 0xffff
    &&& v.parent.x + v.parent.width < 0x4000_0000
    &&& -0x4000_0000 < v.start < 0x4000_0000
    &&& drags_scroll_bar(key, mx, my, v.select_max as int, v.current_y as int, scroll_edge(v.parent))
        ==> np >= v.select_max + 2
}

impl ProcBox {
    /// The key step of `selector`, before the selection is brought back
    /// into range; true when the click opens the selected line.
    #[verifier::rlimit(40)]
    fn select_key(
        &mut self,
        key: &str,
        mouse_pos: (i32, i32),
        num_procs: u32,
        detailed: bool,
    ) -> (enter: bool)
        requires
            selector_domain(old(self)@, key@, mouse_pos.0 as int, mouse_pos.1 as int, num_procs as int),
        ensures
            ({
                let v = old(self)@;
                let (s1, e) = select_step(
                    Selection { start: v.start as int, selected: v.selected as int, last_selection: v.last_selection as int },
                    key@,
                    mouse_pos.0 as int,
                    mouse_pos.1 as int,
                    num_procs as int,
                    v.select_max as int,
                    v.current_y as int,
                    scroll_edge(v.parent),
                    detailed,
                );
                &&& enter == e
                &&& e ==> final(self)@ == v
                &&& final(self)@ == (ProcView {
                    start: s1.start as i32,
                    selected: s1.selected as usize,
                    last_selection: s1.last_selection as usize,
                    ..v
                })
                &&& -0x4000_0000 - 0x4000_0000 <= s1.start <= i32::MAX
                &&& 0 <= s1.selected <= usize::MAX
                &&& 0 <= s1.last_selection <= usize::MAX
            }),
    {
        let np: i64 = num_procs as i64;
        let sm: i64 = self.select_max as i64;
        let last: i64 = np - sm + 1;
        let cy: i64 = self.current_y as i64;
        let mx: i64 = mouse_pos.0 as i64;
        let my: i64 = mouse_pos.1 as i64;
        let edge: i64 = self.parent.get_x() as i64 + self.parent.get_width() as i64 - 4;

        if str_eq(key, "up") {
            if self.selected == 1 && self.start > 1 {
                self.start = self.start - 1;
            } else if self.selected == 1 {
                self.selected = 0;
            } else if self.selected > 1 {
                self.selected = self.selected - 1;
            }
        } else if str_eq(key, "down") {
            if self.selected == 0 && detailed && self.last_selection > 0 {
                self.selected = self.last_selection;
                self.last_selection = 0;
            }
            if self.selected == self.select_max && (self.start as i64) < last {
                self.start = self.start + 1;
            } else if self.selected < self.select_max {
                self.selected = self.selected + 1;
            }
        } else if str_eq(key, "mouse_scroll_up") && self.start > 1 {
            self.start = self.start - 5;
        } else if str_eq(key, "mouse_scroll_down") && (self.start as i64) < last {
            self.start = self.start + 5;
        } else if str_eq(key, "page_up") && self.start > 1 {
            self.start = (self.start as i64 - sm) as i32;
        } else if str_eq(key, "page_down") && (self.start as i64) < last {
            self.start = (self.start as i64 + sm) as i32;
        } else if str_eq(key, "home") {
            if self.start > 1 {
                self.start = 1;
            } else if self.selected > 0 {
                self.selected = 0;
            }
        } else if str_eq(key, "end") {
            if (self.start as i64) < last {
                self.start = last as i32;
            } else if self.selected < self.select_max {
                self.selected = self.select_max;
            }
        } else if str_eq(key, "mouse_click") {
            if mx > edge && cy + 1 < my && my < cy + 1 + sm + 1 {
                if my == cy + 2 {
                    self.start = 1;
                } else if my == cy + 1 + sm {
                    self.start = last as i32;
                } else {
                    let a: i64 = my - cy;
                    let b: i64 = np - sm - 2;
                    let c: i64 = sm - 2;
                    assert(0 <= a * b <= 0x1_0000_0000_0000) by (nonlinear_arith)
                        requires 0 <= a <= 0x1_0000, 0 <= b <= 0x4000_0000;
                    let q: i64 = (2 * (a * b) + c) / (2 * c);
                    self.start = if q > i32::MAX as i64 { i32::MAX } else { q as i32 };
                }
            } else {
                let adj: i64 = if my >= cy - 1 { 1 } else { 0 };
                let new_sel: usize = #[verifier::truncate] ((my - cy - adj) as usize);
                if new_sel > 0 && new_sel == self.selected {
                    return true;
                } else if new_sel > 0 {
                    self.last_selection = 0;
                    self.selected = new_sel;
                }
            }
        } else if str_eq(key, "mouse_unselect") {
            self.selected = 0;
        }
        false
    }

    /// Brings the first line and the selection back into a list of
    /// `num_procs` processes.
    fn clamp(&mut self, num_procs: u32)
        requires
            old(self)@.select_max <= num_procs < 0x4000_0000,
        ensures
            final(self)@ == (ProcView {
                start: clamp_start(old(self)@.start as int, num_procs as int, old(self)@.select_max as int) as i32,
                selected: clamp_selected(old(self)@.selected, num_procs as int, old(self)@.select_max as int) as usize,
                ..old(self)@
            }),
    {
        let np: i64 = num_procs as i64;
        let sm: i64 = self.select_max as i64;
        let last: i64 = np - sm + 1;
        if self.start as i64 > last && np > sm {
            self.start = last as i32;
        } else if self.start as i64 > np {
            self.start = np as i32;
        }
        if self.start < 1 {
            self.start = 1;
        }
        if (self.selected as u32) as i64 > np && np < sm {
            self.selected = np as usize;
        } else if self.selected > self.select_max {
            self.selected = self.select_max;
        }
    }

    /// Moves the selection for a key (`up`, `down`, `page_up`, `page_down`,
    /// `home`, `end`, `mouse_scroll_up`, `mouse_scroll_down`, `mouse_click`,
    /// `mouse_unselect`) with the mouse at `mouse_pos`, over a list of
    /// `num_procs` processes, `detailed` when one is shown in detail.
    ///
    /// A click on the line already selected opens it: "enter" is put first
    /// in `keys` and nothing else changes. Otherwise the first line and the
    /// selection are brought back into the list; the result tells whether
    /// either moved. When one did, the box is marked as moved and
    /// `collector` is asked for a round of the process collector that
    /// draws at once, interrupts the process list, redraws and only draws.
    pub fn selector(
        &mut self,
        key: &str,
        mouse_pos: (i32, i32),
        num_procs: u32,
        detailed: bool,
        keys: &mut Vec<String>,
        collector: &mut Collector,
    ) -> (moved: bool)
        requires
            selector_domain(old(self)@, key@, mouse_pos.0 as int, mouse_pos.1 as int, num_procs as int),
        ensures
            ({
                let v = old(self)@;
                let (s1, enter) = select_step(
                    Selection { start: v.start as int, selected: v.selected as int, last_selection: v.last_selection as int },
                    key@,
                    mouse_pos.0 as int,
                    mouse_pos.1 as int,
                    num_procs as int,
                    v.select_max as int,
                    v.current_y as int,
                    scroll_edge(v.parent),
                    detailed,
                );
                let start = clamp_start(s1.start, num_procs as int, v.select_max as int);
                let selected = clamp_selected(s1.selected as usize, num_procs as int, v.select_max as int);
                let changed = start != v.start || selected != v.selected;
                if enter {
                    &&& views(&final(keys)@) == seq!["enter"@] + views(&old(keys)@)
                    &&& final(self)@ == v
                    &&& !moved
                    &&& *final(collector) == *old(collector)
                } else {
                    &&& final(keys)@ == old(keys)@
                    &&& final(self)@ == (ProcView {
                        start: start as i32,
                        selected: selected as usize,
                        last_selection: s1.last_selection as usize,
                        moved: if changed { true } else { v.moved },
                        ..v
                    })
                    &&& moved == changed
                    &&& !changed ==> *final(collector) == *old(collector)
                    &&& changed ==> {
                        &&& *final(collector) == (Collector {
                            collect_interrupt: false,
                            proc_interrupt: false,
                            use_draw_list: true,
                            draw_now: true,
                            redraw: true,
                            only_draw: true,
                            collect_queue: final(collector).collect_queue,
                            collect_run: Event { t: EventEnum::Flag(true) },
                            ..*old(collector)
                        })
                        &&& final(collector).collect_queue@ == seq![Collectors::ProcCollector]
                    }
                }
            }),
    {
        let old_start = self.start;
        let old_selected = self.selected;
        let enter = self.select_key(key, mouse_pos, num_procs, detailed);
        if enter {
            keys.insert(0, owned("enter"));
            proof {
                assert(views(&keys@) =~= seq!["enter"@] + views(&old(keys)@));
            }
            return false;
        }
        self.clamp(num_procs);
        if old_start != self.start || old_selected != self.selected {
            self.moved = true;
            collector.collect(vec![Collectors::ProcCollector], true, false, true, true, true);
            true
        } else {
            false
        }
    }
}

/// The size and place of the process box for a terminal of `term_w` by
/// `term_h` cells below a cpu box `b_cpu_h` lines high. The width is
/// computed from the terminal width and then, a second time, from the
/// terminal height, which is the one kept; the height is only cut down to
/// the room below the cpu box.
pub open spec fn proc_layout(v: ProcView, term_w: int, term_h: int, b_cpu_h: i32) -> ProcView {
    let p = v.parent;
    let hp: int = if p.proc_mode { 80 } else { p.height_p as int };
    let width = sat_u32((2 * (term_h * hp) + 100) / 200);
    let height: u32 = if p.height + (b_cpu_h as u32) > term_h {
        sat_u32(term_h - b_cpu_h)
    } else {
        p.height
    };
    let x = sat_u32(term_w - (width as i32) + 1);
    let y = ((b_cpu_h as u32) + 1) as u32;
    let select_max = if (height as i32) - 3 < 0 { 0usize } else { ((height as i32) - 3) as usize };
    ProcView {
        parent: BoxView { width: width, height: height, x: x, y: y, resized: true, ..p },
        select_max: select_max,
        redraw: true,
        ..v
    }
}

/// The sizes on which `proc_layout` stays within the integer types of the
/// box.
pub open spec fn proc_layout_domain(v: ProcView, term_w: int, term_h: int, b_cpu_h: i32) -> bool {
    let p = v.parent;
    let hp: int = if p.proc_mode { 80 } else { p.height_p as int };
    let width = sat_u32((2 * (term_h * hp) + 100) / 200);
    let height: u32 = if p.height + (b_cpu_h as u32) > term_h {
        sat_u32(term_h - b_cpu_h)
    } else {
        p.height
    };
    &&& p.height + (b_cpu_h as u32) <= u32::MAX
    &&& i32::MIN <= term_h - b_cpu_h
    &&& term_w - (width as i32) + 1 <= i32::MAX
    &&& (b_cpu_h as u32) < u32::MAX
    &&& i32::MIN + 3 <= (height as i32)
}

impl ProcBox {
    /// Sizes and places the box for the terminal size and the height of the
    /// cpu box (see `proc_layout`).
    pub fn calc_size(&mut self, term_w: u16, term_h: u16, b_cpu_h: i32)
        requires
            proc_layout_domain(old(self)@, term_w as int, term_h as int, b_cpu_h),
        ensures
            final(self)@ == proc_layout(old(self)@, term_w as int, term_h as int, b_cpu_h),
    {
        let mut width_p: u32 = self.parent.get_width_p();
        let mut height_p: u32 = self.parent.get_height_p();
        if self.parent.get_proc_mode() {
            width_p = 100;
            height_p = 80;
        }
        let tw: u64 = term_w as u64;
        let th: u64 = term_h as u64;
        let wp: u64 = width_p as u64;
        let hp: u64 = height_p as u64;
        assert(tw * wp <= 0x1_0000_0000_0000) by (nonlinear_arith)
            requires tw <= 0xffff, wp <= 0xffff_ffff;
        assert(th * hp <= 0x1_0000_0000_0000) by (nonlinear_arith)
            requires th <= 0xffff, hp <= 0xffff_ffff;
        let w1: u64 = (2 * (tw * wp) + 100) / 200;
        self.parent.set_width(if w1 > u32::MAX as u64 { u32::MAX } else { w1 as u32 });
        let w2: u64 = (2 * (th * hp) + 100) / 200;
        self.parent.set_width(if w2 > u32::MAX as u64 { u32::MAX } else { w2 as u32 });
        if self.parent.get_height() as u64 + (#[verifier::truncate] (b_cpu_h as u32)) as u64 > term_h as u64 {
            let room: i64 = term_h as i64 - b_cpu_h as i64;
            self.parent.set_height(if room < 0 { 0 } else { room as u32 });
        }
        let x: i64 = term_w as i64 - (#[verifier::truncate] (self.parent.get_width() as i32)) as i64 + 1;
        self.parent.set_x(if x < 0 { 0 } else { x as u32 });
        self.parent.set_y((#[verifier::truncate] (b_cpu_h as u32)) + 1);
        let sm: i64 = (#[verifier::truncate] (self.parent.get_height() as i32)) as i64 - 3;
        self.select_max = if sm < 0 { 0 } else { sm as usize };
        self.redraw = true;
        self.parent.set_resized(true);
    }
}

impl ProcBox {
    pub fn get_parent(&self) -> (r: BrshtopBox)
        ensures
            r@ == self@.parent,
    {
        self.parent.dup()
    }

    pub fn set_parent(&mut self, parent: BrshtopBox)
        ensures
            final(self)@ == (ProcView { parent: parent@, ..old(self)@ }),
    {
        self.parent = parent;
    }

    pub fn set_parent_name(&mut self, name: String)
        ensures
            final(self)@ == (ProcView { parent: BoxView { name: name@, ..old(self)@.parent }, ..old(self)@ }),
    {
        self.parent.set_name(name);
    }

    pub fn set_parent_x(&mut self, x: u32)
        ensures
            final(self)@ == (ProcView { parent: BoxView { x: x, ..old(self)@.parent }, ..old(self)@ }),
    {
        self.parent.set_x(x);
    }

    pub fn set_parent_y(&mut self, y: u32)
        ensures
            final(self)@ == (ProcView { parent: BoxView { y: y, ..old(self)@.parent }, ..old(self)@ }),
    {
        self.parent.set_y(y);
    }

    pub fn set_parent_height_p(&mut self, height_p: u32)
        ensures
            final(self)@ == (ProcView { parent: BoxView { height_p: height_p, ..old(self)@.parent }, ..old(self)@ }),
    {
        self.parent.set_height_p(height_p);
    }

    pub fn set_parent_width_p(&mut self, width_p: u32)
        ensures
            final(self)@ == (ProcView { parent: BoxView { width_p: width_p, ..old(self)@.parent }, ..old(self)@ }),
    {
        self.parent.set_width_p(width_p);
    }

    pub fn set_parent_resized(&mut self, resized: bool)
        ensures
            final(self)@ == (ProcView { parent: BoxView { resized: resized, ..old(self)@.parent }, ..old(self)@ }),
    {
        self.parent.set_resized(resized);
    }

    pub fn get_current_y(&self) -> (r: u32)
        ensures
            r == self@.current_y,
    {
        self.current_y
    }

    pub fn get_current_h(&self) -> (r: u32)
        ensures
            r == self@.current_h,
    {
        self.current_h
    }

    pub fn set_current_h(&mut self, current_h: u32)
        ensures
            final(self)@ == (ProcView { current_h: current_h, ..old(self)@ }),
    {
        self.current_h = current_h;
    }

    pub fn get_select_max(&self) -> (r: usize)
        ensures
            r == self@.select_max,
    {
        self.select_max
    }

    pub fn set_select_max(&mut self, select_max: usize)
        ensures
            final(self)@ == (ProcView { select_max: select_max, ..old(self)@ }),
    {
        self.select_max = select_max;
    }

    pub fn get_selected(&self) -> (r: usize)
        ensures
            r == self@.selected,
    {
        self.selected
    }

    pub fn set_selected(&mut self, selected: usize)
        ensures
            final(self)@ == (ProcView { selected: selected, ..old(self)@ }),
    {
        self.selected = selected;
    }

    pub fn get_selected_pid(&self) -> (r: u32)
        ensures
            r == self@.selected_pid,
    {
        self.selected_pid
    }

    pub fn set_selected_pid(&mut self, selected_pid: u32)
        ensures
            final(self)@ == (ProcView { selected_pid: selected_pid, ..old(self)@ }),
    {
        self.selected_pid = selected_pid;
    }

    pub fn get_last_selection(&self) -> (r: usize)
        ensures
            r == self@.last_selection,
    {
        self.last_selection
    }

    pub fn set_last_selection(&mut self, last_selection: usize)
        ensures
            final(self)@ == (ProcView { last_selection: last_selection, ..old(self)@ }),
    {
        self.last_selection = last_selection;
    }

    pub fn get_filtering(&self) -> (r: bool)
        ensures
            r == self@.filtering,
    {
        self.filtering
    }

    pub fn set_filtering(&mut self, filtering: bool)
        ensures
            final(self)@ == (ProcView { filtering: filtering, ..old(self)@ }),
    {
        self.filtering = filtering;
    }

    pub fn get_moved(&self) -> (r: bool)
        ensures
            r == self@.moved,
    {
        self.moved
    }

    pub fn set_moved(&mut self, moved: bool)
        ensures
            final(self)@ == (ProcView { moved: moved, ..old(self)@ }),
    {
        self.moved = moved;
    }

    pub fn get_start(&self) -> (r: i32)
        ensures
            r == self@.start,
    {
        self.start
    }

    pub fn set_start(&mut self, start: i32)
        ensures
            final(self)@ == (ProcView { start: start, ..old(self)@ }),
    {
        self.start = start;
    }

    pub fn get_count(&self) -> (r: i32)
        ensures
            r == self@.count,
    {
        self.count
    }

    pub fn set_count(&mut self, count: i32)
        ensures
            final(self)@ == (ProcView { count: count, ..old(self)@ }),
    {
        self.count = count;
    }

    pub fn get_s_len(&self) -> (r: usize)
        ensures
            r == self@.s_len,
    {
        self.s_len
    }

    pub fn set_s_len(&mut self, s_len: usize)
        ensures
            final(self)@ == (ProcView { s_len: s_len, ..old(self)@ }),
    {
        self.s_len = s_len;
    }

    pub fn get_detailed(&self) -> (r: bool)
        ensures
            r == self@.detailed,
    {
        self.detailed
    }

    pub fn set_detailed(&mut self, detailed: bool)
        ensures
            final(self)@ == (ProcView { detailed: detailed, ..old(self)@ }),
    {
        self.detailed = detailed;
    }

    pub fn get_detailed_x(&self) -> (r: u32)
        ensures
            r == self@.detailed_x,
    {
        self.detailed_x
    }

    pub fn set_detailed_x(&mut self, detailed_x: u32)
        ensures
            final(self)@ == (ProcView { detailed_x: detailed_x, ..old(self)@ }),
    {
        self.detailed_x = detailed_x;
    }

    pub fn get_detailed_y(&self) -> (r: u32)
        ensures
            r == self@.detailed_y,
    {
        self.detailed_y
    }

    pub fn set_detailed_y(&mut self, detailed_y: u32)
        ensures
            final(self)@ == (ProcView { detailed_y: detailed_y, ..old(self)@ }),
    {
        self.detailed_y = detailed_y;
    }

    pub fn get_detailed_width(&self) -> (r: u32)
        ensures
            r == self@.detailed_width,
    {
        self.detailed_width
    }

    pub fn set_detailed_width(&mut self, detailed_width: u32)
        ensures
            final(self)@ == (ProcView { detailed_width: detailed_width, ..old(self)@ }),
    {
        self.detailed_width = detailed_width;
    }

    pub fn get_detailed_height(&self) -> (r: u32)
        ensures
            r == self@.detailed_height,
    {
        self.detailed_height
    }

    pub fn set_detaied_height(&mut self, detailed_height: u32)
        ensures
            final(self)@ == (ProcView { detailed_height: detailed_height, ..old(self)@ }),
    {
        self.detailed_height = detailed_height;
    }

    pub fn get_buffer(&self) -> (r: String)
        ensures
            r@ == self@.buffer,
    {
        self.buffer.clone()
    }

    pub fn set_buffer(&mut self, buffer: String)
        ensures
            final(self)@ == (ProcView { buffer: buffer@, ..old(self)@ }),
    {
        self.buffer = buffer;
    }

    pub fn get_redraw(&self) -> (r: bool)
        ensures
            r == self@.redraw,
    {
        self.redraw
    }

    pub fn set_redraw(&mut self, redraw: bool)
        ensures
            final(self)@ == (ProcView { redraw: redraw, ..old(self)@ }),
    {
        self.redraw = redraw;
    }

    pub fn get_pid_counter(&self) -> (r: HashMap<u32, u32>)
        ensures
            r@ == self@.pid_counter,
    {
        self.pid_counter.clone()
    }

    pub fn set_pid_counter(&mut self, pid_counter: HashMap<u32, u32>)
        ensures
            final(self)@ == (ProcView { pid_counter: pid_counter@, ..old(self)@ }),
    {
        self.pid_counter = pid_counter;
    }

    /// The count kept for process `index`, if any.
    pub fn get_pid_counter_index(&self, index: u32) -> (r: Option<u32>)
        ensures
            r is Some <==> self@.pid_counter.dom().contains(index),
            r matches Some(c) ==> c == self@.pid_counter[index],
    {
        match self.pid_counter.get(&index) {
            Some(u) => Some(*u),
            None => None,
        }
    }

    /// Sets the count kept for process `index`.
    pub fn set_pid_counter_index(&mut self, index: u32, element: u32)
        ensures
            final(self)@ == (ProcView { pid_counter: old(self)@.pid_counter.insert(index, element), ..old(self)@ }),
    {
        self.pid_counter.insert(index, element);
    }
}

} // verus!

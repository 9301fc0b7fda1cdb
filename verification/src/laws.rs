//! Properties that hold of the library as a whole.
use vstd::prelude::*;
use crate::key::queue_push;
use crate::procbox::{clamp_start, clamp_selected, select_step, Selection};
use crate::key::{decoded_key, KeyUnion};
use crate::memcollect::{MemFigures, SwapFigures, mem_values, swap_values, all_shares, used_of};
use crate::cpucollect::{ScanView, Sensor, CpuKind, scan_step, scan_fold, is_named, is_package, is_core, is_numbered};
use crate::collector::{RunnerState as RunState, RunnerAction as RunAction, finish_out};
use crate::fx::transparent;
use crate::text::{has_prefix, has_suffix};
use crate::bench::{digits, pow1000, time_power, pow10};
use crate::draw::{DrawState, buffered, z_after, sort_desc, first_less, out_steps, out_result, lemma_first_less_bounds};
use crate::strmap::{has_key, unique_keys, insert_entry, index_of, lemma_insert_map};
use crate::netbox::{NetView, net_layout};
use crate::memcollect::{unique_name, longest, lemma_longest, history_push};
use crate::stats::switched_nic;

use crate::collector::{Collector, RunnerState, RunnerAction, finished};

verus! {

/// The queue of keys read keeps at most ten keys, and a key pushed is the
/// newest: pushing onto a queue of at most ten keys gives at most ten
/// keys, the pushed one last, the others in their order.
pub proof fn law_key_queue(q: Seq<Seq<char>>, k: Seq<char>)
    requires
        q.len() <= 10,
    ensures
        queue_push(q, k).len() <= 10,
        queue_push(q, k).last() == k,
        queue_push(q, k).drop_last() == (if q.len() == 10 { q.drop_first() } else { q }),
{
    let l = q.push(k);
    if l.len() > 10 {
        assert(l.drop_first().drop_last() =~= q.drop_first());
    } else {
        assert(l.drop_last() =~= q);
    }
}

/// The process list stays in range: the first line shown is at least 1,
/// and, with more processes than lines, no later than the line that shows
/// the last process at the bottom; the selected line is never past the
/// lines that fit.
pub proof fn law_selection_in_range(start: int, selected: usize, np: nat, sm: nat)
    ensures
        clamp_start(start, np as int, sm as int) >= 1,
        sm < np ==> clamp_start(start, np as int, sm as int) <= np - sm + 1,
        0 <= clamp_selected(selected, np as int, sm as int) <= sm,
{
}

/// Making a text transparent leaves no space in it.
pub proof fn law_trans_no_space(t: Seq<char>)
    ensures
        !transparent(t).contains(' '),
    decreases t.len(),
{
    if t.len() > 0 {
        law_trans_no_space(t.drop_last());
        let last_part = if t.last() == ' ' { seq!['\x1b', '[', '1', 'C'] } else { seq![t.last()] };
        assert(transparent(t) == transparent(t.drop_last()) + last_part);
        assert forall|i: int| 0 <= i < transparent(t).len() implies transparent(t)[i] != ' ' by {
            if i < transparent(t.drop_last()).len() {
                assert(transparent(t)[i] == transparent(t.drop_last())[i]);
            } else {
                assert(transparent(t)[i] == last_part[i - transparent(t.drop_last()).len()]);
            }
        }
    }
}

/// A number has `d` digits exactly when it lies between `10` to the
/// `d - 1` and `10` to the `d`.
proof fn lemma_digits_range(n: nat)
    ensures
        pow10((digits(n) - 1) as nat) <= n || n == 0,
        n < pow10(digits(n)),
        digits(n) >= 1,
    decreases n,
{
    if n >= 10 {
        lemma_digits_range(n / 10);
        assert(pow10(digits(n)) == 10 * pow10(digits(n / 10)));
        assert(pow10((digits(n) - 1) as nat) == pow10(digits(n / 10)));
        if digits(n / 10) >= 1 {
            assert(pow10(digits(n / 10)) == 10 * pow10((digits(n / 10) - 1) as nat));
        }
        assert(pow10((digits(n / 10) - 1) as nat) <= n / 10);
        assert(n / 10 < pow10(digits(n / 10)));
        assert(10 * pow10((digits(n / 10) - 1) as nat) <= n) by (nonlinear_arith)
            requires
                pow10((digits(n / 10) - 1) as nat) <= n / 10,
        ;
        assert(n < 10 * pow10(digits(n / 10))) by (nonlinear_arith)
            requires
                n / 10 < pow10(digits(n / 10)),
        ;
    } else {
        assert(pow10(1) == 10) by {
            assert(pow10(0) == 1);
        }
    }
}

/// `1000` to the `k` is `10` to the `3 k`.
proof fn lemma_pow1000_pow10(k: nat)
    ensures
        pow1000(k) == pow10(3 * k),
    decreases k,
{
    if k > 0 {
        lemma_pow1000_pow10((k - 1) as nat);
        assert(pow10(3 * k) == 1000 * pow10((3 * k - 3) as nat)) by {
            assert(pow10(3 * k) == 10 * pow10((3 * k - 1) as nat));
            assert(pow10((3 * k - 1) as nat) == 10 * pow10((3 * k - 2) as nat));
            assert(pow10((3 * k - 2) as nat) == 10 * pow10((3 * k - 3) as nat));
        }
        assert((3 * k - 3) as nat == 3 * ((k - 1) as nat));
    }
}

/// Below seconds, a duration is shown as a whole number from 1 to 999 of
/// its unit.
pub proof fn law_time_value_in_range(n: nat)
    requires
        n >= 1,
        time_power(n) <= 3,
    ensures
        1 <= n / pow1000((time_power(n) - 1) as nat) < 1000,
{
    lemma_digits_range(n);
    let d = digits(n);
    let k = ((time_power(n) - 1) as nat);
    assert(k == (d - 1) as nat / 3);
    lemma_pow1000_pow10(k);
    let lo = pow10(3 * k);
    assert(3 * k <= (d - 1) as nat);
    lemma_pow10_mono(3 * k, (d - 1) as nat);
    assert(lo <= n);
    assert(d <= 3 * k + 3);
    lemma_pow10_mono(d, 3 * k + 3);
    assert(pow10(3 * k + 3) == 1000 * lo) by {
        lemma_pow1000_pow10(k + 1);
        assert(3 * (k + 1) == 3 * k + 3);
    }
    assert(n < 1000 * lo);
    assert(lo >= 1) by {
        lemma_pow10_pos(3 * k);
    }
    assert(1 <= n / lo < 1000) by (nonlinear_arith)
        requires
            lo >= 1,
            lo <= n,
            n < 1000 * lo,
    ;
}

/// `10` to a larger power is larger.
proof fn lemma_pow10_mono(a: nat, b: nat)
    requires
        a <= b,
    ensures
        pow10(a) <= pow10(b),
    decreases b,
{
    if a < b {
        lemma_pow10_mono(a, (b - 1) as nat);
        lemma_pow10_pos((b - 1) as nat);
    }
}

/// Powers of ten are positive.
proof fn lemma_pow10_pos(a: nat)
    ensures
        pow10(a) >= 1,
    decreases a,
{
    if a > 0 {
        lemma_pow10_pos((a - 1) as nat);
    }
}

/// The number of entries of `s` with key `n`.
pub open spec fn key_count(s: Seq<(Seq<char>, i32)>, n: Seq<char>) -> nat
    decreases s.len(),
{
    if s.len() == 0 {
        0
    } else {
        key_count(s.drop_last(), n) + (if s.last().0 == n { 1nat } else { 0nat })
    }
}

/// Counting entries adds up over a concatenation.
proof fn lemma_count_add(a: Seq<(Seq<char>, i32)>, b: Seq<(Seq<char>, i32)>, n: Seq<char>)
    ensures
        key_count(a + b, n) == key_count(a, n) + key_count(b, n),
    decreases b.len(),
{
    if b.len() == 0 {
        assert(a + b =~= a);
    } else {
        assert((a + b).drop_last() =~= a + b.drop_last());
        lemma_count_add(a, b.drop_last(), n);
    }
}

/// Inserting an entry counts it once more.
proof fn lemma_count_insert(s: Seq<(Seq<char>, i32)>, i: int, e: (Seq<char>, i32), n: Seq<char>)
    requires
        0 <= i <= s.len(),
    ensures
        key_count(s.insert(i, e), n) == key_count(s, n) + (if e.0 == n { 1nat } else { 0nat }),
{
    assert(s.insert(i, e) =~= s.take(i) + (seq![e] + s.skip(i)));
    assert(s =~= s.take(i) + s.skip(i));
    lemma_count_add(s.take(i), seq![e] + s.skip(i), n);
    lemma_count_add(seq![e], s.skip(i), n);
    lemma_count_add(s.take(i), s.skip(i), n);
    assert(seq![e].drop_last() =~= Seq::<(Seq<char>, i32)>::empty());
    assert(key_count(seq![e], n) == (if e.0 == n { 1nat } else { 0nat })) by {
        reveal_with_fuel(key_count, 2);
        assert(seq![e].last() == e);
    }
}

/// Ordering the entries by depth keeps how often each key occurs.
proof fn lemma_count_sort(p: Seq<(Seq<char>, i32)>, n: Seq<char>)
    ensures
        key_count(sort_desc(p), n) == key_count(p, n),
    decreases p.len(),
{
    if p.len() > 0 {
        lemma_count_sort(p.drop_last(), n);
        let s = sort_desc(p.drop_last());
        lemma_first_less_bounds(s, p.last().1);
        lemma_count_insert(s, first_less(s, p.last().1), p.last(), n);
    }
}

/// A key that is absent is counted zero times; a key of a list with
/// unique keys that is present is counted once.
proof fn lemma_count_unique(p: Seq<(Seq<char>, i32)>, n: Seq<char>)
    requires
        unique_keys(p),
    ensures
        key_count(p, n) == (if has_key(p, n) { 1nat } else { 0nat }),
    decreases p.len(),
{
    if p.len() > 0 {
        let q = p.drop_last();
        assert(unique_keys(q));
        lemma_count_unique(q, n);
        if p.last().0 == n {
            assert(!has_key(q, n)) by {
                if has_key(q, n) {
                    let j = choose|j: int| 0 <= j < q.len() && q[j].0 == n;
                    assert(p[j].0 == p[p.len() - 1].0);
                }
            }
            assert(has_key(p, n)) by {
                assert(p[p.len() - 1].0 == n);
            }
        } else {
            assert(has_key(p, n) == has_key(q, n)) by {
                if has_key(p, n) {
                    let j = choose|j: int| 0 <= j < p.len() && p[j].0 == n;
                    assert(j != p.len() - 1);
                    assert(q[j].0 == n);
                }
                if has_key(q, n) {
                    let j = choose|j: int| 0 <= j < q.len() && q[j].0 == n;
                    assert(p[j].0 == n);
                }
            }
        }
    }
}

/// Printing `[n]` over an order without `n` changes nothing and prints
/// nothing.
proof fn lemma_out_without(st: DrawState, order: Seq<(Seq<char>, i32)>, n: Seq<char>, clear: bool)
    requires
        key_count(order, n) == 0,
    ensures
        out_steps(st, order, seq![n], clear) == (st, Seq::<char>::empty()),
    decreases order.len(),
{
    if order.len() > 0 {
        lemma_out_without(st, order.drop_last(), n, clear);
        assert(!seq![n].contains(order.last().0)) by {
            if seq![n].contains(order.last().0) {
                assert(seq![n][0] == n);
            }
        }
    }
}

/// Printing `[n]` over an order that holds `n` once prints the string of
/// `n`.
proof fn lemma_out_once(st: DrawState, order: Seq<(Seq<char>, i32)>, n: Seq<char>, clear: bool)
    requires
        key_count(order, n) == 1,
        st.strings.contains_key(n),
    ensures
        out_steps(st, order, seq![n], clear).1 == st.strings[n],
    decreases order.len(),
{
    if order.len() > 0 {
        if order.last().0 == n {
            lemma_out_without(st, order.drop_last(), n, clear);
            assert(seq![n].contains(n)) by {
                assert(seq![n][0] == n);
            }
            assert(Seq::<char>::empty() + st.strings[n] =~= st.strings[n]);
        } else {
            lemma_out_once(st, order.drop_last(), n, clear);
            assert(!seq![n].contains(order.last().0)) by {
                if seq![n].contains(order.last().0) {
                    assert(seq![n][0] == n);
                }
            }
        }
    }
}

/// What is buffered is what is printed: putting text `t` into buffer `n`
/// (not appending, not only saving) and then printing `n` gives `t`,
/// whatever the other buffers hold and whatever depth `n` is given.
pub proof fn law_buffer_then_out(st: DrawState, p: Seq<(Seq<char>, i32)>, n: Seq<char>, t: Seq<char>, z: i32, no_save: bool, once: bool)
    requires
        unique_keys(p),
    ensures
        out_result(buffered(st, n, false, t, false, no_save, once), sort_desc(z_after(p, n, z)), seq![n], false).1 == Some(t),
{
    let st1 = buffered(st, n, false, t, false, no_save, once);
    let p1 = z_after(p, n, z);
    assert(st1.strings.contains_key(n));
    assert(st1.strings[n] == t) by {
        assert(Seq::<char>::empty() + t =~= t);
    }
    assert(st1.strings.dom() != Set::<Seq<char>>::empty()) by {
        assert(st1.strings.dom().contains(n));
    }
    assert(unique_keys(p1) && has_key(p1, n)) by {
        lemma_insert_map(p, n, z);
        if !has_key(p, n) || z != 100 {
            let q = insert_entry(p, n, z);
            if has_key(p, n) {
                let i = index_of(p, n);
                assert(q[i].0 == n);
            } else {
                assert(q[q.len() - 1].0 == n);
            }
        }
    }
    lemma_count_unique(p1, n);
    lemma_count_sort(p1, n);
    lemma_out_once(st1, sort_desc(p1), n, false);
}

/// The network box fills what the CPU and memory boxes leave of the
/// terminal: it starts on the line below them and ends on the last line,
/// and its download and upload graphs share its inner height.
pub proof fn law_net_box_fills_bottom(v: NetView, term_w: int, term_h: int, b_cpu_h: i32, b_mem_h: i32)
    requires
        0 <= b_cpu_h,
        0 <= b_mem_h,
        b_cpu_h + b_mem_h + 2 <= term_h <= u32::MAX,
    ensures
        net_layout(v, term_w, term_h, b_cpu_h, b_mem_h).parent.y == b_cpu_h + b_mem_h + 1,
        net_layout(v, term_w, term_h, b_cpu_h, b_mem_h).parent.y + net_layout(v, term_w, term_h, b_cpu_h, b_mem_h).parent.height - 1 == term_h,
        net_layout(v, term_w, term_h, b_cpu_h, b_mem_h).graph_height["download"@]
            + net_layout(v, term_w, term_h, b_cpu_h, b_mem_h).graph_height["upload"@]
            == term_h - b_cpu_h - b_mem_h - 2,
{
    let h = term_h - b_cpu_h - b_mem_h;
    let r = net_layout(v, term_w, term_h, b_cpu_h, b_mem_h);
    assert(r.graph_height["upload"@] == ((h - 2) - (h - 1) / 2) as u32);
    assert("download"@ != "upload"@) by {
        reveal_strlit("download");
        reveal_strlit("upload");
        assert("download"@.len() != "upload"@.len());
    }
    assert(r.graph_height["download"@] == ((h - 1) / 2) as u32);
}

/// A disk is never listed under a name already taken.
pub proof fn law_disk_name_fresh(name: Seq<char>, taken: Seq<Seq<char>>)
    ensures
        !taken.contains(unique_name(name, taken)),
    decreases longest(taken) + 1 - name.len(),
{
    if taken.contains(name) {
        let i = choose|i: int| 0 <= i < taken.len() && taken[i] == name;
        lemma_longest(taken, i);
        law_disk_name_fresh(name.push('_'), taken);
    }
}

/// A history drawn `width` columns wide never holds more than `width`
/// figures, and the figure added last is the newest.
pub proof fn law_history_bounded(h: Seq<u64>, value: u64, width: u32)
    requires
        h.len() <= width,
    ensures
        history_push(h, value, width).len() <= width,
        width > 0 ==> history_push(h, value, width).last() == value,
{
}

/// Switching the network device keeps a valid device chosen: from a valid
/// index among two or more devices, the next index is valid too.
pub proof fn law_nic_switch_in_range(nic_i: i32, count: usize, next: bool)
    requires
        2 <= count <= i32::MAX,
        0 <= nic_i < count,
    ensures
        0 <= switched_nic(nic_i, count, next) < count,
{
}

/// The collector thread stops once it is told to: a round that finishes
/// while the collector is stopping leaves the thread stopping, and at the
/// start of the next pass a stopping thread exits and changes nothing.
pub proof fn law_runner_stops(
    c: Collector,
    r: RunnerState,
    bufs: Seq<Seq<char>>,
    early: bool,
    c2: Collector,
    r2: RunnerState,
    a: RunnerAction,
)
    requires
        finished(c, r, bufs, early, c2, r2, a),
        c.stopping,
    ensures
        r2.stopping,
        !r2.in_queue,
{
}

/// The up key moves the selection one line up: from a line below the
/// first, the selected line becomes the one above it and the first line
/// shown stays.
pub proof fn law_up_moves_selection_up(s: Selection, mx: int, my: int, np: int, sm: int, cy: int, edge: int, detailed: bool)
    requires
        s.selected > 1,
    ensures
        select_step(s, "up"@, mx, my, np, sm, cy, edge, detailed).0.selected == s.selected - 1,
        select_step(s, "up"@, mx, my, np, sm, cy, edge, detailed).0.start == s.start,
        !select_step(s, "up"@, mx, my, np, sm, cy, edge, detailed).1,
{
}

/// The home key goes to the top: with the list scrolled down it shows the
/// list from its first process again and keeps the selected line; at the
/// top already it takes the selection off.
pub proof fn law_home_goes_to_top(s: Selection, mx: int, my: int, np: int, sm: int, cy: int, edge: int, detailed: bool)
    ensures
        s.start > 1 ==> select_step(s, "home"@, mx, my, np, sm, cy, edge, detailed).0.start == 1,
        s.start > 1 ==> select_step(s, "home"@, mx, my, np, sm, cy, edge, detailed).0.selected == s.selected,
        s.start <= 1 && s.selected >= 0 ==> select_step(s, "home"@, mx, my, np, sm, cy, edge, detailed).0.selected == 0,
        s.start <= 1 ==> select_step(s, "home"@, mx, my, np, sm, cy, edge, detailed).0.start == s.start,
{
    reveal_strlit("home");
    reveal_strlit("up");
    reveal_strlit("down");
    reveal_strlit("mouse_scroll_up");
    reveal_strlit("mouse_scroll_down");
    reveal_strlit("page_up");
    reveal_strlit("page_down");
    assert("home"@ != "up"@ && "home"@ != "mouse_scroll_up"@ && "home"@ != "mouse_scroll_down"@) by {
        assert("home"@.len() != "up"@.len());
        assert("home"@.len() != "mouse_scroll_up"@.len());
        assert("home"@.len() != "mouse_scroll_down"@.len());
    }
    assert("home"@ != "down"@ && "home"@ != "page_up"@ && "home"@ != "page_down"@) by {
        assert("home"@[0] != "down"@[0]);
        assert("home"@.len() != "page_up"@.len());
        assert("home"@.len() != "page_down"@.len());
    }
}

/// The end key goes to the bottom: with more of the list below it shows
/// the last lines of the list and keeps the selected line; at the bottom
/// already it selects the last line shown (or keeps it there).
pub proof fn law_end_goes_to_bottom(s: Selection, mx: int, my: int, np: int, sm: int, cy: int, edge: int, detailed: bool)
    ensures
        s.start < np - sm + 1 ==> select_step(s, "end"@, mx, my, np, sm, cy, edge, detailed).0.start == np - sm + 1,
        s.start < np - sm + 1 ==> select_step(s, "end"@, mx, my, np, sm, cy, edge, detailed).0.selected == s.selected,
        s.start >= np - sm + 1 && s.selected <= sm ==> select_step(s, "end"@, mx, my, np, sm, cy, edge, detailed).0.selected == sm,
        s.start >= np - sm + 1 ==> select_step(s, "end"@, mx, my, np, sm, cy, edge, detailed).0.start == s.start,
{
    reveal_strlit("end");
    reveal_strlit("home");
    reveal_strlit("up");
    reveal_strlit("down");
    reveal_strlit("mouse_scroll_up");
    reveal_strlit("mouse_scroll_down");
    reveal_strlit("page_up");
    reveal_strlit("page_down");
    assert("end"@ != "up"@ && "end"@ != "mouse_scroll_up"@ && "end"@ != "mouse_scroll_down"@ && "end"@ != "home"@) by {
        assert("end"@.len() != "up"@.len());
        assert("end"@.len() != "mouse_scroll_up"@.len());
        assert("end"@.len() != "mouse_scroll_down"@.len());
        assert("end"@.len() != "home"@.len());
    }
    assert("end"@ != "down"@ && "end"@ != "page_up"@ && "end"@ != "page_down"@) by {
        assert("end"@.len() != "down"@.len());
        assert("end"@.len() != "page_up"@.len());
        assert("end"@.len() != "page_down"@.len());
    }
}

/// Up then down comes back: from a line that is neither the first nor
/// below the lines that fit, the up key and then the down key leave the
/// selection where it was.
pub proof fn law_up_then_down(s: Selection, mx: int, my: int, np: int, sm: int, cy: int, edge: int, detailed: bool)
    requires
        1 < s.selected <= sm,
    ensures
        ({
            let s1 = select_step(s, "up"@, mx, my, np, sm, cy, edge, detailed).0;
            let s2 = select_step(s1, "down"@, mx, my, np, sm, cy, edge, detailed).0;
            s2.selected == s.selected && s2.start == s.start
        }),
{
    reveal_strlit("up");
    reveal_strlit("down");
    assert("down"@ != "up"@) by {
        assert("down"@[0] != "up"@[0]);
    }
}

/// Once brought back into range, a selection that is already in range is
/// kept: with more processes than lines, a first line from 1 to the last
/// start and a selected line up to the lines that fit are unchanged, so
/// the up key's move survives `selector` (there is at least one line).
pub proof fn law_in_range_kept(start: int, selected: usize, np: int, sm: int)
    requires
        1 <= sm < np,
        1 <= start <= np - sm + 1,
        selected <= sm,
    ensures
        clamp_start(start, np, sm) == start,
        clamp_selected(selected, np, sm) == selected,
{
}

/// The escape key alone reads as `escape`.
pub proof fn law_escape_alone(menu_active: bool, mouse: Seq<(Seq<char>, Vec<Vec<i32>>)>, esc: Seq<(KeyUnion, String)>)
    ensures
        decoded_key("\x1b"@, menu_active, mouse, esc) == "escape"@,
{
}

/// Moving the mouse gives no key: every input that starts with the report
/// of a mouse move decodes to nothing.
pub proof fn law_mouse_move_ignored(s: Seq<char>, menu_active: bool, mouse: Seq<(Seq<char>, Vec<Vec<i32>>)>, esc: Seq<(KeyUnion, String)>)
    requires
        has_prefix(s, "\x1b[<35;"@),
    ensures
        decoded_key(s, menu_active, mouse, esc) == Seq::<char>::empty(),
{
    reveal_strlit("\x1b[<35;");
    reveal_strlit("\x1b");
    assert(s.subrange(0, 6) == "\x1b[<35;"@);
    assert(s != "\x1b"@) by {
        assert(s.len() >= 6);
    }
}

/// With the menu open, a released button reads as a plain `mouse_click`,
/// wherever it was.
pub proof fn law_menu_click(s: Seq<char>, mouse: Seq<(Seq<char>, Vec<Vec<i32>>)>, esc: Seq<(KeyUnion, String)>)
    requires
        has_prefix(s, "\x1b[<0;"@),
        has_suffix(s, "m"@),
    ensures
        decoded_key(s, true, mouse, esc) == "mouse_click"@,
{
    reveal_strlit("\x1b[<0;");
    reveal_strlit("\x1b[<35;");
    reveal_strlit("\x1b[<64;");
    reveal_strlit("\x1b[<65;");
    reveal_strlit("\x1b");
    assert(s.subrange(0, 5) == "\x1b[<0;"@);
    assert(s != "\x1b"@) by {
        assert(s.len() >= 5);
    }
    assert(s[3] == '0') by {
        assert(s.subrange(0, 5)[3] == s[3]);
    }
    assert(!has_prefix(s, "\x1b[<35;"@) && !has_prefix(s, "\x1b[<64;"@) && !has_prefix(s, "\x1b[<65;"@)) by {
        if has_prefix(s, "\x1b[<35;"@) || has_prefix(s, "\x1b[<64;"@) || has_prefix(s, "\x1b[<65;"@) {
            assert(s.subrange(0, 6)[3] == s[3]);
        }
    }
}

/// The wheel turned up reads as `mouse_scroll_up`: every input that starts
/// with the report of the wheel turned up decodes to that key.
pub proof fn law_wheel_up(s: Seq<char>, menu_active: bool, mouse: Seq<(Seq<char>, Vec<Vec<i32>>)>, esc: Seq<(KeyUnion, String)>)
    requires
        has_prefix(s, "\x1b[<64;"@),
    ensures
        decoded_key(s, menu_active, mouse, esc) == "mouse_scroll_up"@,
{
    reveal_strlit("\x1b[<64;");
    reveal_strlit("\x1b[<35;");
    reveal_strlit("\x1b");
    assert(s.subrange(0, 6) == "\x1b[<64;"@);
    assert(s != "\x1b"@) by {
        assert(s.len() >= 6);
    }
    assert(!has_prefix(s, "\x1b[<35;"@)) by {
        if has_prefix(s, "\x1b[<35;"@) {
            assert(s.subrange(0, 6)[3] == '3');
        }
    }
}

/// The wheel turned down reads as `mouse_scroll_down`: every input that
/// starts with the report of the wheel turned down decodes to that key.
pub proof fn law_wheel_down(s: Seq<char>, menu_active: bool, mouse: Seq<(Seq<char>, Vec<Vec<i32>>)>, esc: Seq<(KeyUnion, String)>)
    requires
        has_prefix(s, "\x1b[<65;"@),
    ensures
        decoded_key(s, menu_active, mouse, esc) == "mouse_scroll_down"@,
{
    reveal_strlit("\x1b[<65;");
    reveal_strlit("\x1b[<64;");
    reveal_strlit("\x1b[<35;");
    reveal_strlit("\x1b");
    assert(s.subrange(0, 6) == "\x1b[<65;"@);
    assert(s != "\x1b"@) by {
        assert(s.len() >= 6);
    }
    assert(!has_prefix(s, "\x1b[<35;"@)) by {
        if has_prefix(s, "\x1b[<35;"@) {
            assert(s.subrange(0, 6)[3] == '3');
        }
    }
    assert(!has_prefix(s, "\x1b[<64;"@)) by {
        if has_prefix(s, "\x1b[<64;"@) {
            assert(s.subrange(0, 6)[4] == '4');
        }
    }
}

/// Each memory figure is the reading's own: after a reading, the cached,
/// total, free and available figures are those of the reading, and the
/// used memory is the total less what is available (none when more is
/// available than there is).
pub proof fn law_memory_figures(old: Map<Seq<char>, u64>, m: MemFigures)
    ensures
        mem_values(old, m)["cached"@] == m.cached,
        mem_values(old, m)["total"@] == m.total,
        mem_values(old, m)["free"@] == m.free,
        mem_values(old, m)["available"@] == m.available,
        mem_values(old, m)["used"@] == (if m.available <= m.total { m.total - m.available } else { 0 }),
{
    reveal_strlit("cached");
    reveal_strlit("total");
    reveal_strlit("free");
    reveal_strlit("available");
    reveal_strlit("used");
    assert("cached"@ != "used"@ && "total"@ != "used"@ && "free"@ != "used"@ && "available"@ != "used"@) by {
        assert("cached"@.len() != "used"@.len());
        assert("total"@.len() != "used"@.len());
        assert("free"@[0] != "used"@[0]);
        assert("available"@.len() != "used"@.len());
    }
    assert("cached"@ != "available"@ && "total"@ != "available"@ && "free"@ != "available"@) by {
        assert("cached"@.len() != "available"@.len());
        assert("total"@.len() != "available"@.len());
        assert("free"@.len() != "available"@.len());
    }
    assert("cached"@ != "free"@ && "total"@ != "free"@) by {
        assert("cached"@.len() != "free"@.len());
        assert("total"@.len() != "free"@.len());
    }
    assert("cached"@ != "total"@) by {
        assert("cached"@.len() != "total"@.len());
    }
}

/// After a reading of the swap, the total and free swap are the figures
/// read, each under its own name (for a reading with some free swap: the
/// used figure is counted by dividing by it).
pub proof fn law_swap_figures(old: Map<Seq<char>, u64>, sw: SwapFigures)
    requires
        sw.free > 0,
    ensures
        swap_values(old, sw)["total"@] == sw.total,
        swap_values(old, sw)["free"@] == sw.free,
{
    reveal_strlit("total");
    reveal_strlit("free");
    reveal_strlit("used");
    assert("total"@ != "used"@ && "free"@ != "used"@) by {
        assert("total"@.len() != "used"@.len());
        assert("free"@[0] != "used"@[0]);
    }
    assert("total"@ != "free"@) by {
        assert("total"@.len() != "free"@.len());
    }
}

/// The share of free memory is the free memory over the total, in whole
/// percent.
pub proof fn law_free_share(oldp: Map<Seq<char>, u64>, old: Map<Seq<char>, u64>, m: MemFigures)
    requires
        m.total > 0,
    ensures
        all_shares(oldp, mem_values(old, m), false)["free"@] == (m.free * 100 / (m.total as int)) as u64,
{
    law_memory_figures(old, m);
    reveal_strlit("free");
    reveal_strlit("total");
    assert("free"@ != "total"@) by {
        assert("free"@.len() != "total"@.len());
    }
}

/// The first processor sensor sets the temperature: while no kind of
/// processor is known, a processor sensor that is not numbered by core
/// (nor the configured nor a package sensor) gives its own reading as the
/// temperature, never the placeholder, and the processor is of another
/// kind from then on.
pub proof fn law_first_cpu_sensor_sets_temp(st: ScanView, s: Sensor, s_name: Seq<char>, s_label: Seq<char>, threads: int)
    requires
        st.kind == CpuKind::Unknown,
        !is_named(s, st.num, s_name, s_label),
        !is_package(st, s, s_name),
        is_core(s),
        !is_numbered(s),
    ensures
        scan_step(st, Some(s), s_name, s_label, threads).temp == s.current,
        scan_step(st, Some(s), s_name, s_label, threads).kind == CpuKind::Other,
        scan_step(st, Some(s), s_name, s_label, threads).cores == st.cores.push(s.current),
{
}

/// Walking two runs of sensors one after the other is walking the first
/// and then the second from where the first ended.
pub proof fn lemma_walk_append(a: Seq<Option<Sensor>>, b: Seq<Option<Sensor>>, st0: ScanView, s_name: Seq<char>, s_label: Seq<char>, threads: int)
    ensures
        scan_fold(a + b, st0, s_name, s_label, threads)
            == scan_fold(b, scan_fold(a, st0, s_name, s_label, threads), s_name, s_label, threads),
    decreases b.len(),
{
    if b.len() == 0 {
        assert(a + b =~= a);
    } else {
        assert((a + b).drop_last() =~= a + b.drop_last());
        assert((a + b).last() == b.last());
        lemma_walk_append(a, b.drop_last(), st0, s_name, s_label, threads);
    }
}

/// Once the kind of processor is known, it stays known and the
/// temperature found stays as it is, whatever sensors follow.
pub proof fn lemma_known_kind_keeps_temp(rs: Seq<Option<Sensor>>, st: ScanView, s_name: Seq<char>, s_label: Seq<char>, threads: int)
    requires
        st.kind != CpuKind::Unknown,
    ensures
        scan_fold(rs, st, s_name, s_label, threads).kind != CpuKind::Unknown,
        scan_fold(rs, st, s_name, s_label, threads).temp == st.temp,
    decreases rs.len(),
{
    if rs.len() > 0 {
        lemma_known_kind_keeps_temp(rs.drop_last(), st, s_name, s_label, threads);
    }
}

/// Over a whole walk: when the sensors before `s` left the kind of
/// processor unknown and `s` is a processor sensor not numbered by core
/// (nor the configured nor a package sensor), the temperature at the end
/// of the walk is the reading of `s`, whatever sensors come after it.
pub proof fn law_walk_takes_first_cpu_sensor(before: Seq<Option<Sensor>>, s: Sensor, after: Seq<Option<Sensor>>, st0: ScanView, s_name: Seq<char>, s_label: Seq<char>, threads: int)
    requires
        scan_fold(before, st0, s_name, s_label, threads).kind == CpuKind::Unknown,
        !is_named(s, scan_fold(before, st0, s_name, s_label, threads).num, s_name, s_label),
        !is_package(scan_fold(before, st0, s_name, s_label, threads), s, s_name),
        is_core(s),
        !is_numbered(s),
    ensures
        scan_fold(before.push(Some(s)) + after, st0, s_name, s_label, threads).temp == s.current,
{
    let st = scan_fold(before, st0, s_name, s_label, threads);
    let w = before.push(Some(s));
    assert(w.drop_last() =~= before);
    assert(w.last() == Some(s));
    let mid = scan_fold(w, st0, s_name, s_label, threads);
    assert(mid == scan_step(st, Some(s), s_name, s_label, threads));
    law_first_cpu_sensor_sets_temp(st, s, s_name, s_label, threads);
    lemma_walk_append(w, after, st0, s_name, s_label, threads);
    lemma_known_kind_keeps_temp(after, mid, s_name, s_label, threads);
}

/// Nothing is printed over an open menu: a round whose pass started with
/// the menu open prints nothing, whatever it drew and whether it was to
/// draw.
pub proof fn law_menu_blocks_output(c: Collector, r: RunState, bufs: Seq<Seq<char>>, early: bool, c2: Collector, r2: RunState, a: RunAction)
    requires
        finished(c, r, bufs, early, c2, r2, a),
        r.menu_active,
    ensures
        a matches RunAction::Finish { out, .. } && out is None,
        finish_out(c, true, bufs) is None,
{
}

/// The down key moves the selection one line down: from a line above the
/// last that fits (and not the detail line's return), the selected line
/// becomes the one below it and the first line shown stays.
pub proof fn law_down_moves_selection_down(s: Selection, mx: int, my: int, np: int, sm: int, cy: int, edge: int, detailed: bool)
    requires
        0 < s.selected < sm,
    ensures
        select_step(s, "down"@, mx, my, np, sm, cy, edge, detailed).0.selected == s.selected + 1,
        select_step(s, "down"@, mx, my, np, sm, cy, edge, detailed).0.start == s.start,
{
    reveal_strlit("up");
    reveal_strlit("down");
    assert("down"@ != "up"@) by {
        assert("down"@[0] != "up"@[0]);
    }
}

/// A round that was cut short, or that is not to draw, prints nothing; a
/// round of the default collectors that is to draw, with the menu closed,
/// prints every buffer (an empty list of names).
pub proof fn law_quiet_rounds(c: Collector, menu_active: bool, bufs: Seq<Seq<char>>)
    ensures
        c.collect_interrupt ==> finish_out(c, menu_active, bufs) is None,
        !c.draw_now ==> finish_out(c, menu_active, bufs) is None,
        c.draw_now && !menu_active && !c.collect_interrupt && !c.use_draw_list ==> finish_out(c, menu_active, bufs) == Some(Seq::<Seq<char>>::empty()),
{
}

/// A round that draws from its own list, with the menu closed and not cut
/// short, prints exactly the buffers it drew, in the order drawn.
pub proof fn law_round_prints_its_buffers(c: Collector, bufs: Seq<Seq<char>>)
    requires
        c.draw_now,
        !c.collect_interrupt,
        c.use_draw_list,
    ensures
        finish_out(c, false, bufs) == Some(bufs),
{
}

} // verus!

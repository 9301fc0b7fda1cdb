//! The start-up screen: the banner with its percentage scale, the place
//! where the start-up steps are reported, and the grey shades and figures
//! of its background graphs.
use vstd::prelude::*;
use crate::draw::{Draw, DrawState, buffered, z_after, out_result, sort_desc, unmarked};
use crate::brshtop_box::views;
use crate::fx::{self, Fx, transparent};
use crate::mv::{self, csi};
use crate::text::{dec, owned, push_str, u64_dec, chars_of};

verus! {

/// The texts that the theme, the terminal and the banner give the start-up
/// screen: the drawn banner, the black background and the default colour,
/// the version, the terminal's background and foreground, the greys `#50`
/// and `#cc`, and the vertical line symbol.
pub struct InitTexts {
    pub banner: String,
    pub black_bg: String,
    pub default_color: String,
    pub version: String,
    pub term_bg: String,
    pub term_fg: String,
    pub fg50: String,
    pub fgcc: String,
    pub v_line: String,
}

/// The start-up screen's state: whether it is shown, the grey shades of
/// its background graphs (each as the `r g b` text of its colour), the
/// figures they draw, and whether the terminal was resized meanwhile.
pub struct Init {
    pub running: bool,
    pub initbg_colors: Vec<String>,
    pub initbg_data: Vec<i32>,
    pub resized: bool,
}

/// The `r g b` text of grey shade `i`.
pub open spec fn grey(i: nat) -> Seq<char> {
    dec(i) + " "@ + dec(i) + " "@ + dec(i)
}

/// The grey shades of the background graphs: 0 to 50, each twice.
pub open spec fn greys() -> Seq<Seq<char>> {
    Seq::new(102, |j: int| grey((j / 2) as nat))
}

/// `ESC [ <line> ; <col> f`.
pub open spec fn to_text(line: nat, col: nat) -> Seq<char> {
    seq!['\x1b', '['] + dec(line) + seq![';'] + dec(col) + seq!['f']
}

/// `s` right-aligned in five columns.
pub open spec fn pad5(s: Seq<char>) -> Seq<char> {
    if s.len() < 5 { Seq::new((5 - s.len()) as nat, |j: int| ' ') + s } else { s }
}

/// The label of line `i` of the percentage scale.
pub open spec fn perc_text(i: nat) -> Seq<char> {
    pad5(dec((i + 1) * 14 + 2) + "%"@)
}

/// Line `i` of the percentage scale beside the banner.
pub open spec fn scale_line(i: nat, w: nat, h: nat, v_line: Seq<char>) -> Seq<char> {
    to_text((h / 2 - 2 + i) as nat, (w / 2 - 28) as nat) + transparent(perc_text(i)) + v_line
}

/// The banner line with the version below it.
pub open spec fn banner_line(t: InitTexts) -> Seq<char> {
    t.banner@ + csi(1, 'B') + csi(11, 'D') + t.black_bg@ + t.default_color@ + fx::b@ + fx::i@ + "Version: "@
        + t.version@ + fx::ui@ + fx::ub@ + t.term_bg@ + t.term_fg@ + t.fg50@
}

/// Where the start-up steps are reported from.
pub open spec fn init_line(t: InitTexts, w: nat, h: nat) -> Seq<char> {
    t.fgcc@ + fx::b@ + to_text((h / 2 - 2) as nat, (w / 2 - 21) as nat) + mv::save@
}

/// The draw state after text `text` is appended to buffer `n` at depth `z`.
pub open spec fn put(d: (DrawState, Seq<(Seq<char>, i32)>), n: Seq<char>, append: bool, text: Seq<char>, z: i32) -> (DrawState, Seq<(Seq<char>, i32)>) {
    (buffered(d.0, n, append, text, false, false, false), z_after(d.1, n, z))
}

/// The draw state after the first `k` lines of the percentage scale.
pub open spec fn scale_lines(d: (DrawState, Seq<(Seq<char>, i32)>), k: nat, w: nat, h: nat, v_line: Seq<char>) -> (DrawState, Seq<(Seq<char>, i32)>)
    decreases k,
{
    if k == 0 {
        d
    } else {
        put(scale_lines(d, (k - 1) as nat, w, h, v_line), "banner"@, true, scale_line((k - 1) as nat, w, h, v_line), 100)
    }
}

/// The draw state after the start-up screen is drawn on a `w` by `h`
/// terminal: the empty `init` and `initbg` buffers, the banner with the
/// version and the scale (printed at once), then the report line, printed
/// at once.
pub open spec fn init_draw(d: (DrawState, Seq<(Seq<char>, i32)>), t: InitTexts, w: nat, h: nat) -> (DrawState, Seq<(Seq<char>, i32)>) {
    let d1 = put(d, "init"@, false, Seq::empty(), 0);
    let d2 = put(d1, "initbg"@, false, Seq::empty(), 10);
    let d3 = put(d2, "banner"@, true, banner_line(t), 2);
    let d4 = scale_lines(d3, 7, w, h, t.v_line@);
    let d5 = (out_result(d4.0, sort_desc(d4.1), seq!["banner"@], false).0, d4.1);
    let d6 = put(d5, "init"@, true, init_line(t, w, h), 100);
    (out_result(d6.0, sort_desc(d6.1), seq!["init"@], false).0, d6.1)
}

/// The draw state of `d`.
pub open spec fn draw_of(d: Draw) -> (DrawState, Seq<(Seq<char>, i32)>) {
    (d.state(), d.z_order.pairs())
}

/// Puts `text` into buffer `name` (no marks) at depth `z` (see `put`).
fn put_text(draw: &mut Draw, name: &str, append: bool, text: String, z: i32)
    requires
        unmarked(name@) == (name@, false, false),
    ensures
        draw_of(*final(draw)) == put(draw_of(*old(draw)), name@, append, text@, z),
        final(draw).idle == old(draw).idle,
{
    let mut args: Vec<String> = Vec::new();
    let ghost t = text@;
    args.push(text);
    assert(views(&args@) =~= seq![t]);
    assert(seq![t].drop_last() =~= Seq::<Seq<char>>::empty());
    assert(crate::draw::concat_all(seq![t]) =~= t) by {
        reveal_with_fuel(crate::draw::concat_all, 2);
    }
    let _ = draw.buffer(owned(name), args, append, false, z, false, false, false);
}

/// Puts nothing into buffer `name` (no marks) at depth `z`.
fn put_empty(draw: &mut Draw, name: &str, z: i32)
    requires
        unmarked(name@) == (name@, false, false),
    ensures
        draw_of(*final(draw)) == put(draw_of(*old(draw)), name@, false, Seq::empty(), z),
        final(draw).idle == old(draw).idle,
{
    let args: Vec<String> = Vec::new();
    assert(views(&args@) =~= Seq::<Seq<char>>::empty());
    let _ = draw.buffer(owned(name), args, false, false, z, false, false, false);
}

/// Prints buffer `name` (see `out_result`).
fn print_one(draw: &mut Draw, name: &str)
    requires
        old(draw).save@.dom().contains(name@),
        old(draw).once@.dom().contains(name@),
    ensures
        draw_of(*final(draw)) == (out_result(old(draw).state(), sort_desc(old(draw).z_order.pairs()), seq![name@], false).0, old(draw).z_order.pairs()),
        final(draw).idle == old(draw).idle,
{
    let mut names: Vec<String> = Vec::new();
    names.push(owned(name));
    assert(views(&names@) =~= seq![name@]);
    let _ = draw.out(names, false);
}

/// The text of line `i` of the scale (see `scale_line`).
fn scale_text(i: u32, w: u16, h: u16, v_line: &str) -> (r: String)
    requires
        i < 7,
        h / 2 >= 10,
        w / 2 >= 28,
    ensures
        r@ == scale_line(i as nat, w as nat, h as nat, v_line@),
{
    let label = u64_dec(((i + 1) * 14 + 2) as u64);
    let mut p = String::new();
    let lc = chars_of(label.as_str()).len();
    let pad: usize = if lc < 4 { 4 - lc } else { 0 };
    let mut k: usize = 0;
    proof {
        reveal_strlit("%");
    }
    while k < pad
        invariant
            k <= pad,
            p@ == Seq::new(k as nat, |j: int| ' '),
        decreases pad - k,
    {
        crate::text::push_char(&mut p, ' ');
        k = k + 1;
        assert(p@ =~= Seq::new(k as nat, |j: int| ' '));
    }
    push_str(&mut p, label.as_str());
    push_str(&mut p, "%");
    assert(p@ =~= perc_text(i as nat));
    let mut r = crate::mv::to(((h / 2) as u32) - 2 + i, ((w / 2) as u32) - 28);
    let t = Fx::trans(p);
    push_str(&mut r, t.as_str());
    push_str(&mut r, v_line);
    r
}

impl Init {
    /// A start-up screen that is shown, with no shades or figures yet.
    pub fn new() -> (r: Self)
        ensures
            r.running,
            r.initbg_colors@.len() == 0,
            r.initbg_data@.len() == 0,
            !r.resized,
    {
        Init { running: true, initbg_colors: Vec::new(), initbg_data: Vec::new(), resized: false }
    }

    /// Draws the start-up screen on a `term_w` by `term_h` terminal (see
    /// `init_draw`), adds the grey shades of the background graphs, and
    /// keeps `samples`, the random figures they draw (two per column, each
    /// below 100).
    pub fn start(&mut self, term_w: u16, term_h: u16, samples: Vec<i32>, texts: &InitTexts, draw: &mut Draw)
        requires
            term_h / 2 >= 10,
            term_w / 2 >= 28,
            samples@.len() == 2 * term_w,
            forall|j: int| 0 <= j < samples@.len() ==> 0 <= #[trigger] samples@[j] < 100,
        ensures
            views(&final(self).initbg_colors@) == views(&old(self).initbg_colors@) + greys(),
            final(self).initbg_data@ == samples@,
            final(self).running == old(self).running,
            final(self).resized == old(self).resized,
            draw_of(*final(draw)) == init_draw(draw_of(*old(draw)), *texts, term_w as nat, term_h as nat),
            final(draw).idle == old(draw).idle,
    {
        proof {
            reveal_strlit("init");
            reveal_strlit("initbg");
            reveal_strlit("banner");
        }
        let ghost d0 = draw_of(*draw);
        put_empty(draw, "init", 0);
        put_empty(draw, "initbg", 10);
        let ghost before = views(&self.initbg_colors@);
        let mut i: u64 = 0;
        assert(before + greys().take(0) =~= before);
        while i < 51
            invariant
                i <= 51,
                views(&self.initbg_colors@) == before + greys().take(2 * i as int),
                self.running == old(self).running,
                self.resized == old(self).resized,
            decreases 51 - i,
        {
            let mut g = u64_dec(i);
            push_str(&mut g, " ");
            let d = u64_dec(i);
            push_str(&mut g, d.as_str());
            push_str(&mut g, " ");
            push_str(&mut g, d.as_str());
            let ghost gv = g@;
            assert(gv == grey(i as nat));
            let g2 = g.clone();
            let ghost prev = self.initbg_colors@;
            self.initbg_colors.push(g);
            self.initbg_colors.push(g2);
            let ghost cur = self.initbg_colors@;
            assert(cur == prev.push(g).push(g2));
            assert(greys()[2 * i as int] == gv) by {
                assert((2 * i as int) / 2 == i as int);
            }
            assert(greys()[2 * i + 1] == gv) by {
                assert((2 * i as int + 1) / 2 == i as int);
            }
            assert(views(&cur) =~= views(&prev).push(gv).push(gv));
            assert(greys().take(2 * i + 2) =~= greys().take(2 * i as int).push(gv).push(gv));
            i = i + 1;
        }
        assert(greys().take(102) =~= greys());
        assert(views(&self.initbg_colors@) == views(&old(self).initbg_colors@) + greys());
        let mut line = owned(texts.banner.as_str());
        let d1 = crate::mv::down(1);
        let l11 = crate::mv::left(11);
        push_str(&mut line, d1.as_str());
        push_str(&mut line, l11.as_str());
        push_str(&mut line, texts.black_bg.as_str());
        push_str(&mut line, texts.default_color.as_str());
        push_str(&mut line, crate::fx::b);
        push_str(&mut line, crate::fx::i);
        push_str(&mut line, "Version: ");
        push_str(&mut line, texts.version.as_str());
        push_str(&mut line, crate::fx::ui);
        push_str(&mut line, crate::fx::ub);
        push_str(&mut line, texts.term_bg.as_str());
        push_str(&mut line, texts.term_fg.as_str());
        push_str(&mut line, texts.fg50.as_str());
        assert(line@ =~= banner_line(*texts));
        put_text(draw, "banner", true, line, 2);
        let mut k: u32 = 0;
        while k < 7
            invariant
                k <= 7,
                term_h / 2 >= 10,
                term_w / 2 >= 28,
                unmarked("banner"@) == ("banner"@, false, false),
                draw.idle == old(draw).idle,
                draw_of(*draw) == scale_lines(put(put(put(d0, "init"@, false, Seq::empty(), 0), "initbg"@, false, Seq::empty(), 10), "banner"@, true, banner_line(*texts), 2), k as nat, term_w as nat, term_h as nat, texts.v_line@),
            decreases 7 - k,
        {
            let t = scale_text(k, term_w, term_h, texts.v_line.as_str());
            put_text(draw, "banner", true, t, 100);
            k = k + 1;
        }
        let ghost d4 = draw_of(*draw);
        assert(d4 == scale_lines(put(put(put(d0, "init"@, false, Seq::empty(), 0), "initbg"@, false, Seq::empty(), 10), "banner"@, true, banner_line(*texts), 2), 7, term_w as nat, term_h as nat, texts.v_line@));
        print_one(draw, "banner");
        assert(draw_of(*draw) == (out_result(d4.0, sort_desc(d4.1), seq!["banner"@], false).0, d4.1));
        let mut il = owned(texts.fgcc.as_str());
        push_str(&mut il, crate::fx::b);
        let to = crate::mv::to(((term_h / 2) as u32) - 2, ((term_w / 2) as u32) - 21);
        push_str(&mut il, to.as_str());
        push_str(&mut il, crate::mv::save);
        assert(il@ =~= init_line(*texts, term_w as nat, term_h as nat));
        let ghost d5 = draw_of(*draw);
        put_text(draw, "init", true, il, 100);
        let ghost d6 = draw_of(*draw);
        assert(d6 == put(d5, "init"@, true, init_line(*texts, term_w as nat, term_h as nat), 100));
        print_one(draw, "init");
        assert(draw_of(*draw) == (out_result(d6.0, sort_desc(d6.1), seq!["init"@], false).0, d6.1));
        self.initbg_data = samples;
    }
}

} // verus!

//! What the memory collector computes from the figures it reads: the
//! memory in use, the shares of the total, the histories drawn as graphs,
//! and the choice of the disks shown.
use vstd::prelude::*;
use crate::text::{chars_of, string_of, split_on, split_chars, has_suffix, ends_with, starts_with, push_str, dec, owned, u64_dec, str_eq};
use crate::scan::{trim, trim_chars, remove_all, remove_all_chars};
use crate::brshtop_box::{views, dup_strings};
use crate::strmap::{StrMap, Dup, DupView, unique_keys, lemma_index_of};
use crate::stats::DiskInfo;
use crate::membox::{MemBox, MemView};
use crate::settings::Config;

verus! {

/// The memory in use: the total less what is available, or nothing when
/// more is available than there is in all.
pub open spec fn used_of(total: u64, available: u64) -> u64 {
    if available <= total { (total - available) as u64 } else { 0 }
}

/// The memory in use (see `used_of`); the figures are below `2^63`, as
/// they are taken as signed numbers.
pub fn used_memory(total: u64, available: u64) -> (r: u64)
    requires
        total <= i64::MAX,
        available <= i64::MAX,
    ensures
        r == used_of(total, available),
{
    let d: i64 = total as i64 - available as i64;
    if d < 0 { 0 } else { d as u64 }
}

/// The share of `total` that `value` is, in whole percent (rounded down).
pub fn percent_of(value: u64, total: u64) -> (r: u64)
    requires
        total > 0,
        value * 100 <= u64::MAX,
    ensures
        r as int == (value * 100) / (total as int),
{
    value * 100 / total
}

/// The history after `value` is added: the oldest figure goes when more
/// figures than `width` would be kept.
pub open spec fn history_push(h: Seq<u64>, value: u64, width: u32) -> Seq<u64> {
    let l = h.push(value);
    if l.len() > width { l.drop_first() } else { l }
}

/// Adds `value` to a history that is drawn `width` columns wide.
pub fn push_history(h: &mut Vec<u64>, value: u64, width: u32)
    ensures
        final(h)@ == history_push(old(h)@, value, width),
{
    h.push(value);
    if h.len() as u64 > width as u64 {
        h.remove(0);
        assert(h@ =~= old(h)@.push(value).drop_first());
    }
}

/// The pieces of `s` between commas, each without white space at its ends.
pub open spec fn trimmed_pieces(s: Seq<char>) -> Seq<Seq<char>> {
    split_on(s, ',').map_values(|p: Seq<char>| trim(p))
}

/// The disks named by a filter, and whether they are left out (a filter
/// that starts with `exclude=`) or the only ones shown; no disks for an
/// empty filter.
pub open spec fn filter_of(f: Seq<char>) -> (Seq<Seq<char>>, bool) {
    if f.len() == 0 {
        (Seq::empty(), false)
    } else if f.len() >= 8 && f.take(8) == "exclude="@ {
        (trimmed_pieces(trim(remove_all(f, "exclude="@))), true)
    } else {
        (trimmed_pieces(trim(f)), false)
    }
}

/// The pieces of `s` between commas, trimmed.
fn trimmed_split(s: &Vec<char>) -> (r: Vec<String>)
    ensures
        views(&r@) == trimmed_pieces(s@),
{
    let parts = split_chars(s, ',');
    let mut r: Vec<String> = Vec::new();
    let mut i: usize = 0;
    while i < parts.len()
        invariant
            i <= parts.len(),
            parts@.len() == split_on(s@, ',').len(),
            forall|k: int| 0 <= k < parts@.len() ==> #[trigger] parts@[k]@ == split_on(s@, ',')[k],
            views(&r@) == trimmed_pieces(s@).take(i as int),
        decreases parts.len() - i,
    {
        let t = trim_chars(&parts[i]);
        let ghost before = views(&r@);
        r.push(string_of(&t));
        assert(views(&r@) =~= trimmed_pieces(s@).take(i + 1)) by {
            assert(views(&r@) =~= before.push(t@));
            assert(parts@[i as int]@ == split_on(s@, ',')[i as int]);
        }
        i = i + 1;
    }
    assert(trimmed_pieces(s@).take(parts.len() as int) =~= trimmed_pieces(s@));
    r
}

/// The disks a filter names and whether they are left out (see
/// `filter_of`).
pub fn disk_filter(filter: &str) -> (r: (Vec<String>, bool))
    ensures
        views(&r.0@) == filter_of(filter@).0,
        r.1 == filter_of(filter@).1,
{
    let f = chars_of(filter);
    if f.len() == 0 {
        let v: Vec<String> = Vec::new();
        assert(views(&v@) =~= Seq::<Seq<char>>::empty());
        return (v, false);
    }
    let ex = chars_of("exclude=");
    proof {
        reveal_strlit("exclude=");
    }
    if starts_with(&f, &ex) {
        assert(f@.subrange(0, 8) == f@.take(8));
        let rest = remove_all_chars(&f, &ex);
        let t = trim_chars(&rest);
        (trimmed_split(&t), true)
    } else {
        assert(!(f@.len() >= 8 && f@.take(8) == "exclude="@)) by {
            if f@.len() >= 8 && f@.take(8) == "exclude="@ {
                assert(f@.subrange(0, 8) == f@.take(8));
            }
        }
        let t = trim_chars(&f);
        (trimmed_split(&t), false)
    }
}

/// The filters, one after the other.
pub open spec fn concat_filters(fs: Seq<Seq<char>>) -> Seq<char>
    decreases fs.len(),
{
    if fs.len() == 0 {
        Seq::empty()
    } else {
        concat_filters(fs.drop_last()) + fs.last()
    }
}

/// Whether a disk is left out by the filter: with a filter, the disk's
/// name is held against all the filter's disks written one after the
/// other; it must end with them to be shown, or must not when they are
/// left out.
pub open spec fn skipped_by_filter(name: Seq<char>, fs: Seq<Seq<char>>, exclude: bool) -> bool {
    fs.len() > 0 && ((!exclude && !has_suffix(name, concat_filters(fs))) || (exclude && has_suffix(name, concat_filters(fs))))
}

/// Whether disk `name` is left out by the filter (see `skipped_by_filter`).
pub fn disk_skipped(name: &String, filtering: &Vec<String>, exclude: bool) -> (r: bool)
    ensures
        r == skipped_by_filter(name@, views(&filtering@), exclude),
{
    if filtering.len() == 0 {
        return false;
    }
    let mut ender = String::new();
    let ghost fs = views(&filtering@);
    let mut i: usize = 0;
    assert(fs.take(0) =~= Seq::<Seq<char>>::empty());
    while i < filtering.len()
        invariant
            i <= filtering.len(),
            fs == views(&filtering@),
            ender@ == concat_filters(fs.take(i as int)),
        decreases filtering.len() - i,
    {
        assert(fs.take(i + 1).drop_last() =~= fs.take(i as int));
        push_str(&mut ender, filtering[i].as_str());
        i = i + 1;
    }
    assert(fs.take(filtering.len() as int) =~= fs);
    let n = chars_of(name.as_str());
    let e = chars_of(ender.as_str());
    let ends = ends_with(&n, &e);
    (!exclude && !ends) || (exclude && ends)
}

/// The longest name among `names`.
pub open spec fn longest(names: Seq<Seq<char>>) -> nat
    decreases names.len(),
{
    if names.len() == 0 {
        0
    } else {
        let m = longest(names.drop_last());
        if names.last().len() > m { names.last().len() } else { m }
    }
}

pub proof fn lemma_longest(names: Seq<Seq<char>>, i: int)
    requires
        0 <= i < names.len(),
    ensures
        names[i].len() <= longest(names),
    decreases names.len(),
{
    if i < names.len() - 1 {
        lemma_longest(names.drop_last(), i);
    }
}

/// `name` with underscores added until it is not among `taken`.
pub open spec fn unique_name(name: Seq<char>, taken: Seq<Seq<char>>) -> Seq<char>
    decreases longest(taken) + 1 - name.len(),
{
    if taken.contains(name) {
        proof {
            let i = choose|i: int| 0 <= i < taken.len() && taken[i] == name;
            lemma_longest(taken, i);
        }
        unique_name(name.push('_'), taken)
    } else {
        name
    }
}

/// Whether `v` holds a string equal to `n`.
fn holds(v: &Vec<String>, n: &String) -> (r: bool)
    ensures
        r == views(&v@).contains(n@),
{
    let mut i: usize = 0;
    while i < v.len()
        invariant
            i <= v.len(),
            forall|j: int| 0 <= j < i ==> v@[j]@ != n@,
        decreases v.len() - i,
    {
        if v[i] == *n {
            assert(views(&v@)[i as int] == n@);
            return true;
        }
        i = i + 1;
    }
    assert forall|j: int| 0 <= j < views(&v@).len() implies views(&v@)[j] != n@ by {
        assert(views(&v@)[j] == v@[j]@);
    }
    false
}

/// The name a disk is listed under: `name` with underscores added until
/// no disk listed before has it (see `unique_name`).
pub fn disk_name(name: String, disk_list: &Vec<String>) -> (r: String)
    ensures
        r@ == unique_name(name@, views(&disk_list@)),
{
    let ghost taken = views(&disk_list@);
    let mut n = name;
    while holds(disk_list, &n)
        invariant
            taken == views(&disk_list@),
            unique_name(n@, taken) == unique_name(name@, taken),
        decreases longest(taken) + 1 - n@.len(),
    {
        proof {
            let i = choose|i: int| 0 <= i < taken.len() && taken[i] == n@;
            lemma_longest(taken, i);
        }
        crate::text::push_char(&mut n, '_');
    }
    n
}

/// The spec view of a table of lists of figures.
pub open spec fn lists(m: Map<Seq<char>, Vec<u64>>) -> Map<Seq<char>, Seq<u64>> {
    m.map_values(|v: Vec<u64>| v@)
}

/// The spec view of a table of disk tables.
pub open spec fn tables(m: Map<Seq<char>, StrMap<DiskInfo>>) -> Map<Seq<char>, Map<Seq<char>, DiskInfo>> {
    m.map_values(|t: StrMap<DiskInfo>| t@)
}

/// The list under `k`, if there is one.
pub open spec fn list_at(m: Map<Seq<char>, Vec<u64>>, k: Seq<char>) -> Option<Seq<u64>> {
    if m.contains_key(k) { Some(m[k]@) } else { None }
}

/// A list with `e` put in at position `i`: the list under the key, or,
/// where there is none, `i` zeros.
pub open spec fn inner_set(l: Option<Seq<u64>>, i: int, e: u64) -> Seq<u64> {
    match l {
        Some(v) => v.insert(i, e),
        None => Seq::new(i as nat, |j: int| 0u64).push(e),
    }
}

/// The message for a key under which there is no list.
pub open spec fn no_vec_message(k: Seq<char>) -> Seq<char> {
    "No vec at index '"@ + k + "'"@
}

/// The message for a position past the end of a list.
pub open spec fn out_of_bounds_message(i: nat) -> Seq<char> {
    "Index "@ + dec(i) + " is out of bounds"@
}

/// The file systems that the disk list leaves out on a system.
pub open spec fn excluded_file_systems(system: Seq<char>) -> Seq<Seq<char>> {
    if system == "BSD"@ {
        seq!["squashfs"@, "devfs"@, "tmpfs"@, "procfs"@, "linprocfs"@, "gvfs"@, "fusefs"@]
    } else {
        seq!["squashfs"@]
    }
}

/// `m` with `e` put in at position `index2` of the list under `index1`.
fn list_set_inner(m: &mut StrMap<Vec<u64>>, index1: String, index2: usize, e: u64)
    requires
        old(m)@.contains_key(index1@) ==> index2 <= old(m)@[index1@]@.len(),
    ensures
        lists(final(m)@) == lists(old(m)@).insert(index1@, inner_set(list_at(old(m)@, index1@), index2 as int, e)),
{
    let ghost k = index1@;
    let new_v = match m.get(index1.as_str()) {
        Some(v) => {
            let mut w = v.dup_view();
            w.insert(index2, e);
            w
        },
        None => {
            let mut w: Vec<u64> = Vec::new();
            let mut i: usize = 0;
            while i < index2
                invariant
                    i <= index2,
                    w@ == Seq::new(i as nat, |j: int| 0u64),
                decreases index2 - i,
            {
                w.push(0);
                i = i + 1;
                assert(w@ =~= Seq::new(i as nat, |j: int| 0u64));
            }
            w.push(e);
            w
        },
    };
    assert(new_v@ =~= inner_set(list_at(m@, k), index2 as int, e));
    let ghost before = m@;
    m.insert(index1, new_v);
    assert(lists(m@) =~= lists(before).insert(k, new_v@));
}

/// `m` with `e` added at the end of the list under `index1`; an error,
/// and `m` unchanged, where there is no such list.
fn list_push_inner(m: &mut StrMap<Vec<u64>>, index1: String, e: u64) -> (r: Result<(), String>)
    ensures
        match list_at(old(m)@, index1@) {
            Some(v) => r is Ok && lists(final(m)@) == lists(old(m)@).insert(index1@, v.push(e)),
            None => r matches Err(msg) && msg@ == no_vec_message(index1@) && final(m)@ == old(m)@,
        },
{
    let ghost k = index1@;
    let new_v = match m.get(index1.as_str()) {
        Some(v) => {
            let mut w = v.dup_view();
            w.push(e);
            w
        },
        None => {
            let mut msg = owned("No vec at index '");
            push_str(&mut msg, index1.as_str());
            push_str(&mut msg, "'");
            return Err(msg);
        },
    };
    let ghost before = m@;
    m.insert(index1, new_v);
    assert(lists(m@) =~= lists(before).insert(k, new_v@));
    Ok(())
}

/// `m` with position `index2` of the list under `index1` taken out; an
/// error, and `m` unchanged, where there is no such list or the position
/// lies past its end.
fn list_remove_inner(m: &mut StrMap<Vec<u64>>, index1: String, index2: usize) -> (r: Result<(), String>)
    requires
        old(m)@.contains_key(index1@) ==> index2 != old(m)@[index1@]@.len(),
    ensures
        match list_at(old(m)@, index1@) {
            Some(v) => if index2 > v.len() {
                r matches Err(msg) && msg@ == out_of_bounds_message(index2 as nat) && final(m)@ == old(m)@
            } else {
                r is Ok && lists(final(m)@) == lists(old(m)@).insert(index1@, v.remove(index2 as int))
            },
            None => r matches Err(msg) && msg@ == no_vec_message(index1@) && final(m)@ == old(m)@,
        },
{
    let ghost k = index1@;
    let new_v = match m.get(index1.as_str()) {
        Some(v) => {
            if index2 > v.len() {
                let mut msg = owned("Index ");
                let d = u64_dec(index2 as u64);
                push_str(&mut msg, d.as_str());
                push_str(&mut msg, " is out of bounds");
                return Err(msg);
            }
            let mut w = v.dup_view();
            w.remove(index2);
            w
        },
        None => {
            let mut msg = owned("No vec at index '");
            push_str(&mut msg, index1.as_str());
            push_str(&mut msg, "'");
            return Err(msg);
        },
    };
    let ghost before = m@;
    m.insert(index1, new_v);
    assert(lists(m@) =~= lists(before).insert(k, new_v@));
    Ok(())
}

/// The list under `index1`, if there is one.
fn list_get(m: &StrMap<Vec<u64>>, index: &str) -> (r: Option<Vec<u64>>)
    ensures
        match list_at(m@, index@) {
            Some(v) => r matches Some(w) && w@ == v,
            None => r is None,
        },
{
    match m.get(index) {
        Some(v) => Some(v.dup_view()),
        None => None,
    }
}

/// Figure `index2` of the list under `index1`, if there is one.
fn list_get_inner(m: &StrMap<Vec<u64>>, index1: &str, index2: usize) -> (r: Option<u64>)
    ensures
        r == (match list_at(m@, index1@) {
            Some(v) => if index2 < v.len() { Some(v[index2 as int]) } else { None },
            None => None,
        }),
{
    match m.get(index1) {
        Some(v) => if index2 < v.len() { Some(v[index2]) } else { None },
        None => None,
    }
}

/// The figures of the memory as read, in bytes.
pub struct MemFigures {
    pub cached: u64,
    pub total: u64,
    pub free: u64,
    pub available: u64,
}

/// The figures of the swap as read, in bytes.
pub struct SwapFigures {
    pub total: u64,
    pub free: u64,
}

/// The memory figures by name after a reading.
pub open spec fn mem_values(old: Map<Seq<char>, u64>, m: MemFigures) -> Map<Seq<char>, u64> {
    old.insert("cached"@, m.cached)
        .insert("total"@, m.total)
        .insert("free"@, m.free)
        .insert("available"@, m.available)
        .insert("used"@, used_of(m.total, m.available))
}

/// The swap figures by name after a reading: the used swap is counted as
/// the total over the free swap.
pub open spec fn swap_values(old: Map<Seq<char>, u64>, s: SwapFigures) -> Map<Seq<char>, u64> {
    old.insert("total"@, s.total).insert("free"@, s.free).insert("used"@, s.total / s.free)
}

/// Whether `k` is among the first `i` keys of entry list `p`.
pub open spec fn in_first(p: Seq<(Seq<char>, u64)>, k: Seq<char>, i: int) -> bool {
    exists|j: int| 0 <= j < i && p[j].0 == k
}

/// The figure a share of `k` is taken of: the total, or, for the swap,
/// the figure itself.
pub open spec fn share_base(vals: Map<Seq<char>, u64>, k: Seq<char>, by_self: bool) -> u64 {
    if by_self { vals[k] } else { vals["total"@] }
}

/// The share of figure `k` in whole percent.
pub open spec fn share_of(vals: Map<Seq<char>, u64>, k: Seq<char>, by_self: bool) -> u64 {
    (vals[k] * 100 / (share_base(vals, k, by_self) as int)) as u64
}

/// Whether key `k` gets a share: a figure other than the total, among the
/// first `i` of `p`.
pub open spec fn shared(p: Seq<(Seq<char>, u64)>, k: Seq<char>, i: int) -> bool {
    in_first(p, k, i) && k != "total"@
}

/// The shares after the first `i` figures of `p` (whose map is `vals`).
pub open spec fn shares_upto(old: Map<Seq<char>, u64>, p: Seq<(Seq<char>, u64)>, vals: Map<Seq<char>, u64>, by_self: bool, i: int) -> Map<Seq<char>, u64> {
    Map::new(
        |k: Seq<char>| old.contains_key(k) || shared(p, k, i),
        |k: Seq<char>| if shared(p, k, i) { share_of(vals, k, by_self) } else { old[k] },
    )
}

/// The history of `k`, empty where there is none.
pub open spec fn hist_of(l: Map<Seq<char>, Seq<u64>>, k: Seq<char>) -> Seq<u64> {
    if l.contains_key(k) { l[k] } else { Seq::empty() }
}

/// The memory histories after the first `i` figures of `p`: each share
/// added, the oldest dropped past `width`.
pub open spec fn graphs_upto(old: Map<Seq<char>, Seq<u64>>, p: Seq<(Seq<char>, u64)>, vals: Map<Seq<char>, u64>, width: u32, i: int) -> Map<Seq<char>, Seq<u64>> {
    Map::new(
        |k: Seq<char>| old.contains_key(k) || shared(p, k, i),
        |k: Seq<char>| if shared(p, k, i) { history_push(hist_of(old, k), share_of(vals, k, false), width) } else { old[k] },
    )
}

/// The swap histories after the first `i` figures of `p`: each share
/// added.
pub open spec fn swap_graphs_upto(old: Map<Seq<char>, Seq<u64>>, p: Seq<(Seq<char>, u64)>, vals: Map<Seq<char>, u64>, i: int) -> Map<Seq<char>, Seq<u64>> {
    Map::new(
        |k: Seq<char>| old.contains_key(k) || shared(p, k, i),
        |k: Seq<char>| if shared(p, k, i) { hist_of(old, k).push(share_of(vals, k, true)) } else { old[k] },
    )
}

/// Whether the memory history of `k` loses its oldest figure: a swap
/// history of the same name grew past `width`.
pub open spec fn trimmed_by_swap(l: Map<Seq<char>, Seq<u64>>, sw: Map<Seq<char>, Seq<u64>>, p: Seq<(Seq<char>, u64)>, k: Seq<char>, i: int, width: u32) -> bool {
    shared(p, k, i) && sw[k].len() > width && l.contains_key(k)
}

/// The memory histories after the first `i` swap figures of `p`: each
/// named like a swap history that grew past `width` loses its oldest
/// figure.
pub open spec fn swap_trim_upto(l: Map<Seq<char>, Seq<u64>>, sw: Map<Seq<char>, Seq<u64>>, p: Seq<(Seq<char>, u64)>, width: u32, i: int) -> Map<Seq<char>, Seq<u64>> {
    Map::new(
        |k: Seq<char>| l.contains_key(k),
        |k: Seq<char>| if trimmed_by_swap(l, sw, p, k, i, width) { l[k].drop_first() } else { l[k] },
    )
}

/// The shares of all figures of `vals` but the total, over `old`.
pub open spec fn all_shares(old: Map<Seq<char>, u64>, vals: Map<Seq<char>, u64>, by_self: bool) -> Map<Seq<char>, u64> {
    Map::new(
        |k: Seq<char>| old.contains_key(k) || (vals.contains_key(k) && k != "total"@),
        |k: Seq<char>| if vals.contains_key(k) && k != "total"@ { share_of(vals, k, by_self) } else { old[k] },
    )
}

/// The memory histories with the share of every figure of `vals` but the
/// total added, the oldest dropped past `width`.
pub open spec fn all_graphs(old: Map<Seq<char>, Seq<u64>>, vals: Map<Seq<char>, u64>, width: u32) -> Map<Seq<char>, Seq<u64>> {
    Map::new(
        |k: Seq<char>| old.contains_key(k) || (vals.contains_key(k) && k != "total"@),
        |k: Seq<char>| if vals.contains_key(k) && k != "total"@ { history_push(hist_of(old, k), share_of(vals, k, false), width) } else { old[k] },
    )
}

/// The swap histories with the share of every swap figure but the total
/// added.
pub open spec fn all_swap_graphs(old: Map<Seq<char>, Seq<u64>>, vals: Map<Seq<char>, u64>) -> Map<Seq<char>, Seq<u64>> {
    Map::new(
        |k: Seq<char>| old.contains_key(k) || (vals.contains_key(k) && k != "total"@),
        |k: Seq<char>| if vals.contains_key(k) && k != "total"@ { hist_of(old, k).push(share_of(vals, k, true)) } else { old[k] },
    )
}

/// The memory histories after the swap histories `sw` are taken in: each
/// named like a swap figure (but the total) whose history grew past
/// `width` loses its oldest figure.
pub open spec fn all_swap_trim(l: Map<Seq<char>, Seq<u64>>, sw: Map<Seq<char>, Seq<u64>>, vals: Map<Seq<char>, u64>, width: u32) -> Map<Seq<char>, Seq<u64>> {
    Map::new(
        |k: Seq<char>| l.contains_key(k),
        |k: Seq<char>| if vals.contains_key(k) && k != "total"@ && sw[k].len() > width && l.contains_key(k) { l[k].drop_first() } else { l[k] },
    )
}

/// Whether every share of `vals` can be taken: the figures times 100 stay
/// in `u64` and the figure each is taken of is not zero.
pub open spec fn shares_ok(vals: Map<Seq<char>, u64>, by_self: bool) -> bool {
    forall|k: Seq<char>| #[trigger] vals.contains_key(k) && k != "total"@ ==> {
        &&& vals[k] * 100 <= u64::MAX
        &&& share_base(vals, k, by_self) > 0
        &&& !by_self ==> vals.contains_key("total"@)
    }
}

/// Takes the shares of the figures `vals` but the total into `percent`,
/// and, with `graphs`, into the histories `vlist` (the oldest dropped past
/// `width`).
fn take_shares(vals: &StrMap<u64>, percent: &mut StrMap<u64>, vlist: &mut StrMap<Vec<u64>>, graphs: bool, width: u32)
    requires
        shares_ok(vals@, false),
    ensures
        final(percent)@ == all_shares(old(percent)@, vals@, false),
        lists(final(vlist)@) == (if graphs { all_graphs(lists(old(vlist)@), vals@, width) } else { lists(old(vlist)@) }),
{
    let n = vals.len();
    let ghost p = vals.pairs();
    let ghost old_p = percent@;
    let ghost old_l = lists(vlist@);
    let mut i: usize = 0;
    assert(percent@ =~= shares_upto(old_p, p, vals@, false, 0));
    assert(lists(vlist@) =~= graphs_upto(old_l, p, vals@, width, 0));
    while i < n
        invariant
            i <= n,
            n == p.len(),
            p == vals.pairs(),
            unique_keys(p),
            shares_ok(vals@, false),
            percent@ == shares_upto(old_p, p, vals@, false, i as int),
            lists(vlist@) == (if graphs { graphs_upto(old_l, p, vals@, width, i as int) } else { old_l }),
        decreases n - i,
    {
        let k = vals.key_at(i);
        let v = *vals.value_at(i);
        proof {
            lemma_index_of(p, k@, i as int);
            assert(!in_first(p, k@, i as int)) by {
                if in_first(p, k@, i as int) {
                    let j = choose|j: int| 0 <= j < i && p[j].0 == k@;
                    assert(p[j].0 == p[i as int].0);
                }
            }
        }
        assert(vals@.contains_key(k@) && v == vals@[k@]);
        if !str_eq(k.as_str(), "total") {
            assert(vals@[k@] * 100 <= u64::MAX && share_base(vals@, k@, false) > 0 && vals@.contains_key("total"@));
            let total = match vals.get("total") {
                Some(t) => *t,
                None => 1,
            };
            let share = v * 100 / total;
            assert(share == share_of(vals@, k@, false));
            let ghost before_p = percent@;
            percent.insert(k.clone(), share);
            assert(percent@ =~= shares_upto(old_p, p, vals@, false, i + 1));
            if graphs {
                let ghost before_l = lists(vlist@);
                assert(!shared(p, k@, i as int));
                assert(before_l.contains_key(k@) == old_l.contains_key(k@));
                let mut h: Vec<u64> = match vlist.get(k.as_str()) {
                    Some(h) => {
                        assert(before_l[k@] == old_l[k@]);
                        h.dup_view()
                    },
                    None => Vec::new(),
                };
                assert(h@ =~= hist_of(old_l, k@));
                push_history(&mut h, share, width);
                let ghost hv = h@;
                assert(hv == history_push(hist_of(old_l, k@), share_of(vals@, k@, false), width));
                vlist.insert(k.clone(), h);
                assert(lists(vlist@) =~= before_l.insert(k@, hv));
                assert(lists(vlist@) =~= graphs_upto(old_l, p, vals@, width, i + 1));
            } else {
                assert(lists(vlist@) =~= old_l);
            }
        } else {
            assert(percent@ =~= shares_upto(old_p, p, vals@, false, i + 1));
            assert(graphs_upto(old_l, p, vals@, width, i as int) =~= graphs_upto(old_l, p, vals@, width, i + 1));
        }
        i = i + 1;
    }
    assert(shares_upto(old_p, p, vals@, false, n as int) =~= all_shares(old_p, vals@, false));
    assert(graphs_upto(old_l, p, vals@, width, n as int) =~= all_graphs(old_l, vals@, width));
}


/// Whether taking the swap shares drops a figure only from memory
/// histories that have one.
pub open spec fn swap_trim_ok(l: Map<Seq<char>, Seq<u64>>, sw: Map<Seq<char>, Seq<u64>>, vals: Map<Seq<char>, u64>, width: u32) -> bool {
    forall|k: Seq<char>| #[trigger] vals.contains_key(k) && k != "total"@ && all_swap_graphs(sw, vals)[k].len() > width && l.contains_key(k) ==> l[k].len() > 0
}

/// Takes the shares of the swap figures `vals` but the total into
/// `percent` (each of the figure itself), and, with `graphs`, into the
/// swap histories; a memory history named like a swap history that grew
/// past `width` loses its oldest figure.
fn take_swap_shares(vals: &StrMap<u64>, percent: &mut StrMap<u64>, sw: &mut StrMap<Vec<u64>>, vlist: &mut StrMap<Vec<u64>>, graphs: bool, width: u32)
    requires
        shares_ok(vals@, true),
        graphs ==> swap_trim_ok(lists(old(vlist)@), lists(old(sw)@), vals@, width),
    ensures
        final(percent)@ == all_shares(old(percent)@, vals@, true),
        lists(final(sw)@) == (if graphs { all_swap_graphs(lists(old(sw)@), vals@) } else { lists(old(sw)@) }),
        lists(final(vlist)@) == (if graphs {
            all_swap_trim(lists(old(vlist)@), all_swap_graphs(lists(old(sw)@), vals@), vals@, width)
        } else {
            lists(old(vlist)@)
        }),
{
    let n = vals.len();
    let ghost p = vals.pairs();
    let ghost old_p = percent@;
    let ghost old_sw = lists(sw@);
    let ghost old_l = lists(vlist@);
    let ghost sw_final = all_swap_graphs(old_sw, vals@);
    let mut i: usize = 0;
    assert(percent@ =~= shares_upto(old_p, p, vals@, true, 0));
    assert(lists(sw@) =~= swap_graphs_upto(old_sw, p, vals@, 0));
    assert(lists(vlist@) =~= swap_trim_upto(old_l, sw_final, p, width, 0));
    while i < n
        invariant
            i <= n,
            n == p.len(),
            p == vals.pairs(),
            unique_keys(p),
            shares_ok(vals@, true),
            graphs ==> swap_trim_ok(old_l, old_sw, vals@, width),
            sw_final == all_swap_graphs(old_sw, vals@),
            percent@ == shares_upto(old_p, p, vals@, true, i as int),
            lists(sw@) == (if graphs { swap_graphs_upto(old_sw, p, vals@, i as int) } else { old_sw }),
            lists(vlist@) == (if graphs { swap_trim_upto(old_l, sw_final, p, width, i as int) } else { old_l }),
        decreases n - i,
    {
        let k = vals.key_at(i);
        let v = *vals.value_at(i);
        proof {
            lemma_index_of(p, k@, i as int);
            assert(!in_first(p, k@, i as int)) by {
                if in_first(p, k@, i as int) {
                    let j = choose|j: int| 0 <= j < i && p[j].0 == k@;
                    assert(p[j].0 == p[i as int].0);
                }
            }
        }
        assert(vals@.contains_key(k@) && v == vals@[k@]);
        if !str_eq(k.as_str(), "total") {
            assert(vals@[k@] * 100 <= u64::MAX && share_base(vals@, k@, true) > 0);
            let share = v * 100 / v;
            assert(share == share_of(vals@, k@, true));
            percent.insert(k.clone(), share);
            assert(percent@ =~= shares_upto(old_p, p, vals@, true, i + 1));
            if graphs {
                let ghost before_sw = lists(sw@);
                let ghost before_l = lists(vlist@);
                assert(!shared(p, k@, i as int));
                assert(before_sw.contains_key(k@) == old_sw.contains_key(k@));
                assert(before_l.contains_key(k@) == old_l.contains_key(k@));
                let mut h: Vec<u64> = match sw.get(k.as_str()) {
                    Some(h) => {
                        assert(before_sw[k@] == old_sw[k@]);
                        h.dup_view()
                    },
                    None => Vec::new(),
                };
                assert(h@ =~= hist_of(old_sw, k@));
                h.push(share);
                let ghost hv = h@;
                assert(hv == sw_final[k@]);
                let long = h.len() > width as usize;
                sw.insert(k.clone(), h);
                assert(lists(sw@) =~= before_sw.insert(k@, hv));
                assert(lists(sw@) =~= swap_graphs_upto(old_sw, p, vals@, i + 1));
                if long {
                    match vlist.get(k.as_str()) {
                        Some(l) => {
                            assert(before_l[k@] == old_l[k@]);
                            assert(old_l[k@].len() > 0);
                            let mut l2 = l.dup_view();
                            l2.remove(0);
                            let ghost lv = l2@;
                            assert(lv =~= old_l[k@].drop_first());
                            vlist.insert(k.clone(), l2);
                            assert(lists(vlist@) =~= before_l.insert(k@, lv));
                        },
                        None => {},
                    }
                }
                assert(lists(vlist@) =~= swap_trim_upto(old_l, sw_final, p, width, i + 1));
            }
        } else {
            assert(percent@ =~= shares_upto(old_p, p, vals@, true, i + 1));
            assert(swap_graphs_upto(old_sw, p, vals@, i as int) =~= swap_graphs_upto(old_sw, p, vals@, i + 1));
            assert(swap_trim_upto(old_l, sw_final, p, width, i as int) =~= swap_trim_upto(old_l, sw_final, p, width, i + 1));
        }
        i = i + 1;
    }
    assert(shares_upto(old_p, p, vals@, true, n as int) =~= all_shares(old_p, vals@, true));
    assert(swap_graphs_upto(old_sw, p, vals@, n as int) =~= all_swap_graphs(old_sw, vals@));
    assert(swap_trim_upto(old_l, sw_final, p, width, n as int) =~= all_swap_trim(old_l, sw_final, vals@, width));
}


/// Whether a round of reading the memory runs without a failure: the
/// memory figures are below `2^63`, every share can be taken, and, where
/// the swap is read, there is free swap, every swap share can be taken and
/// every memory history it shortens has a figure.
pub open spec fn memory_ok(c: MemCollector, config: &Config, width: u32, m: MemFigures, swap: Option<SwapFigures>) -> bool {
    let vals = mem_values(c.values@, m);
    let l1 = if config.mem_graphs { all_graphs(lists(c.vlist@), vals, width) } else { lists(c.vlist@) };
    &&& m.total <= i64::MAX
    &&& m.available <= i64::MAX
    &&& shares_ok(vals, false)
    &&& (config.show_swap || config.swap_disk) ==> match swap {
        Some(s) => {
            let sv = swap_values(c.swap_values@, s);
            &&& s.free > 0
            &&& s.total > 0 ==> shares_ok(sv, true)
            &&& (s.total > 0 && config.mem_graphs) ==> swap_trim_ok(l1, lists(c.swap_vlist@), sv, width)
        },
        None => true,
    }
}

/// The figures of the memory collector: the memory and swap figures by
/// name, their histories and shares, the disks and their histories, and
/// the file systems that the disk list leaves out.
pub struct MemCollector {
    pub values: StrMap<u64>,
    pub vlist: StrMap<Vec<u64>>,
    pub percent: StrMap<u64>,
    pub string: StrMap<String>,
    pub swap_values: StrMap<u64>,
    pub swap_vlist: StrMap<Vec<u64>>,
    pub swap_percent: StrMap<u64>,
    pub swap_string: StrMap<String>,
    pub disks: StrMap<StrMap<DiskInfo>>,
    pub disk_hist: StrMap<Vec<u64>>,
    pub io_error: bool,
    pub old_disks: Vec<String>,
    pub excludes: Vec<String>,
    pub buffer: String,
}

impl MemCollector {
    /// A collector with no figures yet, drawing into the buffer of
    /// `membox`, that leaves out the file systems of `system`.
    pub fn new(membox: &MemBox, system: &str) -> (m: Self)
        ensures
            m.values@ == Map::<Seq<char>, u64>::empty(),
            m.vlist@ == Map::<Seq<char>, Vec<u64>>::empty(),
            m.percent@ == Map::<Seq<char>, u64>::empty(),
            m.string@ == Map::<Seq<char>, String>::empty(),
            m.swap_values@ == Map::<Seq<char>, u64>::empty(),
            m.swap_vlist@ == Map::<Seq<char>, Vec<u64>>::empty(),
            m.swap_percent@ == Map::<Seq<char>, u64>::empty(),
            m.swap_string@ == Map::<Seq<char>, String>::empty(),
            m.disks@ == Map::<Seq<char>, StrMap<DiskInfo>>::empty(),
            m.disk_hist@ == Map::<Seq<char>, Vec<u64>>::empty(),
            !m.io_error,
            m.old_disks@.len() == 0,
            views(&m.excludes@) == excluded_file_systems(system@),
            m.buffer@ == membox@.buffer,
    {
        let mut excludes: Vec<String> = vec![owned("squashfs")];
        if str_eq(system, "BSD") {
            excludes.push(owned("devfs"));
            excludes.push(owned("tmpfs"));
            excludes.push(owned("procfs"));
            excludes.push(owned("linprocfs"));
            excludes.push(owned("gvfs"));
            excludes.push(owned("fusefs"));
        }
        assert(views(&excludes@) =~= excluded_file_systems(system@));
        MemCollector {
            values: StrMap::new(),
            vlist: StrMap::new(),
            percent: StrMap::new(),
            string: StrMap::new(),
            swap_values: StrMap::new(),
            swap_vlist: StrMap::new(),
            swap_percent: StrMap::new(),
            swap_string: StrMap::new(),
            disks: StrMap::new(),
            disk_hist: StrMap::new(),
            io_error: false,
            old_disks: Vec::new(),
            excludes,
            buffer: membox.get_buffer(),
        }
    }

    /// Takes in a reading of the memory and, when the swap is shown or
    /// counted with the disks, of the swap (`None` where reading failed,
    /// which ends the round there): the figures by name, their shares in
    /// whole percent and, with memory graphs, their histories drawn as wide
    /// as `membox`; `membox` shows the swap while there is any. The texts of
    /// the figures (`string`, `swap_string`) are left as they are.
    pub fn collect_memory(&mut self, config: &Config, membox: &mut MemBox, mem: Option<MemFigures>, swap: Option<SwapFigures>)
        requires
            mem matches Some(m) ==> memory_ok(*old(self), config, old(membox)@.parent.width, m, swap),
        ensures
            match mem {
                None => *final(self) == *old(self) && final(membox)@ == old(membox)@,
                Some(m) => {
                    let width = old(membox)@.parent.width;
                    let vals = mem_values(old(self).values@, m);
                    let l1 = if config.mem_graphs { all_graphs(lists(old(self).vlist@), vals, width) } else { lists(old(self).vlist@) };
                    let show = config.show_swap || config.swap_disk;
                    &&& *final(self) == (MemCollector {
                        values: final(self).values,
                        percent: final(self).percent,
                        vlist: final(self).vlist,
                        swap_values: final(self).swap_values,
                        swap_percent: final(self).swap_percent,
                        swap_vlist: final(self).swap_vlist,
                        ..*old(self)
                    })
                    &&& final(self).values@ == vals
                    &&& final(self).percent@ == all_shares(old(self).percent@, vals, false)
                    &&& match swap {
                        Some(s) if show => {
                            let sv = swap_values(old(self).swap_values@, s);
                            &&& final(self).swap_values@ == sv
                            &&& if s.total > 0 {
                                &&& final(self).swap_percent@ == all_shares(old(self).swap_percent@, sv, true)
                                &&& lists(final(self).swap_vlist@) == (if config.mem_graphs { all_swap_graphs(lists(old(self).swap_vlist@), sv) } else { lists(old(self).swap_vlist@) })
                                &&& lists(final(self).vlist@) == (if config.mem_graphs { all_swap_trim(l1, all_swap_graphs(lists(old(self).swap_vlist@), sv), sv, width) } else { l1 })
                                &&& final(membox)@ == (if old(membox)@.swap_on { old(membox)@ } else { MemView { redraw: true, swap_on: true, ..old(membox)@ } })
                            } else {
                                &&& final(self).swap_percent@ == old(self).swap_percent@
                                &&& final(self).swap_vlist@ == old(self).swap_vlist@
                                &&& lists(final(self).vlist@) == l1
                                &&& final(membox)@ == (if old(membox)@.swap_on { MemView { redraw: true, swap_on: false, ..old(membox)@ } } else { old(membox)@ })
                            }
                        },
                        None if show => {
                            &&& final(self).swap_values@ == old(self).swap_values@
                            &&& final(self).swap_percent@ == old(self).swap_percent@
                            &&& final(self).swap_vlist@ == old(self).swap_vlist@
                            &&& lists(final(self).vlist@) == l1
                            &&& final(membox)@ == old(membox)@
                        },
                        _ => {
                            &&& final(self).swap_values@ == old(self).swap_values@
                            &&& final(self).swap_percent@ == old(self).swap_percent@
                            &&& final(self).swap_vlist@ == old(self).swap_vlist@
                            &&& lists(final(self).vlist@) == l1
                            &&& final(membox)@ == (if old(membox)@.swap_on { MemView { redraw: true, swap_on: false, ..old(membox)@ } } else { old(membox)@ })
                        },
                    }
                },
            },
    {
        let m = match mem {
            Some(m) => m,
            None => return,
        };
        let width = membox.get_parent().get_width();
        self.values.insert(owned("cached"), m.cached);
        self.values.insert(owned("total"), m.total);
        self.values.insert(owned("free"), m.free);
        self.values.insert(owned("available"), m.available);
        self.values.insert(owned("used"), used_memory(m.total, m.available));
        take_shares(&self.values, &mut self.percent, &mut self.vlist, config.mem_graphs, width);
        if config.show_swap || config.swap_disk {
            let s = match swap {
                Some(s) => s,
                None => return,
            };
            self.swap_values.insert(owned("total"), s.total);
            self.swap_values.insert(owned("free"), s.free);
            self.swap_values.insert(owned("used"), s.total / s.free);
            if s.total > 0 {
                if !membox.get_swap_on() {
                    membox.set_redraw(true);
                    membox.set_swap_on(true);
                }
                take_swap_shares(&self.swap_values, &mut self.swap_percent, &mut self.swap_vlist, &mut self.vlist, config.mem_graphs, width);
            } else if membox.get_swap_on() {
                membox.set_redraw(true);
                membox.set_swap_on(false);
            }
        } else if membox.get_swap_on() {
            membox.set_redraw(true);
            membox.set_swap_on(false);
        }
    }

    /// A copy of the table of the memory figures.
    pub fn get_values(&self) -> (r: StrMap<u64>)
        ensures
            r@ == self.values@,
    {
        self.values.dup_view()
    }

    /// Replaces the table of the memory figures.
    pub fn set_values(&mut self, values: StrMap<u64>)
        ensures
            *final(self) == (MemCollector { values: final(self).values, ..*old(self) }),
            final(self).values@ == values@,
    {
        self.values = values;
    }

    /// The memory figures under `index`, if there is one.
    pub fn get_values_index(&self, index: String) -> (r: Option<u64>)
        ensures
            r == (if self.values@.contains_key(index@) { Some(self.values@[index@]) } else { None }),
    {
        match self.values.get(index.as_str()) {
            Some(u) => Some(*u),
            None => None,
        }
    }

    /// Sets the memory figures under `index` to `element`.
    pub fn set_values_index(&mut self, index: String, element: u64)
        ensures
            *final(self) == (MemCollector { values: final(self).values, ..*old(self) }),
            final(self).values@ == old(self).values@.insert(index@, element),
    {
        self.values.insert(index, element);
    }

    /// A copy of the table of memory figure histories.
    pub fn get_vlist(&self) -> (r: StrMap<Vec<u64>>)
        ensures
            lists(r@) == lists(self.vlist@),
    {
        let r = self.vlist.dup_views();
        assert(lists(r@) =~= lists(self.vlist@));
        r
    }

    /// Replaces the table of memory figure histories.
    pub fn set_vlist(&mut self, vlist: StrMap<Vec<u64>>)
        ensures
            *final(self) == (MemCollector { vlist: final(self).vlist, ..*old(self) }),
            final(self).vlist@ == vlist@,
    {
        self.vlist = vlist;
    }

    /// A copy of the list of memory figure histories under `index`, if there is one.
    pub fn get_vlist_index(&self, index: String) -> (r: Option<Vec<u64>>)
        ensures
            match list_at(self.vlist@, index@) {
                Some(v) => r matches Some(w) && w@ == v,
                None => r is None,
            },
    {
        list_get(&self.vlist, index.as_str())
    }

    /// Sets the list of memory figure histories under `index` to `element`.
    pub fn set_vlist_index(&mut self, index: String, element: Vec<u64>)
        ensures
            *final(self) == (MemCollector { vlist: final(self).vlist, ..*old(self) }),
            final(self).vlist@ == old(self).vlist@.insert(index@, element),
    {
        self.vlist.insert(index, element);
    }

    /// Figure `index2` of the list of memory figure histories under `index1`, if there is one.
    pub fn get_vlist_inner_index(&self, index1: String, index2: usize) -> (r: Option<u64>)
        ensures
            r == (match list_at(self.vlist@, index1@) {
                Some(v) => if index2 < v.len() { Some(v[index2 as int]) } else { None },
                None => None,
            }),
    {
        list_get_inner(&self.vlist, index1.as_str(), index2)
    }

    /// Puts `element` in at position `index2` of the list of memory figure histories under
    /// `index1`, which is made of `index2` zeros first where there is none.
    pub fn set_vlist_inner_index(&mut self, index1: String, index2: usize, element: u64)
        requires
            old(self).vlist@.contains_key(index1@) ==> index2 <= old(self).vlist@[index1@]@.len(),
        ensures
            *final(self) == (MemCollector { vlist: final(self).vlist, ..*old(self) }),
            lists(final(self).vlist@) == lists(old(self).vlist@).insert(index1@, inner_set(list_at(old(self).vlist@, index1@), index2 as int, element)),
    {
        list_set_inner(&mut self.vlist, index1, index2, element);
    }

    /// Adds `element` at the end of the list of memory figure histories under `index1`;
    /// an error where there is no such list.
    pub fn push_vlist_inner_index(&mut self, index1: String, element: u64) -> (r: Result<(), String>)
        ensures
            *final(self) == (MemCollector { vlist: final(self).vlist, ..*old(self) }),
            match list_at(old(self).vlist@, index1@) {
                Some(v) => r is Ok && lists(final(self).vlist@) == lists(old(self).vlist@).insert(index1@, v.push(element)),
                None => r matches Err(msg) && msg@ == no_vec_message(index1@) && final(self).vlist@ == old(self).vlist@,
            },
    {
        list_push_inner(&mut self.vlist, index1, element)
    }

    /// Takes position `remove_index` out of the list of memory figure histories under
    /// `index1`; an error where there is no such list or the position lies
    /// past its end.
    pub fn remove_vlist_inner_index(&mut self, index1: String, remove_index: usize) -> (r: Result<(), String>)
        requires
            old(self).vlist@.contains_key(index1@) ==> remove_index != old(self).vlist@[index1@]@.len(),
        ensures
            *final(self) == (MemCollector { vlist: final(self).vlist, ..*old(self) }),
            match list_at(old(self).vlist@, index1@) {
                Some(v) => if remove_index > v.len() {
                    r matches Err(msg) && msg@ == out_of_bounds_message(remove_index as nat) && final(self).vlist@ == old(self).vlist@
                } else {
                    r is Ok && lists(final(self).vlist@) == lists(old(self).vlist@).insert(index1@, v.remove(remove_index as int))
                },
                None => r matches Err(msg) && msg@ == no_vec_message(index1@) && final(self).vlist@ == old(self).vlist@,
            },
    {
        list_remove_inner(&mut self.vlist, index1, remove_index)
    }

    /// A copy of the table of the memory shares.
    pub fn get_percent(&self) -> (r: StrMap<u64>)
        ensures
            r@ == self.percent@,
    {
        self.percent.dup_view()
    }

    /// Replaces the table of the memory shares.
    pub fn set_percent(&mut self, percent: StrMap<u64>)
        ensures
            *final(self) == (MemCollector { percent: final(self).percent, ..*old(self) }),
            final(self).percent@ == percent@,
    {
        self.percent = percent;
    }

    /// The memory shares under `index`, if there is one.
    pub fn get_percent_index(&self, index: String) -> (r: Option<u64>)
        ensures
            r == (if self.percent@.contains_key(index@) { Some(self.percent@[index@]) } else { None }),
    {
        match self.percent.get(index.as_str()) {
            Some(u) => Some(*u),
            None => None,
        }
    }

    /// Sets the memory shares under `index` to `element`.
    pub fn set_percent_index(&mut self, index: String, element: u64)
        ensures
            *final(self) == (MemCollector { percent: final(self).percent, ..*old(self) }),
            final(self).percent@ == old(self).percent@.insert(index@, element),
    {
        self.percent.insert(index, element);
    }

    /// A copy of the table of the memory texts.
    pub fn get_string(&self) -> (r: StrMap<String>)
        ensures
            r@ == self.string@,
    {
        self.string.dup_view()
    }

    /// Replaces the table of the memory texts.
    pub fn set_string(&mut self, string: StrMap<String>)
        ensures
            *final(self) == (MemCollector { string: final(self).string, ..*old(self) }),
            final(self).string@ == string@,
    {
        self.string = string;
    }

    /// The memory texts under `index`, if there is one.
    pub fn get_string_index(&self, index: String) -> (r: Option<String>)
        ensures
            r is None <==> !self.string@.contains_key(index@),
            r matches Some(s) ==> s@ == self.string@[index@]@,
    {
        match self.string.get(index.as_str()) {
            Some(s) => Some(s.clone()),
            None => None,
        }
    }

    /// Sets the memory texts under `index` to `element`.
    pub fn set_string_index(&mut self, index: String, element: String)
        ensures
            *final(self) == (MemCollector { string: final(self).string, ..*old(self) }),
            final(self).string@ == old(self).string@.insert(index@, element),
    {
        self.string.insert(index, element);
    }

    /// A copy of the table of the swap figures.
    pub fn get_swap_values(&self) -> (r: StrMap<u64>)
        ensures
            r@ == self.swap_values@,
    {
        self.swap_values.dup_view()
    }

    /// Replaces the table of the swap figures.
    pub fn set_swap_values(&mut self, swap_values: StrMap<u64>)
        ensures
            *final(self) == (MemCollector { swap_values: final(self).swap_values, ..*old(self) }),
            final(self).swap_values@ == swap_values@,
    {
        self.swap_values = swap_values;
    }

    /// The swap figures under `index`, if there is one.
    pub fn get_swap_values_index(&self, index: String) -> (r: Option<u64>)
        ensures
            r == (if self.swap_values@.contains_key(index@) { Some(self.swap_values@[index@]) } else { None }),
    {
        match self.swap_values.get(index.as_str()) {
            Some(u) => Some(*u),
            None => None,
        }
    }

    /// Sets the swap figures under `index` to `element`.
    pub fn set_swap_values_index(&mut self, index: String, element: u64)
        ensures
            *final(self) == (MemCollector { swap_values: final(self).swap_values, ..*old(self) }),
            final(self).swap_values@ == old(self).swap_values@.insert(index@, element),
    {
        self.swap_values.insert(index, element);
    }

    /// A copy of the table of swap figure histories.
    pub fn get_swap_vlist(&self) -> (r: StrMap<Vec<u64>>)
        ensures
            lists(r@) == lists(self.swap_vlist@),
    {
        let r = self.swap_vlist.dup_views();
        assert(lists(r@) =~= lists(self.swap_vlist@));
        r
    }

    /// Replaces the table of swap figure histories.
    pub fn set_swap_vlist(&mut self, swap_vlist: StrMap<Vec<u64>>)
        ensures
            *final(self) == (MemCollector { swap_vlist: final(self).swap_vlist, ..*old(self) }),
            final(self).swap_vlist@ == swap_vlist@,
    {
        self.swap_vlist = swap_vlist;
    }

    /// A copy of the list of swap figure histories under `index`, if there is one.
    pub fn get_swap_vlist_index(&self, index: String) -> (r: Option<Vec<u64>>)
        ensures
            match list_at(self.swap_vlist@, index@) {
                Some(v) => r matches Some(w) && w@ == v,
                None => r is None,
            },
    {
        list_get(&self.swap_vlist, index.as_str())
    }

    /// Sets the list of swap figure histories under `index` to `element`.
    pub fn set_swap_vlist_index(&mut self, index: String, element: Vec<u64>)
        ensures
            *final(self) == (MemCollector { swap_vlist: final(self).swap_vlist, ..*old(self) }),
            final(self).swap_vlist@ == old(self).swap_vlist@.insert(index@, element),
    {
        self.swap_vlist.insert(index, element);
    }

    /// Figure `index2` of the list of swap figure histories under `index1`, if there is one.
    pub fn get_swap_vlist_inner_index(&self, index1: String, index2: usize) -> (r: Option<u64>)
        ensures
            r == (match list_at(self.swap_vlist@, index1@) {
                Some(v) => if index2 < v.len() { Some(v[index2 as int]) } else { None },
                None => None,
            }),
    {
        list_get_inner(&self.swap_vlist, index1.as_str(), index2)
    }

    /// Puts `element` in at position `index2` of the list of swap figure histories under
    /// `index1`, which is made of `index2` zeros first where there is none.
    pub fn set_swap_vlist_inner_index(&mut self, index1: String, index2: usize, element: u64)
        requires
            old(self).swap_vlist@.contains_key(index1@) ==> index2 <= old(self).swap_vlist@[index1@]@.len(),
        ensures
            *final(self) == (MemCollector { swap_vlist: final(self).swap_vlist, ..*old(self) }),
            lists(final(self).swap_vlist@) == lists(old(self).swap_vlist@).insert(index1@, inner_set(list_at(old(self).swap_vlist@, index1@), index2 as int, element)),
    {
        list_set_inner(&mut self.swap_vlist, index1, index2, element);
    }

    /// Adds `element` at the end of the list of swap figure histories under `index1`;
    /// an error where there is no such list.
    pub fn push_swap_vlist_inner_index(&mut self, index1: String, element: u64) -> (r: Result<(), String>)
        ensures
            *final(self) == (MemCollector { swap_vlist: final(self).swap_vlist, ..*old(self) }),
            match list_at(old(self).swap_vlist@, index1@) {
                Some(v) => r is Ok && lists(final(self).swap_vlist@) == lists(old(self).swap_vlist@).insert(index1@, v.push(element)),
                None => r matches Err(msg) && msg@ == no_vec_message(index1@) && final(self).swap_vlist@ == old(self).swap_vlist@,
            },
    {
        list_push_inner(&mut self.swap_vlist, index1, element)
    }

    /// Takes position `remove_index` out of the list of swap figure histories under
    /// `index1`; an error where there is no such list or the position lies
    /// past its end.
    pub fn remove_swap_vlist_inner_index(&mut self, index1: String, remove_index: usize) -> (r: Result<(), String>)
        requires
            old(self).swap_vlist@.contains_key(index1@) ==> remove_index != old(self).swap_vlist@[index1@]@.len(),
        ensures
            *final(self) == (MemCollector { swap_vlist: final(self).swap_vlist, ..*old(self) }),
            match list_at(old(self).swap_vlist@, index1@) {
                Some(v) => if remove_index > v.len() {
                    r matches Err(msg) && msg@ == out_of_bounds_message(remove_index as nat) && final(self).swap_vlist@ == old(self).swap_vlist@
                } else {
                    r is Ok && lists(final(self).swap_vlist@) == lists(old(self).swap_vlist@).insert(index1@, v.remove(remove_index as int))
                },
                None => r matches Err(msg) && msg@ == no_vec_message(index1@) && final(self).swap_vlist@ == old(self).swap_vlist@,
            },
    {
        list_remove_inner(&mut self.swap_vlist, index1, remove_index)
    }

    /// A copy of the table of the swap shares.
    pub fn get_swap_percent(&self) -> (r: StrMap<u64>)
        ensures
            r@ == self.swap_percent@,
    {
        self.swap_percent.dup_view()
    }

    /// Replaces the table of the swap shares.
    pub fn set_swap_percent(&mut self, swap_percent: StrMap<u64>)
        ensures
            *final(self) == (MemCollector { swap_percent: final(self).swap_percent, ..*old(self) }),
            final(self).swap_percent@ == swap_percent@,
    {
        self.swap_percent = swap_percent;
    }

    /// The swap shares under `index`, if there is one.
    pub fn get_swap_percent_index(&self, index: String) -> (r: Option<u64>)
        ensures
            r == (if self.swap_percent@.contains_key(index@) { Some(self.swap_percent@[index@]) } else { None }),
    {
        match self.swap_percent.get(index.as_str()) {
            Some(u) => Some(*u),
            None => None,
        }
    }

    /// Sets the swap shares under `index` to `element`.
    pub fn set_swap_percent_index(&mut self, index: String, element: u64)
        ensures
            *final(self) == (MemCollector { swap_percent: final(self).swap_percent, ..*old(self) }),
            final(self).swap_percent@ == old(self).swap_percent@.insert(index@, element),
    {
        self.swap_percent.insert(index, element);
    }

    /// A copy of the table of the swap texts.
    pub fn get_swap_string(&self) -> (r: StrMap<String>)
        ensures
            r@ == self.swap_string@,
    {
        self.swap_string.dup_view()
    }

    /// Replaces the table of the swap texts.
    pub fn set_swap_string(&mut self, swap_string: StrMap<String>)
        ensures
            *final(self) == (MemCollector { swap_string: final(self).swap_string, ..*old(self) }),
            final(self).swap_string@ == swap_string@,
    {
        self.swap_string = swap_string;
    }

    /// The swap texts under `index`, if there is one.
    pub fn get_swap_string_index(&self, index: String) -> (r: Option<String>)
        ensures
            r is None <==> !self.swap_string@.contains_key(index@),
            r matches Some(s) ==> s@ == self.swap_string@[index@]@,
    {
        match self.swap_string.get(index.as_str()) {
            Some(s) => Some(s.clone()),
            None => None,
        }
    }

    /// Sets the swap texts under `index` to `element`.
    pub fn set_swap_string_index(&mut self, index: String, element: String)
        ensures
            *final(self) == (MemCollector { swap_string: final(self).swap_string, ..*old(self) }),
            final(self).swap_string@ == old(self).swap_string@.insert(index@, element),
    {
        self.swap_string.insert(index, element);
    }

    /// A copy of the table of disks.
    pub fn get_disks(&self) -> (r: StrMap<StrMap<DiskInfo>>)
        ensures
            tables(r@) == tables(self.disks@),
    {
        let r = self.disks.dup_views();
        assert(tables(r@) =~= tables(self.disks@));
        r
    }

    /// Replaces the table of disks.
    pub fn set_disks(&mut self, disks: StrMap<StrMap<DiskInfo>>)
        ensures
            *final(self) == (MemCollector { disks: final(self).disks, ..*old(self) }),
            final(self).disks@ == disks@,
    {
        self.disks = disks;
    }

    /// A copy of what is known of disk `index`, if it is listed.
    pub fn get_disks_index(&self, index: String) -> (r: Option<StrMap<DiskInfo>>)
        ensures
            r is None <==> !self.disks@.contains_key(index@),
            r matches Some(t) ==> t@ == self.disks@[index@]@,
    {
        match self.disks.get(index.as_str()) {
            Some(t) => Some(t.dup_view()),
            None => None,
        }
    }

    /// Sets what is known of disk `index`.
    pub fn set_disks_index(&mut self, index: String, element: StrMap<DiskInfo>)
        ensures
            *final(self) == (MemCollector { disks: final(self).disks, ..*old(self) }),
            final(self).disks@ == old(self).disks@.insert(index@, element),
    {
        self.disks.insert(index, element);
    }

    /// Takes disk `index` off the table.
    pub fn remove_disks_index(&mut self, index: String)
        ensures
            *final(self) == (MemCollector { disks: final(self).disks, ..*old(self) }),
            final(self).disks@ == old(self).disks@.remove(index@),
    {
        self.disks.remove(index.as_str());
    }

    /// Item `index2` of disk `index1`, if both are there.
    pub fn get_disks_inner_index(&self, index1: String, index2: String) -> (r: Option<DiskInfo>)
        ensures
            r == (if self.disks@.contains_key(index1@) && self.disks@[index1@]@.contains_key(index2@) {
                Some(self.disks@[index1@]@[index2@])
            } else {
                None
            }),
    {
        match self.disks.get(index1.as_str()) {
            Some(t) => match t.get(index2.as_str()) {
                Some(d) => Some(d.dup()),
                None => None,
            },
            None => None,
        }
    }

    /// Sets item `index2` of disk `index1`, listing the disk where it is
    /// not yet listed.
    pub fn set_disks_inner_index(&mut self, index1: String, index2: String, element: DiskInfo)
        ensures
            *final(self) == (MemCollector { disks: final(self).disks, ..*old(self) }),
            tables(final(self).disks@) == tables(old(self).disks@).insert(
                index1@,
                (if old(self).disks@.contains_key(index1@) { old(self).disks@[index1@]@ } else { Map::empty() }).insert(index2@, element),
            ),
    {
        let ghost k = index1@;
        let ghost before = self.disks@;
        let mut t = match self.disks.get(index1.as_str()) {
            Some(t) => t.dup_view(),
            None => StrMap::new(),
        };
        proof {
            if !before.contains_key(k) {
                assert(t@ =~= Map::<Seq<char>, DiskInfo>::empty());
            }
        }
        t.insert(index2, element);
        self.disks.insert(index1, t);
        assert(tables(self.disks@) =~= tables(before).insert(k, t@));
    }

    /// A copy of the table of disk histories.
    pub fn get_disk_hist(&self) -> (r: StrMap<Vec<u64>>)
        ensures
            lists(r@) == lists(self.disk_hist@),
    {
        let r = self.disk_hist.dup_views();
        assert(lists(r@) =~= lists(self.disk_hist@));
        r
    }

    /// Replaces the table of disk histories.
    pub fn set_disk_hist(&mut self, disk_hist: StrMap<Vec<u64>>)
        ensures
            *final(self) == (MemCollector { disk_hist: final(self).disk_hist, ..*old(self) }),
            final(self).disk_hist@ == disk_hist@,
    {
        self.disk_hist = disk_hist;
    }

    /// A copy of the list of disk histories under `index`, if there is one.
    pub fn get_disk_hist_index(&self, index: String) -> (r: Option<Vec<u64>>)
        ensures
            match list_at(self.disk_hist@, index@) {
                Some(v) => r matches Some(w) && w@ == v,
                None => r is None,
            },
    {
        list_get(&self.disk_hist, index.as_str())
    }

    /// Sets the list of disk histories under `index` to `element`.
    pub fn set_disk_hist_index(&mut self, index: String, element: Vec<u64>)
        ensures
            *final(self) == (MemCollector { disk_hist: final(self).disk_hist, ..*old(self) }),
            final(self).disk_hist@ == old(self).disk_hist@.insert(index@, element),
    {
        self.disk_hist.insert(index, element);
    }

    /// Figure `index2` of the list of disk histories under `index1`, if there is one.
    pub fn get_disk_hist_inner_index(&self, index1: String, index2: usize) -> (r: Option<u64>)
        ensures
            r == (match list_at(self.disk_hist@, index1@) {
                Some(v) => if index2 < v.len() { Some(v[index2 as int]) } else { None },
                None => None,
            }),
    {
        list_get_inner(&self.disk_hist, index1.as_str(), index2)
    }

    /// Puts `element` in at position `index2` of the list of disk histories under
    /// `index1`, which is made of `index2` zeros first where there is none.
    pub fn set_disk_hist_inner_index(&mut self, index1: String, index2: usize, element: u64)
        requires
            old(self).disk_hist@.contains_key(index1@) ==> index2 <= old(self).disk_hist@[index1@]@.len(),
        ensures
            *final(self) == (MemCollector { disk_hist: final(self).disk_hist, ..*old(self) }),
            lists(final(self).disk_hist@) == lists(old(self).disk_hist@).insert(index1@, inner_set(list_at(old(self).disk_hist@, index1@), index2 as int, element)),
    {
        list_set_inner(&mut self.disk_hist, index1, index2, element);
    }

    /// Whether reading the disk counters failed.
    pub fn get_io_error(&self) -> (r: bool)
        ensures
            r == self.io_error,
    {
        self.io_error
    }

    /// Records whether reading the disk counters failed.
    pub fn set_io_error(&mut self, io_error: bool)
        ensures
            *final(self) == (MemCollector { io_error: final(self).io_error, ..*old(self) }),
            final(self).io_error == io_error,
    {
        self.io_error = io_error;
    }

    /// A copy of the disks listed last time.
    pub fn get_old_disks(&self) -> (r: Vec<String>)
        ensures
            r@ == self.old_disks@,
    {
        dup_strings(&self.old_disks)
    }

    /// Replaces the disks listed last time.
    pub fn set_old_disks(&mut self, old_disks: Vec<String>)
        ensures
            *final(self) == (MemCollector { old_disks: final(self).old_disks, ..*old(self) }),
            final(self).old_disks@ == old_disks@,
    {
        self.old_disks = old_disks;
    }

    /// Disk `index` of those listed last time, if there is one.
    pub fn get_old_disks_index(&self, index: usize) -> (r: Option<String>)
        ensures
            r is None <==> index >= self.old_disks@.len(),
            r matches Some(s) ==> s@ == self.old_disks@[index as int]@,
    {
        if index < self.old_disks.len() {
            Some(self.old_disks[index].clone())
        } else {
            None
        }
    }

    /// Puts `element` in at position `index` of the disks listed last time.
    pub fn set_old_disks_index(&mut self, index: usize, element: String)
        requires
            index <= old(self).old_disks@.len(),
        ensures
            *final(self) == (MemCollector { old_disks: final(self).old_disks, ..*old(self) }),
            final(self).old_disks@ == old(self).old_disks@.insert(index as int, element),
    {
        self.old_disks.insert(index, element);
    }

    /// A copy of the file systems left out.
    pub fn get_excludes(&self) -> (r: Vec<String>)
        ensures
            r@ == self.excludes@,
    {
        dup_strings(&self.excludes)
    }

    /// Replaces the file systems left out.
    pub fn set_excludes(&mut self, excludes: Vec<String>)
        ensures
            *final(self) == (MemCollector { excludes: final(self).excludes, ..*old(self) }),
            final(self).excludes@ == excludes@,
    {
        self.excludes = excludes;
    }

    /// File system `index` of those left out, if there is one.
    pub fn get_excludes_index(&self, index: usize) -> (r: Option<String>)
        ensures
            r is None <==> index >= self.excludes@.len(),
            r matches Some(s) ==> s@ == self.excludes@[index as int]@,
    {
        if index < self.excludes.len() {
            Some(self.excludes[index].clone())
        } else {
            None
        }
    }

    /// Puts `element` in at position `index` of the file systems left out.
    pub fn set_excludes_index(&mut self, index: usize, element: String)
        requires
            index <= old(self).excludes@.len(),
        ensures
            *final(self) == (MemCollector { excludes: final(self).excludes, ..*old(self) }),
            final(self).excludes@ == old(self).excludes@.insert(index as int, element),
    {
        self.excludes.insert(index, element);
    }

    /// The name of the draw buffer.
    pub fn get_buffer(&self) -> (r: String)
        ensures
            r@ == self.buffer@,
    {
        self.buffer.clone()
    }

    /// Sets the name of the draw buffer.
    pub fn set_buffer(&mut self, buffer: String)
        ensures
            *final(self) == (MemCollector { buffer: final(self).buffer, ..*old(self) }),
            final(self).buffer@ == buffer@,
    {
        self.buffer = buffer;
    }
}

} // verus!

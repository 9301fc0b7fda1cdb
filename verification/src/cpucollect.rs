//! The figures of the processor collector: the usage and temperature
//! histories per thread, the temperature limits and what is known of the
//! sensors.
use vstd::prelude::*;
use crate::text::{owned, string_of, slice_chars, dec_int, has_prefix, parse_i32, parse_i32_chars, chars_of, starts_with, str_eq, i64_dec};
use crate::scan::{remove_all, remove_all_chars, find_first, find_chars};
use crate::netbox::tdiv;
use crate::config::{str_lowercase, lowercase};

verus! {

/// The spec view of a list of histories.
pub open spec fn rows(v: Seq<Vec<u32>>) -> Seq<Seq<u32>> {
    Seq::new(v.len(), |i: int| v[i]@)
}

/// The histories with history `i` replaced by `e`, or with `e` added at
/// the end where there is no history `i`.
pub open spec fn row_set(r: Seq<Seq<u32>>, i: int, e: Seq<u32>) -> Seq<Seq<u32>> {
    if 0 <= i < r.len() { r.update(i, e) } else { r.push(e) }
}

/// History `i1` after figure `e` is put at position `i2`: the figure is
/// added at the end of the history when `i2` is not past its end, the
/// history is kept when it is; a history of `e` alone where there is no
/// history `i1`.
pub open spec fn row_with(r: Seq<Seq<u32>>, i1: int, i2: int, e: u32) -> Seq<u32> {
    if 0 <= i1 < r.len() {
        if i2 > r[i1].len() { r[i1] } else { r[i1].push(e) }
    } else {
        seq![e]
    }
}

/// A copy of a list of histories.
fn dup_rows(v: &Vec<Vec<u32>>) -> (r: Vec<Vec<u32>>)
    ensures
        rows(r@) == rows(v@),
{
    let mut r: Vec<Vec<u32>> = Vec::new();
    let mut i: usize = 0;
    while i < v.len()
        invariant
            i <= v.len(),
            r@.len() == i,
            forall|j: int| 0 <= j < i ==> #[trigger] r@[j]@ == v@[j]@,
        decreases v.len() - i,
    {
        let row = v[i].clone();
        assert(row@ =~= v@[i as int]@);
        r.push(row);
        i = i + 1;
    }
    assert(rows(r@) =~= rows(v@));
    r
}

/// `v` with history `index` replaced by `element`, or with `element`
/// added at the end where there is no history `index`.
fn rows_set(v: &mut Vec<Vec<u32>>, index: usize, element: Vec<u32>)
    ensures
        rows(final(v)@) == row_set(rows(old(v)@), index as int, element@),
{
    let ghost before = rows(v@);
    if index < v.len() {
        v.set(index, element);
    } else {
        v.push(element);
    }
    assert(rows(v@) =~= row_set(before, index as int, element@));
}

/// Figure `index2` of history `index1` of `v`, if there is one.
fn rows_get_inner(v: &Vec<Vec<u32>>, index1: usize, index2: usize) -> (r: Option<u32>)
    ensures
        r == (if index1 < v@.len() && index2 < v@[index1 as int]@.len() {
            Some(v@[index1 as int]@[index2 as int])
        } else {
            None
        }),
{
    if index1 < v.len() && index2 < v[index1].len() {
        Some(v[index1][index2])
    } else {
        None
    }
}

/// `v` with figure `element` put at position `index2` of history
/// `index1` (see `row_with`).
fn rows_set_inner(v: &mut Vec<Vec<u32>>, index1: usize, index2: usize, element: u32)
    ensures
        rows(final(v)@) == row_set(rows(old(v)@), index1 as int, row_with(rows(old(v)@), index1 as int, index2 as int, element)),
{
    let ghost before = rows(v@);
    let row = if index1 < v.len() {
        let mut row = v[index1].clone();
        assert(row@ =~= before[index1 as int]);
        if index2 <= row.len() {
            row.push(element);
        }
        row
    } else {
        vec![element]
    };
    assert(row@ =~= row_with(before, index1 as int, index2 as int, element));
    rows_set(v, index1, row);
}

/// A temperature sensor as read, in whole degrees Celsius.
pub struct Sensor {
    /// The name of the chip the sensor belongs to.
    pub name: String,
    pub label: String,
    /// The reading, rounded.
    pub current: i32,
    /// Whether the reading, before rounding, is above zero.
    pub above_zero: bool,
    /// The high limit, rounded, when it is above one degree.
    pub high: Option<i32>,
    /// The critical limit, rounded, when it is above one degree.
    pub critical: Option<i32>,
}

/// The kind of processor the sensors tell of.
#[derive(Clone, Copy, PartialEq, Eq, Structural)]
pub enum CpuKind {
    Unknown,
    Intel,
    Ryzen,
    Other,
}

/// What the walk over the sensors has found so far: the package
/// temperature, the core temperatures in the order read, the temperatures
/// by core number, the offset for the second thread of a core, the kind of
/// processor, the limits, whether the sensor was switched, and the number
/// of the next sensor.
pub struct ScanView {
    pub temp: i32,
    pub cores: Seq<i32>,
    pub dict: Seq<(i32, i32)>,
    pub c_max: i32,
    pub kind: CpuKind,
    pub high: i32,
    pub crit: i32,
    pub swap: bool,
    pub num: i32,
}

/// Whether core number `k` has a temperature.
pub open spec fn dict_has(d: Seq<(i32, i32)>, k: int) -> bool {
    exists|i: int| 0 <= i < d.len() && d[i].0 == k
}

/// The largest core number, or zero when all are below.
pub open spec fn max_key(d: Seq<(i32, i32)>) -> int
    decreases d.len(),
{
    if d.len() == 0 {
        0
    } else {
        let m = max_key(d.drop_last());
        if d.last().0 > m { d.last().0 as int } else { m }
    }
}

/// The number of a core sensor: its label without `Core` and `Tccd`.
pub open spec fn core_number(label: Seq<char>) -> Option<i32> {
    parse_i32(remove_all(remove_all(label, "Core"@), "Tccd"@))
}

/// A limit read, or `d` when none was.
pub open spec fn limit_or(l: Option<i32>, d: i32) -> i32 {
    match l {
        Some(t) => t,
        None => d,
    }
}

/// Whether the sensor is the one the configuration names.
pub open spec fn is_named(s: Sensor, num: i32, s_name: Seq<char>, s_label: Seq<char>) -> bool {
    s.name@ == s_name && (s.label@ == s_label || dec_int(num as int) == s_label) && s.above_zero
}

/// Whether the sensor is a package sensor that may set the limits.
pub open spec fn is_package(st: ScanView, s: Sensor, s_name: Seq<char>) -> bool {
    (has_prefix(s.label@, "Package"@) || has_prefix(s.label@, "Tdie"@))
        && (st.kind == CpuKind::Unknown || st.kind == CpuKind::Other)
        && s_name == "_-_"@
        && s.current > 0
}

/// Whether the sensor tells of a core or of the processor.
pub open spec fn is_core(s: Sensor) -> bool {
    (has_prefix(s.label@, "Core"@) || has_prefix(s.label@, "Tccd"@) || has_prefix(s.label@, "CPU"@)
        || has_prefix(str_lowercase(s.name@), "cpu"@)) && s.above_zero
}

/// Whether the sensor is numbered by core.
pub open spec fn is_numbered(s: Sensor) -> bool {
    has_prefix(s.label@, "Core"@) || has_prefix(s.label@, "Tccd"@)
}

/// The offset for the second thread of a core: kept once found, else one
/// past the largest core number.
pub open spec fn offset_of(st: ScanView) -> int {
    if st.c_max == 0 { max_key(st.dict) + 1 } else { st.c_max as int }
}

/// The walk after sensor `r` (`None` for one that could not be read).
pub open spec fn scan_step(st: ScanView, r: Option<Sensor>, s_name: Seq<char>, s_label: Seq<char>, threads: int) -> ScanView {
    match r {
        None => ScanView { num: (st.num + 1) as i32, ..st },
        Some(s) => if is_named(s, st.num, s_name, s_label) {
            ScanView {
                kind: if has_prefix(s.label@, "Package"@) {
                    CpuKind::Intel
                } else if has_prefix(s.label@, "Tdie"@) {
                    CpuKind::Ryzen
                } else {
                    CpuKind::Other
                },
                high: limit_or(s.high, 80),
                crit: limit_or(s.critical, 95),
                num: (st.num + 1) as i32,
                ..st
            }
        } else if is_package(st, s, s_name) {
            if st.high == 0 || st.swap || st.kind == CpuKind::Other {
                ScanView {
                    swap: false,
                    high: limit_or(s.high, 80),
                    crit: limit_or(s.critical, 95),
                    kind: if has_prefix(s.label@, "Package"@) { CpuKind::Intel } else { CpuKind::Ryzen },
                    num: (st.num + 1) as i32,
                    ..st
                }
            } else {
                ScanView { num: (st.num + 1) as i32, ..st }
            }
        } else if is_core(s) {
            if is_numbered(s) {
                let e = core_number(s.label@)->0;
                if dict_has(st.dict, e as int) && st.kind != CpuKind::Ryzen {
                    let c = offset_of(st);
                    if c < threads / 2 && !dict_has(st.dict, e + c) {
                        ScanView { c_max: c as i32, dict: st.dict.push(((e + c) as i32, s.current)), ..st }
                    } else {
                        ScanView { c_max: c as i32, ..st }
                    }
                } else if dict_has(st.dict, e as int) {
                    st
                } else {
                    ScanView { dict: st.dict.push((e, s.current)), ..st }
                }
            } else if st.kind == CpuKind::Intel || st.kind == CpuKind::Ryzen {
                st
            } else {
                let thermal = s.name@ == "cpu_thermal"@;
                let st2 = if st.kind == CpuKind::Unknown {
                    let st1 = if st.high == 0 || st.swap {
                        ScanView {
                            swap: false,
                            high: limit_or(s.high, if thermal { 60i32 } else { 80i32 }),
                            crit: limit_or(s.critical, if thermal { 80i32 } else { 95i32 }),
                            ..st
                        }
                    } else {
                        st
                    };
                    ScanView { kind: CpuKind::Other, temp: s.current, ..st1 }
                } else {
                    st
                };
                ScanView { cores: st2.cores.push(s.current), num: (st2.num + 1) as i32, ..st2 }
            }
        } else {
            ScanView { num: (st.num + 1) as i32, ..st }
        },
    }
}

/// Whether sensor `r` can be taken at this point of the walk: a core
/// sensor's number is read, and the offsets and counts stay in `i32`.
pub open spec fn step_ok(st: ScanView, r: Option<Sensor>, s_name: Seq<char>, s_label: Seq<char>, threads: int) -> bool {
    &&& st.num < i32::MAX
    &&& match r {
        None => true,
        Some(s) => !is_named(s, st.num, s_name, s_label) && !is_package(st, s, s_name) && is_core(s) && is_numbered(s) ==> {
            &&& core_number(s.label@) is Some
            &&& (dict_has(st.dict, core_number(s.label@)->0 as int) && st.kind != CpuKind::Ryzen) ==> {
                &&& (st.c_max == 0 ==> max_key(st.dict) < i32::MAX)
                &&& offset_of(st) < threads / 2 ==> core_number(s.label@)->0 + offset_of(st) <= i32::MAX
            }
        },
    }
}

/// The walk over the sensors `rs` from `st0`.
pub open spec fn scan_fold(rs: Seq<Option<Sensor>>, st0: ScanView, s_name: Seq<char>, s_label: Seq<char>, threads: int) -> ScanView
    decreases rs.len(),
{
    if rs.len() == 0 {
        st0
    } else {
        scan_step(scan_fold(rs.drop_last(), st0, s_name, s_label, threads), rs.last(), s_name, s_label, threads)
    }
}

/// Whether every sensor of `rs` can be taken in turn.
pub open spec fn scan_ok(rs: Seq<Option<Sensor>>, st0: ScanView, s_name: Seq<char>, s_label: Seq<char>, threads: int) -> bool
    decreases rs.len(),
{
    if rs.len() == 0 {
        true
    } else {
        scan_ok(rs.drop_last(), st0, s_name, s_label, threads)
            && step_ok(scan_fold(rs.drop_last(), st0, s_name, s_label, threads), rs.last(), s_name, s_label, threads)
    }
}

/// The walk over the sensors as it runs.
pub struct SensorScan {
    pub temp: i32,
    pub cores: Vec<i32>,
    pub dict: Vec<(i32, i32)>,
    pub c_max: i32,
    pub kind: CpuKind,
    pub high: i32,
    pub crit: i32,
    pub swap: bool,
    pub num: i32,
}

/// The plain values of a walk.
pub open spec fn scan_view(s: SensorScan) -> ScanView {
    ScanView {
        temp: s.temp,
        cores: s.cores@,
        dict: s.dict@,
        c_max: s.c_max,
        kind: s.kind,
        high: s.high,
        crit: s.crit,
        swap: s.swap,
        num: s.num,
    }
}

/// The start of a walk: no temperature yet (1000), nothing found, the
/// limits and switch as the collector has them, sensor 1 next.
pub open spec fn scan_start(high: i32, crit: i32, swap: bool) -> ScanView {
    ScanView {
        temp: 1000,
        cores: Seq::empty(),
        dict: Seq::empty(),
        c_max: 0,
        kind: CpuKind::Unknown,
        high: high,
        crit: crit,
        swap: swap,
        num: 1,
    }
}

/// Whether core number `k` has a temperature.
fn dict_contains(d: &Vec<(i32, i32)>, k: i64) -> (r: bool)
    ensures
        r == dict_has(d@, k as int),
{
    let mut i: usize = 0;
    while i < d.len()
        invariant
            i <= d.len(),
            forall|j: int| 0 <= j < i ==> d@[j].0 != k,
        decreases d.len() - i,
    {
        if d[i].0 as i64 == k {
            return true;
        }
        i = i + 1;
    }
    false
}

/// The largest core number, or zero when all are below.
fn dict_max(d: &Vec<(i32, i32)>) -> (r: i64)
    ensures
        r == max_key(d@),
        0 <= r <= i32::MAX,
{
    let mut m: i64 = 0;
    let mut i: usize = 0;
    assert(d@.take(0) =~= Seq::<(i32, i32)>::empty());
    while i < d.len()
        invariant
            i <= d.len(),
            m == max_key(d@.take(i as int)),
            0 <= m <= i32::MAX,
        decreases d.len() - i,
    {
        assert(d@.take(i + 1).drop_last() =~= d@.take(i as int));
        if d[i].0 as i64 > m {
            m = d[i].0 as i64;
        }
        i = i + 1;
    }
    assert(d@.take(d.len() as int) =~= d@);
    m
}

/// Whether the characters of `s` begin with `p`.
fn text_starts(s: &str, p: &str) -> (r: bool)
    ensures
        r == has_prefix(s@, p@),
{
    starts_with(&chars_of(s), &chars_of(p))
}

/// The number of a core sensor (see `core_number`).
fn read_core_number(label: &str) -> (r: Option<i32>)
    ensures
        r == core_number(label@),
{
    let core = chars_of("Core");
    let tccd = chars_of("Tccd");
    proof {
        reveal_strlit("Core");
        reveal_strlit("Tccd");
    }
    let a = remove_all_chars(&chars_of(label), &core);
    let b = remove_all_chars(&a, &tccd);
    parse_i32_chars(&b)
}

/// The walk after one more sensor (see `scan_step`).
#[verifier::rlimit(40)]
fn scan_one(st: SensorScan, r: &Option<Sensor>, s_name: &str, s_label: &str, threads: usize) -> (out: SensorScan)
    requires
        threads <= i32::MAX,
        step_ok(scan_view(st), *r, s_name@, s_label@, threads as int),
    ensures
        scan_view(out) == scan_step(scan_view(st), *r, s_name@, s_label@, threads as int),
{
    let mut st = st;
    let ghost st0 = scan_view(st);
    match r {
        None => {
            st.num = st.num + 1;
            st
        },
        Some(s) => {
            let named = str_eq(s.name.as_str(), s_name) && (str_eq(s.label.as_str(), s_label) || str_eq(i64_dec(st.num as i64).as_str(), s_label)) && s.above_zero;
            let package = text_starts(s.label.as_str(), "Package");
            let tdie = text_starts(s.label.as_str(), "Tdie");
            if named {
                st.kind = if package { CpuKind::Intel } else if tdie { CpuKind::Ryzen } else { CpuKind::Other };
                st.high = match s.high { Some(t) => t, None => 80 };
                st.crit = match s.critical { Some(t) => t, None => 95 };
                st.num = st.num + 1;
                return st;
            }
            if (package || tdie) && (st.kind == CpuKind::Unknown || st.kind == CpuKind::Other) && str_eq(s_name, "_-_") && s.current > 0 {
                if st.high == 0 || st.swap || st.kind == CpuKind::Other {
                    st.swap = false;
                    st.high = match s.high { Some(t) => t, None => 80 };
                    st.crit = match s.critical { Some(t) => t, None => 95 };
                    st.kind = if package { CpuKind::Intel } else { CpuKind::Ryzen };
                }
                st.num = st.num + 1;
                return st;
            }
            let core = text_starts(s.label.as_str(), "Core");
            let tccd = text_starts(s.label.as_str(), "Tccd");
            let cpu = text_starts(s.label.as_str(), "CPU");
            let low = lowercase(s.name.as_str());
            let cpu_name = text_starts(low.as_str(), "cpu");
            if !((core || tccd || cpu || cpu_name) && s.above_zero) {
                st.num = st.num + 1;
                return st;
            }
            if core || tccd {
                let e = read_core_number(s.label.as_str()).unwrap();
                if dict_contains(&st.dict, e as i64) && st.kind != CpuKind::Ryzen {
                    if st.c_max == 0 {
                        let m = dict_max(&st.dict);
                        st.c_max = (m + 1) as i32;
                    }
                    if (st.c_max as i64) < (threads / 2) as i64 && !dict_contains(&st.dict, e as i64 + st.c_max as i64) {
                        st.dict.push(((e as i64 + st.c_max as i64) as i32, s.current));
                    }
                    return st;
                } else if dict_contains(&st.dict, e as i64) {
                    return st;
                }
                st.dict.push((e, s.current));
                return st;
            } else if st.kind == CpuKind::Intel || st.kind == CpuKind::Ryzen {
                return st;
            }
            if st.kind == CpuKind::Unknown {
                let thermal = str_eq(s.name.as_str(), "cpu_thermal");
                if st.high == 0 || st.swap {
                    st.swap = false;
                    st.high = match s.high { Some(t) => t, None => if thermal { 60 } else { 80 } };
                    st.crit = match s.critical { Some(t) => t, None => if thermal { 80 } else { 95 } };
                }
                st.kind = CpuKind::Other;
                st.temp = s.current;
            }
            st.cores.push(s.current);
            st.num = st.num + 1;
            st
        },
    }
}

/// Walks over the sensors `readings` (`None` for one that could not be
/// read) from the limits and switch the collector has: the package
/// temperature, the core temperatures, and the limits found.
pub fn scan_sensors(readings: &Vec<Option<Sensor>>, s_name: &str, s_label: &str, threads: usize, high: i32, crit: i32, swap: bool) -> (r: SensorScan)
    requires
        threads <= i32::MAX,
        scan_ok(readings@, scan_start(high, crit, swap), s_name@, s_label@, threads as int),
    ensures
        scan_view(r) == scan_fold(readings@, scan_start(high, crit, swap), s_name@, s_label@, threads as int),
{
    let ghost st0 = scan_start(high, crit, swap);
    let mut st = SensorScan {
        temp: 1000,
        cores: Vec::new(),
        dict: Vec::new(),
        c_max: 0,
        kind: CpuKind::Unknown,
        high,
        crit,
        swap,
        num: 1,
    };
    let mut i: usize = 0;
    assert(readings@.take(0) =~= Seq::<Option<Sensor>>::empty());
    assert(scan_view(st) =~= st0);
    while i < readings.len()
        invariant
            i <= readings.len(),
            threads <= i32::MAX,
            scan_ok(readings@, st0, s_name@, s_label@, threads as int),
            scan_view(st) == scan_fold(readings@.take(i as int), st0, s_name@, s_label@, threads as int),
        decreases readings.len() - i,
    {
        proof {
            lemma_scan_ok_prefix(readings@, st0, s_name@, s_label@, threads as int, i as int + 1);
            assert(readings@.take(i + 1).drop_last() =~= readings@.take(i as int));
        }
        st = scan_one(st, &readings[i], s_name, s_label, threads);
        i = i + 1;
    }
    assert(readings@.take(readings.len() as int) =~= readings@);
    st
}

/// A walk that can take all of `rs` can take any start of it.
proof fn lemma_scan_ok_prefix(rs: Seq<Option<Sensor>>, st0: ScanView, s_name: Seq<char>, s_label: Seq<char>, threads: int, n: int)
    requires
        scan_ok(rs, st0, s_name, s_label, threads),
        0 <= n <= rs.len(),
    ensures
        scan_ok(rs.take(n), st0, s_name, s_label, threads),
    decreases rs.len() - n,
{
    if n < rs.len() {
        lemma_scan_ok_prefix(rs, st0, s_name, s_label, threads, n + 1);
        assert(rs.take(n + 1).drop_last() =~= rs.take(n));
    } else {
        assert(rs.take(n) =~= rs);
    }
}

/// What was read of the temperatures, in the way the collector reads them
/// (`None` where reading failed).
pub enum TempReading {
    /// The sensors of the system, `None` for one that could not be read.
    Sensors(Vec<Option<Sensor>>),
    /// The package temperature and the core temperatures from `coretemp`.
    Coretemp(Option<(u32, Vec<u32>)>),
    /// The temperature from `osx-cpu-temp`, rounded.
    OsxCpuTemp(Option<u32>),
    /// The temperature from `vcgencmd`, rounded.
    Vcgencmd(Option<u32>),
    /// Nothing: the way of reading is not known.
    Unknown,
}

/// The histories with figure `v` added to history `i`.
pub open spec fn push_row(rows: Seq<Seq<u32>>, i: int, v: u32) -> Seq<Seq<u32>> {
    rows.update(i, rows[i].push(v))
}

/// Figures `vals` from position `k` on added to histories `start + k`
/// on, as far as there are histories.
pub open spec fn seq_fill(rows: Seq<Seq<u32>>, vals: Seq<u32>, start: int, k: int) -> Seq<Seq<u32>>
    decreases vals.len() - k,
{
    if k >= vals.len() || start + k >= rows.len() || start + k < 0 {
        rows
    } else {
        seq_fill(push_row(rows, start + k, vals[k]), vals, start, k + 1)
    }
}

/// Figures `vals` from position `k` on added to the histories of both
/// threads of each core (`k + 1` and `half + k + 1`), as far as there are
/// histories.
pub open spec fn pair_fill(rows: Seq<Seq<u32>>, vals: Seq<u32>, half: int, k: int) -> Seq<Seq<u32>>
    decreases vals.len() - k,
{
    if k < 0 || k >= vals.len() || k + 1 >= rows.len() || half < 0 {
        rows
    } else {
        let r1 = push_row(rows, k + 1, vals[k]);
        if half + k + 1 >= r1.len() {
            r1
        } else {
            pair_fill(push_row(r1, half + k + 1, vals[k]), vals, half, k + 1)
        }
    }
}

/// The temperature of core number `k` (the first entry for it).
pub open spec fn dict_get(d: Seq<(i32, i32)>, k: int) -> i32
    decreases d.len(),
{
    if d.len() == 0 {
        0
    } else if d[0].0 == k {
        d[0].1
    } else {
        dict_get(d.drop_first(), k)
    }
}

/// The sum of the core temperatures.
pub open spec fn dict_sum(d: Seq<(i32, i32)>) -> int
    decreases d.len(),
{
    if d.len() == 0 { 0 } else { dict_sum(d.drop_last()) + d.last().1 }
}

/// The core temperatures added to the histories of the threads, thread `x`
/// on by the core it runs on (`cm`).
pub open spec fn map_fill(rows: Seq<Seq<u32>>, d: Seq<(i32, i32)>, cm: Seq<i32>, threads: int, x: int) -> Seq<Seq<u32>>
    decreases threads - x,
{
    if x >= threads || x < 0 {
        rows
    } else {
        let r1 = if dict_has(d, cm[x] as int) { push_row(rows, x + 1, dict_get(d, cm[x] as int) as u32) } else { rows };
        map_fill(r1, d, cm, threads, x + 1)
    }
}

/// Whether `map_fill` from thread `x` finds every history it adds to.
pub open spec fn map_ok(len: int, d: Seq<(i32, i32)>, cm: Seq<i32>, threads: int, x: int) -> bool
    decreases threads - x,
{
    if x >= threads || x < 0 {
        true
    } else {
        &&& x < cm.len()
        &&& dict_has(d, cm[x] as int) ==> x + 1 < len
        &&& map_ok(len, d, cm, threads, x + 1)
    }
}

/// The chiplet counted at thread `x`, from chiplet `z`.
pub open spec fn next_ccd(cm: Seq<i32>, cores: int, cpc: int, x: int, z: int) -> int {
    let z1 = if x == cores { 1 } else { z };
    if cm[x] + 1 > cpc * z1 { z1 + 1 } else { z1 }
}

/// The core temperatures added to the histories of the threads for a
/// processor of chiplets (`cpc` cores each), thread `x` on, chiplet `z`
/// counted so far.
pub open spec fn ryzen_fill(rows: Seq<Seq<u32>>, d: Seq<(i32, i32)>, cm: Seq<i32>, threads: int, cores: int, cpc: int, x: int, z: int) -> Seq<Seq<u32>>
    decreases threads - x,
{
    if x >= threads || x < 0 {
        rows
    } else {
        let z2 = next_ccd(cm, cores, cpc, x, z);
        let r1 = if dict_has(d, z2) { push_row(rows, x + 1, dict_get(d, cm[x] as int) as u32) } else { rows };
        ryzen_fill(r1, d, cm, threads, cores, cpc, x + 1, z2)
    }
}

/// Whether `ryzen_fill` from thread `x` stays in `i32` and finds every core
/// and history it reads and adds to.
pub open spec fn ryzen_ok(len: int, d: Seq<(i32, i32)>, cm: Seq<i32>, threads: int, cores: int, cpc: int, x: int, z: int) -> bool
    decreases threads - x,
{
    if x >= threads || x < 0 {
        true
    } else {
        let z1 = if x == cores { 1 } else { z };
        let z2 = next_ccd(cm, cores, cpc, x, z);
        &&& x < cm.len()
        &&& cm[x] + 1 <= i32::MAX
        &&& i32::MIN <= cpc * z1 <= i32::MAX
        &&& z2 <= i32::MAX
        &&& dict_has(d, z2) ==> (dict_has(d, cm[x] as int) && x + 1 < len)
        &&& ryzen_ok(len, d, cm, threads, cores, cpc, x + 1, z2)
    }
}

/// The histories after the empty ones from position `n` to `end` are
/// taken out, one position on after each; `None` where a position lies
/// past the histories left.
pub open spec fn prune(rows: Seq<Seq<u32>>, n: int, end: int) -> Option<Seq<Seq<u32>>>
    decreases end - n,
{
    if n >= end || n < 0 {
        Some(rows)
    } else if n >= rows.len() {
        None
    } else if rows[n].len() == 0 {
        prune(rows.remove(n), n + 1, end)
    } else {
        prune(rows, n + 1, end)
    }
}

/// What a round of reading temperatures changes in the collector.
pub struct TempsView {
    pub rows: Seq<Seq<u32>>,
    pub high: i32,
    pub crit: i32,
    pub swap: bool,
    pub got_sensors: bool,
    pub temp_only: bool,
}

/// The core temperatures as figures.
pub open spec fn as_figures(v: Seq<i32>) -> Seq<u32> {
    Seq::new(v.len(), |i: int| v[i] as u32)
}

/// The sensor name and label that the configuration names: the parts of
/// `cpu_sensor` before and after its first `:`, or none (`_-_`) for
/// `Auto`.
pub open spec fn sensor_parts(cpu_sensor: Seq<char>) -> (Seq<char>, Seq<char>) {
    if cpu_sensor == "Auto"@ {
        ("_-_"@, "_-_"@)
    } else {
        let i = find_first(cpu_sensor, ":"@)->0;
        (cpu_sensor.take(i), cpu_sensor.skip(i + 1))
    }
}

/// The histories after a round over the sensors, before the empty ones are
/// taken out, and the walk over them.
pub open spec fn sensor_rows(rows: Seq<Seq<u32>>, sc: ScanView, threads: int, cores: int, cm: Seq<i32>) -> Seq<Seq<u32>> {
    if sc.dict.len() > 0 {
        let temp: i32 = if sc.temp == 1000 { tdiv(dict_sum(sc.dict), sc.dict.len() as int) as i32 } else { sc.temp };
        let r1 = push_row(rows, 0, temp as u32);
        if sc.kind == CpuKind::Ryzen {
            ryzen_fill(r1, sc.dict, cm, threads, cores, (cores / (sc.dict.len() as int)) as i32 as int, 0, 1)
        } else {
            map_fill(r1, sc.dict, cm, threads, 0)
        }
    } else if sc.cores.len() == threads / 2 {
        pair_fill(push_row(rows, 0, sc.temp as u32), as_figures(sc.cores), threads / 2, 0)
    } else if sc.cores.len() > 1 {
        seq_fill(push_row(rows, 0, sc.temp as u32), as_figures(sc.cores), 1, 0)
    } else {
        push_row(rows, 0, sc.temp as u32)
    }
}

/// The temperature a command read, as the collector keeps it.
pub open spec fn read_temp(t: u32) -> i32 {
    if t > 0 { t as i32 } else { 0 }
}

/// The histories after a round of `coretemp`, before the empty ones are
/// taken out, and the number of core figures it kept.
pub open spec fn coretemp_rows(rows: Seq<Seq<u32>>, p: u32, cs: Seq<u32>, threads: int) -> (Seq<Seq<u32>>, int) {
    let temp = read_temp(p);
    if cs.len() == threads / 2 {
        let r = pair_fill(push_row(rows, 0, temp as u32), cs, threads / 2, 0);
        (if cs.len() == 0 { push_row(r, 0, temp as u32) } else { r }, cs.len() as int)
    } else {
        (seq_fill(rows, seq![temp as u32] + cs, 0, 0), cs.len() + 1int)
    }
}

/// The sum of the sizes of the core temperatures.
pub open spec fn dict_abs_sum(d: Seq<(i32, i32)>) -> int
    decreases d.len(),
{
    if d.len() == 0 { 0 } else { dict_abs_sum(d.drop_last()) + (if d.last().1 < 0 { -d.last().1 } else { d.last().1 as int }) }
}

/// The walk over the sensors of a reading, from the collector's limits.
pub open spec fn scan_of(t: TempsView, rs: Seq<Option<Sensor>>, cpu_sensor: Seq<char>, threads: int) -> ScanView {
    scan_fold(rs, scan_start(t.high, t.crit, t.swap), sensor_parts(cpu_sensor).0, sensor_parts(cpu_sensor).1, threads)
}

/// The histories after a round of reading, before the empty ones are taken
/// out.
pub open spec fn raw_rows(t: TempsView, r: TempReading, cpu_sensor: Seq<char>, threads: int, cores: int, cm: Seq<i32>) -> Seq<Seq<u32>> {
    match r {
        TempReading::Sensors(rs) => sensor_rows(t.rows, scan_of(t, rs@, cpu_sensor, threads), threads, cores, cm),
        TempReading::Coretemp(Some((p, cs))) => coretemp_rows(t.rows, p, cs@, threads).0,
        TempReading::OsxCpuTemp(Some(v)) => push_row(t.rows, 0, read_temp(v) as u32),
        TempReading::Vcgencmd(Some(v)) => push_row(t.rows, 0, read_temp(v) as u32),
        TempReading::Unknown => push_row(t.rows, 0, 1000u32),
        _ => t.rows,
    }
}

/// The collector after a round of reading temperatures, and whether the
/// sensors were lost (the cpu box is then sized anew).
pub open spec fn temps_after(t: TempsView, r: TempReading, cpu_sensor: Seq<char>, threads: int, cores: int, cm: Seq<i32>) -> (TempsView, bool) {
    let rows = pruned(raw_rows(t, r, cpu_sensor, threads, cores, cm));
    match r {
        TempReading::Sensors(rs) => {
            let sc = scan_of(t, rs@, cpu_sensor, threads);
            let (high, crit) = if sc.dict.len() > 0 && (sc.high == 0 || sc.crit == 0) { (80i32, 95i32) } else { (sc.high, sc.crit) };
            let temp_only = t.temp_only || (sc.dict.len() == 0 && sc.cores.len() <= 1);
            (TempsView { rows, high, crit, swap: sc.swap, temp_only, ..t }, false)
        },
        TempReading::Coretemp(Some((p, cs))) => {
            let (high, crit) = if t.high == 0 { (85i32, 100i32) } else { (t.high, t.crit) };
            (TempsView { rows, high, crit, temp_only: t.temp_only || coretemp_rows(t.rows, p, cs@, threads).1 <= 1, ..t }, false)
        },
        TempReading::OsxCpuTemp(Some(v)) => {
            let (high, crit) = if t.high == 0 { (85i32, 100i32) } else { (t.high, t.crit) };
            (TempsView { rows, high, crit, temp_only: true, ..t }, false)
        },
        TempReading::Vcgencmd(Some(v)) => {
            let (high, crit) = if t.high == 0 { (60i32, 80i32) } else { (t.high, t.crit) };
            (TempsView { rows, high, crit, temp_only: true, ..t }, false)
        },
        TempReading::Unknown => (TempsView { rows, temp_only: true, ..t }, false),
        _ => (TempsView { got_sensors: false, ..t }, true),
    }
}

/// Whether a round of reading runs without a failure: the configured
/// sensor names its label after a `:`, the walk over the sensors can take
/// them all, the sum of the core temperatures stays in `i32`, every
/// history that is read or added to is there, a `coretemp` temperature
/// kept with the cores is not negative, and the empty histories can be
/// taken out.
pub open spec fn temps_ok(t: TempsView, r: TempReading, cpu_sensor: Seq<char>, threads: int, cores: int, cm: Seq<i32>) -> bool {
    let failed = match r {
        TempReading::Coretemp(None) => true,
        TempReading::OsxCpuTemp(None) => true,
        TempReading::Vcgencmd(None) => true,
        _ => false,
    };
    failed || {
        &&& t.rows.len() >= 1
        &&& prune_ok(raw_rows(t, r, cpu_sensor, threads, cores, cm))
        &&& match r {
            TempReading::Sensors(rs) => {
                let sc = scan_of(t, rs@, cpu_sensor, threads);
                &&& (cpu_sensor == "Auto"@ || find_first(cpu_sensor, ":"@) is Some)
                &&& scan_ok(rs@, scan_start(t.high, t.crit, t.swap), sensor_parts(cpu_sensor).0, sensor_parts(cpu_sensor).1, threads)
                &&& sc.dict.len() > 0 ==> {
                    &&& (sc.temp == 1000 ==> dict_abs_sum(sc.dict) <= i32::MAX)
                    &&& if sc.kind == CpuKind::Ryzen {
                        ryzen_ok(t.rows.len() as int, sc.dict, cm, threads, cores, (cores / (sc.dict.len() as int)) as i32 as int, 0, 1)
                    } else {
                        map_ok(t.rows.len() as int, sc.dict, cm, threads, 0)
                    }
                }
            },
            TempReading::Coretemp(Some((p, cs))) => cs@.len() != threads / 2 ==> read_temp(p) >= 0,
            _ => true,
        }
    }
}

/// The histories with the empty ones taken out once the first history
/// holds more than five figures.
pub open spec fn pruned(rows: Seq<Seq<u32>>) -> Seq<Seq<u32>> {
    if rows[0].len() > 5 { prune(rows, 0, rows.len() as int)->0 } else { rows }
}

/// Whether the histories can be pruned without a position past their end.
pub open spec fn prune_ok(rows: Seq<Seq<u32>>) -> bool {
    rows[0].len() > 5 ==> prune(rows, 0, rows.len() as int) is Some
}

/// Adds figure `v` to history `i`.
fn push_into(hist: &mut Vec<Vec<u32>>, i: usize, v: u32)
    requires
        i < old(hist)@.len(),
    ensures
        rows(final(hist)@) == push_row(rows(old(hist)@), i as int, v),
        final(hist)@.len() == old(hist)@.len(),
{
    let ghost before = rows(hist@);
    let mut row = hist[i].clone();
    assert(row@ =~= before[i as int]);
    row.push(v);
    hist.set(i, row);
    assert(rows(hist@) =~= push_row(before, i as int, v));
}

/// Adds `vals` to the histories from `start` on (see `seq_fill`).
fn seq_fill_exec(hist: &mut Vec<Vec<u32>>, vals: &Vec<u32>, start: usize)
    ensures
        rows(final(hist)@) == seq_fill(rows(old(hist)@), vals@, start as int, 0),
        final(hist)@.len() == old(hist)@.len(),
{
    let ghost goal = seq_fill(rows(hist@), vals@, start as int, 0);
    let ghost len0 = hist@.len();
    let mut k: usize = 0;
    while k < vals.len() && k < hist.len() && start < hist.len() - k
        invariant
            k <= vals.len(),
            hist@.len() == len0,
            seq_fill(rows(hist@), vals@, start as int, k as int) == goal,
        decreases vals.len() - k,
    {
        push_into(hist, start + k, vals[k]);
        k = k + 1;
    }
}

/// Adds `vals` to the histories of both threads of each core (see
/// `pair_fill`).
fn pair_fill_exec(hist: &mut Vec<Vec<u32>>, vals: &Vec<u32>, half: usize)
    ensures
        rows(final(hist)@) == pair_fill(rows(old(hist)@), vals@, half as int, 0),
        final(hist)@.len() == old(hist)@.len(),
{
    let ghost goal = pair_fill(rows(hist@), vals@, half as int, 0);
    let ghost len0 = hist@.len();
    let mut k: usize = 0;
    loop
        invariant_except_break
            k <= vals.len(),
            pair_fill(rows(hist@), vals@, half as int, k as int) == goal,
        invariant
            hist@.len() == len0,
        ensures
            rows(hist@) == goal,
        decreases vals.len() - k,
    {
        if k >= vals.len() || k + 1 >= hist.len() {
            break;
        }
        push_into(hist, k + 1, vals[k]);
        if half >= hist.len() || k + 1 >= hist.len() - half {
            break;
        }
        push_into(hist, half + k + 1, vals[k]);
        k = k + 1;
    }
}

/// The temperature of core number `k` (see `dict_get`).
fn dict_get_exec(d: &Vec<(i32, i32)>, k: i32) -> (r: i32)
    ensures
        r == dict_get(d@, k as int),
{
    let mut i: usize = 0;
    assert(d@.skip(0) =~= d@);
    while i < d.len()
        invariant
            i <= d.len(),
            dict_get(d@, k as int) == dict_get(d@.skip(i as int), k as int),
        decreases d.len() - i,
    {
        assert(d@.skip(i as int).drop_first() =~= d@.skip(i + 1));
        if d[i].0 == k {
            return d[i].1;
        }
        i = i + 1;
    }
    0
}

/// The sum of a start of the sizes of the core temperatures is at most the
/// sum of them all, and bounds the sum of that start.
proof fn lemma_abs_sum(d: Seq<(i32, i32)>, i: int)
    requires
        0 <= i <= d.len(),
    ensures
        dict_abs_sum(d.take(i)) <= dict_abs_sum(d),
        -dict_abs_sum(d.take(i)) <= dict_sum(d.take(i)) <= dict_abs_sum(d.take(i)),
    decreases d.len() - i,
{
    if i < d.len() {
        lemma_abs_sum(d, i + 1);
        assert(d.take(i + 1).drop_last() =~= d.take(i));
        lemma_abs_sum_bound(d.take(i));
    } else {
        assert(d.take(i) =~= d);
        lemma_abs_sum_bound(d);
    }
}

/// The sum of the core temperatures lies within the sum of their sizes.
proof fn lemma_abs_sum_bound(d: Seq<(i32, i32)>)
    ensures
        -dict_abs_sum(d) <= dict_sum(d) <= dict_abs_sum(d),
    decreases d.len(),
{
    if d.len() > 0 {
        lemma_abs_sum_bound(d.drop_last());
    }
}

/// The sum of the core temperatures, which stays in `i32` in any order.
fn dict_sum_exec(d: &Vec<(i32, i32)>) -> (r: i64)
    requires
        dict_abs_sum(d@) <= i32::MAX,
    ensures
        r == dict_sum(d@),
{
    let mut s: i64 = 0;
    let mut i: usize = 0;
    assert(d@.take(0) =~= Seq::<(i32, i32)>::empty());
    while i < d.len()
        invariant
            i <= d.len(),
            dict_abs_sum(d@) <= i32::MAX,
            s == dict_sum(d@.take(i as int)),
        decreases d.len() - i,
    {
        proof {
            lemma_abs_sum(d@, i + 1);
            assert(d@.take(i + 1).drop_last() =~= d@.take(i as int));
        }
        s = s + d[i].1 as i64;
        i = i + 1;
    }
    assert(d@.take(d.len() as int) =~= d@);
    s
}

/// Adds the core temperatures to the histories of the threads (see
/// `map_fill`).
fn map_fill_exec(hist: &mut Vec<Vec<u32>>, d: &Vec<(i32, i32)>, cm: &Vec<i32>, threads: usize)
    requires
        map_ok(old(hist)@.len() as int, d@, cm@, threads as int, 0),
    ensures
        rows(final(hist)@) == map_fill(rows(old(hist)@), d@, cm@, threads as int, 0),
        final(hist)@.len() == old(hist)@.len(),
{
    let ghost goal = map_fill(rows(hist@), d@, cm@, threads as int, 0);
    let ghost len0 = hist@.len();
    let mut x: usize = 0;
    while x < threads
        invariant
            x <= threads,
            hist@.len() == len0,
            map_ok(len0 as int, d@, cm@, threads as int, x as int),
            map_fill(rows(hist@), d@, cm@, threads as int, x as int) == goal,
        decreases threads - x,
    {
        let c = cm[x];
        if dict_contains(d, c as i64) {
            let t = dict_get_exec(d, c);
            push_into(hist, x + 1, #[verifier::truncate] (t as u32));
        }
        x = x + 1;
    }
}

/// Adds the core temperatures to the histories of the threads of a
/// processor of chiplets (see `ryzen_fill`).
fn ryzen_fill_exec(hist: &mut Vec<Vec<u32>>, d: &Vec<(i32, i32)>, cm: &Vec<i32>, threads: usize, cores: u64, cpc: i32)
    requires
        ryzen_ok(old(hist)@.len() as int, d@, cm@, threads as int, cores as int, cpc as int, 0, 1),
    ensures
        rows(final(hist)@) == ryzen_fill(rows(old(hist)@), d@, cm@, threads as int, cores as int, cpc as int, 0, 1),
        final(hist)@.len() == old(hist)@.len(),
{
    let ghost goal = ryzen_fill(rows(hist@), d@, cm@, threads as int, cores as int, cpc as int, 0, 1);
    let ghost len0 = hist@.len();
    let mut x: usize = 0;
    let mut z: i32 = 1;
    while x < threads
        invariant
            x <= threads,
            hist@.len() == len0,
            ryzen_ok(len0 as int, d@, cm@, threads as int, cores as int, cpc as int, x as int, z as int),
            ryzen_fill(rows(hist@), d@, cm@, threads as int, cores as int, cpc as int, x as int, z as int) == goal,
        decreases threads - x,
    {
        if x as u64 == cores {
            z = 1;
        }
        if cm[x] + 1 > cpc * z {
            z = z + 1;
        }
        if dict_contains(d, z as i64) {
            let t = dict_get_exec(d, cm[x]);
            push_into(hist, x + 1, #[verifier::truncate] (t as u32));
        }
        x = x + 1;
    }
}

/// Takes out the empty histories once the first holds more than five
/// figures (see `pruned`).
fn prune_exec(hist: &mut Vec<Vec<u32>>)
    requires
        old(hist)@.len() >= 1,
        prune_ok(rows(old(hist)@)),
    ensures
        rows(final(hist)@) == pruned(rows(old(hist)@)),
{
    if hist[0].len() > 5 {
        let ghost goal = prune(rows(hist@), 0, hist@.len() as int);
        let end = hist.len();
        let mut n: usize = 0;
        while n < end
            invariant
                n <= end,
                goal is Some,
                prune(rows(hist@), n as int, end as int) == goal,
            decreases end - n,
        {
            if hist[n].len() == 0 {
                let ghost before = rows(hist@);
                hist.remove(n);
                assert(rows(hist@) =~= before.remove(n as int));
            }
            n = n + 1;
        }
    }
}

/// The core temperatures as figures.
fn figures(v: &Vec<i32>) -> (r: Vec<u32>)
    ensures
        r@ == as_figures(v@),
{
    let mut r: Vec<u32> = Vec::new();
    let mut i: usize = 0;
    while i < v.len()
        invariant
            i <= v.len(),
            r@ == as_figures(v@).take(i as int),
        decreases v.len() - i,
    {
        r.push(#[verifier::truncate] (v[i] as u32));
        i = i + 1;
        assert(r@ =~= as_figures(v@).take(i as int));
    }
    assert(as_figures(v@).take(v.len() as int) =~= as_figures(v@));
    r
}

/// The sensor name and label the configuration names (see
/// `sensor_parts`).
fn sensor_names(cpu_sensor: &str) -> (r: (String, String))
    requires
        cpu_sensor@ == "Auto"@ || find_first(cpu_sensor@, ":"@) is Some,
    ensures
        (r.0@, r.1@) == sensor_parts(cpu_sensor@),
{
    if str_eq(cpu_sensor, "Auto") {
        return (owned("_-_"), owned("_-_"));
    }
    let v = chars_of(cpu_sensor);
    let colon = chars_of(":");
    let i = find_chars(&v, &colon).unwrap();
    proof {
        reveal_strlit(":");
    }
    let name = string_of(&slice_chars(&v, 0, i));
    let label = string_of(&slice_chars(&v, i + 1, v.len()));
    assert(name@ =~= cpu_sensor@.take(i as int));
    assert(label@ =~= cpu_sensor@.skip(i + 1));
    (name, label)
}

/// The histories after the walk over the sensors (see `sensor_rows`).
#[verifier::rlimit(40)]
fn apply_scan(hist: &mut Vec<Vec<u32>>, sc: &SensorScan, threads: usize, cores: u64, cm: &Vec<i32>)
    requires
        old(hist)@.len() >= 1,
        sc.dict@.len() > 0 ==> {
            &&& (sc.temp == 1000 ==> dict_abs_sum(sc.dict@) <= i32::MAX)
            &&& if sc.kind == CpuKind::Ryzen {
                ryzen_ok(old(hist)@.len() as int, sc.dict@, cm@, threads as int, cores as int, (cores as int / (sc.dict@.len() as int)) as i32 as int, 0, 1)
            } else {
                map_ok(old(hist)@.len() as int, sc.dict@, cm@, threads as int, 0)
            }
        },
    ensures
        rows(final(hist)@) == sensor_rows(rows(old(hist)@), scan_view(*sc), threads as int, cores as int, cm@),
        final(hist)@.len() == old(hist)@.len(),
{
    if sc.dict.len() > 0 {
        let temp: i32 = if sc.temp == 1000 {
            let s = dict_sum_exec(&sc.dict);
            proof {
                lemma_abs_sum_bound(sc.dict@);
            }
            let a: u64 = if s >= 0 { s as u64 } else { (-s) as u64 };
            let q: u64 = a / (sc.dict.len() as u64);
            assert(q <= a) by (nonlinear_arith)
                requires
                    q == a / (sc.dict.len() as u64),
                    sc.dict.len() > 0;
            if s >= 0 { q as i32 } else { -(q as i32) }
        } else {
            sc.temp
        };
        push_into(hist, 0, #[verifier::truncate] (temp as u32));
        if sc.kind == CpuKind::Ryzen {
            let cpc: i32 = #[verifier::truncate] ((cores / (sc.dict.len() as u64)) as i32);
            ryzen_fill_exec(hist, &sc.dict, cm, threads, cores, cpc);
        } else {
            map_fill_exec(hist, &sc.dict, cm, threads);
        }
    } else if sc.cores.len() == threads / 2 {
        push_into(hist, 0, #[verifier::truncate] (sc.temp as u32));
        pair_fill_exec(hist, &figures(&sc.cores), threads / 2);
    } else if sc.cores.len() > 1 {
        push_into(hist, 0, #[verifier::truncate] (sc.temp as u32));
        seq_fill_exec(hist, &figures(&sc.cores), 1);
    } else {
        push_into(hist, 0, #[verifier::truncate] (sc.temp as u32));
    }
}

/// The histories after a round of `coretemp` (see `coretemp_rows`), and
/// whether it kept at most one core figure.
fn apply_coretemp(hist: &mut Vec<Vec<u32>>, p: u32, cs: &Vec<u32>, threads: usize) -> (few: bool)
    requires
        old(hist)@.len() >= 1,
        cs@.len() != threads / 2 ==> read_temp(p) >= 0,
    ensures
        rows(final(hist)@) == coretemp_rows(rows(old(hist)@), p, cs@, threads as int).0,
        few == (coretemp_rows(rows(old(hist)@), p, cs@, threads as int).1 <= 1),
        final(hist)@.len() == old(hist)@.len(),
{
    let temp: i32 = if p > 0 { #[verifier::truncate] (p as i32) } else { 0 };
    if cs.len() == threads / 2 {
        push_into(hist, 0, #[verifier::truncate] (temp as u32));
        pair_fill_exec(hist, cs, threads / 2);
        if cs.len() == 0 {
            push_into(hist, 0, #[verifier::truncate] (temp as u32));
        }
        cs.len() <= 1
    } else {
        let mut vals: Vec<u32> = Vec::new();
        vals.push(#[verifier::truncate] (temp as u32));
        let mut i: usize = 0;
        while i < cs.len()
            invariant
                i <= cs.len(),
                vals@ == seq![temp as u32] + cs@.take(i as int),
            decreases cs.len() - i,
        {
            vals.push(cs[i]);
            i = i + 1;
            assert(vals@ =~= seq![temp as u32] + cs@.take(i as int));
        }
        assert(cs@.take(cs.len() as int) =~= cs@);
        seq_fill_exec(hist, &vals, 0);
        cs.len() == 0
    }
}

/// The plain values that a round of reading temperatures changes.
pub open spec fn temps_of(c: CpuCollector) -> TempsView {
    TempsView {
        rows: rows(c.cpu_temp@),
        high: c.cpu_temp_high,
        crit: c.cpu_temp_crit,
        swap: c.sensor_swap,
        got_sensors: c.got_sensors,
        temp_only: c.cpu_temp_only,
    }
}

/// The figures of the processor collector.
pub struct CpuCollector {
    pub cpu_usage: Vec<Vec<u32>>,
    pub cpu_temp: Vec<Vec<u32>>,
    pub cpu_temp_high: i32,
    pub cpu_temp_crit: i32,
    pub freq_error: bool,
    pub uptime: String,
    pub buffer: String,
    pub sensor_method: String,
    pub got_sensors: bool,
    pub sensor_swap: bool,
    pub cpu_temp_only: bool,
}

impl CpuCollector {
    /// A collector with an empty usage and temperature history for the
    /// whole processor and for each of its `threads` threads, and nothing
    /// else known yet.
    pub fn new(threads: usize) -> (c: Self)
        requires
            threads < usize::MAX,
        ensures
            rows(c.cpu_usage@) == Seq::new((threads + 1) as nat, |i: int| Seq::<u32>::empty()),
            rows(c.cpu_temp@) == Seq::new((threads + 1) as nat, |i: int| Seq::<u32>::empty()),
            c.cpu_temp_high == 0,
            c.cpu_temp_crit == 0,
            !c.freq_error,
            c.uptime@.len() == 0,
            c.buffer@.len() == 0,
            c.sensor_method@.len() == 0,
            !c.got_sensors,
            !c.sensor_swap,
            !c.cpu_temp_only,
    {
        let mut cpu_usage: Vec<Vec<u32>> = Vec::new();
        let mut cpu_temp: Vec<Vec<u32>> = Vec::new();
        let mut i: usize = 0;
        while i < threads + 1
            invariant
                i <= threads + 1,
                threads < usize::MAX,
                cpu_usage@.len() == i,
                cpu_temp@.len() == i,
                forall|j: int| 0 <= j < i ==> #[trigger] cpu_usage@[j]@ == Seq::<u32>::empty(),
                forall|j: int| 0 <= j < i ==> #[trigger] cpu_temp@[j]@ == Seq::<u32>::empty(),
            decreases threads + 1 - i,
        {
            let a: Vec<u32> = Vec::new();
            let b: Vec<u32> = Vec::new();
            cpu_usage.push(a);
            cpu_temp.push(b);
            i = i + 1;
        }
        assert(rows(cpu_usage@) =~= Seq::new((threads + 1) as nat, |j: int| Seq::<u32>::empty()));
        assert(rows(cpu_temp@) =~= Seq::new((threads + 1) as nat, |j: int| Seq::<u32>::empty()));
        proof {
            reveal_strlit("");
        }
        CpuCollector {
            cpu_usage,
            cpu_temp,
            cpu_temp_high: 0,
            cpu_temp_crit: 0,
            freq_error: false,
            uptime: owned(""),
            buffer: owned(""),
            sensor_method: owned(""),
            got_sensors: false,
            sensor_swap: false,
            cpu_temp_only: false,
        }
    }

    /// Takes in a round of temperatures, read in the way `sensor_method`
    /// names, with the sensor `cpu_sensor` names (`Auto` for any), for
    /// `threads` hardware threads on `cores` cores, thread `x` on core
    /// `core_map[x]`: the limits and histories change as `temps_after`
    /// says. Returns whether the sensors were lost (reading failed), when
    /// the cpu box is to be sized anew.
    pub fn collect_temps(&mut self, reading: TempReading, cpu_sensor: &str, threads: usize, cores: u64, core_map: &Vec<i32>) -> (lost: bool)
        requires
            threads <= i32::MAX,
            temps_ok(temps_of(*old(self)), reading, cpu_sensor@, threads as int, cores as int, core_map@),
        ensures
            ({
                let (t, l) = temps_after(temps_of(*old(self)), reading, cpu_sensor@, threads as int, cores as int, core_map@);
                &&& rows(final(self).cpu_temp@) == t.rows
                &&& *final(self) == (CpuCollector {
                    cpu_temp: final(self).cpu_temp,
                    cpu_temp_high: t.high,
                    cpu_temp_crit: t.crit,
                    sensor_swap: t.swap,
                    got_sensors: t.got_sensors,
                    cpu_temp_only: t.temp_only,
                    ..*old(self)
                })
                &&& lost == l
            }),
    {
        let ghost t0 = temps_of(*self);
        match reading {
            TempReading::Sensors(rs) => {
                let (s_name, s_label) = sensor_names(cpu_sensor);
                let sc = scan_sensors(&rs, s_name.as_str(), s_label.as_str(), threads, self.cpu_temp_high, self.cpu_temp_crit, self.sensor_swap);
                self.cpu_temp_high = sc.high;
                self.cpu_temp_crit = sc.crit;
                self.sensor_swap = sc.swap;
                if sc.dict.len() > 0 && (sc.high == 0 || sc.crit == 0) {
                    self.cpu_temp_high = 80;
                    self.cpu_temp_crit = 95;
                }
                apply_scan(&mut self.cpu_temp, &sc, threads, cores, core_map);
                if sc.dict.len() == 0 && sc.cores.len() <= 1 {
                    self.cpu_temp_only = true;
                }
                prune_exec(&mut self.cpu_temp);
                false
            },
            TempReading::Coretemp(Some((p, cs))) => {
                let few = apply_coretemp(&mut self.cpu_temp, p, &cs, threads);
                if few {
                    self.cpu_temp_only = true;
                }
                if self.cpu_temp_high == 0 {
                    self.cpu_temp_high = 85;
                    self.cpu_temp_crit = 100;
                }
                prune_exec(&mut self.cpu_temp);
                false
            },
            TempReading::OsxCpuTemp(Some(v)) => {
                let temp: i32 = if v > 0 { #[verifier::truncate] (v as i32) } else { 0 };
                if self.cpu_temp_high == 0 {
                    self.cpu_temp_high = 85;
                    self.cpu_temp_crit = 100;
                }
                push_into(&mut self.cpu_temp, 0, #[verifier::truncate] (temp as u32));
                self.cpu_temp_only = true;
                prune_exec(&mut self.cpu_temp);
                false
            },
            TempReading::Vcgencmd(Some(v)) => {
                let temp: i32 = if v > 0 { #[verifier::truncate] (v as i32) } else { 0 };
                if self.cpu_temp_high == 0 {
                    self.cpu_temp_high = 60;
                    self.cpu_temp_crit = 80;
                }
                push_into(&mut self.cpu_temp, 0, #[verifier::truncate] (temp as u32));
                self.cpu_temp_only = true;
                prune_exec(&mut self.cpu_temp);
                false
            },
            TempReading::Unknown => {
                push_into(&mut self.cpu_temp, 0, 1000);
                self.cpu_temp_only = true;
                prune_exec(&mut self.cpu_temp);
                false
            },
            _ => {
                self.got_sensors = false;
                true
            },
        }
    }

    /// A copy of the usage histories.
    pub fn get_cpu_usage(&self) -> (r: Vec<Vec<u32>>)
        ensures
            rows(r@) == rows(self.cpu_usage@),
    {
        dup_rows(&self.cpu_usage)
    }

    /// Replaces the usage histories.
    pub fn set_cpu_usage(&mut self, cpu_usage: Vec<Vec<u32>>)
        ensures
            *final(self) == (CpuCollector { cpu_usage: final(self).cpu_usage, ..*old(self) }),
            final(self).cpu_usage@ == cpu_usage@,
    {
        self.cpu_usage = cpu_usage;
    }

    /// A copy of usage history `index`, if there is one.
    pub fn get_cpu_usage_index(&self, index: usize) -> (r: Option<Vec<u32>>)
        ensures
            r is None <==> index >= self.cpu_usage@.len(),
            r matches Some(v) ==> v@ == self.cpu_usage@[index as int]@,
    {
        if index < self.cpu_usage.len() {
            let v = self.cpu_usage[index].clone();
            assert(v@ =~= self.cpu_usage@[index as int]@);
            Some(v)
        } else {
            None
        }
    }

    /// Sets usage history `index` to `element`, or adds `element` at the
    /// end where there is no history `index`.
    pub fn set_cpu_usage_index(&mut self, index: usize, element: Vec<u32>)
        ensures
            *final(self) == (CpuCollector { cpu_usage: final(self).cpu_usage, ..*old(self) }),
            rows(final(self).cpu_usage@) == row_set(rows(old(self).cpu_usage@), index as int, element@),
    {
        rows_set(&mut self.cpu_usage, index, element);
    }

    /// Figure `index2` of usage history `index1`, if there is one.
    pub fn get_cpu_usage_inner_index(&self, index1: usize, index2: usize) -> (r: Option<u32>)
        ensures
            r == (if index1 < self.cpu_usage@.len() && index2 < self.cpu_usage@[index1 as int]@.len() {
                Some(self.cpu_usage@[index1 as int]@[index2 as int])
            } else {
                None
            }),
    {
        rows_get_inner(&self.cpu_usage, index1, index2)
    }

    /// Adds figure `element` to usage history `index1` when `index2` is not
    /// past its end (see `row_with`).
    pub fn set_cpu_usage_inner_index(&mut self, index1: usize, index2: usize, element: u32)
        ensures
            *final(self) == (CpuCollector { cpu_usage: final(self).cpu_usage, ..*old(self) }),
            rows(final(self).cpu_usage@) == row_set(
                rows(old(self).cpu_usage@),
                index1 as int,
                row_with(rows(old(self).cpu_usage@), index1 as int, index2 as int, element),
            ),
    {
        rows_set_inner(&mut self.cpu_usage, index1, index2, element);
    }

    /// A copy of the temperature histories.
    pub fn get_cpu_temp(&self) -> (r: Vec<Vec<u32>>)
        ensures
            rows(r@) == rows(self.cpu_temp@),
    {
        dup_rows(&self.cpu_temp)
    }

    /// Replaces the temperature histories.
    pub fn set_cpu_temp(&mut self, cpu_temp: Vec<Vec<u32>>)
        ensures
            *final(self) == (CpuCollector { cpu_temp: final(self).cpu_temp, ..*old(self) }),
            final(self).cpu_temp@ == cpu_temp@,
    {
        self.cpu_temp = cpu_temp;
    }

    /// A copy of temperature history `index`, if there is one.
    pub fn get_cpu_temp_index(&self, index: usize) -> (r: Option<Vec<u32>>)
        ensures
            r is None <==> index >= self.cpu_temp@.len(),
            r matches Some(v) ==> v@ == self.cpu_temp@[index as int]@,
    {
        if index < self.cpu_temp.len() {
            let v = self.cpu_temp[index].clone();
            assert(v@ =~= self.cpu_temp@[index as int]@);
            Some(v)
        } else {
            None
        }
    }

    /// Sets temperature history `index` to `element`, or adds `element` at the
    /// end where there is no history `index`.
    pub fn set_cpu_temp_index(&mut self, index: usize, element: Vec<u32>)
        ensures
            *final(self) == (CpuCollector { cpu_temp: final(self).cpu_temp, ..*old(self) }),
            rows(final(self).cpu_temp@) == row_set(rows(old(self).cpu_temp@), index as int, element@),
    {
        rows_set(&mut self.cpu_temp, index, element);
    }

    /// Figure `index2` of temperature history `index1`, if there is one.
    pub fn get_cpu_temp_inner_index(&self, index1: usize, index2: usize) -> (r: Option<u32>)
        ensures
            r == (if index1 < self.cpu_temp@.len() && index2 < self.cpu_temp@[index1 as int]@.len() {
                Some(self.cpu_temp@[index1 as int]@[index2 as int])
            } else {
                None
            }),
    {
        rows_get_inner(&self.cpu_temp, index1, index2)
    }

    /// Adds figure `element` to temperature history `index1` when `index2` is not
    /// past its end (see `row_with`).
    pub fn set_cpu_temp_inner_index(&mut self, index1: usize, index2: usize, element: u32)
        ensures
            *final(self) == (CpuCollector { cpu_temp: final(self).cpu_temp, ..*old(self) }),
            rows(final(self).cpu_temp@) == row_set(
                rows(old(self).cpu_temp@),
                index1 as int,
                row_with(rows(old(self).cpu_temp@), index1 as int, index2 as int, element),
            ),
    {
        rows_set_inner(&mut self.cpu_temp, index1, index2, element);
    }

    /// The temperature counted as high.
    pub fn get_cpu_temp_high(&self) -> (r: i32)
        ensures
            r == self.cpu_temp_high,
    {
        self.cpu_temp_high
    }

    /// Sets the temperature counted as high.
    pub fn set_cpu_temp_high(&mut self, cpu_temp_high: i32)
        ensures
            *final(self) == (CpuCollector { cpu_temp_high: final(self).cpu_temp_high, ..*old(self) }),
            final(self).cpu_temp_high == cpu_temp_high,
    {
        self.cpu_temp_high = cpu_temp_high;
    }

    /// The temperature counted as critical.
    pub fn get_cpu_temp_crit(&self) -> (r: i32)
        ensures
            r == self.cpu_temp_crit,
    {
        self.cpu_temp_crit
    }

    /// Sets the temperature counted as critical.
    pub fn set_cpu_temp_crit(&mut self, cpu_temp_crit: i32)
        ensures
            *final(self) == (CpuCollector { cpu_temp_crit: final(self).cpu_temp_crit, ..*old(self) }),
            final(self).cpu_temp_crit == cpu_temp_crit,
    {
        self.cpu_temp_crit = cpu_temp_crit;
    }

    /// Whether reading the frequency failed.
    pub fn get_freq_error(&self) -> (r: bool)
        ensures
            r == self.freq_error,
    {
        self.freq_error
    }

    /// Sets whether reading the frequency failed.
    pub fn set_freq_error(&mut self, freq_error: bool)
        ensures
            *final(self) == (CpuCollector { freq_error: final(self).freq_error, ..*old(self) }),
            final(self).freq_error == freq_error,
    {
        self.freq_error = freq_error;
    }

    /// The uptime text.
    pub fn get_uptime(&self) -> (r: String)
        ensures
            r@ == self.uptime@,
    {
        self.uptime.clone()
    }

    /// Sets the uptime text.
    pub fn set_uptime(&mut self, uptime: String)
        ensures
            *final(self) == (CpuCollector { uptime: final(self).uptime, ..*old(self) }),
            final(self).uptime@ == uptime@,
    {
        self.uptime = uptime;
    }

    /// The name of the draw buffer.
    pub fn get_buffer(&self) -> (r: String)
        ensures
            r@ == self.buffer@,
    {
        self.buffer.clone()
    }

    /// Sets the name of the draw buffer.
    pub fn set_buffer(&mut self, buffer: String)
        ensures
            *final(self) == (CpuCollector { buffer: final(self).buffer, ..*old(self) }),
            final(self).buffer@ == buffer@,
    {
        self.buffer = buffer;
    }

    /// The way temperatures are read.
    pub fn get_sensor_method(&self) -> (r: String)
        ensures
            r@ == self.sensor_method@,
    {
        self.sensor_method.clone()
    }

    /// Sets the way temperatures are read.
    pub fn set_sensor_method(&mut self, sensor_method: String)
        ensures
            *final(self) == (CpuCollector { sensor_method: final(self).sensor_method, ..*old(self) }),
            final(self).sensor_method@ == sensor_method@,
    {
        self.sensor_method = sensor_method;
    }

    /// Whether temperatures can be read.
    pub fn get_got_sensors(&self) -> (r: bool)
        ensures
            r == self.got_sensors,
    {
        self.got_sensors
    }

    /// Sets whether temperatures can be read.
    pub fn set_got_sensors(&mut self, got_sensors: bool)
        ensures
            *final(self) == (CpuCollector { got_sensors: final(self).got_sensors, ..*old(self) }),
            final(self).got_sensors == got_sensors,
    {
        self.got_sensors = got_sensors;
    }

    /// Whether the sensor choice changed.
    pub fn get_sensor_swap(&self) -> (r: bool)
        ensures
            r == self.sensor_swap,
    {
        self.sensor_swap
    }

    /// Sets whether the sensor choice changed.
    pub fn set_sensor_swap(&mut self, sensor_swap: bool)
        ensures
            *final(self) == (CpuCollector { sensor_swap: final(self).sensor_swap, ..*old(self) }),
            final(self).sensor_swap == sensor_swap,
    {
        self.sensor_swap = sensor_swap;
    }

    /// Whether only the package temperature is known.
    pub fn get_cpu_temp_only(&self) -> (r: bool)
        ensures
            r == self.cpu_temp_only,
    {
        self.cpu_temp_only
    }

    /// Sets whether only the package temperature is known.
    pub fn set_cpu_temp_only(&mut self, cpu_temp_only: bool)
        ensures
            *final(self) == (CpuCollector { cpu_temp_only: final(self).cpu_temp_only, ..*old(self) }),
            final(self).cpu_temp_only == cpu_temp_only,
    {
        self.cpu_temp_only = cpu_temp_only;
    }

}

} // verus!

//! Reading the configuration file: each line is trimmed; a `#? Config`
//! line gives the file's version, and a line that starts with a key gives
//! that key's item. Some values are checked once every line is read.
use vstd::prelude::*;
use lenient_bool::LenientBool;
use crate::config::{ViewMode, LogLevel, SortingOption, ConfigItem, ItemView, sorting_of, log_level_of, view_mode_of, unknown_value_message,
    str_debug, debug_text, same_text};
use crate::strmap::{StrMap, Dup};
use crate::settings::Config;
use crate::brshtop_box::views;
use crate::text::{chars_of, string_of, owned, push_str, parse_i64, parse_i64_chars, has_prefix, starts_with, dec, u64_dec};
use crate::scan::{trim, trim_chars, find_first, find_chars, utf8_len, utf8_len_capped, remove_all,
    remove_all_chars, unquoted, unquote_chars, contains_text, contains_chars};

verus! {

/// Whether `c` is numeric, as `char::is_numeric` tells (Unicode general
/// categories `Nd`, `Nl` and `No`).
pub uninterp spec fn char_numeric(c: char) -> bool;

/// `char::is_numeric`. The contract names the result, and states what the
/// Unicode categories give for ASCII: the digits are numeric, no other
/// ASCII character is.
#[verifier::external_body]
fn numeric(c: char) -> (r: bool)
    ensures
        r == char_numeric(c),
        '0' <= c <= '9' ==> r,
        (c as u32) < 0x80 && !('0' <= c <= '9') ==> !r,
{
    c.is_numeric()
}

/// `c` in lower case when it is an ASCII capital letter.
pub open spec fn ascii_lower(c: char) -> char {
    if 'A' <= c <= 'Z' {
        ((c as u32) + 32) as char
    } else {
        c
    }
}

/// Whether `s` equals the lower-case ASCII text `t` when ASCII case is
/// ignored (`str::eq_ignore_ascii_case`).
pub open spec fn same_ignoring_case(s: Seq<char>, t: Seq<char>) -> bool {
    s.len() == t.len() && forall|i: int| 0 <= i < s.len() ==> ascii_lower(s[i]) == t[i]
}

/// The truth value that `LenientBool` reads from `s`: `true`, `t`, `yes`
/// and `y` in any ASCII case, and `1`, give true; `false`, `f`, `no` and
/// `n` in any case, and `0`, give false; any other text gives none.
pub open spec fn lenient_value(s: Seq<char>) -> Option<bool> {
    if same_ignoring_case(s, "true"@) || same_ignoring_case(s, "t"@) || same_ignoring_case(s, "yes"@)
        || same_ignoring_case(s, "y"@) || s == "1"@ {
        Some(true)
    } else if same_ignoring_case(s, "false"@) || same_ignoring_case(s, "f"@) || same_ignoring_case(s, "no"@)
        || same_ignoring_case(s, "n"@) || s == "0"@ {
        Some(false)
    } else {
        None
    }
}

/// `<LenientBool as FromStr>::from_str`, as `lenient_value` states it.
#[verifier::external_body]
fn lenient(s: &str) -> (r: Option<bool>)
    ensures
        r == lenient_value(s@),
{
    match s.parse::<LenientBool>() {
        Ok(b) => Some(b.into()),
        Err(_) => None,
    }
}

/// Whether every character of `s` is numeric.
pub open spec fn all_numeric(s: Seq<char>) -> bool {
    forall|i: int| 0 <= i < s.len() ==> char_numeric(s[i])
}

/// The items read so far, by their views, and the warnings given so far.
#[verifier::ext_equal]
pub struct LoadState {
    pub items: Map<Seq<char>, ItemView>,
    pub warnings: Seq<Seq<char>>,
}

/// The items of a table, by their views.
pub open spec fn item_views(m: Map<Seq<char>, ConfigItem>) -> Map<Seq<char>, ItemView> {
    m.map_values(|i: ConfigItem| i@)
}

/// The state that a table of items and a list of warnings stand for.
pub open spec fn state_of(items: &StrMap<ConfigItem>, warnings: &Vec<String>) -> LoadState {
    LoadState { items: item_views(items@), warnings: views(&warnings@) }
}

/// `st` with `item` recorded under `key`.
pub open spec fn put(st: LoadState, key: Seq<char>, item: ItemView) -> LoadState {
    LoadState { items: st.items.insert(key, item), ..st }
}

/// `st` with warning `w` added.
pub open spec fn warn(st: LoadState, w: Seq<char>) -> LoadState {
    LoadState { warnings: st.warnings.push(w), ..st }
}

/// The warning for a value of `key` that is no integer.
pub open spec fn integer_warning(key: Seq<char>, value: Seq<char>) -> Seq<char> {
    "Config key "@ + str_debug(key) + " should be an integer (was "@ + str_debug(value) + ")!"@
}

/// The value that a line starting with `key` gives: the line with every
/// `key=` taken out, and without its double quotes when it starts with one.
pub open spec fn value_after(key: Seq<char>, t: Seq<char>) -> Seq<char> {
    let l1 = remove_all(t, key + "="@);
    if l1.len() > 0 && l1[0] == '"' {
        unquoted(l1)
    } else {
        l1
    }
}

/// What the keys whose values name an option make of a value: the option,
/// or the message for an unknown one; `None` for the other keys.
pub open spec fn converted(key: Seq<char>, v: Seq<char>) -> Option<Result<ItemView, Seq<char>>> {
    if key == "proc_sorting"@ {
        Some(match sorting_of(v) {
            Some(o) => Ok(ItemView::SortingOption(o)),
            None => Err(unknown_value_message("proc_sorted"@, v)),
        })
    } else if key == "log_level"@ {
        Some(match log_level_of(v) {
            Some(l) => Ok(ItemView::LogLevel(l)),
            None => Err(unknown_value_message("log_level"@, v)),
        })
    } else if key == "view_mode"@ {
        Some(match view_mode_of(v) {
            Some(m) => Ok(ItemView::ViewMode(m)),
            None => Err(unknown_value_message("view_mode"@, v)),
        })
    } else {
        None
    }
}

/// What a trimmed line `t` gives for `key`, when it starts with the key.
/// A value with a character that is not numeric must be an integer (else
/// a warning), and an `update_ms` under 100 is raised to 100 with a
/// warning; a value of numeric characters is a truth value when it reads
/// as one, else a string.
pub open spec fn key_step(key: Seq<char>, st: LoadState, t: Seq<char>) -> LoadState {
    if !has_prefix(t, key) {
        st
    } else {
        let v = value_after(key, t);
        match converted(key, v) {
            Some(Ok(item)) => put(st, key, item),
            Some(Err(msg)) => warn(put(st, key, ItemView::Error), msg),
            None => if !all_numeric(v) {
                match parse_i64(v) {
                    None => warn(st, integer_warning(key, v)),
                    Some(i) => if key == "update_ms"@ && i < 100 {
                        warn(put(st, key, ItemView::Int(100)), "Config key \"update_ms\" can't be lower than 100!"@)
                    } else {
                        put(st, key, ItemView::Int(i))
                    },
                }
            } else {
                match lenient_value(v) {
                    Some(b) => put(st, key, ItemView::Bool(b)),
                    None => put(st, key, ItemView::Str(v)),
                }
            },
        }
    }
}

/// What a trimmed line gives for each key in turn.
#[verifier::opaque]
pub open spec fn keys_step(keys: Seq<Seq<char>>, st: LoadState, t: Seq<char>) -> LoadState
    decreases keys.len(),
{
    if keys.len() == 0 {
        st
    } else {
        key_step(keys.last(), keys_step(keys.drop_last(), st, t), t)
    }
}

/// The version that a `#? Config` line names: what follows `v. `, counted
/// as the line's byte offset of `v. ` plus three characters in.
pub open spec fn version_of(t: Seq<char>, k: int) -> Seq<char> {
    let n = utf8_len(t.take(k)) + 3;
    if n < t.len() {
        t.skip(n)
    } else {
        Seq::empty()
    }
}

/// What one line gives; `None` for a `#? Config` line without `v. `.
pub open spec fn line_step(keys: Seq<Seq<char>>, st: LoadState, line: Seq<char>) -> Option<LoadState> {
    trimmed_step(keys, st, trim(line))
}

/// What a trimmed line `t` gives; `None` for a `#? Config` line without
/// `v. `.
pub open spec fn trimmed_step(keys: Seq<Seq<char>>, st: LoadState, t: Seq<char>) -> Option<LoadState> {
    if has_prefix(t, "#? Config"@) {
        match find_first(t, "v. "@) {
            None => None,
            Some(k) => Some(put(st, "version"@, ItemView::Str(version_of(t, k)))),
        }
    } else {
        Some(keys_step(keys, st, t))
    }
}

/// What the lines give, one after the other; `false` with the state at the
/// first line that makes the file malformed.
pub open spec fn lines_step(keys: Seq<Seq<char>>, st: LoadState, lines: Seq<Seq<char>>) -> (bool, LoadState)
    decreases lines.len(),
{
    if lines.len() == 0 {
        (true, st)
    } else {
        let (ok, s1) = lines_step(keys, st, lines.drop_last());
        if !ok {
            (false, s1)
        } else {
            match line_step(keys, s1, lines.last()) {
                None => (false, s1),
                Some(s2) => (true, s2),
            }
        }
    }
}

/// The warning for a network speed key without an acceptable value.
pub open spec fn speed_warning(name: Seq<char>) -> Seq<char> {
    "Config key \""@ + name + "\" didn't get an acceptable value!"@
}

/// The check of a network speed key: when present, it must be a string
/// that starts with a numeric character, else it becomes an error.
pub open spec fn speed_step(st: LoadState, name: Seq<char>) -> LoadState {
    if !st.items.contains_key(name) {
        st
    } else {
        match st.items[name] {
            ItemView::Str(s) => if s.len() > 0 && char_numeric(s[0]) {
                st
            } else {
                warn(put(st, name, ItemView::Error), speed_warning(name))
            },
            _ => warn(put(st, name, ItemView::Error), speed_warning(name)),
        }
    }
}

/// The check of `cpu_sensor`: it must be a string found in `sensor`, else
/// it becomes an error.
pub open spec fn sensor_step(st: LoadState, sensor: Seq<char>) -> LoadState {
    if !st.items.contains_key("cpu_sensor"@) {
        warn(put(st, "cpu_sensor"@, ItemView::Error), "Config key \"cpu_sensor\" has a malformed value or does not exist!"@)
    } else {
        match st.items["cpu_sensor"@] {
            ItemView::Str(s) => if contains_text(sensor, s) {
                st
            } else {
                warn(put(st, "cpu_sensor"@, ItemView::Error), "Config key \"cpu_sensor\" does not contain an available sensor!"@)
            },
            _ => warn(put(st, "cpu_sensor"@, ItemView::Error), "Config key \"cpu_sensor\" has a malformed value!"@),
        }
    }
}

/// What reading the lines of a configuration file gives, from the
/// warnings `warnings`: `false` when the file is malformed; else the items
/// read, after the checks of the speeds and of the sensor.
pub open spec fn load_result(keys: Seq<Seq<char>>, sensor: Seq<char>, lines: Seq<Seq<char>>, warnings: Seq<Seq<char>>) -> (bool, LoadState) {
    let (ok, st) = lines_step(keys, LoadState { items: Map::empty(), warnings: warnings }, lines);
    if !ok {
        (false, st)
    } else {
        (true, sensor_step(speed_step(speed_step(st, "net_download"@), "net_upload"@), sensor))
    }
}

/// Records `item` under `key`.
fn put_item(items: &mut StrMap<ConfigItem>, key: &String, item: ConfigItem)
    ensures
        item_views(final(items)@) == item_views(old(items)@).insert(key@, item@),
{
    let ghost before = items@;
    items.insert(key.clone(), item);
    assert(item_views(items@) =~= item_views(before).insert(key@, item@));
}

/// Whether every character of `s` is numeric.
fn numeric_chars(s: &Vec<char>) -> (r: bool)
    ensures
        r == all_numeric(s@),
{
    let mut i: usize = 0;
    while i < s.len()
        invariant
            i <= s.len(),
            forall|j: int| 0 <= j < i ==> char_numeric(s@[j]),
        decreases s.len() - i,
    {
        if !numeric(s[i]) {
            return false;
        }
        i = i + 1;
    }
    true
}

/// What a trimmed line `t` gives for `key` (see `key_step`).
fn apply_key(key: &String, t: &Vec<char>, items: &mut StrMap<ConfigItem>, warnings: &mut Vec<String>)
    ensures
        state_of(final(items), final(warnings)) == key_step(key@, state_of(old(items), old(warnings)), t@),
{
    let kc = chars_of(key.as_str());
    if !starts_with(t, &kc) {
        return;
    }
    let mut pat = kc.clone();
    pat.push('=');
    assert(pat@ == key@ + "="@) by {
        reveal_strlit("=");
        assert(pat@ =~= key@ + "="@);
    }
    let l1 = remove_all_chars(t, &pat);
    let v = if l1.len() > 0 && l1[0] == '"' { unquote_chars(&l1) } else { l1 };
    assert(v@ == value_after(key@, t@));
    let vs = string_of(&v);
    let ghost w0 = views(&warnings@);
    let k = key.as_str();
    if same_text(k, "proc_sorting") || same_text(k, "log_level") || same_text(k, "view_mode") {
        let res = if same_text(k, "proc_sorting") {
            ConfigItem::sorting_option(&vs)
        } else if same_text(k, "log_level") {
            ConfigItem::log_level(&vs)
        } else {
            ConfigItem::view_mode(&vs)
        };
        match res {
            Ok(item) => {
                put_item(items, key, item);
            },
            Err(msg) => {
                put_item(items, key, ConfigItem::Error);
                warnings.push(msg);
                assert(views(&warnings@) =~= w0.push(msg@));
            },
        }
    } else if !numeric_chars(&v) {
        match parse_i64_chars(&v) {
            None => {
                let mut msg = owned("Config key ");
                let dk = debug_text(k);
                push_str(&mut msg, dk.as_str());
                push_str(&mut msg, " should be an integer (was ");
                let dv = debug_text(vs.as_str());
                push_str(&mut msg, dv.as_str());
                push_str(&mut msg, ")!");
                warnings.push(msg);
                assert(views(&warnings@) =~= w0.push(integer_warning(key@, v@)));
            },
            Some(i) => {
                if same_text(k, "update_ms") && i < 100 {
                    put_item(items, key, ConfigItem::Int(100));
                    warnings.push(owned("Config key \"update_ms\" can't be lower than 100!"));
                    assert(views(&warnings@) =~= w0.push("Config key \"update_ms\" can't be lower than 100!"@));
                } else {
                    put_item(items, key, ConfigItem::Int(i));
                }
            },
        }
    } else {
        match lenient(vs.as_str()) {
            Some(b) => {
                put_item(items, key, ConfigItem::Bool(b));
            },
            None => {
                put_item(items, key, ConfigItem::Str(vs));
            },
        }
    }
}

/// What a trimmed line `t` gives for each key in turn (see `keys_step`).
fn apply_keys(keys: &Vec<String>, t: &Vec<char>, items: &mut StrMap<ConfigItem>, warnings: &mut Vec<String>)
    ensures
        state_of(final(items), final(warnings)) == keys_step(views(&keys@), state_of(old(items), old(warnings)), t@),
{
    let ghost ks = views(&keys@);
    let ghost st0 = state_of(items, warnings);
    let mut i: usize = 0;
    assert(ks.take(0) =~= Seq::<Seq<char>>::empty());
    assert(keys_step(ks.take(0), st0, t@) == st0) by {
        reveal(keys_step);
    }
    while i < keys.len()
        invariant
            i <= keys.len(),
            ks == views(&keys@),
            state_of(items, warnings) == keys_step(ks.take(i as int), st0, t@),
        decreases keys.len() - i,
    {
        assert(ks.take(i + 1).drop_last() =~= ks.take(i as int));
        assert(ks.take(i + 1).last() == keys@[i as int]@);
        apply_key(&keys[i], t, items, warnings);
        assert(keys_step(ks.take(i + 1), st0, t@) == key_step(keys@[i as int]@, keys_step(ks.take(i as int), st0, t@), t@)) by {
            reveal(keys_step);
        }
        i = i + 1;
    }
    assert(ks.take(keys.len() as int) =~= ks);
}

/// The version that a `#? Config` line names (see `version_of`), `k`
/// being where `v. ` stands.
fn read_version(t: &Vec<char>, k: usize) -> (ver: Vec<char>)
    requires
        k <= t.len(),
    ensures
        ver@ == version_of(t@, k as int),
{
    let n = utf8_len_capped(t, k, t.len());
    let from = if t.len() - n <= 3 { t.len() } else { n + 3 };
    let mut ver: Vec<char> = Vec::new();
    let mut j: usize = from;
    while j < t.len()
        invariant
            from <= j <= t.len(),
            ver@ == t@.subrange(from as int, j as int),
        decreases t.len() - j,
    {
        ver.push(t[j]);
        assert(ver@ =~= t@.subrange(from as int, j + 1));
        j = j + 1;
    }
    assert(ver@ == version_of(t@, k as int)) by {
        if utf8_len(t@.take(k as int)) + 3 < t@.len() {
            assert(t@.skip(utf8_len(t@.take(k as int)) + 3) =~= t@.subrange(from as int, t.len() as int));
        } else {
            assert(ver@ =~= Seq::<char>::empty());
        }
    }
    ver
}

/// What one line gives (see `line_step`); `false`, with nothing changed,
/// for a `#? Config` line without `v. `.
fn apply_line(keys: &Vec<String>, line: &String, items: &mut StrMap<ConfigItem>, warnings: &mut Vec<String>) -> (ok: bool)
    ensures
        match line_step(views(&keys@), state_of(old(items), old(warnings)), line@) {
            None => !ok && state_of(final(items), final(warnings)) == state_of(old(items), old(warnings)),
            Some(st) => ok && state_of(final(items), final(warnings)) == st,
        },
{
    let lc = chars_of(line.as_str());
    let t = trim_chars(&lc);
    apply_trimmed(keys, &t, items, warnings)
}

/// Records the version that a `#? Config` line names; `false`, with
/// nothing changed, when the line has no `v. `.
fn apply_version(t: &Vec<char>, items: &mut StrMap<ConfigItem>) -> (ok: bool)
    ensures
        match find_first(t@, "v. "@) {
            None => !ok && final(items)@ == old(items)@,
            Some(k) => ok && item_views(final(items)@) == item_views(old(items)@).insert("version"@, ItemView::Str(version_of(t@, k))),
        },
{
    let mark = chars_of("v. ");
    let found = find_chars(t, &mark);
    match found {
        None => false,
        Some(k) => {
            assert(find_first(t@, "v. "@) == Some(k as int));
            let ver = read_version(t, k);
            let version = owned("version");
            let vs = string_of(&ver);
            assert(ConfigItem::Str(vs)@ == ItemView::Str(version_of(t@, k as int)));
            put_item(items, &version, ConfigItem::Str(vs));
            true
        },
    }
}

/// What a trimmed line gives (see `trimmed_step`).
fn apply_trimmed(keys: &Vec<String>, t: &Vec<char>, items: &mut StrMap<ConfigItem>, warnings: &mut Vec<String>) -> (ok: bool)
    ensures
        match trimmed_step(views(&keys@), state_of(old(items), old(warnings)), t@) {
            None => !ok && state_of(final(items), final(warnings)) == state_of(old(items), old(warnings)),
            Some(st) => ok && state_of(final(items), final(warnings)) == st,
        },
{
    let head = chars_of("#? Config");
    if starts_with(t, &head) {
        let ghost w0 = views(&warnings@);
        apply_version(t, items)
    } else {
        apply_keys(keys, t, items, warnings);
        true
    }
}

/// The check of a network speed key (see `speed_step`).
fn check_speed(name: &String, items: &mut StrMap<ConfigItem>, warnings: &mut Vec<String>)
    ensures
        state_of(final(items), final(warnings)) == speed_step(state_of(old(items), old(warnings)), name@),
{
    let ghost w0 = views(&warnings@);
    let bad = match items.get(name.as_str()) {
        None => {
            return;
        },
        Some(ConfigItem::Str(s)) => {
            let cs = chars_of(s.as_str());
            !(cs.len() > 0 && numeric(cs[0]))
        },
        Some(_) => true,
    };
    if bad {
        put_item(items, name, ConfigItem::Error);
        let mut msg = owned("Config key \"");
        push_str(&mut msg, name.as_str());
        push_str(&mut msg, "\" didn't get an acceptable value!");
        warnings.push(msg);
        assert(views(&warnings@) =~= w0.push(speed_warning(name@)));
    }
}

/// The check of `cpu_sensor` against `sensor` (see `sensor_step`).
fn check_sensor(sensor: &String, items: &mut StrMap<ConfigItem>, warnings: &mut Vec<String>)
    ensures
        state_of(final(items), final(warnings)) == sensor_step(state_of(old(items), old(warnings)), sensor@),
{
    let ghost w0 = views(&warnings@);
    let key = owned("cpu_sensor");
    let msg = match items.get(key.as_str()) {
        None => owned("Config key \"cpu_sensor\" has a malformed value or does not exist!"),
        Some(ConfigItem::Str(s)) => {
            let hay = chars_of(sensor.as_str());
            let needle = chars_of(s.as_str());
            if contains_chars(&hay, &needle) {
                return;
            }
            owned("Config key \"cpu_sensor\" does not contain an available sensor!")
        },
        Some(_) => owned("Config key \"cpu_sensor\" has a malformed value!"),
    };
    put_item(items, &key, ConfigItem::Error);
    warnings.push(msg);
    assert(views(&warnings@) =~= w0.push(msg@));
}

/// Reads the lines of a configuration file for the keys `keys`, adding
/// what is noticed to `warnings` (see `load_result`): the items read, or
/// the message for a malformed file.
pub fn read_lines(keys: &Vec<String>, sensor: &String, lines: &Vec<String>, warnings: &mut Vec<String>) -> (r: Result<StrMap<ConfigItem>, &'static str>)
    ensures
        views(&final(warnings)@) == load_result(views(&keys@), sensor@, views(&lines@), views(&old(warnings)@)).1.warnings,
        load_result(views(&keys@), sensor@, views(&lines@), views(&old(warnings)@)).0 ==> (r matches Ok(m)
            && item_views(m@) == load_result(views(&keys@), sensor@, views(&lines@), views(&old(warnings)@)).1.items),
        !load_result(views(&keys@), sensor@, views(&lines@), views(&old(warnings)@)).0 ==> (r matches Err(e)
            && e@ == "Malformed configuration file."@),
{
    let ghost ks = views(&keys@);
    let ghost ls = views(&lines@);
    let mut items: StrMap<ConfigItem> = StrMap::new();
    let ghost st0 = state_of(&items, warnings);
    assert(item_views(items@) =~= Map::<Seq<char>, ItemView>::empty());
    let mut i: usize = 0;
    assert(ls.take(0) =~= Seq::<Seq<char>>::empty());
    while i < lines.len()
        invariant
            i <= lines.len(),
            ks == views(&keys@),
            ls == views(&lines@),
            st0 == (LoadState { items: Map::empty(), warnings: views(&old(warnings)@) }),
            lines_step(ks, st0, ls.take(i as int)) == (true, state_of(&items, warnings)),
        decreases lines.len() - i,
    {
        assert(ls.take(i + 1).drop_last() =~= ls.take(i as int));
        assert(ls.take(i + 1).last() == lines@[i as int]@);
        let ok = apply_line(keys, &lines[i], &mut items, warnings);
        if !ok {
            proof {
                lemma_lines_stop(ks, st0, ls, i as int);
            }
            return Err("Malformed configuration file.");
        }
        i = i + 1;
    }
    assert(ls.take(lines.len() as int) =~= ls);
    check_speed(&owned("net_download"), &mut items, warnings);
    check_speed(&owned("net_upload"), &mut items, warnings);
    check_sensor(sensor, &mut items, warnings);
    Ok(items)
}

/// Once a line makes the file malformed, the lines after it change nothing.
proof fn lemma_lines_stop(keys: Seq<Seq<char>>, st: LoadState, lines: Seq<Seq<char>>, i: int)
    requires
        0 <= i < lines.len(),
        lines_step(keys, st, lines.take(i)).0,
        line_step(keys, lines_step(keys, st, lines.take(i)).1, lines[i]) is None,
    ensures
        lines_step(keys, st, lines) == (false, lines_step(keys, st, lines.take(i)).1),
    decreases lines.len() - i,
{
    let s = lines_step(keys, st, lines.take(i)).1;
    assert(lines.take(i + 1).drop_last() =~= lines.take(i));
    lemma_lines_stopped(keys, st, lines, i + 1, s);
}

/// After a stop, the result stays the stop.
proof fn lemma_lines_stopped(keys: Seq<Seq<char>>, st: LoadState, lines: Seq<Seq<char>>, j: int, s: LoadState)
    requires
        0 < j <= lines.len(),
        lines_step(keys, st, lines.take(j)) == (false, s),
    ensures
        lines_step(keys, st, lines) == (false, s),
    decreases lines.len() - j,
{
    if j == lines.len() {
        assert(lines.take(j) =~= lines);
    } else {
        assert(lines.take(j + 1).drop_last() =~= lines.take(j));
        lemma_lines_stopped(keys, st, lines, j + 1, s);
    }
}

/// The keys that the configuration file may set, in the order they are
/// read.
pub open spec fn config_keys() -> Seq<Seq<char>> {
    seq![
        "color_theme"@,
        "update_ms"@,
        "proc_sorting"@,
        "proc_reversed"@,
        "proc_tree"@,
        "check_temp"@,
        "draw_clock"@,
        "background_update"@,
        "custom_cpu_name"@,
        "proc_colors"@,
        "proc_gradient"@,
        "proc_per_core"@,
        "proc_mem_bytes"@,
        "disks_filter"@,
        "update_check"@,
        "log_level"@,
        "mem_graphs"@,
        "show_swap"@,
        "swap_disk"@,
        "show_disks"@,
        "net_download"@,
        "net_upload"@,
        "net_auto"@,
        "net_color_fixed"@,
        "show_init"@,
        "view_mode"@,
        "theme_background"@,
        "net_sync"@,
        "show_battery"@,
        "tree_depth"@,
        "cpu_sensor"@,
        "show_coretemp"@,
    ]
}

/// The keys that the configuration file may set.
pub fn key_list() -> (keys: Vec<String>)
    ensures
        views(&keys@) == config_keys(),
{
    let mut keys: Vec<String> = Vec::new();
    keys.push(owned("color_theme"));
    keys.push(owned("update_ms"));
    keys.push(owned("proc_sorting"));
    keys.push(owned("proc_reversed"));
    keys.push(owned("proc_tree"));
    keys.push(owned("check_temp"));
    keys.push(owned("draw_clock"));
    keys.push(owned("background_update"));
    keys.push(owned("custom_cpu_name"));
    keys.push(owned("proc_colors"));
    keys.push(owned("proc_gradient"));
    keys.push(owned("proc_per_core"));
    keys.push(owned("proc_mem_bytes"));
    keys.push(owned("disks_filter"));
    keys.push(owned("update_check"));
    keys.push(owned("log_level"));
    keys.push(owned("mem_graphs"));
    keys.push(owned("show_swap"));
    keys.push(owned("swap_disk"));
    keys.push(owned("show_disks"));
    keys.push(owned("net_download"));
    keys.push(owned("net_upload"));
    keys.push(owned("net_auto"));
    keys.push(owned("net_color_fixed"));
    keys.push(owned("show_init"));
    keys.push(owned("view_mode"));
    keys.push(owned("theme_background"));
    keys.push(owned("net_sync"));
    keys.push(owned("show_battery"));
    keys.push(owned("tree_depth"));
    keys.push(owned("cpu_sensor"));
    keys.push(owned("show_coretemp"));
    assert(views(&keys@) =~= config_keys());
    keys
}

/// The names of the temperature sensors: `Auto`, then for each sensor its
/// unit, a hyphen and its label, or its number (from 1) when it has none.
pub open spec fn sensor_names(temps: Seq<(Seq<char>, Option<Seq<char>>)>) -> Seq<Seq<char>> {
    seq!["Auto"@] + Seq::new(temps.len(), |i: int| temps[i].0 + "-"@ + match temps[i].1 {
        Some(l) => l,
        None => dec((i + 1) as nat),
    })
}

/// The sensors by their characters.
pub open spec fn sensor_views(temps: Seq<(String, Option<String>)>) -> Seq<(Seq<char>, Option<Seq<char>>)> {
    Seq::new(temps.len(), |i: int| (temps[i].0@, match temps[i].1 {
        Some(l) => Some(l@),
        None => None,
    }))
}

/// The names of the temperature sensors `temps` (see `sensor_names`).
pub fn sensor_list(temps: &Vec<(String, Option<String>)>) -> (r: Vec<String>)
    requires
        temps.len() < u64::MAX,
    ensures
        views(&r@) == sensor_names(sensor_views(temps@)),
{
    let mut r: Vec<String> = Vec::new();
    r.push(owned("Auto"));
    let ghost tv = sensor_views(temps@);
    let mut i: usize = 0;
    while i < temps.len()
        invariant
            i <= temps.len() < u64::MAX,
            tv == sensor_views(temps@),
            views(&r@) == sensor_names(tv.take(i as int)),
        decreases temps.len() - i,
    {
        let mut name = temps[i].0.clone();
        push_str(&mut name, "-");
        match &temps[i].1 {
            Some(l) => push_str(&mut name, l.as_str()),
            None => {
                let d = u64_dec((i + 1) as u64);
                push_str(&mut name, d.as_str());
            },
        }
        let ghost before = views(&r@);
        r.push(name);
        assert(views(&r@) =~= sensor_names(tv.take(i + 1))) by {
            assert(views(&r@) =~= before.push(name@));
        }
        i = i + 1;
    }
    assert(tv.take(temps.len() as int) =~= tv);
    r
}

/// The message when the configuration file's version differs.
pub open spec fn version_warning() -> Seq<char> {
    "Config file version and brshtop version mismatch, will be recreated on exit!"@
}

/// The message when the configuration file names no version.
pub open spec fn missing_warning() -> Seq<char> {
    "Config file is or missing, will be recreated on exit!"@
}

/// Whether `c` holds the default of every setting but its warnings, its
/// attributes, whether it must be recreated and whether it is initialized:
/// the keys of `config_keys`, the file `path` and the sensors `sensors`.
pub open spec fn settled_defaults(c: Config, path: Seq<char>, sensors: Seq<Seq<char>>) -> bool {
    &&& views(&c.keys@) == config_keys()
    &&& c.conf_dict@ == Map::<Seq<char>, ConfigItem>::empty()
    &&& c.color_theme@ == "Default"@
    &&& c.theme_background
    &&& c.update_ms == 2000
    &&& c.proc_sorting == SortingOption::Cpu { lazy: true }
    &&& !c.proc_reversed
    &&& !c.proc_tree
    &&& c.tree_depth == 3
    &&& c.proc_colors
    &&& c.proc_gradient
    &&& !c.proc_per_core
    &&& c.proc_mem_bytes
    &&& c.check_temp
    &&& c.cpu_sensor@ == "Auto"@
    &&& c.show_coretemp
    &&& c.draw_clock@ == "%X"@
    &&& c.background_update
    &&& c.custom_cpu_name@ == ""@
    &&& c.disks_filter@ == ""@
    &&& c.update_check
    &&& c.mem_graphs
    &&& c.show_swap
    &&& c.swap_disk
    &&& c.show_disks
    &&& c.net_download@ == "10M"@
    &&& c.net_upload@ == "10M"@
    &&& !c.net_color_fixed
    &&& c.net_auto
    &&& !c.net_sync
    &&& c.show_battery
    &&& c.show_init
    &&& c.view_mode == ViewMode::Full
    &&& c.log_level == LogLevel::Warning
    &&& c.info@.len() == 0
    &&& !c.changed
    &&& c.config_file@ == path
    &&& c.sorting_options@ == seq![SortingOption::Pid, SortingOption::Program, SortingOption::Arguments,
        SortingOption::Threads, SortingOption::User, SortingOption::Memory, SortingOption::Cpu { lazy: true },
        SortingOption::Cpu { lazy: false }]
    &&& c.log_levels@ == seq![LogLevel::Error, LogLevel::Warning, LogLevel::Error, LogLevel::Debug]
    &&& c.view_modes@ == seq![ViewMode::Full, ViewMode::Proc, ViewMode::Stat]
    &&& views(&c.cpu_sensors@) == sensors
}

/// What reading the lines of a configuration file gives to a new
/// configuration (see `load_result`).
pub open spec fn new_load(lines: Seq<Seq<char>>) -> (bool, LoadState) {
    load_result(config_keys(), "Auto"@, lines, Seq::empty())
}

/// Whether no key of the configuration file reads as an error.
pub open spec fn no_key_error(items: Map<Seq<char>, ItemView>) -> bool {
    forall|i: int| 0 <= i < config_keys().len() ==> items.get(config_keys()[i]) != Some(ItemView::Error)
}

/// The version check of a new configuration: the warning it gives, if
/// any (a new configuration must then be recreated).
pub open spec fn version_check(items: Map<Seq<char>, ItemView>, version: Seq<char>) -> Option<Seq<char>> {
    match items.get("version"@) {
        Some(ItemView::Str(s)) => if s == version { None } else { Some(version_warning()) },
        _ => Some(missing_warning()),
    }
}

impl Config {
    /// The configuration before its file is read (see `settled_defaults`).
    pub fn defaults(path: String, cpu_sensors: Vec<String>) -> (c: Config)
        ensures
            settled_defaults(c, path@, views(&cpu_sensors@)),
            c.warnings@.len() == 0,
            c.attr@ == Map::<Seq<char>, ConfigItem>::empty(),
            !c.recreate,
            !c._initialized,
    {
        let c = Config {
            keys: key_list(),
            conf_dict: StrMap::new(),
            attr: StrMap::new(),
            color_theme: owned("Default"),
            theme_background: true,
            update_ms: 2000,
            proc_sorting: SortingOption::Cpu { lazy: true },
            proc_reversed: false,
            proc_tree: false,
            tree_depth: 3,
            proc_colors: true,
            proc_gradient: true,
            proc_per_core: false,
            proc_mem_bytes: true,
            check_temp: true,
            cpu_sensor: owned("Auto"),
            show_coretemp: true,
            draw_clock: owned("%X"),
            background_update: true,
            custom_cpu_name: owned(""),
            disks_filter: owned(""),
            update_check: true,
            mem_graphs: true,
            show_swap: true,
            swap_disk: true,
            show_disks: true,
            net_download: owned("10M"),
            net_upload: owned("10M"),
            net_color_fixed: false,
            net_auto: true,
            net_sync: false,
            show_battery: true,
            show_init: true,
            view_mode: ViewMode::Full,
            log_level: LogLevel::Warning,
            warnings: Vec::new(),
            info: Vec::new(),
            changed: false,
            config_file: path,
            recreate: false,
            sorting_options: vec![SortingOption::Pid, SortingOption::Program, SortingOption::Arguments,
                SortingOption::Threads, SortingOption::User, SortingOption::Memory, SortingOption::Cpu { lazy: true },
                SortingOption::Cpu { lazy: false }],
            log_levels: vec![LogLevel::Error, LogLevel::Warning, LogLevel::Error, LogLevel::Debug],
            view_modes: vec![ViewMode::Full, ViewMode::Proc, ViewMode::Stat],
            cpu_sensors: cpu_sensors,
            _initialized: false,
        };
        assert(c.conf_dict@ =~= Map::<Seq<char>, ConfigItem>::empty());
        assert(c.attr@ =~= Map::<Seq<char>, ConfigItem>::empty());
        c
    }

    /// Reads the lines of the configuration file for this configuration's
    /// keys (see `load_result`), adding what is noticed to its warnings; the
    /// items read, or the message for a malformed file.
    pub fn load_config(&mut self, lines: &Vec<String>) -> (r: Result<StrMap<ConfigItem>, &'static str>)
        ensures
            *final(self) == (Config { warnings: final(self).warnings, ..*old(self) }),
            views(&final(self).warnings@) == load_result(views(&old(self).keys@), old(self).cpu_sensor@, views(&lines@), views(&old(self).warnings@)).1.warnings,
            load_result(views(&old(self).keys@), old(self).cpu_sensor@, views(&lines@), views(&old(self).warnings@)).0 ==> (r matches Ok(m)
                && item_views(m@) == load_result(views(&old(self).keys@), old(self).cpu_sensor@, views(&lines@), views(&old(self).warnings@)).1.items),
            !load_result(views(&old(self).keys@), old(self).cpu_sensor@, views(&lines@), views(&old(self).warnings@)).0 ==> (r matches Err(e)
                && e@ == "Malformed configuration file."@),
    {
        let mut c = Config::blank();
        std::mem::swap(self, &mut c);
        let (d, r) = c.loaded(lines);
        let mut d = d;
        std::mem::swap(self, &mut d);
        r
    }

    /// The configuration after the lines are read, and what they gave.
    fn loaded(self, lines: &Vec<String>) -> (r: (Config, Result<StrMap<ConfigItem>, &'static str>))
        ensures
            r.0 == (Config { warnings: r.0.warnings, ..self }),
            views(&r.0.warnings@) == load_result(views(&self.keys@), self.cpu_sensor@, views(&lines@), views(&self.warnings@)).1.warnings,
            load_result(views(&self.keys@), self.cpu_sensor@, views(&lines@), views(&self.warnings@)).0 ==> (r.1 matches Ok(m)
                && item_views(m@) == load_result(views(&self.keys@), self.cpu_sensor@, views(&lines@), views(&self.warnings@)).1.items),
            !load_result(views(&self.keys@), self.cpu_sensor@, views(&lines@), views(&self.warnings@)).0 ==> (r.1 matches Err(e)
                && e@ == "Malformed configuration file."@),
    {
        let mut w = self.warnings;
        let r = read_lines(&self.keys, &self.cpu_sensor, lines, &mut w);
        (Config { warnings: w, ..self }, r)
    }
}

/// The warnings of a new configuration: those read, then the one of the
/// version check, if any.
pub open spec fn new_warnings(st: LoadState, version: Seq<char>) -> Seq<Seq<char>> {
    match version_check(st.items, version) {
        Some(w) => st.warnings.push(w),
        None => st.warnings,
    }
}

/// What `Config::new` gives for the file `path`, the version `version`,
/// the temperature sensors `temps` and the file's lines `lines` (or why
/// they could not be read): that reason; the error of a malformed file; or
/// the defaults with the file's warnings, the version check, and every key
/// read recorded in `attr`.
pub open spec fn new_outcome(
    path: Seq<char>,
    version: Seq<char>,
    temps: Seq<(String, Option<String>)>,
    lines: Result<Vec<String>, &'static str>,
    r: Result<Config, &'static str>,
) -> bool {
    &&& lines matches Err(e) ==> r == Err::<Config, &'static str>(e)
    &&& lines matches Ok(ls) ==> (!new_load(views(&ls@)).0 ==> (r matches Err(e) && e@ == "Malformed configuration file."@))
    &&& lines matches Ok(ls) ==> (new_load(views(&ls@)).0 ==> (r matches Ok(c)
        && settled_defaults(c, path, sensor_names(sensor_views(temps)))
        && views(&c.warnings@) == new_warnings(new_load(views(&ls@)).1, version)
        && c.recreate == version_check(new_load(views(&ls@)).1.items, version) is Some
        && c._initialized
        && item_views(c.attr@) == new_load(views(&ls@)).1.items.restrict(config_keys().to_set())))
}

impl Config {
    /// A configuration read from the lines of its file (`lines`, or why
    /// they could not be read): the defaults for the file `path` and the
    /// temperature sensors `temps`, with the file's warnings; it must be
    /// recreated when the file does not name `version`; every key read is
    /// recorded in `attr`. A key whose value reads as an error ends the
    /// program, so it is left out.
    pub fn new(path: String, version: &str, temps: &Vec<(String, Option<String>)>, lines: Result<Vec<String>, &'static str>) -> (r: Result<Config, &'static str>)
        requires
            temps.len() < u64::MAX,
            lines matches Ok(ls) ==> (new_load(views(&ls@)).0 ==> no_key_error(new_load(views(&ls@)).1.items)),
        ensures
            new_outcome(path@, version@, temps@, lines, r),
    {
        let sensors = sensor_list(temps);
        let c = Config::defaults(path, sensors);
        let ls = match lines {
            Ok(ls) => ls,
            Err(e) => {
                return Err(e);
            },
        };
        let ghost st = new_load(views(&ls@)).1;
        proof {
            assert(views(&c.warnings@) =~= Seq::<Seq<char>>::empty());
        }
        let (d, res) = c.loaded(&ls);
        let conf = match res {
            Ok(m) => m,
            Err(e) => {
                return Err(e);
            },
        };
        let check = match conf.get("version") {
            Some(ConfigItem::Str(s)) => if same_text(s.as_str(), version) {
                None
            } else {
                Some(owned("Config file version and brshtop version mismatch, will be recreated on exit!"))
            },
            _ => Some(owned("Config file is or missing, will be recreated on exit!")),
        };
        assert(check matches Some(w) ==> version_check(st.items, version@) == Some(w@));
        assert(check is None ==> version_check(st.items, version@) is None);
        let mut w = d.warnings;
        let recreate = check.is_some();
        match check {
            Some(x) => {
                let ghost before = views(&w@);
                w.push(x);
                assert(views(&w@) =~= before.push(x@));
            },
            None => {},
        }
        let keys = key_list();
        let mut attr: StrMap<ConfigItem> = StrMap::new();
        let ghost ks = config_keys();
        let mut i: usize = 0;
        assert(st.items.restrict(ks.take(0).to_set()) =~= Map::<Seq<char>, ItemView>::empty());
        assert(item_views(attr@) =~= Map::<Seq<char>, ItemView>::empty());
        while i < keys.len()
            invariant
                i <= keys.len(),
                views(&keys@) == ks,
                ks == config_keys(),
                item_views(conf@) == st.items,
                item_views(attr@) == st.items.restrict(ks.take(i as int).to_set()),
            decreases keys.len() - i,
        {
            let ghost k = ks[i as int];
            assert(keys@[i as int]@ == k);
            proof {
                ks.take(i as int).lemma_push_to_set_commute(k);
                assert(ks.take(i + 1) =~= ks.take(i as int).push(k));
            }
            let ghost before = attr@;
            match conf.get(keys[i].as_str()) {
                Some(item) => {
                    assert(st.items.get(k) == Some(item@));
                    attr.insert(keys[i].clone(), item.dup());
                    assert(item_views(attr@) =~= item_views(before).insert(k, item@));
                    assert(st.items.restrict(ks.take(i + 1).to_set()) =~= st.items.restrict(ks.take(i as int).to_set()).insert(k, item@));
                },
                None => {
                    assert(st.items.restrict(ks.take(i + 1).to_set()) =~= st.items.restrict(ks.take(i as int).to_set()));
                },
            }
            i = i + 1;
        }
        assert(ks.take(keys.len() as int) =~= ks);
        Ok(Config { warnings: w, recreate: recreate, attr: attr, _initialized: true, ..d })
    }

    /// A configuration read as `Config::new` reads it, or `None` where a
    /// key of the file reads as an error, which ends the program.
    pub fn new_checked(path: String, version: &str, temps: &Vec<(String, Option<String>)>, lines: Result<Vec<String>, &'static str>) -> (r: Option<Result<Config, &'static str>>)
        requires
            temps.len() < u64::MAX,
        ensures
            r is None <==> (lines matches Ok(ls) && new_load(views(&ls@)).0 && !no_key_error(new_load(views(&ls@)).1.items)),
            r matches Some(x) ==> new_outcome(path@, version@, temps@, lines, x),
    {
        match &lines {
            Ok(ls) => {
                let keys = key_list();
                let mut w: Vec<String> = Vec::new();
                let auto = owned("Auto");
                assert(views(&w@) =~= Seq::<Seq<char>>::empty());
                match read_lines(&keys, &auto, ls, &mut w) {
                    Ok(m) => {
                        let mut i: usize = 0;
                        while i < keys.len()
                            invariant
                                i <= keys.len(),
                                views(&keys@) == config_keys(),
                                item_views(m@) == new_load(views(&ls@)).1.items,
                                new_load(views(&ls@)).0,
                                lines matches Ok(l2) && l2 == *ls,
                                forall|j: int| 0 <= j < i ==> new_load(views(&ls@)).1.items.get(config_keys()[j]) != Some(ItemView::Error),
                            decreases keys.len() - i,
                        {
                            assert(keys@[i as int]@ == config_keys()[i as int]);
                            match m.get(keys[i].as_str()) {
                                Some(ConfigItem::Error) => {
                                    assert(new_load(views(&ls@)).1.items.get(config_keys()[i as int]) == Some(ItemView::Error));
                                    return None;
                                },
                                _ => {
                                    assert(new_load(views(&ls@)).1.items.get(config_keys()[i as int]) != Some(ItemView::Error));
                                },
                            }
                            i = i + 1;
                        }
                    },
                    Err(_) => {},
                }
            },
            Err(_) => {},
        }
        Some(Config::new(path, version, temps, lines))
    }
}

} // verus!

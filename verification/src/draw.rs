//! Named draw buffers: strings waiting to be printed, each with a depth
//! (higher first), and copies of what was printed to redraw the screen.
use vstd::prelude::*;
use crate::event::{Event, EventEnum};
use crate::strmap::{StrMap, has_key, insert_entry, remove_entry};
use crate::text::{chars_of, string_of, str_eq, push_str};
use crate::brshtop_box::views;

verus! {

/// The position at which an entry of depth `z` goes into a list ordered
/// by decreasing depth: after every entry at least as deep.
pub open spec fn first_less(s: Seq<(Seq<char>, i32)>, z: i32) -> int
    decreases s.len(),
{
    if s.len() == 0 {
        0
    } else if s[0].1 < z {
        0
    } else {
        1 + first_less(s.drop_first(), z)
    }
}

/// The entries ordered by decreasing depth; entries of equal depth keep
/// their order.
pub open spec fn sort_desc(p: Seq<(Seq<char>, i32)>) -> Seq<(Seq<char>, i32)>
    decreases p.len(),
{
    if p.len() == 0 {
        p
    } else {
        let s = sort_desc(p.drop_last());
        s.insert(first_less(s, p.last().1), p.last())
    }
}

pub proof fn lemma_first_less_bounds(s: Seq<(Seq<char>, i32)>, z: i32)
    ensures
        0 <= first_less(s, z) <= s.len(),
    decreases s.len(),
{
    if s.len() > 0 {
        lemma_first_less_bounds(s.drop_first(), z);
    }
}

pub proof fn lemma_sort_len(p: Seq<(Seq<char>, i32)>)
    ensures
        sort_desc(p).len() == p.len(),
    decreases p.len(),
{
    if p.len() > 0 {
        lemma_sort_len(p.drop_last());
        lemma_first_less_bounds(sort_desc(p.drop_last()), p.last().1);
    }
}

/// The saved strings of the buffers listed, one after the other.
pub open spec fn saved_concat(order: Seq<(Seq<char>, i32)>, saved: Map<Seq<char>, String>) -> Seq<char>
    decreases order.len(),
{
    if order.len() == 0 {
        Seq::empty()
    } else {
        saved_concat(order.drop_last(), saved) + (if saved.contains_key(order.last().0) {
            saved[order.last().0]@
        } else {
            Seq::<char>::empty()
        })
    }
}

/// The tables of a set of buffers that printing and buffering change,
/// strings by their characters.
#[verifier::ext_equal]
pub struct DrawState {
    pub strings: Map<Seq<char>, Seq<char>>,
    pub saved: Map<Seq<char>, Seq<char>>,
    pub save: Map<Seq<char>, bool>,
    pub once: Map<Seq<char>, bool>,
}

/// A table of strings, each by its characters.
pub open spec fn text_of(m: Map<Seq<char>, String>) -> Map<Seq<char>, Seq<char>> {
    m.map_values(|s: String| s@)
}

/// The strings, one after the other.
pub open spec fn concat_all(args: Seq<Seq<char>>) -> Seq<char>
    decreases args.len(),
{
    if args.len() == 0 {
        Seq::empty()
    } else {
        concat_all(args.drop_last()) + args.last()
    }
}

/// A buffer name with its marks taken off, and the marks: a leading `+`
/// asks to append, then a trailing `!` asks to print at once.
pub open spec fn unmarked(name: Seq<char>) -> (Seq<char>, bool, bool) {
    let plus = name.len() > 0 && name[0] == '+';
    let n1 = if plus { name.drop_first() } else { name };
    let bang = n1.len() > 0 && n1.last() == '!';
    let n2 = if bang { n1.drop_last() } else { n1 };
    (n2, plus, bang)
}

/// The tables after `text` is put into buffer `n`: into its saved copy
/// when `only_save`, else into its string; appended to what is there when
/// `append`, in place of it otherwise.
pub open spec fn buffered(st: DrawState, n: Seq<char>, append: bool, text: Seq<char>, only_save: bool, no_save: bool, once: bool) -> DrawState {
    let save = st.save.insert(n, !no_save);
    let once_m = st.once.insert(n, once);
    if only_save {
        let base = if st.saved.contains_key(n) && append { st.saved[n] } else { Seq::<char>::empty() };
        DrawState { saved: st.saved.insert(n, base + text), save: save, once: once_m, ..st }
    } else {
        let base = if st.strings.contains_key(n) && append { st.strings[n] } else { Seq::<char>::empty() };
        DrawState { strings: st.strings.insert(n, base + text), save: save, once: once_m, ..st }
    }
}

/// The depths after buffer `n` is given depth `z`: a buffer keeps the
/// depth it has unless `z` is other than the default 100.
pub open spec fn z_after(p: Seq<(Seq<char>, i32)>, n: Seq<char>, z: i32) -> Seq<(Seq<char>, i32)> {
    if !has_key(p, n) || z != 100 {
        insert_entry(p, n, z)
    } else {
        p
    }
}

/// Printing the buffers listed in `order` that are among `names` and have
/// a string: the strings are put one after the other; each is kept as the
/// saved copy when its buffer saves, and the buffer is emptied when it is
/// printed once only or when `clear` is asked.
pub open spec fn out_steps(st: DrawState, order: Seq<(Seq<char>, i32)>, names: Seq<Seq<char>>, clear: bool) -> (DrawState, Seq<char>)
    decreases order.len(),
{
    if order.len() == 0 {
        (st, Seq::empty())
    } else {
        let (s1, o1) = out_steps(st, order.drop_last(), names, clear);
        let n = order.last().0;
        if names.contains(n) && s1.strings.contains_key(n) {
            let text = s1.strings[n];
            let s2 = if s1.save.contains_key(n) && s1.save[n] {
                DrawState { saved: s1.saved.insert(n, text), ..s1 }
            } else {
                s1
            };
            let s3 = if clear || (s1.once.contains_key(n) && s1.once[n]) {
                DrawState { strings: s2.strings.remove(n), save: s2.save.remove(n), once: s2.once.remove(n), ..s2 }
            } else {
                s2
            };
            (s3, o1 + text)
        } else {
            (s1, o1)
        }
    }
}

/// What printing the buffers `names` gives: nothing while no buffer has a
/// string or no name is given; else the text of `out_steps`, after which
/// every string is dropped when `clear` is asked.
pub open spec fn out_result(st: DrawState, order: Seq<(Seq<char>, i32)>, names: Seq<Seq<char>>, clear: bool) -> (DrawState, Option<Seq<char>>) {
    if st.strings.dom() == Set::<Seq<char>>::empty() || names.len() == 0 {
        (st, None)
    } else {
        let (s1, o) = out_steps(st, order, names, clear);
        if clear {
            (DrawState { strings: Map::empty(), save: Map::empty(), once: Map::empty(), ..s1 }, Some(o))
        } else {
            (s1, Some(o))
        }
    }
}

/// The entry list with the entries of `names` taken out, one after the
/// other.
pub open spec fn remove_all(p: Seq<(Seq<char>, i32)>, names: Seq<Seq<char>>) -> Seq<(Seq<char>, i32)>
    decreases names.len(),
{
    if names.len() == 0 {
        p
    } else {
        remove_entry(remove_all(p, names.drop_last()), names.last())
    }
}

/// The named buffers of the screen.
pub struct Draw {
    pub strings: StrMap<String>,
    pub z_order: StrMap<i32>,
    pub saved: StrMap<String>,
    pub save: StrMap<bool>,
    pub once: StrMap<bool>,
    pub idle: Event,
}

/// Whether `names` holds `n`.
fn contains_name(names: &Vec<String>, n: &str) -> (r: bool)
    ensures
        r == views(&names@).contains(n@),
{
    let mut i: usize = 0;
    while i < names.len()
        invariant
            i <= names.len(),
            forall|j: int| 0 <= j < i ==> names@[j]@ != n@,
        decreases names.len() - i,
    {
        if str_eq(names[i].as_str(), n) {
            assert(views(&names@)[i as int] == n@);
            return true;
        }
        i = i + 1;
    }
    assert forall|j: int| 0 <= j < views(&names@).len() implies views(&names@)[j] != n@ by {
        assert(views(&names@)[j] == names@[j]@);
    }
    false
}

/// Inserts an entry into a list ordered by decreasing depth.
fn insert_desc(s: &mut Vec<(String, i32)>, name: String, z: i32)
    ensures
        view_pairs(&final(s)@) == view_pairs(&old(s)@).insert(first_less(view_pairs(&old(s)@), z), (name@, z)),
{
    let ghost p = view_pairs(&s@);
    let mut j: usize = 0;
    assert(p.skip(0) =~= p);
    while j < s.len() && s[j].1 >= z
        invariant
            j <= s.len(),
            p == view_pairs(&s@),
            first_less(p, z) == j + first_less(p.skip(j as int), z),
        decreases s.len() - j,
    {
        let ghost rest = p.skip(j as int);
        assert(rest[0] == p[j as int]);
        assert(rest.drop_first() =~= p.skip(j + 1));
        j = j + 1;
    }
    proof {
        if j < s.len() {
            let rest = p.skip(j as int);
            assert(rest[0] == p[j as int]);
        }
    }
    let ghost nv = name@;
    s.insert(j, (name, z));
    assert(view_pairs(&s@) =~= p.insert(j as int, (nv, z)));
}

/// The entries of a list, names by their characters.
pub open spec fn view_pairs(s: &Seq<(String, i32)>) -> Seq<(Seq<char>, i32)> {
    Seq::new(s.len(), |i: int| (s[i].0@, s[i].1))
}

impl Draw {
    /// The tables that printing and buffering change.
    pub open spec fn state(&self) -> DrawState {
        DrawState {
            strings: text_of(self.strings@),
            saved: text_of(self.saved@),
            save: self.save@,
            once: self.once@,
        }
    }

    /// Empties buffers. With names, the strings of those buffers go, and
    /// with `saved` also their saved copies and depths; with no names the
    /// same holds of every buffer.
    pub fn clear(&mut self, names: Vec<String>, saved: bool)
        ensures
            names@.len() > 0 ==> {
                let ks = views(&names@).to_set();
                &&& final(self).strings@ == old(self).strings@.remove_keys(ks)
                &&& final(self).save@ == old(self).save@.remove_keys(ks)
                &&& final(self).once@ == old(self).once@.remove_keys(ks)
                &&& final(self).saved@ == (if saved { old(self).saved@.remove_keys(ks) } else { old(self).saved@ })
                &&& final(self).z_order.pairs() == (if saved { remove_all(old(self).z_order.pairs(), views(&names@)) } else { old(self).z_order.pairs() })
            },
            names@.len() == 0 ==> {
                &&& final(self).strings@ == Map::<Seq<char>, String>::empty()
                &&& final(self).save@ == Map::<Seq<char>, bool>::empty()
                &&& final(self).once@ == Map::<Seq<char>, bool>::empty()
                &&& final(self).saved@ == (if saved { Map::<Seq<char>, String>::empty() } else { old(self).saved@ })
                &&& final(self).z_order.pairs() == (if saved { Seq::<(Seq<char>, i32)>::empty() } else { old(self).z_order.pairs() })
            },
            final(self).idle == old(self).idle,
    {
        if names.len() > 0 {
            let ghost ns = views(&names@);
            let mut i: usize = 0;
            assert(ns.take(0).to_set() =~= Set::<Seq<char>>::empty());
            assert(self.strings@.remove_keys(Set::empty()) =~= self.strings@);
            assert(self.save@.remove_keys(Set::empty()) =~= self.save@);
            assert(self.once@.remove_keys(Set::empty()) =~= self.once@);
            assert(self.saved@.remove_keys(Set::empty()) =~= self.saved@);
            while i < names.len()
                invariant
                    i <= names.len(),
                    ns == views(&names@),
                    self.strings@ == old(self).strings@.remove_keys(ns.take(i as int).to_set()),
                    self.save@ == old(self).save@.remove_keys(ns.take(i as int).to_set()),
                    self.once@ == old(self).once@.remove_keys(ns.take(i as int).to_set()),
                    self.saved@ == (if saved { old(self).saved@.remove_keys(ns.take(i as int).to_set()) } else { old(self).saved@ }),
                    self.z_order.pairs() == (if saved { remove_all(old(self).z_order.pairs(), ns.take(i as int)) } else { old(self).z_order.pairs() }),
                    self.idle == old(self).idle,
                decreases names.len() - i,
            {
                let name = names[i].as_str();
                let ghost before = ns.take(i as int).to_set();
                let ghost after = ns.take(i + 1).to_set();
                assert(ns.take(i + 1) =~= ns.take(i as int).push(name@));
                proof { ns.take(i as int).lemma_push_to_set_commute(name@); }
                assert(after =~= before.insert(name@));
                self.strings.remove(name);
                self.save.remove(name);
                self.once.remove(name);
                assert(old(self).strings@.remove_keys(after) =~= old(self).strings@.remove_keys(before).remove(name@));
                assert(old(self).save@.remove_keys(after) =~= old(self).save@.remove_keys(before).remove(name@));
                assert(old(self).once@.remove_keys(after) =~= old(self).once@.remove_keys(before).remove(name@));
                if saved {
                    self.saved.remove(name);
                    self.z_order.remove(name);
                    assert(old(self).saved@.remove_keys(after) =~= old(self).saved@.remove_keys(before).remove(name@));
                    assert(ns.take(i + 1).drop_last() =~= ns.take(i as int));
                }
                i = i + 1;
            }
            assert(ns.take(names.len() as int) =~= ns);
        } else {
            self.strings = StrMap::new();
            self.save = StrMap::new();
            self.once = StrMap::new();
            assert(self.strings@ =~= Map::<Seq<char>, String>::empty());
            assert(self.save@ =~= Map::<Seq<char>, bool>::empty());
            assert(self.once@ =~= Map::<Seq<char>, bool>::empty());
            if saved {
                self.saved = StrMap::new();
                self.z_order = StrMap::new();
                assert(self.saved@ =~= Map::<Seq<char>, String>::empty());
            }
        }
    }

    /// Prints the buffers `names` that have a string, deepest first (see
    /// `out_result`), and gives back the text to put on the screen.
    pub fn out(&mut self, names: Vec<String>, clear: bool) -> (printed: Option<String>)
        requires
            forall|n: Seq<char>|
                views(&names@).contains(n) && old(self).strings@.dom().contains(n) && old(self).z_order@.dom().contains(n)
                    ==> old(self).save@.dom().contains(n) && (clear || old(self).once@.dom().contains(n)),
        ensures
            final(self).state() == out_result(old(self).state(), sort_desc(old(self).z_order.pairs()), views(&names@), clear).0,
            (match printed {
                Some(t) => Some(t@),
                None => None::<Seq<char>>,
            }) == out_result(old(self).state(), sort_desc(old(self).z_order.pairs()), views(&names@), clear).1,
            final(self).z_order.pairs() == old(self).z_order.pairs(),
            final(self).idle == old(self).idle,
    {
        let ghost st0 = self.state();
        let ghost ns = views(&names@);
        let ghost ord = sort_desc(self.z_order.pairs());
        let count = self.strings.len();
        if count == 0 {
            assert(self.strings@.dom() =~= Set::<Seq<char>>::empty());
            assert(text_of(self.strings@).dom() =~= Set::<Seq<char>>::empty());
            return None;
        }
        proof {
            let k = self.strings.pairs()[0].0;
            assert(has_key(self.strings.pairs(), k));
            assert(text_of(self.strings@).dom().contains(k));
        }
        if names.len() == 0 {
            return None;
        }
        let order = self.z_sorted();
        let mut out = String::new();
        let mut i: usize = 0;
        assert(ord.take(0) =~= Seq::<(Seq<char>, i32)>::empty());
        while i < order.len()
            invariant
                i <= order.len(),
                view_pairs(&order@) == ord,
                ns == views(&names@),
                ord == sort_desc(old(self).z_order.pairs()),
                self.z_order.pairs() == old(self).z_order.pairs(),
                self.state() == out_steps(st0, ord.take(i as int), ns, clear).0,
                out@ == out_steps(st0, ord.take(i as int), ns, clear).1,
                self.idle == old(self).idle,
            decreases order.len() - i,
        {
            let ghost t = ord.take(i + 1);
            assert(t.drop_last() =~= ord.take(i as int));
            assert(t.last() == ord[i as int]);
            assert(ord[i as int].0 == order@[i as int].0@);
            let name = &order[i].0;
            let listed = contains_name(&names, name.as_str());
            let present = self.strings.contains_key(name.as_str());
            if listed && present {
                let text = match self.strings.get(name.as_str()) {
                    Some(t) => t.clone(),
                    None => String::new(),
                };
                push_str(&mut out, text.as_str());
                let keep = match self.save.get(name.as_str()) {
                    Some(b) => *b,
                    None => false,
                };
                if keep {
                    let ghost before = self.saved@;
                    self.saved.insert(name.clone(), text.clone());
                    assert(text_of(self.saved@) =~= text_of(before).insert(name@, text@));
                }
                let one = match self.once.get(name.as_str()) {
                    Some(b) => *b,
                    None => false,
                };
                if clear || one {
                    let ghost before = self.strings@;
                    self.strings.remove(name.as_str());
                    self.save.remove(name.as_str());
                    self.once.remove(name.as_str());
                    assert(text_of(self.strings@) =~= text_of(before).remove(name@));
                }
            }
            i = i + 1;
        }
        assert(ord.take(order.len() as int) =~= ord);
        if clear {
            self.clear(Vec::new(), false);
            assert(text_of(self.strings@) =~= Map::<Seq<char>, Seq<char>>::empty());
        }
        Some(out)
    }

    /// Puts the strings `args`, one after the other, into buffer `name`
    /// (see `buffered`; a `+` before the name asks to append and a `!`
    /// after it to print at once). The buffer's depth becomes `z` when it
    /// had none or `z` is not the default 100. When the buffer is printed
    /// at once, the text to put on the screen comes back.
    pub fn buffer(&mut self, name: String, args: Vec<String>, append: bool, now: bool, z: i32, only_save: bool, no_save: bool, once: bool) -> (printed: Option<String>)
        ensures
            ({
                let (n, plus, bang) = unmarked(name@);
                let st1 = buffered(old(self).state(), n, append || plus, concat_all(views(&args@)), only_save, no_save, once);
                let z1 = z_after(old(self).z_order.pairs(), n, z);
                &&& final(self).z_order.pairs() == z1
                &&& final(self).idle == old(self).idle
                &&& if !only_save && (now || bang) {
                    &&& final(self).state() == out_result(st1, sort_desc(z1), seq![n], false).0
                    &&& (match printed {
                        Some(t) => Some(t@),
                        None => None::<Seq<char>>,
                    }) == out_result(st1, sort_desc(z1), seq![n], false).1
                } else {
                    &&& final(self).state() == st1
                    &&& printed is None
                }
            }),
    {
        let ghost st0 = self.state();
        let mut cs = chars_of(name.as_str());
        let mut app = append;
        if cs.len() > 0 && cs[0] == '+' {
            cs.remove(0);
            app = true;
        }
        let ghost c1 = cs@;
        let mut nw = now;
        if cs.len() > 0 && cs[cs.len() - 1] == '!' {
            cs.pop();
            nw = true;
        }
        assert(cs@ == unmarked(name@).0) by {
            assert(c1 == (if name@.len() > 0 && name@[0] == '+' { name@.drop_first() } else { name@ }));
            if c1.len() > 0 && c1.last() == '!' {
                assert(cs@ =~= c1.drop_last());
            }
        }
        let n = string_of(&cs);
        self.save.insert(n.clone(), !no_save);
        self.once.insert(n.clone(), once);
        if !self.z_order.contains_key(n.as_str()) || z != 100 {
            self.z_order.insert(n.clone(), z);
        }
        let mut text = String::new();
        let ghost av = views(&args@);
        let mut j: usize = 0;
        assert(av.take(0) =~= Seq::<Seq<char>>::empty());
        while j < args.len()
            invariant
                j <= args.len(),
                av == views(&args@),
                text@ == concat_all(av.take(j as int)),
            decreases args.len() - j,
        {
            assert(av.take(j + 1).drop_last() =~= av.take(j as int));
            push_str(&mut text, args[j].as_str());
            j = j + 1;
        }
        assert(av.take(args.len() as int) =~= av);
        if only_save {
            let mut cur = if app {
                match self.saved.get(n.as_str()) {
                    Some(t) => t.clone(),
                    None => String::new(),
                }
            } else {
                String::new()
            };
            push_str(&mut cur, text.as_str());
            let ghost before = self.saved@;
            self.saved.insert(n.clone(), cur);
            assert(text_of(self.saved@) =~= text_of(before).insert(n@, cur@));
            assert(self.state() =~= buffered(st0, n@, app, text@, only_save, no_save, once));
            None
        } else {
            let mut cur = if app {
                match self.strings.get(n.as_str()) {
                    Some(t) => t.clone(),
                    None => String::new(),
                }
            } else {
                String::new()
            };
            push_str(&mut cur, text.as_str());
            let ghost before = self.strings@;
            self.strings.insert(n.clone(), cur);
            assert(text_of(self.strings@) =~= text_of(before).insert(n@, cur@));
            assert(self.state() =~= buffered(st0, n@, app, text@, only_save, no_save, once));
            if nw {
                let names = vec![n];
                assert(views(&names@) =~= seq![unmarked(name@).0]);
                self.out(names, false)
            } else {
                None
            }
        }
    }

    /// No buffers; the idle flag set.
    pub fn new() -> (d: Self)
        ensures
            d.strings@ == Map::<Seq<char>, String>::empty(),
            d.z_order.pairs() == Seq::<(Seq<char>, i32)>::empty(),
            d.saved@ == Map::<Seq<char>, String>::empty(),
            d.save@ == Map::<Seq<char>, bool>::empty(),
            d.once@ == Map::<Seq<char>, bool>::empty(),
            d.idle.t == EventEnum::Flag(true),
    {
        let d = Draw {
            strings: StrMap::new(),
            z_order: StrMap::new(),
            saved: StrMap::new(),
            save: StrMap::new(),
            once: StrMap::new(),
            idle: Event { t: EventEnum::Flag(true) },
        };
        assert(d.strings@ =~= Map::<Seq<char>, String>::empty());
        assert(d.saved@ =~= Map::<Seq<char>, String>::empty());
        assert(d.save@ =~= Map::<Seq<char>, bool>::empty());
        assert(d.once@ =~= Map::<Seq<char>, bool>::empty());
        d
    }

    /// The buffers by decreasing depth (equal depths in the order the
    /// buffers were first given a depth).
    pub fn z_sorted(&self) -> (r: Vec<(String, i32)>)
        ensures
            view_pairs(&r@) == sort_desc(self.z_order.pairs()),
    {
        let mut r: Vec<(String, i32)> = Vec::new();
        let n = self.z_order.len();
        let mut i: usize = 0;
        assert(view_pairs(&r@) =~= sort_desc(self.z_order.pairs().take(0)));
        while i < n
            invariant
                i <= n,
                n == self.z_order.pairs().len(),
                view_pairs(&r@) == sort_desc(self.z_order.pairs().take(i as int)),
            decreases n - i,
        {
            let ghost t = self.z_order.pairs().take(i + 1);
            assert(t.drop_last() =~= self.z_order.pairs().take(i as int));
            let name = self.z_order.key_at(i).clone();
            let z = *self.z_order.value_at(i);
            insert_desc(&mut r, name, z);
            i = i + 1;
        }
        assert(self.z_order.pairs().take(n as int) =~= self.z_order.pairs());
        r
    }

    /// The saved copies of every buffer, deepest first: what redraws the
    /// whole screen.
    pub fn saved_buffer(&mut self) -> (r: String)
        ensures
            r@ == saved_concat(sort_desc(old(self).z_order.pairs()), old(self).saved@),
            final(self).strings@ == old(self).strings@,
            final(self).saved@ == old(self).saved@,
            final(self).z_order.pairs() == old(self).z_order.pairs(),
            final(self).save@ == old(self).save@,
            final(self).once@ == old(self).once@,
            final(self).idle == old(self).idle,
            *final(self) == *old(self),
    {
        let order = self.z_sorted();
        let mut out = String::new();
        let mut i: usize = 0;
        let ghost ord = sort_desc(self.z_order.pairs());
        assert(saved_concat(ord.take(0), self.saved@) =~= Seq::<char>::empty());
        while i < order.len()
            invariant
                i <= order.len(),
                view_pairs(&order@) == ord,
                out@ == saved_concat(ord.take(i as int), self.saved@),
            decreases order.len() - i,
        {
            let ghost t = ord.take(i + 1);
            assert(t.drop_last() =~= ord.take(i as int));
            assert(t.last() == ord[i as int]);
            assert(ord[i as int].0 == order@[i as int].0@);
            match self.saved.get(order[i].0.as_str()) {
                Some(s) => push_str(&mut out, s.as_str()),
                None => {
                    assert(out@ + Seq::<char>::empty() =~= out@);
                },
            }
            i = i + 1;
        }
        assert(ord.take(order.len() as int) =~= ord);
        out
    }
}

} // verus!

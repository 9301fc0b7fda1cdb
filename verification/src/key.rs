//! Keyboard and mouse input: the queue of keys read from the terminal, the
//! table of escape sequences, the clickable regions, and the decoding of
//! one input sequence into a key name.
use vstd::prelude::*;
use crate::event::{Event, EventEnum};
use crate::strmap::{StrMap, has_key};
use crate::brshtop_box::views;
use crate::text::{owned, str_eq, ends_with, split_chars, parse_i32_chars, trim_end_matches, trim_start_matches, slice_chars, has_prefix, has_suffix, split_on, parse_i32, trim_start_rep, trim_end_rep, chars_of, push_str, starts_with};

verus! {

/// An escape sequence: one string, or two strings that are read one after
/// the other.
#[derive(PartialEq, Eq, Hash)]
pub enum KeyUnion {
    String(String),
    Tuple((String, String)),
}

/// The characters an escape sequence is matched by.
pub open spec fn code_of(u: KeyUnion) -> Seq<char> {
    match u {
        KeyUnion::String(s) => s@,
        KeyUnion::Tuple((a, b)) => a@ + b@,
    }
}

/// The name of the first escape sequence of the table that `body` starts
/// with.
pub open spec fn escape_lookup(esc: Seq<(KeyUnion, String)>, body: Seq<char>) -> Option<Seq<char>>
    decreases esc.len(),
{
    if esc.len() == 0 {
        None
    } else if has_prefix(body, code_of(esc[0].0)) {
        Some(esc[0].1@)
    } else {
        escape_lookup(esc.drop_first(), body)
    }
}

/// Whether a clickable region holds the cell `x`, `y`.
pub open spec fn region_holds(cells: Seq<Vec<i32>>, x: i32, y: i32) -> bool {
    exists|j: int| 0 <= j < cells.len() && cells[j]@ == seq![x, y]
}

/// The name of the first clickable region that holds the cell `x`, `y`.
pub open spec fn mouse_target(m: Seq<(Seq<char>, Vec<Vec<i32>>)>, x: i32, y: i32) -> Option<Seq<char>>
    decreases m.len(),
{
    if m.len() == 0 {
        None
    } else if region_holds(m[0].1@, x, y) {
        Some(m[0].0)
    } else {
        mouse_target(m.drop_first(), x, y)
    }
}

/// Whether `s` is a mouse report: a press of the first button, a move, or
/// a turn of the wheel up or down.
pub open spec fn mouse_report(s: Seq<char>) -> bool {
    has_prefix(s, "\x1b[<0;"@) || has_prefix(s, "\x1b[<35;"@) || has_prefix(s, "\x1b[<64;"@)
        || has_prefix(s, "\x1b[<65;"@)
}

/// The cell of a mouse report: its second and third fields between `;`,
/// the third with the repetitions of "mM" at its ends removed.
pub open spec fn mouse_cell(s: Seq<char>) -> Option<(i32, i32)> {
    let parts = split_on(s, ';');
    if parts.len() >= 3 {
        match (parse_i32(parts[1]), parse_i32(trim_start_rep(trim_end_rep(parts[2], "mM"@), "mM"@))) {
            (Some(x), Some(y)) => Some((x, y)),
            _ => None,
        }
    } else {
        None
    }
}

/// The inputs that can be decoded: a lone escape, a mouse report whose
/// cell can be read, a backslash, or an escape sequence.
pub open spec fn decodable(s: Seq<char>) -> bool {
    if s == "\x1b"@ {
        true
    } else if mouse_report(s) {
        mouse_cell(s) is Some
    } else {
        s == "\\"@ || has_prefix(s, "\x1b"@)
    }
}

/// The key name an input decodes to (empty for none): "escape" for a lone
/// escape; for a mouse report, nothing for a move, the wheel direction, or
/// for a release of the first button ("m" at the end) the clickable region
/// under the mouse, "mouse_click" when none holds it or a menu is open; a
/// backslash for itself; otherwise the name of the escape sequence that
/// follows the escape character.
pub open spec fn decoded_key(
    s: Seq<char>,
    menu_active: bool,
    mouse: Seq<(Seq<char>, Vec<Vec<i32>>)>,
    esc: Seq<(KeyUnion, String)>,
) -> Seq<char> {
    if s == "\x1b"@ {
        "escape"@
    } else if mouse_report(s) {
        let (x, y) = mouse_cell(s).unwrap();
        if has_prefix(s, "\x1b[<35;"@) {
            Seq::empty()
        } else if has_prefix(s, "\x1b[<64;"@) {
            "mouse_scroll_up"@
        } else if has_prefix(s, "\x1b[<65;"@) {
            "mouse_scroll_down"@
        } else if has_suffix(s, "m"@) {
            if menu_active {
                "mouse_click"@
            } else {
                match mouse_target(mouse, x, y) {
                    Some(n) => n,
                    None => "mouse_click"@,
                }
            }
        } else {
            Seq::empty()
        }
    } else if s == "\\"@ {
        "\\"@
    } else {
        match escape_lookup(esc, s.drop_first()) {
            Some(n) => n,
            None => if s.len() == 1 { s } else { Seq::empty() },
        }
    }
}

/// The queue after a key is read: the key is added at the end, and the
/// oldest is dropped when more than 10 wait.
pub open spec fn queue_push(q: Seq<Seq<char>>, k: Seq<char>) -> Seq<Seq<char>> {
    let l = q.push(k);
    if l.len() > 10 { l.drop_first() } else { l }
}

/// Whether the mouse, the escape sequences, the idle event and the flags
/// of the reader other than stopping are the same in `a` and `b`.
pub open spec fn key_kept(a: Key, b: Key) -> bool {
    &&& b.mouse.pairs() == a.mouse.pairs()
    &&& b.mouse_pos == a.mouse_pos
    &&& b.escape@ == a.escape@
    &&& b.idle == a.idle
    &&& b.mouse_report == a.mouse_report
    &&& b.started == a.started
}

/// The input state: keys read and not yet taken, the mouse, the escape
/// sequences known, and the events shared with the reader thread.
pub struct Key {
    pub list: Vec<String>,
    pub mouse: StrMap<Vec<Vec<i32>>>,
    pub mouse_pos: (i32, i32),
    pub escape: Vec<(KeyUnion, String)>,
    pub new: Event,
    pub idle: Event,
    pub mouse_move: Event,
    pub mouse_report: bool,
    pub stopping: bool,
    pub started: bool,
}

/// The escape sequences a fresh input state knows, with their names.
pub open spec fn default_escapes() -> Seq<(Seq<char>, Seq<char>)> {
    seq![
        ("\n"@, "enter"@),
        ("\x7f\x08"@, "backspace"@),
        ("[AOA"@, "up"@),
        ("[BOB"@, "down"@),
        ("[DOD"@, "left"@),
        ("[COC"@, "right"@),
        ("[2~"@, "insert"@),
        ("[3~"@, "delete"@),
        ("[H"@, "home"@),
        ("[F"@, "end"@),
        ("[5~"@, "page_up"@),
        ("[6~"@, "page_down"@),
        ("\t"@, "tab"@),
        ("[Z"@, "shift_tab"@),
        ("OP"@, "f1"@),
        ("OQ"@, "f2"@),
        ("OR"@, "f3"@),
        ("OS"@, "f4"@),
        ("[15"@, "f5"@),
        ("[17"@, "f6"@),
        ("[18"@, "f7"@),
        ("[19"@, "f8"@),
        ("[20"@, "f9"@),
        ("[21"@, "f10"@),
        ("[23"@, "f11"@),
        ("[24"@, "f12"@),
    ]
}

/// An escape sequence as plain characters: one string, or two strings
/// read one after the other.
pub enum KeyCode {
    One(Seq<char>),
    Two(Seq<char>, Seq<char>),
}

/// The plain form of an escape sequence.
pub open spec fn code_view(u: KeyUnion) -> KeyCode {
    match u {
        KeyUnion::String(s) => KeyCode::One(s@),
        KeyUnion::Tuple((a, b)) => KeyCode::Two(a@, b@),
    }
}

/// The escape sequences a fresh reader knows, in the form each is given
/// (one string or two), with their key names.
pub open spec fn default_escape_table() -> Seq<(KeyCode, Seq<char>)> {
    seq![
        (KeyCode::One("\n"@), "enter"@),
        (KeyCode::Two("\x7f"@, "\x08"@), "backspace"@),
        (KeyCode::Two("[A"@, "OA"@), "up"@),
        (KeyCode::Two("[B"@, "OB"@), "down"@),
        (KeyCode::Two("[D"@, "OD"@), "left"@),
        (KeyCode::Two("[C"@, "OC"@), "right"@),
        (KeyCode::One("[2~"@), "insert"@),
        (KeyCode::One("[3~"@), "delete"@),
        (KeyCode::One("[H"@), "home"@),
        (KeyCode::One("[F"@), "end"@),
        (KeyCode::One("[5~"@), "page_up"@),
        (KeyCode::One("[6~"@), "page_down"@),
        (KeyCode::One("\t"@), "tab"@),
        (KeyCode::One("[Z"@), "shift_tab"@),
        (KeyCode::One("OP"@), "f1"@),
        (KeyCode::One("OQ"@), "f2"@),
        (KeyCode::One("OR"@), "f3"@),
        (KeyCode::One("OS"@), "f4"@),
        (KeyCode::One("[15"@), "f5"@),
        (KeyCode::One("[17"@), "f6"@),
        (KeyCode::One("[18"@), "f7"@),
        (KeyCode::One("[19"@), "f8"@),
        (KeyCode::One("[20"@), "f9"@),
        (KeyCode::One("[21"@), "f10"@),
        (KeyCode::One("[23"@), "f11"@),
        (KeyCode::One("[24"@), "f12"@),
    ]
}

/// Whether two cells are equal (`Vec<i32> == Vec<i32>`).
fn cells_eq(a: &Vec<i32>, b: &Vec<i32>) -> (r: bool)
    ensures
        r == (a@ == b@),
{
    if a.len() != b.len() {
        return false;
    }
    let mut i: usize = 0;
    while i < a.len()
        invariant
            a.len() == b.len(),
            i <= a.len(),
            forall|j: int| 0 <= j < i ==> a@[j] == b@[j],
        decreases a.len() - i,
    {
        if a[i] != b[i] {
            return false;
        }
        i = i + 1;
    }
    assert(a@ =~= b@);
    true
}

/// Whether a region holds a cell (`Vec::contains`).
fn region_contains(cells: &Vec<Vec<i32>>, cell: &Vec<i32>) -> (r: bool)
    ensures
        r == (exists|j: int| 0 <= j < cells@.len() && cells@[j]@ == cell@),
{
    let mut i: usize = 0;
    while i < cells.len()
        invariant
            i <= cells.len(),
            forall|j: int| 0 <= j < i ==> cells@[j]@ != cell@,
        decreases cells.len() - i,
    {
        if cells_eq(&cells[i], cell) {
            return true;
        }
        i = i + 1;
    }
    false
}

impl Key {
    /// The first clickable region that holds the cell `x`, `y`.
    fn find_region(&self, x: i32, y: i32) -> (r: Option<String>)
        ensures
            match r {
                Some(n) => mouse_target(self.mouse.pairs(), x, y) == Some(n@),
                None => mouse_target(self.mouse.pairs(), x, y) is None,
            },
    {
        let mut cell: Vec<i32> = Vec::new();
        cell.push(x);
        cell.push(y);
        assert(cell@ =~= seq![x, y]);
        let mut i: usize = 0;
        assert(self.mouse.pairs().skip(0) =~= self.mouse.pairs());
        while i < self.mouse.len()
            invariant
                i <= self.mouse.pairs().len(),
                cell@ == seq![x, y],
                mouse_target(self.mouse.pairs(), x, y) == mouse_target(self.mouse.pairs().skip(i as int), x, y),
            decreases self.mouse.pairs().len() - i,
        {
            let ghost rest = self.mouse.pairs().skip(i as int);
            assert(rest[0] == self.mouse.pairs()[i as int]);
            assert(rest.drop_first() =~= self.mouse.pairs().skip(i + 1));
            if region_contains(self.mouse.value_at(i), &cell) {
                return Some(self.mouse.key_at(i).clone());
            }
            i = i + 1;
        }
        assert(self.mouse.pairs().skip(i as int).len() == 0);
        None
    }

    /// The name of the first escape sequence that `body` starts with.
    fn find_escape(&self, body: &Vec<char>) -> (r: Option<String>)
        ensures
            match r {
                Some(n) => escape_lookup(self.escape@, body@) == Some(n@),
                None => escape_lookup(self.escape@, body@) is None,
            },
    {
        let mut i: usize = 0;
        assert(self.escape@.skip(0) =~= self.escape@);
        while i < self.escape.len()
            invariant
                i <= self.escape@.len(),
                escape_lookup(self.escape@, body@) == escape_lookup(self.escape@.skip(i as int), body@),
            decreases self.escape@.len() - i,
        {
            let ghost rest = self.escape@.skip(i as int);
            assert(rest[0] == self.escape@[i as int]);
            assert(rest.drop_first() =~= self.escape@.skip(i + 1));
            let code: Vec<char> = match &self.escape[i].0 {
                KeyUnion::String(s) => chars_of(s.as_str()),
                KeyUnion::Tuple((a, b)) => {
                    let mut both = String::new();
                    push_str(&mut both, a.as_str());
                    push_str(&mut both, b.as_str());
                    chars_of(both.as_str())
                },
            };
            if starts_with(body, &code) {
                return Some(self.escape[i].1.clone());
            }
            i = i + 1;
        }
        assert(self.escape@.skip(i as int).len() == 0);
        None
    }
}

impl Key {
    /// A fresh input state: no keys, no clickable regions, the mouse at
    /// 0, 0, the known escape sequences (see `default_escapes`) and every
    /// event cleared.
    pub fn new() -> (k: Self)
        ensures
            k.list@.len() == 0,
            k.mouse@ == Map::<Seq<char>, Vec<Vec<i32>>>::empty(),
            k.mouse_pos == (0i32, 0i32),
            k.escape@.len() == default_escapes().len(),
            forall|i: int| 0 <= i < k.escape@.len() ==> code_of(#[trigger] k.escape@[i].0) == default_escapes()[i].0
                && k.escape@[i].1@ == default_escapes()[i].1,
            forall|i: int| 0 <= i < k.escape@.len() ==> code_view(#[trigger] k.escape@[i].0) == default_escape_table()[i].0,
            k.new.t == EventEnum::Flag(false),
            k.idle.t == EventEnum::Flag(false),
            k.mouse_move.t == EventEnum::Flag(false),
            !k.mouse_report && !k.stopping && !k.started,
    {
        let mut e: Vec<(KeyUnion, String)> = Vec::new();
        e.push((KeyUnion::String(owned("\n")), owned("enter")));
        e.push((KeyUnion::Tuple((owned("\x7f"), owned("\x08"))), owned("backspace")));
        e.push((KeyUnion::Tuple((owned("[A"), owned("OA"))), owned("up")));
        e.push((KeyUnion::Tuple((owned("[B"), owned("OB"))), owned("down")));
        e.push((KeyUnion::Tuple((owned("[D"), owned("OD"))), owned("left")));
        e.push((KeyUnion::Tuple((owned("[C"), owned("OC"))), owned("right")));
        e.push((KeyUnion::String(owned("[2~")), owned("insert")));
        e.push((KeyUnion::String(owned("[3~")), owned("delete")));
        e.push((KeyUnion::String(owned("[H")), owned("home")));
        e.push((KeyUnion::String(owned("[F")), owned("end")));
        e.push((KeyUnion::String(owned("[5~")), owned("page_up")));
        e.push((KeyUnion::String(owned("[6~")), owned("page_down")));
        e.push((KeyUnion::String(owned("\t")), owned("tab")));
        e.push((KeyUnion::String(owned("[Z")), owned("shift_tab")));
        e.push((KeyUnion::String(owned("OP")), owned("f1")));
        e.push((KeyUnion::String(owned("OQ")), owned("f2")));
        e.push((KeyUnion::String(owned("OR")), owned("f3")));
        e.push((KeyUnion::String(owned("OS")), owned("f4")));
        e.push((KeyUnion::String(owned("[15")), owned("f5")));
        e.push((KeyUnion::String(owned("[17")), owned("f6")));
        e.push((KeyUnion::String(owned("[18")), owned("f7")));
        e.push((KeyUnion::String(owned("[19")), owned("f8")));
        e.push((KeyUnion::String(owned("[20")), owned("f9")));
        e.push((KeyUnion::String(owned("[21")), owned("f10")));
        e.push((KeyUnion::String(owned("[23")), owned("f11")));
        e.push((KeyUnion::String(owned("[24")), owned("f12")));
        proof {
            reveal_strlit("\x7f");
            reveal_strlit("\x08");
            reveal_strlit("\x7f\x08");
            reveal_strlit("[A");
            reveal_strlit("OA");
            reveal_strlit("[AOA");
            reveal_strlit("[B");
            reveal_strlit("OB");
            reveal_strlit("[BOB");
            reveal_strlit("[D");
            reveal_strlit("OD");
            reveal_strlit("[DOD");
            reveal_strlit("[C");
            reveal_strlit("OC");
            reveal_strlit("[COC");
            assert("\x7f"@ + "\x08"@ =~= "\x7f\x08"@);
            assert("[A"@ + "OA"@ =~= "[AOA"@);
            assert("[B"@ + "OB"@ =~= "[BOB"@);
            assert("[D"@ + "OD"@ =~= "[DOD"@);
            assert("[C"@ + "OC"@ =~= "[COC"@);
        }
        let k = Key {
            list: Vec::new(),
            mouse: StrMap::new(),
            mouse_pos: (0, 0),
            escape: e,
            new: Event { t: EventEnum::Flag(false) },
            idle: Event { t: EventEnum::Flag(false) },
            mouse_move: Event { t: EventEnum::Flag(false) },
            mouse_report: false,
            stopping: false,
            started: false,
        };
        assert(k.mouse@ =~= Map::<Seq<char>, Vec<Vec<i32>>>::empty());
        k
    }

    /// Asks the reader to stop.
    pub fn stop(&mut self)
        ensures
            final(self).stopping,
            final(self).list@ == old(self).list@,
            final(self).new == old(self).new,
            final(self).mouse_move == old(self).mouse_move,
            key_kept(*old(self), *final(self)),
    {
        self.stopping = true;
    }

    /// Takes the key read last, if any.
    pub fn last(&mut self) -> (r: Option<String>)
        ensures
            old(self).list@.len() > 0 ==> r == Some(old(self).list@.last()) && final(self).list@ == old(self).list@.drop_last(),
            old(self).list@.len() == 0 ==> r is None && final(self).list@ == old(self).list@,
            final(self).new == old(self).new,
            final(self).mouse_move == old(self).mouse_move,
            final(self).stopping == old(self).stopping,
            key_kept(*old(self), *final(self)),
    {
        if self.list.len() > 0 {
            self.list.pop()
        } else {
            None
        }
    }

    /// Takes the key read first, if any.
    pub fn get(&mut self) -> (r: Option<String>)
        ensures
            old(self).list@.len() > 0 ==> r == Some(old(self).list@[0]) && final(self).list@ == old(self).list@.drop_first(),
            old(self).list@.len() == 0 ==> r is None && final(self).list@ == old(self).list@,
            final(self).new == old(self).new,
            final(self).mouse_move == old(self).mouse_move,
            final(self).stopping == old(self).stopping,
            key_kept(*old(self), *final(self)),
    {
        if self.list.len() > 0 {
            let first = self.list.remove(0);
            assert(self.list@ =~= old(self).list@.drop_first());
            Some(first)
        } else {
            None
        }
    }

    /// The cell of the mouse; the new-input event is cleared.
    pub fn get_mouse(&mut self) -> (r: (i32, i32))
        ensures
            r == old(self).mouse_pos,
            final(self).new.t == (if old(self).new.t == EventEnum::Flag(true) { EventEnum::Flag(false) } else { old(self).new.t }),
            final(self).list@ == old(self).list@,
            final(self).mouse_move == old(self).mouse_move,
            final(self).stopping == old(self).stopping,
            key_kept(*old(self), *final(self)),
    {
        if self.new.is_set() {
            self.new.replace_self(EventEnum::Flag(false));
        }
        self.mouse_pos
    }

    /// Whether the mouse moved since last asked; the event is cleared.
    pub fn mouse_moved(&mut self) -> (r: bool)
        ensures
            r == (old(self).mouse_move.t == EventEnum::Flag(true)),
            final(self).mouse_move.t == (if r { EventEnum::Flag(false) } else { old(self).mouse_move.t }),
            final(self).list@ == old(self).list@,
            final(self).new == old(self).new,
            final(self).stopping == old(self).stopping,
            key_kept(*old(self), *final(self)),
    {
        if self.mouse_move.is_set() {
            self.mouse_move.replace_self(EventEnum::Flag(false));
            true
        } else {
            false
        }
    }

    /// Whether a key waits.
    pub fn has_key(&mut self) -> (r: bool)
        ensures
            r == (old(self).list@.len() > 0),
            *final(self) == *old(self),
    {
        self.list.len() > 0
    }

    /// Drops the keys that wait.
    pub fn clear(&mut self)
        ensures
            final(self).list@.len() == 0,
            final(self).new == old(self).new,
            final(self).mouse_move == old(self).mouse_move,
            final(self).stopping == old(self).stopping,
            key_kept(*old(self), *final(self)),
    {
        self.list = Vec::new();
    }

    /// Wakes a waiting reader: queues the key "_null" and clears the
    /// new-input event (the caller pauses briefly and clears it again).
    pub fn break_wait(&mut self)
        ensures
            views(&final(self).list@) == views(&old(self).list@).push("_null"@),
            final(self).new.t == EventEnum::Flag(false),
            final(self).mouse_move == old(self).mouse_move,
            final(self).stopping == old(self).stopping,
            key_kept(*old(self), *final(self)),
    {
        self.list.push(owned("_null"));
        assert(views(&self.list@) =~= views(&old(self).list@).push("_null"@));
        self.new.replace_self(EventEnum::Flag(false));
    }

    /// Decodes one input sequence read from the terminal (see
    /// `decoded_key`): a mouse report moves the mouse, and a move sets the
    /// move and new-input events; a key name is queued (see `queue_push`)
    /// and sets the new-input event.
    #[verifier::rlimit(50)]
    pub fn decode(&mut self, input: &str, menu_active: bool)
        requires
            decodable(input@),
        ensures
            ({
                let s = input@;
                let k = decoded_key(s, menu_active, old(self).mouse.pairs(), old(self).escape@);
                let moved = mouse_report(s) && has_prefix(s, "\x1b[<35;"@);
                &&& final(self).mouse_pos == (if mouse_report(s) { mouse_cell(s).unwrap() } else { old(self).mouse_pos })
                &&& final(self).mouse_move.t == (if moved { EventEnum::Flag(true) } else { old(self).mouse_move.t })
                &&& final(self).new.t == (if moved || k.len() > 0 { EventEnum::Flag(true) } else { old(self).new.t })
                &&& views(&final(self).list@) == (if k.len() > 0 { queue_push(views(&old(self).list@), k) } else { views(&old(self).list@) })
                &&& final(self).mouse.pairs() == old(self).mouse.pairs()
                &&& final(self).escape@ == old(self).escape@
                &&& final(self).idle == old(self).idle
                &&& final(self).mouse_report == old(self).mouse_report
                &&& final(self).stopping == old(self).stopping
                &&& final(self).started == old(self).started
            }),
    {
        let s = chars_of(input);
        let clean = self.decode_name(input, &s, menu_active);
        let cs = chars_of(clean.as_str());
        if cs.len() > 0 {
            let ghost before = views(&self.list@);
            self.list.push(clean);
            assert(views(&self.list@) =~= before.push(cs@));
            if self.list.len() > 10 {
                self.list.remove(0);
                assert(views(&self.list@) =~= before.push(cs@).drop_first());
            }
            self.new.replace_self(EventEnum::Flag(true));
        }
    }

    /// The key name of a mouse report, with the mouse updates of `decode`.
    #[verifier::rlimit(50)]
    fn decode_mouse(&mut self, s: &Vec<char>, menu_active: bool) -> (clean: String)
        requires
            mouse_report(s@),
            mouse_cell(s@) is Some,
        ensures
            ({
                let moved = has_prefix(s@, "\x1b[<35;"@);
                &&& clean@ == decoded_key(s@, menu_active, old(self).mouse.pairs(), old(self).escape@)
                &&& final(self).mouse_pos == mouse_cell(s@).unwrap()
                &&& final(self).mouse_move.t == (if moved { EventEnum::Flag(true) } else { old(self).mouse_move.t })
                &&& final(self).new.t == (if moved { EventEnum::Flag(true) } else { old(self).new.t })
                &&& final(self).list@ == old(self).list@
                &&& final(self).mouse.pairs() == old(self).mouse.pairs()
                &&& final(self).escape@ == old(self).escape@
                &&& final(self).idle == old(self).idle
                &&& final(self).mouse_report == old(self).mouse_report
                &&& final(self).stopping == old(self).stopping
                &&& final(self).started == old(self).started
            }),
    {
        proof {
            reveal_strlit("\x1b");
            reveal_strlit("\x1b[<0;");
            reveal_strlit("\x1b[<35;");
            reveal_strlit("\x1b[<64;");
            reveal_strlit("\x1b[<65;");
            assert(s@ != "\x1b"@);
        }
        let m35 = chars_of("\x1b[<35;");
        let m64 = chars_of("\x1b[<64;");
        let m65 = chars_of("\x1b[<65;");
        let parts = split_chars(s, ';');
        let mm = chars_of("mM");
        let x: i32 = parse_i32_chars(&parts[1]).unwrap();
        let t = trim_end_matches(&parts[2], &mm);
        let y: i32 = parse_i32_chars(&trim_start_matches(&t, &mm)).unwrap();
        self.mouse_pos = (x, y);
        if starts_with(s, &m35) {
            self.mouse_move.replace_self(EventEnum::Flag(true));
            self.new.replace_self(EventEnum::Flag(true));
            String::new()
        } else if starts_with(s, &m64) {
            owned("mouse_scroll_up")
        } else if starts_with(s, &m65) {
            owned("mouse_scroll_down")
        } else if ends_with(s, &chars_of("m")) {
            if menu_active {
                owned("mouse_click")
            } else {
                match self.find_region(x, y) {
                    Some(n) => n,
                    None => owned("mouse_click"),
                }
            }
        } else {
            String::new()
        }
    }

    /// The key name of an input, with the mouse updates of `decode`.
    #[verifier::rlimit(50)]
    fn decode_name(&mut self, input: &str, s: &Vec<char>, menu_active: bool) -> (clean: String)
        requires
            decodable(input@),
            s@ == input@,
        ensures
            ({
                let s = input@;
                let moved = mouse_report(s) && has_prefix(s, "\x1b[<35;"@);
                &&& clean@ == decoded_key(s, menu_active, old(self).mouse.pairs(), old(self).escape@)
                &&& final(self).mouse_pos == (if mouse_report(s) { mouse_cell(s).unwrap() } else { old(self).mouse_pos })
                &&& final(self).mouse_move.t == (if moved { EventEnum::Flag(true) } else { old(self).mouse_move.t })
                &&& final(self).new.t == (if moved { EventEnum::Flag(true) } else { old(self).new.t })
                &&& final(self).list@ == old(self).list@
                &&& final(self).mouse.pairs() == old(self).mouse.pairs()
                &&& final(self).escape@ == old(self).escape@
                &&& final(self).idle == old(self).idle
                &&& final(self).mouse_report == old(self).mouse_report
                &&& final(self).stopping == old(self).stopping
                &&& final(self).started == old(self).started
            }),
    {
        proof {
            reveal_strlit("\x1b");
            reveal_strlit("\x1b[<0;");
            reveal_strlit("\x1b[<35;");
            reveal_strlit("\x1b[<64;");
            reveal_strlit("\x1b[<65;");
            reveal_strlit("\\");
        }
        let m0 = chars_of("\x1b[<0;");
        let m35 = chars_of("\x1b[<35;");
        let m64 = chars_of("\x1b[<64;");
        let m65 = chars_of("\x1b[<65;");
        if str_eq(input, "\x1b") {
            let r = owned("escape");
            assert(r@ == decoded_key(input@, menu_active, self.mouse.pairs(), self.escape@));
            assert(!mouse_report(input@));
            r
        } else if starts_with(s, &m0) || starts_with(s, &m35) || starts_with(s, &m64) || starts_with(s, &m65) {
            assert(mouse_report(input@));
            let r = self.decode_mouse(s, menu_active);
            assert(r@ == decoded_key(input@, menu_active, old(self).mouse.pairs(), old(self).escape@));
            r
        } else if str_eq(input, "\\") {
            let r = owned("\\");
            assert(r@ == decoded_key(input@, menu_active, self.mouse.pairs(), self.escape@));
            r
        } else {
            let body = slice_chars(s, 1, s.len());
            assert(body@ =~= input@.drop_first());
            let r = match self.find_escape(&body) {
                Some(n) => n,
                None => if s.len() == 1 { owned(input) } else { String::new() },
            };
            assert(!mouse_report(input@));
            assert(input@ != "\x1b"@);
            assert(r@ == decoded_key(input@, menu_active, self.mouse.pairs(), self.escape@));
            r
        }
    }
}

/// The cell of a mouse report, when it can be read (see `mouse_cell`).
fn read_cell(s: &Vec<char>) -> (r: Option<(i32, i32)>)
    ensures
        r == mouse_cell(s@),
{
    let parts = split_chars(s, ';');
    if parts.len() < 3 {
        return None;
    }
    let mm = chars_of("mM");
    let x = parse_i32_chars(&parts[1]);
    let t = trim_end_matches(&parts[2], &mm);
    let y = parse_i32_chars(&trim_start_matches(&t, &mm));
    match (x, y) {
        (Some(a), Some(b)) => Some((a, b)),
        _ => None,
    }
}

/// Whether an input read from the terminal can be decoded (see
/// `decodable`): a lone escape, a mouse report whose cell can be read, a
/// backslash, or an escape sequence.
pub fn can_decode(input: &str) -> (r: bool)
    ensures
        r == decodable(input@),
{
    proof {
        reveal_strlit("\x1b[<0;");
        reveal_strlit("\x1b[<35;");
        reveal_strlit("\x1b[<64;");
        reveal_strlit("\x1b[<65;");
    }
    if str_eq(input, "\x1b") {
        return true;
    }
    let s = chars_of(input);
    let m0 = chars_of("\x1b[<0;");
    let m35 = chars_of("\x1b[<35;");
    let m64 = chars_of("\x1b[<64;");
    let m65 = chars_of("\x1b[<65;");
    if starts_with(&s, &m0) || starts_with(&s, &m35) || starts_with(&s, &m64) || starts_with(&s, &m65) {
        read_cell(&s).is_some()
    } else {
        str_eq(input, "\\") || starts_with(&s, &chars_of("\x1b"))
    }
}

} // verus!

//! Text effects: the escape sequences that set and reset bold, dark,
//! italic, underlined, blinking and struck-through text.
use vstd::prelude::*;
use crate::text::{chars_of, push_char};

verus! {

/// Escape sequence start.
pub const start: &'static str = "\x1b[";

/// Escape sequence separator.
pub const sep: &'static str = ";";

/// Escape sequence end.
pub const end: &'static str = "m";

pub const reset: &'static str = "\x1b[0m";

pub const rs: &'static str = "\x1b[0m";

pub const bold: &'static str = "\x1b[1m";

/// Bold on.
pub const b: &'static str = "\x1b[1m";

pub const unbold: &'static str = "\x1b[22m";

/// Bold off.
pub const ub: &'static str = "\x1b[22m";

pub const dark: &'static str = "\x1b[2m";

/// Dark on.
pub const d: &'static str = "\x1b[2m";

pub const undark: &'static str = "\x1b[22m";

/// Dark off.
pub const ud: &'static str = "\x1b[22m";

pub const italic: &'static str = "\x1b[3m";

/// Italic on.
pub const i: &'static str = "\x1b[3m";

pub const unitalic: &'static str = "\x1b[23m";

/// Italic off.
pub const ui: &'static str = "\x1b[23m";

pub const underline: &'static str = "\x1b[4m";

/// Underline on.
pub const u: &'static str = "\x1b[4m";

pub const ununderline: &'static str = "\x1b[24m";

/// Underline off.
pub const uu: &'static str = "\x1b[24m";

pub const blink: &'static str = "\x1b[5m";

/// Blink on.
pub const bl: &'static str = "\x1b[5m";

pub const unblink: &'static str = "\x1b[25m";

/// Blink off.
pub const ubl: &'static str = "\x1b[25m";

pub const strike: &'static str = "\x1b[9m";

/// Strike / crossed-out on.
pub const s: &'static str = "\x1b[9m";

pub const unstrike: &'static str = "\x1b[29m";

/// Strike / crossed-out off.
pub const us: &'static str = "\x1b[29m";

/// The pattern of a 24-bit colour escape sequence.
pub open spec fn color_pattern() -> Seq<char> {
    "\\x1b\\[\\d+;\\d?;?\\d*;?\\d*;?\\d*m"@
}

#[verifier::external_type_specification]
#[verifier::external_body]
pub struct ExRegex(regex::Regex);

/// A regular expression with the pattern it was compiled from.
pub struct CompiledRegex {
    pattern: String,
    re: regex::Regex,
}

impl CompiledRegex {
    /// The pattern the expression was compiled from.
    pub closed spec fn pattern(&self) -> Seq<char> {
        self.pattern@
    }
}

/// Whether `regex::Regex::new` accepts pattern `p`.
pub uninterp spec fn regex_accepts(p: Seq<char>) -> bool;

/// What `regex::Regex::replace_all` gives for the expression of pattern
/// `p`, the haystack `text` and the replacement `rep`.
pub uninterp spec fn regex_replaced(p: Seq<char>, text: Seq<char>, rep: Seq<char>) -> Seq<char>;

/// `regex::Regex::new`: the expression of pattern `p`, when the crate
/// accepts it. The contract says when that is only by naming it, and that
/// the expression keeps the pattern it was compiled from.
#[verifier::external_body]
fn compile(p: &str) -> (r: Option<CompiledRegex>)
    ensures
        r is Some <==> regex_accepts(p@),
        r matches Some(c) ==> c.pattern() == p@,
{
    match regex::Regex::new(p) {
        Ok(re) => Some(CompiledRegex { pattern: p.to_string(), re: re }),
        Err(_) => None,
    }
}

/// `regex::Regex::replace_all`: `text` with every match of the expression
/// replaced by `rep` (in which `$` names a group). The contract names the
/// result.
#[verifier::external_body]
fn replace_all(c: &CompiledRegex, text: &str, rep: &str) -> (r: String)
    ensures
        r@ == regex_replaced(c.pattern(), text@, rep@),
{
    c.re.replace_all(text, rep).into_owned()
}

/// The text effects.
pub struct Fx {}

/// `t` with every space replaced by a one-column cursor move right.
pub open spec fn transparent(t: Seq<char>) -> Seq<char>
    decreases t.len(),
{
    if t.len() == 0 {
        t
    } else {
        transparent(t.drop_last()) + (if t.last() == ' ' { seq!['\x1b', '[', '1', 'C'] } else { seq![t.last()] })
    }
}

impl Fx {
    /// The expression that finds a 24-bit colour escape sequence in a
    /// text.
    pub fn color_re() -> (r: CompiledRegex)
        requires
            regex_accepts(color_pattern()),
        ensures
            r.pattern() == color_pattern(),
    {
        let r = compile("\\x1b\\[\\d+;\\d?;?\\d*;?\\d*;?\\d*m");
        r.unwrap()
    }

    /// The empty text with every colour escape sequence replaced by
    /// `string`: the expression is given an empty haystack and `string` as
    /// the replacement.
    pub fn uncolor(string: String) -> (r: String)
        requires
            regex_accepts(color_pattern()),
        ensures
            r@ == regex_replaced(color_pattern(), ""@, string@),
    {
        let re = Fx::color_re();
        replace_all(&re, "", string.as_str())
    }

    /// `uncolor`, when the colour pattern compiles; `None` when it does
    /// not.
    pub fn try_uncolor(string: String) -> (r: Option<String>)
        ensures
            r is Some <==> regex_accepts(color_pattern()),
            r matches Some(t) ==> t@ == regex_replaced(color_pattern(), ""@, string@),
    {
        match compile("\\x1b\\[\\d+;\\d?;?\\d*;?\\d*;?\\d*m") {
            Some(_) => Some(Fx::uncolor(string)),
            None => None,
        }
    }
    /// `string` with its spaces made transparent: each one becomes a move
    /// of the cursor one column right.
    pub fn trans(string: String) -> (r: String)
        ensures
            r@ == transparent(string@),
    {
        let cs = chars_of(string.as_str());
        let mut r = String::new();
        let mut k: usize = 0;
        assert(cs@.take(0) =~= Seq::<char>::empty());
        while k < cs.len()
            invariant
                k <= cs.len(),
                r@ == transparent(cs@.take(k as int)),
            decreases cs.len() - k,
        {
            assert(cs@.take(k + 1).drop_last() =~= cs@.take(k as int));
            if cs[k] == ' ' {
                push_char(&mut r, '\x1b');
                push_char(&mut r, '[');
                push_char(&mut r, '1');
                push_char(&mut r, 'C');
                assert(r@ =~= transparent(cs@.take(k + 1)));
            } else {
                push_char(&mut r, cs[k]);
                assert(r@ =~= transparent(cs@.take(k + 1)));
            }
            k = k + 1;
        }
        assert(cs@.take(cs.len() as int) =~= cs@);
        r
    }
}

} // verus!

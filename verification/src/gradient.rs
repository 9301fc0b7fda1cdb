//! Colour gradients: the fields that a theme's gradient table must have,
//! and the traits by which a theme gives its gradients and builds itself
//! from a table.
use vstd::prelude::*;
use crate::strmap::StrMap;
use crate::text::{owned, push_str};
use crate::brshtop_box::views;

verus! {

/// A theme that gives its gradients: for each name, the colours at the
/// start, middle and end.
pub trait Gradient {
    fn gradient(&self) -> StrMap<(String, String, String)>;
}

/// A value built from a table of named values.
pub trait FromMap: Sized {
    type Value: Default + Copy;

    fn from_map(map: StrMap<Self::Value>) -> Self;
}

/// A value built from a table of named values, with a default table.
pub trait FromMapDefault: Default {
    type Value: Default + Copy + From<String>;

    fn from_map_default(map: StrMap<Self::Value>) -> Self;

    fn default_map() -> StrMap<Self::Value>;
}

/// The kinds of gradient of a theme.
pub open spec fn prefixes() -> Seq<Seq<char>> {
    seq!["temp"@, "cpu"@, "free"@, "cached"@, "available"@, "used"@, "download"@, "upload"@, "process"@]
}

/// The points of a gradient.
pub open spec fn suffixes() -> Seq<Seq<char>> {
    seq!["start"@, "mid"@, "end"@]
}

/// The names of the gradient fields: each kind with each point, kind by
/// kind (`temp_start`, `temp_mid`, `temp_end`, `cpu_start`, ...).
pub open spec fn field_names() -> Seq<Seq<char>> {
    Seq::new(27, |i: int| prefixes()[i / 3] + "_"@ + suffixes()[i % 3])
}

/// The kinds of gradient, in order.
fn prefix_list() -> (r: Vec<&'static str>)
    ensures
        r@.len() == 9,
        forall|i: int| 0 <= i < 9 ==> r@[i]@ == prefixes()[i],
{
    let r = vec!["temp", "cpu", "free", "cached", "available", "used", "download", "upload", "process"];
    r
}

/// The points of a gradient, in order.
fn suffix_list() -> (r: Vec<&'static str>)
    ensures
        r@.len() == 3,
        forall|i: int| 0 <= i < 3 ==> r@[i]@ == suffixes()[i],
{
    let r = vec!["start", "mid", "end"];
    r
}

/// The names of the gradient fields (see `field_names`).
pub fn gradient_fields() -> (r: Vec<String>)
    ensures
        views(&r@) == field_names(),
{
    let ps = prefix_list();
    let ss = suffix_list();
    let mut r: Vec<String> = Vec::new();
    let mut i: usize = 0;
    while i < 9
        invariant
            i <= 9,
            ps@.len() == 9,
            ss@.len() == 3,
            forall|k: int| 0 <= k < 9 ==> ps@[k]@ == prefixes()[k],
            forall|k: int| 0 <= k < 3 ==> ss@[k]@ == suffixes()[k],
            r@.len() == 3 * i,
            forall|k: int| 0 <= k < 3 * i ==> r@[k]@ == field_names()[k],
        decreases 9 - i,
    {
        let mut j: usize = 0;
        while j < 3
            invariant
                i < 9,
                j <= 3,
                ps@.len() == 9,
                ss@.len() == 3,
                forall|k: int| 0 <= k < 9 ==> ps@[k]@ == prefixes()[k],
                forall|k: int| 0 <= k < 3 ==> ss@[k]@ == suffixes()[k],
                r@.len() == 3 * i + j,
                forall|k: int| 0 <= k < 3 * i + j ==> r@[k]@ == field_names()[k],
            decreases 3 - j,
        {
            let mut name = owned(ps[i]);
            push_str(&mut name, "_");
            push_str(&mut name, ss[j]);
            assert((3 * i + j) / 3 == i as int && (3 * i + j) % 3 == j as int) by (nonlinear_arith)
                requires
                    j < 3,
            ;
            r.push(name);
            j = j + 1;
        }
        i = i + 1;
    }
    assert(views(&r@) =~= field_names());
    r
}

/// The gradient fields that `names` lacks, in the order of `field_names`.
pub open spec fn missing_fields(names: Seq<Seq<char>>) -> Seq<Seq<char>> {
    field_names().filter(|f: Seq<char>| !names.contains(f))
}

/// The gradient fields that are not among `field_names_present`; a theme
/// has all its gradients when there are none.
pub fn missing_gradient_fields(field_names_present: &Vec<String>) -> (r: Vec<String>)
    ensures
        views(&r@) == missing_fields(views(&field_names_present@)),
{
    let all = gradient_fields();
    let ghost fs = views(&all@);
    let ghost names = views(&field_names_present@);
    let mut r: Vec<String> = Vec::new();
    let mut i: usize = 0;
    assert(fs.take(0).filter(|f: Seq<char>| !names.contains(f)) =~= Seq::<Seq<char>>::empty());
    while i < all.len()
        invariant
            i <= all.len(),
            fs == views(&all@),
            fs == field_names(),
            names == views(&field_names_present@),
            views(&r@) == fs.take(i as int).filter(|f: Seq<char>| !names.contains(f)),
        decreases all.len() - i,
    {
        let present = contains_text_in(field_names_present, all[i].as_str());
        assert(fs.take(i + 1).drop_last() =~= fs.take(i as int));
        proof {
            fs.take(i as int).lemma_filter_push(fs[i as int], |f: Seq<char>| !names.contains(f));
            assert(fs.take(i as int).push(fs[i as int]) =~= fs.take(i + 1));
        }
        if !present {
            let ghost before = views(&r@);
            r.push(all[i].clone());
            assert(views(&r@) =~= before.push(fs[i as int]));
        }
        i = i + 1;
    }
    assert(fs.take(all.len() as int) =~= fs);
    r
}

/// Whether `v` holds a string equal to `n`.
fn contains_text_in(v: &Vec<String>, n: &str) -> (r: bool)
    ensures
        r == views(&v@).contains(n@),
{
    let mut i: usize = 0;
    while i < v.len()
        invariant
            i <= v.len(),
            forall|j: int| 0 <= j < i ==> v@[j]@ != n@,
        decreases v.len() - i,
    {
        if crate::text::str_eq(v[i].as_str(), n) {
            assert(views(&v@)[i as int] == n@);
            return true;
        }
        i = i + 1;
    }
    assert forall|j: int| 0 <= j < views(&v@).len() implies views(&v@)[j] != n@ by {
        assert(views(&v@)[j] == v@[j]@);
    }
    false
}

} // verus!

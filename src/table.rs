//! Folding and comparing UTF-16 code units with a fold table.
use std::cmp::Ordering;
use std::collections::BTreeMap;
use vstd::prelude::*;
use crate::data::{default_map, gen_mappings};
use crate::parse::overlay;

verus! {

broadcast use vstd::std_specs::btree::group_btree_axioms, vstd::laws_cmp::group_laws_cmp;

/// The canonical form of `u`: its entry in `m`, or `u` itself.
pub open spec fn fold_unit(m: Map<u16, u16>, u: u16) -> u16 {
    if m.contains_key(u) {
        m[u]
    } else {
        u
    }
}

/// Whether `a` and `b` are the same unit ignoring case.
pub open spec fn fold_equal(m: Map<u16, u16>, a: u16, b: u16) -> bool {
    fold_unit(m, a) == fold_unit(m, b)
}

pub open spec fn order_ints(a: int, b: int) -> Ordering {
    if a < b {
        Ordering::Less
    } else if a > b {
        Ordering::Greater
    } else {
        Ordering::Equal
    }
}

/// Every canonical form of the table is its own canonical form.
pub open spec fn single_pass(m: Map<u16, u16>) -> bool {
    forall|u: u16| fold_unit(m, #[trigger] fold_unit(m, u)) == fold_unit(m, u)
}

/// The order of two units by their canonical forms.
pub open spec fn fold_order(m: Map<u16, u16>, a: u16, b: u16) -> Ordering {
    order_ints(fold_unit(m, a) as int, fold_unit(m, b) as int)
}

/// The order of `a` and `b` from position `i` on: the first position where
/// the canonical forms differ decides; where none does, the shorter sequence
/// is less.
pub open spec fn compare_from(m: Map<u16, u16>, a: Seq<u16>, b: Seq<u16>, i: int) -> Ordering
    decreases a.len() - i,
{
    if i < 0 || i >= a.len() || i >= b.len() {
        order_ints(a.len() as int, b.len() as int)
    } else if !fold_equal(m, a[i], b[i]) {
        fold_order(m, a[i], b[i])
    } else {
        compare_from(m, a, b, i + 1)
    }
}

/// The case-insensitive order of two sequences of code units.
pub open spec fn compare_folded(m: Map<u16, u16>, a: Seq<u16>, b: Seq<u16>) -> Ordering {
    compare_from(m, a, b, 0)
}

/// The UTF-16 encoding of one character.
pub open spec fn utf16_of_char(c: char) -> Seq<u16> {
    let v = c as u32 as int;
    if v < 0x10000 {
        seq![v as u16]
    } else {
        seq![(0xD800 + (v - 0x10000) / 0x400) as u16, (0xDC00 + (v - 0x10000) % 0x400) as u16]
    }
}

/// The UTF-16 encoding of a string.
pub open spec fn utf16_of(s: Seq<char>) -> Seq<u16>
    decreases s.len(),
{
    if s.len() == 0 {
        seq![]
    } else {
        utf16_of(s.drop_last()) + utf16_of_char(s.last())
    }
}

/// Relies on `str::encode_utf16`: the UTF-16 code units of the string, in order.
#[verifier::external_body]
fn encode_utf16(s: &str) -> (r: Vec<u16>)
    ensures
        r@ == utf16_of(s@),
{
    s.encode_utf16().collect()
}

/// A fold table: each key maps to its canonical form, and a unit that is not
/// a key is its own canonical form.
pub struct Casefold {
    map: BTreeMap<u16, u16>,
}

impl View for Casefold {
    type V = Map<u16, u16>;

    closed spec fn view(&self) -> Map<u16, u16> {
        self.map@
    }
}

impl Casefold {
    /// The default fold table.
    pub fn new() -> (r: Self)
        ensures
            r@ == default_map(),
    {
        Casefold { map: gen_mappings() }
    }

    /// A fold table with the given mapping.
    pub fn from_map(map: BTreeMap<u16, u16>) -> (r: Self)
        ensures
            r@ == map@,
    {
        Casefold { map }
    }

    /// Looks up the case mapping.
    pub fn get(&self, unit: u16) -> (r: u16)
        ensures
            r == fold_unit(self@, unit),
    {
        match self.map.get(&unit) {
            Some(v) => *v,
            None => unit,
        }
    }

    /// The mapping itself.
    pub fn into_map(self) -> (r: BTreeMap<u16, u16>)
        ensures
            r@ == self@,
    {
        self.map
    }

    /// Whether two units are the same ignoring case.
    pub fn equal(&self, a: u16, b: u16) -> (r: bool)
        ensures
            r == fold_equal(self@, a, b),
    {
        self.get(a) == self.get(b)
    }

    /// Orders two units by their canonical forms.
    pub fn cmp(&self, a: u16, b: u16) -> (r: Ordering)
        ensures
            r == fold_order(self@, a, b),
    {
        let (x, y) = (self.get(a), self.get(b));
        if x < y {
            Ordering::Less
        } else if x > y {
            Ordering::Greater
        } else {
            Ordering::Equal
        }
    }

    /// Whether every canonical form is its own canonical form, so that one
    /// folding pass is enough for every unit.
    pub fn folds_in_one_pass(&self) -> (r: bool)
        ensures
            r == single_pass(self@),
    {
        let mut n: u32 = 0;
        while n <= 0xFFFF
            invariant
                n <= 0x10000,
                forall|u: u16| (u as u32) < n ==> fold_unit(self@, #[trigger] fold_unit(self@, u)) == fold_unit(self@, u),
            decreases 0x10000 - n,
        {
            let u = n as u16;
            let f = self.get(u);
            if self.get(f) != f {
                return false;
            }
            n = n + 1;
        }
        true
    }

    /// Compares two sequences of UTF-16 code units ignoring case, unit by unit;
    /// where one is a prefix of the other, the shorter is less.
    pub fn compare_units(&self, a: &[u16], b: &[u16]) -> (r: Ordering)
        ensures
            r == compare_folded(self@, a@, b@),
    {
        let mut i: usize = 0;
        while i < a.len() && i < b.len()
            invariant
                i <= a@.len(),
                i <= b@.len(),
                compare_from(self@, a@, b@, i as int) == compare_folded(self@, a@, b@),
            decreases a@.len() - i,
        {
            let o = self.cmp(a[i], b[i]);
            match o {
                Ordering::Equal => {},
                _ => return o,
            }
            i = i + 1;
        }
        if a.len() < b.len() {
            Ordering::Less
        } else if a.len() > b.len() {
            Ordering::Greater
        } else {
            Ordering::Equal
        }
    }
}

/// Compares two strings ignoring case, by their UTF-16 code units and the
/// default fold table.
pub fn compare_str(a: &str, b: &str) -> (r: Ordering)
    ensures
        r == compare_folded(default_map(), utf16_of(a@), utf16_of(b@)),
{
    let map = Casefold::new();
    let ua = encode_utf16(a);
    let ub = encode_utf16(b);
    map.compare_units(ua.as_slice(), ub.as_slice())
}

/// A unit that is not a key of the table is its own canonical form.
pub proof fn lemma_unmapped_unit_is_fixed(m: Map<u16, u16>, u: u16)
    requires
        !m.contains_key(u),
    ensures
        fold_unit(m, u) == u,
{
}

/// Every unit equals itself ignoring case.
pub proof fn lemma_equal_reflexive(m: Map<u16, u16>, x: u16)
    ensures
        fold_equal(m, x, x),
{
}

/// Equality ignoring case does not depend on the order of its arguments.
pub proof fn lemma_equal_symmetric(m: Map<u16, u16>, a: u16, b: u16)
    ensures
        fold_equal(m, a, b) == fold_equal(m, b, a),
{
}

/// A correction (k, w) decides the entry of k over whatever the records gave,
/// when no later correction is for k.
pub proof fn lemma_correction_wins(
    m: Map<u16, u16>,
    adj: Seq<(u16, u16)>,
    i: int,
    k: u16,
    w: u16,
)
    requires
        0 <= i < adj.len(),
        adj[i] == (k, w),
        forall|j: int| i < j < adj.len() ==> (#[trigger] adj[j]).0 != k,
    ensures
        overlay(m, adj).contains_key(k),
        overlay(m, adj)[k] == w,
    decreases adj.len(),
{
    if i < adj.len() - 1 {
        assert(adj.last() == adj[adj.len() - 1]);
        assert forall|j: int| i < j < adj.drop_last().len() implies (
        #[trigger] adj.drop_last()[j]).0 != k by {
            assert(adj.drop_last()[j] == adj[j]);
        }
        lemma_correction_wins(m, adj.drop_last(), i, k, w);
    }
}

/// A sequence that is a proper prefix of another is less than it.
pub proof fn lemma_prefix_is_less(m: Map<u16, u16>, a: Seq<u16>, b: Seq<u16>)
    requires
        a.len() < b.len(),
        a == b.take(a.len() as int),
    ensures
        compare_folded(m, a, b) == Ordering::Less,
{
    let n = a.len() as int;
    assert forall|i: int| 0 <= i <= n implies #[trigger] compare_from(m, a, b, i) == Ordering::Less by {
        lemma_prefix_from(m, a, b, i);
    }
    assert(compare_from(m, a, b, 0) == Ordering::Less);
}

proof fn lemma_prefix_from(m: Map<u16, u16>, a: Seq<u16>, b: Seq<u16>, i: int)
    requires
        a.len() < b.len(),
        a == b.take(a.len() as int),
        0 <= i <= a.len(),
    ensures
        compare_from(m, a, b, i) == Ordering::Less,
    decreases a.len() - i,
{
    if i < a.len() {
        assert(a[i] == b[i]);
        lemma_prefix_from(m, a, b, i + 1);
    }
}

} // verus!

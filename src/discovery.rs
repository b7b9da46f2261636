//! Comparing a fold table with the upper-case mapping of a platform.
use std::collections::BTreeMap;
use vstd::prelude::*;
use crate::table::fold_unit;

verus! {

broadcast use vstd::std_specs::btree::group_btree_axioms, vstd::laws_cmp::group_laws_cmp;

/// Whether `u` is a UTF-16 surrogate unit.
pub open spec fn is_surrogate(u: u16) -> bool {
    0xD800 <= u <= 0xDFFF
}

/// The mapping given by a table of upper-case forms, indexed by unit: each
/// unit outside the surrogate range whose upper-case form differs from it.
pub open spec fn os_map_spec(upper: Seq<u16>) -> Map<u16, u16> {
    Map::new(|u: u16| !is_surrogate(u) && upper[u as int] != u, |u: u16| upper[u as int])
}

/// The units outside the surrogate range on which two tables disagree, each
/// with its canonical form in the first.
pub open spec fn diff_spec(reference: Map<u16, u16>, candidate: Map<u16, u16>) -> Map<u16, u16> {
    Map::new(
        |u: u16| !is_surrogate(u) && fold_unit(reference, u) != fold_unit(candidate, u),
        |u: u16| fold_unit(reference, u),
    )
}

/// The platform's mapping, from the upper-case form of every unit (`upper[u]`
/// for unit `u`). Surrogate units are left out.
pub fn gen_os_map(upper: &[u16]) -> (r: BTreeMap<u16, u16>)
    requires
        upper@.len() == 0x10000,
    ensures
        r@ == os_map_spec(upper@),
{
    let mut map: BTreeMap<u16, u16> = BTreeMap::new();
    let mut n: u32 = 0;
    while n <= 0xFFFF
        invariant
            n <= 0x10000,
            upper@.len() == 0x10000,
            map@ == Map::new(
                |u: u16| (u as u32) < n && !is_surrogate(u) && upper@[u as int] != u,
                |u: u16| upper@[u as int],
            ),
        decreases 0x10000 - n,
    {
        let lower = n as u16;
        if !(lower >= 0xD800 && lower <= 0xDFFF) {
            let up = upper[n as usize];
            if up != lower {
                map.insert(lower, up);
            }
        }
        n = n + 1;
        assert(map@ =~= Map::new(
            |u: u16| (u as u32) < n && !is_surrogate(u) && upper@[u as int] != u,
            |u: u16| upper@[u as int],
        ));
    }
    assert(map@ =~= os_map_spec(upper@));
    map
}

/// The units on which `candidate` disagrees with `reference`, each mapped to
/// its canonical form in `reference`. Surrogate units are left out.
pub fn mapping_diff(reference: &BTreeMap<u16, u16>, candidate: &BTreeMap<u16, u16>) -> (r: BTreeMap<
    u16,
    u16,
>)
    ensures
        r@ == diff_spec(reference@, candidate@),
{
    let mut map: BTreeMap<u16, u16> = BTreeMap::new();
    let mut n: u32 = 0;
    while n <= 0xFFFF
        invariant
            n <= 0x10000,
            map@ == Map::new(
                |u: u16|
                    (u as u32) < n && !is_surrogate(u) && fold_unit(reference@, u) != fold_unit(
                        candidate@,
                        u,
                    ),
                |u: u16| fold_unit(reference@, u),
            ),
        decreases 0x10000 - n,
    {
        let unit = n as u16;
        if !(unit >= 0xD800 && unit <= 0xDFFF) {
            let a = match reference.get(&unit) {
                Some(v) => *v,
                None => unit,
            };
            let b = match candidate.get(&unit) {
                Some(v) => *v,
                None => unit,
            };
            if a != b {
                map.insert(unit, a);
            }
        }
        n = n + 1;
        assert(map@ =~= Map::new(
            |u: u16|
                (u as u32) < n && !is_surrogate(u) && fold_unit(reference@, u) != fold_unit(
                    candidate@,
                    u,
                ),
            |u: u16| fold_unit(reference@, u),
        ));
    }
    assert(map@ =~= diff_spec(reference@, candidate@));
    map
}

/// The candidate with the fewest disagreements, from the number of each: the
/// first of the smallest counts, or `None` when there is no candidate.
pub fn closest_candidate(counts: &[usize]) -> (r: Option<usize>)
    ensures
        match r {
            None => counts@.len() == 0,
            Some(i) => {
                &&& i < counts@.len()
                &&& forall|j: int| 0 <= j < counts@.len() ==> counts@[i as int] <= #[trigger] counts@[j]
                &&& forall|j: int| 0 <= j < i ==> counts@[j] > #[trigger] counts@[i as int]
            },
        },
{
    if counts.len() == 0 {
        return None;
    }
    let mut best: usize = 0;
    let mut k: usize = 1;
    while k < counts.len()
        invariant
            1 <= k <= counts@.len(),
            best < k,
            forall|j: int| 0 <= j < k ==> counts@[best as int] <= #[trigger] counts@[j],
            forall|j: int| 0 <= j < best ==> counts@[j] > #[trigger] counts@[best as int],
        decreases counts@.len() - k,
    {
        if counts[k] < counts[best] {
            best = k;
        }
        k = k + 1;
    }
    Some(best)
}

/// Neither the platform's mapping nor a difference of tables has a surrogate
/// unit as a key.
pub proof fn lemma_no_surrogate_keys(upper: Seq<u16>, a: Map<u16, u16>, b: Map<u16, u16>, u: u16)
    requires
        is_surrogate(u),
    ensures
        !os_map_spec(upper).contains_key(u),
        !diff_spec(a, b).contains_key(u),
{
}

} // verus!

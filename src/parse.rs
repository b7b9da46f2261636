//! Reading case-folding records into a fold table.
use std::collections::BTreeMap;
use vstd::prelude::*;
use vstd::string::StringSliceAdditionalSpecFns;

verus! {

broadcast use vstd::std_specs::btree::group_btree_axioms, vstd::laws_cmp::group_laws_cmp;

pub open spec fn is_hex_digit(b: u8) -> bool {
    (48 <= b <= 57) || (65 <= b <= 70) || (97 <= b <= 102)
}

pub open spec fn hex_digit_value(b: u8) -> nat {
    if b <= 57 {
        (b - 48) as nat
    } else if b <= 70 {
        (b - 55) as nat
    } else {
        (b - 87) as nat
    }
}

/// The value of a sequence of hexadecimal digits, most significant first.
pub open spec fn digits_value(s: Seq<u8>) -> nat
    decreases s.len(),
{
    if s.len() == 0 {
        0
    } else {
        digits_value(s.drop_last()) * 16 + hex_digit_value(s.last())
    }
}

pub open spec fn all_hex_digits(s: Seq<u8>) -> bool {
    forall|i: int| 0 <= i < s.len() ==> is_hex_digit(#[trigger] s[i])
}

/// A hexadecimal number that fits in 16 bits: at least one hexadecimal digit,
/// of either case, and nothing else.
pub open spec fn hex_u16(s: Seq<u8>) -> Option<u16> {
    if s.len() > 0 && all_hex_digits(s) && digits_value(s) <= 0xFFFF {
        Some(digits_value(s) as u16)
    } else {
        None
    }
}

proof fn lemma_digits_value_prefix(s: Seq<u8>, k: int)
    requires
        0 <= k <= s.len(),
    ensures
        digits_value(s.take(k)) <= digits_value(s),
    decreases s.len(),
{
    if k < s.len() {
        assert(s.drop_last().take(k) == s.take(k));
        lemma_digits_value_prefix(s.drop_last(), k);
    } else {
        assert(s.take(k) == s);
    }
}

/// Parses `s[start..end]` as a hexadecimal 16-bit number.
fn from_hex(s: &Vec<u8>, start: usize, end: usize) -> (r: Option<u16>)
    requires
        start <= end <= s@.len(),
    ensures
        r == hex_u16(s@.subrange(start as int, end as int)),
{
    let ghost f = s@.subrange(start as int, end as int);
    if start == end {
        return None;
    }
    let mut i: usize = start;
    let first: usize = i;
    let mut acc: u32 = 0;
    while i < end
        invariant
            first <= i <= end <= s@.len(),
            first < end,
            f == s@.subrange(start as int, end as int),
            f == s@.subrange(first as int, end as int),
            acc as nat == digits_value(s@.subrange(first as int, i as int)),
            acc <= 0xFFFF,
            all_hex_digits(s@.subrange(first as int, i as int)),
        decreases end - i,
    {
        let b = s[i];
        let v: u32;
        if 48 <= b && b <= 57 {
            v = (b - 48) as u32;
        } else if 65 <= b && b <= 70 {
            v = (b - 55) as u32;
        } else if 97 <= b && b <= 102 {
            v = (b - 87) as u32;
        } else {
            assert(f[i - first] == b);
            assert(!all_hex_digits(f));
            assert(hex_u16(f) is None);
            return None;
        }
        let ghost p = s@.subrange(first as int, i + 1);
        assert(p.drop_last() == s@.subrange(first as int, i as int));
        assert(p.last() == b);
        assert(v as nat == hex_digit_value(b));
        acc = acc * 16 + v;
        assert(acc as nat == digits_value(p));
        if acc > 0xFFFF {
            proof {
                assert(f.take(i + 1 - first) == p);
                lemma_digits_value_prefix(f, i + 1 - first);
                assert(digits_value(f) > 0xFFFF);
                assert(hex_u16(f) is None);
            }
            return None;
        }
        i = i + 1;
    }
    assert(s@.subrange(first as int, i as int) == f);
    Some(acc as u16)
}

/// Whether a `"; "` separator starts at byte `i` of `s`.
pub open spec fn sep_at(s: Seq<u8>, i: int) -> bool {
    0 <= i && i + 1 < s.len() && s[i] == 59 && s[i + 1] == 32
}

/// The first separator at or after `from`, or -1 when there is none.
pub open spec fn find_sep(s: Seq<u8>, from: int) -> int
    decreases s.len() - from,
{
    if from < 0 || from + 1 >= s.len() {
        -1
    } else if sep_at(s, from) {
        from
    } else {
        find_sep(s, from + 1)
    }
}

/// Where the field that starts at `from` ends.
pub open spec fn field_end(s: Seq<u8>, from: int) -> int {
    if find_sep(s, from) < 0 {
        s.len() as int
    } else {
        find_sep(s, from)
    }
}

/// The statuses of records that map one unit to one unit in every locale:
/// common (`C`) and simple (`S`).
pub open spec fn is_simple_status(s: Seq<u8>) -> bool {
    s == seq![67u8] || s == seq![83u8]
}

/// The effect of one line on the table: `None` when the line is malformed.
/// Empty lines and lines that start with `#` leave the table as it is. Of the
/// other lines, the first three `"; "`-separated fields are read (code, status,
/// folded unit); a common or simple record whose code and folded unit are four
/// bytes each maps the folded unit to the code.
pub open spec fn apply_line(m: Map<u16, u16>, line: Seq<u8>) -> Option<Map<u16, u16>> {
    if line.len() == 0 || line[0] == 35 {
        Some(m)
    } else {
        let e1 = find_sep(line, 0);
        let e2 = find_sep(line, e1 + 2);
        let e3 = field_end(line, e2 + 2);
        if e1 < 0 || e2 < 0 {
            None
        } else {
            let code = line.subrange(0, e1);
            let status = line.subrange(e1 + 2, e2);
            let folded = line.subrange(e2 + 2, e3);
            if is_simple_status(status) && code.len() == 4 && folded.len() == 4 {
                match (hex_u16(folded), hex_u16(code)) {
                    (Some(k), Some(v)) => Some(m.insert(k, v)),
                    _ => None,
                }
            } else {
                Some(m)
            }
        }
    }
}

/// A line ended by `\n` loses one `\r` before it.
pub open spec fn strip_cr(line: Seq<u8>) -> Seq<u8> {
    if line.len() > 0 && line.last() == 13 {
        line.drop_last()
    } else {
        line
    }
}

/// Reads the lines of `s` from byte `i` on, the current line having begun at
/// `start`, into `m`.
pub open spec fn scan_lines(m: Map<u16, u16>, s: Seq<u8>, start: int, i: int) -> Option<
    Map<u16, u16>,
>
    decreases s.len() - i,
{
    if i < 0 || i >= s.len() {
        if 0 <= start < s.len() {
            apply_line(m, s.subrange(start, s.len() as int))
        } else {
            Some(m)
        }
    } else if s[i] == 10 {
        match apply_line(m, strip_cr(s.subrange(start, i))) {
            Some(m2) => scan_lines(m2, s, i + 1, i + 1),
            None => None,
        }
    } else {
        scan_lines(m, s, start, i + 1)
    }
}

/// The table that the records of `s` give, before corrections.
pub open spec fn parse_records(s: Seq<u8>) -> Option<Map<u16, u16>> {
    scan_lines(Map::empty(), s, 0, 0)
}

/// Lays the corrections over `m` in order: a later entry for a key wins.
pub open spec fn overlay(m: Map<u16, u16>, adj: Seq<(u16, u16)>) -> Map<u16, u16>
    decreases adj.len(),
{
    if adj.len() == 0 {
        m
    } else {
        overlay(m, adj.drop_last()).insert(adj.last().0, adj.last().1)
    }
}

/// The fold table of source text `s` and corrections `adj`.
pub open spec fn build_spec(s: Seq<u8>, adj: Seq<(u16, u16)>) -> Option<Map<u16, u16>> {
    match parse_records(s) {
        Some(m) => Some(overlay(m, adj)),
        None => None,
    }
}

/// The first separator in `line` at or after `from`.
fn next_sep(line: &Vec<u8>, from: usize) -> (r: Option<usize>)
    requires
        from <= line@.len(),
    ensures
        match r {
            Some(k) => k as int == find_sep(line@, from as int) && from <= k && k + 1 < line@.len(),
            None => find_sep(line@, from as int) == -1,
        },
{
    let mut j: usize = from;
    while j < line.len()
        invariant
            from <= j <= line@.len(),
            find_sep(line@, from as int) == find_sep(line@, j as int),
        decreases line@.len() - j,
    {
        if j + 1 < line.len() && line[j] == 59 && line[j + 1] == 32 {
            return Some(j);
        }
        j = j + 1;
    }
    None
}

/// Applies one line to the table; false when the line is malformed.
fn read_line(map: &mut BTreeMap<u16, u16>, line: &Vec<u8>) -> (ok: bool)
    ensures
        match apply_line(old(map)@, line@) {
            Some(m) => ok && final(map)@ == m,
            None => !ok,
        },
{
    if line.len() == 0 || line[0] == 35 {
        return true;
    }
    let e1 = match next_sep(line, 0) {
        Some(e) => e,
        None => return false,
    };
    let e2 = match next_sep(line, e1 + 2) {
        Some(e) => e,
        None => return false,
    };
    let e3 = match next_sep(line, e2 + 2) {
        Some(e) => e,
        None => line.len(),
    };
    let ghost status = line@.subrange(e1 + 2, e2 as int);
    let simple = e2 == e1 + 3 && (line[e1 + 2] == 67 || line[e1 + 2] == 83);
    proof {
        if e2 == e1 + 3 {
            assert(status =~= seq![line@[e1 + 2]]);
            if status == seq![67u8] {
                assert(status[0] == seq![67u8][0]);
            }
            if status == seq![83u8] {
                assert(status[0] == seq![83u8][0]);
            }
        } else {
            assert(status.len() != 1);
            assert(seq![67u8].len() == 1 && seq![83u8].len() == 1);
        }
        assert(simple == is_simple_status(status));
    }
    if simple && e1 == 4 && e3 - (e2 + 2) == 4 {
        let k = match from_hex(line, e2 + 2, e3) {
            Some(k) => k,
            None => return false,
        };
        let v = match from_hex(line, 0, e1) {
            Some(v) => v,
            None => return false,
        };
        map.insert(k, v);
    }
    true
}

/// Lays the corrections over the table, in order.
pub fn apply_corrections(map: &mut BTreeMap<u16, u16>, adjustment: &[(u16, u16)])
    ensures
        final(map)@ == overlay(old(map)@, adjustment@),
{
    let ghost base = map@;
    let mut k: usize = 0;
    while k < adjustment.len()
        invariant
            map@ == overlay(base, adjustment@.take(k as int)),
            k <= adjustment@.len(),
        decreases adjustment@.len() - k,
    {
        let (a, b) = adjustment[k];
        assert(adjustment@.take(k + 1).drop_last() == adjustment@.take(k as int));
        map.insert(a, b);
        k = k + 1;
    }
    assert(adjustment@.take(k as int) == adjustment@);
}

/// Copies `s[start..end]`.
fn copy_range(s: &[u8], start: usize, end: usize) -> (r: Vec<u8>)
    requires
        start <= end <= s@.len(),
    ensures
        r@ == s@.subrange(start as int, end as int),
{
    let mut r: Vec<u8> = Vec::new();
    let mut i: usize = start;
    while i < end
        invariant
            start <= i <= end <= s@.len(),
            r@ == s@.subrange(start as int, i as int),
        decreases end - i,
    {
        r.push(s[i]);
        i = i + 1;
    }
    r
}

/// Reads the lines of `data` into the table; false when a line is malformed.
pub fn read_records(map: &mut BTreeMap<u16, u16>, data: &str) -> (ok: bool)
    ensures
        match scan_lines(old(map)@, data.spec_bytes(), 0, 0) {
            Some(m) => ok && final(map)@ == m,
            None => !ok,
        },
{
    let s = data.as_bytes();
    let ghost sb = s@;
    let ghost m0 = map@;
    let mut start: usize = 0;
    let mut i: usize = 0;
    while i < s.len()
        invariant
            s@ == sb,
            sb == data.spec_bytes(),
            m0 == old(map)@,
            start <= i <= sb.len(),
            scan_lines(map@, sb, start as int, i as int) == scan_lines(m0, sb, 0, 0),
        decreases sb.len() - i,
    {
        if s[i] == 10 {
            let end = if i > start && s[i - 1] == 13 {
                i - 1
            } else {
                i
            };
            let line = copy_range(s, start, end);
            assert(line@ == strip_cr(sb.subrange(start as int, i as int)));
            if !read_line(map, &line) {
                return false;
            }
            start = i + 1;
        }
        i = i + 1;
    }
    if start < s.len() {
        let line = copy_range(s, start, s.len());
        if !read_line(map, &line) {
            return false;
        }
    }
    true
}

/// Builds a fold table from case-folding source text and a list of corrections.
///
/// Each line is ended by `\n` (a `\r` before it is dropped) or by the end of
/// the text. Returns `None` when a line that is neither empty nor a comment has
/// fewer than three fields, or when an accepted record holds a field that is
/// not a hexadecimal number of 16 bits. The corrections are applied after all
/// records, in order.
pub fn try_gen_mappings(data: &str, adjustment: &[(u16, u16)]) -> (r: Option<BTreeMap<u16, u16>>)
    ensures
        match build_spec(data.spec_bytes(), adjustment@) {
            Some(m) => r is Some && r->0@ == m,
            None => r is None,
        },
{
    let mut map: BTreeMap<u16, u16> = BTreeMap::new();
    if !read_records(&mut map, data) {
        return None;
    }
    apply_corrections(&mut map, adjustment);
    Some(map)
}

} // verus!

use std::cmp::Ordering;
use std::collections::BTreeMap;

use wincase::data::shipped_records_are_well_formed;
use wincase::{closest_candidate, compare_str, gen_mappings, gen_os_map, mapping_diff, try_gen_mappings, Casefold};

#[test]
fn compare_str_ignores_case() {
    assert_eq!(compare_str("Hello", "HeLlo"), Ordering::Equal);
    assert_eq!(compare_str("a", "A"), Ordering::Equal);
}

#[test]
fn compare_str_shorter_prefix_is_less() {
    assert_eq!(compare_str("ab", "abc"), Ordering::Less);
    assert_eq!(compare_str("abc", "ab"), Ordering::Greater);
    assert_eq!(compare_str("", ""), Ordering::Equal);
    assert_eq!(compare_str("", "a"), Ordering::Less);
}

#[test]
fn compare_str_orders_by_folded_units() {
    assert_eq!(compare_str("Apple", "banana"), Ordering::Less);
    assert_eq!(compare_str("banana", "Apple"), Ordering::Greater);
    assert_eq!(compare_str("apple", "BANANA"), Ordering::Less);
}

#[test]
fn compare_str_uses_utf16_units() {
    // U+1F600 is the pair D83D DE00; 'a' folds to 0x41, below the high surrogate.
    assert_eq!(compare_str("\u{1F600}", "a"), Ordering::Greater);
    assert_eq!(compare_str("\u{E9}", "\u{C9}"), Ordering::Equal);
}

#[test]
fn default_table_is_deterministic() {
    let a = gen_mappings();
    let b = gen_mappings();
    assert_eq!(a, b);
    assert_eq!(Casefold::new().into_map(), a);
}

#[test]
fn default_table_holds_records_and_corrections() {
    let t = Casefold::new();
    assert_eq!(t.get(0x61), 0x41);
    assert_eq!(t.get(0x6b), 0x4b);
    assert_eq!(t.get(0x73), 0x53);
    assert_eq!(t.get(0xdf), 0xdf);
    assert_eq!(t.get(0xe5), 0xc5);
    assert_eq!(t.get(0x3c3), 0x3a3);
    assert_eq!(t.get(0x1e61), 0x1e60);
    assert_eq!(t.get(0x430), 0x410);
    assert_eq!(t.get(0xa641), 0xa640);
    assert_eq!(t.get(0xa723), 0xa722);
    assert_eq!(t.get(0xa78c), 0xa78b);
}

#[test]
fn shipped_records_parse() {
    assert!(shipped_records_are_well_formed());
}

#[test]
fn default_table_normalizes_in_one_pass() {
    let t = Casefold::new();
    for u in 0..=u16::MAX {
        assert_eq!(t.get(t.get(u)), t.get(u), "unit {:#06x}", u);
    }
    assert!(t.folds_in_one_pass());
    let mut chained = BTreeMap::new();
    chained.insert(0x61u16, 0x62u16);
    chained.insert(0x62, 0x63);
    assert!(!Casefold::from_map(chained).folds_in_one_pass());
}

#[test]
fn unmapped_unit_is_itself() {
    let t = Casefold::new();
    let map = gen_mappings();
    for u in [0x31u16, 0x41, 0x20, 0xD800, 0xFFFF] {
        assert!(!map.contains_key(&u));
        assert_eq!(t.get(u), u);
    }
}

#[test]
fn equal_is_reflexive_and_symmetric() {
    let t = Casefold::new();
    for x in 0..=u16::MAX {
        assert!(t.equal(x, x));
    }
    let pairs = [(0x61u16, 0x41u16), (0x41, 0x62), (0x3c3, 0x3a3), (0x6b, 0x212a), (0x0, 0xffff)];
    for (a, b) in pairs {
        assert_eq!(t.equal(a, b), t.equal(b, a));
    }
    assert!(t.equal(0x61, 0x41));
    assert!(!t.equal(0x61, 0x42));
}

#[test]
fn cmp_orders_canonical_forms() {
    let t = Casefold::new();
    assert_eq!(t.cmp(0x61, 0x42), Ordering::Less);
    assert_eq!(t.cmp(0x62, 0x41), Ordering::Greater);
    assert_eq!(t.cmp(0x61, 0x41), Ordering::Equal);
}

#[test]
fn compare_units_with_custom_table() {
    let mut map = BTreeMap::new();
    map.insert(0x10u16, 0x30u16);
    let t = Casefold::from_map(map);
    assert_eq!(t.compare_units(&[0x10, 0x01], &[0x30, 0x01]), Ordering::Equal);
    assert_eq!(t.compare_units(&[0x10], &[0x20]), Ordering::Greater);
    assert_eq!(t.compare_units(&[0x10], &[0x30, 0x00]), Ordering::Less);
    assert_eq!(t.compare_units(&[], &[]), Ordering::Equal);
}

#[test]
fn unsupported_status_is_skipped() {
    assert_eq!(try_gen_mappings("00C1; X; 00E1", &[]), Some(BTreeMap::new()));
    assert_eq!(try_gen_mappings("00DF; F; 0073 0073; # SHARP S", &[]), Some(BTreeMap::new()));
    assert_eq!(try_gen_mappings("0049; T; 0131; # I", &[]), Some(BTreeMap::new()));
    assert_eq!(try_gen_mappings("10400; C; 10428; # DESERET", &[]), Some(BTreeMap::new()));
}

#[test]
fn malformed_lines_are_rejected() {
    assert_eq!(try_gen_mappings("0041; C", &[]), None);
    assert_eq!(try_gen_mappings("0041", &[]), None);
    assert_eq!(try_gen_mappings("0041; C; 00G1; # bad", &[]), None);
    assert_eq!(try_gen_mappings("00Z1; S; 0061", &[]), None);
    assert_eq!(try_gen_mappings("# comment\n\n0041; C; 0061\nx", &[]), None);
}

#[test]
fn records_map_folded_unit_to_code() {
    let text = "# header\n\n00C1; C; 00E1; # A WITH ACUTE\r\n1E9E; S; 00DF; # CAPITAL SHARP S\n0041; C; 0061";
    let mut expected = BTreeMap::new();
    expected.insert(0xE1u16, 0xC1u16);
    expected.insert(0xDF, 0x1E9E);
    expected.insert(0x61, 0x41);
    assert_eq!(try_gen_mappings(text, &[]), Some(expected));
    let mut lower_hex = BTreeMap::new();
    lower_hex.insert(0xe1u16, 0xc1u16);
    assert_eq!(try_gen_mappings("00c1; C; 00e1", &[]), Some(lower_hex.clone()));
    assert_eq!(try_gen_mappings("00c1; C; 00e1; # x", &[]), Some(lower_hex));
    assert_eq!(try_gen_mappings("+0c1; C; 00e1", &[]), None);
    assert_eq!(try_gen_mappings("00C1; C; +0e1", &[]), None);
}

#[test]
fn later_record_for_a_key_wins() {
    let t = try_gen_mappings("004B; C; 006B\n212A; C; 006B\n", &[]).unwrap();
    assert_eq!(t.get(&0x6b), Some(&0x212a));
}

#[test]
fn correction_overrides_record() {
    let t = try_gen_mappings("0041; C; 0061; # A\n", &[(0x61, 0x62)]).unwrap();
    assert_eq!(t.get(&0x61), Some(&0x62));
    let t = try_gen_mappings("0041; C; 0061; # A\n", &[(0x61, 0x1), (0x61, 0x2), (0x7, 0x8)]).unwrap();
    assert_eq!(t.get(&0x61), Some(&0x2));
    assert_eq!(t.get(&0x7), Some(&0x8));
    assert_eq!(try_gen_mappings("0041; C", &[(0x61, 0x62)]), None);
    let t = try_gen_mappings("", &[(0x61, 0x1), (0x62, 0x3)]).unwrap();
    assert_eq!(t.get(&0x61), Some(&0x1));
}

#[test]
fn os_map_skips_identity_and_surrogates() {
    let mut upper: Vec<u16> = (0..=u16::MAX).collect();
    upper[0x61] = 0x41;
    upper[0xD800] = 0x41;
    upper[0xDFFF] = 0x42;
    upper[0xE000] = 0x43;
    let map = gen_os_map(&upper);
    let mut expected = BTreeMap::new();
    expected.insert(0x61u16, 0x41u16);
    expected.insert(0xE000, 0x43);
    assert_eq!(map, expected);
}

#[test]
fn diff_lists_disagreements_outside_surrogates() {
    let mut reference = BTreeMap::new();
    reference.insert(0x61u16, 0x41u16);
    reference.insert(0xD801, 0x1);
    let mut candidate = BTreeMap::new();
    candidate.insert(0x62u16, 0x42u16);
    let diff = mapping_diff(&reference, &candidate);
    let mut expected = BTreeMap::new();
    expected.insert(0x61u16, 0x41u16);
    expected.insert(0x62, 0x62);
    assert_eq!(diff, expected);
    assert!(mapping_diff(&reference, &reference).is_empty());
}


#[test]
fn closest_candidate_picks_first_smallest() {
    assert_eq!(closest_candidate(&[]), None);
    assert_eq!(closest_candidate(&[5]), Some(0));
    assert_eq!(closest_candidate(&[7, 3, 9, 3]), Some(1));
    assert_eq!(closest_candidate(&[4, 4]), Some(0));
}

use unic_ucd_gen::compact::{compact_flags, compact_values};
use unic_ucd_gen::lookup::lookup_value;

fn pairs(items: &[(u32, &str)]) -> Vec<(u32, String)> {
    items.iter().map(|(c, v)| (*c, v.to_string())).collect()
}

fn rows(items: &[(u32, u32, &str)]) -> Vec<(u32, u32, String)> {
    items.iter().map(|(s, e, v)| (*s, *e, v.to_string())).collect()
}

#[test]
fn compact_empty_input() {
    assert_eq!(compact_values(&Vec::new()), Vec::new());
    assert_eq!(compact_flags(&Vec::new()), Vec::<(u32, u32)>::new());
}

#[test]
fn compact_single_codepoint() {
    assert_eq!(compact_values(&pairs(&[(0x41, "Lu")])), rows(&[(0x41, 0x41, "Lu")]));
}

#[test]
fn compact_merges_runs() {
    let input = pairs(&[
        (0x41, "Lu"),
        (0x42, "Lu"),
        (0x43, "Lu"),
        (0x44, "Ll"),
        (0x46, "Ll"),
        (0x47, "Ll"),
    ]);
    assert_eq!(
        compact_values(&input),
        rows(&[(0x41, 0x43, "Lu"), (0x44, 0x44, "Ll"), (0x46, 0x47, "Ll")])
    );
}

#[test]
fn compact_is_maximal_and_ordered() {
    let input = pairs(&[(1, "a"), (2, "b"), (3, "b"), (4, "a"), (9, "a"), (10, "a"), (11, "c")]);
    let t = compact_values(&input);
    assert_eq!(t, rows(&[(1, 1, "a"), (2, 3, "b"), (4, 4, "a"), (9, 10, "a"), (11, 11, "c")]));
    for w in t.windows(2) {
        assert!(w[0].0 <= w[0].1);
        assert!(w[0].1 < w[1].0);
        if w[0].1 + 1 == w[1].0 {
            assert_ne!(w[0].2, w[1].2);
        }
    }
}

#[test]
fn compact_round_trip_probe() {
    let input = pairs(&[(0, "x"), (1, "x"), (5, "y"), (6, "x"), (7, "x"), (0x10FFFF, "z")]);
    let t = compact_values(&input);
    for cp in 0..0x20u32 {
        let expected = input.iter().find(|(c, _)| *c == cp).map(|(_, v)| v.clone());
        assert_eq!(lookup_value(&t, cp), expected);
    }
    assert_eq!(lookup_value(&t, 0x10FFFF), Some("z".to_string()));
    assert_eq!(lookup_value(&t, 0x10FFFE), None);
}

#[test]
fn compact_flags_drops_false_runs() {
    let input = vec![(1, true), (2, true), (3, false), (4, true), (5, false), (6, false), (7, true)];
    assert_eq!(compact_flags(&input), vec![(1, 2), (4, 4), (7, 7)]);
    assert_eq!(compact_flags(&vec![(1, false), (2, false)]), vec![]);
}

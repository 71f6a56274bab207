use unic_ucd_gen::codepoint::{iter_all_chars, valid_codepoint_range};

#[test]
fn codepoint_range() {
    let r = valid_codepoint_range();
    assert_eq!(r.start, 0);
    assert_eq!(r.end, 0x110000);
}

#[test]
fn all_scalar_values() {
    let all = iter_all_chars();
    assert_eq!(all.len(), 0x110000 - 0x800);
    assert!(all.iter().all(|&c| !(0xD800..=0xDFFF).contains(&(c as u32))));
    assert_eq!(all[0], '\u{0}');
    assert_eq!(all[0xD7FF], '\u{D7FF}');
    assert_eq!(all[0xD800], '\u{E000}');
    assert_eq!(*all.last().unwrap(), '\u{10FFFF}');
    for w in all.windows(2) {
        assert!(w[0] < w[1]);
    }
}

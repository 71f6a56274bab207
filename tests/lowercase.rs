use unic_ucd_gen::lowercase::{is_lowercase, Lowercase};
use unic_ucd_gen::property::CharProperty;

#[test]
fn test_values() {
    // ASCII
    assert_eq!(is_lowercase('\u{0020}'), false);
    assert_eq!(is_lowercase('\u{0021}'), false);
    assert_eq!(is_lowercase('\u{0022}'), false);

    assert_eq!(is_lowercase('\u{0030}'), false);
    assert_eq!(is_lowercase('\u{0031}'), false);
    assert_eq!(is_lowercase('\u{0032}'), false);

    assert_eq!(is_lowercase('\u{0040}'), false);
    assert_eq!(is_lowercase('\u{0041}'), false);
    assert_eq!(is_lowercase('\u{0042}'), false);

    assert_eq!(is_lowercase('\u{0060}'), false);
    assert_eq!(is_lowercase('\u{0061}'), true);
    assert_eq!(is_lowercase('\u{0062}'), true);

    assert_eq!(is_lowercase('\u{007e}'), false);
    assert_eq!(is_lowercase('\u{007f}'), false);

    // Other BMP
    assert_eq!(is_lowercase('\u{061b}'), false);
    assert_eq!(is_lowercase('\u{061c}'), false);
    assert_eq!(is_lowercase('\u{061d}'), false);

    assert_eq!(is_lowercase('\u{200d}'), false);
    assert_eq!(is_lowercase('\u{200e}'), false);
    assert_eq!(is_lowercase('\u{200f}'), false);
    assert_eq!(is_lowercase('\u{2010}'), false);

    assert_eq!(is_lowercase('\u{2029}'), false);
    assert_eq!(is_lowercase('\u{202a}'), false);
    assert_eq!(is_lowercase('\u{202e}'), false);
    assert_eq!(is_lowercase('\u{202f}'), false);

    // Other Planes
    assert_eq!(is_lowercase('\u{10000}'), false);
    assert_eq!(is_lowercase('\u{10001}'), false);

    assert_eq!(is_lowercase('\u{20000}'), false);
    assert_eq!(is_lowercase('\u{30000}'), false);
    assert_eq!(is_lowercase('\u{40000}'), false);
    assert_eq!(is_lowercase('\u{50000}'), false);
    assert_eq!(is_lowercase('\u{60000}'), false);
    assert_eq!(is_lowercase('\u{70000}'), false);
    assert_eq!(is_lowercase('\u{80000}'), false);
    assert_eq!(is_lowercase('\u{90000}'), false);
    assert_eq!(is_lowercase('\u{a0000}'), false);
    assert_eq!(is_lowercase('\u{b0000}'), false);
    assert_eq!(is_lowercase('\u{c0000}'), false);
    assert_eq!(is_lowercase('\u{d0000}'), false);
    assert_eq!(is_lowercase('\u{e0000}'), false);

    assert_eq!(is_lowercase('\u{efffe}'), false);
    assert_eq!(is_lowercase('\u{effff}'), false);

    // Priavte-Use Area
    assert_eq!(is_lowercase('\u{f0000}'), false);
    assert_eq!(is_lowercase('\u{f0001}'), false);
    assert_eq!(is_lowercase('\u{ffffe}'), false);
    assert_eq!(is_lowercase('\u{fffff}'), false);
    assert_eq!(is_lowercase('\u{100000}'), false);
    assert_eq!(is_lowercase('\u{100001}'), false);
    assert_eq!(is_lowercase('\u{10fffe}'), false);
    assert_eq!(is_lowercase('\u{10ffff}'), false);
}

#[test]
fn lowercase_beyond_ascii() {
    assert!(is_lowercase('\u{00df}'));
    assert!(is_lowercase('\u{03b1}'));
    assert!(!is_lowercase('\u{0391}'));
    assert!(is_lowercase('\u{1e922}'));
    assert!(!is_lowercase('\u{1e900}'));
}

#[test]
fn lowercase_property_value() {
    assert_eq!(<Lowercase as CharProperty>::of('q'), Lowercase(true));
    assert_eq!(Lowercase::of('Q'), Lowercase(false));
    assert!(Lowercase::of('z').as_bool());
    assert_eq!(Lowercase::abbr_name(), "Lower");
    assert_eq!(Lowercase::long_name(), "Lowercase");
}

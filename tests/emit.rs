use unic_ucd_gen::emit::{
    emit_preamble, emit_range_bsearch_table, emit_strings, emit_table, emit_value,
    emit_value_range_bsearch_table,
};
use unic_ucd_gen::version::{emit_unicode_version, format_unicode_version, UnicodeVersion};

#[test]
fn preamble_banner() {
    let mut out = String::new();
    emit_preamble("gen/x.rs", &mut out);
    assert_eq!(out, "// WARNING: Auto-generated by gen/x.rs. DO NOT EDIT MANUALLY!\n");
}

#[test]
fn value_after_banner() {
    let mut out = String::from("start\n");
    emit_value("s", &mut out, "42");
    assert_eq!(out, "start\n// WARNING: Auto-generated by s. DO NOT EDIT MANUALLY!\n42\n");
}

#[test]
fn plain_table() {
    let mut out = String::new();
    emit_table("s", &mut out, &vec!["a".to_string(), "b".to_string()]);
    assert_eq!(out, "// WARNING: Auto-generated by s. DO NOT EDIT MANUALLY!\n&[\n    a,\n    b,\n]\n");
}

#[test]
fn range_table_rows() {
    let mut out = String::new();
    emit_range_bsearch_table("s", &mut out, &vec![(0x0, 0x9), (0x41, 0x10FFFF)]);
    assert_eq!(
        out,
        "// WARNING: Auto-generated by s. DO NOT EDIT MANUALLY!\n&[\n    (0x0,0x9),\n    (0x41,0x10FFFF),\n]\n"
    );
}

#[test]
fn value_range_table_rows() {
    let mut out = String::new();
    let t = vec![(0x41, 0x5A, "Lu".to_string()), (0x61, 0x7A, "Ll".to_string())];
    emit_value_range_bsearch_table("s", &mut out, &t);
    assert_eq!(
        out,
        "// WARNING: Auto-generated by s. DO NOT EDIT MANUALLY!\n&[\n    (0x41,0x5A,\"Lu\"),\n    (0x61,0x7A,\"Ll\"),\n]\n"
    );
}

#[test]
fn emission_is_deterministic() {
    let t = vec![(0x41, 0x5A, "Lu".to_string()), (0xAB, 0xCDEF, "Nd".to_string())];
    let mut a = String::new();
    let mut b = String::new();
    emit_value_range_bsearch_table("s", &mut a, &t);
    emit_value_range_bsearch_table("s", &mut b, &t);
    assert_eq!(a, b);
    let mut c = String::new();
    let mut d = String::new();
    emit_range_bsearch_table("s", &mut c, &vec![(1, 2), (3, 4)]);
    emit_range_bsearch_table("s", &mut d, &vec![(1, 2), (3, 4)]);
    assert_eq!(c, d);
}

#[test]
fn escaped_strings() {
    let mut out = String::new();
    emit_strings("s", &mut out, &vec!["Ab".to_string(), "\u{1F600}".to_string()]);
    assert_eq!(
        out,
        "// WARNING: Auto-generated by s. DO NOT EDIT MANUALLY!\n\"\\\n\n\\u{41}\\u{62}\n\\u{1F600}\\\n\"\n"
    );
}

#[test]
fn unicode_version_value() {
    let v = UnicodeVersion { major: 11, minor: 0, micro: 0 };
    assert_eq!(format_unicode_version(&v), "UnicodeVersion { major: 11, minor: 0, micro: 0 }");
    let mut out = String::new();
    emit_unicode_version("s", &mut out, &v);
    assert_eq!(
        out,
        "// WARNING: Auto-generated by s. DO NOT EDIT MANUALLY!\nUnicodeVersion { major: 11, minor: 0, micro: 0 }\n"
    );
}

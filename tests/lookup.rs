use unic_ucd_gen::lookup::{lookup_flag, lookup_value, lookup_value_or};

fn table() -> Vec<(u32, u32, String)> {
    vec![(0x41, 0x5A, "Lu".to_string()), (0x61, 0x7A, "Ll".to_string())]
}

#[test]
fn boundary_lookups() {
    let t = table();
    assert_eq!(lookup_value(&t, 0x40), None);
    assert_eq!(lookup_value(&t, 0x41), Some("Lu".to_string()));
    assert_eq!(lookup_value(&t, 0x5A), Some("Lu".to_string()));
    assert_eq!(lookup_value(&t, 0x5B), None);
    assert_eq!(lookup_value(&t, 0x61), Some("Ll".to_string()));
    assert_eq!(lookup_value(&t, 0x7A), Some("Ll".to_string()));
    assert_eq!(lookup_value(&t, 0x7B), None);
    assert_eq!(lookup_value(&t, 0), None);
    assert_eq!(lookup_value(&t, 0x10FFFF), None);
}

#[test]
fn lookup_with_default() {
    let t = table();
    let cn = "Cn".to_string();
    assert_eq!(lookup_value_or(&t, 0x60, &cn), "Cn");
    assert_eq!(lookup_value_or(&t, 0x62, &cn), "Ll");
}

#[test]
fn lookup_in_empty_table() {
    assert_eq!(lookup_value(&Vec::new(), 0x41), None);
    assert!(!lookup_flag(&Vec::new(), 0x41));
}

#[test]
fn flag_lookup_boundaries() {
    let t = vec![(0x10, 0x1F), (0x30, 0x30), (0x100, 0x1FF)];
    assert!(!lookup_flag(&t, 0x0F));
    assert!(lookup_flag(&t, 0x10));
    assert!(lookup_flag(&t, 0x1F));
    assert!(!lookup_flag(&t, 0x20));
    assert!(lookup_flag(&t, 0x30));
    assert!(!lookup_flag(&t, 0x31));
    assert!(lookup_flag(&t, 0x180));
    assert!(!lookup_flag(&t, 0x200));
}

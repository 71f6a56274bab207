use unic_ucd_gen::lookup::{lookup_flag, lookup_value};
use unic_ucd_gen::record::{read_unicode_data, ReadError, UnicodeDataEntry};
use unic_ucd_gen::tables::{flag_property_table, general_category_table, property_table};

const LINE_A: &str = "0041;LATIN CAPITAL LETTER A;Lu;0;L;;;;;N;;;;;";

#[test]
fn entry_from_fields() {
    let fields: Vec<String> = LINE_A.split(';').map(String::from).collect();
    let e = UnicodeDataEntry::from(fields);
    assert_eq!(e.codepoint, 0x41);
    assert_eq!(e.name, "LATIN CAPITAL LETTER A");
    assert_eq!(e.general_category, "Lu");
    assert_eq!(e.canonical_combining_class, "0");
    assert_eq!(e.bidi_class, "L");
    assert_eq!(e.bidi_mirrored, "N");
    assert_eq!(e.simple_titlecase_mapping, "");
    assert_eq!(e.field(1), "Lu");
}

#[test]
fn end_to_end_general_category() {
    let data = read_unicode_data(LINE_A).unwrap();
    assert_eq!(data.len(), 1);
    let e = &data[&0x41];
    assert_eq!(e.codepoint, 0x41);
    assert_eq!(e.name, "LATIN CAPITAL LETTER A");
    assert_eq!(e.general_category, "Lu");
    let table = general_category_table(&data);
    assert_eq!(table, vec![(0x41, 0x41, "Lu".to_string())]);
    assert_eq!(lookup_value(&table, 0x41), Some("Lu".to_string()));
    assert_eq!(lookup_value(&table, 0x42), None);
}

#[test]
fn block_expansion() {
    let src = "3400;<CJK Ideograph Extension A, First>;Lo;0;L;;;;;N;;;;;\n\
               4DBF;<CJK Ideograph Extension A, Last>;Lo;0;L;;;;;N;;;;;\n";
    let data = read_unicode_data(src).unwrap();
    assert_eq!(data.len(), 0x4DBF - 0x3400 + 1);
    for cp in 0x3400..=0x4DBFu32 {
        let e = &data[&cp];
        assert_eq!(e.codepoint, cp);
        assert_eq!(e.name, "");
        assert_eq!(e.general_category, "Lo");
    }
    assert!(!data.contains_key(&0x33FF));
    assert!(!data.contains_key(&0x4DC0));
}

#[test]
fn cjk_block_expansion_small() {
    let src = "4E00;<CJK Ideograph, First>;Lo;0;L;;;;;N;;;;;\n\
               4E05;<CJK Ideograph, Last>;Lo;0;L;;;;;N;;;;;";
    let data = read_unicode_data(src).unwrap();
    assert_eq!(data.len(), 6);
    for cp in 0x4E00..=0x4E05u32 {
        assert_eq!(data[&cp].name, "");
        assert_eq!(data[&cp].codepoint, cp);
    }
}

#[test]
fn skips_malformed_lines_and_surrogates() {
    let src = "0041;LATIN CAPITAL LETTER A;Lu;0;L;;;;;N;;;;0061;\r\n\
               \n\
               this line is not a record\n\
               D800;<Non Private Use High Surrogate, First>;Cs;0;L;;;;;N;;;;;\n\
               0042;LATIN CAPITAL LETTER B;Lu;0;L;;;;;N;;;;0062;\n\
               0061;LATIN SMALL LETTER A;Ll;0;L;;;;;N;;;0041;;0041\n";
    let data = read_unicode_data(src).unwrap();
    assert_eq!(data.len(), 3);
    assert_eq!(data[&0x41].simple_lowercase_mapping, "0061");
    assert_eq!(data[&0x41].simple_titlecase_mapping, "");
    assert_eq!(data[&0x42].name, "LATIN CAPITAL LETTER B");
    assert_eq!(data[&0x61].simple_titlecase_mapping, "0041");
    assert!(!data.contains_key(&0xD800));
}

#[test]
fn general_category_table_from_data() {
    let src = "0041;A;Lu;0;L;;;;;N;;;;;\n\
               0042;B;Lu;0;L;;;;;N;;;;;\n\
               0043;C;Lu;0;L;;;;;N;;;;;\n\
               0061;a;Ll;0;L;;;;;N;;;;;\n\
               0062;b;Ll;0;L;;;;;N;;;;;\n\
               0063;c;Lu;0;L;;;;;N;;;;;\n";
    let data = read_unicode_data(src).unwrap();
    let table = general_category_table(&data);
    assert_eq!(
        table,
        vec![
            (0x41, 0x43, "Lu".to_string()),
            (0x61, 0x62, "Ll".to_string()),
            (0x63, 0x63, "Lu".to_string()),
        ]
    );
    let bidi = property_table(&data, 3);
    assert_eq!(bidi, vec![(0x41, 0x43, "L".to_string()), (0x61, 0x63, "L".to_string())]);
}

#[test]
fn flag_table_from_data() {
    let src = "0028;LEFT PARENTHESIS;Ps;0;ON;;;;;Y;OPENING PARENTHESIS;;;;\n\
               0029;RIGHT PARENTHESIS;Pe;0;ON;;;;;Y;CLOSING PARENTHESIS;;;;\n\
               002A;ASTERISK;Po;0;ON;;;;;N;;;;;\n\
               003C;LESS-THAN SIGN;Sm;0;ON;;;;;Y;;;;;\n\
               003D;EQUALS SIGN;Sm;0;ON;;;;;N;;;;;\n\
               003E;GREATER-THAN SIGN;Sm;0;ON;;;;;Y;;;;;\n";
    let data = read_unicode_data(src).unwrap();
    let t = flag_property_table(&data, 8, &"Y".to_string());
    assert_eq!(t, vec![(0x28, 0x29), (0x3C, 0x3C), (0x3E, 0x3E)]);
    assert!(lookup_flag(&t, 0x29));
    assert!(!lookup_flag(&t, 0x2A));
    assert!(!lookup_flag(&t, 0x3D));
    assert!(lookup_flag(&t, 0x3E));
}

#[test]
fn entry_from_ignores_extra_fields() {
    let fields: Vec<String> = "0041;A;Lu;0;L;;;;;N;;;;0061;;extra;more"
        .split(';')
        .map(String::from)
        .collect();
    let e = UnicodeDataEntry::from(fields);
    assert_eq!(e.codepoint, 0x41);
    assert_eq!(e.name, "A");
    assert_eq!(e.simple_lowercase_mapping, "0061");
    assert_eq!(e.simple_titlecase_mapping, "");
}

#[test]
fn reader_skips_lines_with_extra_fields() {
    let data =
        read_unicode_data("0041;A;Lu;0;L;;;;;N;;;;0061;;extra\n0042;B;Lu;0;L;;;;;N;;;;;\n").unwrap();
    assert_eq!(data.len(), 1);
    assert!(data.contains_key(&0x42));
}

#[test]
fn block_over_surrogates_leaves_them_out() {
    let src = "D7FE;<Test Block, First>;Lo;0;L;;;;;N;;;;;\n\
               E001;<Test Block, Last>;Lo;0;L;;;;;N;;;;;\n";
    let data = read_unicode_data(src).unwrap();
    let mut keys: Vec<u32> = data.keys().copied().collect();
    keys.sort();
    assert_eq!(keys, vec![0xD7FE, 0xD7FF, 0xE000, 0xE001]);
    assert!(data.values().all(|e| e.name.is_empty()));
}

#[test]
fn reversed_block_is_an_error() {
    let src = "4E05;<CJK Ideograph, First>;Lo;0;L;;;;;N;;;;;\n\
               4E00;<CJK Ideograph, Last>;Lo;0;L;;;;;N;;;;;\n\
               0041;A;Lu;0;L;;;;;N;;;;;\n";
    assert_eq!(read_unicode_data(src), Err(ReadError::ReversedBlock(0x4E05, 0x4E00)));
}

#[test]
fn block_opener_without_last_is_an_error() {
    let src = "4E00;<CJK Ideograph, First>;Lo;0;L;;;;;N;;;;;\n\
               4E05;SOME OTHER CHARACTER;Lo;0;L;;;;;N;;;;;\n";
    assert_eq!(read_unicode_data(src), Err(ReadError::UnmatchedFirst(0x4E00)));
    let two_openers = "4E00;<CJK Ideograph, First>;Lo;0;L;;;;;N;;;;;\n\
                       4E05;<CJK Ideograph, First>;Lo;0;L;;;;;N;;;;;\n";
    assert_eq!(read_unicode_data(two_openers), Err(ReadError::UnmatchedFirst(0x4E00)));
}

#[test]
fn block_left_open_is_an_error() {
    let src = "0041;A;Lu;0;L;;;;;N;;;;;\n\
               4E00;<CJK Ideograph, First>;Lo;0;L;;;;;N;;;;;\n";
    assert_eq!(read_unicode_data(src), Err(ReadError::UnclosedBlock(0x4E00)));
}

#[test]
fn block_with_other_lines_between() {
    let src = "0041;A;Lu;0;L;;;;;N;;;;;\n\
               not a record\n\
               4E00;<CJK Ideograph, First>;Lo;0;L;;;;;N;;;;;\n\
               junk\n\
               4E02;<CJK Ideograph, Last>;Lo;0;L;;;;;N;;;;;\n";
    let data = read_unicode_data(src).unwrap();
    assert_eq!(data.len(), 4);
}

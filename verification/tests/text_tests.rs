use minidump_analyzer::text;

#[test]
fn hex64_pads_to_sixteen_digits() {
    assert_eq!(text::hex64(0), "0x0000000000000000");
    assert_eq!(text::hex64(0xDEADBEEF), "0x00000000DEADBEEF");
    assert_eq!(text::hex64(u64::MAX), "0xFFFFFFFFFFFFFFFF");
}

#[test]
fn hex32_pads_to_eight_digits() {
    assert_eq!(text::hex32(0xC0000005), "0xC0000005");
    assert_eq!(text::hex32(0x202), "0x00000202");
}

#[test]
fn hex64_reads_back_as_the_value() {
    for v in [0u64, 1, 0xABCDEF, 0x8000_0000_0000_0001, u64::MAX] {
        let s = text::hex64(v);
        assert_eq!(u64::from_str_radix(&s[2..], 16).unwrap(), v);
    }
}

#[test]
fn decimal_renders_shortest_form() {
    assert_eq!(text::decimal(0), "0");
    assert_eq!(text::decimal(7), "7");
    assert_eq!(text::decimal(1234567890), "1234567890");
    assert_eq!(text::decimal(u64::MAX), "18446744073709551615");
}

#[test]
fn replace_all_replaces_every_occurrence() {
    assert_eq!(text::replace_all_str("ntdll.pdb", ".pdb", ".sym"), "ntdll.sym");
    assert_eq!(text::replace_all_str("a.pdb.pdb", ".pdb", ".sym"), "a.sym.sym");
    assert_eq!(text::replace_all_str("aaa", "aa", "b"), "ba");
    assert_eq!(text::replace_all_str("abc", "", "x"), "abc");
}

#[test]
fn starts_with_and_equality() {
    assert!(text::starts_with("<unknown in ntdll>", "<unknown"));
    assert!(text::starts_with("<未知 模块>", "<未知"));
    assert!(!text::starts_with("main", "<unknown"));
    assert!(text::str_eq("pc", "pc"));
    assert!(!text::str_eq("pc", "pcs"));
}

#[test]
fn padding_counts_characters() {
    let mut s = String::new();
    text::push_padded_right(&mut s, "ab", 5);
    assert_eq!(s, "ab   ");
    let mut s = String::new();
    text::push_padded_left(&mut s, "7", 2);
    assert_eq!(s, " 7");
    let mut s = String::new();
    text::push_padded_right(&mut s, "未知", 4);
    assert_eq!(s, "未知  ");
    let mut s = String::new();
    text::push_padded_right(&mut s, "toolong", 3);
    assert_eq!(s, "toolong");
}

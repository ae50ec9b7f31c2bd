use xp_layer::text::{decimal_string, hex_string, pad_right_string, same_text, text_le_exec};

#[test]
fn hex_formats() {
    assert_eq!(hex_string(0x5A4D, 4, true), "5A4D");
    assert_eq!(hex_string(0x14c, 4, false), "014c");
    assert_eq!(hex_string(0, 8, true), "00000000");
    assert_eq!(hex_string(0xDEADBEEF, 8, true), format!("{:08X}", 0xDEADBEEFu32));
    assert_eq!(hex_string(7, 2, true), "07");
    assert_eq!(hex_string(0x1234, 0, true), "");
}

#[test]
fn decimal_formats() {
    for v in [0u64, 7, 10, 99, 100, 8192, 536870913, u64::MAX] {
        assert_eq!(decimal_string(v), v.to_string());
    }
}

#[test]
fn padding() {
    assert_eq!(pad_right_string(".text", 8), format!("{:8}", ".text"));
    assert_eq!(pad_right_string("LONGNAME9", 8), "LONGNAME9");
    assert_eq!(pad_right_string("", 3), "   ");
}

#[test]
fn ordering_and_equality() {
    assert!(text_le_exec("abc", "abd"));
    assert!(text_le_exec("ab", "abc"));
    assert!(!text_le_exec("abc", "ab"));
    assert!(text_le_exec("B", "a"));
    assert!(text_le_exec("", ""));
    assert!(same_text("exe", "exe"));
    assert!(!same_text("exe", "EXE"));
    assert!(!same_text("ex", "exe"));
}

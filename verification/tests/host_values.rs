use td_rs::marshal::{count_to_host, index_from_host, index_to_host, same_text, size_to_host, HostString, NUL_SUBSTITUTE};

#[test]
fn counts_keep_their_value_up_to_the_largest_host_count() {
    assert_eq!(count_to_host(0), 0);
    assert_eq!(count_to_host(3), 3);
    assert_eq!(count_to_host(100), 100);
    assert_eq!(count_to_host(0x7fff_ffff), i32::MAX);
}

#[test]
fn larger_counts_wrap() {
    assert_eq!(count_to_host(0x8000_0000), i32::MIN);
    assert_eq!(count_to_host(0x8000_0001), i32::MIN + 1);
    assert_eq!(count_to_host(u32::MAX), -1);
    assert_eq!(count_to_host(u32::MAX), u32::MAX as i32);
}

#[test]
fn sizes_keep_their_low_bits() {
    assert_eq!(size_to_host(0), 0);
    assert_eq!(size_to_host(7), 7);
    assert_eq!(size_to_host(0x7fff_ffff), i32::MAX);
    assert_eq!(size_to_host(0x8000_0000), i32::MIN);
    assert_eq!(size_to_host(0xffff_ffff), -1);
    assert_eq!(size_to_host(usize::MAX), usize::MAX as i32);
    assert_eq!(index_to_host(0), 0);
    assert_eq!(index_to_host(41), 41);
    assert_eq!(index_to_host(0xffff_ffff), u32::MAX);
    assert_eq!(index_to_host(usize::MAX), usize::MAX as u32);
}

#[test]
fn a_negative_number_is_no_index() {
    assert_eq!(index_from_host(-1), None);
    assert_eq!(index_from_host(i32::MIN), None);
    assert_eq!(index_from_host(0), Some(0));
    assert_eq!(index_from_host(12), Some(12));
    assert_eq!(index_from_host(i32::MAX), Some(0x7fff_ffff));
}

#[test]
fn texts_are_compared_character_for_character() {
    assert!(same_text("", ""));
    assert!(same_text("Scale", "Scale"));
    assert!(!same_text("Scale", "scale"));
    assert!(!same_text("Scale", "Scal"));
    assert!(!same_text("", "a"));
    assert!(same_text("é∑", "é∑"));
    assert!(!same_text("é", "e"));
}

#[test]
fn host_strings_are_terminated() {
    let mut s = HostString::new();
    assert!(s.as_bytes().is_empty());
    s.setString("chan0");
    assert_eq!(s.as_bytes().as_slice(), b"chan0\0");
    s.setString("");
    assert_eq!(s.as_bytes().as_slice(), b"\0");
    s.setString("é");
    assert_eq!(s.as_bytes().as_slice(), &[0xc3, 0xa9, 0]);
}

#[test]
fn a_nul_inside_a_text_is_shown_by_its_substitute() {
    assert_eq!(NUL_SUBSTITUTE, b'?');
    let mut s = HostString::new();
    s.setString("a\0b\0");
    assert_eq!(s.as_bytes().as_slice(), b"a?b?\0");
    s.setString("\0");
    assert_eq!(s.as_bytes().as_slice(), b"?\0");
    let text = "long text before";
    s.setString(text);
    s.setString("x");
    assert_eq!(s.as_bytes().as_slice(), b"x\0");
}

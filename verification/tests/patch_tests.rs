use form_migrate::patch::insert_chars_eq;

#[test]
fn test_insert_chars() {
    let mut a = ['x', 'n', 'w', 'p', 'a', 'n', 'f', 'x', 'e']
        .iter()
        .map(|c| *c as u8)
        .collect::<Vec<_>>();
    let b = ['n', 'f', 'x'].iter().map(|c| *c as u8).collect::<Vec<_>>();
    let c = ['o', 'o', 'o'].iter().map(|c| *c as u8).collect::<Vec<_>>();
    insert_chars_eq(&mut a, &b, &c);

    assert_eq!(a[5], 'o' as u8);
    assert_eq!(a[6], 'o' as u8);
    assert_eq!(a[7], 'o' as u8);
}

#[test]
fn patch_single_occurrence_rewrites_only_the_window() {
    let mut a = b"xnwpanfxe".to_vec();
    let b = b"nfx".to_vec();
    let c = b"ooo".to_vec();
    insert_chars_eq(&mut a, &b, &c);
    assert_eq!(a, b"xnwpaoooe".to_vec());
}

#[test]
fn patch_no_match_is_noop() {
    let mut a = b"hello world".to_vec();
    let b = b"xyz".to_vec();
    let c = b"abc".to_vec();
    insert_chars_eq(&mut a, &b, &c);
    assert_eq!(a, b"hello world".to_vec());
}

#[test]
fn patch_needle_longer_than_buffer_is_noop() {
    let mut a = b"ab".to_vec();
    let b = b"abcdef".to_vec();
    let c = b"uvwxyz".to_vec();
    insert_chars_eq(&mut a, &b, &c);
    assert_eq!(a, b"ab".to_vec());
}

#[test]
fn patch_does_not_scan_the_final_window() {
    // The scan stops before the window that ends at the buffer's last byte,
    // so a needle that is a suffix of the buffer is left alone.
    let mut a = b"abc".to_vec();
    let b = b"bc".to_vec();
    let c = b"xy".to_vec();
    insert_chars_eq(&mut a, &b, &c);
    assert_eq!(a, b"abc".to_vec());
}

#[test]
fn patch_rescans_freshly_written_bytes() {
    // After replacing "ab" at offset 0 with "aa", the scan continues from
    // offset 1, where the just-written 'a' and the original 'b' form a new
    // match that is replaced in turn.
    let mut a = b"abbx".to_vec();
    let b = b"ab".to_vec();
    let c = b"aa".to_vec();
    insert_chars_eq(&mut a, &b, &c);
    assert_eq!(a, b"aaax".to_vec());
}

#[test]
fn patch_preserves_length() {
    let mut a = b"one needle, one needle.".to_vec();
    let before = a.len();
    let b = b"needle".to_vec();
    let c = b"thread".to_vec();
    insert_chars_eq(&mut a, &b, &c);
    assert_eq!(a.len(), before);
    assert_eq!(a, b"one thread, one thread.".to_vec());
}

use voice_to_text::text::{byte_slice, char_width, stable_prefix_len};

#[test]
fn stable_prefix_of_ascii() {
    assert_eq!(stable_prefix_len("Hello", "Hello world"), 5);
    assert_eq!(stable_prefix_len("I think maybe", "I think we should"), 8);
    assert_eq!(stable_prefix_len("Ala", "Ola"), 0);
    assert_eq!(stable_prefix_len("", "abc"), 0);
    assert_eq!(stable_prefix_len("abc", "abc"), 3);
}

#[test]
fn stable_prefix_is_split_point_of_both() {
    let a = "zażółć";
    let b = "zażółw";
    let n = stable_prefix_len(a, b);
    assert_eq!(n, 8);
    assert!(a.is_char_boundary(n));
    assert!(b.is_char_boundary(n));
    assert_eq!(&a[..n], &b[..n]);
}

#[test]
fn stable_prefix_does_not_split_shared_lead_byte() {
    // 'é' and 'è' share their first UTF-8 byte.
    let n = stable_prefix_len("xé", "xè");
    assert_eq!(n, 1);
}

#[test]
fn stable_prefix_with_wide_code_points() {
    assert_eq!(stable_prefix_len("a😀b", "a😀c"), 5);
    assert_eq!(stable_prefix_len("日本語", "日本人"), 6);
}

#[test]
fn char_widths() {
    assert_eq!(char_width('a'), 1);
    assert_eq!(char_width('ż'), 2);
    assert_eq!(char_width('語'), 3);
    assert_eq!(char_width('😀'), 4);
}

#[test]
fn byte_slice_on_and_off_boundaries() {
    assert_eq!(byte_slice("Hello world", 5, 11).as_deref(), Some(" world"));
    assert_eq!(byte_slice("aé", 0, 3).as_deref(), Some("aé"));
    assert_eq!(byte_slice("aé", 2, 3), None);
    assert_eq!(byte_slice("aé", 1, 2), None);
    assert_eq!(byte_slice("abc", 2, 1), None);
    assert_eq!(byte_slice("abc", 1, 4), None);
    assert_eq!(byte_slice("abc", 3, 3).as_deref(), Some(""));
}

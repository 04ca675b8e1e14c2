use shrink_slice::Shrink;
use shrink_slice::ShrinkError;

#[test]
fn kalm() {
    let mut slice: &[u8] = b"hello, world!";
    slice.shrink(1..);
    slice.shrink(..(slice.len() - 1));

    assert_eq!(slice, b"ello, world");
}

#[test]
fn kalm_mut() {
    let mut buffer: [u8; 13] = *b"hello, world!";
    let mut slice: &mut [u8] = &mut buffer;
    slice.shrink(1..);
    slice.shrink(..(slice.len() - 1));

    assert_eq!(slice, b"ello, world");
}

#[test]
#[should_panic]
fn panik() {
    let mut slice: &[u8] = b"hello, world!";
    slice.shrink(..(slice.len() + 1));
}

#[test]
#[should_panic]
fn panik_mut() {
    let mut buffer: [u8; 13] = *b"hello, world!";
    let mut slice: &mut [u8] = &mut buffer;
    slice.shrink(..(slice.len() + 1));
}

#[test]
fn string() {
    let mut slice = "Hello, world!";
    slice.shrink(1..(slice.len() - 1));
    assert_eq!(slice, "ello, world");
}

#[test]
fn string_mut() {
    let mut buffer = "Hello, world!".to_string();
    let mut slice = buffer.as_mut();
    slice.shrink(1..(slice.len() - 1));
    assert_eq!(slice, "ello, world");
}

#[test]
#[should_panic]
fn panik_unicode() {
    "\u{1F62C}".shrink(1..);
}

#[test]
fn fallible_out_of_bounds_leaves_view_unchanged() {
    let mut slice: &[u8] = b"hello, world!";
    let r = slice.try_shrink(..(slice.len() + 1));
    assert_eq!(r, Err(ShrinkError));
    assert_eq!(slice, b"hello, world!");
    assert_eq!(slice.len(), 13);
}

#[test]
fn fallible_start_after_end() {
    let mut slice: &[u8] = b"abc";
    assert_eq!(slice.try_shrink(2..1), Err(ShrinkError));
    assert_eq!(slice, b"abc");
}

#[test]
fn fallible_start_beyond_length() {
    let mut slice: &[u8] = b"abc";
    assert_eq!(slice.try_shrink(4..), Err(ShrinkError));
    assert_eq!(slice, b"abc");
}

#[test]
fn fallible_mut_slice_error_restores_view() {
    let mut buffer: [u8; 3] = *b"abc";
    let mut slice: &mut [u8] = &mut buffer;
    assert_eq!(slice.try_shrink(0..4), Err(ShrinkError));
    assert_eq!(slice, b"abc");
    slice[0] = b'x';
    assert_eq!(slice, b"xbc");
}

#[test]
fn fallible_unicode_misaligned() {
    let mut slice: &str = "\u{1F62C}";
    assert_eq!(slice.len(), 4);
    assert_eq!(slice.try_shrink(1..), Err(ShrinkError));
    assert_eq!(slice, "\u{1F62C}");
}

#[test]
fn fallible_mut_str_error_restores_view() {
    let mut buffer = "\u{1F62C}".to_string();
    let mut slice: &mut str = buffer.as_mut();
    assert_eq!(slice.try_shrink(1..3), Err(ShrinkError));
    assert_eq!(slice, "\u{1F62C}");
}

#[test]
fn full_range_is_a_noop() {
    let mut slice: &[u8] = b"hello, world!";
    slice.shrink(..);
    assert_eq!(slice, b"hello, world!");

    let mut text = "Hello, world!";
    text.shrink(0..13);
    assert_eq!(text, "Hello, world!");
    text.shrink(..);
    assert_eq!(text, "Hello, world!");
}

#[test]
fn shrink_to_empty() {
    let mut slice: &[u8] = b"hello, world!";
    slice.shrink(13..13);
    assert_eq!(slice, b"");
    assert!(slice.try_shrink(0..0).is_ok());
    assert_eq!(slice, b"");
}

#[test]
fn two_shrinks_compose() {
    let mut stepped: &[u8] = b"hello, world!";
    stepped.shrink(2..8);
    stepped.shrink(1..3);

    let mut at_once: &[u8] = b"hello, world!";
    at_once.shrink(3..5);

    assert_eq!(stepped, at_once);
    assert_eq!(stepped, b"lo");
}

#[test]
fn two_text_shrinks_compose() {
    let mut stepped = "na\u{EFF}ve text";
    stepped.shrink(1..);
    stepped.shrink(1..4);

    let mut at_once = "na\u{EFF}ve text";
    at_once.shrink(2..5);

    assert_eq!(stepped, at_once);
    assert_eq!(stepped, "\u{EFF}");
}

#[test]
fn writes_through_shrunk_mut_slice_land_in_the_buffer() {
    let mut buffer: [u8; 5] = *b"abcde";
    {
        let mut slice: &mut [u8] = &mut buffer;
        slice.shrink(1..4);
        assert_eq!(slice, b"bcd");
        slice[0] = b'X';
    }
    assert_eq!(&buffer, b"aXcde");
}

#[test]
fn mut_str_shrink_selects_the_subrange() {
    let mut buffer = "one two three".to_string();
    let mut slice: &mut str = buffer.as_mut();
    slice.shrink(4..);
    slice.shrink(..3);
    assert_eq!(slice, "two");
}

#[test]
fn shrink_inside_closure() {
    let mut buffer = [0u8; 10];
    let mut slice: &mut [u8] = &mut buffer;

    let mut assign_byte = |byte| {
        slice[0] = byte;
        slice.shrink(1..);
    };

    for i in 0..10u8 {
        assign_byte(i);
    }

    assert_eq!(buffer, [0, 1, 2, 3, 4, 5, 6, 7, 8, 9]);
}

#[test]
fn error_message_text() {
    let mut slice: &[u8] = b"abc";
    let e = slice.try_shrink(9..).unwrap_err();
    assert_eq!(e.message(), "cannot index slice by this range");
    assert_eq!(e, ShrinkError);
}

use microui::text_buf::{ConstStr, TextBuf};

#[test]
fn pop_char() {
    let mut vec = ConstStr::<10>::new();
    vec.push_str("ß");
    vec.push_str("X");
    vec.push_str("東");
    vec.push_str("💩");

    let text = "ßX東💩";
    assert_eq!(vec.as_str(), text);

    while vec.len() > 0 {
        vec.pop_char();

        let slice = &text[0..vec.len()];
        assert_eq!(vec.as_str(), slice);
    }

    assert_eq!(vec.len(), 0);
    assert_eq!(vec.as_str(), "");
}

#[test]
fn write_str() {
    let mut vec = ConstStr::<10>::new();
    vec.write_str(&"X".repeat(10)).unwrap();
    vec.write_str(&"X").unwrap_err();
}

#[test]
fn push_str() {
    let mut vec = ConstStr::<10>::new();
    let chars = "XXXXXX\u{df}";

    assert_eq!(vec.push_str(chars), 8);
    assert_eq!(vec.len(), 8);
    assert_eq!(vec.as_str(), chars);

    assert_eq!(vec.push_str(""), 0);
    assert_eq!(vec.len(), 8);
    assert_eq!(vec.as_str(), chars);

    assert_eq!(vec.push_str("東X"), 0);
    assert_eq!(vec.len(), 8);
    assert_eq!(vec.as_str(), chars);

    assert_eq!(vec.push_str("ß東"), 2);
    assert_eq!(vec.len(), 10);
    assert_eq!(vec.as_str(), [chars, "ß"].concat());

    assert_eq!(vec.push_str("ß"), 0);
    assert_eq!(vec.len(), 10);
    assert_eq!(vec.as_str(), [chars, "ß"].concat());

    vec.pop_char();
    assert_eq!(vec.len(), 8);
    assert_eq!(vec.as_str(), chars);

    assert_eq!(vec.push_str("Xß"), 1);
    assert_eq!(vec.len(), 9);
    assert_eq!(vec.as_str(), [chars, "X"].concat());

    assert_eq!(vec.push_str("東"), 0);
    assert_eq!(vec.len(), 9);
    assert_eq!(vec.as_str(), [chars, "X"].concat());
}

#[test]
fn push_str_never_splits_characters() {
    // A capacity that falls in the middle of a two-byte character: only
    // whole characters land in the buffer.
    let mut vec = ConstStr::<7>::new();
    assert_eq!(vec.push_str("éééé"), 6);
    assert_eq!(vec.len(), 6);
    assert_eq!(vec.as_str(), "ééé");
}

#[test]
fn string_buffer_is_unbounded() {
    let mut s = String::new();
    assert_eq!(TextBuf::push_str(&mut s, "hello "), 6);
    assert_eq!(TextBuf::push_str(&mut s, "東"), 3);
    assert_eq!(TextBuf::as_str(&s), "hello 東");
    TextBuf::pop_char(&mut s);
    assert_eq!(TextBuf::as_str(&s), "hello ");
}

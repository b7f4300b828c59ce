use unicode_string::{CharRange, UnicodeString};

#[test]
fn new_buffer_is_empty() {
    let s = UnicodeString::new();
    assert_eq!(s.len(), 0);
    assert_eq!(s.as_view().to_string(), "");
}

#[test]
fn with_capacity_reserves_room() {
    let mut s = UnicodeString::with_capacity(10);
    assert_eq!(s.len(), 0);
    assert!(s.capacity() >= 10);
    let cap = s.capacity();
    for _ in 0..10 {
        s.push('a');
    }
    assert_eq!(s.capacity(), cap);
    s.push('a');
    assert_eq!(s.len(), 11);
    assert!(s.capacity() >= 11);
}

#[test]
fn length_counts_scalar_values() {
    assert_eq!(UnicodeString::from_string("foo").len(), 3);
    assert_eq!(UnicodeString::from_string("ƒoo").len(), 3);
    assert_eq!(UnicodeString::from_string("").len(), 0);
}

#[test]
fn push_appends_and_keeps_the_rest() {
    let mut s = UnicodeString::from_string("abc");
    let before: Vec<char> = s.as_view().chars().to_vec();
    s.push('1');
    assert_eq!(s.len(), 4);
    assert_eq!(s.as_view().index(CharRange::To(3)).chars(), &before[..]);
    assert!(s.capacity() >= 4);
    s.push('2');
    s.push('3');
    assert_eq!(s, UnicodeString::from_string("abc123"));
}

#[test]
fn decode_valid_four_byte_sequence() {
    let s = UnicodeString::from_utf8(vec![240, 159, 146, 150]).unwrap();
    assert_eq!(s.len(), 1);
    assert_eq!(s.as_view().chars(), &['💖']);
    assert_eq!(s, UnicodeString::from_string("💖"));
}

#[test]
fn decode_failure_keeps_bytes() {
    let err = UnicodeString::from_utf8(vec![0, 159]).unwrap_err();
    assert_eq!(err.as_bytes(), &[0, 159]);
    // the NUL byte decodes; the stray continuation byte after it does not
    assert_eq!(err.utf8_error().valid_up_to(), 1);
    assert_eq!(err.into_bytes(), vec![0, 159]);
}

#[test]
fn decode_failure_on_broken_sequence() {
    let err = UnicodeString::from_utf8(vec![0, 159, 146, 150]).unwrap_err();
    assert_eq!(err.into_bytes(), vec![0, 159, 146, 150]);
    let bad_lead = UnicodeString::from_utf8(vec![b'a', b'b', 0xff]).unwrap_err();
    assert_eq!(bad_lead.utf8_error().valid_up_to(), 2);
}

#[test]
fn decode_mixed_widths() {
    let text = "Löwe 老虎 Léopard 💖";
    let s = UnicodeString::from_utf8(text.as_bytes().to_vec()).unwrap();
    assert_eq!(s.len(), 17);
    assert_eq!(s.as_view().to_string(), text);
    assert_eq!(UnicodeString::from_utf8(Vec::new()).unwrap().len(), 0);
}

#[test]
fn owned_copy_of_full_view_round_trips() {
    for t in ["", "Hello world", "Löwe 老虎 Léopard"] {
        let built = UnicodeString::from_string(t);
        let copy = built.as_view().to_owned();
        assert_eq!(copy, built);
        assert_eq!(copy.as_view().to_string(), t);
    }
}

#[test]
fn owned_copy_of_sub_view_is_detached() {
    let mut s = UnicodeString::from_string("hello");
    let copy = s.index(CharRange::Range(1, 4)).to_owned();
    s.push('!');
    s.index_mut(CharRange::Full).set(1, 'a');
    assert_eq!(copy, UnicodeString::from_string("ell"));
    assert_eq!(s.as_view().to_string(), "hallo!");
}

#[test]
fn clone_is_equal_and_independent() {
    let s = UnicodeString::from_string("abc");
    let mut t = s.clone();
    assert_eq!(t, s);
    t.push('d');
    assert_ne!(t, s);
    assert_eq!(s.len(), 3);
}

#[test]
fn clone_into_replaces_target() {
    let source = UnicodeString::from_string("new text");
    let mut target = UnicodeString::from_string("old");
    source.as_view().index(CharRange::From(4)).clone_into(&mut target);
    assert_eq!(target, UnicodeString::from_string("text"));
}

#[test]
fn buffer_and_view_compare_equal() {
    let s = UnicodeString::from_string("Hello world");
    let other = UnicodeString::from_string("Hello world");
    assert!(s == other.as_view());
    assert!(other.as_view() == s);
    assert!(s != other.as_view().index(CharRange::To(5)));
}

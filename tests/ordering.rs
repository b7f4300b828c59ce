use std::cmp::Ordering;
use unicode_string::{unicode_str, UnicodeString};

#[test]
fn differing_character_decides() {
    let ab = ['a', 'b'];
    let ac = ['a', 'c'];
    let a = unicode_str::from_chars(&ab);
    let c = unicode_str::from_chars(&ac);
    assert_eq!(a.compare(&c), Ordering::Less);
    assert_eq!(c.compare(&a), Ordering::Greater);
    assert!(a < c);
    assert_eq!(a.partial_cmp(&c), Some(Ordering::Less));
    assert_eq!(a.cmp(&c), Ordering::Less);
}

#[test]
fn proper_prefix_comes_first() {
    let one = ['a'];
    let two = ['a', 'b'];
    let a = unicode_str::from_chars(&one);
    let ab = unicode_str::from_chars(&two);
    assert_eq!(a.compare(&ab), Ordering::Less);
    assert!(a < ab);
    let empty: unicode_str = Default::default();
    assert_eq!(empty.compare(&a), Ordering::Less);
    assert_eq!(empty.compare(&empty), Ordering::Equal);
}

#[test]
fn code_point_order_not_collation() {
    let upper = ['Z'];
    let lower = ['a'];
    let accented = ['é'];
    let z = unicode_str::from_chars(&upper);
    let a = unicode_str::from_chars(&lower);
    let e = unicode_str::from_chars(&accented);
    assert!(z < a);
    assert!(a < e);
    assert!(z < e);
}

#[test]
fn equality_is_by_content() {
    let s = UnicodeString::from_string("abcabc");
    let first = s.as_view().index(unicode_string::CharRange::To(3));
    let second = s.as_view().index(unicode_string::CharRange::From(3));
    assert_eq!(first, second);
    assert_eq!(second, first);
    assert_eq!(first, first);
    assert_eq!(first.compare(&second), Ordering::Equal);
    let other = UnicodeString::from_string("abd");
    assert_ne!(first, other.as_view());
    assert_ne!(first.compare(&other.as_view()), Ordering::Equal);
}

#[test]
fn buffers_compare_like_their_views() {
    let a = UnicodeString::from_string("ab");
    let b = UnicodeString::from_string("ac");
    let c = UnicodeString::from_string("ad");
    assert!(a < b);
    assert!(b < c);
    assert!(a < c);
    assert_eq!(a.partial_cmp(&a), Some(Ordering::Equal));
    assert_eq!(a.cmp(&c), Ordering::Less);
    assert_eq!(a, UnicodeString::from_string("ab"));
}

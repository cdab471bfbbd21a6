use sso_string::{SsoStringable, SsosPrecond, SsoString};
use std::cmp::Ordering;
use std::hash::Hasher;

fn hash_of<T: std::hash::Hash>(t: &T) -> u64 {
    let mut h = std::collections::hash_map::DefaultHasher::new();
    t.hash(&mut h);
    h.finish()
}

#[test]
fn test_from_roundtrip_all_lengths() {
    let cases = ["", "a", "hello", "12345678901234567890123", "123456789012345678901234",
        "a considerably longer string that cannot possibly be held inline"];
    for s in cases {
        let v = SsoString::from(s);
        assert_eq!(v.as_str(), s);
        assert_eq!(v.len(), s.len());
        assert_eq!(v.is_inlined(), s.len() <= 23);
        assert!(!v.is_static());
        if s.len() > 23 {
            assert_eq!(v.capacity(), s.len());
        } else {
            assert_eq!(v.capacity(), 23);
        }
    }
}

#[test]
fn test_hello_scenario() {
    let s = SsoString::from("hello");
    assert!(s.is_inlined());
    assert_eq!(s.len(), 5);
    assert_eq!(s.as_str(), "hello");
}

#[test]
fn test_inline_overflow_scenario() {
    let mut s = SsoString::from("12345678901234567890");
    s.push_str("abcde");
    assert!(!s.is_inlined());
    assert!(!s.is_static());
    assert_eq!(s.as_str(), "12345678901234567890abcde");
    assert!(s.capacity() >= 25);
}

#[test]
fn test_static_forty_bytes_scenario() {
    static S: &str = "0123456789012345678901234567890123456789";
    assert_eq!(S.len(), 40);
    let mut v = SsoString::from_static(S);
    assert!(v.is_static());
    assert_eq!(v.capacity(), 40);
    assert_eq!(v.len(), 40);
    assert_eq!(v.as_str().as_ptr(), S.as_ptr());

    v.push_str("abcdefghij");
    assert!(!v.is_static());
    assert!(!v.is_inlined());
    assert_eq!(v.as_str(), String::from(S) + "abcdefghij");
    assert_ne!(v.as_str().as_ptr(), S.as_ptr());
}

#[test]
fn test_heap_clone_isolation_scenario() {
    let fifty = "01234567890123456789012345678901234567890123456789";
    assert_eq!(fifty.len(), 50);
    let original = SsoString::from(fifty);
    let original_ptr = original.as_str().as_ptr();
    let mut copy = original.clone();
    copy.push_str("!");
    assert_eq!(original.as_str(), fifty);
    assert_eq!(original.as_str().as_ptr(), original_ptr);
    assert_eq!(copy.as_str(), String::from(fifty) + "!");
    assert_ne!(copy.as_str().as_ptr(), original_ptr);
}

#[test]
fn test_reserve_zero_forces_heap_scenario() {
    let mut s = SsoString::from("tiny");
    assert!(s.is_inlined());
    s.reserve(0);
    assert!(!s.is_inlined());
    assert!(!s.is_static());
    assert_eq!(s.as_str(), "tiny");
    assert!(s.capacity() >= 4);
}

#[test]
fn test_static_clone_cow_isolation() {
    static S: &str = "a static string shared by two clones";
    let original = SsoString::from_static(S);
    let mut copy = original.clone();
    assert_eq!(copy.as_str().as_ptr(), original.as_str().as_ptr());

    copy.push_str(" plus a change");
    assert!(!copy.is_static());
    assert_eq!(copy.as_str(), String::from(S) + " plus a change");
    assert!(original.is_static());
    assert_eq!(original.as_str(), S);
    assert_eq!(original.as_str().as_ptr(), S.as_ptr());
}

#[test]
fn test_push_empty_on_static_changes_nothing() {
    static S: &str = "static content";
    let mut s = SsoString::from_static(S);
    let ptr = s.as_str().as_ptr();
    s.push_str("");
    assert!(s.is_static());
    assert!(!s.is_inlined());
    assert_eq!(s.as_str(), S);
    assert_eq!(s.capacity(), S.len());
    assert_eq!(s.as_str().as_ptr(), ptr);
}

#[test]
fn test_growth_factor_exact_values() {
    // Inline spill: 20 + 5 = 25 bytes; capacity becomes 25 + 25/2 = 37.
    let mut a = SsoString::from("12345678901234567890");
    a.push_str("abcde");
    assert_eq!(a.capacity(), 37);

    // Heap overflow: 30 + 10 = 40 bytes; capacity becomes 40 + 40/2 = 60.
    let thirty = "012345678901234567890123456789";
    assert_eq!(thirty.len(), 30);
    let mut b = SsoString::from(thirty);
    assert_eq!(b.capacity(), 30);
    b.push_str("0123456789");
    assert_eq!(b.capacity(), 60);

    // Static spill: 39 + 10 = 49 bytes; capacity becomes 49 + 49/2 = 73.
    let mut c = SsoString::from_static("0123456789_0123456789_0123456789_static");
    c.push_str("_plus_this");
    assert_eq!(c.len(), 49);
    assert_eq!(c.capacity(), 73);
}

#[test]
fn test_multibyte_lengths_are_byte_counts() {
    let eleven_e_acute = "ééééééééééé"; // 11 characters, 22 bytes
    assert_eq!(eleven_e_acute.len(), 22);
    let mut s = SsoString::from(eleven_e_acute);
    assert!(s.is_inlined());
    assert_eq!(s.len(), 22);

    s.push('é'); // two more bytes cross the inline capacity
    assert!(!s.is_inlined());
    assert_eq!(s.len(), 24);
    assert_eq!(s.as_str(), "éééééééééééé");
    assert_eq!(s.chars().count(), 12);
}

#[test]
fn test_push_characters() {
    let mut s = SsoString::from("ab");
    s.push('c');
    assert!(s.is_inlined());
    assert_eq!(s.as_str(), "abc");

    let mut t = SsoString::from("12345678901234567890123");
    assert!(t.is_inlined());
    t.push('4');
    assert!(!t.is_inlined());
    assert_eq!(t.as_str(), "123456789012345678901234");
    assert!(t.capacity() >= 24);
}

#[test]
fn test_push_assume_static_fits_goes_inline() {
    let mut tagged = SsoString::from_static("hi");
    tagged.push_str_assume::<2>("!!");
    assert!(tagged.is_inlined());
    assert!(!tagged.is_static());
    assert_eq!(tagged.as_str(), "hi!!");
    assert_eq!(tagged.capacity(), 23);

    // The tagged append lands in the same state as the general append.
    let mut general = SsoString::from_static("hi");
    general.push_str("!!");
    assert_eq!(general.is_inlined(), tagged.is_inlined());
    assert_eq!(general.is_static(), tagged.is_static());
    assert_eq!(general.capacity(), tagged.capacity());
    assert_eq!(general.as_str(), tagged.as_str());
}

#[test]
fn test_push_assume_static_empty_is_noop() {
    static S: &str = "still shared static text";
    let mut s = SsoString::from_static(S);
    s.push_str_assume::<2>("");
    assert!(s.is_static());
    assert!(!s.is_inlined());
    assert_eq!(s.as_str(), S);
    assert_eq!(s.capacity(), S.len());
    assert_eq!(s.as_str().as_ptr(), S.as_ptr());
}

#[test]
fn test_new_default_and_is_empty() {
    let a = SsoString::new();
    assert!(a.is_inlined());
    assert!(!a.is_static());
    assert!(a.is_empty());
    assert_eq!(a.len(), 0);
    assert_eq!(a.capacity(), 23);
    assert_eq!(a.as_str(), "");

    let b = SsoString::default();
    assert!(b.is_inlined());
    assert!(b.is_empty());

    assert!(!SsoString::from("x").is_empty());
}

#[test]
fn test_from_utf8_ok_and_err() {
    let ok = SsoString::from_utf8(b"hello".to_vec());
    let s = ok.unwrap();
    assert_eq!(s.as_str(), "hello");
    assert!(!s.is_inlined());
    assert!(!s.is_static());
    assert!(s.capacity() >= 5);

    let err = SsoString::from_utf8(vec![0xff, 0xfe, 0xfd]);
    assert!(err.is_err());

    let truncated = SsoString::from_utf8(vec![0xc3]); // lone leading byte
    assert!(truncated.is_err());
}

#[test]
fn test_from_utf8_adopts_vector_capacity() {
    let mut v: Vec<u8> = Vec::with_capacity(64);
    v.extend_from_slice("adopted".as_bytes());
    let s = SsoString::from_utf8(v).unwrap();
    assert_eq!(s.as_str(), "adopted");
    assert!(s.capacity() >= 64);
}

#[test]
fn test_from_utf8_unchecked_valid_bytes() {
    let s = SsoString::from_utf8_unchecked("déjà vu".as_bytes().to_vec());
    assert_eq!(s.as_str(), "déjà vu");
    assert!(!s.is_inlined());
    assert!(!s.is_static());
}

#[test]
fn test_with_capacity_sizes() {
    let s = SsoString::with_capacity(100);
    assert!(!s.is_inlined());
    assert!(!s.is_static());
    assert_eq!(s.capacity(), 100);
    assert_eq!(s.len(), 0);
    assert_eq!(s.as_str(), "");
}

#[test]
fn test_equality_and_hash_across_states() {
    let word = "dup";
    let inline = SsoString::from(word);
    let stat = SsoString::from_static(word);
    let mut heap = SsoString::with_capacity(8);
    heap.push_str(word);
    assert!(!heap.is_inlined() && !heap.is_static());
    assert!(inline.is_inlined());
    assert!(stat.is_static());

    assert_eq!(inline, stat);
    assert_eq!(stat, heap);
    assert_eq!(inline, heap);
    assert_eq!(inline.cmp(&stat), Ordering::Equal);
    assert_eq!(stat.cmp(&heap), Ordering::Equal);
    assert_eq!(hash_of(&inline), hash_of(&stat));
    assert_eq!(hash_of(&stat), hash_of(&heap));

    let other = SsoString::from("dup2");
    assert_ne!(inline, other);
    assert_ne!(hash_of(&inline), hash_of(&other));

    assert_eq!(inline, String::from(word));
    assert_eq!(stat, String::from(word));
    assert_eq!(heap, String::from(word));
    assert_eq!(inline, word);
}

#[test]
fn test_ordering_matches_owned_strings() {
    let pairs = [("abc", "abd"), ("ab", "abc"), ("", "a"), ("zebra", "apple"), ("same", "same"),
        ("éa", "éb"), ("a", "é")];
    for (x, y) in pairs {
        let sx = SsoString::from(x);
        let sy = SsoString::from_static(y);
        let expected = String::from(x).cmp(&String::from(y));
        assert_eq!(sx.cmp(&sy), expected);
        assert_eq!(sx.partial_cmp(&sy), Some(expected));
        assert_eq!(sx < sy, x < y);
        assert_eq!(sx == sy, x == y);
    }
}

#[test]
fn test_contains_starts_ends() {
    let s = SsoString::from("the quick brown fox");
    assert!(s.contains("quick"));
    assert!(s.contains("the quick brown fox"));
    assert!(s.contains(""));
    assert!(!s.contains("lazy"));
    assert!(s.starts_with("the q"));
    assert!(!s.starts_with("quick"));
    assert!(s.starts_with(""));
    assert!(s.ends_with("fox"));
    assert!(!s.ends_with("brown"));
    assert!(s.ends_with(""));
}

#[test]
fn test_split_once_and_rsplit_once() {
    let s = SsoString::from("key=value=more");
    assert_eq!(s.split_once("="), Some(("key", "value=more")));
    assert_eq!(s.rsplit_once("="), Some(("key=value", "more")));
    assert_eq!(s.split_once(";"), None);
    assert_eq!(s.rsplit_once(";"), None);

    let t = SsoString::from_static("no delimiter here");
    assert_eq!(t.split_once("="), None);
}

#[test]
fn test_split_at_and_checked() {
    let s = SsoString::from("hello world");
    let (a, b) = s.split_at(5);
    assert_eq!(a, "hello");
    assert_eq!(b, " world");

    assert_eq!(s.split_at_checked(0), Some(("", "hello world")));
    assert_eq!(s.split_at_checked(11), Some(("hello world", "")));
    assert_eq!(s.split_at_checked(12), None);

    let multi = SsoString::from("é");
    assert_eq!(multi.split_at_checked(1), None);
    assert_eq!(multi.split_at_checked(2), Some(("é", "")));
}

#[test]
fn test_chars_iteration() {
    let s = SsoString::from("abç");
    let collected: String = s.chars().collect();
    assert_eq!(collected, "abç");
    assert_eq!(s.chars().count(), 3);
}

#[test]
fn test_as_str_assume_each_state() {
    let inline = SsoString::from("inline one");
    assert_eq!(inline.as_str_assume::<0>(), "inline one");
    assert_eq!(inline.as_str_assume::<1>(), "inline one");

    let stat = SsoString::from_static("static one");
    assert_eq!(stat.as_str_assume::<2>(), "static one");

    let heap = SsoString::from("a heap string that is long enough");
    assert_eq!(heap.as_str_assume::<3>(), "a heap string that is long enough");
    assert_eq!(heap.as_str_assume::<4>(), "a heap string that is long enough");
}

#[test]
fn test_precond_into_param_values() {
    assert_eq!(SsosPrecond::Inline.into_param(), 0);
    assert_eq!(SsosPrecond::InlineAssumeCapacity.into_param(), 1);
    assert_eq!(SsosPrecond::Static.into_param(), 2);
    assert_eq!(SsosPrecond::Heap.into_param(), 3);
    assert_eq!(SsosPrecond::HeapAssumeCapacity.into_param(), 4);
    assert_eq!(SsosPrecond::Ascii.into_param(), 5);
}

#[test]
fn test_to_sso_string_conversions() {
    let from_slice = "borrowed".to_sso_string();
    assert_eq!(from_slice.as_str(), "borrowed");
    assert!(from_slice.is_inlined());

    let owned = String::from("an owned string too long to stay inline");
    let from_owned = owned.to_sso_string();
    assert_eq!(from_owned.as_str(), owned.as_str());
    assert!(!from_owned.is_inlined());
    assert_eq!(from_owned.capacity(), owned.len());
}

#[test]
fn test_as_bytes_view() {
    let s = SsoString::from("bytes?");
    assert_eq!(s.as_bytes(), "bytes?".as_bytes());
    let t = SsoString::from_static("static bytes");
    assert_eq!(t.as_bytes(), b"static bytes");
}

use std::borrow::Cow;
use std::cmp::Ordering;
use std::collections::{BTreeMap, HashMap};
use std::hash::{BuildHasher, RandomState};

use inline_str::order::{bytes_equal, compare_bytes};
use inline_str::text::{text_compare, text_equal};
use inline_str::InlineStr;

#[test]
fn test_basic_eq() {
    let words = "the quick brown fox";
    let inline_words = InlineStr::from(words);

    assert_eq!(words, &*inline_words);
    assert_eq!(words, inline_words);
    assert_eq!(inline_words, words);
}

#[test]
fn test_basic_hash() {
    let hasher = RandomState::new();

    let words = "the quick brown fox";
    let inline_words = InlineStr::from(words);

    let words_hash = hasher.hash_one(words);
    let words_hash_2 = hasher.hash_one(words);
    let inline_hash = hasher.hash_one(inline_words);

    assert_eq!(words_hash, words_hash_2);
    assert_eq!(words_hash, inline_hash);
}

#[test]
fn test_borrow() {
    let map = [(InlineStr::from("x"), 5)]
        .into_iter()
        .collect::<HashMap<InlineStr, i32>>();

    let v = map.get("x");
    assert_eq!(v, Some(&5));
}

#[test]
fn test_serde() {
    let s = "hello world";
    let inline_s = InlineStr::from("hello world");
    assert_eq!(s, inline_s);
    let serialized_s = serde_json::to_value(s).unwrap();
    let serialized_inline = serde_json::to_value(inline_s.as_str()).unwrap();
    assert_eq!(serialized_s, serialized_inline);
    let text: String = serde_json::from_value(serialized_s).unwrap();
    let deserialized = InlineStr::from(text);
    assert_eq!(deserialized, "hello world");
}

#[test]
fn round_trip_short_and_long() {
    for s in ["", "x", "abcdefg", "abcdefgh", "the quick brown fox", "héllo wörld ✓ 🦀"] {
        let w = InlineStr::from(s);
        assert_eq!(w.as_str(), s);
        assert_eq!(w.as_str().as_bytes(), s.as_bytes());
        let b: &[u8] = w.as_ref();
        assert_eq!(b, s.as_bytes());
    }
    let long = "a".repeat(300);
    let w = InlineStr::from(long.clone());
    assert_eq!(w.as_str(), long.as_str());
    assert_eq!(w.len(), 300);
}

#[test]
fn construct_from_owned_and_borrowed_string() {
    let owned = String::from("owned text");
    let a = InlineStr::from(&owned);
    let b = InlineStr::from(owned.clone());
    assert_eq!(a, b);
    assert_eq!(a, owned);
    assert_eq!(owned, b);
}

#[test]
fn try_new_accepts_ordinary_text() {
    let w = InlineStr::try_new("abc").unwrap();
    assert_eq!(w.as_str(), "abc");
    assert_eq!(InlineStr::new("").len(), 0);
}

#[test]
fn length_counts_bytes() {
    assert_eq!(InlineStr::from("the quick brown fox").len(), 19);
    assert_eq!(InlineStr::from("x").len(), 1);
    assert_eq!(InlineStr::from("é").len(), 2);
    assert_eq!(InlineStr::from("🦀").len(), 4);
    assert!(InlineStr::from("").is_empty());
    assert!(!InlineStr::from("x").is_empty());
}

#[test]
fn equality_is_symmetric_across_types() {
    let w = InlineStr::from("same");
    let other = InlineStr::from("different");
    let s: &str = "same";
    let owned = String::from("same");
    let borrowed: Cow<str> = Cow::Borrowed("same");
    let cow_owned: Cow<str> = Cow::Owned(String::from("same"));

    assert!(w == s && s == w);
    assert!(w == owned && owned == w);
    assert!(w == borrowed && borrowed == w);
    assert!(w == cow_owned && cow_owned == w);
    assert!(s == &w);
    assert!(&w == w.clone());

    assert!(other != s && s != other);
    assert!(other != owned && owned != other);
    assert!(other != borrowed && borrowed != other);
    assert!(s != &other);
    assert!(&other != w);
}

#[test]
fn equality_ignores_storage() {
    let short_a = InlineStr::from("x");
    let short_b = InlineStr::from(String::from("x"));
    let long_a = InlineStr::from("the quick brown fox");
    let long_b = InlineStr::from(String::from("the quick brown fox"));
    assert_eq!(short_a, short_b);
    assert_eq!(long_a, long_b);
    assert_ne!(short_a, long_a);
}

#[test]
fn equal_values_hash_equally() {
    let hasher = RandomState::new();
    for s in ["x", "the quick brown fox", ""] {
        let a = InlineStr::from(s);
        let b = InlineStr::from(String::from(s));
        assert_eq!(hasher.hash_one(&a), hasher.hash_one(&b));
        assert_eq!(hasher.hash_one(&a), hasher.hash_one(s));
    }
}

#[test]
fn ordering_is_byte_lexicographic() {
    let words = ["", "a", "ab", "abc", "abd", "b", "the quick brown fox", "x", "é", "🦀"];
    for a in words {
        for b in words {
            let wa = InlineStr::from(a);
            let wb = InlineStr::from(b);
            assert_eq!(wa.partial_cmp(&wb), Some(a.as_bytes().cmp(b.as_bytes())));
            assert_eq!(wa.cmp(&wb), a.cmp(b));
            let lt = wa < wb;
            let eq = wa == wb;
            let gt = wb < wa;
            assert_eq!([lt, eq, gt].iter().filter(|x| **x).count(), 1);
        }
    }
    assert!(InlineStr::from("abc") < InlineStr::from("abd"));
    assert!(InlineStr::from("ab") < InlineStr::from("abc"));
    assert!(InlineStr::from("z") < InlineStr::from("é"));
}

#[test]
fn ordering_is_transitive() {
    let a = InlineStr::from("apple");
    let b = InlineStr::from("banana");
    let c = InlineStr::from("the quick brown fox");
    assert!(a < b && b < c && a < c);
}

#[test]
fn clone_keeps_the_bytes() {
    let short = InlineStr::from("x");
    let short_clone = short.clone();
    drop(short);
    assert_eq!(short_clone.as_str(), "x");

    let long = InlineStr::from("the quick brown fox");
    let long_clone = long.clone();
    assert_eq!(long.as_str().as_bytes(), long_clone.as_str().as_bytes());
    drop(long);
    assert_eq!(long_clone.as_str(), "the quick brown fox");
}

#[test]
fn borrow_key_lookup_in_ordered_map() {
    let mut map = BTreeMap::new();
    map.insert(InlineStr::from("x"), 1);
    map.insert(InlineStr::from("the quick brown fox"), 2);
    assert_eq!(map.get("x"), Some(&1));
    assert_eq!(map.get("the quick brown fox"), Some(&2));
    assert_eq!(map.get("y"), None);
}

#[test]
fn borrow_key_lookup_long_key_in_hash_map() {
    let mut map = HashMap::new();
    map.insert(InlineStr::from("the quick brown fox"), 7);
    assert_eq!(map.get("the quick brown fox"), Some(&7));
    assert_eq!(map.get("the quick brown dog"), None);
}

#[test]
fn short_and_long_behave_alike() {
    let hasher = RandomState::new();
    for s in ["x", "the quick brown fox"] {
        let w = InlineStr::from(s);
        assert_eq!(w.as_str(), s);
        assert_eq!(&*w, s);
        let r: &str = w.as_ref();
        assert_eq!(r, s);
        assert_eq!(w.len(), s.len());
        assert_eq!(w, s);
        assert_eq!(s, w);
        assert_eq!(hasher.hash_one(&w), hasher.hash_one(s));
        assert_eq!(w.clone(), w);
    }
}

#[test]
fn serialized_form_matches_plain_text() {
    let w = InlineStr::from("hello world");
    let a = serde_json::to_string(w.as_str()).unwrap();
    let b = serde_json::to_string("hello world").unwrap();
    assert_eq!(a, b);
    assert_eq!(a, "\"hello world\"");
}

#[test]
fn byte_helpers_compare_exactly() {
    assert_eq!(compare_bytes(b"abc", b"abd"), Ordering::Less);
    assert_eq!(compare_bytes(b"abc", b"ab"), Ordering::Greater);
    assert_eq!(compare_bytes(b"", b""), Ordering::Equal);
    assert!(bytes_equal(b"abc", b"abc"));
    assert!(!bytes_equal(b"abc", b"abcd"));
    assert!(text_equal("é", "é"));
    assert!(!text_equal("e", "é"));
    assert_eq!(text_compare("z", "é"), Ordering::Less);
}

use delta_core::hash::SimpleHash;
use delta_core::json::{
    build_string_array, escape, extract_bool, extract_number, extract_object, extract_string,
    top_level_keys,
};

#[test]
fn escape_expands_specials() {
    assert_eq!(escape("plain"), "plain");
    assert_eq!(escape("a\"b\\c"), "a\\\"b\\\\c");
    assert_eq!(escape("x\ny\rz\t"), "x\\ny\\rz\\t");
    assert_eq!(escape(""), "");
}

#[test]
fn extract_bool_reads_flags() {
    assert_eq!(extract_bool("{\"flag\":true}", "flag"), Some(true));
    assert_eq!(extract_bool("{\"flag\": false}", "flag"), Some(false));
    assert_eq!(extract_bool("{\"flag\":1}", "flag"), None);
    assert_eq!(extract_bool("{\"other\":true}", "flag"), None);
}

#[test]
fn extract_number_reads_nanos() {
    assert_eq!(extract_number("{\"eps\":4.0}", "eps"), Some(4_000_000_000));
    assert_eq!(extract_number("{\"eps\":0.2}", "eps"), Some(200_000_000));
    assert_eq!(extract_number("{\"d\":1e-5}", "d"), Some(10_000));
    assert_eq!(extract_number("{\"d\":0.00001}", "d"), Some(10_000));
    assert_eq!(extract_number("{\"n\":-2.5}", "n"), Some(-2_500_000_000));
    assert_eq!(extract_number("{\"n\": 3}", "n"), Some(3_000_000_000));
    assert_eq!(extract_number("{\"n\":1.5e2}", "n"), Some(150_000_000_000));
    assert_eq!(extract_number("{\"n\":\"x\"}", "n"), None);
    assert_eq!(extract_number("{\"m\":3}", "n"), None);
}

#[test]
fn extract_string_unescapes() {
    assert_eq!(
        extract_string("{\"text\":\"hello world\"}", "text"),
        Some("hello world".to_string())
    );
    assert_eq!(extract_string("{\"text\":\"a\\nb\"}", "text"), Some("a\nb".to_string()));
    assert_eq!(extract_string("{\"text\":\"q\\\"q\"}", "text"), Some("q\"q".to_string()));
    assert_eq!(extract_string("{\"text\":123}", "text"), None);
    assert_eq!(extract_string("{\"other\":\"x\"}", "text"), None);
}

#[test]
fn extract_object_tracks_nesting() {
    assert_eq!(
        extract_object("{\"dp\":{\"enabled\":true}}", "dp"),
        Some("{\"enabled\":true}".to_string())
    );
    assert_eq!(
        extract_object("{\"a\":{\"b\":{\"c\":1},\"d\":[2,3]}}", "a"),
        Some("{\"b\":{\"c\":1},\"d\":[2,3]}".to_string())
    );
    assert_eq!(extract_object("{\"a\":1}", "a"), None);
}

#[test]
fn top_level_keys_sees_only_depth_one() {
    let keys = top_level_keys("{\"a\":1,\"b\":{\"c\":2},\"d\":3}");
    assert_eq!(keys, vec!["a".to_string(), "b".to_string(), "d".to_string()]);
}

#[test]
fn top_level_keys_skips_string_values() {
    // Only member keys are collected: a string standing as a value is not.
    let keys = top_level_keys("{\"a\":\"v\"}");
    assert_eq!(keys, vec!["a".to_string()]);

    // A value string full of structural characters changes nothing either.
    let keys = top_level_keys("{\"a\":\"}{,:\",\"b\":1}");
    assert_eq!(keys, vec!["a".to_string(), "b".to_string()]);

    let keys = top_level_keys("{\"a\":\"v\",\"b\":\"w\",\"c\":3}");
    assert_eq!(keys, vec!["a".to_string(), "b".to_string(), "c".to_string()]);
}

#[test]
fn build_string_array_escapes_items() {
    let items: Vec<String> = vec!["a".to_string(), "b\"c".to_string()];
    assert_eq!(build_string_array(&items), "[\"a\",\"b\\\"c\"]");
    let empty: Vec<String> = vec![];
    assert_eq!(build_string_array(&empty), "[]");
}

#[test]
fn simple_hash_matches_reference_values() {
    let h = SimpleHash::new();
    assert_eq!(h.finish32(), 2166136261);
    assert_eq!(h.finish_hex(), "811c9dc5");

    let mut h = SimpleHash::new();
    h.update(b"a");
    assert_eq!(h.finish_hex(), "e40c292c");

    let h = SimpleHash::new();
    assert_eq!(
        h.finish_hex64(),
        "c1cb326952760c9ae72e99d515c9eb3440dbc997242a58b600042eff37cfd174"
    );
}

#[test]
fn simple_hash_digest_is_64_hex_chars() {
    let mut h = SimpleHash::new();
    h.update(b"some body text");
    let d = h.finish_hex64();
    assert_eq!(d.len(), 64);
    assert!(d.chars().all(|c| c.is_ascii_hexdigit()));
}

#[test]
fn hash_is_incremental_over_chunks() {
    let mut one = SimpleHash::new();
    one.update(b"abcdef");
    let mut two = SimpleHash::new();
    two.update(b"abc");
    two.update(b"def");
    assert_eq!(one.finish32(), two.finish32());
}

use fetch_analyze::analysis::{analyze, analyze_bytes, try_analyze};

#[test]
fn empty_payload_yields_zero_pair() {
    assert_eq!(analyze(""), (0, 0));
    assert_eq!(analyze_bytes(&[]), (0, 0));
}

#[test]
fn all_zero_bytes_count_only_zeros() {
    assert_eq!(analyze_bytes(&[0u8; 5]), (0, 40));
    assert_eq!(analyze_bytes(&[0u8; 1]), (0, 8));
}

#[test]
fn all_ones_bytes_count_only_ones() {
    assert_eq!(analyze_bytes(&[0xFFu8; 7]), (56, 0));
    assert_eq!(analyze_bytes(&[0xFFu8; 1]), (8, 0));
}

#[test]
fn ascii_text_counts_exactly() {
    // 'a' = 0x61 has 3 set bits, 'b' = 0x62 has 3 set bits.
    assert_eq!(analyze("a"), (3, 5));
    assert_eq!(analyze("ab"), (6, 10));
}

#[test]
fn counters_range_over_utf8_bytes() {
    // U+00E9 encodes as 0xC3 0xA9: four set bits in each byte.
    assert_eq!(analyze("\u{e9}"), (8, 8));
}

#[test]
fn ones_and_zeros_partition_the_bits() {
    let payloads: [&[u8]; 4] = [&[], &[1, 2, 3], &[250, 0, 255, 17], &[128; 9]];
    for bytes in payloads {
        let (ones, zeros) = analyze_bytes(bytes);
        assert_eq!(ones + zeros, 8 * bytes.len() as u64);
    }
}

#[test]
fn analysis_is_deterministic() {
    let txt = "some payload of mixed bytes \u{e9}\u{1F600}";
    assert_eq!(analyze(txt), analyze(txt));
}

#[test]
fn guarded_analysis_agrees_with_analysis() {
    assert_eq!(try_analyze("ab"), Some((6, 10)));
    assert_eq!(try_analyze(""), Some((0, 0)));
}

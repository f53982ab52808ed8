use std::collections::HashMap;

use monitord::boot::{
    cache_file_path, decode_boot_blame_stats, decode_cached_boot_blame, encode_boot_blame_stats,
    encode_cached_boot_blame, parse_boot_id, plan_boot_blame, BootBlameStep, BootCacheError,
};
use monitord::strmap::StrMap;
use monitord::CollectorTransport;

/// Boot blame seconds as the cache stores them: the bits of each double.
fn stats_of(entries: &[(&str, f64)]) -> StrMap<u64> {
    let mut m = StrMap::new();
    for (name, secs) in entries {
        m.insert(name.to_string(), secs.to_bits());
    }
    m
}

fn seconds(m: &StrMap<u64>) -> HashMap<String, f64> {
    (0..m.len())
        .map(|i| {
            let (k, v) = m.entry_at(i);
            (k.clone(), f64::from_bits(*v))
        })
        .collect()
}

#[test]
fn test_boot_blame_cache_encode_decode_roundtrip() {
    let stats = stats_of(&[("foo.service", 12.3), ("bar.service", 45.6)]);

    let encoded = encode_boot_blame_stats(&stats).expect("encode should succeed");
    let decoded = decode_boot_blame_stats(&encoded).expect("decode should succeed");
    assert_eq!(seconds(&stats), seconds(&decoded));
}

#[test]
fn test_boot_blame_cache_decode_invalid_payload() {
    let invalid_payload = vec![0, 1, 2];
    assert!(decode_boot_blame_stats(&invalid_payload).is_err());
}

#[test]
fn test_cached_boot_blame_roundtrips_transport() {
    let stats = stats_of(&[("foo.service", 12.3)]);
    for transport in [CollectorTransport::Varlink, CollectorTransport::Dbus] {
        let encoded = encode_cached_boot_blame(&stats, transport).expect("encode");
        let decoded = decode_cached_boot_blame(&encoded).expect("decode");
        assert_eq!(seconds(&stats), seconds(&decoded.stats));
        assert_eq!(Some(transport), decoded.transport);
    }
}

#[test]
fn test_legacy_boot_blame_cache_decodes_without_transport() {
    let stats = stats_of(&[("foo.service", 12.3), ("bar.service", 45.6)]);
    let encoded = encode_boot_blame_stats(&stats).expect("encode should succeed");
    let decoded = decode_cached_boot_blame(&encoded).expect("decode should succeed");
    assert_eq!(seconds(&stats), seconds(&decoded.stats));
    assert_eq!(None, decoded.transport);
}

#[test]
fn the_payload_layout() {
    let stats = stats_of(&[("ab", 1.0)]);
    let encoded = encode_boot_blame_stats(&stats).unwrap();
    let mut expected = vec![1, 0, 0, 0, 2, 0, 0, 0, b'a', b'b'];
    expected.extend_from_slice(&1.0f64.to_le_bytes());
    assert_eq!(encoded, expected);
    let cached = encode_cached_boot_blame(&stats, CollectorTransport::Varlink).unwrap();
    assert_eq!(cached.len(), expected.len() + 1);
    assert_eq!(cached[cached.len() - 1], 1);
    // An empty map is just its count.
    assert_eq!(encode_boot_blame_stats(&StrMap::new()).unwrap(), vec![0, 0, 0, 0]);
}

#[test]
fn payload_errors() {
    assert_eq!(decode_boot_blame_stats(&[1, 0]).unwrap_err(), BootCacheError::PayloadTooSmall);
    // One entry announced, no length follows.
    assert_eq!(decode_boot_blame_stats(&[1, 0, 0, 0, 5]).unwrap_err(), BootCacheError::UnexpectedEnd);
    // A name length that runs past the end.
    assert_eq!(decode_boot_blame_stats(&[1, 0, 0, 0, 9, 0, 0, 0, b'x']).unwrap_err(), BootCacheError::InvalidSize);
    // A name that is not UTF-8.
    let mut bad = vec![1, 0, 0, 0, 1, 0, 0, 0, 0xff];
    bad.extend_from_slice(&0u64.to_le_bytes());
    assert_eq!(decode_boot_blame_stats(&bad).unwrap_err(), BootCacheError::Utf8);
    // Bytes after the last entry.
    assert_eq!(decode_boot_blame_stats(&[0, 0, 0, 0, 7, 7]).unwrap_err(), BootCacheError::TrailingBytes);
    // A transport byte other than 0 or 1 reads as a legacy file, which then
    // has trailing bytes.
    assert!(decode_cached_boot_blame(&[0, 0, 0, 0, 2]).is_err());
    assert!(decode_cached_boot_blame(&[]).is_err());
}

#[test]
fn a_name_seen_twice_keeps_its_later_time() {
    let mut payload = vec![2, 0, 0, 0];
    for secs in [1.0f64, 2.0] {
        payload.extend_from_slice(&[1, 0, 0, 0, b'a']);
        payload.extend_from_slice(&secs.to_le_bytes());
    }
    let decoded = decode_boot_blame_stats(&payload).unwrap();
    assert_eq!(decoded.len(), 1);
    assert_eq!(seconds(&decoded).get("a"), Some(&2.0));
}

#[test]
fn cache_files_and_boot_ids() {
    assert_eq!(
        cache_file_path("/run/monitord", "00000000-0000-0000-0000-000000000001"),
        "/run/monitord/00000000-0000-0000-0000-000000000001.boot_blame.bin"
    );
    assert_eq!(cache_file_path("/run/monitord/", "x"), "/run/monitord/x.boot_blame.bin");
    assert_eq!(cache_file_path("", "x"), "x.boot_blame.bin");
    assert_eq!(parse_boot_id(" abc-123\n"), Ok("abc-123".to_string()));
    assert_eq!(parse_boot_id("\n"), Err(BootCacheError::EmptyBootId));
}

#[test]
fn boot_blame_steps() {
    let id = || Some("b00t".to_string());
    assert_eq!(
        plan_boot_blame(false, true, id(), Some(Some(CollectorTransport::Varlink))),
        BootBlameStep::Collect { cache_boot_id: None }
    );
    assert_eq!(plan_boot_blame(true, true, id(), None), BootBlameStep::KeepInMemory);
    assert_eq!(plan_boot_blame(true, false, None, None), BootBlameStep::Collect { cache_boot_id: None });
    assert_eq!(
        plan_boot_blame(true, false, id(), Some(Some(CollectorTransport::Dbus))),
        BootBlameStep::ReplayCache(CollectorTransport::Dbus)
    );
    // A legacy file's stats are used, then collected again and the cache rewritten.
    assert_eq!(
        plan_boot_blame(true, false, id(), Some(None)),
        BootBlameStep::UseCacheThenCollect { cache_boot_id: "b00t".to_string() }
    );
    assert_eq!(plan_boot_blame(true, false, id(), None), BootBlameStep::Collect { cache_boot_id: id() });
}

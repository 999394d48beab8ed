use extism_pdk::error::PdkError;
use extism_pdk::host::Host;
use extism_pdk::memory::Memory;
use serde_json::Value;

#[test]
fn new_allocates_zero_bytes() {
    let mut host = Host::new(Vec::new());
    let m = Memory::new(&mut host, 4);
    assert_ne!(m.offset, 0);
    assert_eq!(m.length, 4);
    assert_eq!(m.len(&host), 4);
    assert!(!m.is_empty(&host));
    assert_eq!(m.load_all(&host), vec![0u8, 0, 0, 0]);
}

#[test]
fn empty_allocation_is_legal() {
    let mut host = Host::new(Vec::new());
    let m = Memory::new(&mut host, 0);
    assert_ne!(m.offset, 0);
    assert_eq!(m.len(&host), 0);
    assert!(m.is_empty(&host));
    assert_eq!(m.load_all(&host), Vec::<u8>::new());
}

#[test]
fn two_allocations_have_different_addresses() {
    let mut host = Host::new(Vec::new());
    let a = Memory::new(&mut host, 2);
    let b = Memory::new(&mut host, 2);
    assert_ne!(a.offset, b.offset);
}

#[test]
fn store_from_start_then_load_all_round_trips() {
    let mut host = Host::new(Vec::new());
    let data = [1u8, 2, 3, 250, 0, 7];
    let mut m = Memory::new(&mut host, data.len() as u64);
    m.store_from_start(&mut host, &data);
    assert_eq!(m.load_all(&host), data.to_vec());
}

#[test]
fn store_shorter_than_allocation_keeps_the_rest() {
    let mut host = Host::new(Vec::new());
    let mut m = Memory::new(&mut host, 5);
    m.store_from_start(&mut host, &[9, 8]);
    assert_eq!(m.load_all(&host), vec![9u8, 8, 0, 0, 0]);
    assert_eq!(m.len(&host), 5);
}

#[test]
fn store_at_offset_overwrites_that_range() {
    let mut host = Host::new(Vec::new());
    let mut m = Memory::new(&mut host, 5);
    m.store(&mut host, &[1, 2, 3, 4, 5], 0);
    m.store(&mut host, &[7, 7], 2);
    assert_eq!(m.load_all(&host), vec![1u8, 2, 7, 7, 5]);
    assert_eq!(m.load(&host, 1, 3), vec![2u8, 7, 7]);
    assert_eq!(m.load(&host, 5, 0), Vec::<u8>::new());
}

#[test]
fn store_out_of_bounds_changes_nothing() {
    let mut host = Host::new(Vec::new());
    let mut m = Memory::new(&mut host, 3);
    m.store_from_start(&mut host, &[1, 2, 3]);
    m.store(&mut host, &[9, 9], 2);
    assert_eq!(m.load_all(&host), vec![1u8, 2, 3]);
    m.store(&mut host, &[9], u64::MAX);
    assert_eq!(m.load_all(&host), vec![1u8, 2, 3]);
}

#[test]
fn load_out_of_bounds_gives_zeros() {
    let mut host = Host::new(Vec::new());
    let mut m = Memory::new(&mut host, 3);
    m.store_from_start(&mut host, &[1, 2, 3]);
    assert_eq!(m.load(&host, 2, 2), vec![0u8, 0]);
}

#[test]
fn other_allocations_are_untouched_by_a_store() {
    let mut host = Host::new(Vec::new());
    let mut a = Memory::new(&mut host, 2);
    let mut b = Memory::new(&mut host, 2);
    a.store_from_start(&mut host, &[1, 1]);
    b.store_from_start(&mut host, &[2, 2]);
    assert_eq!(a.load_all(&host), vec![1u8, 1]);
    assert_eq!(b.load_all(&host), vec![2u8, 2]);
}

#[test]
fn free_releases_the_allocation() {
    let mut host = Host::new(Vec::new());
    let m = Memory::from_string(&mut host, "abc");
    let p = m.offset;
    assert_eq!(host.length(p), 3);
    m.free(&mut host);
    assert_eq!(host.length(p), 0);
    assert_eq!(host.load_u8(p, 0, 2), vec![0u8, 0]);
    let again = Memory::new(&mut host, 1);
    assert_ne!(again.offset, p);
}

#[test]
fn from_string_allocates_exactly_the_bytes() {
    let mut host = Host::new(Vec::new());
    let m = Memory::from_string(&mut host, "héllo");
    assert_eq!(m.length, 6);
    assert_eq!(m.len(&host), 6);
    assert_eq!(m.load_all(&host), "héllo".as_bytes().to_vec());
}

#[test]
fn from_string_then_to_string_round_trips() {
    let mut host = Host::new(Vec::new());
    for s in ["", "plain", "héllo wörld", "日本語", "a\u{0}b"] {
        let m = Memory::from_string(&mut host, s);
        assert_eq!(m.to_string(&host), Ok(s.to_string()));
    }
}

#[test]
fn to_string_rejects_invalid_utf8() {
    let mut host = Host::new(Vec::new());
    let mut m = Memory::new(&mut host, 2);
    m.store_from_start(&mut host, &[0xc3, 0x28]);
    let reason = String::from_utf8(vec![0xc3, 0x28]).unwrap_err().to_string();
    match m.to_string(&host) {
        Err(PdkError::InvalidUtf8 { bytes, reason: why }) => {
            assert_eq!(bytes, vec![0xc3u8, 0x28]);
            assert_eq!(why, reason);
        }
        other => panic!("{:?}", other),
    }
    assert_eq!(
        m.to_json(&host),
        Err(PdkError::InvalidUtf8 { bytes: vec![0xc3, 0x28], reason })
    );
    assert_eq!(m.load_all(&host), vec![0xc3u8, 0x28]);
}

#[test]
fn from_json_stores_the_compact_text() {
    let mut host = Host::new(Vec::new());
    let v: Value = serde_json::from_str("{ \"a\" : [1, 2, null], \"b\": \"x\" }").unwrap();
    let m = Memory::from_json(&mut host, &v).unwrap();
    assert_eq!(m.load_all(&host), b"{\"a\":[1,2,null],\"b\":\"x\"}".to_vec());
    assert_eq!(m.length, 24);
}

#[test]
fn from_json_then_to_json_round_trips() {
    let mut host = Host::new(Vec::new());
    let v: Value =
        serde_json::from_str("{\"name\":\"Ada\",\"n\":[1,-2,true,null,{\"k\":\"v\"}]}").unwrap();
    let m = Memory::from_json(&mut host, &v).unwrap();
    assert_eq!(m.to_json(&host), Ok(v));
}

#[test]
fn to_json_rejects_malformed_text() {
    let mut host = Host::new(Vec::new());
    let m = Memory::from_string(&mut host, "{\"a\":");
    let expected = serde_json::from_str::<Value>("{\"a\":").unwrap_err().to_string();
    assert_eq!(m.to_json(&host), Err(PdkError::Decode(expected)));
}

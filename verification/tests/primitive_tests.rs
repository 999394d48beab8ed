use extism_pdk::host::{
    join_bytes, put, put_headers, read_window, write_window, zero_bytes, Host,
};
use extism_pdk::http::HttpResponse;
use extism_pdk::model::{find, same_bytes, HttpReply, LogLevel};

#[test]
fn zero_bytes_has_the_length_asked_for() {
    assert_eq!(zero_bytes(0), Vec::<u8>::new());
    assert_eq!(zero_bytes(3), vec![0u8, 0, 0]);
}

#[test]
fn read_window_copies_or_gives_zeros() {
    let bytes = [1u8, 2, 3, 4];
    assert_eq!(read_window(&bytes, 0, 4), vec![1u8, 2, 3, 4]);
    assert_eq!(read_window(&bytes, 1, 2), vec![2u8, 3]);
    assert_eq!(read_window(&bytes, 4, 0), Vec::<u8>::new());
    assert_eq!(read_window(&bytes, 3, 2), vec![0u8, 0]);
    assert_eq!(read_window(&bytes, u64::MAX, 1), vec![0u8]);
}

#[test]
fn write_window_overwrites_in_place() {
    assert_eq!(write_window(&[1, 2, 3, 4], 1, &[9, 8]), vec![1u8, 9, 8, 4]);
    assert_eq!(write_window(&[1, 2], 2, &[]), vec![1u8, 2]);
    assert_eq!(write_window(&[1, 2], 0, &[5, 6]), vec![5u8, 6]);
}

#[test]
fn join_bytes_concatenates() {
    assert_eq!(join_bytes(b"ab", b"cd"), b"abcd".to_vec());
    assert_eq!(join_bytes(b"", b""), Vec::<u8>::new());
}

#[test]
fn same_bytes_compares_content() {
    assert!(same_bytes(b"abc", b"abc"));
    assert!(!same_bytes(b"abc", b"abd"));
    assert!(!same_bytes(b"abc", b"ab"));
    assert!(same_bytes(b"", b""));
}

#[test]
fn find_gives_the_latest_entry() {
    let mut entries: Vec<(Vec<u8>, Vec<u8>)> = Vec::new();
    assert_eq!(find(&entries, b"k"), None);
    put(&mut entries, b"k", b"1");
    put(&mut entries, b"j", b"2");
    put(&mut entries, b"k", b"3");
    assert_eq!(find(&entries, b"k"), Some(2));
    assert_eq!(find(&entries, b"j"), Some(1));
    assert_eq!(find(&entries, b"x"), None);
}

#[test]
fn put_headers_prefixes_each_name() {
    let mut entries: Vec<(Vec<u8>, Vec<u8>)> = Vec::new();
    let headers = vec![
        ("A".to_string(), "1".to_string()),
        ("B".to_string(), "2".to_string()),
        ("A".to_string(), "3".to_string()),
    ];
    put_headers(&mut entries, b"h:", &headers);
    assert_eq!(
        entries,
        vec![
            (b"h:A".to_vec(), b"1".to_vec()),
            (b"h:B".to_vec(), b"2".to_vec()),
            (b"h:A".to_vec(), b"3".to_vec()),
        ]
    );
    let i = find(&entries, b"h:A").unwrap();
    assert_eq!(entries[i].1, b"3".to_vec());
}

#[test]
fn allocate_store_load_free() {
    let mut host = Host::new(Vec::new());
    let p = host.allocate(3);
    let q = host.allocate(0);
    assert_ne!(p, 0);
    assert_ne!(q, 0);
    assert_ne!(p, q);
    assert_eq!(host.length(p), 3);
    assert_eq!(host.length(q), 0);
    assert_eq!(host.length(0), 0);
    host.store_u8(p, 1, &[7, 8]);
    assert_eq!(host.load_u8(p, 0, 3), vec![0u8, 7, 8]);
    host.store_u8(p, 2, &[7, 8]);
    assert_eq!(host.load_u8(p, 0, 3), vec![0u8, 7, 8]);
    host.store_u8(0, 0, &[1]);
    host.store_u8(99, 0, &[1]);
    assert_eq!(host.load_u8(99, 0, 1), vec![0u8]);
    assert_eq!(host.http_status_code(p), 0);
    host.free(p);
    assert_eq!(host.length(p), 0);
    host.free(p);
    host.free(0);
    assert_eq!(host.length(q), 0);
    assert_eq!(host.fetch(q), Vec::<u8>::new());
}

#[test]
fn fetch_copies_and_releases() {
    let mut host = Host::new(Vec::new());
    let p = host.allocate(2);
    host.store_u8(p, 0, &[4, 5]);
    assert_eq!(host.fetch(p), vec![4u8, 5]);
    assert_eq!(host.length(p), 0);
    assert_eq!(host.fetch(p), Vec::<u8>::new());
}

#[test]
fn config_get_and_var_load_copy_into_fresh_blocks() {
    let mut host = Host::new(Vec::new());
    host.config.push((b"k".to_vec(), b"v".to_vec()));
    assert_eq!(host.config_get(b"missing"), 0);
    let p = host.config_get(b"k");
    assert_ne!(p, 0);
    assert_eq!(host.load_u8(p, 0, 1), b"v".to_vec());
    assert_eq!(host.var_load(b"n"), 0);
    host.var_store(b"n", &[1, 2]);
    let q = host.var_load(b"n");
    assert_ne!(q, 0);
    assert_ne!(q, p);
    assert_eq!(host.fetch(q), vec![1u8, 2]);
    assert_eq!(host.fetch(p), b"v".to_vec());
}

#[test]
fn log_at_appends() {
    let mut host = Host::new(Vec::new());
    host.log_at(LogLevel::Warn, b"w");
    assert_eq!(host.logs, vec![(LogLevel::Warn, b"w".to_vec())]);
}

#[test]
fn http_send_without_an_answer_fails() {
    let mut host = Host::new(Vec::new());
    let (status, _) = host.http_send();
    assert_ne!(status, 0);
    assert!(host.cells.is_empty());
    assert!(host.vars.is_empty());
}

#[test]
fn http_send_with_an_answer_stores_it() {
    let mut host = Host::new(Vec::new());
    host.reply = Some(HttpReply {
        status: 404,
        headers: vec![("Server".to_string(), "x".to_string())],
        body: Some(b"gone".to_vec()),
    });
    let (status, p) = host.http_send();
    assert_eq!(status, 0);
    assert_ne!(p, 0);
    assert_eq!(host.http_status_code(p), 404);
    assert_eq!(host.var_get("response:header:Server"), Some(b"x".to_vec()));
    assert_eq!(host.var_get("response:body"), Some(b"gone".to_vec()));
}

#[test]
fn from_status_makes_a_handle_only_on_zero() {
    match HttpResponse::from_status(0, 17) {
        Ok(r) => assert_eq!(r.ptr(), 17),
        Err(m) => panic!("{}", m),
    }
    for status in [1, -1, 500, i32::MAX, i32::MIN] {
        match HttpResponse::from_status(status, 17) {
            Ok(_) => panic!("a handle was made"),
            Err(m) => assert_eq!(m, "HTTP request failed"),
        }
    }
}

#[test]
fn only_zero_is_null() {
    assert!(extism_pdk::host::is_null(0));
    assert!(!extism_pdk::host::is_null(1));
    assert!(!extism_pdk::host::is_null(u64::MAX));
}

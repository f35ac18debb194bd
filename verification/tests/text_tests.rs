use carapace::collect_pids;
use carapace::i64_to_string;
use carapace::parse_u64;
use carapace::split_lines;
use carapace::u64_to_string;

#[test]
fn t_u64_to_string() {
    assert_eq!(u64_to_string(0), "0");
    assert_eq!(u64_to_string(7), "7");
    assert_eq!(u64_to_string(1234567890123), "1234567890123");
    assert_eq!(u64_to_string(u64::MAX), "18446744073709551615");
}

#[test]
fn t_i64_to_string() {
    assert_eq!(i64_to_string(-20), "-20");
    assert_eq!(i64_to_string(19), "19");
    assert_eq!(i64_to_string(0), "0");
}

#[test]
fn t_parse_u64() {
    assert_eq!(parse_u64(b"42"), Some(42));
    assert_eq!(parse_u64(b"0"), Some(0));
    assert_eq!(parse_u64(b""), None);
    assert_eq!(parse_u64(b"4a2"), None);
    assert_eq!(parse_u64(b"18446744073709551615"), Some(u64::MAX));
    assert_eq!(parse_u64(b"18446744073709551616"), None);
}

#[test]
fn t_split_and_collect_pids() {
    let pieces = split_lines(b"12\n34\n");
    let flat: Vec<Vec<u8>> = pieces;
    assert_eq!(flat.len(), 3);
    assert_eq!(flat[0], b"12".to_vec());
    assert_eq!(flat[1], b"34".to_vec());
    assert_eq!(flat[2], b"".to_vec());
    let pids = collect_pids(&flat);
    assert_eq!(pids, vec![12, 34]);
}

#[test]
fn t_collect_pids_skips_garbage() {
    let pieces = split_lines(b"10\nnope\n99999999999999999999\n20");
    let pids = collect_pids(&pieces);
    assert_eq!(pids, vec![10, 20]);
}

#[test]
fn t_split_lines_empty() {
    let pieces = split_lines(b"");
    assert_eq!(pieces.len(), 1);
    assert!(pieces[0].is_empty());
    assert!(collect_pids(&pieces).is_empty());
}

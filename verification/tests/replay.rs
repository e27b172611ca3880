use identity_aauth::error::SigErrorCode;
use identity_aauth::replay::{digest_key, encode_tuple, ReplayGuard, MAX_REPLAY_ENTRIES};
use identity_aauth::verification::check_replay;

fn present(guard: &mut ReplayGuard, thumb: &str, created: i64, path: &str, now: i64) -> bool {
    check_replay(guard, thumb, created, "POST", "gw.example", path, 60, now).is_some()
}

#[test]
fn identical_tuple_is_a_replay_inside_the_window() {
    let mut guard = ReplayGuard::new();
    assert!(!present(&mut guard, "t", 1000, "/mcp", 1000));
    let e = check_replay(&mut guard, "t", 1000, "POST", "gw.example", "/mcp", 60, 1060).unwrap();
    assert_eq!(e.code, SigErrorCode::InvalidSignature);
    assert_eq!(
        e.detail,
        "replayed signature: identical (key, created, method, authority, path) tuple already \
         accepted inside the signature window"
    );
    assert!(!present(&mut guard, "t", 1000, "/mcp", 1061));
}

#[test]
fn any_difference_makes_another_tuple() {
    let mut guard = ReplayGuard::default();
    assert!(!present(&mut guard, "t", 1000, "/mcp", 1000));
    assert!(!present(&mut guard, "u", 1000, "/mcp", 1000));
    assert!(!present(&mut guard, "t", 1001, "/mcp", 1000));
    assert!(!present(&mut guard, "t", 1000, "/mcp2", 1000));
    assert!(present(&mut guard, "t", 1000, "/mcp", 1000));
}

#[test]
fn tuple_encoding() {
    assert_eq!(
        encode_tuple("t", 258, "M", "a", "/"),
        b"t\0M\0a\0/\0\0\0\0\0\0\0\x01\x02".to_vec()
    );
    assert_eq!(encode_tuple("", -1, "", "", "")[4..], [255u8; 8]);
}

#[test]
fn tuples_are_remembered_by_their_sha256() {
    let tuple = encode_tuple("t", 1000, "POST", "gw.example", "/mcp");
    let digest: [u8; 32] = sha2::Digest::finalize(sha2::Digest::chain_update(
        <sha2::Sha256 as sha2::Digest>::new(),
        &tuple,
    ))
    .into();
    let mut guard = ReplayGuard::new();
    assert!(!guard.check_and_insert(&digest, 1000, 60, 1000));
    assert!(present(&mut guard, "t", 1000, "/mcp", 1000));
    assert_eq!(digest_key(&digest).chars().count(), 32);
}

#[test]
fn expiry_saturates() {
    let mut guard = ReplayGuard::new();
    assert!(!guard.check_and_insert(&[7; 32], i64::MAX - 1, 60, 0));
    assert!(guard.check_and_insert(&[7; 32], i64::MAX - 1, 60, i64::MAX));
}

fn numbered(n: usize) -> [u8; 32] {
    let mut digest = [0u8; 32];
    digest[..8].copy_from_slice(&(n as u64).to_be_bytes());
    digest
}

#[test]
fn full_memory_forgets_the_dead_and_then_everything() {
    let mut guard = ReplayGuard::new();
    for n in 0..MAX_REPLAY_ENTRIES {
        let created = if n == 0 { 5000 } else { 1000 };
        assert!(!guard.check_and_insert(&numbered(n), created, 60, 1000));
    }
    // All but the first are dead at 2000: they make room, the first stays.
    assert!(!guard.check_and_insert(&numbered(MAX_REPLAY_ENTRIES), 5000, 60, 2000));
    assert!(guard.check_and_insert(&numbered(0), 5000, 60, 2000));

    let mut guard = ReplayGuard::new();
    for n in 0..MAX_REPLAY_ENTRIES {
        assert!(!guard.check_and_insert(&numbered(n), 1000, 60, 1000));
    }
    // All are live: the memory is emptied, and nothing is rejected wrongly.
    assert!(!guard.check_and_insert(&numbered(MAX_REPLAY_ENTRIES), 1000, 60, 1000));
    assert!(!guard.check_and_insert(&numbered(0), 1000, 60, 1000));
}

#[test]
fn only_the_latest_recorded_presentation_counts() {
    let mut guard = ReplayGuard::new();
    // Recorded until 1060, rejected without being recorded, recorded until 1121.
    assert!(!guard.check_and_insert(&[1; 32], 1000, 60, 1000));
    assert!(guard.check_and_insert(&[1; 32], 1050, 60, 1055));
    assert!(!guard.check_and_insert(&[1; 32], 1061, 60, 1061));
    assert!(guard.check_and_insert(&[1; 32], 1061, 60, 1121));
    assert!(!guard.check_and_insert(&[1; 32], 1061, 60, 1122));
}

use bevy_e2e::capture::{CapturedOutput, MAX_CAPTURED_OUTPUT_BYTES};

#[test]
fn push_retains_only_the_tail_when_over_cap() {
    let mut out = CapturedOutput::new();
    // Fill exactly to the cap: no truncation yet.
    out.push(&vec![b'a'; MAX_CAPTURED_OUTPUT_BYTES]);
    assert!(!out.truncated, "at-cap buffer is not truncated");
    assert_eq!(out.data.len(), MAX_CAPTURED_OUTPUT_BYTES);

    // Push a full cap of `b`; the entire `a` tail is displaced, leaving
    // only the newest `cap` bytes (all `b`).
    out.push(&vec![b'b'; MAX_CAPTURED_OUTPUT_BYTES]);
    assert!(out.truncated, "overflowing the cap marks truncation");
    assert_eq!(
        out.data.len(),
        MAX_CAPTURED_OUTPUT_BYTES,
        "stays at the cap"
    );
    assert!(
        out.data.iter().all(|&b| b == b'b'),
        "retains the newest tail"
    );
}

#[test]
fn push_keeps_partial_old_tail_on_small_overflow() {
    let mut out = CapturedOutput::new();
    out.push(&vec![b'a'; MAX_CAPTURED_OUTPUT_BYTES]);
    // A small overflow evicts only the oldest bytes; the retained tail is
    // (cap - 4096) `a`s followed by 4096 `b`s — the last `cap` bytes.
    out.push(&vec![b'b'; 4096]);
    assert!(out.truncated);
    assert_eq!(out.data.len(), MAX_CAPTURED_OUTPUT_BYTES);
    let actual: Vec<u8> = out.data.iter().copied().collect();
    assert!(
        actual[..MAX_CAPTURED_OUTPUT_BYTES - 4096]
            .iter()
            .all(|&b| b == b'a')
    );
    assert!(
        actual[MAX_CAPTURED_OUTPUT_BYTES - 4096..]
            .iter()
            .all(|&b| b == b'b')
    );
}

#[test]
fn push_drops_oldest_in_one_shot_for_a_large_chunk() {
    let mut out = CapturedOutput::new();
    // A single push larger than the cap keeps only the last `cap` bytes.
    let big: Vec<u8> = (0..(MAX_CAPTURED_OUTPUT_BYTES * 2) as u32)
        .map(|i| (i % 251) as u8)
        .collect();
    out.push(&big);
    assert!(out.truncated);
    assert_eq!(out.data.len(), MAX_CAPTURED_OUTPUT_BYTES);
    // Last `cap` bytes of `big` == big[cap..].
    let expected: Vec<u8> = big[MAX_CAPTURED_OUTPUT_BYTES..].to_vec();
    let actual: Vec<u8> = out.data.iter().copied().collect();
    assert_eq!(actual, expected, "retains the exact newest tail");
}

#[test]
fn snapshot_marks_truncation_and_keeps_tail_body() {
    let mut out = CapturedOutput::new();
    out.push(b"header\n");
    out.push(&vec![b'x'; MAX_CAPTURED_OUTPUT_BYTES + 10]);
    let snap = out.snapshot();
    assert!(
        snap.starts_with("... [output truncated, showing last "),
        "truncation marker is prepended"
    );
    // The original "header\n" was evicted; only the newest tail remains.
    assert!(!snap.contains("header"));
    assert!(snap.contains('x'));
}

#[test]
fn snapshot_is_unmarked_when_not_truncated() {
    let mut out = CapturedOutput::new();
    out.push(b"hello\n");
    let snap = out.snapshot();
    assert_eq!(snap, "hello\n");
    assert!(!snap.contains("truncated"));
}

#[test]
fn snapshot_decodes_multibyte_utf8_across_ring_boundary() {
    // Force the ring to wrap by pushing, overflowing, then checking that a
    // multi-byte UTF-8 sequence near the tail decodes lossily without panic.
    let mut out = CapturedOutput::new();
    out.push(&vec![b'a'; MAX_CAPTURED_OUTPUT_BYTES]);
    // '€' is 3 bytes in UTF-8; place it at the very end so it straddles or
    // follows the wrap point. snapshot must not panic and must contain it.
    out.push("€tail".as_bytes());
    let snap = out.snapshot();
    assert!(snap.contains("€tail"));
}

#[test]
fn snapshot_marker_names_the_exact_cap() {
    let mut out = CapturedOutput::new();
    out.push(&vec![b'y'; MAX_CAPTURED_OUTPUT_BYTES + 1]);
    let snap = out.snapshot();
    let marker = "... [output truncated, showing last 1048576 bytes]\n";
    assert!(snap.starts_with(marker));
    assert_eq!(snap.len(), marker.len() + MAX_CAPTURED_OUTPUT_BYTES);
}

#[test]
fn capture_is_the_same_however_the_bytes_are_chunked() {
    let bytes: Vec<u8> = (0..(MAX_CAPTURED_OUTPUT_BYTES + 5000) as u32)
        .map(|i| (i % 7) as u8)
        .collect();
    let mut whole = CapturedOutput::new();
    whole.push(&bytes);
    let mut pieces = CapturedOutput::new();
    for chunk in bytes.chunks(4096) {
        pieces.push(chunk);
    }
    let a: Vec<u8> = whole.data.iter().copied().collect();
    let b: Vec<u8> = pieces.data.iter().copied().collect();
    assert_eq!(a, b);
    assert_eq!(whole.truncated, pieces.truncated);
    assert!(pieces.data.len() <= MAX_CAPTURED_OUTPUT_BYTES);
}

#[test]
fn invalid_utf8_is_replaced_in_snapshot() {
    let mut out = CapturedOutput::new();
    out.push(&[b'o', b'k', 0xff]);
    assert_eq!(out.snapshot(), "ok\u{fffd}");
}

use keccak_bench::compare::verify_digests;
use keccak_bench::dispatch::{plan_dispatch, ConfigError};
use keccak_bench::reference::cpu_keccak;
use keccak_bench::samples::generate_samples;
use tiny_keccak::{Hasher, Keccak};

/// Keccak-256 of one 4-byte message, computed by an independent
/// implementation, as the trusted oracle.
fn oracle_digest(msg: &[u8; 4]) -> [u8; 32] {
    let mut keccak = Keccak::v256();
    keccak.update(msg);
    let mut out = [0u8; 32];
    keccak.finalize(&mut out);
    out
}

fn small_batch() -> Vec<[u8; 4]> {
    vec![[0, 0, 0, 0], [1, 0, 0, 0], [1, 2, 3, 0], [199, 199, 127, 0]]
}

#[test]
fn samples_count_padding_and_uniqueness() {
    let samples = generate_samples();
    assert_eq!(samples.len(), 5_120_000);
    let mut seen = vec![false; 200 * 200 * 128];
    for s in &samples {
        assert_eq!(s[3], 0);
        assert!((s[0] as usize) < 200);
        assert!((s[1] as usize) < 200);
        assert!((s[2] as usize) < 128);
        let slot = (s[0] as usize * 200 + s[1] as usize) * 128 + s[2] as usize;
        assert!(!seen[slot], "payload triple generated twice");
        seen[slot] = true;
    }
}

#[test]
fn samples_are_in_lexicographic_order() {
    let samples = generate_samples();
    assert_eq!(samples[0], [0, 0, 0, 0]);
    assert_eq!(samples[1], [0, 0, 1, 0]);
    assert_eq!(samples[128], [0, 1, 0, 0]);
    assert_eq!(samples[25_600], [1, 0, 0, 0]);
    assert_eq!(samples[5_119_999], [199, 199, 127, 0]);
}

#[test]
fn reference_digests_match_independent_oracle() {
    let batch = small_batch();
    let digests = cpu_keccak(&batch);
    assert_eq!(digests.len(), batch.len());
    for (msg, digest) in batch.iter().zip(digests.iter()) {
        assert_eq!(*digest, oracle_digest(msg));
        assert_ne!(*digest, [0u8; 32]);
    }
}

#[test]
fn reference_pass_is_idempotent() {
    let batch = small_batch();
    let first = cpu_keccak(&batch);
    let second = cpu_keccak(&batch);
    assert_eq!(first, second);
}

#[test]
fn dispatch_buffer_lengths_for_aligned_batches() {
    for batch_size in [32usize, 64, 320] {
        let mut batch: Vec<[u8; 4]> = Vec::new();
        for n in 0..batch_size {
            batch.push([n as u8, (n >> 8) as u8, 7, 0]);
        }
        let plan = match plan_dispatch(&batch) {
            Ok(plan) => plan,
            Err(_) => panic!("aligned batch rejected"),
        };
        assert_eq!(plan.messages.len(), batch_size * 4);
        assert_eq!(plan.output_len, batch_size * 32);
        assert_eq!(plan.global_work_size, batch_size);
        assert_eq!(plan.local_work_size, 32);
        assert_eq!(plan.message_width, 4);
        for (n, sample) in batch.iter().enumerate() {
            for b in 0..4 {
                assert_eq!(plan.messages[n * 4 + b], sample[b]);
            }
        }
    }
}

#[test]
fn end_to_end_two_samples_agree() {
    let batch: Vec<[u8; 4]> = vec![[0, 0, 0, 0], [1, 0, 0, 0]];
    let reference = cpu_keccak(&batch);
    // A correct device path materializes the same digests as one flat buffer.
    let mut device: Vec<u8> = Vec::new();
    for msg in &batch {
        device.extend_from_slice(&oracle_digest(msg));
    }
    assert_eq!(device.len(), batch.len() * 32);
    assert!(verify_digests(&reference, &device).is_ok());
}

#[test]
fn zeroed_device_output_fails_at_first_nonzero_byte() {
    let mut batch: Vec<[u8; 4]> = Vec::new();
    for n in 0..32u8 {
        batch.push([n, 0, 0, 0]);
    }
    let reference = cpu_keccak(&batch);
    let device = vec![0u8; batch.len() * 32];
    let mismatch = match verify_digests(&reference, &device) {
        Ok(()) => panic!("all-zero device output accepted"),
        Err(m) => m,
    };
    // The first position where the true digest is non-zero.
    let mut found = None;
    'outer: for (n, digest) in reference.iter().enumerate() {
        for (x, byte) in digest.iter().enumerate() {
            if *byte != 0 {
                found = Some((n, x, *byte));
                break 'outer;
            }
        }
    }
    let (n, x, byte) = found.expect("no non-zero digest byte");
    assert_eq!(mismatch.index, n);
    assert_eq!(mismatch.offset, x);
    assert_eq!(mismatch.expected, byte);
    assert_eq!(mismatch.actual, 0);
}

#[test]
fn unaligned_or_empty_batch_is_rejected() {
    for batch_size in [1usize, 31, 33, 63] {
        let batch = vec![[0u8, 0, 0, 0]; batch_size];
        assert!(matches!(plan_dispatch(&batch), Err(ConfigError::UnalignedBatch)));
    }
    let empty: Vec<[u8; 4]> = Vec::new();
    assert!(matches!(plan_dispatch(&empty), Err(ConfigError::EmptyBatch)));
}

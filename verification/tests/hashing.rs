use computex::binder::{bind, compute_output_hash};
use computex::hash::{digest_of_bytes, extend_word, FNV_OFFSET};
use computex::job::{validate, Constraints};
use computex::outcome::{ExecStatus, ExecutionOutcome};

fn outcome_with(stdout: &[u8], stderr: &[u8], exit_code: i32) -> ExecutionOutcome {
    ExecutionOutcome {
        status: ExecStatus::Succeeded,
        exit_code,
        stdout: stdout.to_vec(),
        stderr: stderr.to_vec(),
        duration_ms: 10,
        stdout_truncated: false,
        stderr_truncated: false,
    }
}

#[test]
fn digest_of_empty_is_offset_basis() {
    assert_eq!(digest_of_bytes(&Vec::new()), 0xcbf29ce484222325);
    assert_eq!(FNV_OFFSET, 0xcbf29ce484222325);
}

#[test]
fn digest_matches_fnv1a_vectors() {
    assert_eq!(digest_of_bytes(&b"a".to_vec()), 0xaf63dc4c8601ec8c);
    assert_eq!(digest_of_bytes(&b"abc".to_vec()), 0xe71fa2190541574b);
}

#[test]
fn extend_word_folds_one_step() {
    let h = extend_word(FNV_OFFSET, 0x61);
    assert_eq!(h, digest_of_bytes(&b"a".to_vec()));
}

#[test]
fn output_hash_exact_value() {
    assert_eq!(compute_output_hash(&b"42".to_vec(), &Vec::new(), 0), 0x961f81f141605a0b);
}

#[test]
fn output_hash_is_deterministic() {
    let o1 = outcome_with(b"42", b"", 0);
    let o2 = outcome_with(b"42", b"", 0);
    let h1 = compute_output_hash(&o1.stdout, &o1.stderr, o1.exit_code);
    let h2 = compute_output_hash(&o2.stdout, &o2.stderr, o2.exit_code);
    assert_eq!(h1, h2);
}

#[test]
fn bind_records_the_output_hash() {
    let c = Constraints { timeout_ms: 5000, max_memory_bytes: 268435456, max_output_bytes: 1024 };
    let job = validate(b"kernel".to_vec(), c).unwrap();
    let r = bind(&job, outcome_with(b"42", b"", 0), 1);
    assert_eq!(r.job_id, job.id);
    assert_eq!(r.attempt, 1);
    assert_eq!(r.output_hash, 0x961f81f141605a0b);
    assert!(r.is_submittable());
}

#[test]
fn two_executions_same_content_same_hash() {
    let c = Constraints { timeout_ms: 5000, max_memory_bytes: 268435456, max_output_bytes: 1024 };
    let job = validate(b"kernel".to_vec(), c).unwrap();
    let r1 = bind(&job, outcome_with(b"out", b"log", 0), 1);
    let r2 = bind(&job, outcome_with(b"out", b"log", 0), 2);
    assert_eq!(r1.output_hash, r2.output_hash);
    assert_ne!(r1.attempt, r2.attempt);
}

#[test]
fn output_hash_separates_streams() {
    let a = compute_output_hash(&b"ab".to_vec(), &Vec::new(), 0);
    let b = compute_output_hash(&b"a".to_vec(), &b"b".to_vec(), 0);
    assert_ne!(a, b);
}

#[test]
fn output_hash_distinguishes_exit_sign() {
    let pos = compute_output_hash(&b"x".to_vec(), &Vec::new(), 1);
    let neg = compute_output_hash(&b"x".to_vec(), &Vec::new(), -1);
    assert_ne!(pos, neg);
}

#[test]
fn failed_outcome_not_submittable() {
    let c = Constraints { timeout_ms: 5000, max_memory_bytes: 268435456, max_output_bytes: 1024 };
    let job = validate(b"kernel".to_vec(), c).unwrap();
    let mut o = outcome_with(b"", b"boom", 3);
    o.status = ExecStatus::RuntimeFailed;
    let r = bind(&job, o, 1);
    assert!(!r.is_submittable());
}

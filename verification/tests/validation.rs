use computex::job::{
    validate, Constraints, ValidationError, MAX_MEMORY_BYTES, MAX_OUTPUT_CAP_BYTES,
    MAX_SOURCE_BYTES, MAX_TIMEOUT_MS,
};

fn good_constraints() -> Constraints {
    Constraints { timeout_ms: 5000, max_memory_bytes: 268435456, max_output_bytes: 1024 }
}

#[test]
fn validate_is_deterministic() {
    let source = b"__global__ void k() {}".to_vec();
    let c = good_constraints();
    let a = validate(source.clone(), c).unwrap();
    let b = validate(source, c).unwrap();
    assert_eq!(a.id, b.id);
    assert_eq!(a.constraints, b.constraints);
}

#[test]
fn accepted_job_keeps_source_and_constraints() {
    let source = b"kernel".to_vec();
    let c = good_constraints();
    let job = validate(source.clone(), c).unwrap();
    assert_eq!(job.source, source);
    assert_eq!(job.constraints, c);
    assert!(job.id_matches());
}

#[test]
fn tampered_id_is_detected() {
    let mut job = validate(b"kernel".to_vec(), good_constraints()).unwrap();
    job.id = job.id.wrapping_add(1);
    assert!(!job.id_matches());
}

#[test]
fn empty_source_rejected() {
    let r = validate(Vec::new(), good_constraints());
    assert_eq!(r.unwrap_err(), ValidationError::EmptySource);
}

#[test]
fn oversized_source_rejected() {
    let source = vec![0u8; MAX_SOURCE_BYTES as usize + 1];
    let r = validate(source, good_constraints());
    assert_eq!(r.unwrap_err(), ValidationError::SourceTooLarge);
}

#[test]
fn source_at_cap_accepted() {
    let source = vec![7u8; MAX_SOURCE_BYTES as usize];
    assert!(validate(source, good_constraints()).is_ok());
}

#[test]
fn zero_timeout_rejected() {
    let mut c = good_constraints();
    c.timeout_ms = 0;
    assert_eq!(validate(b"k".to_vec(), c).unwrap_err(), ValidationError::BadTimeout);
}

#[test]
fn oversized_timeout_rejected() {
    let mut c = good_constraints();
    c.timeout_ms = MAX_TIMEOUT_MS + 1;
    assert_eq!(validate(b"k".to_vec(), c).unwrap_err(), ValidationError::BadTimeout);
}

#[test]
fn zero_memory_rejected() {
    let mut c = good_constraints();
    c.max_memory_bytes = 0;
    assert_eq!(validate(b"k".to_vec(), c).unwrap_err(), ValidationError::BadMemoryLimit);
}

#[test]
fn oversized_memory_rejected() {
    let mut c = good_constraints();
    c.max_memory_bytes = MAX_MEMORY_BYTES + 1;
    assert_eq!(validate(b"k".to_vec(), c).unwrap_err(), ValidationError::BadMemoryLimit);
}

#[test]
fn zero_output_cap_rejected() {
    let mut c = good_constraints();
    c.max_output_bytes = 0;
    assert_eq!(validate(b"k".to_vec(), c).unwrap_err(), ValidationError::BadOutputCap);
}

#[test]
fn oversized_output_cap_rejected() {
    let mut c = good_constraints();
    c.max_output_bytes = MAX_OUTPUT_CAP_BYTES + 1;
    assert_eq!(validate(b"k".to_vec(), c).unwrap_err(), ValidationError::BadOutputCap);
}

#[test]
fn id_depends_on_source() {
    let c = good_constraints();
    let a = validate(b"kernel one".to_vec(), c).unwrap();
    let b = validate(b"kernel two".to_vec(), c).unwrap();
    assert_ne!(a.id, b.id);
}

#[test]
fn id_depends_on_constraints() {
    let mut c2 = good_constraints();
    c2.timeout_ms = 6000;
    let a = validate(b"kernel".to_vec(), good_constraints()).unwrap();
    let b = validate(b"kernel".to_vec(), c2).unwrap();
    assert_ne!(a.id, b.id);
}

use cdr_runtime_core::server_request_worker::delivery_identity::{
    prompt_chunk_delivery, PromptDeliveryIdentity, PromptIdentityMaterial, SERVER_REQUEST_PROMPT_DOMAIN,
};
use cdr_runtime_core::server_request_worker::recovery::{
    validate_generation, GenerationMismatch, RetrySchedule, MAX_RETRY_DELAY_MS,
};
use cdr_runtime_core::server_request_worker::sent_cache::{SentRequestCache, MAX_COMMITTED_REQUESTS};

fn material(generation: u64, text: &str) -> PromptIdentityMaterial {
    PromptIdentityMaterial {
        generation,
        occurrence: b"occ".to_vec(),
        request_id_json: "\"req-1\"".to_owned(),
        method: "item/tool/requestUserInput".to_owned(),
        thread_id: "thr".to_owned(),
        text: text.to_owned(),
        components_json: b"[]".to_vec(),
    }
}

#[test]
fn delivery_identity_digests_the_framed_material() {
    let identity = PromptDeliveryIdentity::new(&material(7, "Pick one"));
    assert_eq!(identity.generation(), 7);
    assert_eq!(
        identity.logical_key(),
        "7:\"req-1\":60535a0941d849ca82cddbe88f04813032a38996f7cfecdab5e47635dece8391"
    );
}

#[test]
fn delivery_identity_is_deterministic_and_content_bound() {
    let a = PromptDeliveryIdentity::new(&material(7, "Pick one"));
    let b = PromptDeliveryIdentity::new(&material(7, "Pick one"));
    let c = PromptDeliveryIdentity::new(&material(7, "Pick two"));
    let d = PromptDeliveryIdentity::new(&material(8, "Pick one"));
    assert_eq!(a, b);
    assert_ne!(a.logical_key(), c.logical_key());
    assert_ne!(a.logical_key(), d.logical_key());
    assert!(d.logical_key().starts_with("8:"));
}

#[test]
fn only_the_last_chunk_carries_components() {
    let m = material(3, "long prompt");
    let first = prompt_chunk_delivery(&m, 0, 2);
    let last = prompt_chunk_delivery(&m, 1, 2);
    assert_eq!(first.domain, SERVER_REQUEST_PROMPT_DOMAIN);
    assert!(!first.attach_components);
    assert!(last.attach_components);
    assert_eq!(first.logical_key, last.logical_key);
    assert_eq!(first.chunk_index, 0);
    assert_eq!(last.chunk_index, 1);
    let identity = PromptDeliveryIdentity::new(&m);
    assert_eq!(identity.chunk(1, 2), last);
    assert!(!identity.chunk(usize::MAX, 0).attach_components);
}

#[test]
fn sent_cache_remembers_keys_per_generation() {
    let mut cache = SentRequestCache::new();
    assert!(cache.is_empty());
    assert!(!cache.contains(1, "a"));
    cache.remember(1, "a".to_owned());
    cache.remember(1, "a".to_owned());
    assert_eq!(cache.len(), 1);
    assert!(cache.contains(1, "a"));
    assert!(!cache.contains(2, "a"));
    assert!(cache.is_empty());
}

#[test]
fn sent_cache_evicts_oldest_beyond_limit() {
    let mut cache = SentRequestCache::new();
    for i in 0..=MAX_COMMITTED_REQUESTS {
        cache.remember(5, format!("k{i}"));
    }
    assert_eq!(cache.len(), MAX_COMMITTED_REQUESTS);
    assert!(!cache.contains(5, "k0"));
    assert!(cache.contains(5, "k1"));
    assert!(cache.contains(5, &format!("k{MAX_COMMITTED_REQUESTS}")));
}

#[test]
fn retry_schedule_backs_off_and_resets() {
    let mut schedule = RetrySchedule::new();
    assert_eq!(schedule.deadline(), None);
    schedule.schedule_failure(100);
    assert_eq!(schedule.deadline(), Some(1_100));
    schedule.schedule_failure(500);
    assert_eq!(schedule.deadline(), Some(1_100));
    let mut expected = vec![];
    for _ in 0..6 {
        schedule.begin_retry();
        schedule.schedule_failure(0);
        expected.push(schedule.deadline().unwrap());
    }
    assert_eq!(expected, vec![2_000, 4_000, 8_000, 16_000, 30_000, MAX_RETRY_DELAY_MS]);
    schedule.clear();
    assert_eq!(schedule.deadline(), None);
    schedule.schedule_failure(0);
    assert_eq!(schedule.deadline(), Some(1_000));
}

#[test]
fn generation_must_not_change() {
    assert_eq!(validate_generation(4, 4), Ok(()));
    assert_eq!(validate_generation(4, 5), Err(GenerationMismatch { expected: 4, actual: 5 }));
}

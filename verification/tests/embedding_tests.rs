use trieve_server::embedding::{
    classify_status, next_attempt, EmbeddingKind, ErrorKind, Retry, RetryPolicy,
};

const POLICY: RetryPolicy = RetryPolicy { base_delay_ms: 100, max_delay_ms: 1000, max_attempts: 6 };

#[test]
fn a_transient_failure_is_retried_with_doubling_delays() {
    assert_eq!(next_attempt(&POLICY, 1, ErrorKind::Transient), Retry::After { delay_ms: 100 });
    assert_eq!(next_attempt(&POLICY, 2, ErrorKind::Transient), Retry::After { delay_ms: 200 });
    assert_eq!(next_attempt(&POLICY, 3, ErrorKind::Transient), Retry::After { delay_ms: 400 });
    assert_eq!(next_attempt(&POLICY, 4, ErrorKind::Transient), Retry::After { delay_ms: 800 });
}

#[test]
fn the_delay_is_capped() {
    assert_eq!(next_attempt(&POLICY, 5, ErrorKind::Transient), Retry::After { delay_ms: 1000 });
    let odd = RetryPolicy { base_delay_ms: 6, max_delay_ms: 10, max_attempts: 100 };
    assert_eq!(next_attempt(&odd, 1, ErrorKind::Transient), Retry::After { delay_ms: 6 });
    assert_eq!(next_attempt(&odd, 2, ErrorKind::Transient), Retry::After { delay_ms: 10 });
    assert_eq!(next_attempt(&odd, 90, ErrorKind::Transient), Retry::After { delay_ms: 10 });
    let small = RetryPolicy { base_delay_ms: 50, max_delay_ms: 10, max_attempts: 3 };
    assert_eq!(next_attempt(&small, 1, ErrorKind::Transient), Retry::After { delay_ms: 10 });
}

#[test]
fn the_last_attempt_is_not_retried() {
    assert_eq!(next_attempt(&POLICY, 6, ErrorKind::Transient), Retry::GiveUp);
    assert_eq!(next_attempt(&POLICY, 7, ErrorKind::Transient), Retry::GiveUp);
    assert_eq!(next_attempt(&POLICY, 0, ErrorKind::Transient), Retry::GiveUp);
}

#[test]
fn a_permanent_failure_is_not_retried() {
    assert_eq!(next_attempt(&POLICY, 1, ErrorKind::PermanentClient), Retry::GiveUp);
    assert_eq!(next_attempt(&POLICY, 1, ErrorKind::Integrity), Retry::GiveUp);
    assert_eq!(next_attempt(&POLICY, 1, ErrorKind::Fatal), Retry::GiveUp);
}

#[test]
fn a_base_delay_of_zero_never_waits() {
    let eager = RetryPolicy { base_delay_ms: 0, max_delay_ms: 1000, max_attempts: u32::MAX };
    assert_eq!(next_attempt(&eager, 4_000_000_000, ErrorKind::Transient), Retry::After { delay_ms: 0 });
}

#[test]
fn large_delays_do_not_overflow() {
    let huge = RetryPolicy { base_delay_ms: u64::MAX / 2 + 1, max_delay_ms: u64::MAX, max_attempts: 70 };
    assert_eq!(
        next_attempt(&huge, 1, ErrorKind::Transient),
        Retry::After { delay_ms: u64::MAX / 2 + 1 }
    );
    assert_eq!(next_attempt(&huge, 2, ErrorKind::Transient), Retry::After { delay_ms: u64::MAX });
    assert_eq!(next_attempt(&huge, 69, ErrorKind::Transient), Retry::After { delay_ms: u64::MAX });
}

#[test]
fn client_errors_are_permanent_and_the_rest_transient() {
    assert_eq!(classify_status(400), ErrorKind::PermanentClient);
    assert_eq!(classify_status(404), ErrorKind::PermanentClient);
    assert_eq!(classify_status(499), ErrorKind::PermanentClient);
    assert_eq!(classify_status(500), ErrorKind::Transient);
    assert_eq!(classify_status(503), ErrorKind::Transient);
    assert_eq!(classify_status(399), ErrorKind::Transient);
}

#[test]
fn the_kinds_of_embedding_have_their_names() {
    assert_eq!(EmbeddingKind::Doc.name(), "doc");
    assert_eq!(EmbeddingKind::Query.name(), "query");
}

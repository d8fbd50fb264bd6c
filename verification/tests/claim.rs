// One test to the file: the test claims the subscriber slot of its process.

use logging::errors::LoggingError;
use logging::registry::SinkRegistry;
use tracing::Dispatch;

#[test]
fn the_first_claim_succeeds_and_the_second_is_refused() {
    let mut registry = SinkRegistry::new();
    assert!(!registry.is_claimed());
    assert_eq!(registry.claim(Dispatch::none()), Ok(()));
    assert!(registry.is_claimed());
    assert_eq!(registry.claim(Dispatch::none()), Err(LoggingError::InternalError));
    assert_eq!(registry.claim(Dispatch::none()), Err(LoggingError::InternalError));
    assert!(registry.is_claimed());
}
